//! iCalendar export of the meal-planning calendar: the export token found in a
//! server response, and the address under which the calendar can be subscribed to.

use vstd::prelude::*;
use vstd::string::StringExecFns;

verus! {

/// iCalendar export info for the meal planning calendar.
#[derive(Debug, Clone, PartialEq, Eq)]
pub struct ICalendarInfo {
    pub(crate) enabled: bool,
    pub(crate) url: Option<String>,
    pub(crate) token: Option<String>,
}

/// The mathematical value of an [`ICalendarInfo`].
#[verifier::ext_equal]
pub ghost struct ICalendarInfoView {
    pub enabled: bool,
    pub url: Option<Seq<char>>,
    pub token: Option<Seq<char>>,
}

impl DeepView for ICalendarInfo {
    type V = ICalendarInfoView;

    closed spec fn deep_view(&self) -> ICalendarInfoView {
        ICalendarInfoView {
            enabled: self.enabled,
            url: self.url.deep_view(),
            token: self.token.deep_view(),
        }
    }
}

impl ICalendarInfo {
    /// Export info with the given parts.
    pub fn new(enabled: bool, url: Option<String>, token: Option<String>) -> (info: Self)
        ensures
            info.deep_view() == (ICalendarInfoView {
                enabled,
                url: url.deep_view(),
                token: token.deep_view(),
            }),
    {
        ICalendarInfo { enabled, url, token }
    }

    /// Whether iCalendar export is enabled.
    pub fn enabled(&self) -> (enabled: bool)
        ensures
            enabled == self.deep_view().enabled,
    {
        self.enabled
    }

    /// The iCalendar URL for subscribing to the meal planning calendar.
    pub fn url(&self) -> (url: Option<&str>)
        ensures
            url.deep_view() == self.deep_view().url,
    {
        match &self.url {
            Some(url) => Some(url.as_str()),
            None => None,
        }
    }

    /// The iCalendar token (used to construct the URL).
    pub fn token(&self) -> (token: Option<&str>)
        ensures
            token.deep_view() == self.deep_view().token,
    {
        match &self.token {
            Some(token) => Some(token.as_str()),
            None => None,
        }
    }

    /// The export info of a calendar whose export was just enabled, read from the
    /// server's response: the token found in it, and the address made from the token.
    pub fn from_enable_response(data: &[u8]) -> (info: ICalendarInfo)
        ensures
            info.deep_view() == (ICalendarInfoView {
                enabled: true,
                url: match token_in(data@) {
                    Some(token) => Some(icalendar_url_of(token)),
                    None => None,
                },
                token: token_in(data@),
            }),
    {
        let token = extract_icalendar_token(data);
        let url = match &token {
            Some(token) => Some(icalendar_url(token.as_str())),
            None => None,
        };
        ICalendarInfo { enabled: true, url, token }
    }
}

/// The pattern of an export token: 32 lower-case hexadecimal digits.
pub open spec fn token_pattern() -> Seq<char> {
    "[a-f0-9]{32}"@
}

/// The opening digits of the identifiers that are user IDs rather than tokens.
pub open spec fn user_id_prefix() -> Seq<char> {
    "9540"@
}

/// Names the text that `String::from_utf8_lossy` makes of a byte string.
pub uninterp spec fn utf8_lossy(bytes: Seq<u8>) -> Seq<char>;

/// Names the matches that a `regex` pattern finds in a text, leftmost first and
/// without overlap, as `Regex::find_iter` yields them; `None` for a pattern that
/// `Regex::new` rejects.
pub uninterp spec fn regex_matches(pattern: Seq<char>, text: Seq<char>) -> Option<Seq<Seq<char>>>;

/// Calls `String::from_utf8_lossy`, which decodes bytes as UTF-8 and puts the
/// replacement character in place of every invalid sequence. The text depends on the
/// bytes alone; the contract ties it to its name.
#[verifier::external_body]
fn lossy_text(data: &[u8]) -> (text: String)
    ensures
        text@ == utf8_lossy(data@),
{
    String::from_utf8_lossy(data).into_owned()
}

/// Compiles `pattern` with `Regex::new` and collects what `Regex::find_iter` yields
/// on `text`, each match as its own string. The matches depend on pattern and text
/// alone; the contract ties them to their name, and to `None` when the pattern is
/// rejected.
#[verifier::external_body]
fn find_all(pattern: &str, text: &str) -> (found: Option<Vec<String>>)
    ensures
        found.deep_view() == regex_matches(pattern@, text@),
{
    match regex::Regex::new(pattern) {
        Ok(re) => Some(re.find_iter(text).map(|m| m.as_str().to_string()).collect()),
        Err(_) => None,
    }
}

/// Whether a candidate looks like a user ID.
pub open spec fn is_user_id(candidate: Seq<char>) -> bool {
    user_id_prefix().is_prefix_of(candidate)
}

/// Position of the first candidate at or after `from` that is no user ID, or the
/// number of candidates if there is none.
pub open spec fn first_token_from(candidates: Seq<Seq<char>>, from: int) -> int
    decreases candidates.len() - from,
{
    if from < 0 || from >= candidates.len() {
        candidates.len() as int
    } else if !is_user_id(candidates[from]) {
        from
    } else {
        first_token_from(candidates, from + 1)
    }
}

/// The token among the candidates found in a response: the first that does not look
/// like a user ID; if all do, the last; if there is none, nothing.
pub open spec fn token_among(candidates: Seq<Seq<char>>) -> Option<Seq<char>> {
    if candidates.len() == 0 {
        None
    } else if first_token_from(candidates, 0) < candidates.len() {
        Some(candidates[first_token_from(candidates, 0)])
    } else {
        Some(candidates.last())
    }
}

/// The token that a response holds.
pub open spec fn token_in(data: Seq<u8>) -> Option<Seq<char>> {
    match regex_matches(token_pattern(), utf8_lossy(data)) {
        Some(candidates) => token_among(candidates),
        None => None,
    }
}

/// The subscription address for a token.
pub open spec fn icalendar_url_of(token: Seq<char>) -> Seq<char> {
    "https://icalendar.anylist.com/"@ + token + ".ics"@
}

/// Whether a candidate looks like a user ID.
fn looks_like_user_id(candidate: &str) -> (user_id: bool)
    ensures
        user_id == is_user_id(candidate@),
{
    proof {
        reveal_strlit("9540");
    }
    let n = candidate.unicode_len();
    let user_id = n >= 4 && candidate.get_char(0) == '9' && candidate.get_char(1) == '5'
        && candidate.get_char(2) == '4' && candidate.get_char(3) == '0';
    proof {
        if user_id {
        } else if n >= 4 {
            assert(candidate@.subrange(0, 4) != "9540"@) by {
                if candidate@.subrange(0, 4) == "9540"@ {
                    assert(candidate@.subrange(0, 4)[0] == '9');
                    assert(candidate@.subrange(0, 4)[1] == '5');
                    assert(candidate@.subrange(0, 4)[2] == '4');
                    assert(candidate@.subrange(0, 4)[3] == '0');
                }
            }
        }
    }
    user_id
}

/// Pick the token among the candidates found in a response.
pub fn pick_icalendar_token(candidates: &Vec<String>) -> (token: Option<String>)
    ensures
        token.deep_view() == token_among(candidates.deep_view()),
{
    let ghost values = candidates.deep_view();
    let mut i: usize = 0;
    while i < candidates.len()
        invariant
            i <= candidates.len(),
            values == candidates.deep_view(),
            first_token_from(values, 0) == first_token_from(values, i as int),
        decreases candidates.len() - i,
    {
        if !looks_like_user_id(candidates[i].as_str()) {
            return Some(candidates[i].clone());
        }
        i += 1;
    }
    if candidates.len() == 0 {
        None
    } else {
        Some(candidates[candidates.len() - 1].clone())
    }
}

/// Extract the iCalendar token from response bytes: a run of 32 hexadecimal digits
/// that is not a user ID, if there is one.
pub fn extract_icalendar_token(data: &[u8]) -> (token: Option<String>)
    ensures
        token.deep_view() == token_in(data@),
{
    let text = lossy_text(data);
    match find_all("[a-f0-9]{32}", text.as_str()) {
        Some(candidates) => pick_icalendar_token(&candidates),
        None => None,
    }
}

/// The subscription address for a token.
pub fn icalendar_url(token: &str) -> (url: String)
    ensures
        url@ == icalendar_url_of(token@),
{
    "https://icalendar.anylist.com/".to_owned().concat(token).concat(".ics")
}

/// The subscription address that a response holds, if it holds a token.
pub fn icalendar_url_from_response(data: &[u8]) -> (url: Option<String>)
    ensures
        url.deep_view() == match token_in(data@) {
            Some(token) => Some(icalendar_url_of(token)),
            None => None,
        },
{
    match extract_icalendar_token(data) {
        Some(token) => Some(icalendar_url(token.as_str())),
        None => None,
    }
}

} // verus!
