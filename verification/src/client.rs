//! The session with the service: the tokens it holds, what a request carries, and
//! what follows from each answer of the server.

use crate::error::AnyListError;
use vstd::prelude::*;
use vstd::string::StringExecFns;

verus! {

/// Tokens that can be saved and restored for persistent sessions.
#[derive(Debug, Clone)]
pub struct SavedTokens {
    pub access_token: String,
    pub refresh_token: String,
    pub user_id: String,
    pub is_premium_user: bool,
}

/// The mathematical value of a [`SavedTokens`].
#[verifier::ext_equal]
pub ghost struct SavedTokensView {
    pub access_token: Seq<char>,
    pub refresh_token: Seq<char>,
    pub user_id: Seq<char>,
    pub is_premium_user: bool,
}

impl DeepView for SavedTokens {
    type V = SavedTokensView;

    open spec fn deep_view(&self) -> SavedTokensView {
        SavedTokensView {
            access_token: self.access_token@,
            refresh_token: self.refresh_token@,
            user_id: self.user_id@,
            is_premium_user: self.is_premium_user,
        }
    }
}

/// Authentication events that can be monitored.
#[derive(Debug, Clone)]
pub enum AuthEvent {
    /// Tokens were successfully refreshed.
    TokensRefreshed,
    /// Token refresh failed.
    RefreshFailed(String),
}

/// The authentication state of a session.
#[derive(Debug, Clone)]
pub struct AuthState {
    access_token: String,
    refresh_token: String,
    user_id: String,
    is_premium_user: bool,
    auto_refresh_enabled: bool,
}

impl AuthState {
    /// The tokens the session holds.
    pub closed spec fn tokens(&self) -> SavedTokensView {
        SavedTokensView {
            access_token: self.access_token@,
            refresh_token: self.refresh_token@,
            user_id: self.user_id@,
            is_premium_user: self.is_premium_user,
        }
    }

    /// Whether the session refreshes its tokens by itself when the server asks for it.
    pub closed spec fn auto_refresh(&self) -> bool {
        self.auto_refresh_enabled
    }

    /// The state of a session restored from saved tokens; it refreshes its tokens by
    /// itself.
    pub fn from_tokens(tokens: SavedTokens) -> (state: Self)
        ensures
            state.tokens() == tokens.deep_view(),
            state.auto_refresh(),
    {
        AuthState {
            access_token: tokens.access_token,
            refresh_token: tokens.refresh_token,
            user_id: tokens.user_id,
            is_premium_user: tokens.is_premium_user,
            auto_refresh_enabled: true,
        }
    }

    /// Export tokens for persistent storage.
    pub fn export_tokens(&self) -> (tokens: SavedTokens)
        ensures
            tokens.deep_view() == self.tokens(),
    {
        SavedTokens {
            access_token: self.access_token.clone(),
            refresh_token: self.refresh_token.clone(),
            user_id: self.user_id.clone(),
            is_premium_user: self.is_premium_user,
        }
    }

    /// Disable automatic token refresh.
    pub fn disable_auto_refresh(self) -> (state: Self)
        ensures
            state.tokens() == self.tokens(),
            !state.auto_refresh(),
    {
        AuthState {
            access_token: self.access_token,
            refresh_token: self.refresh_token,
            user_id: self.user_id,
            is_premium_user: self.is_premium_user,
            auto_refresh_enabled: false,
        }
    }

    /// Whether automatic token refresh is enabled.
    pub fn auto_refresh_enabled(&self) -> (enabled: bool)
        ensures
            enabled == self.auto_refresh(),
    {
        self.auto_refresh_enabled
    }

    /// Get the user ID of the session.
    pub fn user_id(&self) -> (user_id: String)
        ensures
            user_id@ == self.tokens().user_id,
    {
        self.user_id.clone()
    }

    /// Check if the user has a premium subscription.
    pub fn is_premium_user(&self) -> (premium: bool)
        ensures
            premium == self.tokens().is_premium_user,
    {
        self.is_premium_user
    }

    /// The access token to authorise requests with.
    pub fn access_token(&self) -> (token: &str)
        ensures
            token@ == self.tokens().access_token,
    {
        self.access_token.as_str()
    }

    /// The refresh token to ask for new tokens with.
    pub fn refresh_token(&self) -> (token: &str)
        ensures
            token@ == self.tokens().refresh_token,
    {
        self.refresh_token.as_str()
    }

    /// Take over the tokens of a successful refresh; everything else stays. Returns
    /// the event to report.
    pub fn tokens_refreshed(&mut self, access_token: String, refresh_token: String) -> (event:
        AuthEvent)
        ensures
            final(self).tokens() == (SavedTokensView {
                access_token: access_token@,
                refresh_token: refresh_token@,
                ..old(self).tokens()
            }),
            final(self).auto_refresh() == old(self).auto_refresh(),
            event is TokensRefreshed,
    {
        self.access_token = access_token;
        self.refresh_token = refresh_token;
        AuthEvent::TokensRefreshed
    }
}

/// What to do with the answer to a request.
#[derive(Debug)]
pub enum ResponseAction {
    /// The request succeeded: hand its body on.
    Deliver,
    /// The server refused the access token: refresh the tokens, then send the request
    /// once more.
    RefreshAndRetry,
    /// The request failed for good with this error.
    Fail(AnyListError),
}

/// Status with which the server refuses an access token.
pub const UNAUTHORIZED: u16 = 401;

/// Whether a status reports success: the statuses from 200 to 299.
pub open spec fn is_success(status: u16) -> bool {
    200 <= status < 300
}

/// The address of an endpoint of the service.
pub open spec fn endpoint_url(endpoint: Seq<char>) -> Seq<char> {
    "https://www.anylist.com/"@ + endpoint
}

/// The address of an endpoint of the service.
pub fn request_url(endpoint: &str) -> (url: String)
    ensures
        url@ == endpoint_url(endpoint@),
{
    "https://www.anylist.com/".to_owned().concat(endpoint)
}

/// The headers that every request to the authentication endpoints carries: the
/// version of the interface and the identifier of this client, in this order.
pub fn client_headers(client_identifier: &str) -> (headers: Vec<(String, String)>)
    ensures
        headers.deep_view() == seq![
            ("X-AnyLeaf-API-Version"@, "3"@),
            ("X-AnyLeaf-Client-Identifier"@, client_identifier@),
        ],
{
    let headers = vec![
        ("X-AnyLeaf-API-Version".to_owned(), "3".to_owned()),
        ("X-AnyLeaf-Client-Identifier".to_owned(), client_identifier.to_owned()),
    ];
    headers
}

/// The headers that every request to the data endpoints carries: the access token
/// as bearer, the version of the interface, the identifier of this client and the
/// content type, in this order.
pub fn get_headers(access_token: &str, client_identifier: &str) -> (headers: Vec<(String, String)>)
    ensures
        headers.deep_view() == seq![
            ("authorization"@, "Bearer "@ + access_token@),
            ("X-AnyLeaf-API-Version"@, "3"@),
            ("X-AnyLeaf-Client-Identifier"@, client_identifier@),
            ("Content-Type"@, "application/x-protobuf"@),
        ],
{
    let headers = vec![
        ("authorization".to_owned(), "Bearer ".to_owned().concat(access_token)),
        ("X-AnyLeaf-API-Version".to_owned(), "3".to_owned()),
        ("X-AnyLeaf-Client-Identifier".to_owned(), client_identifier.to_owned()),
        ("Content-Type".to_owned(), "application/x-protobuf".to_owned()),
    ];
    headers
}

/// Decide what follows from the first answer to a request. `status_text` is the
/// status as the transport prints it.
pub fn judge_response(
    status: u16,
    status_text: &str,
    auto_refresh: bool,
) -> (action: ResponseAction)
    ensures
        status == UNAUTHORIZED && auto_refresh ==> action is RefreshAndRetry,
        status == UNAUTHORIZED && !auto_refresh ==> (action matches ResponseAction::Fail(
            AnyListError::AuthenticationFailed(msg),
        ) && msg@ == "Unauthorized (auto-refresh disabled)"@),
        status != UNAUTHORIZED && !is_success(status) ==> (action matches ResponseAction::Fail(
            AnyListError::NetworkError(msg),
        ) && msg@ == "Request failed with status: "@ + status_text@),
        is_success(status) ==> action is Deliver,
{
    if status == 401 {
        if auto_refresh {
            ResponseAction::RefreshAndRetry
        } else {
            ResponseAction::Fail(
                AnyListError::AuthenticationFailed(
                    "Unauthorized (auto-refresh disabled)".to_owned(),
                ),
            )
        }
    } else if !(200 <= status && status < 300) {
        ResponseAction::Fail(
            AnyListError::NetworkError(
                "Request failed with status: ".to_owned().concat(status_text),
            ),
        )
    } else {
        ResponseAction::Deliver
    }
}

/// Decide what follows from the answer to a request that was sent again after a
/// token refresh: there is no second retry.
pub fn judge_retry_response(status: u16, status_text: &str) -> (outcome: Result<(), AnyListError>)
    ensures
        is_success(status) ==> outcome is Ok,
        !is_success(status) ==> (outcome matches Err(AnyListError::NetworkError(msg)) && msg@
            == "Request failed after token refresh with status: "@ + status_text@),
{
    if !(200 <= status && status < 300) {
        Err(
            AnyListError::NetworkError(
                "Request failed after token refresh with status: ".to_owned().concat(status_text),
            ),
        )
    } else {
        Ok(())
    }
}

/// The words that report a refused token refresh.
pub open spec fn refresh_failure_text(status_text: Seq<char>, body: Seq<char>) -> Seq<char> {
    "Token refresh failed with status: "@ + status_text + ", body: "@ + body
}

/// What a refused token refresh leads to: the event to report and the error to
/// return, both with the same words.
pub fn refresh_failed(status_text: &str, body: &str) -> (outcome: (AuthEvent, AnyListError))
    ensures
        outcome.0 matches AuthEvent::RefreshFailed(msg) && msg@ == refresh_failure_text(
            status_text@,
            body@,
        ),
        outcome.1 matches AnyListError::AuthenticationFailed(msg) && msg@ == refresh_failure_text(
            status_text@,
            body@,
        ),
{
    let msg = "Token refresh failed with status: ".to_owned().concat(status_text).concat(
        ", body: ",
    ).concat(body);
    let copy = msg.clone();
    (AuthEvent::RefreshFailed(copy), AnyListError::AuthenticationFailed(msg))
}

/// The words that report a refused login.
pub open spec fn login_failure_text(status_text: Seq<char>, body: Seq<char>) -> Seq<char> {
    "Login failed with status: "@ + status_text + ", body: "@ + body
}

/// The error that a refused login leads to.
pub fn login_failed(status_text: &str, body: &str) -> (error: AnyListError)
    ensures
        error matches AnyListError::AuthenticationFailed(msg) && msg@ == login_failure_text(
            status_text@,
            body@,
        ),
{
    AnyListError::AuthenticationFailed(
        "Login failed with status: ".to_owned().concat(status_text).concat(", body: ").concat(body),
    )
}

} // verus!
