//! The address of the change-notification listener, with its query parameters
//! percent-encoded.

use vstd::prelude::*;
use vstd::string::StringExecFns;
use vstd::utf8::{decode_utf8, encode_utf8};

verus! {

/// Bytes that percent-encoding leaves as they are: ASCII letters, digits and `-._~`.
pub open spec fn is_unreserved(b: u8) -> bool {
    ||| 0x30 <= b <= 0x39
    ||| 0x41 <= b <= 0x5a
    ||| 0x61 <= b <= 0x7a
    ||| b == 0x2d
    ||| b == 0x2e
    ||| b == 0x5f
    ||| b == 0x7e
}

/// The upper-case hexadecimal digit for a value below sixteen.
pub open spec fn hex_digit(n: u8) -> u8 {
    if n < 10 {
        (0x30 + n) as u8
    } else {
        (0x41 + n - 10) as u8
    }
}

/// One byte, percent-encoded: itself when unreserved, else `%` and two hex digits.
pub open spec fn percent_encode_byte(b: u8) -> Seq<u8> {
    if is_unreserved(b) {
        seq![b]
    } else {
        seq![0x25u8, hex_digit(b / 16), hex_digit(b % 16)]
    }
}

/// A byte string, percent-encoded byte by byte.
pub open spec fn percent_encode(bytes: Seq<u8>) -> Seq<u8>
    decreases bytes.len(),
{
    if bytes.len() == 0 {
        Seq::empty()
    } else {
        percent_encode_byte(bytes[0]) + percent_encode(bytes.skip(1))
    }
}

/// A text, percent-encoded over its UTF-8 bytes.
pub open spec fn percent_encoded(data: Seq<char>) -> Seq<char> {
    decode_utf8(percent_encode(encode_utf8(data)))
}

/// Where the listener lives, up to and including the name of the first parameter.
pub open spec fn listener_prefix() -> Seq<char> {
    "wss://www.anylist.com/data/add-user-listener?client_id="@
}

/// The full listener address for a client identifier and an access token.
pub open spec fn websocket_url(client_id: Seq<char>, access_token: Seq<char>) -> Seq<char> {
    listener_prefix() + percent_encoded(client_id) + "&access_token="@ + percent_encoded(
        access_token,
    )
}

/// Calls `urlencoding::encode`, which percent-encodes every byte of the UTF-8 form
/// of `data` except ASCII letters, digits and `-`, `_`, `.`, `~`, writing each other
/// byte as `%` and two upper-case hexadecimal digits. The result is ASCII, so its
/// characters are the decoding of those bytes.
#[verifier::external_body]
fn encode_component(data: &str) -> (encoded: String)
    ensures
        encoded@ == percent_encoded(data@),
{
    urlencoding::encode(data).into_owned()
}

/// Build the listener address with both parameters percent-encoded.
pub fn build_websocket_url(client_id: &str, access_token: &str) -> (url: String)
    ensures
        url@ == websocket_url(client_id@, access_token@),
{
    let id = encode_component(client_id);
    let token = encode_component(access_token);
    let url = "wss://www.anylist.com/data/add-user-listener?client_id=".to_owned();
    let url = url.concat(id.as_str());
    let url = url.concat("&access_token=");
    url.concat(token.as_str())
}

} // verus!
