//! The error type shared by the whole library.

use vstd::prelude::*;
use vstd::std_specs::convert::FromSpecImpl;
use vstd::string::StringExecFns;

verus! {

/// Custom error type for AnyList API operations.
#[derive(Debug)]
pub enum AnyListError {
    AuthenticationFailed(String),
    NetworkError(String),
    InvalidResponse(String),
    NotFound(String),
    PermissionDenied(String),
    /// Protocol buffer decoding error.
    ProtobufError(String),
    /// Generic error.
    Other(String),
}

/// Convenience alias for results that fail with [`AnyListError`].
pub type Result<T> = std::result::Result<T, AnyListError>;

impl AnyListError {
    /// The words that introduce each kind of error in its printed form.
    pub open spec fn prefix(self) -> Seq<char> {
        match self {
            AnyListError::AuthenticationFailed(_) => "Authentication failed: "@,
            AnyListError::NetworkError(_) => "Network error: "@,
            AnyListError::InvalidResponse(_) => "Invalid response: "@,
            AnyListError::NotFound(_) => "Not found: "@,
            AnyListError::PermissionDenied(_) => "Permission denied: "@,
            AnyListError::ProtobufError(_) => "Protobuf error: "@,
            AnyListError::Other(_) => "Error: "@,
        }
    }

    /// The detail message the error carries.
    pub open spec fn detail(self) -> Seq<char> {
        match self {
            AnyListError::AuthenticationFailed(msg) => msg@,
            AnyListError::NetworkError(msg) => msg@,
            AnyListError::InvalidResponse(msg) => msg@,
            AnyListError::NotFound(msg) => msg@,
            AnyListError::PermissionDenied(msg) => msg@,
            AnyListError::ProtobufError(msg) => msg@,
            AnyListError::Other(msg) => msg@,
        }
    }

    /// The printed form: the kind's prefix followed by the detail message.
    pub fn to_string(&self) -> (text: String)
        ensures
            text@ == self.prefix() + self.detail(),
    {
        match self {
            AnyListError::AuthenticationFailed(msg) => "Authentication failed: ".to_owned().concat(
                msg.as_str(),
            ),
            AnyListError::NetworkError(msg) => "Network error: ".to_owned().concat(msg.as_str()),
            AnyListError::InvalidResponse(msg) => "Invalid response: ".to_owned().concat(
                msg.as_str(),
            ),
            AnyListError::NotFound(msg) => "Not found: ".to_owned().concat(msg.as_str()),
            AnyListError::PermissionDenied(msg) => "Permission denied: ".to_owned().concat(
                msg.as_str(),
            ),
            AnyListError::ProtobufError(msg) => "Protobuf error: ".to_owned().concat(msg.as_str()),
            AnyListError::Other(msg) => "Error: ".to_owned().concat(msg.as_str()),
        }
    }
}

/// The error with which `reqwest` reports a request that could not be carried out.
#[verifier::external_type_specification]
#[verifier::external_body]
pub struct ExReqwestError(reqwest::Error);

/// The error with which `prost` refuses bytes that are no valid message.
#[verifier::external_type_specification]
#[verifier::external_body]
pub struct ExDecodeError(prost::DecodeError);

/// The error with which `prost` refuses to write a message into a full buffer.
#[verifier::external_type_specification]
#[verifier::external_body]
pub struct ExEncodeError(prost::EncodeError);

/// The words in which `reqwest` describes an error, through its `Display`.
#[verifier::external_body]
fn reqwest_error_text(error: &reqwest::Error) -> (text: String) {
    error.to_string()
}

/// The words in which `prost` describes a decoding error, through its `Display`.
#[verifier::external_body]
fn decode_error_text(error: &prost::DecodeError) -> (text: String) {
    error.to_string()
}

/// The words in which `prost` describes an encoding error, through its `Display`.
#[verifier::external_body]
fn encode_error_text(error: &prost::EncodeError) -> (text: String) {
    error.to_string()
}

impl From<reqwest::Error> for AnyListError {
    /// A request that could not be carried out is a network error, in the
    /// transport's words.
    fn from(err: reqwest::Error) -> (error: Self)
        ensures
            error is NetworkError,
    {
        AnyListError::NetworkError(reqwest_error_text(&err))
    }
}

impl FromSpecImpl<reqwest::Error> for AnyListError {
    open spec fn obeys_from_spec() -> bool {
        false
    }

    open spec fn from_spec(v: reqwest::Error) -> Self {
        arbitrary()
    }
}

impl From<prost::DecodeError> for AnyListError {
    /// Bytes that are no valid message are a protobuf error, in the decoder's words.
    fn from(err: prost::DecodeError) -> (error: Self)
        ensures
            error is ProtobufError,
    {
        AnyListError::ProtobufError(decode_error_text(&err))
    }
}

impl FromSpecImpl<prost::DecodeError> for AnyListError {
    open spec fn obeys_from_spec() -> bool {
        false
    }

    open spec fn from_spec(v: prost::DecodeError) -> Self {
        arbitrary()
    }
}

impl AnyListError {
    /// The error for an operation that could not be encoded: a protobuf error that
    /// says so, followed by the encoder's words.
    pub fn encode_failed(err: &prost::EncodeError) -> (error: Self)
        ensures
            error matches AnyListError::ProtobufError(msg)
                && "Failed to encode operation: "@.is_prefix_of(msg@),
    {
        let reason = encode_error_text(err);
        AnyListError::ProtobufError(
            "Failed to encode operation: ".to_owned().concat(reason.as_str()),
        )
    }
}

} // verus!
