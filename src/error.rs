//! The façade's one error kind and its translation policy: which HTTP status
//! and which message a failed provider call becomes.
use vstd::prelude::*;
use crate::encoding::{json_string, json_string_of};

verus! {

/// Status used when a failure carries no usable HTTP status of its own.
pub const INTERNAL_SERVER_ERROR: u16 = 500;

/// Message used when neither the provider nor the failure says anything.
pub const GENERIC_MESSAGE: &'static str = "upstream provider error";

/// A field of a provider answer that the façade needs.
#[derive(Clone, Copy, Debug, PartialEq, Eq, Structural)]
pub enum Field {
    Credentials,
    AccessKeyId,
    SecretAccessKey,
    SessionToken,
    Expiration,
    SessionId,
}

pub open spec fn field_name_of(f: Field) -> Seq<char> {
    match f {
        Field::Credentials => "credentials"@,
        Field::AccessKeyId => "access_key_id"@,
        Field::SecretAccessKey => "secret_access_key"@,
        Field::SessionToken => "session_token"@,
        Field::Expiration => "expiration"@,
        Field::SessionId => "session_id"@,
    }
}

impl Field {
    /// The field's name as it appears in the façade's responses.
    pub fn name(&self) -> (r: &'static str)
        ensures
            r@ == field_name_of(*self),
    {
        match self {
            Field::Credentials => "credentials",
            Field::AccessKeyId => "access_key_id",
            Field::SecretAccessKey => "secret_access_key",
            Field::SessionToken => "session_token",
            Field::Expiration => "expiration",
            Field::SessionId => "session_id",
        }
    }
}

/// A failure surfaced to the caller: an HTTP status and a message.
#[derive(Clone, Debug)]
pub enum AppError {
    /// The provider call failed; status and message as translated by `from_upstream`.
    SdkError(u16, String),
    /// The provider answered but left out (or left empty) a field it owes.
    MissingField(Field),
    /// The provider answered with a field whose value cannot be used.
    InvalidField(Field),
}

/// An HTTP status code as `http` accepts it: three digits.
pub open spec fn valid_status(code: u16) -> bool {
    100 <= code <= 999
}

/// The status of a failed provider call: the raw response's own, when there
/// is one and it is a valid status, else 500.
pub open spec fn upstream_status(raw_status: Option<u16>) -> u16 {
    match raw_status {
        Some(code) => if valid_status(code) { code } else { INTERNAL_SERVER_ERROR },
        None => INTERNAL_SERVER_ERROR,
    }
}

/// The message of a failed provider call: the provider's own description when
/// it gives a non-empty one, else the failure's rendering, else a generic text.
pub open spec fn upstream_message(provider_message: Option<Seq<char>>, rendering: Seq<char>) -> Seq<char> {
    match provider_message {
        Some(m) if m.len() > 0 => m,
        _ => if rendering.len() > 0 { rendering } else { GENERIC_MESSAGE@ },
    }
}

pub open spec fn missing_message(f: Field) -> Seq<char> {
    "provider response is missing "@ + field_name_of(f)
}

pub open spec fn invalid_message(f: Field) -> Seq<char> {
    "provider response has an unusable "@ + field_name_of(f)
}

/// The JSON body of an error response: `{"error":<message>}`.
pub open spec fn error_body_of(message: Seq<char>) -> Seq<char> {
    "{\"error\":"@ + json_string_of(message) + "}"@
}

impl AppError {
    pub open spec fn status_spec(&self) -> u16 {
        match self {
            AppError::SdkError(code, _) => *code,
            _ => INTERNAL_SERVER_ERROR,
        }
    }

    pub open spec fn message_spec(&self) -> Seq<char> {
        match self {
            AppError::SdkError(_, m) => m@,
            AppError::MissingField(f) => missing_message(*f),
            AppError::InvalidField(f) => invalid_message(*f),
        }
    }

    /// Translates a failed provider call. `raw_status` is the status of the
    /// raw HTTP response, if one came back; `provider_message` is the
    /// provider's error description, if any; `rendering` is the failure
    /// rendered as text.
    pub fn from_upstream(raw_status: Option<u16>, provider_message: Option<String>, rendering: String) -> (r: AppError)
        ensures
            r == AppError::SdkError(
                upstream_status(raw_status),
                r->SdkError_1,
            ),
            r->SdkError_1@ == upstream_message(
                match provider_message { Some(m) => Some(m@), None => None },
                rendering@,
            ),
            valid_status(r.status_spec()),
            r.message_spec().len() > 0,
    {
        let code: u16 = match raw_status {
            Some(c) => if 100 <= c && c <= 999 { c } else { INTERNAL_SERVER_ERROR },
            None => INTERNAL_SERVER_ERROR,
        };
        let message = match provider_message {
            Some(m) if m.as_str().is_empty() == false => m,
            _ => if rendering.as_str().is_empty() == false {
                rendering
            } else {
                proof { reveal_strlit("upstream provider error"); }
                String::from_str(GENERIC_MESSAGE)
            },
        };
        AppError::SdkError(code, message)
    }

    /// The HTTP status of the error response.
    pub fn status_code(&self) -> (r: u16)
        ensures
            r == self.status_spec(),
    {
        match self {
            AppError::SdkError(code, _) => *code,
            _ => INTERNAL_SERVER_ERROR,
        }
    }

    /// The human-readable message of the error response.
    pub fn message(&self) -> (r: String)
        ensures
            r@ == self.message_spec(),
    {
        match self {
            AppError::SdkError(_, m) => m.clone(),
            AppError::MissingField(f) => {
                let mut s = String::from_str("provider response is missing ");
                s.append(f.name());
                s
            },
            AppError::InvalidField(f) => {
                let mut s = String::from_str("provider response has an unusable ");
                s.append(f.name());
                s
            },
        }
    }

    /// The JSON body of the error response.
    pub fn error_body(&self) -> (r: String)
        ensures
            r@ == error_body_of(self.message_spec()),
    {
        let message = self.message();
        let quoted = json_string(message.as_str());
        let mut body = String::from_str("{\"error\":");
        body.append(quoted.as_str());
        body.append("}");
        body
    }
}


/// A provider failure that carries a valid HTTP status (such as the 400 or
/// 404 of an unknown session) keeps that status, and whatever the provider
/// said, the message of the error is not empty.
pub proof fn lemma_upstream_status_kept(code: u16, provider_message: Option<Seq<char>>, rendering: Seq<char>)
    requires
        valid_status(code),
    ensures
        upstream_status(Some(code)) == code,
        upstream_message(provider_message, rendering).len() > 0,
{
    reveal_strlit("upstream provider error");
}

} // verus!
