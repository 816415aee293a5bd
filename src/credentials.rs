//! Temporary cloud credentials as the issuer hands them out, and the checks
//! that decide whether they are passed on to the caller.
use vstd::prelude::*;
use crate::error::{AppError, Field};

verus! {

/// An instant as seconds since the Unix epoch plus nanoseconds.
#[derive(Clone, Copy, Debug, PartialEq, Eq, Structural)]
pub struct Timestamp {
    pub secs: i64,
    pub nanos: u32,
}

impl Timestamp {
    /// The instant in nanoseconds since the Unix epoch.
    pub open spec fn instant(self) -> int {
        self.secs * 1_000_000_000 + self.nanos
    }

    /// Whether `self` lies strictly after `other`.
    pub fn is_after(&self, other: &Timestamp) -> (r: bool)
        ensures
            r == (self.instant() > other.instant()),
    {
        let a: i128 = self.secs as i128 * 1_000_000_000i128 + self.nanos as i128;
        let b: i128 = other.secs as i128 * 1_000_000_000i128 + other.nanos as i128;
        a > b
    }
}

/// Whether `chrono` can hold the instant as a `DateTime<Utc>`.
pub uninterp spec fn utc_representable(secs: i64, nanos: u32) -> bool;

/// Relies on `chrono::DateTime::<Utc>::from_timestamp`, which answers `None`
/// exactly for the seconds and nanoseconds that `chrono` cannot represent.
#[verifier::external_body]
fn fits_chrono_utc(secs: i64, nanos: u32) -> (r: bool)
    ensures
        r == utc_representable(secs, nanos),
{
    chrono::DateTime::<chrono::Utc>::from_timestamp(secs, nanos).is_some()
}

/// A temporary access key, its secret, its session token and when it expires.
#[derive(Clone, Debug)]
pub struct Credentials {
    pub access_key_id: String,
    pub secret_access_key: String,
    pub expiration: Timestamp,
    pub session_token: String,
}

/// What the credential endpoint answers for what the issuer returned, asked at `now`.
pub open spec fn credentials_outcome(issued: Option<Credentials>, now: Timestamp) -> Result<Credentials, AppError> {
    match issued {
        None => Err(AppError::MissingField(Field::Credentials)),
        Some(c) => if c.access_key_id@.len() == 0 {
            Err(AppError::MissingField(Field::AccessKeyId))
        } else if c.secret_access_key@.len() == 0 {
            Err(AppError::MissingField(Field::SecretAccessKey))
        } else if c.session_token@.len() == 0 {
            Err(AppError::MissingField(Field::SessionToken))
        } else if !utc_representable(c.expiration.secs, c.expiration.nanos) {
            Err(AppError::InvalidField(Field::Expiration))
        } else if c.expiration.instant() <= now.instant() {
            Err(AppError::InvalidField(Field::Expiration))
        } else {
            Ok(c)
        },
    }
}

/// Passes on the credentials that the issuer returned (`None` when its answer
/// held none), asked at `now`. Credentials with an empty part, or that have
/// already expired, are refused rather than handed out.
pub fn get_credentials(issued: Option<Credentials>, now: Timestamp) -> (r: Result<Credentials, AppError>)
    ensures
        r == credentials_outcome(issued, now),
        r is Ok ==> {
            let c = r->Ok_0;
            &&& c.access_key_id@.len() > 0
            &&& c.secret_access_key@.len() > 0
            &&& c.session_token@.len() > 0
            &&& c.expiration.instant() > now.instant()
        },
{
    match issued {
        None => Err(AppError::MissingField(Field::Credentials)),
        Some(c) => {
            if c.access_key_id.as_str().is_empty() {
                Err(AppError::MissingField(Field::AccessKeyId))
            } else if c.secret_access_key.as_str().is_empty() {
                Err(AppError::MissingField(Field::SecretAccessKey))
            } else if c.session_token.as_str().is_empty() {
                Err(AppError::MissingField(Field::SessionToken))
            } else if !fits_chrono_utc(c.expiration.secs, c.expiration.nanos) {
                Err(AppError::InvalidField(Field::Expiration))
            } else if !c.expiration.is_after(&now) {
                Err(AppError::InvalidField(Field::Expiration))
            } else {
                Ok(c)
            }
        },
    }
}

} // verus!
