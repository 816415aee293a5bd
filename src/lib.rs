//! A stateless HTTP façade in front of a cloud credential issuer and a
//! face-liveness provider: the translation of provider answers into response
//! bodies and the error policy around them.
use vstd::prelude::*;

pub mod encoding;
pub mod error;
pub mod credentials;
pub mod liveness;

verus! {

/// Text of the façade's own liveness check.
pub fn check_health() -> (r: &'static str)
    ensures
        r@ == "ok"@,
{
    "ok"
}

/// Port the façade listens on when none is given.
pub const DEFAULT_PORT: u16 = 8080;

/// The port to listen on: the one asked for, else the default.
pub fn listen_port(requested: Option<u16>) -> (r: u16)
    ensures
        r == match requested {
            Some(p) => p,
            None => DEFAULT_PORT,
        },
{
    match requested {
        Some(p) => p,
        None => DEFAULT_PORT,
    }
}

} // verus!
