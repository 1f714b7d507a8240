//! The limits that the server publishes and enforces.

use vstd::prelude::*;

verus! {

/// The bounds on what a client may send.
#[derive(Clone, Copy, Debug, PartialEq, Eq, Structural)]
pub struct Limits {
    pub max_username_length: usize,
    pub max_email_length: usize,
    pub max_public_key_length: usize,
    /// The longest time, in seconds, by which a login request may be early.
    pub max_session_before_period: u32,
    /// The longest time, in seconds, by which a login request may be late.
    pub max_session_after_period: u32,
    /// The longest time, in seconds, for which a session may be asked.
    pub max_session_validity_period: u32,
    pub max_encryption_method_length: usize,
    pub max_message_length: usize,
}

/// The limits of a standard server: requests may be three days early and
/// seven days late, and a session lasts a year at most.
pub open spec fn spec_standard_limits() -> Limits {
    Limits {
        max_username_length: 32,
        max_email_length: 254,
        max_public_key_length: 16384,
        max_session_before_period: 259200,
        max_session_after_period: 604800,
        max_session_validity_period: 31536000,
        max_encryption_method_length: 16,
        max_message_length: 16384,
    }
}

impl Limits {
    /// The limits of a standard server.
    pub fn standard() -> (r: Limits)
        ensures
            r == spec_standard_limits(),
    {
        Limits {
            max_username_length: 32,
            max_email_length: 254,
            max_public_key_length: 16 * 1024,
            max_session_before_period: 3 * 24 * 60 * 60,
            max_session_after_period: 7 * 24 * 60 * 60,
            max_session_validity_period: 365 * 24 * 60 * 60,
            max_encryption_method_length: 16,
            max_message_length: 16 * 1024,
        }
    }
}

} // verus!
