//! The rule for the graceful shutdown timeout.

use vstd::prelude::*;
use vstd::string::*;
use crate::domain::LoadBalancerError;
use crate::utils::text::{decimal, push_decimal};

verus! {

/// Minimum allowed shutdown timeout in seconds.
pub const MIN_TIMEOUT_SECONDS: u64 = 1;

/// The message of the error that refuses a shutdown timeout.
pub open spec fn timeout_error_message(timeout_seconds: nat) -> Seq<char> {
    "Shutdown timeout must be at least "@ + decimal(MIN_TIMEOUT_SECONDS as nat) + " seconds, got "@
        + decimal(timeout_seconds)
}

/// Check a shutdown timeout: it must be at least one second. Gives the
/// timeout back when it is accepted.
pub fn validate_shutdown_timeout(timeout_seconds: u64) -> (r: Result<u64, LoadBalancerError>)
    ensures
        timeout_seconds >= MIN_TIMEOUT_SECONDS <==> r is Ok,
        r matches Ok(t) ==> t == timeout_seconds,
        r matches Err(e) ==> e matches LoadBalancerError::Configuration { message }
            && message@ == timeout_error_message(timeout_seconds as nat),
{
    if timeout_seconds < MIN_TIMEOUT_SECONDS {
        let mut message = String::from_str("Shutdown timeout must be at least ");
        push_decimal(&mut message, MIN_TIMEOUT_SECONDS);
        message.append(" seconds, got ");
        push_decimal(&mut message, timeout_seconds);
        return Err(LoadBalancerError::Configuration { message });
    }
    Ok(timeout_seconds)
}

} // verus!
