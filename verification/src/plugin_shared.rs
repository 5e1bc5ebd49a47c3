use vstd::prelude::*;
use vstd::string::StringSliceAdditionalSpecFns;
use crate::text::{occurs, str_contains};

verus! {

/// Whether the message of a failed connection tells of nothing but a peer
/// that hung up while the connection was shut down. Such a failure is not
/// worth a log line.
pub fn is_shutdown_error(message: &str) -> (benign: bool)
    ensures
        benign == occurs(message.spec_bytes(), "error shutting down".spec_bytes()),
{
    str_contains(message, "error shutting down")
}

} // verus!
