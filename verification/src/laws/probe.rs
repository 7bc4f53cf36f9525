//! Laws of the test connection.

use vstd::prelude::*;
use crate::probe::{ConnectAttempt, TestConnectResult};

verus! {

/// A completed handshake is the only way to be reachable, and the timeout the only way to time out.
/// Everything else is blocked, and says what went wrong: the failure's own text, or that the host
/// did not resolve or has no address.
pub proof fn law_an_attempt_is_told_for_what_it_was(
    host: &str,
    attempt: ConnectAttempt,
    result: TestConnectResult,
)
    requires
        call_ensures(crate::probe::tcp_probe, (host, attempt), result),
    ensures
        result is Reachable <==> attempt is Connected,
        result is TimedOut <==> attempt is TimedOut,
        attempt matches ConnectAttempt::Failed(e) ==> result->Blocked_0@ == e@,
        attempt matches ConnectAttempt::Unresolved(e) ==> result->Blocked_0@
            == "could not resolve "@ + host@ + ": "@ + e@,
        attempt is NoAddress ==> result->Blocked_0@ == host@ + " resolved to no address"@,
        crate::probe::TEST_CONNECT_TIMEOUT_SECS == 5,
{
}

} // verus!
