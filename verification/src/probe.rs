//! The test connection: a bare TCP connect whose outcome is classified for the user.

use vstd::prelude::*;

verus! {

/// How long to wait for a connection before calling it blocked, in seconds.
pub const TEST_CONNECT_TIMEOUT_SECS: u64 = 5;

/// Outcome of a test connection.
///
/// A dropped flow is not actively refused, so under the filter a blocked connection tends to time
/// out. The two stay distinct so that a real failure is not reported as the filter's doing.
#[derive(Debug, PartialEq, Eq)]
pub enum TestConnectResult {
    /// The TCP handshake completed.
    Reachable,
    /// A definite failure before the timeout, with its text.
    Blocked(String),
    /// No definite answer within the timeout.
    TimedOut,
}

impl Clone for TestConnectResult {
    fn clone(&self) -> (res: Self)
        ensures
            res == *self,
    {
        match self {
            TestConnectResult::Reachable => TestConnectResult::Reachable,
            TestConnectResult::Blocked(e) => TestConnectResult::Blocked(e.clone()),
            TestConnectResult::TimedOut => TestConnectResult::TimedOut,
        }
    }
}

/// What became of resolving a host and connecting to its first address.
pub enum ConnectAttempt {
    /// The host did not resolve.
    Unresolved(String),
    /// The host resolved to an empty list of addresses.
    NoAddress,
    /// The handshake completed.
    Connected,
    /// The connection attempt ran into the timeout.
    TimedOut,
    /// The connection attempt failed in any other way.
    Failed(String),
}

/// Classify a TCP connection attempt to `host`.
pub fn tcp_probe(host: &str, attempt: ConnectAttempt) -> (result: TestConnectResult)
    ensures
        match attempt {
            ConnectAttempt::Unresolved(e) => result matches TestConnectResult::Blocked(text)
                && text@ == "could not resolve "@ + host@ + ": "@ + e@,
            ConnectAttempt::NoAddress => result matches TestConnectResult::Blocked(text) && text@
                == host@ + " resolved to no address"@,
            ConnectAttempt::Connected => result == TestConnectResult::Reachable,
            ConnectAttempt::TimedOut => result == TestConnectResult::TimedOut,
            ConnectAttempt::Failed(e) => result matches TestConnectResult::Blocked(text) && text@
                == e@,
        },
{
    match attempt {
        ConnectAttempt::Unresolved(e) => {
            let mut text = "could not resolve ".to_owned();
            text.append(host);
            text.append(": ");
            text.append(&e);
            TestConnectResult::Blocked(text)
        },
        ConnectAttempt::NoAddress => {
            let mut text = host.to_owned();
            text.append(" resolved to no address");
            TestConnectResult::Blocked(text)
        },
        ConnectAttempt::Connected => TestConnectResult::Reachable,
        ConnectAttempt::TimedOut => TestConnectResult::TimedOut,
        ConnectAttempt::Failed(e) => TestConnectResult::Blocked(e),
    }
}

} // verus!
