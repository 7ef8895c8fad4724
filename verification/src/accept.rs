//! The match-accept satellite: the per-poll decision of the simpler loop that
//! watches the ready-check resource and accepts a found match after a
//! configurable delay.

use vstd::prelude::*;

use crate::prefs::str_eq;

verus! {

/// What one poll of the match-accept loop should do.
#[derive(Debug, Clone, Copy, PartialEq, Eq, Structural)]
pub enum AcceptStep {
    /// The feature is switched off: idle until the next poll.
    Disabled,
    /// No connection to the local service: wait at a slower cadence and let
    /// the status line say so.
    AwaitClient,
    /// A match is ready: accept it after this many seconds.
    Accept { delay_secs: u64 },
    /// No match yet. `keep_status` is set while a champion-select session is
    /// active: the status line then belongs to the turn controller and must
    /// not be overwritten.
    AwaitMatch { keep_status: bool },
}

/// The decision of one match-accept poll.
pub open spec fn spec_accept_decision(
    running: bool,
    connected: bool,
    in_session: bool,
    match_found: bool,
    delay_secs: u64,
) -> AcceptStep {
    if !running {
        AcceptStep::Disabled
    } else if !connected {
        AcceptStep::AwaitClient
    } else if match_found {
        AcceptStep::Accept { delay_secs }
    } else {
        AcceptStep::AwaitMatch { keep_status: in_session }
    }
}

/// Decide one match-accept poll: disabled and disconnected states idle; a
/// found match is accepted after the configured delay; otherwise the loop
/// keeps waiting, ceding the status line while a session is active.
pub fn accept_decision(
    running: bool,
    connected: bool,
    in_session: bool,
    match_found: bool,
    delay_secs: u64,
) -> (r: AcceptStep)
    ensures
        r == spec_accept_decision(running, connected, in_session, match_found, delay_secs),
{
    if !running {
        AcceptStep::Disabled
    } else if !connected {
        AcceptStep::AwaitClient
    } else if match_found {
        AcceptStep::Accept { delay_secs }
    } else {
        AcceptStep::AwaitMatch { keep_status: in_session }
    }
}

/// A ready check whose reported state is this string means a match is found
/// and waiting to be accepted.
pub open spec fn spec_match_ready(state: Seq<char>) -> bool {
    state == "InProgress"@
}

/// Whether a ready-check state string reports a found match.
pub fn is_match_ready(state: &str) -> (r: bool)
    ensures
        r == spec_match_ready(state@),
{
    str_eq(state, "InProgress")
}

} // verus!
