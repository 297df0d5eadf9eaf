use vstd::prelude::*;
use crate::text::same_text;

verus! {

/// The account and session kind a process runs under.
#[derive(Debug, Clone, Copy, PartialEq, Eq, Structural)]
pub enum ProcessState {
    User,
    System,
    InteractiveSystem,
    OtherService,
}

/// The state that belongs to a process whose token is (or is not) the
/// local SYSTEM account and whose window station is (or is not) the
/// interactive one.
pub open spec fn state_of(is_system: bool, is_interactive: bool) -> ProcessState {
    if is_system {
        if is_interactive { ProcessState::InteractiveSystem } else { ProcessState::System }
    } else {
        if is_interactive { ProcessState::User } else { ProcessState::OtherService }
    }
}

/// Classifies the current process from what its token and window station
/// showed: whether it runs as SYSTEM, and whether it sits on the
/// interactive window station.
pub fn determine_process_state(is_system: bool, is_interactive: bool) -> (state: ProcessState)
    ensures
        state == state_of(is_system, is_interactive),
{
    match (is_system, is_interactive) {
        (true, true) => ProcessState::InteractiveSystem,
        (true, false) => ProcessState::System,
        (false, true) => ProcessState::User,
        (false, false) => ProcessState::OtherService,
    }
}

/// The name of the interactive window station.
pub const INTERACTIVE_WINDOW_STATION: &'static str = "WinSta0";

/// Whether a process whose window station has this name runs in the
/// interactive session.
pub fn is_interactive(window_station_name: &str) -> (interactive: bool)
    ensures
        interactive == (window_station_name@ == INTERACTIVE_WINDOW_STATION@),
{
    same_text(window_station_name, INTERACTIVE_WINDOW_STATION)
}

} // verus!
