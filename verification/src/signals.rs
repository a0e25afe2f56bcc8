//! What an interrupt (CTRL + C or a termination request) does.
use vstd::prelude::*;

verus! {

/// The answer to an interrupt.
#[derive(Clone, Copy, Debug, PartialEq, Eq, Structural)]
pub enum SignalResponse {
    /// Tell the user that a second interrupt forces the program to stop, and
    /// remember that the first one came.
    WarnForceKill,
    /// Print that the program is exiting and end it with this status.
    Exit(i32),
}

/// The answer to an interrupt: while work is in progress (`busy`), the first
/// interrupt only warns and the second ends the program with status 2; when
/// nothing is in progress the program ends with status 1.
pub open spec fn signal_response_spec(busy: bool, already_pressed: bool) -> SignalResponse {
    if busy {
        if already_pressed {
            SignalResponse::Exit(2)
        } else {
            SignalResponse::WarnForceKill
        }
    } else {
        SignalResponse::Exit(1)
    }
}

/// The answer to an interrupt.
pub fn signal_response(busy: bool, already_pressed: bool) -> (r: SignalResponse)
    ensures
        r == signal_response_spec(busy, already_pressed),
{
    if busy {
        if !already_pressed {
            return SignalResponse::WarnForceKill;
        } else {
            return SignalResponse::Exit(2);
        }
    }
    SignalResponse::Exit(1)
}

} // verus!
