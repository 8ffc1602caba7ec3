//! Decisions of the loop that receives events from the gateway.

use vstd::prelude::*;

verus! {

/// Whether the event loop goes on.
#[derive(Debug, Clone, Copy, PartialEq, Eq, Structural)]
pub enum LoopControl {
    /// Receive the next event.
    Continue,
    /// Leave the loop.
    Stop,
}

/// What the loop does after an error on receiving an event, which the
/// gateway has classified as fatal or not: a fatal error ends the loop, any
/// other is skipped.
pub fn on_receive_error(fatal: bool) -> (control: LoopControl)
    ensures
        control == if fatal {
            LoopControl::Stop
        } else {
            LoopControl::Continue
        },
{
    if fatal {
        LoopControl::Stop
    } else {
        LoopControl::Continue
    }
}

/// The name of the activity that the bot shows as its presence: `poz - v`
/// and the version.
pub open spec fn presence_text(version: Seq<char>) -> Seq<char> {
    "poz - v"@ + version
}

/// The name of the activity that the bot shows as its presence.
pub fn presence_name(version: &str) -> (name: String)
    ensures
        name@ == presence_text(version@),
{
    String::from_str("poz - v").concat(version)
}

} // verus!
