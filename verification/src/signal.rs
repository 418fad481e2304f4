//! The external-trigger adapter: the event synthesized when the designated
//! OS signal arrives. The listening thread itself lives with the caller;
//! here stands only what it forwards, so the signal's behavior is fixed and
//! predictable whatever the user's keyboard mode configuration.

use crate::session::{Mode, TriggerEvent, TriggerSource};
use vstd::prelude::*;

verus! {

/// The event the signal listener forwards on receipt of the designated OS
/// signal: exactly one press of the "transcribe" binding.
pub fn signal_trigger_event() -> (e: TriggerEvent)
    ensures
        e.binding_id@ == "transcribe"@,
        e.token@ == "SIGUSR2"@,
        e.pressed,
        e.source is Signal,
{
    TriggerEvent {
        binding_id: String::from_str("transcribe"),
        token: String::from_str("SIGUSR2"),
        pressed: true,
        source: TriggerSource::Signal,
    }
}

/// The mode the signal path always uses: the toggle path, whatever mode is
/// configured for hotkey-driven input, so a signal cleanly starts one
/// session and the next signal stops it.
pub fn signal_mode() -> (m: Mode)
    ensures
        m is Toggle,
{
    Mode::Toggle
}

} // verus!
