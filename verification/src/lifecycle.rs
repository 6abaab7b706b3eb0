//! The per-frame lifecycle of the driving thread, as a sum type: one variant
//! per phase, with the payload a phase carries embedded in its variant, so an
//! illegal phase/payload combination is unrepresentable. The machine replaces
//! the whole value on every transition; it never mutates one in place.

use vstd::prelude::*;

use crate::message::WindowMessage;

verus! {

/// The driving thread's phase within a frame. A frame runs
/// `BeginFrame -> EarlyUpdate -> FixedUpdate* -> Update -> EndFrame` and then
/// either wraps around to `BeginFrame` or leaves through `Exiting` to the
/// terminal `ExitLoop`. The window message polled at the start of the frame
/// rides along in the payload until `EndFrame` consumes it.
#[derive(Clone, Copy, PartialEq, Eq, Structural, Debug)]
pub enum Lifecycle {
    /// Before the first frame: the next window message has yet to be polled.
    Entering,
    /// A window message arrived; the first handshake of the frame is owed.
    BeginFrame { message: WindowMessage },
    /// Advance the clock; decide whether fixed steps are due.
    EarlyUpdate { message: WindowMessage },
    /// One fixed simulation step; repeats while steps remain due.
    FixedUpdate { message: WindowMessage },
    /// The variable-rate update using the carried message.
    Update { message: WindowMessage },
    /// Hand the frame over: render data, or the close path on `Closed`.
    EndFrame { message: WindowMessage },
    /// Transitional: the loop is winding down.
    Exiting,
    /// Terminal: the driver stops stepping the machine.
    ExitLoop,
}

impl Lifecycle {
    /// Whether this phase belongs to the body of a frame (as opposed to the
    /// entry and exit phases around the frame cycle).
    pub open spec fn in_frame(self) -> bool {
        match self {
            Lifecycle::BeginFrame { .. } => true,
            Lifecycle::EarlyUpdate { .. } => true,
            Lifecycle::FixedUpdate { .. } => true,
            Lifecycle::Update { .. } => true,
            Lifecycle::EndFrame { .. } => true,
            _ => false,
        }
    }

    /// The message a frame phase carries. Meaningful only when `in_frame()`.
    pub open spec fn carried_message(self) -> WindowMessage {
        match self {
            Lifecycle::BeginFrame { message } => message,
            Lifecycle::EarlyUpdate { message } => message,
            Lifecycle::FixedUpdate { message } => message,
            Lifecycle::Update { message } => message,
            Lifecycle::EndFrame { message } => message,
            _ => WindowMessage::Empty,
        }
    }
}

} // verus!
