//! The message vocabulary of the core: window events arriving at the driving
//! thread, the two directed message kinds of the rendezvous channel, and the
//! draw-failure taxonomy of the renderer boundary.

use vstd::prelude::*;

verus! {

/// A message polled from the window. `Closed` is the distinguished message
/// that triggers the close path at the end of a frame; `Empty` is the
/// placeholder left behind once a carried message has been consumed.
#[derive(Clone, Copy, PartialEq, Eq, Structural, Debug)]
pub enum WindowMessage {
    Empty,
    Closed,
    Resized { width: u32, height: u32 },
    Key { code: u32 },
    Other,
}

/// The frame's render input: the data package handed from the driving thread
/// to the render thread once per frame. The driving thread stamps each one
/// with the frame number it was produced for, so a run can tell instances
/// apart; the instance drawn before any handoff carries number zero.
#[derive(Clone, Copy, PartialEq, Eq, Structural, Debug)]
pub struct RenderData {
    pub frame_number: u64,
}

/// What the driving thread sends across the rendezvous channel.
#[derive(Clone, Copy, PartialEq, Eq, Structural, Debug)]
pub enum GameLoopMessage {
    /// Handshake only, no payload.
    SyncWithRenderer,
    /// Hand over this frame's render input.
    RenderData(RenderData),
    /// Terminal: the render thread must wind down.
    Exit,
}

/// What the render thread sends across the rendezvous channel.
#[derive(Clone, Copy, PartialEq, Eq, Structural, Debug)]
pub enum RenderLoopMessage {
    /// Handshake only, no payload.
    SyncWithGame,
    /// Timing report: the render thread's latest and smoothed frame deltas.
    Response { delta_time: u64, average_delta_time: u64 },
    /// Terminal: the render thread failed unrecoverably and is winding down.
    EmergencyExit,
}

/// Failure of a rendezvous: the peer endpoint was dropped, so the exchange
/// can never complete. Terminal for the calling side's loop.
#[derive(Clone, Copy, PartialEq, Eq, Structural, Debug)]
pub enum ChannelError {
    Disconnected,
}

/// A draw failure, classified by whether the render thread may continue
/// (skip this frame) or must terminate. A small closed enumeration, so the
/// render loop's branch on it is exhaustive.
#[derive(Clone, Copy, PartialEq, Eq, Structural, Debug)]
pub enum DrawError {
    Recoverable,
    Unrecoverable,
}

impl Default for WindowMessage {
    /// The placeholder value: what a consumed message slot holds.
    fn default() -> (m: WindowMessage)
        ensures
            m == WindowMessage::Empty,
    {
        WindowMessage::Empty
    }
}

impl Default for RenderData {
    /// The instance held before any handoff, stamped with frame number zero.
    fn default() -> (d: RenderData)
        ensures
            d == (RenderData { frame_number: 0 }),
    {
        RenderData { frame_number: 0 }
    }
}

} // verus!
