//! The render thread's side of the core, as a pure machine.
//!
//! Each loop iteration brackets the draw with two rendezvous handshakes, so
//! the driving thread can never hand over the next frame's data while a draw
//! is in flight, and learns promptly when the render thread is gone. The
//! machine announces its outside work as a [`RenderAction`] and consumes the
//! outcome as a [`RenderEvent`]; the real thread body (or the lockstep model
//! in [`crate::framework`]) drives it.

use vstd::prelude::*;

use crate::message::{ChannelError, DrawError, GameLoopMessage, RenderData, RenderLoopMessage};
use crate::time::{EngineTime, TimeSettings};

verus! {

/// Where the render loop stands within one iteration.
#[derive(Clone, Copy, PartialEq, Eq, Structural, Debug)]
pub enum RenderPhase {
    /// The handshake before the draw is owed.
    SyncBeforeDraw,
    /// The local clock sample (and any due fixed steps) is owed.
    AdvancingTime,
    /// The draw itself is owed.
    Drawing,
    /// The draw failed unrecoverably: a best-effort `EmergencyExit`
    /// handshake is owed before winding down.
    EmergencyExiting,
    /// The handshake after the draw is owed.
    SyncAfterDraw,
    /// Renderer resource teardown is owed; it always runs before exit.
    TearingDown,
    /// Terminal: the thread body returns.
    Exited,
}

/// The outside work the render machine asks its driver to perform next.
#[derive(Clone, Copy, PartialEq, Eq, Structural, Debug)]
pub enum RenderAction {
    /// Rendezvous with the driving thread, sending this message.
    Handshake(RenderLoopMessage),
    /// Sample the wall clock.
    SampleClock,
    /// Draw, using this frame input and the machine's current time sample.
    Draw(RenderData),
    /// Tear down renderer resources (idempotent, commanded exactly once).
    Teardown,
    /// Terminal: the loop is over.
    Finished,
}

/// The outcome of the pending action, fed back into the machine.
#[derive(Clone, Copy, PartialEq, Eq, Debug)]
pub enum RenderEvent {
    /// What the rendezvous produced: the peer's message, or a disconnect.
    Handshake(Result<GameLoopMessage, ChannelError>),
    /// A wall-clock sample, in nanoseconds.
    Clock(u64),
    /// How the draw went.
    Drawn(Result<(), DrawError>),
    /// Nothing to report (teardown has no outcome).
    Nothing,
}

/// The render thread's state: its own clock, the most recently received
/// frame input, and its phase within the iteration.
#[derive(Clone, Copy, PartialEq, Eq, Structural, Debug)]
pub struct RenderLoop {
    pub time: EngineTime,
    pub render_data: RenderData,
    pub phase: RenderPhase,
}

impl RenderLoop {
    /// Internal invariant: a well-formed clock.
    pub open spec fn wf(self) -> bool {
        self.time.wf()
    }

    /// The message this side would put into a rendezvous: its timing report,
    /// or the emergency notice once the draw has failed unrecoverably.
    pub open spec fn outgoing_of(self) -> RenderLoopMessage {
        if self.phase is EmergencyExiting {
            RenderLoopMessage::EmergencyExit
        } else {
            RenderLoopMessage::Response {
                delta_time: self.time.delta_nanos,
                average_delta_time: self.time.average_delta_nanos,
            }
        }
    }

    /// The outside work owed in the current phase.
    pub open spec fn action_of(self) -> RenderAction {
        match self.phase {
            RenderPhase::SyncBeforeDraw => RenderAction::Handshake(self.outgoing_of()),
            RenderPhase::AdvancingTime => RenderAction::SampleClock,
            RenderPhase::Drawing => RenderAction::Draw(self.render_data),
            RenderPhase::EmergencyExiting => RenderAction::Handshake(self.outgoing_of()),
            RenderPhase::SyncAfterDraw => RenderAction::Handshake(self.outgoing_of()),
            RenderPhase::TearingDown => RenderAction::Teardown,
            RenderPhase::Exited => RenderAction::Finished,
        }
    }

    /// Whether an event is the outcome the pending action calls for.
    pub open spec fn accepts(self, event: RenderEvent) -> bool {
        match self.phase {
            RenderPhase::SyncBeforeDraw => event is Handshake,
            RenderPhase::AdvancingTime => {
                &&& event is Clock
                &&& event->Clock_0 >= self.time.last_update_nanos
            },
            RenderPhase::Drawing => event is Drawn,
            RenderPhase::EmergencyExiting => event is Handshake,
            RenderPhase::SyncAfterDraw => event is Handshake,
            RenderPhase::TearingDown => event is Nothing,
            RenderPhase::Exited => event is Nothing,
        }
    }

    /// What one sync point does with the reply it received: `Exit` or a
    /// disconnect ends the loop through teardown; fresh render data is
    /// stored; anything else is a no-op continuation to `next`.
    pub open spec fn synced(self, reply: Result<GameLoopMessage, ChannelError>, next: RenderPhase)
        -> RenderLoop {
        match reply {
            Ok(GameLoopMessage::Exit) => RenderLoop { phase: RenderPhase::TearingDown, ..self },
            Ok(GameLoopMessage::RenderData(d)) => RenderLoop {
                render_data: d,
                phase: next,
                ..self
            },
            Ok(GameLoopMessage::SyncWithRenderer) => RenderLoop { phase: next, ..self },
            Err(_) => RenderLoop { phase: RenderPhase::TearingDown, ..self },
        }
    }

    /// The machine's transition function: the whole next state, as a value.
    pub open spec fn transitioned(self, event: RenderEvent) -> RenderLoop {
        match self.phase {
            RenderPhase::SyncBeforeDraw => self.synced(
                event->Handshake_0,
                RenderPhase::AdvancingTime,
            ),
            RenderPhase::AdvancingTime => {
                let sampled = self.time.updated(event->Clock_0);
                RenderLoop {
                    time: sampled.ticked_n(sampled.ticks_due() as nat),
                    phase: RenderPhase::Drawing,
                    ..self
                }
            },
            RenderPhase::Drawing => match event->Drawn_0 {
                Ok(_) => RenderLoop { phase: RenderPhase::SyncAfterDraw, ..self },
                Err(DrawError::Recoverable) => RenderLoop {
                    phase: RenderPhase::SyncAfterDraw,
                    ..self
                },
                Err(DrawError::Unrecoverable) => RenderLoop {
                    phase: RenderPhase::EmergencyExiting,
                    ..self
                },
            },
            RenderPhase::EmergencyExiting => RenderLoop {
                phase: RenderPhase::TearingDown,
                ..self
            },
            RenderPhase::SyncAfterDraw => self.synced(
                event->Handshake_0,
                RenderPhase::SyncBeforeDraw,
            ),
            RenderPhase::TearingDown => RenderLoop { phase: RenderPhase::Exited, ..self },
            RenderPhase::Exited => self,
        }
    }

    /// A fresh render machine, ready for the first handshake of the run,
    /// holding the never-handed-off frame input.
    pub fn new(settings: TimeSettings) -> (r: RenderLoop)
        requires
            settings.wf(),
        ensures
            r.time == EngineTime::initial(settings),
            r.render_data == (RenderData { frame_number: 0 }),
            r.phase == RenderPhase::SyncBeforeDraw,
            r.wf(),
    {
        RenderLoop {
            time: settings.build(),
            render_data: RenderData { frame_number: 0 },
            phase: RenderPhase::SyncBeforeDraw,
        }
    }

    /// The message this side would put into a rendezvous.
    pub fn outgoing(&self) -> (m: RenderLoopMessage)
        ensures
            m == self.outgoing_of(),
    {
        match self.phase {
            RenderPhase::EmergencyExiting => RenderLoopMessage::EmergencyExit,
            _ => RenderLoopMessage::Response {
                delta_time: self.time.delta_nanos,
                average_delta_time: self.time.average_delta_nanos,
            },
        }
    }

    /// The outside work owed in the current phase.
    pub fn pending_action(&self) -> (action: RenderAction)
        ensures
            action == self.action_of(),
    {
        match self.phase {
            RenderPhase::SyncBeforeDraw => RenderAction::Handshake(self.outgoing()),
            RenderPhase::AdvancingTime => RenderAction::SampleClock,
            RenderPhase::Drawing => RenderAction::Draw(self.render_data),
            RenderPhase::EmergencyExiting => RenderAction::Handshake(self.outgoing()),
            RenderPhase::SyncAfterDraw => RenderAction::Handshake(self.outgoing()),
            RenderPhase::TearingDown => RenderAction::Teardown,
            RenderPhase::Exited => RenderAction::Finished,
        }
    }

    /// Steps the machine once with the outcome of the pending action.
    /// Returns `false` once the machine has exited.
    pub fn advance(&mut self, event: RenderEvent) -> (alive: bool)
        requires
            old(self).wf(),
            old(self).accepts(event),
        ensures
            *final(self) == old(self).transitioned(event),
            final(self).wf(),
            alive == !(old(self).phase is Exited),
    {
        match self.phase {
            RenderPhase::SyncBeforeDraw => {
                let reply = match event {
                    RenderEvent::Handshake(reply) => reply,
                    _ => Err(ChannelError::Disconnected),
                };
                self.handle_reply(reply, RenderPhase::AdvancingTime);
                true
            },
            RenderPhase::AdvancingTime => {
                let now = match event {
                    RenderEvent::Clock(now) => now,
                    _ => 0,
                };
                self.time.update(now);
                self.time.run_pending_ticks();
                self.phase = RenderPhase::Drawing;
                true
            },
            RenderPhase::Drawing => {
                let outcome = match event {
                    RenderEvent::Drawn(outcome) => outcome,
                    _ => Ok(()),
                };
                self.phase = match outcome {
                    Ok(_) => RenderPhase::SyncAfterDraw,
                    Err(DrawError::Recoverable) => RenderPhase::SyncAfterDraw,
                    Err(DrawError::Unrecoverable) => RenderPhase::EmergencyExiting,
                };
                true
            },
            RenderPhase::EmergencyExiting => {
                self.phase = RenderPhase::TearingDown;
                true
            },
            RenderPhase::SyncAfterDraw => {
                let reply = match event {
                    RenderEvent::Handshake(reply) => reply,
                    _ => Err(ChannelError::Disconnected),
                };
                self.handle_reply(reply, RenderPhase::SyncBeforeDraw);
                true
            },
            RenderPhase::TearingDown => {
                self.phase = RenderPhase::Exited;
                true
            },
            RenderPhase::Exited => false,
        }
    }

    /// One sync point's reply handling: `Exit` and disconnects end the loop
    /// through teardown, fresh render data is stored, anything else is a
    /// no-op continuation.
    fn handle_reply(&mut self, reply: Result<GameLoopMessage, ChannelError>, next: RenderPhase)
        ensures
            *final(self) == old(self).synced(reply, next),
    {
        match reply {
            Ok(GameLoopMessage::Exit) => {
                self.phase = RenderPhase::TearingDown;
            },
            Ok(GameLoopMessage::RenderData(d)) => {
                self.render_data = d;
                self.phase = next;
            },
            Ok(GameLoopMessage::SyncWithRenderer) => {
                self.phase = next;
            },
            Err(_) => {
                self.phase = RenderPhase::TearingDown;
            },
        }
    }
}

/// A recoverable draw failure leaves the render loop alive: the machine
/// moves on to the second handshake exactly as a successful draw does — the
/// frame's presentation is skipped, nothing is torn down, and no
/// `EmergencyExit` is owed.
pub proof fn lemma_recoverable_draw_failure_continues(r: RenderLoop)
    requires
        r.phase is Drawing,
    ensures
        r.transitioned(RenderEvent::Drawn(Err(DrawError::Recoverable)))
            == r.transitioned(RenderEvent::Drawn(Ok(()))),
        r.transitioned(RenderEvent::Drawn(Err(DrawError::Recoverable))).phase
            is SyncAfterDraw,
        !(r.transitioned(RenderEvent::Drawn(Err(DrawError::Recoverable))).outgoing_of()
            is EmergencyExit),
{
}

/// An unrecoverable draw failure ends the loop: the machine owes exactly one
/// `EmergencyExit` handshake, then teardown, then exit — whatever the
/// emergency handshake's outcome, even a disconnect.
pub proof fn lemma_unrecoverable_draw_failure_exits(r: RenderLoop, outcome: RenderEvent)
    requires
        r.phase is Drawing,
        r.transitioned(RenderEvent::Drawn(Err(DrawError::Unrecoverable))).accepts(outcome),
    ensures
        ({
            let panicking = r.transitioned(RenderEvent::Drawn(Err(DrawError::Unrecoverable)));
            &&& panicking.action_of()
                == RenderAction::Handshake(RenderLoopMessage::EmergencyExit)
            &&& panicking.transitioned(outcome).phase is TearingDown
            &&& panicking.transitioned(outcome).transitioned(RenderEvent::Nothing).phase
                is Exited
        }),
{
}

} // verus!
