//! The driving thread's side of the core: the frame lifecycle state machine.
//!
//! The machine is pure. Everything it needs from outside — the window's next
//! message, the outcome of a rendezvous, a wall-clock sample — arrives as a
//! [`GameEvent`]; everything it wants done outside is announced as a
//! [`GameAction`]. The driver (a real event loop, or the lockstep model in
//! [`crate::framework`]) alternates reading the pending action, performing
//! it, and feeding the outcome back through [`Foxy::next_state`].

use vstd::prelude::*;

use crate::lifecycle::Lifecycle;
use crate::message::{ChannelError, GameLoopMessage, RenderData, RenderLoopMessage, WindowMessage};
use crate::time::{EngineTime, TimeSettings};

verus! {

/// The outside work the machine asks its driver to perform next.
#[derive(Clone, Copy, PartialEq, Eq, Structural, Debug)]
pub enum GameAction {
    /// Poll (or block on) the window for its next message.
    PollWindow,
    /// Rendezvous with the render thread, sending `SyncWithRenderer`.
    SyncHandshake,
    /// Sample the wall clock.
    SampleClock,
    /// No outside work: the machine advances on its own.
    Internal,
    /// Rendezvous sending `Exit`, then join the render thread.
    ExitHandshakeAndJoin,
    /// Rendezvous handing over this frame's render data, then poll the
    /// window for the next message.
    HandoffThenPoll(RenderData),
    /// Terminal: stop stepping the machine.
    Finished,
}

/// The outcome of the pending action, fed back into the machine.
#[derive(Clone, Copy, PartialEq, Eq, Debug)]
pub enum GameEvent {
    /// What the window poll produced; `None` means no more messages.
    Window(Option<WindowMessage>),
    /// What the rendezvous produced: the peer's message, or a disconnect.
    Handshake(Result<RenderLoopMessage, ChannelError>),
    /// A handoff rendezvous followed, when it succeeded, by a window poll.
    /// The polled message is meaningful only when the rendezvous succeeded.
    HandshakeThenWindow(Result<RenderLoopMessage, ChannelError>, Option<WindowMessage>),
    /// A wall-clock sample, in nanoseconds.
    Clock(u64),
    /// Nothing: the pending action needed no outside work.
    Nothing,
}

/// The driving thread's state: its clock, its lifecycle phase, and the
/// number the next frame's render data will be stamped with.
#[derive(Clone, Copy, PartialEq, Eq, Structural, Debug)]
pub struct Foxy {
    pub time: EngineTime,
    pub current_state: Lifecycle,
    pub next_frame_number: u64,
}

impl Foxy {
    /// Internal invariant: a well-formed clock and a positive next frame
    /// number (zero is reserved for render data that was never handed off).
    pub open spec fn wf(self) -> bool {
        &&& self.time.wf()
        &&& 1 <= self.next_frame_number
    }

    /// The outside work owed in the current phase.
    pub open spec fn action_of(self) -> GameAction {
        match self.current_state {
            Lifecycle::Entering => GameAction::PollWindow,
            Lifecycle::BeginFrame { .. } => GameAction::SyncHandshake,
            Lifecycle::EarlyUpdate { .. } => GameAction::SampleClock,
            Lifecycle::FixedUpdate { .. } => GameAction::Internal,
            Lifecycle::Update { .. } => GameAction::Internal,
            Lifecycle::EndFrame { message } => if message is Closed {
                GameAction::ExitHandshakeAndJoin
            } else {
                GameAction::HandoffThenPoll(RenderData { frame_number: self.next_frame_number })
            },
            Lifecycle::Exiting => GameAction::Internal,
            Lifecycle::ExitLoop => GameAction::Finished,
        }
    }

    /// Whether an event is the outcome the pending action calls for.
    pub open spec fn accepts(self, event: GameEvent) -> bool {
        match self.current_state {
            Lifecycle::Entering => event is Window,
            Lifecycle::BeginFrame { .. } => event is Handshake,
            Lifecycle::EarlyUpdate { .. } => {
                &&& event is Clock
                &&& event->Clock_0 >= self.time.last_update_nanos
            },
            Lifecycle::FixedUpdate { .. } => event is Nothing,
            Lifecycle::Update { .. } => event is Nothing,
            Lifecycle::EndFrame { message } => if message is Closed {
                event is Handshake
            } else {
                event is HandshakeThenWindow
            },
            Lifecycle::Exiting => event is Nothing,
            Lifecycle::ExitLoop => event is Nothing,
        }
    }

    /// The machine's transition function: the whole next state, as a value.
    /// Exactly one transition fires per event; the state is replaced, never
    /// mutated in place.
    pub open spec fn transitioned(self, event: GameEvent) -> Foxy {
        match self.current_state {
            Lifecycle::Entering => match event {
                GameEvent::Window(Some(m)) => Foxy {
                    current_state: Lifecycle::BeginFrame { message: m },
                    ..self
                },
                _ => Foxy { current_state: Lifecycle::Exiting, ..self },
            },
            Lifecycle::BeginFrame { message } => match event {
                GameEvent::Handshake(Ok(_)) => Foxy {
                    current_state: Lifecycle::EarlyUpdate { message },
                    ..self
                },
                _ => Foxy { current_state: Lifecycle::Exiting, ..self },
            },
            Lifecycle::EarlyUpdate { message } => {
                let now = event->Clock_0;
                let sampled = self.time.updated(now);
                if sampled.ticks_due() > 0 {
                    Foxy {
                        time: sampled.ticked(),
                        current_state: Lifecycle::FixedUpdate { message },
                        ..self
                    }
                } else {
                    Foxy {
                        time: sampled,
                        current_state: Lifecycle::Update { message },
                        ..self
                    }
                }
            },
            Lifecycle::FixedUpdate { message } => if self.time.ticks_due() > 0 {
                Foxy {
                    time: self.time.ticked(),
                    current_state: Lifecycle::FixedUpdate { message },
                    ..self
                }
            } else {
                Foxy { current_state: Lifecycle::Update { message }, ..self }
            },
            Lifecycle::Update { message } => Foxy {
                current_state: Lifecycle::EndFrame { message },
                ..self
            },
            Lifecycle::EndFrame { message } => if message is Closed {
                Foxy { current_state: Lifecycle::Exiting, ..self }
            } else {
                match event {
                    GameEvent::HandshakeThenWindow(Ok(_), Some(m)) => Foxy {
                        current_state: Lifecycle::BeginFrame { message: m },
                        next_frame_number: (self.next_frame_number + 1) as u64,
                        ..self
                    },
                    GameEvent::HandshakeThenWindow(Ok(_), None) => Foxy {
                        current_state: Lifecycle::Exiting,
                        next_frame_number: (self.next_frame_number + 1) as u64,
                        ..self
                    },
                    _ => Foxy { current_state: Lifecycle::Exiting, ..self },
                }
            },
            Lifecycle::Exiting => Foxy { current_state: Lifecycle::ExitLoop, ..self },
            Lifecycle::ExitLoop => self,
        }
    }

    /// A fresh machine, one frame from its first poll.
    pub fn new(settings: TimeSettings) -> (foxy: Foxy)
        requires
            settings.wf(),
        ensures
            foxy.time == EngineTime::initial(settings),
            foxy.current_state == Lifecycle::Entering,
            foxy.next_frame_number == 1,
            foxy.wf(),
    {
        Foxy {
            time: settings.build(),
            current_state: Lifecycle::Entering,
            next_frame_number: 1,
        }
    }

    /// A read-only sample of the machine's clock.
    pub fn time(&self) -> (t: crate::time::Time)
        ensures
            t.delta_nanos == self.time.delta_nanos,
            t.average_delta_nanos == self.time.average_delta_nanos,
    {
        self.time.time()
    }

    /// The latest wall-clock delta, in nanoseconds.
    pub fn delta_time(&self) -> (d: u64)
        ensures
            d == self.time.delta_nanos,
    {
        self.time.delta()
    }

    /// The smoothed average delta, in nanoseconds.
    pub fn average_delta_time(&self) -> (d: u64)
        ensures
            d == self.time.average_delta_nanos,
    {
        self.time.average_delta()
    }

    /// Whether the machine has reached its terminal phase.
    pub fn done(&self) -> (d: bool)
        ensures
            d == (self.current_state is ExitLoop),
    {
        match self.current_state {
            Lifecycle::ExitLoop => true,
            _ => false,
        }
    }

    /// The outside work owed in the current phase.
    pub fn pending_action(&self) -> (action: GameAction)
        ensures
            action == self.action_of(),
    {
        match self.current_state {
            Lifecycle::Entering => GameAction::PollWindow,
            Lifecycle::BeginFrame { .. } => GameAction::SyncHandshake,
            Lifecycle::EarlyUpdate { .. } => GameAction::SampleClock,
            Lifecycle::FixedUpdate { .. } => GameAction::Internal,
            Lifecycle::Update { .. } => GameAction::Internal,
            Lifecycle::EndFrame { message } => match message {
                WindowMessage::Closed => GameAction::ExitHandshakeAndJoin,
                _ => GameAction::HandoffThenPoll(
                    RenderData { frame_number: self.next_frame_number },
                ),
            },
            Lifecycle::Exiting => GameAction::Internal,
            Lifecycle::ExitLoop => GameAction::Finished,
        }
    }

    /// Steps the machine once with the outcome of the pending action.
    /// Returns the phase just entered, or `None` once the machine has
    /// reached `ExitLoop` and stepping is over.
    pub fn next_state(&mut self, event: GameEvent) -> (r: Option<Lifecycle>)
        requires
            old(self).wf(),
            old(self).accepts(event),
            old(self).next_frame_number < u64::MAX,
        ensures
            *final(self) == old(self).transitioned(event),
            final(self).wf(),
            r == if old(self).current_state is ExitLoop {
                None::<Lifecycle>
            } else {
                Some(final(self).current_state)
            },
    {
        let new_state: Lifecycle = match self.current_state {
            Lifecycle::Entering => match event {
                GameEvent::Window(Some(m)) => Lifecycle::BeginFrame { message: m },
                _ => Lifecycle::Exiting,
            },
            Lifecycle::BeginFrame { message } => match event {
                GameEvent::Handshake(Ok(_)) => Lifecycle::EarlyUpdate { message },
                _ => Lifecycle::Exiting,
            },
            Lifecycle::EarlyUpdate { message } => {
                let now = match event {
                    GameEvent::Clock(now) => now,
                    _ => 0,
                };
                self.time.update(now);
                if self.time.should_do_tick() {
                    self.time.tick();
                    Lifecycle::FixedUpdate { message }
                } else {
                    Lifecycle::Update { message }
                }
            },
            Lifecycle::FixedUpdate { message } => {
                if self.time.should_do_tick() {
                    self.time.tick();
                    Lifecycle::FixedUpdate { message }
                } else {
                    Lifecycle::Update { message }
                }
            },
            Lifecycle::Update { message } => Lifecycle::EndFrame { message },
            Lifecycle::EndFrame { message } => match message {
                WindowMessage::Closed => Lifecycle::Exiting,
                _ => match event {
                    GameEvent::HandshakeThenWindow(Ok(_), polled) => {
                        self.next_frame_number = self.next_frame_number + 1;
                        match polled {
                            Some(m) => Lifecycle::BeginFrame { message: m },
                            None => Lifecycle::Exiting,
                        }
                    },
                    _ => Lifecycle::Exiting,
                },
            },
            Lifecycle::Exiting => Lifecycle::ExitLoop,
            Lifecycle::ExitLoop => {
                return None;
            },
        };
        self.current_state = new_state;
        Some(new_state)
    }
}

/// The frame cycle. As long as the frame runs undisturbed — the carried
/// message is not the window close, every rendezvous succeeds, and the window
/// keeps producing messages — the machine visits the phases in the exact
/// cyclic order `BeginFrame -> EarlyUpdate -> (FixedUpdate)* -> Update ->
/// EndFrame -> BeginFrame`. In particular `Update` always yields to
/// `EndFrame`: the frame's end is never skipped. The carried message is
/// consumed only at `EndFrame`, which replaces it with the freshly polled one.
pub proof fn lemma_frame_cycle(pre: Foxy, event: GameEvent)
    requires
        pre.wf(),
        pre.accepts(event),
        pre.current_state.in_frame(),
        !(pre.current_state.carried_message() is Closed),
        event matches GameEvent::Handshake(r) ==> r is Ok,
        event matches GameEvent::HandshakeThenWindow(r, w) ==> r is Ok && w is Some,
    ensures
        pre.transitioned(event).current_state.in_frame(),
        pre.current_state is BeginFrame ==> pre.transitioned(event).current_state is EarlyUpdate,
        pre.current_state is EarlyUpdate ==> (pre.transitioned(event).current_state is FixedUpdate
            || pre.transitioned(event).current_state is Update),
        pre.current_state is FixedUpdate ==> (pre.transitioned(event).current_state is FixedUpdate
            || pre.transitioned(event).current_state is Update),
        pre.current_state is Update ==> pre.transitioned(event).current_state is EndFrame,
        pre.current_state is EndFrame ==> pre.transitioned(event).current_state is BeginFrame,
        !(pre.current_state is EndFrame) ==> pre.transitioned(event).current_state.carried_message()
            == pre.current_state.carried_message(),
{
}

/// Bounded catch-up, seen from the machine. At the clock sample the frame
/// owes exactly the elapsed time measured in whole fixed steps, clamped to
/// the configured bound; the machine performs one step right away when any
/// is due, holds the remainder as the pending tick count of `FixedUpdate`,
/// and `FixedUpdate` works that count off one step per visit until none is
/// due — so the steps performed in the frame number exactly the clamped
/// quotient.
pub proof fn lemma_fixed_steps_per_frame(pre: Foxy, now: u64)
    requires
        pre.wf(),
        pre.current_state is EarlyUpdate,
        now >= pre.time.last_update_nanos,
    ensures
        ({
            let owed = crate::time::min_int(
                (pre.time.lag_nanos + (now - pre.time.last_update_nanos))
                    / pre.time.fixed_step_nanos as int,
                pre.time.max_catch_up_ticks as int,
            );
            let post = pre.transitioned(GameEvent::Clock(now));
            &&& owed > 0 ==> (post.current_state is FixedUpdate && post.time.ticks_due() == owed
                - 1)
            &&& owed == 0 ==> (post.current_state is Update && post.time.ticks_due() == 0)
        }),
        ({
            let fixed = pre.transitioned(GameEvent::Clock(now));
            &&& fixed.current_state is FixedUpdate && fixed.time.ticks_due() > 0 ==> {
                let again = fixed.transitioned(GameEvent::Nothing);
                &&& again.current_state is FixedUpdate
                &&& again.time.ticks_due() == fixed.time.ticks_due() - 1
            }
            &&& fixed.current_state is FixedUpdate && fixed.time.ticks_due() == 0 ==> fixed
                .transitioned(GameEvent::Nothing).current_state is Update
        }),
{
    crate::time::lemma_bounded_catch_up(pre.time, now);
    let sampled = pre.time.updated(now);
    if sampled.ticks_due() > 0 {
        crate::time::lemma_due_means_step_available(sampled);
        crate::time::lemma_tick_count_decreases(sampled);
    }
    let fixed = pre.transitioned(GameEvent::Clock(now));
    if fixed.current_state is FixedUpdate && fixed.time.ticks_due() > 0 {
        crate::time::lemma_due_means_step_available(fixed.time);
        crate::time::lemma_tick_count_decreases(fixed.time);
    }
}

/// The close path. A frame that carries the window close owes exactly the
/// exit handshake followed by the join, moves to `Exiting` whatever the
/// handshake produced, and once there (or at `ExitLoop`) the machine never
/// owes a rendezvous again: nothing — render data least of all — is sent
/// after `Exit`.
pub proof fn lemma_close_path(pre: Foxy, event: GameEvent)
    requires
        pre.wf(),
        pre.accepts(event),
        pre.current_state matches Lifecycle::EndFrame { message: WindowMessage::Closed },
    ensures
        pre.action_of() == GameAction::ExitHandshakeAndJoin,
        pre.transitioned(event).current_state is Exiting,
        forall|f: Foxy|
            f.current_state is Exiting || f.current_state is ExitLoop ==> !(#[trigger] f.action_of()
                is SyncHandshake) && !(f.action_of() is ExitHandshakeAndJoin) && !(f.action_of()
                is HandoffThenPoll),
{
}

/// A rendezvous failure is terminal for the driving loop: a disconnect at
/// either handshake point of the frame forces an immediate transition to the
/// exit path, never a retry, and the window is not polled for another frame.
pub proof fn lemma_disconnect_forces_exit(pre: Foxy, event: GameEvent)
    requires
        pre.wf(),
        pre.accepts(event),
        ({
            ||| event matches GameEvent::Handshake(Err(_))
            ||| event matches GameEvent::HandshakeThenWindow(Err(_), _)
        }),
    ensures
        pre.transitioned(event).current_state is Exiting,
{
}

} // verus!
