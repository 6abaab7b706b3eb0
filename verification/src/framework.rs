//! The whole dual-thread core, run in lockstep as one verified model.
//!
//! Because the channel between the two threads is a rendezvous — each
//! `send_and_wait` blocks until the peer's matching call — a run of the real
//! system is determined by its outside inputs alone: the window messages, the
//! wall clock, the per-draw outcomes, and whether the render thread dies
//! under external force. [`Framework::run`] takes exactly those inputs as a
//! [`Script`] and executes both machines against a model of the entangled
//! channel pair, recording every completed exchange and every draw. The
//! contracts on `run` state the protocol's guarantees for *every* script:
//! matched exchange counts, at-most-once consumption of each frame input,
//! and nothing ever sent after `Exit`.

use vstd::prelude::*;

use crate::game::{Foxy, GameAction, GameEvent};
use crate::lifecycle::Lifecycle;
use crate::message::{ChannelError, DrawError, GameLoopMessage, RenderLoopMessage, WindowMessage};
use crate::render_loop::{RenderEvent, RenderLoop, RenderPhase};
use crate::time::TimeSettings;

verus! {

/// The outside inputs that determine a run.
pub struct Script {
    /// The window's messages, handed out in order; once exhausted, every
    /// further poll reports `None` and the application winds down.
    pub window_messages: Vec<WindowMessage>,
    /// How far the wall clock advances at each sample, in nanoseconds;
    /// once exhausted, `default_clock_delta` is used.
    pub clock_deltas: Vec<u64>,
    pub default_clock_delta: u64,
    /// The outcome of each draw in order (`None` is success); once
    /// exhausted, draws succeed.
    pub draw_failures: Vec<Option<DrawError>>,
    /// When `Some(k)`: the render thread dies under external force before
    /// the `k`-th completed exchange (counting from zero).
    pub kill_render_at_exchange: Option<u64>,
}

impl Script {
    /// The clock advance consumed at the given cursor.
    pub open spec fn clock_delta_at(self, cursor: usize) -> u64 {
        if cursor < self.clock_deltas@.len() {
            self.clock_deltas@[cursor as int]
        } else {
            self.default_clock_delta
        }
    }

    /// The clock cursor after one sample.
    pub open spec fn clock_cursor_after(self, cursor: usize) -> usize {
        if cursor < self.clock_deltas@.len() {
            (cursor + 1) as usize
        } else {
            cursor
        }
    }

    /// The draw outcome consumed at the given cursor.
    pub open spec fn draw_event_at(self, cursor: usize) -> Result<(), DrawError> {
        if cursor < self.draw_failures@.len() {
            match self.draw_failures@[cursor as int] {
                Option::None => Ok(()),
                Option::Some(e) => Err(e),
            }
        } else {
            Ok(())
        }
    }

    /// The draw cursor after one draw.
    pub open spec fn draw_cursor_after(self, cursor: usize) -> usize {
        if cursor < self.draw_failures@.len() {
            (cursor + 1) as usize
        } else {
            cursor
        }
    }
}

/// The model of the entangled channel pair: the log of every completed
/// rendezvous, seen from each endpoint. The two logs grow in the same step —
/// an exchange completes on both sides or on neither — which is what makes
/// their lengths equal at all times.
pub struct Mailbox {
    /// Every message the driving side put into a completed exchange.
    pub game_sent: Vec<GameLoopMessage>,
    /// Every message the render side put into a completed exchange.
    pub render_sent: Vec<RenderLoopMessage>,
}

/// Both machines, the channel model, and the run's observable record.
pub struct Framework {
    pub foxy: Foxy,
    pub render: RenderLoop,
    pub mailbox: Mailbox,
    /// The frame number of the input observed by each draw, in order.
    pub drawn_frames: Vec<u64>,
    /// Set once the render thread dies under external force.
    pub render_killed: bool,
    /// Set once the driving thread has joined the render thread.
    pub joined: bool,
    /// The model wall clock, in nanoseconds.
    pub now_nanos: u64,
    pub window_cursor: usize,
    pub clock_cursor: usize,
    pub draw_cursor: usize,
}

/// Saturating addition on the model wall clock.
pub open spec fn clock_plus(now: u64, delta: u64) -> u64 {
    if now + delta > u64::MAX {
        u64::MAX
    } else {
        (now + delta) as u64
    }
}

/// A sequence of frame numbers in strictly increasing order: no number — and
/// so no frame input — appears twice.
pub open spec fn strictly_increasing(s: Seq<u64>) -> bool {
    forall|i: int, j: int| 0 <= i < j < s.len() ==> s[i] < s[j]
}

/// `Exit` never has a successor in the driving side's log: nothing — render
/// data least of all — is sent after it.
pub open spec fn exit_only_last(s: Seq<GameLoopMessage>) -> bool {
    forall|i: int| 0 <= i < s.len() - 1 ==> !(s[i] is Exit)
}

/// The frame number a handed-off message carries.
pub open spec fn data_stamp(m: GameLoopMessage) -> u64 {
    match m {
        GameLoopMessage::RenderData(d) => d.frame_number,
        _ => 0,
    }
}

/// No `EmergencyExit` anywhere in the render side's log: the render loop
/// never had an unrecoverable failure to report.
pub open spec fn no_emergency(s: Seq<RenderLoopMessage>) -> bool {
    forall|i: int| 0 <= i < s.len() ==> !(#[trigger] s[i] is EmergencyExit)
}

/// Handed-off frame inputs carry strictly increasing frame numbers: the
/// driving side never sends the same input twice.
pub open spec fn data_stamps_increasing(s: Seq<GameLoopMessage>) -> bool {
    forall|i: int, j: int|
        0 <= i < j < s.len() && (s[i] is RenderData) && (s[j] is RenderData) ==> data_stamp(s[i])
            < data_stamp(s[j])
}

/// Every handed-off frame number in the log lies below the bound.
spec fn data_stamps_below(s: Seq<GameLoopMessage>, bound: u64) -> bool {
    forall|i: int| 0 <= i < s.len() && (s[i] is RenderData) ==> data_stamp(s[i]) < bound
}

/// Position of a lifecycle phase on the path from entry to exit; together
/// with the window cursor and the clock's pending ticks it bounds the run.
spec fn phase_rank(s: Lifecycle) -> int {
    match s {
        Lifecycle::Entering => 8,
        Lifecycle::BeginFrame { .. } => 7,
        Lifecycle::EarlyUpdate { .. } => 6,
        Lifecycle::FixedUpdate { .. } => 5,
        Lifecycle::Update { .. } => 4,
        Lifecycle::EndFrame { .. } => 3,
        Lifecycle::Exiting => 1,
        Lifecycle::ExitLoop => 0,
    }
}

/// Appending keeps a strictly increasing sequence strictly increasing when
/// the new element tops the old last one.
proof fn lemma_push_strictly_increasing(s: Seq<u64>, x: u64)
    requires
        strictly_increasing(s),
        s.len() == 0 || s.last() < x,
    ensures
        strictly_increasing(s.push(x)),
{
    assert forall|i: int, j: int| 0 <= i < j < s.push(x).len() implies s.push(x)[i] < s.push(x)[j]
    by {
        if j < s.len() {
            assert(s.push(x)[i] == s[i]);
            assert(s.push(x)[j] == s[j]);
        } else {
            assert(s.push(x)[j] == x);
            assert(s.push(x)[i] == s[i]);
            if i < s.len() - 1 {
                assert(s[i] < s.last());
            }
        }
    }
}

/// Appending to a log that holds no `Exit` at all cannot put an `Exit`
/// anywhere but last.
proof fn lemma_push_exit_only_last(s: Seq<GameLoopMessage>, m: GameLoopMessage)
    requires
        exit_only_last(s),
        s.len() == 0 || !(s.last() is Exit),
    ensures
        exit_only_last(s.push(m)),
{
    assert forall|i: int| 0 <= i < s.push(m).len() - 1 implies !(s.push(m)[i] is Exit) by {
        assert(s.push(m)[i] == s[i]);
        if i == s.len() - 1 {
            assert(s[i] == s.last());
        }
    }
}

/// Appending anything but an `EmergencyExit` keeps an emergency-free log
/// emergency-free.
proof fn lemma_push_no_emergency(s: Seq<RenderLoopMessage>, m: RenderLoopMessage)
    requires
        !(m is EmergencyExit),
    ensures
        no_emergency(s) ==> no_emergency(s.push(m)),
{
    if no_emergency(s) {
        assert forall|i: int| 0 <= i < s.push(m).len() implies !(s.push(m)[i] is EmergencyExit) by {
            if i < s.len() {
                assert(s.push(m)[i] == s[i]);
            } else {
                assert(s.push(m)[i] == m);
            }
        }
    }
}

/// Appending anything to an emergency-free log leaves an emergency, if any,
/// only in the last place.
proof fn lemma_push_emergency_last(s: Seq<RenderLoopMessage>, m: RenderLoopMessage)
    ensures
        no_emergency(s) ==> emergency_only_last(s.push(m)),
{
    if no_emergency(s) {
        assert forall|i: int| 0 <= i < s.push(m).len() - 1 implies !(s.push(m)[i]
            is EmergencyExit) by {
            assert(s.push(m)[i] == s[i]);
        }
    }
}

/// Appending a message that is not a handoff leaves the handoff stamps as
/// they were.
proof fn lemma_push_stamps_other(s: Seq<GameLoopMessage>, m: GameLoopMessage, bound: u64)
    requires
        data_stamps_increasing(s),
        data_stamps_below(s, bound),
        !(m is RenderData),
    ensures
        data_stamps_increasing(s.push(m)),
        data_stamps_below(s.push(m), bound),
{
    assert forall|i: int, j: int|
        0 <= i < j < s.push(m).len() && (s.push(m)[i] is RenderData) && (s.push(m)[j]
            is RenderData) implies data_stamp(s.push(m)[i]) < data_stamp(s.push(m)[j]) by {
        assert(s.push(m)[i] == s[i]);
        if j < s.len() {
            assert(s.push(m)[j] == s[j]);
        } else {
            assert(s.push(m)[j] == m);
        }
    }
    assert forall|i: int| 0 <= i < s.push(m).len() && (s.push(m)[i] is RenderData) implies
        data_stamp(s.push(m)[i]) < bound by {
        if i < s.len() {
            assert(s.push(m)[i] == s[i]);
        } else {
            assert(s.push(m)[i] == m);
        }
    }
}

/// Appending a handoff stamped exactly at the bound keeps the stamps
/// strictly increasing and lifts the bound by one.
proof fn lemma_push_stamps_data(s: Seq<GameLoopMessage>, m: GameLoopMessage, bound: u64)
    requires
        data_stamps_increasing(s),
        data_stamps_below(s, bound),
        m is RenderData,
        data_stamp(m) == bound,
        bound < u64::MAX,
    ensures
        data_stamps_increasing(s.push(m)),
        data_stamps_below(s.push(m), (bound + 1) as u64),
{
    assert forall|i: int, j: int|
        0 <= i < j < s.push(m).len() && (s.push(m)[i] is RenderData) && (s.push(m)[j]
            is RenderData) implies data_stamp(s.push(m)[i]) < data_stamp(s.push(m)[j]) by {
        assert(s.push(m)[i] == s[i]);
        if j < s.len() {
            assert(s.push(m)[j] == s[j]);
        } else {
            assert(s.push(m)[j] == m);
        }
    }
    assert forall|i: int| 0 <= i < s.push(m).len() && (s.push(m)[i] is RenderData) implies
        data_stamp(s.push(m)[i]) < bound + 1 by {
        if i < s.len() {
            assert(s.push(m)[i] == s[i]);
        } else {
            assert(s.push(m)[i] == m);
        }
    }
}

/// No draw in the script fails unrecoverably; recoverable failures, which
/// only skip a frame's presentation, are allowed anywhere.
pub open spec fn draws_survive(script: Script) -> bool {
    forall|i: int|
        0 <= i < script.draw_failures@.len() ==> #[trigger] script.draw_failures@[i] != Some(
            DrawError::Unrecoverable,
        )
}

/// A script on which the run never has a reason to stop early: the window
/// never reports a close, no draw fails unrecoverably, and the render thread
/// is never killed. On such a script the run's whole shape is determined:
/// see the nominal clauses of [`Framework::run`].
pub open spec fn nominal(script: Script) -> bool {
    &&& script.kill_render_at_exchange is None
    &&& forall|i: int|
        0 <= i < script.window_messages@.len() ==> !(#[trigger] script.window_messages@[i]
            is Closed)
    &&& draws_survive(script)
}

/// A script whose window reports the close as its last message and on which
/// nothing else goes wrong: no draw fails unrecoverably and the render
/// thread is never killed. On such a script the run takes the close path
/// exactly once: see the closing clauses of [`Framework::run`].
pub open spec fn closing(script: Script) -> bool {
    &&& script.kill_render_at_exchange is None
    &&& draws_survive(script)
    &&& script.window_messages@.len() > 0
    &&& script.window_messages@.last() is Closed
    &&& forall|i: int|
        0 <= i < script.window_messages@.len() - 1 ==> !(#[trigger] script.window_messages@[i]
            is Closed)
}

/// A script on which exactly one draw — the one at index `k` — fails
/// unrecoverably, the window neither closes nor runs dry before the failure
/// is noticed, and the render thread is never killed. On such a script the
/// failure's aftermath is determined: see the failing clauses of
/// [`Framework::run`].
pub open spec fn failing(script: Script, k: int) -> bool {
    &&& script.kill_render_at_exchange is None
    &&& forall|i: int|
        0 <= i < script.window_messages@.len() ==> !(#[trigger] script.window_messages@[i]
            is Closed)
    &&& 0 <= k < script.draw_failures@.len()
    &&& script.draw_failures@[k] == Some(DrawError::Unrecoverable)
    &&& forall|i: int|
        0 <= i < script.draw_failures@.len() && i != k ==> #[trigger] script.draw_failures@[i]
            is None
    &&& script.window_messages@.len() >= k + 2
}

/// A script on which the render thread dies under external force before its
/// `k`-th exchange, while the window neither closes nor runs dry first and
/// no draw fails unrecoverably. On such a script the driving thread's next
/// rendezvous returns a disconnect — it never hangs — and the run winds
/// down: see the killed clauses of [`Framework::run`].
pub open spec fn killed_at(script: Script, k: u64) -> bool {
    &&& script.kill_render_at_exchange == Some(k)
    &&& forall|i: int|
        0 <= i < script.window_messages@.len() ==> !(#[trigger] script.window_messages@[i]
            is Closed)
    &&& draws_survive(script)
    &&& 2 * script.window_messages@.len() >= k + 2
}

/// At most the last message of the render side's log is an `EmergencyExit`:
/// the emergency was reported once and nothing was sent after it.
pub open spec fn emergency_only_last(s: Seq<RenderLoopMessage>) -> bool {
    forall|i: int| 0 <= i < s.len() - 1 ==> !(#[trigger] s[i] is EmergencyExit)
}

/// Whether the render machine stands at a rendezvous point.
pub open spec fn render_ready(r: RenderLoop) -> bool {
    ||| r.phase is SyncBeforeDraw
    ||| r.phase is SyncAfterDraw
    ||| r.phase is EmergencyExiting
}

/// Between exchanges the render machine always stands at a rendezvous point
/// or has exited: its internal work runs eagerly to the next blocking call.
pub open spec fn render_parked(r: RenderLoop) -> bool {
    render_ready(r) || r.phase is Exited
}

impl Framework {
    /// Whether the external kill the script calls for is due.
    pub open spec fn kill_due(self, script: Script) -> bool {
        match script.kill_render_at_exchange {
            Option::Some(k) => self.mailbox.game_sent@.len() >= k,
            Option::None => false,
        }
    }

    /// A run that has not begun: both machines fresh, the channel silent.
    pub open spec fn fresh(self) -> bool {
        &&& self.foxy.wf()
        &&& self.foxy.current_state is Entering
        &&& self.foxy.next_frame_number == 1
        &&& self.foxy.time.last_update_nanos == 0
        &&& self.render.wf()
        &&& self.render.phase is SyncBeforeDraw
        &&& self.render.render_data.frame_number == 0
        &&& self.render.time.last_update_nanos == 0
        &&& self.mailbox.game_sent@.len() == 0
        &&& self.mailbox.render_sent@.len() == 0
        &&& self.drawn_frames@.len() == 0
        &&& !self.render_killed
        &&& !self.joined
        &&& self.now_nanos == 0
        &&& self.window_cursor == 0
        &&& self.clock_cursor == 0
        &&& self.draw_cursor == 0
    }

    /// Both machines configured alike, nothing run yet.
    pub fn new(settings: TimeSettings) -> (fw: Framework)
        requires
            settings.wf(),
        ensures
            fw.fresh(),
            fw.foxy.time == crate::time::EngineTime::initial(settings),
            fw.render.time == crate::time::EngineTime::initial(settings),
    {
        Framework {
            foxy: Foxy::new(settings),
            render: RenderLoop::new(settings),
            mailbox: Mailbox { game_sent: Vec::new(), render_sent: Vec::new() },
            drawn_frames: Vec::new(),
            render_killed: false,
            joined: false,
            now_nanos: 0,
            window_cursor: 0,
            clock_cursor: 0,
            draw_cursor: 0,
        }
    }

    /// The run's inductive invariant: what holds between any two steps of
    /// the driving machine.
    spec fn inv(self, script: Script) -> bool {
        &&& self.foxy.wf()
        &&& self.render.wf()
        &&& render_parked(self.render)
        &&& self.window_cursor <= script.window_messages@.len()
        &&& self.clock_cursor <= script.clock_deltas@.len()
        &&& self.draw_cursor <= script.draw_failures@.len()
        // the two endpoints complete exchanges together, so the logs agree
        // in length at every instant
        &&& self.mailbox.game_sent@.len() == self.mailbox.render_sent@.len()
        &&& self.foxy.time.last_update_nanos <= self.now_nanos
        &&& self.render.time.last_update_nanos <= self.now_nanos
        // frame numbering: bounded by the window messages consumed, and
        // always ahead of everything already handed off
        &&& self.foxy.next_frame_number <= self.window_cursor + 2
        &&& (self.foxy.current_state is Entering || self.foxy.current_state.in_frame())
            ==> self.foxy.next_frame_number <= self.window_cursor + 1
        &&& self.render.render_data.frame_number < self.foxy.next_frame_number
        // while the render thread lives, the two machines stay in step:
        // the render side parks at the pre-draw sync exactly while the
        // driving side stands at the first handshake of a frame
        &&& !self.render_killed ==> {
            &&& (self.foxy.current_state is Entering || self.foxy.current_state is BeginFrame)
                ==> (self.render.phase is SyncBeforeDraw || self.render.phase is Exited)
            &&& (self.foxy.current_state is EarlyUpdate || self.foxy.current_state is FixedUpdate
                || self.foxy.current_state is Update || self.foxy.current_state is EndFrame) ==> (
            self.render.phase is SyncAfterDraw || self.render.phase is EmergencyExiting
                || self.render.phase is Exited)
            &&& self.render.phase is SyncBeforeDraw ==> (self.drawn_frames@.len() == 0
                || self.render.render_data.frame_number > self.drawn_frames@.last())
            &&& (self.render.phase is SyncAfterDraw || self.render.phase is EmergencyExiting)
                ==> (self.drawn_frames@.len() > 0 && self.drawn_frames@.last()
                == self.render.render_data.frame_number)
        }
        // the observable record
        &&& strictly_increasing(self.drawn_frames@)
        &&& exit_only_last(self.mailbox.game_sent@)
        &&& (self.mailbox.game_sent@.len() > 0 && self.mailbox.game_sent@.last() is Exit) ==> (
        phase_rank(self.foxy.current_state) <= 1 && self.joined)
        &&& data_stamps_increasing(self.mailbox.game_sent@)
        &&& data_stamps_below(self.mailbox.game_sent@, self.foxy.next_frame_number)
        // on a script where nothing goes wrong the run's shape is exact:
        // phases, counters and the draw record are all functions of how many
        // window messages have been consumed
        &&& nominal(script) ==> self.nominal_inv(script)
        &&& closing(script) ==> self.closing_inv(script)
        &&& forall|k: int| #[trigger] failing(script, k) ==> self.failing_inv(script, k)
        &&& forall|k: u64| #[trigger] killed_at(script, k) ==> self.killed_inv(script, k)
    }

    /// The exact bookkeeping that holds on a script whose render thread is
    /// killed before its `k`-th exchange: the run is nominal until the kill,
    /// and the first rendezvous after it returns the disconnect that ends
    /// the run with exactly `k` completed exchanges.
    spec fn killed_inv(self, script: Script, k: u64) -> bool {
        &&& !self.render_killed ==> {
            &&& self.steady_inv()
            &&& !(self.foxy.current_state is Exiting)
            &&& !(self.foxy.current_state is ExitLoop)
            &&& self.foxy.current_state.in_frame() ==> !(self.foxy.current_state.carried_message()
                is Closed)
            &&& self.mailbox.game_sent@.len() <= k
        }
        &&& self.render_killed ==> {
            &&& (self.foxy.current_state is Exiting || self.foxy.current_state is ExitLoop)
            &&& self.mailbox.game_sent@.len() == k
            &&& self.drawn_frames@.len() == (k + 1) / 2
            &&& !self.joined
        }
    }

    /// The exact bookkeeping shared by every run that has not failed: the
    /// frame in flight determines both machines' phases, the exchange count,
    /// the draw record and the frame numbering.
    spec fn steady_inv(self) -> bool {
        &&& !self.render_killed
        &&& no_emergency(self.mailbox.render_sent@)
        &&& (self.foxy.current_state is Entering || self.foxy.current_state is BeginFrame)
            ==> self.render.phase is SyncBeforeDraw
        &&& (self.foxy.current_state is EarlyUpdate || self.foxy.current_state is FixedUpdate
            || self.foxy.current_state is Update || self.foxy.current_state is EndFrame)
            ==> self.render.phase is SyncAfterDraw
        &&& self.render.render_data.frame_number == self.foxy.next_frame_number - 1
        &&& self.foxy.current_state is Entering ==> (self.window_cursor == 0
            && self.mailbox.game_sent@.len() == 0 && self.drawn_frames@.len() == 0
            && self.foxy.next_frame_number == 1 && !self.joined)
        &&& self.foxy.current_state is BeginFrame ==> (1 <= self.window_cursor
            && self.foxy.next_frame_number == self.window_cursor
            && self.mailbox.game_sent@.len() == 2 * (self.window_cursor - 1)
            && self.drawn_frames@.len() == self.window_cursor - 1 && !self.joined)
        &&& (self.foxy.current_state is EarlyUpdate || self.foxy.current_state is FixedUpdate
            || self.foxy.current_state is Update || self.foxy.current_state is EndFrame) ==> (1
            <= self.window_cursor && self.foxy.next_frame_number == self.window_cursor
            && self.mailbox.game_sent@.len() == 2 * self.window_cursor - 1
            && self.drawn_frames@.len() == self.window_cursor && !self.joined)
        &&& forall|i: int|
            0 <= i < self.drawn_frames@.len() ==> #[trigger] self.drawn_frames@[i] == i as u64
    }

    /// The exact bookkeeping that holds on a nominal script: the close path
    /// is never taken, and the run ends when the window runs dry.
    spec fn nominal_inv(self, script: Script) -> bool {
        &&& self.steady_inv()
        &&& !self.joined
        &&& self.foxy.current_state.in_frame() ==> !(self.foxy.current_state.carried_message()
            is Closed)
        &&& (self.foxy.current_state is Exiting || self.foxy.current_state is ExitLoop) ==> (
        self.render.phase is SyncBeforeDraw && self.window_cursor
            == script.window_messages@.len() && self.foxy.next_frame_number == self.window_cursor
            + 1 && self.mailbox.game_sent@.len() == 2 * self.window_cursor
            && self.drawn_frames@.len() == self.window_cursor)
    }

    /// The exact bookkeeping that holds on a closing script: the carried
    /// message is the one just polled, so the close is seen exactly at the
    /// last frame, where the exit handshake and the join happen.
    spec fn closing_inv(self, script: Script) -> bool {
        &&& self.steady_inv()
        &&& self.foxy.current_state.in_frame() ==> (self.window_cursor
            <= script.window_messages@.len() && self.foxy.current_state.carried_message()
            == script.window_messages@[self.window_cursor - 1])
        &&& (self.foxy.current_state is Exiting || self.foxy.current_state is ExitLoop) ==> (
        self.render.phase is Exited && self.joined && self.window_cursor
            == script.window_messages@.len() && self.foxy.next_frame_number == self.window_cursor
            && self.mailbox.game_sent@.len() == 2 * self.window_cursor
            && self.drawn_frames@.len() == self.window_cursor
            && self.mailbox.game_sent@.len() > 0 && self.mailbox.game_sent@.last() is Exit)
    }

    /// The exact bookkeeping that holds on a script failing at draw `k`: the
    /// run is nominal through the frame whose draw fails, the emergency is
    /// reported at that frame's closing handshake, the render thread tears
    /// down, and the next frame's opening handshake sees the disconnect.
    spec fn failing_inv(self, script: Script, k: int) -> bool {
        &&& !self.render_killed
        &&& !self.joined
        &&& self.draw_cursor == self.drawn_frames@.len()
        &&& self.foxy.current_state.in_frame() ==> !(self.foxy.current_state.carried_message()
            is Closed)
        &&& self.foxy.current_state is Entering ==> (self.window_cursor == 0
            && self.mailbox.game_sent@.len() == 0 && self.drawn_frames@.len() == 0
            && self.foxy.next_frame_number == 1 && self.render.phase is SyncBeforeDraw
            && self.render.render_data.frame_number == 0 && no_emergency(
            self.mailbox.render_sent@,
        ))
        &&& self.foxy.current_state is BeginFrame ==> (1 <= self.window_cursor
            && self.window_cursor <= k + 2 && self.foxy.next_frame_number == self.window_cursor
            && self.mailbox.game_sent@.len() == 2 * (self.window_cursor - 1)
            && self.drawn_frames@.len() == self.window_cursor - 1 && (self.window_cursor <= k + 1
            ==> (self.render.phase is SyncBeforeDraw && self.render.render_data.frame_number
            == self.foxy.next_frame_number - 1 && no_emergency(self.mailbox.render_sent@))) && (
        self.window_cursor == k + 2 ==> (self.render.phase is Exited
            && self.mailbox.render_sent@.len() > 0 && self.mailbox.render_sent@.last()
            is EmergencyExit && emergency_only_last(self.mailbox.render_sent@))))
        &&& (self.foxy.current_state is EarlyUpdate || self.foxy.current_state is FixedUpdate
            || self.foxy.current_state is Update || self.foxy.current_state is EndFrame) ==> (1
            <= self.window_cursor && self.window_cursor <= k + 1 && self.foxy.next_frame_number
            == self.window_cursor && self.mailbox.game_sent@.len() == 2 * self.window_cursor - 1
            && self.drawn_frames@.len() == self.window_cursor
            && self.render.render_data.frame_number == self.foxy.next_frame_number - 1
            && no_emergency(self.mailbox.render_sent@) && (self.window_cursor <= k
            ==> self.render.phase is SyncAfterDraw) && (self.window_cursor == k + 1
            ==> self.render.phase is EmergencyExiting))
        &&& (self.foxy.current_state is Exiting || self.foxy.current_state is ExitLoop) ==> (
        self.window_cursor == k + 2 && self.foxy.next_frame_number == self.window_cursor
            && self.mailbox.game_sent@.len() == 2 * (k + 1) && self.drawn_frames@.len() == k + 1
            && self.render.phase is Exited && self.mailbox.render_sent@.len() > 0
            && self.mailbox.render_sent@.last() is EmergencyExit && emergency_only_last(
            self.mailbox.render_sent@,
        ))
        &&& forall|i: int|
            0 <= i < self.drawn_frames@.len() ==> #[trigger] self.drawn_frames@[i] == i as u64
    }

    /// One window poll: the next scripted message, or `None` once the
    /// script is exhausted.
    fn poll_window(&mut self, script: &Script) -> (w: Option<WindowMessage>)
        requires
            old(self).window_cursor <= script.window_messages@.len(),
        ensures
            final(self).foxy == old(self).foxy,
            final(self).render == old(self).render,
            final(self).mailbox.game_sent@ == old(self).mailbox.game_sent@,
            final(self).mailbox.render_sent@ == old(self).mailbox.render_sent@,
            final(self).drawn_frames@ == old(self).drawn_frames@,
            final(self).render_killed == old(self).render_killed,
            final(self).joined == old(self).joined,
            final(self).now_nanos == old(self).now_nanos,
            final(self).clock_cursor == old(self).clock_cursor,
            final(self).draw_cursor == old(self).draw_cursor,
            final(self).window_cursor <= script.window_messages@.len(),
            old(self).window_cursor < script.window_messages@.len() ==> (w == Some(
                script.window_messages@[old(self).window_cursor as int],
            ) && final(self).window_cursor == old(self).window_cursor + 1),
            old(self).window_cursor >= script.window_messages@.len() ==> (w is None
                && final(self).window_cursor == old(self).window_cursor),
    {
        if self.window_cursor < script.window_messages.len() {
            let m = script.window_messages[self.window_cursor];
            self.window_cursor = self.window_cursor + 1;
            Some(m)
        } else {
            None
        }
    }

    /// One wall-clock sample: the model clock advances by the scripted
    /// delta and reports the new time.
    fn sample_clock(&mut self, script: &Script) -> (now: u64)
        requires
            old(self).clock_cursor <= script.clock_deltas@.len(),
        ensures
            final(self).foxy == old(self).foxy,
            final(self).render == old(self).render,
            final(self).mailbox.game_sent@ == old(self).mailbox.game_sent@,
            final(self).mailbox.render_sent@ == old(self).mailbox.render_sent@,
            final(self).drawn_frames@ == old(self).drawn_frames@,
            final(self).render_killed == old(self).render_killed,
            final(self).joined == old(self).joined,
            final(self).window_cursor == old(self).window_cursor,
            final(self).draw_cursor == old(self).draw_cursor,
            now == final(self).now_nanos,
            now == clock_plus(old(self).now_nanos, script.clock_delta_at(old(self).clock_cursor)),
            now >= old(self).now_nanos,
            final(self).clock_cursor == script.clock_cursor_after(old(self).clock_cursor),
            final(self).clock_cursor <= script.clock_deltas@.len(),
    {
        let delta = if self.clock_cursor < script.clock_deltas.len() {
            let d = script.clock_deltas[self.clock_cursor];
            self.clock_cursor = self.clock_cursor + 1;
            d
        } else {
            script.default_clock_delta
        };
        let now = if delta > u64::MAX - self.now_nanos {
            u64::MAX
        } else {
            self.now_nanos + delta
        };
        self.now_nanos = now;
        now
    }

    /// One rendezvous, seen from the driving side, together with the render
    /// thread's eager advance to its next rendezvous point. If the render
    /// thread is dead — exited, or killed by the script — the call returns
    /// `Disconnected` at once; it never hangs, and no exchange is recorded.
    /// Otherwise the two messages cross, both logs grow by one, and the
    /// render machine runs its clock sample and draw (recording the drawn
    /// frame number) until it blocks again or exits.
    fn rendezvous(&mut self, msg: GameLoopMessage, script: &Script) -> (reply: Result<
        RenderLoopMessage,
        ChannelError,
    >)
        requires
            old(self).render.wf(),
            render_parked(old(self).render),
            old(self).render.time.last_update_nanos <= old(self).now_nanos,
            old(self).clock_cursor <= script.clock_deltas@.len(),
            old(self).draw_cursor <= script.draw_failures@.len(),
        ensures
            final(self).foxy == old(self).foxy,
            final(self).window_cursor == old(self).window_cursor,
            final(self).joined == old(self).joined,
            final(self).now_nanos >= old(self).now_nanos,
            final(self).render.wf(),
            render_parked(final(self).render),
            final(self).render.time.last_update_nanos <= final(self).now_nanos,
            final(self).clock_cursor <= script.clock_deltas@.len(),
            final(self).draw_cursor <= script.draw_failures@.len(),
            reply is Err ==> {
                &&& final(self).render == old(self).render
                &&& final(self).mailbox.game_sent@ == old(self).mailbox.game_sent@
                &&& final(self).mailbox.render_sent@ == old(self).mailbox.render_sent@
                &&& final(self).drawn_frames@ == old(self).drawn_frames@
                &&& final(self).now_nanos == old(self).now_nanos
                &&& final(self).clock_cursor == old(self).clock_cursor
                &&& final(self).draw_cursor == old(self).draw_cursor
                &&& final(self).render_killed == (old(self).render_killed || old(self).kill_due(
                    *script,
                ))
                &&& reply == Err::<RenderLoopMessage, ChannelError>(ChannelError::Disconnected)
                &&& (old(self).render_killed || old(self).kill_due(*script) || old(self).render.phase
                    is Exited)
            },
            reply is Ok ==> {
                &&& !old(self).render_killed
                &&& !old(self).kill_due(*script)
                &&& render_ready(old(self).render)
                &&& !final(self).render_killed
                &&& reply == Ok::<RenderLoopMessage, ChannelError>(old(self).render.outgoing_of())
                &&& final(self).mailbox.game_sent@ == old(self).mailbox.game_sent@.push(msg)
                &&& final(self).mailbox.render_sent@ == old(self).mailbox.render_sent@.push(
                    old(self).render.outgoing_of(),
                )
                &&& ({
                    let fed = old(self).render.transitioned(RenderEvent::Handshake(Ok(msg)));
                    if fed.phase is AdvancingTime {
                        let now2 = clock_plus(
                            old(self).now_nanos,
                            script.clock_delta_at(old(self).clock_cursor),
                        );
                        let timed = fed.transitioned(RenderEvent::Clock(now2));
                        let outcome = script.draw_event_at(old(self).draw_cursor);
                        &&& final(self).render == timed.transitioned(RenderEvent::Drawn(outcome))
                        &&& final(self).now_nanos == now2
                        &&& final(self).clock_cursor == script.clock_cursor_after(
                            old(self).clock_cursor,
                        )
                        &&& final(self).draw_cursor == script.draw_cursor_after(
                            old(self).draw_cursor,
                        )
                        &&& final(self).drawn_frames@ == old(self).drawn_frames@.push(
                            fed.render_data.frame_number,
                        )
                    } else if fed.phase is TearingDown {
                        &&& final(self).render == fed.transitioned(RenderEvent::Nothing)
                        &&& final(self).now_nanos == old(self).now_nanos
                        &&& final(self).clock_cursor == old(self).clock_cursor
                        &&& final(self).draw_cursor == old(self).draw_cursor
                        &&& final(self).drawn_frames@ == old(self).drawn_frames@
                    } else {
                        &&& final(self).render == fed
                        &&& final(self).now_nanos == old(self).now_nanos
                        &&& final(self).clock_cursor == old(self).clock_cursor
                        &&& final(self).draw_cursor == old(self).draw_cursor
                        &&& final(self).drawn_frames@ == old(self).drawn_frames@
                    }
                })
            },
    {
        let due = match script.kill_render_at_exchange {
            Some(k) => self.mailbox.game_sent.len() as u64 >= k,
            None => false,
        };
        if self.render_killed || due {
            self.render_killed = true;
            return Err(ChannelError::Disconnected);
        }
        let ready = match self.render.phase {
            RenderPhase::SyncBeforeDraw => true,
            RenderPhase::SyncAfterDraw => true,
            RenderPhase::EmergencyExiting => true,
            _ => false,
        };
        if !ready {
            return Err(ChannelError::Disconnected);
        }
        let reply = self.render.outgoing();
        self.mailbox.game_sent.push(msg);
        self.mailbox.render_sent.push(reply);
        self.render.advance(RenderEvent::Handshake(Ok(msg)));
        match self.render.phase {
            RenderPhase::AdvancingTime => {
                // The render thread's iteration body: sample the clock, run
                // the due fixed steps, then draw with the held frame input.
                let delta = if self.clock_cursor < script.clock_deltas.len() {
                    let d = script.clock_deltas[self.clock_cursor];
                    self.clock_cursor = self.clock_cursor + 1;
                    d
                } else {
                    script.default_clock_delta
                };
                let now2 = if delta > u64::MAX - self.now_nanos {
                    u64::MAX
                } else {
                    self.now_nanos + delta
                };
                self.now_nanos = now2;
                proof {
                    let sampled = self.render.time.updated(now2);
                    crate::time::lemma_ticked_n_preserves_frame(
                        sampled,
                        sampled.ticks_due() as nat,
                    );
                }
                self.render.advance(RenderEvent::Clock(now2));
                let outcome = if self.draw_cursor < script.draw_failures.len() {
                    let o = match script.draw_failures[self.draw_cursor] {
                        Some(e) => Err(e),
                        None => Ok(()),
                    };
                    self.draw_cursor = self.draw_cursor + 1;
                    o
                } else {
                    Ok(())
                };
                self.drawn_frames.push(self.render.render_data.frame_number);
                self.render.advance(RenderEvent::Drawn(outcome));
            },
            RenderPhase::TearingDown => {
                // Exit or disconnect: teardown always runs before the thread
                // winds up.
                self.render.advance(RenderEvent::Nothing);
            },
            _ => {},
        }
        Ok(reply)
    }

    /// Executes the whole run the script determines: the driving machine is
    /// stepped until it reaches `ExitLoop`, every rendezvous couples it with
    /// the render machine, and at the end the driving endpoint's drop
    /// releases the render side, whose teardown always runs — unless it was
    /// killed under external force.
    ///
    /// The contracts state the protocol's guarantees over every script:
    /// the two endpoints complete the same number of exchanges; the frame
    /// numbers observed by draws strictly increase, so no frame input is
    /// ever drawn twice; handed-off inputs carry strictly increasing
    /// numbers, so none is ever sent twice; `Exit` is only ever the last
    /// message sent; and when `Exit` was sent the render thread was joined.
    pub fn run(&mut self, script: &Script)
        requires
            old(self).fresh(),
            script.window_messages@.len() + 4 < u64::MAX,
        ensures
            final(self).foxy.current_state is ExitLoop,
            final(self).mailbox.game_sent@.len() == final(self).mailbox.render_sent@.len(),
            strictly_increasing(final(self).drawn_frames@),
            data_stamps_increasing(final(self).mailbox.game_sent@),
            exit_only_last(final(self).mailbox.game_sent@),
            (final(self).mailbox.game_sent@.len() > 0 && final(self).mailbox.game_sent@.last()
                is Exit) ==> final(self).joined,
            !final(self).render_killed ==> final(self).render.phase is Exited,
            // on a nominal script the run's shape is exact: every window
            // message becomes one frame of two exchanges and one draw, the
            // draws observe the inputs in production order, and the close
            // path is never taken
            nominal(*script) ==> {
                &&& final(self).mailbox.game_sent@.len() == 2 * script.window_messages@.len()
                &&& final(self).drawn_frames@.len() == script.window_messages@.len()
                &&& (forall|i: int|
                    0 <= i < final(self).drawn_frames@.len()
                        ==> #[trigger] final(self).drawn_frames@[i] == i as u64)
                &&& !final(self).joined
                // recoverable draw failures leave the render loop alive:
                // they never put an emergency notice on the channel
                &&& no_emergency(final(self).mailbox.render_sent@)
            },
            // on a closing script the close path runs exactly once: the last
            // message sent is the one `Exit`, the render thread is joined,
            // and every frame before the close ran in full
            closing(*script) ==> {
                &&& final(self).mailbox.game_sent@.len() == 2 * script.window_messages@.len()
                &&& final(self).mailbox.game_sent@.last() is Exit
                &&& final(self).joined
                &&& final(self).drawn_frames@.len() == script.window_messages@.len()
                &&& final(self).render.phase is Exited
            },
            // on a script whose draw at index k fails unrecoverably, the
            // emergency notice is the render side's one last message, the
            // render thread tears down, and the driving thread's next
            // handshake sees the disconnect: one frame later it has left
            forall|k: int|
                #[trigger] failing(*script, k) ==> {
                    &&& final(self).drawn_frames@.len() == k + 1
                    &&& final(self).mailbox.game_sent@.len() == 2 * (k + 1)
                    &&& final(self).mailbox.render_sent@.len() > 0
                    &&& final(self).mailbox.render_sent@.last() is EmergencyExit
                    &&& emergency_only_last(final(self).mailbox.render_sent@)
                    &&& final(self).render.phase is Exited
                    &&& !final(self).joined
                },
            // on a script whose render thread is killed before its k-th
            // exchange, the driving thread's next rendezvous returns the
            // disconnect — it never hangs — and the run ends with exactly
            // the k exchanges completed before the kill
            forall|k: u64|
                #[trigger] killed_at(*script, k) ==> {
                    &&& final(self).render_killed
                    &&& final(self).mailbox.game_sent@.len() == k
                    &&& final(self).mailbox.render_sent@.len() == k
                    &&& final(self).drawn_frames@.len() == (k + 1) / 2
                    &&& !final(self).joined
                },
    {
        while !self.foxy.done()
            invariant
                self.inv(*script),
                script.window_messages@.len() + 4 < u64::MAX,
            decreases
                script.window_messages@.len() - self.window_cursor,
                phase_rank(self.foxy.current_state),
                self.foxy.time.lag_nanos,
        {
            let action = self.foxy.pending_action();
            match action {
                GameAction::PollWindow => {
                    let w = self.poll_window(script);
                    self.foxy.next_state(GameEvent::Window(w));
                },
                GameAction::SyncHandshake => {
                    let ghost pre = *self;
                    let r = self.rendezvous(GameLoopMessage::SyncWithRenderer, script);
                    proof {
                        if r is Ok {
                            lemma_push_exit_only_last(
                                pre.mailbox.game_sent@,
                                GameLoopMessage::SyncWithRenderer,
                            );
                            lemma_push_stamps_other(
                                pre.mailbox.game_sent@,
                                GameLoopMessage::SyncWithRenderer,
                                pre.foxy.next_frame_number,
                            );
                            if !(pre.render.outgoing_of() is EmergencyExit) {
                                lemma_push_no_emergency(
                                    pre.mailbox.render_sent@,
                                    pre.render.outgoing_of(),
                                );
                            }
                            let fed = pre.render.transitioned(
                                RenderEvent::Handshake(Ok(GameLoopMessage::SyncWithRenderer)),
                            );
                            if fed.phase is AdvancingTime {
                                lemma_push_strictly_increasing(
                                    pre.drawn_frames@,
                                    fed.render_data.frame_number,
                                );
                            }
                        }
                    }
                    self.foxy.next_state(GameEvent::Handshake(r));
                },
                GameAction::SampleClock => {
                    let now = self.sample_clock(script);
                    self.foxy.next_state(GameEvent::Clock(now));
                },
                GameAction::Internal => {
                    proof {
                        if self.foxy.time.ticks_due() > 0 {
                            crate::time::lemma_due_means_step_available(self.foxy.time);
                        }
                    }
                    self.foxy.next_state(GameEvent::Nothing);
                },
                GameAction::ExitHandshakeAndJoin => {
                    let ghost pre = *self;
                    let r = self.rendezvous(GameLoopMessage::Exit, script);
                    proof {
                        if r is Ok {
                            lemma_push_exit_only_last(pre.mailbox.game_sent@, GameLoopMessage::Exit);
                            lemma_push_stamps_other(
                                pre.mailbox.game_sent@,
                                GameLoopMessage::Exit,
                                pre.foxy.next_frame_number,
                            );
                            if !(pre.render.outgoing_of() is EmergencyExit) {
                                lemma_push_no_emergency(
                                    pre.mailbox.render_sent@,
                                    pre.render.outgoing_of(),
                                );
                            }
                        }
                    }
                    // the close path performs a blocking join: the render
                    // thread ends after `Exit`, or is already gone
                    self.joined = true;
                    self.foxy.next_state(GameEvent::Handshake(r));
                },
                GameAction::HandoffThenPoll(d) => {
                    let ghost pre = *self;
                    let r = self.rendezvous(GameLoopMessage::RenderData(d), script);
                    proof {
                        if r is Ok {
                            lemma_push_exit_only_last(
                                pre.mailbox.game_sent@,
                                GameLoopMessage::RenderData(d),
                            );
                            lemma_push_stamps_data(
                                pre.mailbox.game_sent@,
                                GameLoopMessage::RenderData(d),
                                pre.foxy.next_frame_number,
                            );
                            if !(pre.render.outgoing_of() is EmergencyExit) {
                                lemma_push_no_emergency(
                                    pre.mailbox.render_sent@,
                                    pre.render.outgoing_of(),
                                );
                            }
                            lemma_push_emergency_last(
                                pre.mailbox.render_sent@,
                                pre.render.outgoing_of(),
                            );
                        }
                    }
                    let w = match r {
                        Ok(_) => self.poll_window(script),
                        Err(_) => None,
                    };
                    self.foxy.next_state(GameEvent::HandshakeThenWindow(r, w));
                },
                GameAction::Finished => {
                    // unreachable: the loop runs only while the machine has
                    // not reached its terminal phase
                    proof {
                        assert(false);
                    }
                },
            }
        }
        // The driving side is done with the channel; dropping its endpoint
        // unblocks the render side, which always reaches teardown.
        if !self.render_killed {
            let waiting = match self.render.phase {
                RenderPhase::SyncBeforeDraw => true,
                RenderPhase::SyncAfterDraw => true,
                RenderPhase::EmergencyExiting => true,
                _ => false,
            };
            if waiting {
                self.render.advance(RenderEvent::Handshake(Err(ChannelError::Disconnected)));
            }
            let torn = match self.render.phase {
                RenderPhase::TearingDown => true,
                _ => false,
            };
            if torn {
                self.render.advance(RenderEvent::Nothing);
            }
        }
    }
}

} // verus!
