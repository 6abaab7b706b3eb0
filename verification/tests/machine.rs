//! The driving thread's lifecycle machine, stepped by hand.

use foxy::game::{Foxy, GameAction, GameEvent};
use foxy::lifecycle::Lifecycle;
use foxy::message::{ChannelError, RenderLoopMessage, WindowMessage};
use foxy::time::TimeSettings;

const STEP: u64 = 7_812_500;

fn fresh_machine() -> Foxy {
    Foxy::new(TimeSettings::new())
}

fn ok_reply() -> Result<RenderLoopMessage, ChannelError> {
    Ok(RenderLoopMessage::Response { delta_time: 0, average_delta_time: 0 })
}

#[test]
fn frame_cycle_in_order() {
    // BeginFrame -> EarlyUpdate -> FixedUpdate* -> Update -> EndFrame -> BeginFrame
    let mut foxy = fresh_machine();
    assert_eq!(foxy.pending_action(), GameAction::PollWindow);
    let s = foxy.next_state(GameEvent::Window(Some(WindowMessage::Other)));
    assert!(matches!(s, Some(Lifecycle::BeginFrame { .. })));

    assert_eq!(foxy.pending_action(), GameAction::SyncHandshake);
    let s = foxy.next_state(GameEvent::Handshake(ok_reply()));
    assert!(matches!(s, Some(Lifecycle::EarlyUpdate { .. })));

    // three steps' worth of elapsed time: one tick here, two more in
    // FixedUpdate, and one last visit that finds no step due
    let s = foxy.next_state(GameEvent::Clock(3 * STEP));
    assert!(matches!(s, Some(Lifecycle::FixedUpdate { .. })));
    let s = foxy.next_state(GameEvent::Nothing);
    assert!(matches!(s, Some(Lifecycle::FixedUpdate { .. })));
    let s = foxy.next_state(GameEvent::Nothing);
    assert!(matches!(s, Some(Lifecycle::FixedUpdate { .. })));
    let s = foxy.next_state(GameEvent::Nothing);
    assert!(matches!(s, Some(Lifecycle::Update { .. })));

    let s = foxy.next_state(GameEvent::Nothing);
    assert!(matches!(s, Some(Lifecycle::EndFrame { .. })));

    let s = foxy.next_state(GameEvent::HandshakeThenWindow(
        ok_reply(),
        Some(WindowMessage::Key { code: 7 }),
    ));
    assert_eq!(s, Some(Lifecycle::BeginFrame { message: WindowMessage::Key { code: 7 } }));
}

#[test]
fn fixed_update_count_matches_elapsed_time() {
    // the number of fixed ticks in one frame is floor(elapsed / step)
    let mut foxy = fresh_machine();
    foxy.next_state(GameEvent::Window(Some(WindowMessage::Other)));
    foxy.next_state(GameEvent::Handshake(ok_reply()));
    let mut state = foxy.next_state(GameEvent::Clock(5 * STEP + 3)).unwrap();
    let mut ticks: u64 = 1; // EarlyUpdate ran the first due tick
    while matches!(state, Lifecycle::FixedUpdate { .. }) {
        state = foxy.next_state(GameEvent::Nothing).unwrap();
        if matches!(state, Lifecycle::FixedUpdate { .. }) {
            ticks += 1;
        }
    }
    assert_eq!(ticks, 5);
    assert!(matches!(state, Lifecycle::Update { .. }));
}

#[test]
fn no_tick_due_goes_straight_to_update() {
    let mut foxy = fresh_machine();
    foxy.next_state(GameEvent::Window(Some(WindowMessage::Other)));
    foxy.next_state(GameEvent::Handshake(ok_reply()));
    let s = foxy.next_state(GameEvent::Clock(STEP - 1));
    assert!(matches!(s, Some(Lifecycle::Update { .. })));
}

#[test]
fn window_exhausted_exits() {
    let mut foxy = fresh_machine();
    let s = foxy.next_state(GameEvent::Window(None));
    assert_eq!(s, Some(Lifecycle::Exiting));
    let s = foxy.next_state(GameEvent::Nothing);
    assert_eq!(s, Some(Lifecycle::ExitLoop));
    // the terminal phase reports completion by yielding None
    assert_eq!(foxy.next_state(GameEvent::Nothing), None);
    assert!(foxy.done());
}

#[test]
fn handshake_disconnect_forces_exit() {
    let mut foxy = fresh_machine();
    foxy.next_state(GameEvent::Window(Some(WindowMessage::Other)));
    let s = foxy.next_state(GameEvent::Handshake(Err(ChannelError::Disconnected)));
    assert_eq!(s, Some(Lifecycle::Exiting));
}

#[test]
fn handoff_disconnect_forces_exit() {
    let mut foxy = fresh_machine();
    foxy.next_state(GameEvent::Window(Some(WindowMessage::Other)));
    foxy.next_state(GameEvent::Handshake(ok_reply()));
    foxy.next_state(GameEvent::Clock(1));
    foxy.next_state(GameEvent::Nothing);
    assert!(matches!(
        foxy.pending_action(),
        GameAction::HandoffThenPoll(_)
    ));
    let s = foxy.next_state(GameEvent::HandshakeThenWindow(
        Err(ChannelError::Disconnected),
        None,
    ));
    assert_eq!(s, Some(Lifecycle::Exiting));
}

#[test]
fn closed_message_takes_the_close_path() {
    let mut foxy = fresh_machine();
    foxy.next_state(GameEvent::Window(Some(WindowMessage::Closed)));
    foxy.next_state(GameEvent::Handshake(ok_reply()));
    foxy.next_state(GameEvent::Clock(1));
    foxy.next_state(GameEvent::Nothing);
    // the close is owed an exit handshake and a join, nothing else
    assert_eq!(foxy.pending_action(), GameAction::ExitHandshakeAndJoin);
    let s = foxy.next_state(GameEvent::Handshake(ok_reply()));
    assert_eq!(s, Some(Lifecycle::Exiting));
    assert_eq!(foxy.pending_action(), GameAction::Internal);
}

#[test]
fn handoff_stamps_fresh_frame_numbers() {
    // the driving side never reuses a frame input: stamps count up
    let mut foxy = fresh_machine();
    foxy.next_state(GameEvent::Window(Some(WindowMessage::Other)));
    foxy.next_state(GameEvent::Handshake(ok_reply()));
    foxy.next_state(GameEvent::Clock(1));
    foxy.next_state(GameEvent::Nothing);
    match foxy.pending_action() {
        GameAction::HandoffThenPoll(d) => assert_eq!(d.frame_number, 1),
        other => panic!("unexpected action {:?}", other),
    }
    foxy.next_state(GameEvent::HandshakeThenWindow(ok_reply(), Some(WindowMessage::Other)));
    foxy.next_state(GameEvent::Handshake(ok_reply()));
    foxy.next_state(GameEvent::Clock(2));
    foxy.next_state(GameEvent::Nothing);
    match foxy.pending_action() {
        GameAction::HandoffThenPoll(d) => assert_eq!(d.frame_number, 2),
        other => panic!("unexpected action {:?}", other),
    }
}
