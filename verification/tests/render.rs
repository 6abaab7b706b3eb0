//! The render thread's loop machine, stepped by hand.

use foxy::message::{
    ChannelError, DrawError, GameLoopMessage, RenderData, RenderLoopMessage,
};
use foxy::render_loop::{RenderAction, RenderEvent, RenderLoop, RenderPhase};
use foxy::time::TimeSettings;

fn fresh_render() -> RenderLoop {
    RenderLoop::new(TimeSettings::new())
}

#[test]
fn iteration_brackets_the_draw_with_two_syncs() {
    let mut r = fresh_render();
    assert_eq!(r.phase, RenderPhase::SyncBeforeDraw);
    r.advance(RenderEvent::Handshake(Ok(GameLoopMessage::SyncWithRenderer)));
    assert_eq!(r.phase, RenderPhase::AdvancingTime);
    r.advance(RenderEvent::Clock(1_000));
    assert_eq!(r.phase, RenderPhase::Drawing);
    r.advance(RenderEvent::Drawn(Ok(())));
    assert_eq!(r.phase, RenderPhase::SyncAfterDraw);
    r.advance(RenderEvent::Handshake(Ok(GameLoopMessage::RenderData(RenderData {
        frame_number: 1,
    }))));
    assert_eq!(r.phase, RenderPhase::SyncBeforeDraw);
    assert_eq!(r.render_data.frame_number, 1);
}

#[test]
fn draw_uses_most_recently_received_input() {
    let mut r = fresh_render();
    // before any handoff the never-handed-off input (number zero) is drawn
    assert_eq!(r.pending_action(), RenderAction::Handshake(r.outgoing()));
    r.advance(RenderEvent::Handshake(Ok(GameLoopMessage::SyncWithRenderer)));
    r.advance(RenderEvent::Clock(5));
    assert_eq!(r.pending_action(), RenderAction::Draw(RenderData { frame_number: 0 }));
}

#[test]
fn exit_reply_tears_down_then_exits() {
    let mut r = fresh_render();
    r.advance(RenderEvent::Handshake(Ok(GameLoopMessage::Exit)));
    assert_eq!(r.phase, RenderPhase::TearingDown);
    assert_eq!(r.pending_action(), RenderAction::Teardown);
    r.advance(RenderEvent::Nothing);
    assert_eq!(r.phase, RenderPhase::Exited);
    assert_eq!(r.pending_action(), RenderAction::Finished);
}

#[test]
fn disconnect_tears_down_then_exits() {
    let mut r = fresh_render();
    r.advance(RenderEvent::Handshake(Err(ChannelError::Disconnected)));
    assert_eq!(r.phase, RenderPhase::TearingDown);
    r.advance(RenderEvent::Nothing);
    assert_eq!(r.phase, RenderPhase::Exited);
}

#[test]
fn recoverable_draw_failure_continues() {
    let mut r = fresh_render();
    r.advance(RenderEvent::Handshake(Ok(GameLoopMessage::SyncWithRenderer)));
    r.advance(RenderEvent::Clock(1));
    r.advance(RenderEvent::Drawn(Err(DrawError::Recoverable)));
    // the frame is skipped but the loop lives on: the second sync is owed,
    // and what it sends is the timing report, not an emergency notice
    assert_eq!(r.phase, RenderPhase::SyncAfterDraw);
    assert!(matches!(r.outgoing(), RenderLoopMessage::Response { .. }));
}

#[test]
fn unrecoverable_draw_failure_sends_emergency_exit() {
    let mut r = fresh_render();
    r.advance(RenderEvent::Handshake(Ok(GameLoopMessage::SyncWithRenderer)));
    r.advance(RenderEvent::Clock(1));
    r.advance(RenderEvent::Drawn(Err(DrawError::Unrecoverable)));
    assert_eq!(r.phase, RenderPhase::EmergencyExiting);
    assert_eq!(r.outgoing(), RenderLoopMessage::EmergencyExit);
    // whatever the emergency handshake produces, teardown follows
    r.advance(RenderEvent::Handshake(Err(ChannelError::Disconnected)));
    assert_eq!(r.phase, RenderPhase::TearingDown);
    r.advance(RenderEvent::Nothing);
    assert_eq!(r.phase, RenderPhase::Exited);
}

#[test]
fn sync_reports_timing() {
    let mut r = fresh_render();
    r.advance(RenderEvent::Handshake(Ok(GameLoopMessage::SyncWithRenderer)));
    r.advance(RenderEvent::Clock(7_812_500));
    r.advance(RenderEvent::Drawn(Ok(())));
    match r.outgoing() {
        RenderLoopMessage::Response { delta_time, average_delta_time } => {
            assert_eq!(delta_time, 7_812_500);
            // one tick was due and folded the delta into the average
            assert_eq!(average_delta_time, 7_812_500 / 8);
        },
        other => panic!("unexpected message {:?}", other),
    }
}
