//! Whole runs of the dual-thread core under the lockstep model.

use foxy::framework::{Framework, Script};
use foxy::lifecycle::Lifecycle;
use foxy::message::{DrawError, GameLoopMessage, RenderLoopMessage, WindowMessage};
use foxy::render_loop::RenderPhase;
use foxy::time::TimeSettings;

fn plain_script(frames: usize) -> Script {
    Script {
        window_messages: vec![WindowMessage::Other; frames],
        clock_deltas: Vec::new(),
        default_clock_delta: 1_000_000,
        draw_failures: Vec::new(),
        kill_render_at_exchange: None,
    }
}

fn completed_run(script: &Script) -> Framework {
    let mut fw = Framework::new(TimeSettings::new());
    fw.run(script);
    fw
}

fn count_exits(log: &[GameLoopMessage]) -> usize {
    log.iter().filter(|m| matches!(m, GameLoopMessage::Exit)).count()
}

fn count_emergencies(log: &[RenderLoopMessage]) -> usize {
    log.iter()
        .filter(|m| matches!(m, RenderLoopMessage::EmergencyExit))
        .count()
}

#[test]
fn rendezvous_counts_always_match() {
    // every completed exchange is one send on each side
    for frames in [0usize, 1, 3, 10] {
        let fw = completed_run(&plain_script(frames));
        assert_eq!(fw.mailbox.game_sent.len(), fw.mailbox.render_sent.len());
        // two handshakes per frame
        assert_eq!(fw.mailbox.game_sent.len(), 2 * frames);
    }
}

#[test]
fn each_frame_input_is_drawn_once() {
    let fw = completed_run(&plain_script(5));
    // frame k's draw observes the input handed over at the end of frame k-1;
    // the first draw observes the never-handed-off input, number zero
    assert_eq!(fw.drawn_frames, vec![0, 1, 2, 3, 4]);
    assert_eq!(fw.foxy.current_state, Lifecycle::ExitLoop);
    // the driving endpoint's drop released the render side into teardown
    assert_eq!(fw.render.phase, RenderPhase::Exited);
    // no close was requested, so no exit message and no join
    assert_eq!(count_exits(&fw.mailbox.game_sent), 0);
    assert!(!fw.joined);
}

#[test]
fn close_sends_one_exit_then_joins() {
    let script = Script {
        window_messages: vec![
            WindowMessage::Other,
            WindowMessage::Other,
            WindowMessage::Closed,
        ],
        clock_deltas: Vec::new(),
        default_clock_delta: 1_000_000,
        draw_failures: Vec::new(),
        kill_render_at_exchange: None,
    };
    let fw = completed_run(&script);
    assert_eq!(count_exits(&fw.mailbox.game_sent), 1);
    // the exit is the very last message: no frame data follows it
    assert_eq!(fw.mailbox.game_sent.last(), Some(&GameLoopMessage::Exit));
    assert!(fw.joined);
    assert_eq!(fw.foxy.current_state, Lifecycle::ExitLoop);
    assert_eq!(fw.render.phase, RenderPhase::Exited);
    // two full frames before the closing frame: sync+data, sync+data, sync+exit
    assert_eq!(fw.mailbox.game_sent.len(), 6);
}

#[test]
fn recoverable_failure_skips_one_frame_only() {
    // a synthetic renderer that fails recoverably on the third draw only
    let mut draw_failures = vec![None; 10];
    draw_failures[2] = Some(DrawError::Recoverable);
    let script = Script {
        window_messages: vec![WindowMessage::Other; 10],
        clock_deltas: Vec::new(),
        default_clock_delta: 1_000_000,
        draw_failures,
        kill_render_at_exchange: None,
    };
    let fw = completed_run(&script);
    // all ten frames completed their exchanges; no emergency was sent
    assert_eq!(fw.mailbox.game_sent.len(), 20);
    assert_eq!(count_emergencies(&fw.mailbox.render_sent), 0);
    assert_eq!(fw.drawn_frames, vec![0, 1, 2, 3, 4, 5, 6, 7, 8, 9]);
    assert_eq!(fw.render.phase, RenderPhase::Exited);
}

#[test]
fn unrecoverable_failure_sends_emergency_and_disconnects() {
    // a synthetic renderer that fails unrecoverably on the fifth draw
    let mut draw_failures = vec![None; 10];
    draw_failures[4] = Some(DrawError::Unrecoverable);
    let script = Script {
        window_messages: vec![WindowMessage::Other; 10],
        clock_deltas: Vec::new(),
        default_clock_delta: 1_000_000,
        draw_failures,
        kill_render_at_exchange: None,
    };
    let fw = completed_run(&script);
    // the emergency notice went out exactly once, as the render side's last
    // message, and the render thread tore down and exited
    assert_eq!(count_emergencies(&fw.mailbox.render_sent), 1);
    assert_eq!(
        fw.mailbox.render_sent.last(),
        Some(&RenderLoopMessage::EmergencyExit)
    );
    assert_eq!(fw.render.phase, RenderPhase::Exited);
    assert!(!fw.render_killed);
    // five draws happened (the fifth being the fatal one), none after
    assert_eq!(fw.drawn_frames, vec![0, 1, 2, 3, 4]);
    // the driving side's next handshake saw the disconnect and left:
    // five sync handshakes and five handoffs completed, nothing more
    assert_eq!(fw.mailbox.game_sent.len(), 10);
    assert_eq!(fw.foxy.current_state, Lifecycle::ExitLoop);
}

#[test]
fn killed_render_thread_means_disconnect_not_hang() {
    // the render thread dies under external force before the fifth exchange
    let script = Script {
        window_messages: vec![WindowMessage::Other; 10],
        clock_deltas: Vec::new(),
        default_clock_delta: 1_000_000,
        draw_failures: Vec::new(),
        kill_render_at_exchange: Some(4),
    };
    let fw = completed_run(&script);
    // the run completed: the driving side got a disconnect error and left
    assert!(fw.render_killed);
    assert_eq!(fw.foxy.current_state, Lifecycle::ExitLoop);
    assert_eq!(fw.mailbox.game_sent.len(), 4);
    assert_eq!(fw.mailbox.render_sent.len(), 4);
    // the four completed exchanges bracket two draws
    assert_eq!(fw.drawn_frames.len(), 2);
    assert!(!fw.joined);
}

#[test]
fn kill_between_the_two_syncs_of_a_frame() {
    let script = Script {
        window_messages: vec![WindowMessage::Other; 10],
        clock_deltas: Vec::new(),
        default_clock_delta: 1_000_000,
        draw_failures: Vec::new(),
        kill_render_at_exchange: Some(3),
    };
    let fw = completed_run(&script);
    assert!(fw.render_killed);
    assert_eq!(fw.foxy.current_state, Lifecycle::ExitLoop);
    assert_eq!(fw.mailbox.game_sent.len(), 3);
    assert_eq!(fw.drawn_frames.len(), 2);
}

#[test]
fn empty_window_script_exits_cleanly() {
    let fw = completed_run(&plain_script(0));
    assert_eq!(fw.foxy.current_state, Lifecycle::ExitLoop);
    assert_eq!(fw.mailbox.game_sent.len(), 0);
    assert_eq!(fw.drawn_frames.len(), 0);
    assert_eq!(fw.render.phase, RenderPhase::Exited);
}

#[test]
fn handed_off_inputs_count_up() {
    let fw = completed_run(&plain_script(4));
    let stamps: Vec<u64> = fw
        .mailbox
        .game_sent
        .iter()
        .filter_map(|m| match m {
            GameLoopMessage::RenderData(d) => Some(d.frame_number),
            _ => None,
        })
        .collect();
    assert_eq!(stamps, vec![1, 2, 3, 4]);
}

#[test]
fn fixed_ticks_follow_the_wall_clock() {
    // first frame: three steps' worth of time; second frame: none
    let step = 7_812_500u64;
    let script = Script {
        window_messages: vec![WindowMessage::Other; 2],
        clock_deltas: vec![0, 3 * step, 0, 0],
        default_clock_delta: 0,
        draw_failures: Vec::new(),
        kill_render_at_exchange: None,
    };
    let fw = completed_run(&script);
    // the three accumulated steps were all consumed within their frame:
    // no lag worth a tick survives the run
    assert!(fw.foxy.time.lag_nanos < step);
    // the second frame's sample measured no elapsed time
    assert_eq!(fw.foxy.time.delta_nanos, 0);
}
