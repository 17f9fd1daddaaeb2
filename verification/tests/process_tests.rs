//! The process state machine: signals, lifecycle sequences and the
//! console banners.

use gupax::process::{
    render_stopped_banner, step, watchdog_tick_action, ExitKind, Process, ProcessEvent,
    ProcessName, ProcessSignal, ProcessState, TickAction,
};
use gupax::human::HumanTime;

// A restart of a live process is observed as Middle, then Waiting once
// the child is killed, then Alive again after the respawn.
#[test]
fn restart_walks_middle_waiting_alive() {
    let mut p = Process::new(ProcessName::P2pool);
    p.begin_start();
    assert_eq!(p.state, ProcessState::Middle);
    p.mark_spawned(10);
    assert_eq!(p.state, ProcessState::Alive);
    p.request_restart();
    assert_eq!(p.state, ProcessState::Middle);
    assert_eq!(p.signal, ProcessSignal::Restart);
    let action = watchdog_tick_action(p.signal, None);
    assert_eq!(action, TickAction::KillRestart);
    p.conclude_restart();
    assert_eq!(p.state, ProcessState::Waiting);
    p.mark_spawned(20);
    assert_eq!(p.state, ProcessState::Alive);
    assert_eq!(p.signal, ProcessSignal::Idle);
    assert_eq!(p.start_secs, 20);
}

// Stopping a dead process is a no-op: the state stays Dead and no
// signal is raised for a watchdog to act on.
#[test]
fn stop_on_dead_is_noop() {
    let mut p = Process::new(ProcessName::Xmrig);
    assert_eq!(p.state, ProcessState::Dead);
    p.request_stop();
    assert_eq!(p.state, ProcessState::Dead);
    assert_eq!(p.signal, ProcessSignal::Idle);
    assert_eq!(
        watchdog_tick_action(p.signal, None),
        TickAction::Continue
    );
}

// A child that exits on its own with a bad code is reaped as Failed,
// and the banner for it reaches the console.
#[test]
fn bad_exit_reaps_failed_with_banner() {
    let mut p = Process::new(ProcessName::P2pool);
    p.begin_start();
    p.mark_spawned(0);
    let action = watchdog_tick_action(p.signal, Some(false));
    assert_eq!(action, TickAction::Reap { success: false });
    p.conclude_exit(false);
    assert_eq!(p.state, ProcessState::Failed);
    assert_eq!(p.signal, ProcessSignal::Idle);
    let uptime = HumanTime::into_human(5).render();
    let banner = render_stopped_banner(ProcessName::P2pool, &uptime, ExitKind::BadCode);
    let text = String::from_utf8(banner).unwrap();
    assert!(text.contains("P2Pool stopped | Uptime: [5 seconds] | Exit status: [Failed]"));
    assert!(text.ends_with("\n\n\n\n"));
}

// A clean stop walks Alive -> Middle -> Dead.
#[test]
fn stop_walks_middle_dead() {
    let mut p = Process::new(ProcessName::P2pool);
    p.begin_start();
    p.mark_spawned(0);
    p.request_stop();
    assert_eq!(p.state, ProcessState::Middle);
    assert_eq!(watchdog_tick_action(p.signal, None), TickAction::KillStop);
    p.conclude_exit(true);
    assert_eq!(p.state, ProcessState::Dead);
}

// An observed exit outranks a pending signal.
#[test]
fn exit_outranks_signal() {
    assert_eq!(
        watchdog_tick_action(ProcessSignal::Stop, Some(true)),
        TickAction::Reap { success: true }
    );
}

// The bare step function follows the same graph.
#[test]
fn step_follows_graph() {
    assert_eq!(
        step(ProcessState::Dead, ProcessEvent::Start),
        ProcessState::Middle
    );
    assert_eq!(
        step(ProcessState::Middle, ProcessEvent::SpawnOk),
        ProcessState::Alive
    );
    assert_eq!(
        step(ProcessState::Alive, ProcessEvent::ChildExit { success: true }),
        ProcessState::Dead
    );
    assert_eq!(
        step(ProcessState::Middle, ProcessEvent::RestartWaitDone),
        ProcessState::Waiting
    );
    assert_eq!(
        step(ProcessState::Waiting, ProcessEvent::Start),
        ProcessState::Alive
    );
    // meaningless events change nothing
    assert_eq!(
        step(ProcessState::Dead, ProcessEvent::Stop),
        ProcessState::Dead
    );
}

// The stdin queue hands its lines over in order and empties.
#[test]
fn input_queue_drains() {
    let mut p = Process::new(ProcessName::P2pool);
    p.append_input(b"status".to_vec());
    p.append_input(b"peers".to_vec());
    let lines = p.take_input();
    assert_eq!(lines, vec![b"status".to_vec(), b"peers".to_vec()]);
    assert!(p.take_input().is_empty());
}

// The liveness queries match their states.
#[test]
fn liveness_queries() {
    let mut p = Process::new(ProcessName::P2pool);
    assert!(!p.is_alive());
    assert!(!p.is_waiting());
    p.begin_start();
    assert!(p.is_alive());
    assert!(p.is_waiting());
    p.mark_spawned(0);
    assert!(p.is_alive());
    assert!(!p.is_waiting());
}
