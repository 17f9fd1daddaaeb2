//! Child-process records and their state machine.
//!
//! A record tracks one supervised child: its lifecycle state, the signal
//! the UI last requested, the queue of pending stdin lines and the start
//! time. Every change of state goes through the functions here, and each
//! is proved to move only along the allowed transition graph:
//!
//! ```text
//! Dead  --Start-->   Middle --spawn ok-->  Alive
//! Alive --Stop-->    Middle --kill+wait--> Dead|Failed
//! Alive --Restart--> Middle --kill+wait--> Waiting --Start--> Alive
//! Alive --child exits on its own--> Dead|Failed
//! ```

use vstd::prelude::*;
use crate::fmt::{ascii, push_lit};

verus! {

#[derive(Clone, Copy, PartialEq, Eq, Structural, Debug)]
pub enum ProcessState {
    /// Online and running.
    Alive,
    /// Exited cleanly, or never started.
    Dead,
    /// Exited with a bad code.
    Failed,
    /// In the middle of starting, stopping or restarting.
    Middle,
    /// Killed by a restart and ready to be started again.
    Waiting,
}

#[derive(Clone, Copy, PartialEq, Eq, Structural, Debug)]
pub enum ProcessSignal {
    /// Nothing requested.
    Idle,
    Start,
    Stop,
    Restart,
}

#[derive(Clone, Copy, PartialEq, Eq, Structural, Debug)]
pub enum ProcessName {
    P2pool,
    Xmrig,
}

/// The display name of a process.
pub open spec fn name_text(n: ProcessName) -> Seq<u8> {
    match n {
        ProcessName::P2pool => ascii("P2Pool"@),
        ProcessName::Xmrig => ascii("XMRig"@),
    }
}

/// Render the display name of a process.
pub fn name_bytes(n: ProcessName) -> (r: Vec<u8>)
    ensures
        r@ == name_text(n),
{
    let mut v: Vec<u8> = Vec::new();
    match n {
        ProcessName::P2pool => {
            proof {
                reveal_strlit("P2Pool");
            }
            push_lit(&mut v, "P2Pool");
        },
        ProcessName::Xmrig => {
            proof {
                reveal_strlit("XMRig");
            }
            push_lit(&mut v, "XMRig");
        },
    }
    assert(v@ =~= name_text(n));
    v
}

/// What the UI observed happen to a process, driving one step of the
/// state machine.
#[derive(Clone, Copy, PartialEq, Eq, Structural, Debug)]
pub enum ProcessEvent {
    /// The user asked for a start.
    Start,
    /// The spawn succeeded.
    SpawnOk,
    /// The user asked for a stop.
    Stop,
    /// The user asked for a restart.
    Restart,
    /// The child exited on its own; `success` is its exit status.
    ChildExit { success: bool },
    /// A requested stop's kill-and-wait finished with this status.
    StopWaitDone { success: bool },
    /// A requested restart's kill-and-wait finished.
    RestartWaitDone,
}

/// An edge of the transition graph.
pub open spec fn allowed_edge(pre: ProcessState, post: ProcessState) -> bool {
    ||| (pre is Dead && post is Middle)
    ||| (pre is Middle && post is Alive)
    ||| (pre is Alive && post is Middle)
    ||| (pre is Middle && (post is Dead || post is Failed))
    ||| (pre is Middle && post is Waiting)
    ||| (pre is Waiting && post is Alive)
    ||| (pre is Alive && (post is Dead || post is Failed))
}

/// The next state after observing `e` in state `s`; an event that is
/// meaningless in `s` leaves the state alone.
pub open spec fn step_spec(s: ProcessState, e: ProcessEvent) -> ProcessState {
    match e {
        ProcessEvent::Start => if s is Dead {
            ProcessState::Middle
        } else if s is Waiting {
            ProcessState::Alive
        } else {
            s
        },
        ProcessEvent::SpawnOk => if s is Middle || s is Waiting {
            ProcessState::Alive
        } else {
            s
        },
        ProcessEvent::Stop => if s is Alive {
            ProcessState::Middle
        } else {
            s
        },
        ProcessEvent::Restart => if s is Alive {
            ProcessState::Middle
        } else {
            s
        },
        ProcessEvent::ChildExit { success } => if s is Alive || s is Middle {
            if success {
                ProcessState::Dead
            } else {
                ProcessState::Failed
            }
        } else {
            s
        },
        ProcessEvent::StopWaitDone { success } => if s is Middle {
            if success {
                ProcessState::Dead
            } else {
                ProcessState::Failed
            }
        } else {
            s
        },
        ProcessEvent::RestartWaitDone => if s is Middle {
            ProcessState::Waiting
        } else {
            s
        },
    }
}

/// Every step either leaves the state alone or moves along an edge of
/// the transition graph.
pub proof fn law_step_follows_graph(s: ProcessState, e: ProcessEvent)
    ensures
        step_spec(s, e) == s || allowed_edge(s, step_spec(s, e)),
{
}

/// Take one step of the state machine.
pub fn step(s: ProcessState, e: ProcessEvent) -> (r: ProcessState)
    ensures
        r == step_spec(s, e),
{
    match e {
        ProcessEvent::Start => match s {
            ProcessState::Dead => ProcessState::Middle,
            ProcessState::Waiting => ProcessState::Alive,
            _ => s,
        },
        ProcessEvent::SpawnOk => match s {
            ProcessState::Middle | ProcessState::Waiting => ProcessState::Alive,
            _ => s,
        },
        ProcessEvent::Stop => match s {
            ProcessState::Alive => ProcessState::Middle,
            _ => s,
        },
        ProcessEvent::Restart => match s {
            ProcessState::Alive => ProcessState::Middle,
            _ => s,
        },
        ProcessEvent::ChildExit { success } => match s {
            ProcessState::Alive | ProcessState::Middle => if success {
                ProcessState::Dead
            } else {
                ProcessState::Failed
            },
            _ => s,
        },
        ProcessEvent::StopWaitDone { success } => match s {
            ProcessState::Middle => if success {
                ProcessState::Dead
            } else {
                ProcessState::Failed
            },
            _ => s,
        },
        ProcessEvent::RestartWaitDone => match s {
            ProcessState::Middle => ProcessState::Waiting,
            _ => s,
        },
    }
}

/// The record of one supervised child process. The owning handles to the
/// real child and its terminal live with the watchdog; the record holds
/// only plain state the UI and the watchdog exchange.
pub struct Process {
    pub name: ProcessName,
    pub state: ProcessState,
    pub signal: ProcessSignal,
    /// Lines queued for the child's stdin, oldest first.
    pub input: Vec<Vec<u8>>,
    /// Supervisor clock reading, in seconds, at the latest spawn.
    pub start_secs: u64,
}

impl Process {
    /// A fresh record: dead, unsignalled, with an empty input queue.
    pub fn new(name: ProcessName) -> (r: Process)
        ensures
            r.name == name,
            r.state is Dead,
            r.signal is Idle,
            r.input@.len() == 0,
            r.start_secs == 0,
    {
        Process { name, state: ProcessState::Dead, signal: ProcessSignal::Idle, input: Vec::new(), start_secs: 0 }
    }

    /// Whether the process counts as running for the UI: fully online,
    /// or in the middle of a lifecycle change.
    pub fn is_alive(&self) -> (r: bool)
        ensures
            r == (self.state is Alive || self.state is Middle),
    {
        self.state == ProcessState::Alive || self.state == ProcessState::Middle
    }

    /// Whether the process is in a lifecycle wait: mid-change, or killed
    /// by a restart and pending its respawn.
    pub fn is_waiting(&self) -> (r: bool)
        ensures
            r == (self.state is Middle || self.state is Waiting),
    {
        self.state == ProcessState::Middle || self.state == ProcessState::Waiting
    }

    /// Queue one line for the child's stdin.
    pub fn append_input(&mut self, line: Vec<u8>)
        ensures
            final(self).input@ == old(self).input@.push(line),
            final(self).name == old(self).name,
            final(self).state == old(self).state,
            final(self).signal == old(self).signal,
            final(self).start_secs == old(self).start_secs,
    {
        self.input.push(line);
    }

    /// Take the queued stdin lines, leaving the queue empty.
    pub fn take_input(&mut self) -> (r: Vec<Vec<u8>>)
        ensures
            r@ == old(self).input@,
            final(self).input@.len() == 0,
            final(self).name == old(self).name,
            final(self).state == old(self).state,
            final(self).signal == old(self).signal,
            final(self).start_secs == old(self).start_secs,
    {
        let mut taken: Vec<Vec<u8>> = Vec::new();
        core::mem::swap(&mut taken, &mut self.input);
        taken
    }

    /// The UI asks the process to stop. Only a live process reacts; on a
    /// dead or failed one this is a no-op, and in particular no signal
    /// ever reaches the child.
    pub fn request_stop(&mut self)
        ensures
            old(self).state is Alive ==> final(self).state is Middle && final(self).signal
                is Stop,
            !(old(self).state is Alive) ==> final(self).state == old(self).state && final(self).signal == old(self).signal,
            final(self).name == old(self).name,
            final(self).input@ == old(self).input@,
            final(self).start_secs == old(self).start_secs,
    {
        if self.state == ProcessState::Alive {
            self.state = ProcessState::Middle;
            self.signal = ProcessSignal::Stop;
        }
    }

    /// The UI asks the process to restart. Only a live process reacts.
    pub fn request_restart(&mut self)
        ensures
            old(self).state is Alive ==> final(self).state is Middle && final(self).signal
                is Restart,
            !(old(self).state is Alive) ==> final(self).state == old(self).state && final(self).signal == old(self).signal,
            final(self).name == old(self).name,
            final(self).input@ == old(self).input@,
            final(self).start_secs == old(self).start_secs,
    {
        if self.state == ProcessState::Alive {
            self.state = ProcessState::Middle;
            self.signal = ProcessSignal::Restart;
        }
    }

    /// The UI asks for a start. A dead process moves to the middle state
    /// while the spawn is under way; a process waiting after a restart
    /// stays waiting, its respawn concluding with `mark_spawned`. A
    /// failed process has left the transition graph and stays put.
    pub fn begin_start(&mut self)
        ensures
            old(self).state is Dead ==> final(self).state is Middle && final(self).signal
                is Start,
            !(old(self).state is Dead) ==> final(self).state == old(self).state && final(self).signal == old(self).signal,
            final(self).name == old(self).name,
            final(self).input@ == old(self).input@,
            final(self).start_secs == old(self).start_secs,
    {
        if self.state == ProcessState::Dead {
            self.state = ProcessState::Middle;
            self.signal = ProcessSignal::Start;
        }
    }

    /// The spawn succeeded: the process is alive, the signal is served,
    /// and the start time is recorded.
    pub fn mark_spawned(&mut self, now_secs: u64)
        ensures
            (old(self).state is Middle || old(self).state is Waiting) ==> final(self).state
                is Alive && final(self).signal is Idle && final(self).start_secs == now_secs,
            !(old(self).state is Middle || old(self).state is Waiting) ==> final(self).state == old(self).state && final(self).signal == old(self).signal && final(self).start_secs == old(self).start_secs,
            final(self).name == old(self).name,
            final(self).input@ == old(self).input@,
    {
        if self.state == ProcessState::Middle || self.state == ProcessState::Waiting {
            self.state = ProcessState::Alive;
            self.signal = ProcessSignal::Idle;
            self.start_secs = now_secs;
        }
    }

    /// The child is gone for good — it exited on its own, or a requested
    /// stop's kill-and-wait finished. A clean status ends Dead, a bad one
    /// Failed, and the signal is cleared.
    pub fn conclude_exit(&mut self, success: bool)
        ensures
            (old(self).state is Alive || old(self).state is Middle) ==> final(self).state == (
            if success {
                ProcessState::Dead
            } else {
                ProcessState::Failed
            }) && final(self).signal is Idle,
            !(old(self).state is Alive || old(self).state is Middle) ==> final(self).state == old(self).state && final(self).signal == old(self).signal,
            final(self).name == old(self).name,
            final(self).input@ == old(self).input@,
            final(self).start_secs == old(self).start_secs,
    {
        if self.state == ProcessState::Alive || self.state == ProcessState::Middle {
            self.state = if success {
                ProcessState::Dead
            } else {
                ProcessState::Failed
            };
            self.signal = ProcessSignal::Idle;
        }
    }

    /// A requested restart's kill-and-wait finished: the process waits to
    /// be started again. The pending Restart signal stays set until the
    /// respawn serves it.
    pub fn conclude_restart(&mut self)
        ensures
            old(self).state is Middle ==> final(self).state is Waiting,
            !(old(self).state is Middle) ==> final(self).state == old(self).state,
            final(self).signal == old(self).signal,
            final(self).name == old(self).name,
            final(self).input@ == old(self).input@,
            final(self).start_secs == old(self).start_secs,
    {
        if self.state == ProcessState::Middle {
            self.state = ProcessState::Waiting;
        }
    }
}

/// What a watchdog must do this epoch, decided at the top of the loop.
#[derive(Clone, Copy, PartialEq, Eq, Structural, Debug)]
pub enum TickAction {
    /// The child exited on its own; reap it with this status and leave.
    Reap { success: bool },
    /// A stop was requested: kill the child, wait for it, and leave.
    KillStop,
    /// A restart was requested: kill the child, wait for it, and leave
    /// the record waiting for its respawn.
    KillRestart,
    /// Nothing terminal: drain stdin, parse output, poll telemetry.
    Continue,
}

/// The action a watchdog epoch takes, given the pending signal and the
/// result of a non-blocking wait on the child (`Some(success)` when the
/// child has already exited). An observed exit takes priority over any
/// signal.
pub open spec fn tick_action_spec(signal: ProcessSignal, exited: Option<bool>) -> TickAction {
    match exited {
        Some(success) => TickAction::Reap { success },
        None => match signal {
            ProcessSignal::Stop => TickAction::KillStop,
            ProcessSignal::Restart => TickAction::KillRestart,
            _ => TickAction::Continue,
        },
    }
}

/// Decide what this watchdog epoch does.
pub fn watchdog_tick_action(signal: ProcessSignal, exited: Option<bool>) -> (r: TickAction)
    ensures
        r == tick_action_spec(signal, exited),
{
    match exited {
        Some(success) => TickAction::Reap { success },
        None => match signal {
            ProcessSignal::Stop => TickAction::KillStop,
            ProcessSignal::Restart => TickAction::KillRestart,
            _ => TickAction::Continue,
        },
    }
}

/// How a reaped child's exit is described in the console banner.
#[derive(Clone, Copy, PartialEq, Eq, Structural, Debug)]
pub enum ExitKind {
    Successful,
    BadCode,
    Unknown,
}

/// The words the banner uses for an exit status.
pub open spec fn exit_text(k: ExitKind) -> Seq<u8> {
    match k {
        ExitKind::Successful => ascii("Successful"@),
        ExitKind::BadCode => ascii("Failed"@),
        ExitKind::Unknown => ascii("Unknown Error"@),
    }
}

/// A fixed horizontal rule bracketing console notices.
pub open spec fn hori_text() -> Seq<u8> {
    ascii(
        "--------------------------------------------------------------------------------"@,
    )
}

/// Append the horizontal rule.
pub fn push_hori(out: &mut Vec<u8>)
    ensures
        final(out)@ == old(out)@ + hori_text(),
{
    proof {
        reveal_strlit("--------------------------------------------------------------------------------");
    }
    push_lit(
        out,
        "--------------------------------------------------------------------------------",
    );
}

/// The banner written to the console when a child stops: the rule, one
/// line naming the process, its uptime and its exit status, the rule
/// again, and three blank lines.
pub open spec fn stopped_banner(name: ProcessName, uptime: Seq<u8>, k: ExitKind) -> Seq<u8> {
    hori_text() + seq![('\n' as u8)] + name_text(name) + ascii(" stopped | Uptime: ["@) + uptime
        + ascii("] | Exit status: ["@) + exit_text(k) + seq![(']' as u8), ('\n' as u8)]
        + hori_text() + seq![('\n' as u8), ('\n' as u8), ('\n' as u8), ('\n' as u8)]
}

/// Render the stop banner for a process.
pub fn render_stopped_banner(name: ProcessName, uptime: &Vec<u8>, k: ExitKind) -> (r: Vec<u8>)
    ensures
        r@ == stopped_banner(name, uptime@, k),
{
    let mut v: Vec<u8> = Vec::new();
    push_hori(&mut v);
    v.push('\n' as u8);
    let mut n = name_bytes(name);
    v.append(&mut n);
    proof {
        reveal_strlit(" stopped | Uptime: [");
    }
    push_lit(&mut v, " stopped | Uptime: [");
    let mut u = uptime.clone();
    assert(u@ == uptime@);
    v.append(&mut u);
    proof {
        reveal_strlit("] | Exit status: [");
    }
    push_lit(&mut v, "] | Exit status: [");
    match k {
        ExitKind::Successful => {
            proof {
                reveal_strlit("Successful");
            }
            push_lit(&mut v, "Successful");
        },
        ExitKind::BadCode => {
            proof {
                reveal_strlit("Failed");
            }
            push_lit(&mut v, "Failed");
        },
        ExitKind::Unknown => {
            proof {
                reveal_strlit("Unknown Error");
            }
            push_lit(&mut v, "Unknown Error");
        },
    }
    v.push(']' as u8);
    v.push('\n' as u8);
    push_hori(&mut v);
    v.push('\n' as u8);
    v.push('\n' as u8);
    v.push('\n' as u8);
    v.push('\n' as u8);
    assert(v@ =~= stopped_banner(name, uptime@, k));
    v
}

} // verus!
