//! The supervisor of the external player process. The process handle is
//! held by the caller, which asks the supervisor before it spawns or kills
//! and reports back what happened; the supervisor keeps the state machine
//! Idle -> Starting -> Running -> Dead (natural or killed) -> Idle and the
//! "terminated on purpose" flag.

use vstd::prelude::*;

verus! {

/// Where the external player process is in its life.
#[derive(Clone, Copy, Debug, PartialEq, Eq, Structural)]
pub enum PlayerState {
    /// No process.
    Idle,
    /// A spawn was requested and not yet reported.
    Starting,
    /// The process is alive.
    Running,
    /// The process exited on its own, at the end of the track.
    DeadNatural,
    /// The process was terminated on purpose and has been reaped.
    DeadKilled,
}

/// What a start request asks of the caller.
#[derive(Clone, Copy, Debug, PartialEq, Eq, Structural)]
pub enum StartStep {
    /// No process is live: spawn one and report the outcome.
    Spawn,
    /// A process is still live: kill and reap it first, then start again.
    KillFirst,
}

/// The supervisor's state as a plain value.
pub struct PlayerView {
    pub state: PlayerState,
    pub killed: bool,
}

/// A process exists, or may exist, in this state.
pub open spec fn live(s: PlayerState) -> bool {
    s == PlayerState::Starting || s == PlayerState::Running
}

pub open spec fn start_spec(v: PlayerView) -> (PlayerView, StartStep) {
    if live(v.state) {
        (PlayerView { state: v.state, killed: true }, StartStep::KillFirst)
    } else {
        (PlayerView { state: PlayerState::Starting, killed: false }, StartStep::Spawn)
    }
}

pub open spec fn spawned_spec(v: PlayerView, ok: bool) -> PlayerView {
    if v.state == PlayerState::Starting {
        PlayerView {
            state: if ok {
                PlayerState::Running
            } else {
                PlayerState::Idle
            },
            killed: v.killed,
        }
    } else {
        v
    }
}

pub open spec fn poll_spec(v: PlayerView, exited: bool) -> PlayerView {
    if v.state == PlayerState::Running && exited {
        PlayerView {
            state: if v.killed {
                PlayerState::DeadKilled
            } else {
                PlayerState::DeadNatural
            },
            killed: v.killed,
        }
    } else {
        v
    }
}

pub open spec fn kill_spec(v: PlayerView) -> (PlayerView, bool) {
    if live(v.state) {
        (PlayerView { state: v.state, killed: true }, true)
    } else {
        (PlayerView { state: PlayerState::DeadKilled, killed: true }, false)
    }
}

pub open spec fn reaped_spec(v: PlayerView, reaped: bool) -> PlayerView {
    if live(v.state) && reaped {
        PlayerView { state: PlayerState::DeadKilled, killed: true }
    } else {
        v
    }
}

pub open spec fn retire_spec(v: PlayerView) -> PlayerView {
    if v.state == PlayerState::DeadNatural || v.state == PlayerState::DeadKilled {
        PlayerView { state: PlayerState::Idle, killed: false }
    } else {
        v
    }
}

/// At most one player process: a spawn is asked for only when no process is
/// live. Starting while one is live asks for a kill first and leaves the
/// process in place; once that kill is reaped the next start spawns.
pub proof fn lemma_supervisor_exclusive(v: PlayerView)
    ensures
        start_spec(v).1 == StartStep::Spawn ==> !live(v.state),
        start_spec(v).1 == StartStep::Spawn ==> start_spec(v).0.state == PlayerState::Starting,
        live(v.state) ==> start_spec(v).1 == StartStep::KillFirst && start_spec(v).0.state
            == v.state,
        live(v.state) ==> !live(reaped_spec(start_spec(v).0, true).state) && start_spec(
            reaped_spec(start_spec(v).0, true),
        ).1 == StartStep::Spawn,
{
}

/// A kill always wins the classification: once a kill was asked for, the
/// process ends as Dead-Killed whether it is reaped by the kill or seen to
/// exit by a poll.
pub proof fn lemma_kill_wins(v: PlayerView, exited: bool)
    requires
        v.state == PlayerState::Running,
    ensures
        reaped_spec(kill_spec(v).0, true).state == PlayerState::DeadKilled,
        exited ==> poll_spec(kill_spec(v).0, exited).state == PlayerState::DeadKilled,
{
}

/// The supervisor of the player process.
pub struct ActiveSong {
    state: PlayerState,
    marked_dead: bool,
}

impl ActiveSong {
    pub closed spec fn view(&self) -> PlayerView {
        PlayerView { state: self.state, killed: self.marked_dead }
    }

    /// A supervisor with no process.
    pub fn new() -> (r: ActiveSong)
        ensures
            r.view() == (PlayerView { state: PlayerState::Idle, killed: false }),
    {
        ActiveSong { state: PlayerState::Idle, marked_dead: false }
    }

    pub fn state(&self) -> (r: PlayerState)
        ensures
            r == self.view().state,
    {
        self.state
    }

    /// Whether the current or last process was terminated on purpose.
    pub fn marked_dead(&self) -> (r: bool)
        ensures
            r == self.view().killed,
    {
        self.marked_dead
    }

    /// Whether a process exists (it may be starting).
    pub fn has_process(&self) -> (r: bool)
        ensures
            r == live(self.view().state),
    {
        self.state == PlayerState::Starting || self.state == PlayerState::Running
    }

    /// Whether the process is known to be alive.
    pub fn is_running(&self) -> (r: bool)
        ensures
            r == (self.view().state == PlayerState::Running),
    {
        self.state == PlayerState::Running
    }

    /// Asks to start a process for a new track.
    pub fn start(&mut self) -> (r: StartStep)
        ensures
            (final(self).view(), r) == start_spec(old(self).view()),
    {
        if self.has_process() {
            self.marked_dead = true;
            StartStep::KillFirst
        } else {
            self.state = PlayerState::Starting;
            self.marked_dead = false;
            StartStep::Spawn
        }
    }

    /// Reports the outcome of a spawn: a failed spawn leaves no process.
    pub fn spawn_finished(&mut self, ok: bool)
        ensures
            final(self).view() == spawned_spec(old(self).view(), ok),
    {
        if self.state == PlayerState::Starting {
            self.state = if ok {
                PlayerState::Running
            } else {
                PlayerState::Idle
            };
        }
    }

    /// Reports a liveness check: whether the process has exited. An exit is
    /// classified as killed when a kill was asked for, else as natural.
    pub fn poll(&mut self, exited: bool) -> (r: PlayerState)
        ensures
            final(self).view() == poll_spec(old(self).view(), exited),
            r == final(self).view().state,
    {
        if self.state == PlayerState::Running && exited {
            self.state = if self.marked_dead {
                PlayerState::DeadKilled
            } else {
                PlayerState::DeadNatural
            };
        }
        self.state
    }

    /// Asks for the process to be terminated. Returns whether there is a
    /// process for the caller to kill and reap; with none, the supervisor is
    /// Dead-Killed at once.
    pub fn try_kill(&mut self) -> (r: bool)
        ensures
            (final(self).view(), r) == kill_spec(old(self).view()),
    {
        self.marked_dead = true;
        if self.has_process() {
            true
        } else {
            self.state = PlayerState::DeadKilled;
            false
        }
    }

    /// Reports the end of a kill: whether the process was killed and reaped.
    pub fn kill_finished(&mut self, reaped: bool)
        ensures
            final(self).view() == reaped_spec(old(self).view(), reaped),
    {
        if self.has_process() && reaped {
            self.state = PlayerState::DeadKilled;
            self.marked_dead = true;
        }
    }

    /// Returns a dead supervisor to Idle.
    pub fn retire(&mut self)
        ensures
            final(self).view() == retire_spec(old(self).view()),
    {
        if self.state == PlayerState::DeadNatural || self.state == PlayerState::DeadKilled {
            self.state = PlayerState::Idle;
            self.marked_dead = false;
        }
    }
}

} // verus!
