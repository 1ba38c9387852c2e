//! The server lifecycle manager's state: which port, if any, the single
//! live listener is bound to. All lifecycle transitions are serialized
//! through one exclusive gate by the surrounding runtime, so this record is
//! only ever stepped by one transition at a time.

use vstd::prelude::*;

verus! {

/// The manager's externally visible phase. At most one listener exists by
/// construction: a running phase names exactly one port.
#[derive(Clone, Copy, Debug, PartialEq, Eq, Structural)]
pub enum ServerPhase {
    Stopped,
    Running { port: u16 },
}

/// The lifecycle manager's model of the serving instance.
pub struct Lifecycle {
    pub phase: ServerPhase,
}

/// What a completed restart leaves behind: running on the new port when the
/// bind succeeded, stopped when it failed — the prior instance is torn down
/// first either way, so a failed rebind leaves no listener at all.
pub open spec fn restart_transition(
    pre: Lifecycle,
    post: Lifecycle,
    new_port: u16,
    bind_ok: bool,
) -> bool {
    post.phase == if bind_ok {
        ServerPhase::Running { port: new_port }
    } else {
        ServerPhase::Stopped
    }
}

impl Lifecycle {
    /// The port the live listener is bound to, if one is live at all.
    pub open spec fn running_port(&self) -> Option<u16> {
        match self.phase {
            ServerPhase::Running { port } => Some(port),
            ServerPhase::Stopped => None,
        }
    }

    /// The manager starts with no listener bound.
    pub fn new() -> (m: Lifecycle)
        ensures
            m.running_port() is None,
    {
        Lifecycle { phase: ServerPhase::Stopped }
    }

    /// Whether a serving instance is currently live.
    pub fn is_running(&self) -> (r: bool)
        ensures
            r == (self.running_port() is Some),
    {
        match self.phase {
            ServerPhase::Running { .. } => true,
            ServerPhase::Stopped => false,
        }
    }

    /// The serving task has released its listener — after a graceful
    /// shutdown, or because it exited for any other reason.
    pub fn note_stopped(&mut self)
        ensures
            final(self).running_port() is None,
    {
        self.phase = ServerPhase::Stopped;
    }

    /// A bind succeeded and a new instance is serving. The previous
    /// listener must have been released first: release-before-rebind.
    pub fn note_started(&mut self, port: u16)
        requires
            old(self).running_port() is None,
        ensures
            final(self).running_port() == Some(port),
    {
        self.phase = ServerPhase::Running { port };
    }

    /// One whole restart: tear the current instance down, then install the
    /// new one exactly when its bind succeeded.
    pub fn apply_restart(&mut self, new_port: u16, bind_ok: bool)
        ensures
            restart_transition(*old(self), *final(self), new_port, bind_ok),
            bind_ok ==> final(self).running_port() == Some(new_port),
            !bind_ok ==> final(self).running_port() is None,
    {
        self.note_stopped();
        if bind_ok {
            self.note_started(new_port);
        }
    }
}

/// Restart with a new port is idempotent in effect: once it completes with
/// a successful bind, exactly one listener is recorded — on the new port —
/// and every other port, the old one included, is free. A failed bind
/// leaves no listener at all: the prior instance is already torn down, a
/// known limitation kept as it stands.
pub proof fn restart_rebinds_exclusively(
    pre: Lifecycle,
    post: Lifecycle,
    new_port: u16,
    bind_ok: bool,
)
    requires
        restart_transition(pre, post, new_port, bind_ok),
    ensures
        bind_ok ==> post.running_port() == Some(new_port),
        bind_ok ==> forall|p: u16| p != new_port ==> post.running_port() != Some(p),
        !bind_ok ==> post.running_port() is None,
{
}

} // verus!
