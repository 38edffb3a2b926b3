use vstd::prelude::*;

verus! {

/// The port reported before the server has been given one.
pub const INITIAL_PORT: u16 = 3000;

/// Where the supervised server stands.
#[derive(Clone, Copy, Debug, PartialEq, Eq, Structural)]
pub enum SessionState {
    Unstarted,
    Spawning,
    Running,
    Terminating,
    Terminated,
}

/// What a session is, seen from outside: its port, whether it still holds the process
/// and an OS container, and its state.
pub ghost struct SessionModel {
    pub port: u16,
    pub port_assigned: bool,
    pub has_child: bool,
    pub has_container: bool,
    pub state: SessionState,
}

/// A fresh session.
pub open spec fn initial_model() -> SessionModel {
    SessionModel {
        port: INITIAL_PORT,
        port_assigned: false,
        has_child: false,
        has_container: false,
        state: SessionState::Unstarted,
    }
}

/// Well-formed: a process is held only while running or being terminated.
pub open spec fn model_wf(m: SessionModel) -> bool {
    m.has_child ==> m.state == SessionState::Running
}

/// The session after its process handle has been taken for termination. Without a
/// handle nothing changes.
pub open spec fn take_model(m: SessionModel) -> SessionModel {
    if m.has_child {
        SessionModel { has_child: false, state: SessionState::Terminating, ..m }
    } else {
        m
    }
}

/// The session after the process has been observed gone.
pub open spec fn exit_model(m: SessionModel) -> SessionModel {
    SessionModel { has_child: false, state: SessionState::Terminated, ..m }
}

/// The single live instance of the supervised server: its port, the handle of its
/// process `H`, and the handle of the OS container `C` that kills it with the supervisor.
pub struct ServerSession<H, C> {
    port: u16,
    port_assigned: bool,
    child: Option<H>,
    container: Option<C>,
    state: SessionState,
}

impl<H, C> View for ServerSession<H, C> {
    type V = SessionModel;

    closed spec fn view(&self) -> SessionModel {
        SessionModel {
            port: self.port,
            port_assigned: self.port_assigned,
            has_child: self.child is Some,
            has_container: self.container is Some,
            state: self.state,
        }
    }
}

impl<H, C> ServerSession<H, C> {
    /// The process handle held, if any.
    pub closed spec fn child_spec(&self) -> Option<H> {
        self.child
    }

    /// A session that has not started its server.
    pub fn new() -> (r: Self)
        ensures
            r@ == initial_model(),
            model_wf(r@),
    {
        ServerSession {
            port: INITIAL_PORT,
            port_assigned: false,
            child: None,
            container: None,
            state: SessionState::Unstarted,
        }
    }

    /// The port of the server: the assigned one, or the initial one before assignment.
    pub fn get_server_port(&self) -> (r: u16)
        ensures
            r == self@.port,
    {
        self.port
    }

    /// The process handle held, if any.
    pub fn child(&self) -> (r: Option<&H>)
        ensures
            r is Some == self.child_spec() is Some,
            r is Some ==> *r->0 == self.child_spec()->0,
    {
        self.child.as_ref()
    }

    /// The state of the session.
    pub fn state(&self) -> (r: SessionState)
        ensures
            r == self@.state,
    {
        self.state
    }

    /// Gives the session its port. A port is assigned once: a later call changes
    /// nothing and returns `false`.
    pub fn assign_port(&mut self, port: u16) -> (r: bool)
        ensures
            r == !old(self)@.port_assigned,
            r ==> final(self)@ == (SessionModel { port, port_assigned: true, ..old(self)@ }),
            !r ==> final(self)@ == old(self)@,
            final(self).child_spec() == old(self).child_spec(),
    {
        if self.port_assigned {
            false
        } else {
            self.port = port;
            self.port_assigned = true;
            true
        }
    }

    /// Moves an unstarted session to spawning. Any other session is left as it is and
    /// `false` comes back: a session spawns at most once.
    pub fn begin_spawn(&mut self) -> (r: bool)
        ensures
            r == (old(self)@.state == SessionState::Unstarted),
            r ==> final(self)@ == (SessionModel { state: SessionState::Spawning, ..old(self)@ }),
            !r ==> final(self)@ == old(self)@,
            final(self).child_spec() == old(self).child_spec(),
    {
        if self.state == SessionState::Unstarted {
            self.state = SessionState::Spawning;
            true
        } else {
            false
        }
    }

    /// Records the process that a spawn created; the session is then running. Outside the
    /// spawning state the handle is refused and handed back.
    pub fn spawned(&mut self, child: H) -> (r: Option<H>)
        ensures
            old(self)@.state == SessionState::Spawning ==> r is None && final(self)@ == (
            SessionModel { has_child: true, state: SessionState::Running, ..old(self)@ })
                && final(self).child_spec() == Some(child),
            old(self)@.state != SessionState::Spawning ==> r == Some(child) && final(self)@
                == old(self)@ && final(self).child_spec() == old(self).child_spec(),
    {
        if self.state == SessionState::Spawning {
            self.child = Some(child);
            self.state = SessionState::Running;
            None
        } else {
            Some(child)
        }
    }

    /// Records that the spawn failed: the session ends.
    pub fn spawn_failed(&mut self)
        ensures
            old(self)@.state == SessionState::Spawning ==> final(self)@ == (SessionModel {
                state: SessionState::Terminated,
                ..old(self)@
            }),
            old(self)@.state != SessionState::Spawning ==> final(self)@ == old(self)@,
            final(self).child_spec() == old(self).child_spec(),
    {
        if self.state == SessionState::Spawning {
            self.state = SessionState::Terminated;
        }
    }

    /// Keeps the OS container handle for the rest of the supervisor's life. Only the
    /// first handle is kept; a later one is handed back.
    pub fn keep_container(&mut self, container: C) -> (r: Option<C>)
        ensures
            !old(self)@.has_container ==> r is None && final(self)@ == (SessionModel {
                has_container: true,
                ..old(self)@
            }),
            old(self)@.has_container ==> r == Some(container) && final(self)@ == old(self)@,
            final(self).child_spec() == old(self).child_spec(),
    {
        if self.container.is_some() {
            Some(container)
        } else {
            self.container = Some(container);
            None
        }
    }

    /// Takes the process handle out for termination, so that no other caller can
    /// terminate it again. Without a handle (never spawned, or already taken) nothing
    /// changes and `None` comes back.
    pub fn take_for_termination(&mut self) -> (r: Option<H>)
        ensures
            r == old(self).child_spec(),
            final(self)@ == take_model(old(self)@),
            final(self).child_spec() is None,
    {
        match self.child.take() {
            Some(c) => {
                self.state = SessionState::Terminating;
                Some(c)
            },
            None => None,
        }
    }

    /// Records that the process is gone, whether it was killed or exited on its own. The
    /// session ends there and never spawns again; a handle still held is handed back.
    pub fn mark_terminated(&mut self) -> (r: Option<H>)
        ensures
            r == old(self).child_spec(),
            final(self)@ == exit_model(old(self)@),
            final(self).child_spec() is None,
    {
        self.state = SessionState::Terminated;
        self.child.take()
    }
}

/// Terminating twice takes the process once: the second take finds no handle and
/// changes nothing, so the process is killed at most once and the second call is a
/// quiet no-op.
pub proof fn lemma_terminate_idempotent(m: SessionModel)
    ensures
        !take_model(m).has_child,
        take_model(take_model(m)) == take_model(m),
        m.has_child ==> take_model(m).state == SessionState::Terminating,
{
}

/// A terminated session stays terminated: no later spawn, take or exit revives it.
pub proof fn lemma_terminated_absorbing(m: SessionModel)
    requires
        m.state == SessionState::Terminated,
        model_wf(m),
    ensures
        take_model(m) == m,
        exit_model(m).state == SessionState::Terminated,
{
}

} // verus!
