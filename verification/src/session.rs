//! One network session at a time.
//!
//! A [`Session`] is the life cycle of one endpoint: a listening socket that
//! takes one peer, or one outbound connection. The [`SessionManager`] keeps a
//! record of every session it was asked to start and sees to it that only
//! the most recent one can be anything but closed. It performs no I/O: the
//! caller binds, accepts and connects, and reports each outcome with
//! [`SessionManager::notify`].

use crate::address::{is_endpoint, parse_port};
use crate::error::{BindFailure, ConnectFailure, Error, IoFailure};
use crate::role::Role;
use vstd::prelude::*;

verus! {

/// How long an outbound connection may stay pending, in milliseconds.
pub const CONNECT_TIMEOUT_MS: u64 = 5000;

/// Connection state of a session.
#[derive(Clone, Copy, Debug, PartialEq, Eq, Structural)]
pub enum ConnState {
    Idle,
    Listening,
    Connecting,
    Established,
    Closed,
}

impl ConnState {
    /// Any state but `Closed`.
    pub open spec fn is_open(self) -> bool {
        self != ConnState::Closed
    }
}

/// An IP address as its bits.
#[derive(Clone, Copy, Debug, PartialEq, Eq, Structural)]
pub enum IpAddress {
    V4(u32),
    V6(u128),
}

/// The far end of an established session.
#[derive(Clone, Copy, Debug, PartialEq, Eq, Structural)]
pub struct PeerAddr {
    pub ip: IpAddress,
    pub port: u16,
}

/// What the network reported about a session.
#[derive(Clone, Copy, Debug, PartialEq, Eq)]
pub enum NetEvent {
    /// The listener took a peer.
    Accepted(PeerAddr),
    /// The outbound connection was made.
    Connected(PeerAddr),
    /// The listener could not be set up.
    BindFailed(BindFailure),
    /// The outbound connection was not made.
    ConnectFailed(ConnectFailure),
    /// Reading, writing or accepting failed.
    IoFailed(IoFailure),
}

/// What the render loop gets to see of a session.
#[derive(Clone, Copy, Debug, PartialEq, Eq)]
pub struct SessionStatus {
    pub state: ConnState,
    /// The peer, exactly while the session is established.
    pub peer: Option<PeerAddr>,
    /// The error that closed the session, if an error did.
    pub failure: Option<Error>,
}

impl SessionStatus {
    /// The status of a session that was shut down, and of a handle that
    /// names no session.
    pub open spec fn closed() -> SessionStatus {
        SessionStatus { state: ConnState::Closed, peer: None, failure: None }
    }
}

/// Names one session of a [`SessionManager`].
#[derive(Clone, Copy, Debug, PartialEq, Eq, Structural)]
pub struct Handle {
    pub id: usize,
}

/// The life cycle of one network endpoint.
#[derive(Clone, Copy, Debug, PartialEq, Eq)]
pub struct Session {
    pub role: Role,
    pub state: ConnState,
    pub peer: Option<PeerAddr>,
    pub failure: Option<Error>,
    /// Milliseconds spent connecting so far.
    pub waited_ms: u64,
}

impl Session {
    /// A session belongs to the server or to the client role, listens only
    /// as a server, connects only as a client and only for less than the
    /// timeout, knows its peer exactly while it is established, and carries
    /// an error only once it is closed.
    pub open spec fn wf(self) -> bool {
        &&& self.role.is_active()
        &&& self.state == ConnState::Listening ==> self.role == Role::Server
        &&& self.state == ConnState::Connecting ==> self.role == Role::Client
        &&& self.state == ConnState::Connecting ==> self.waited_ms < CONNECT_TIMEOUT_MS
        &&& self.peer.is_some() <==> self.state == ConnState::Established
        &&& self.failure.is_some() ==> self.state == ConnState::Closed
    }

    /// A session holds a socket, or is about to, unless it is closed.
    pub open spec fn is_live(self) -> bool {
        self.state.is_open()
    }

    /// A session of `role` on which nothing has happened yet.
    pub open spec fn idle(role: Role) -> Session {
        Session { role, state: ConnState::Idle, peer: None, failure: None, waited_ms: 0 }
    }

    /// The first step of an idle session: a server listens, a client
    /// connects. Any other session stays as it is.
    pub open spec fn opened(self) -> Session {
        if self.state == ConnState::Idle {
            Session {
                state: if self.role == Role::Server {
                    ConnState::Listening
                } else {
                    ConnState::Connecting
                },
                ..self
            }
        } else {
            self
        }
    }

    /// The session after its socket was closed on request. A closed session
    /// stays exactly as it is.
    pub open spec fn shut(self) -> Session {
        if self.is_live() {
            Session { state: ConnState::Closed, peer: None, ..self }
        } else {
            self
        }
    }

    /// Whether `event` can happen to a session in this state. An event that
    /// arrives in any other state is stale and changes nothing.
    pub open spec fn accepts(self, event: NetEvent) -> bool {
        match event {
            NetEvent::Accepted(_) => self.state == ConnState::Listening,
            NetEvent::Connected(_) => self.state == ConnState::Connecting,
            NetEvent::BindFailed(_) => self.state == ConnState::Listening,
            NetEvent::ConnectFailed(_) => self.state == ConnState::Connecting,
            NetEvent::IoFailed(_) => self.is_live() && self.state != ConnState::Idle,
        }
    }

    /// The session closed by `error`.
    pub open spec fn failed_with(self, error: Error) -> Session {
        Session { state: ConnState::Closed, peer: None, failure: Some(error), ..self }
    }

    /// The session after `event`.
    pub open spec fn after(self, event: NetEvent) -> Session {
        if !self.accepts(event) {
            self
        } else {
            match event {
                NetEvent::Accepted(peer) => Session {
                    state: ConnState::Established,
                    peer: Some(peer),
                    ..self
                },
                NetEvent::Connected(peer) => Session {
                    state: ConnState::Established,
                    peer: Some(peer),
                    ..self
                },
                NetEvent::BindFailed(reason) => self.failed_with(Error::BindError(reason)),
                NetEvent::ConnectFailed(reason) => self.failed_with(Error::ConnectError(reason)),
                NetEvent::IoFailed(reason) => self.failed_with(Error::SessionIoError(reason)),
            }
        }
    }

    /// Whether a connection attempt that has waited `millis` longer has
    /// waited too long. Only a connecting session can time out.
    pub open spec fn times_out(self, millis: u64) -> bool {
        self.state == ConnState::Connecting && self.waited_ms + millis >= CONNECT_TIMEOUT_MS
    }

    /// The session after `millis` more milliseconds have passed. A
    /// connecting session adds them to its waiting time and, once that
    /// reaches the timeout, is closed with `ConnectError(TimedOut)`. Time
    /// means nothing to a session in any other state.
    pub open spec fn waited(self, millis: u64) -> Session {
        if self.times_out(millis) {
            self.failed_with(Error::ConnectError(ConnectFailure::TimedOut))
        } else if self.state == ConnState::Connecting {
            Session { waited_ms: (self.waited_ms + millis) as u64, ..self }
        } else {
            self
        }
    }

    /// What the render loop sees of this session.
    pub open spec fn status(self) -> SessionStatus {
        SessionStatus { state: self.state, peer: self.peer, failure: self.failure }
    }

    /// Creates an idle session.
    pub fn new(role: Role) -> (session: Session)
        ensures
            session == Session::idle(role),
    {
        Session { role, state: ConnState::Idle, peer: None, failure: None, waited_ms: 0 }
    }

    /// Takes the first step: see [`Session::opened`].
    pub fn open(self) -> (session: Session)
        ensures
            session == self.opened(),
    {
        match self.state {
            ConnState::Idle => {
                let state = match self.role {
                    Role::Server => ConnState::Listening,
                    _ => ConnState::Connecting,
                };
                Session { state, ..self }
            },
            _ => self,
        }
    }

    /// Closes on request: see [`Session::shut`].
    pub fn close(self) -> (session: Session)
        ensures
            session == self.shut(),
    {
        match self.state {
            ConnState::Closed => self,
            _ => Session { state: ConnState::Closed, peer: None, ..self },
        }
    }

    /// Applies a network event: see [`Session::after`]. The flag tells
    /// whether the event was due in this state.
    pub fn apply(self, event: NetEvent) -> (result: (Session, bool))
        ensures
            result.0 == self.after(event),
            result.1 == self.accepts(event),
    {
        match (self.state, event) {
            (ConnState::Listening, NetEvent::Accepted(peer)) => (
                Session { state: ConnState::Established, peer: Some(peer), ..self },
                true,
            ),
            (ConnState::Connecting, NetEvent::Connected(peer)) => (
                Session { state: ConnState::Established, peer: Some(peer), ..self },
                true,
            ),
            (ConnState::Listening, NetEvent::BindFailed(reason)) => (
                self.failed(Error::BindError(reason)),
                true,
            ),
            (ConnState::Connecting, NetEvent::ConnectFailed(reason)) => (
                self.failed(Error::ConnectError(reason)),
                true,
            ),
            (ConnState::Listening, NetEvent::IoFailed(reason)) => (
                self.failed(Error::SessionIoError(reason)),
                true,
            ),
            (ConnState::Connecting, NetEvent::IoFailed(reason)) => (
                self.failed(Error::SessionIoError(reason)),
                true,
            ),
            (ConnState::Established, NetEvent::IoFailed(reason)) => (
                self.failed(Error::SessionIoError(reason)),
                true,
            ),
            _ => (self, false),
        }
    }

    /// The status: see [`Session::status`].
    pub fn report(&self) -> (status: SessionStatus)
        ensures
            status == self.status(),
    {
        SessionStatus { state: self.state, peer: self.peer, failure: self.failure }
    }

    /// Lets time pass: see [`Session::waited`]. The flag tells whether the
    /// session timed out just now.
    pub fn wait(self, millis: u64) -> (result: (Session, bool))
        ensures
            result.0 == self.waited(millis),
            result.1 == self.times_out(millis),
    {
        match self.state {
            ConnState::Connecting => {
                match self.waited_ms.checked_add(millis) {
                    Some(total) => {
                        if total >= CONNECT_TIMEOUT_MS {
                            (self.failed(Error::ConnectError(ConnectFailure::TimedOut)), true)
                        } else {
                            (Session { waited_ms: total, ..self }, false)
                        }
                    },
                    None => (self.failed(Error::ConnectError(ConnectFailure::TimedOut)), true),
                }
            },
            _ => (self, false),
        }
    }

    fn failed(self, error: Error) -> (session: Session)
        ensures
            session == self.failed_with(error),
    {
        Session { state: ConnState::Closed, peer: None, failure: Some(error), ..self }
    }
}

/// Every session of the record is well formed and past its idle state, all
/// but the last are closed, and a handle can name each of them.
pub open spec fn log_wf(log: Seq<Session>) -> bool {
    &&& log.len() <= usize::MAX
    &&& forall|i: int|
        0 <= i < log.len() ==> (#[trigger] log[i]).wf() && log[i].state != ConnState::Idle
    &&& forall|i: int| 0 <= i < log.len() - 1 ==> !(#[trigger] log[i]).is_live()
}

/// The status that `handle` has in `log`. A handle that names no session
/// reads as closed.
pub open spec fn status_at(log: Seq<Session>, handle: Handle) -> SessionStatus {
    if handle.id < log.len() {
        log[handle.id as int].status()
    } else {
        SessionStatus::closed()
    }
}

/// The session that is not closed, if there is one.
pub open spec fn live_handle(log: Seq<Session>) -> Option<Handle> {
    if log.len() > 0 && log.last().is_live() {
        Some(Handle { id: (log.len() - 1) as usize })
    } else {
        None
    }
}

/// `log` with the session of `handle` shut down.
pub open spec fn shut_at(log: Seq<Session>, handle: Handle) -> Seq<Session> {
    if handle.id < log.len() {
        log.update(handle.id as int, log[handle.id as int].shut())
    } else {
        log
    }
}

/// `log` with whichever session is live shut down.
pub open spec fn shut_all(log: Seq<Session>) -> Seq<Session> {
    match live_handle(log) {
        Some(handle) => shut_at(log, handle),
        None => log,
    }
}

/// `log` after a session of `role` was started: what was live is shut down
/// first, then the new session is appended, already listening or connecting.
pub open spec fn started(log: Seq<Session>, role: Role) -> Seq<Session> {
    shut_all(log).push(Session::idle(role).opened())
}

/// `log` after `event` was reported for `handle`.
pub open spec fn notified(log: Seq<Session>, handle: Handle, event: NetEvent) -> Seq<Session> {
    if handle.id < log.len() {
        log.update(handle.id as int, log[handle.id as int].after(event))
    } else {
        log
    }
}

/// `log` after `millis` more milliseconds have passed for `handle`.
pub open spec fn elapsed_at(log: Seq<Session>, handle: Handle, millis: u64) -> Seq<Session> {
    if handle.id < log.len() {
        log.update(handle.id as int, log[handle.id as int].waited(millis))
    } else {
        log
    }
}

/// Whether the session of `handle` times out when `millis` more milliseconds
/// have passed.
pub open spec fn times_out_at(log: Seq<Session>, handle: Handle, millis: u64) -> bool {
    handle.id < log.len() && log[handle.id as int].times_out(millis)
}

/// Whether `event` is due for `handle`: the handle names a session, and the
/// session is in a state in which the event can happen.
pub open spec fn due_at(log: Seq<Session>, handle: Handle, event: NetEvent) -> bool {
    handle.id < log.len() && log[handle.id as int].accepts(event)
}

/// After a shutdown the session is closed, whatever it was before and
/// whether or not the handle names a session, and a second shutdown changes
/// nothing.
pub proof fn lemma_shutdown_idempotent(log: Seq<Session>, handle: Handle)
    ensures
        status_at(shut_at(log, handle), handle).state == ConnState::Closed,
        shut_at(shut_at(log, handle), handle) == shut_at(log, handle),
{
    assert(shut_at(shut_at(log, handle), handle) =~= shut_at(log, handle));
}

/// A shutdown touches no session but the one it names.
pub proof fn lemma_shutdown_is_local(log: Seq<Session>, handle: Handle, other: Handle)
    requires
        other != handle,
    ensures
        status_at(shut_at(log, handle), other) == status_at(log, other),
{
}

/// Mutual exclusion: of two different sessions at least one is closed.
pub proof fn lemma_at_most_one_live(log: Seq<Session>, first: Handle, second: Handle)
    requires
        log_wf(log),
        first != second,
    ensures
        status_at(log, first).state == ConnState::Closed || status_at(log, second).state
            == ConnState::Closed,
{
    if first.id < log.len() && second.id < log.len() {
        if first.id < second.id {
            assert(!log[first.id as int].is_live());
        } else {
            assert(!log[second.id as int].is_live());
        }
    }
}

/// Starting a session keeps the record well formed. The new session is the
/// live one: a server listens, a client connects, and every earlier session
/// is closed.
pub proof fn lemma_started(log: Seq<Session>, role: Role)
    requires
        log_wf(log),
        log.len() < usize::MAX,
        role.is_active(),
    ensures
        log_wf(started(log, role)),
        live_handle(started(log, role)) == Some(Handle { id: log.len() as usize }),
        started(log, role).last() == Session::idle(role).opened(),
        forall|handle: Handle|
            handle.id < log.len() ==> #[trigger] status_at(started(log, role), handle).state
                == ConnState::Closed,
{
    let closed = shut_all(log);
    let next = started(log, role);
    assert(closed.len() == log.len());
    assert forall|i: int| 0 <= i < closed.len() implies !(#[trigger] closed[i]).is_live()
        && closed[i].wf() && closed[i].state != ConnState::Idle by {
        if i < log.len() - 1 {
            assert(!log[i].is_live());
        }
    }
    assert forall|i: int| 0 <= i < next.len() implies (#[trigger] next[i]).wf() && next[i].state
        != ConnState::Idle by {
        if i < closed.len() {
            assert(next[i] == closed[i]);
        }
    }
    assert forall|i: int| 0 <= i < next.len() - 1 implies !(#[trigger] next[i]).is_live() by {
        assert(next[i] == closed[i]);
    }
    assert forall|handle: Handle| handle.id < log.len() implies #[trigger] status_at(
        next,
        handle,
    ).state == ConnState::Closed by {
        assert(next[handle.id as int] == closed[handle.id as int]);
    }
}

/// Shutting the live session down leaves a well-formed record in which
/// nothing is live.
pub proof fn lemma_shut_live(log: Seq<Session>, handle: Handle)
    requires
        log_wf(log),
        live_handle(log) == Some(handle),
    ensures
        log_wf(shut_at(log, handle)),
        live_handle(shut_at(log, handle)).is_none(),
{
    let next = shut_at(log, handle);
    assert(next.last() == log.last().shut());
}

/// A report for the live session leaves a well-formed record. The session
/// keeps its role, and no other session comes to life.
pub proof fn lemma_notified_live(log: Seq<Session>, handle: Handle, event: NetEvent)
    requires
        log_wf(log),
        live_handle(log) == Some(handle),
    ensures
        log_wf(notified(log, handle, event)),
        notified(log, handle, event)[handle.id as int].role == log[handle.id as int].role,
        live_handle(notified(log, handle, event)) == (if notified(
            log,
            handle,
            event,
        )[handle.id as int].is_live() {
            Some(handle)
        } else {
            None
        }),
{
    let next = notified(log, handle, event);
    assert(next.last() == log.last().after(event));
}

/// Time that passes for the live session leaves a well-formed record. The
/// session keeps its role, and no other session comes to life.
pub proof fn lemma_elapsed_live(log: Seq<Session>, handle: Handle, millis: u64)
    requires
        log_wf(log),
        live_handle(log) == Some(handle),
    ensures
        log_wf(elapsed_at(log, handle, millis)),
        elapsed_at(log, handle, millis)[handle.id as int].role == log[handle.id as int].role,
        live_handle(elapsed_at(log, handle, millis)) == (if elapsed_at(
            log,
            handle,
            millis,
        )[handle.id as int].is_live() {
            Some(handle)
        } else {
            None
        }),
{
    let next = elapsed_at(log, handle, millis);
    assert(next.last() == log.last().waited(millis));
}

/// Owner of the sessions.
pub struct SessionManager {
    sessions: Vec<Session>,
}

impl View for SessionManager {
    type V = Seq<Session>;

    closed spec fn view(&self) -> Seq<Session> {
        self.sessions@
    }
}

impl SessionManager {
    /// The invariant of the manager: [`log_wf`] of its record.
    pub open spec fn wf(&self) -> bool {
        log_wf(self@)
    }

    /// A manager that has started nothing.
    pub fn new() -> (manager: SessionManager)
        ensures
            manager@ == Seq::<Session>::empty(),
            manager.wf(),
    {
        SessionManager { sessions: Vec::new() }
    }

    /// Starts a session as a server on `bind_address`.
    ///
    /// Fails with `BindError(InvalidAddress)` exactly when `bind_address` is
    /// not a well-formed endpoint, and then changes nothing. Otherwise the
    /// session that was live, if any, is shut down, and a new session is
    /// recorded in state `Listening`; the handle names it. That the address
    /// is taken shows only when the caller binds; it is reported with
    /// `NetEvent::BindFailed`.
    pub fn start_server(&mut self, bind_address: &str) -> (result: Result<Handle, Error>)
        requires
            old(self).wf(),
        ensures
            final(self).wf(),
            match result {
                Ok(handle) => {
                    &&& is_endpoint(bind_address@)
                    &&& handle.id == old(self)@.len()
                    &&& final(self)@ == started(old(self)@, Role::Server)
                },
                Err(error) => {
                    &&& !is_endpoint(bind_address@)
                    &&& error == Error::BindError(BindFailure::InvalidAddress)
                    &&& final(self)@ == old(self)@
                },
            },
    {
        match parse_port(bind_address) {
            Some(_) => Ok(self.start(Role::Server)),
            None => Err(Error::BindError(BindFailure::InvalidAddress)),
        }
    }

    /// Starts a session as a client towards `remote_address`.
    ///
    /// Fails with `ConnectError(Unreachable)` exactly when `remote_address`
    /// is not a well-formed endpoint, and then changes nothing. Otherwise the
    /// session that was live, if any, is shut down, and a new session is
    /// recorded in state `Connecting`; the handle names it. Refusal and
    /// timeout are reported with `NetEvent::ConnectFailed`.
    pub fn start_client(&mut self, remote_address: &str) -> (result: Result<Handle, Error>)
        requires
            old(self).wf(),
        ensures
            final(self).wf(),
            match result {
                Ok(handle) => {
                    &&& is_endpoint(remote_address@)
                    &&& handle.id == old(self)@.len()
                    &&& final(self)@ == started(old(self)@, Role::Client)
                },
                Err(error) => {
                    &&& !is_endpoint(remote_address@)
                    &&& error == Error::ConnectError(ConnectFailure::Unreachable)
                    &&& final(self)@ == old(self)@
                },
            },
    {
        match parse_port(remote_address) {
            Some(_) => Ok(self.start(Role::Client)),
            None => Err(Error::ConnectError(ConnectFailure::Unreachable)),
        }
    }

    /// The state of the session that `handle` names, its peer while it is
    /// established, and the error that closed it, if one did. Only reads.
    pub fn poll_status(&self, handle: Handle) -> (status: SessionStatus)
        ensures
            status == status_at(self@, handle),
    {
        if handle.id < self.sessions.len() {
            self.sessions[handle.id].report()
        } else {
            SessionStatus { state: ConnState::Closed, peer: None, failure: None }
        }
    }

    /// Shuts the session of `handle` down. On a session that is closed
    /// already, and on a handle that names none, nothing changes.
    pub fn shutdown(&mut self, handle: Handle)
        requires
            old(self).wf(),
        ensures
            final(self).wf(),
            final(self)@ == shut_at(old(self)@, handle),
            status_at(final(self)@, handle).state == ConnState::Closed,
            !status_at(old(self)@, handle).state.is_open() ==> final(self)@ == old(self)@,
    {
        if handle.id < self.sessions.len() {
            let session = self.sessions[handle.id];
            self.sessions[handle.id] = session.close();
            proof {
                if !session.is_live() {
                    assert(self.sessions@ =~= old(self).sessions@);
                }
            }
        }
    }

    /// Records what the network reported for `handle`. Returns whether the
    /// event was due; an event that was not due changes nothing.
    pub fn notify(&mut self, handle: Handle, event: NetEvent) -> (due: bool)
        requires
            old(self).wf(),
        ensures
            final(self).wf(),
            due == due_at(old(self)@, handle, event),
            final(self)@ == notified(old(self)@, handle, event),
            !due ==> final(self)@ == old(self)@,
    {
        if handle.id < self.sessions.len() {
            let session = self.sessions[handle.id];
            let (next, due) = session.apply(event);
            self.sessions[handle.id] = next;
            proof {
                if !due {
                    assert(self.sessions@ =~= old(self).sessions@);
                }
            }
            due
        } else {
            false
        }
    }

    /// Lets `millis` milliseconds pass for the session of `handle`. Returns
    /// whether that made a pending connection time out; the session is then
    /// closed with `ConnectError(TimedOut)`.
    pub fn elapse(&mut self, handle: Handle, millis: u64) -> (timed_out: bool)
        requires
            old(self).wf(),
        ensures
            final(self).wf(),
            timed_out == times_out_at(old(self)@, handle, millis),
            final(self)@ == elapsed_at(old(self)@, handle, millis),
    {
        if handle.id < self.sessions.len() {
            let session = self.sessions[handle.id];
            let (next, timed_out) = session.wait(millis);
            self.sessions[handle.id] = next;
            timed_out
        } else {
            false
        }
    }

    /// The handle of the session that is not closed, if there is one.
    pub fn live(&self) -> (handle: Option<Handle>)
        ensures
            handle == live_handle(self@),
    {
        let n: usize = self.sessions.len();
        if n == 0 {
            None
        } else {
            match self.sessions[n - 1].state {
                ConnState::Closed => None,
                _ => Some(Handle { id: n - 1 }),
            }
        }
    }

    /// Number of sessions started so far. The next handle has this id.
    pub fn started_count(&self) -> (count: usize)
        ensures
            count == self@.len(),
    {
        self.sessions.len()
    }

    fn start(&mut self, role: Role) -> (handle: Handle)
        requires
            old(self).wf(),
            role.is_active(),
        ensures
            final(self).wf(),
            handle.id == old(self)@.len(),
            final(self)@ == started(old(self)@, role),
    {
        let n: usize = self.sessions.len();
        if n > 0 {
            let last = self.sessions[n - 1];
            self.sessions[n - 1] = last.close();
            proof {
                if !last.is_live() {
                    assert(self.sessions@ =~= old(self).sessions@);
                }
            }
        }
        self.sessions.push(Session::new(role).open());
        let count: usize = self.sessions.len();
        Handle { id: count - 1 }
    }
}

} // verus!
