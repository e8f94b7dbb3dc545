//! The application state machine.
//!
//! [`App`] is the single source of truth for what the process currently is.
//! It takes one input at a time, a key or a report from the network, and
//! answers with the [`Command`] that the surrounding loop has to carry out.
//! Every pair of state and input has a defined outcome.

use crate::address::is_endpoint;
use crate::error::{BindFailure, ConnectFailure, Error};
use crate::menu::{move_selection, moved, Direction, OPTION_COUNT};
use crate::role::{select_role, Role};
use crate::session::{
    elapsed_at, lemma_elapsed_live, lemma_notified_live, lemma_shut_live, lemma_started,
    live_handle, log_wf, notified, shut_at, started, status_at, ConnState, Handle, NetEvent,
    Session, SessionManager, SessionStatus, CONNECT_TIMEOUT_MS,
};
use vstd::prelude::*;

verus! {

/// Longest time to wait for a key before the next frame, in milliseconds.
/// A request to go back is therefore seen within this time.
pub const POLL_INTERVAL_MS: u64 = 200;

/// A discrete input from the terminal.
#[derive(Clone, Copy, Debug, PartialEq, Eq, Structural)]
pub enum Key {
    Up,
    Down,
    Confirm,
    Back,
    Quit,
}

/// What the surrounding loop has to do after an input was handled.
#[derive(Clone, Copy, Debug, PartialEq, Eq, Structural)]
pub enum Command {
    /// Nothing but the next frame.
    Nothing,
    /// Bind the configured address and accept one peer for this session.
    Listen(Handle),
    /// Connect to the configured remote address for this session.
    Connect(Handle),
    /// Cancel what is outstanding for this session and close its socket.
    Close(Handle),
    /// Leave the loop and end the process.
    Terminate,
}

/// What there is to draw.
#[derive(Clone, Copy, Debug, PartialEq, Eq)]
pub enum Frame {
    /// The role menu with its highlighted entry, and the error of the
    /// session that ended last, until a key dismisses it.
    Menu { selection: i64, notice: Option<Error> },
    /// The session of the current role.
    Session { role: Role, status: SessionStatus },
}

/// The application state as mathematics.
pub ghost struct AppView {
    pub role: Role,
    pub selection: int,
    pub sessions: Seq<Session>,
    pub notice: Option<Error>,
    pub bind_address: Seq<char>,
    pub remote_address: Seq<char>,
}

impl AppView {
    /// The state at process start.
    pub open spec fn initial(bind_address: Seq<char>, remote_address: Seq<char>) -> AppView {
        AppView {
            role: Role::Unselected,
            selection: 0,
            sessions: Seq::empty(),
            notice: None,
            bind_address,
            remote_address,
        }
    }

    /// The session record is well formed, the highlighted entry lies within
    /// the menu, and role and session agree: while a session is live the
    /// role is that session's role, and while none is live the role is
    /// `Unselected`.
    pub open spec fn wf(self) -> bool {
        &&& log_wf(self.sessions)
        &&& 0 <= self.selection < OPTION_COUNT
        &&& match live_handle(self.sessions) {
            Some(handle) => self.sessions[handle.id as int].role == self.role,
            None => self.role == Role::Unselected,
        }
    }

    /// The address that a session of `role` is started on.
    pub open spec fn address_for(self, role: Role) -> Seq<char> {
        if role == Role::Server {
            self.bind_address
        } else {
            self.remote_address
        }
    }

    /// The error of a session of `role` that could not even be attempted.
    pub open spec fn start_error(role: Role) -> Error {
        if role == Role::Server {
            Error::BindError(BindFailure::InvalidAddress)
        } else {
            Error::ConnectError(ConnectFailure::Unreachable)
        }
    }

    /// The command that sets a session of `role` going.
    pub open spec fn start_command(role: Role, handle: Handle) -> Command {
        if role == Role::Server {
            Command::Listen(handle)
        } else {
            Command::Connect(handle)
        }
    }

    /// Entering `role` from the menu. With a well-formed address a session
    /// is started and the role changes; with any other address the role
    /// stays `Unselected` and the error is put on display.
    pub open spec fn entered(self, role: Role) -> (AppView, Command) {
        if is_endpoint(self.address_for(role)) {
            (
                AppView { role, sessions: started(self.sessions, role), notice: None, ..self },
                Self::start_command(role, Handle { id: self.sessions.len() as usize }),
            )
        } else {
            (AppView { notice: Some(Self::start_error(role)), ..self }, Command::Nothing)
        }
    }

    /// Leaving the current role: the live session is shut down and the menu
    /// comes back with its first entry highlighted.
    pub open spec fn left(self) -> (AppView, Command) {
        match live_handle(self.sessions) {
            Some(handle) => (
                AppView {
                    role: Role::Unselected,
                    selection: 0,
                    sessions: shut_at(self.sessions, handle),
                    notice: None,
                    ..self
                },
                Command::Close(handle),
            ),
            None => (self, Command::Nothing),
        }
    }

    /// A request for `role`. The current role again changes nothing;
    /// `Unselected` leaves the current role; a role is entered from
    /// `Unselected` only, so that server and client never follow each other
    /// directly.
    pub open spec fn with_role(self, role: Role) -> (AppView, Command) {
        if role == self.role {
            (self, Command::Nothing)
        } else if role == Role::Unselected {
            self.left()
        } else if self.role == Role::Unselected {
            self.entered(role)
        } else {
            (self, Command::Nothing)
        }
    }

    /// Confirming the highlighted menu entry: the first enters the server
    /// role, the second the client role, any other ends the process. Outside
    /// the menu there is nothing to confirm.
    pub open spec fn confirmed(self) -> (AppView, Command) {
        if self.role != Role::Unselected {
            (self, Command::Nothing)
        } else {
            let target = Role::of_index(Some(self.selection));
            if target == Role::Unselected {
                (AppView { notice: None, ..self }, Command::Terminate)
            } else {
                self.entered(target)
            }
        }
    }

    /// The highlighted entry moved one step.
    pub open spec fn stepped(self, direction: Direction) -> AppView {
        AppView {
            selection: moved(self.selection, direction, OPTION_COUNT as int),
            notice: None,
            ..self
        }
    }

    /// The transition for a key.
    ///
    /// In the menu, up and down move the highlighted entry, confirm takes
    /// it, back does nothing and quit ends the process; each of them
    /// dismisses the error on display. In a role, back and quit both return
    /// to the menu and every other key does nothing.
    pub open spec fn after_key(self, key: Key) -> (AppView, Command) {
        if self.role == Role::Unselected {
            match key {
                Key::Up => (self.stepped(Direction::Up), Command::Nothing),
                Key::Down => (self.stepped(Direction::Down), Command::Nothing),
                Key::Confirm => self.confirmed(),
                Key::Back => (AppView { notice: None, ..self }, Command::Nothing),
                Key::Quit => (AppView { notice: None, ..self }, Command::Terminate),
            }
        } else {
            match key {
                Key::Back => self.left(),
                Key::Quit => self.left(),
                _ => (self, Command::Nothing),
            }
        }
    }

    /// The state once the live session `handle` has become `sessions`. While
    /// the session is still live nothing else changes. Once it is closed the
    /// role reverts to `Unselected`, the session's error is put on display
    /// and the socket is to be closed.
    pub open spec fn settled(self, sessions: Seq<Session>, handle: Handle) -> (AppView, Command) {
        if sessions[handle.id as int].is_live() {
            (AppView { sessions, ..self }, Command::Nothing)
        } else {
            (
                AppView {
                    role: Role::Unselected,
                    selection: 0,
                    sessions,
                    notice: sessions[handle.id as int].failure,
                    ..self
                },
                Command::Close(handle),
            )
        }
    }

    /// The transition for a report from the network.
    ///
    /// A report for the live session is recorded, and the state settles on
    /// the outcome. A report for any other handle is stale: nothing changes,
    /// and whatever the caller still holds for that handle is to be closed.
    pub open spec fn after_event(self, handle: Handle, event: NetEvent) -> (AppView, Command) {
        if live_handle(self.sessions) == Some(handle) {
            self.settled(notified(self.sessions, handle, event), handle)
        } else {
            (self, Command::Close(handle))
        }
    }

    /// The transition for the passing of `millis` milliseconds: the time is
    /// charged to the live session, and the state settles on the outcome.
    /// Without a live session nothing changes.
    pub open spec fn after_tick(self, millis: u64) -> (AppView, Command) {
        match live_handle(self.sessions) {
            Some(handle) => self.settled(elapsed_at(self.sessions, handle, millis), handle),
            None => (self, Command::Nothing),
        }
    }

    /// The transition for a failure of the terminal: whatever session is
    /// live is shut down and the process is to end.
    pub open spec fn after_input_failure(self) -> (AppView, Command) {
        (AppView { notice: Some(Error::InputError), ..self.left().0 }, Command::Terminate)
    }

    /// What there is to draw.
    pub open spec fn frame(self) -> Frame {
        match live_handle(self.sessions) {
            Some(handle) => Frame::Session {
                role: self.role,
                status: status_at(self.sessions, handle),
            },
            None => Frame::Menu { selection: self.selection as i64, notice: self.notice },
        }
    }
}

/// Role and session stay in step across every key: a well-formed state is
/// followed by a well-formed state, as long as the record of sessions has
/// room for one more.
pub proof fn lemma_after_key_wf(state: AppView, key: Key)
    requires
        state.wf(),
        state.sessions.len() < usize::MAX,
    ensures
        state.after_key(key).0.wf(),
{
    if state.role == Role::Unselected {
        if key == Key::Confirm {
            let target = Role::of_index(Some(state.selection));
            if target != Role::Unselected {
                lemma_started(state.sessions, target);
            }
        }
    } else if key == Key::Back || key == Key::Quit {
        lemma_shut_live(state.sessions, live_handle(state.sessions).unwrap());
    }
}

/// Role and session stay in step across every report from the network.
pub proof fn lemma_after_event_wf(state: AppView, handle: Handle, event: NetEvent)
    requires
        state.wf(),
    ensures
        state.after_event(handle, event).0.wf(),
{
    if live_handle(state.sessions) == Some(handle) {
        lemma_notified_live(state.sessions, handle, event);
    }
}

/// Role and session stay in step as time passes.
pub proof fn lemma_after_tick_wf(state: AppView, millis: u64)
    requires
        state.wf(),
    ensures
        state.after_tick(millis).0.wf(),
{
    if live_handle(state.sessions).is_some() {
        lemma_elapsed_live(state.sessions, live_handle(state.sessions).unwrap(), millis);
    }
}

/// While the menu shows, no socket is open: every handle reads as closed.
pub proof fn lemma_menu_means_closed(state: AppView, handle: Handle)
    requires
        state.wf(),
        state.role == Role::Unselected,
    ensures
        status_at(state.sessions, handle).state == ConnState::Closed,
{
    if handle.id < state.sessions.len() && handle.id != state.sessions.len() - 1 {
        assert(!state.sessions[handle.id as int].is_live());
    }
}

/// While a role is active, exactly its own session is live.
pub proof fn lemma_role_owns_session(state: AppView)
    requires
        state.wf(),
        state.role.is_active(),
    ensures
        live_handle(state.sessions).is_some(),
        state.sessions.last().role == state.role,
        state.sessions.last().is_live(),
{
}

/// Server and client never follow each other directly: across any key the
/// role stays or the menu is on one side of the step, and across any report
/// and any passing of time the role stays or reverts to the menu.
pub proof fn lemma_roles_pass_through_menu(
    state: AppView,
    key: Key,
    handle: Handle,
    event: NetEvent,
    millis: u64,
)
    requires
        state.wf(),
    ensures
        state.after_key(key).0.role == state.role || state.role == Role::Unselected
            || state.after_key(key).0.role == Role::Unselected,
        state.after_event(handle, event).0.role == state.role || state.after_event(
            handle,
            event,
        ).0.role == Role::Unselected,
        state.after_tick(millis).0.role == state.role || state.after_tick(millis).0.role
            == Role::Unselected,
{
}

/// A command to close names a session that is closed by then, whichever
/// input led to the command.
pub proof fn lemma_close_means_closed(
    state: AppView,
    key: Key,
    handle: Handle,
    event: NetEvent,
    millis: u64,
)
    requires
        state.wf(),
    ensures
        state.after_key(key).1 matches Command::Close(closed) ==> status_at(
            state.after_key(key).0.sessions,
            closed,
        ).state == ConnState::Closed,
        state.after_event(handle, event).1 matches Command::Close(closed) ==> status_at(
            state.after_event(handle, event).0.sessions,
            closed,
        ).state == ConnState::Closed,
        state.after_tick(millis).1 matches Command::Close(closed) ==> status_at(
            state.after_tick(millis).0.sessions,
            closed,
        ).state == ConnState::Closed,
{
    if live_handle(state.sessions) == Some(handle) {
        lemma_notified_live(state.sessions, handle, event);
    } else if handle.id < state.sessions.len() {
        assert(!state.sessions[handle.id as int].is_live());
    }
    if live_handle(state.sessions).is_some() {
        lemma_elapsed_live(state.sessions, live_handle(state.sessions).unwrap(), millis);
    }
}

/// A pending connection does not outlast the timeout: once the time charged
/// to a connecting client reaches the timeout, the role has reverted to
/// `Unselected` and the error on display is `ConnectError(TimedOut)`.
pub proof fn lemma_connect_times_out(state: AppView, millis: u64)
    requires
        state.wf(),
        state.role == Role::Client,
        state.sessions.last().state == ConnState::Connecting,
        state.sessions.last().waited_ms + millis >= CONNECT_TIMEOUT_MS,
    ensures
        state.after_tick(millis).0.role == Role::Unselected,
        state.after_tick(millis).0.notice == Some(Error::ConnectError(ConnectFailure::TimedOut)),
        state.after_tick(millis).1 == Command::Close(live_handle(state.sessions).unwrap()),
{
}

/// Application state: the current role, the menu, and the sessions.
pub struct App {
    role: Role,
    selection: i64,
    manager: SessionManager,
    notice: Option<Error>,
    bind_address: String,
    remote_address: String,
}

impl View for App {
    type V = AppView;

    closed spec fn view(&self) -> AppView {
        AppView {
            role: self.role,
            selection: self.selection as int,
            sessions: self.manager@,
            notice: self.notice,
            bind_address: self.bind_address@,
            remote_address: self.remote_address@,
        }
    }
}

impl App {
    /// The invariant of the application: [`AppView::wf`] of its view.
    pub open spec fn wf(&self) -> bool {
        self@.wf()
    }

    /// The application at process start: no role, the first menu entry
    /// highlighted, no session. A server will listen on `bind_address`, a
    /// client will connect to `remote_address`.
    pub fn new(bind_address: String, remote_address: String) -> (app: App)
        ensures
            app@ == AppView::initial(bind_address@, remote_address@),
            app.wf(),
    {
        App {
            role: Role::Unselected,
            selection: 0,
            manager: SessionManager::new(),
            notice: None,
            bind_address,
            remote_address,
        }
    }

    /// The current role.
    pub fn role(&self) -> (role: Role)
        ensures
            role == self@.role,
    {
        self.role
    }

    /// The highlighted menu entry. The menu exists only while no role is
    /// selected.
    pub fn selection(&self) -> (index: Option<i64>)
        ensures
            index == (if self@.role == Role::Unselected {
                Some(self@.selection as i64)
            } else {
                None
            }),
    {
        match self.role {
            Role::Unselected => Some(self.selection),
            _ => None,
        }
    }

    /// The error on display, if any.
    pub fn notice(&self) -> (notice: Option<Error>)
        ensures
            notice == self@.notice,
    {
        self.notice
    }

    /// The handle of the live session, if any.
    pub fn session(&self) -> (handle: Option<Handle>)
        ensures
            handle == live_handle(self@.sessions),
    {
        self.manager.live()
    }

    /// The status of the session that `handle` names. Only reads.
    pub fn poll_status(&self, handle: Handle) -> (status: SessionStatus)
        ensures
            status == status_at(self@.sessions, handle),
    {
        self.manager.poll_status(handle)
    }

    /// The address a server listens on.
    pub fn bind_address(&self) -> (address: &str)
        ensures
            address@ == self@.bind_address,
    {
        self.bind_address.as_str()
    }

    /// The address a client connects to.
    pub fn remote_address(&self) -> (address: &str)
        ensures
            address@ == self@.remote_address,
    {
        self.remote_address.as_str()
    }

    /// What there is to draw: see [`AppView::frame`].
    pub fn frame(&self) -> (frame: Frame)
        ensures
            frame == self@.frame(),
    {
        match self.manager.live() {
            Some(handle) => Frame::Session {
                role: self.role,
                status: self.manager.poll_status(handle),
            },
            None => Frame::Menu { selection: self.selection, notice: self.notice },
        }
    }

    /// Requests `role`: see [`AppView::with_role`].
    pub fn set_role(&mut self, role: Role) -> (command: Command)
        requires
            old(self).wf(),
        ensures
            final(self).wf(),
            (final(self)@, command) == old(self)@.with_role(role),
    {
        match (self.role, role) {
            (Role::Unselected, Role::Server) => self.enter(Role::Server),
            (Role::Unselected, Role::Client) => self.enter(Role::Client),
            (Role::Server, Role::Unselected) => self.leave(),
            (Role::Client, Role::Unselected) => self.leave(),
            _ => Command::Nothing,
        }
    }

    /// Confirms the highlighted menu entry: see [`AppView::confirmed`].
    pub fn tui_choose_role(&mut self) -> (command: Command)
        requires
            old(self).wf(),
        ensures
            final(self).wf(),
            (final(self)@, command) == old(self)@.confirmed(),
    {
        match self.role {
            Role::Unselected => {
                match select_role(Some(self.selection)) {
                    Role::Unselected => {
                        self.notice = None;
                        Command::Terminate
                    },
                    target => self.enter(target),
                }
            },
            _ => Command::Nothing,
        }
    }

    /// Handles a key: see [`AppView::after_key`].
    pub fn on_key(&mut self, key: Key) -> (command: Command)
        requires
            old(self).wf(),
        ensures
            final(self).wf(),
            (final(self)@, command) == old(self)@.after_key(key),
    {
        match self.role {
            Role::Unselected => {
                match key {
                    Key::Up => {
                        self.selection = move_selection(
                            self.selection,
                            Direction::Up,
                            OPTION_COUNT,
                        );
                        self.notice = None;
                        Command::Nothing
                    },
                    Key::Down => {
                        self.selection = move_selection(
                            self.selection,
                            Direction::Down,
                            OPTION_COUNT,
                        );
                        self.notice = None;
                        Command::Nothing
                    },
                    Key::Confirm => self.tui_choose_role(),
                    Key::Back => {
                        self.notice = None;
                        Command::Nothing
                    },
                    Key::Quit => {
                        self.notice = None;
                        Command::Terminate
                    },
                }
            },
            _ => {
                match key {
                    Key::Back => self.leave(),
                    Key::Quit => self.leave(),
                    _ => Command::Nothing,
                }
            },
        }
    }

    /// Handles a report from the network: see [`AppView::after_event`].
    pub fn on_net(&mut self, handle: Handle, event: NetEvent) -> (command: Command)
        requires
            old(self).wf(),
        ensures
            final(self).wf(),
            (final(self)@, command) == old(self)@.after_event(handle, event),
    {
        match self.manager.live() {
            Some(live) => {
                if live.id == handle.id {
                    proof {
                        lemma_notified_live(self.manager@, handle, event);
                    }
                    self.manager.notify(handle, event);
                    self.settle(handle)
                } else {
                    Command::Close(handle)
                }
            },
            None => Command::Close(handle),
        }
    }

    /// Lets `millis` milliseconds pass: see [`AppView::after_tick`].
    pub fn on_tick(&mut self, millis: u64) -> (command: Command)
        requires
            old(self).wf(),
        ensures
            final(self).wf(),
            (final(self)@, command) == old(self)@.after_tick(millis),
    {
        match self.manager.live() {
            Some(handle) => {
                proof {
                    lemma_elapsed_live(self.manager@, handle, millis);
                }
                self.manager.elapse(handle, millis);
                self.settle(handle)
            },
            None => Command::Nothing,
        }
    }

    /// Handles a failure of the terminal: see
    /// [`AppView::after_input_failure`].
    pub fn on_input_failure(&mut self) -> (command: Command)
        requires
            old(self).wf(),
        ensures
            final(self).wf(),
            (final(self)@, command) == old(self)@.after_input_failure(),
    {
        self.leave();
        self.notice = Some(Error::InputError);
        Command::Terminate
    }

    fn settle(&mut self, handle: Handle) -> (command: Command)
        requires
            log_wf(old(self)@.sessions),
            0 <= old(self)@.selection < OPTION_COUNT,
            handle.id == old(self)@.sessions.len() - 1,
            old(self)@.sessions.last().role == old(self)@.role,
        ensures
            final(self).wf(),
            (final(self)@, command) == old(self)@.settled(old(self)@.sessions, handle),
    {
        let status = self.manager.poll_status(handle);
        match status.state {
            ConnState::Closed => {
                self.role = Role::Unselected;
                self.selection = 0;
                self.notice = status.failure;
                Command::Close(handle)
            },
            _ => Command::Nothing,
        }
    }

    fn enter(&mut self, role: Role) -> (command: Command)
        requires
            old(self).wf(),
            old(self)@.role == Role::Unselected,
            role.is_active(),
        ensures
            final(self).wf(),
            (final(self)@, command) == old(self)@.entered(role),
    {
        let started = match role {
            Role::Server => self.manager.start_server(self.bind_address.as_str()),
            _ => self.manager.start_client(self.remote_address.as_str()),
        };
        match started {
            Ok(handle) => {
                self.role = role;
                self.notice = None;
                match role {
                    Role::Server => Command::Listen(handle),
                    _ => Command::Connect(handle),
                }
            },
            Err(error) => {
                self.notice = Some(error);
                Command::Nothing
            },
        }
    }

    fn leave(&mut self) -> (command: Command)
        requires
            old(self).wf(),
        ensures
            final(self).wf(),
            (final(self)@, command) == old(self)@.left(),
    {
        match self.manager.live() {
            Some(handle) => {
                proof {
                    lemma_shut_live(self.manager@, handle);
                }
                self.manager.shutdown(handle);
                self.role = Role::Unselected;
                self.selection = 0;
                self.notice = None;
                Command::Close(handle)
            },
            None => Command::Nothing,
        }
    }
}

} // verus!
