use netrole::{
    App, BindFailure, Command, ConnState, ConnectFailure, Error, Frame, Handle, IoFailure,
    IpAddress, Key, NetEvent, PeerAddr, Role, SessionStatus,
};

fn app() -> App {
    App::new(String::from("0.0.0.0:0"), String::from("127.0.0.1:1"))
}

fn far_end() -> PeerAddr {
    PeerAddr { ip: IpAddress::V4(0x0a00_0002), port: 51000 }
}

fn first() -> Handle {
    Handle { id: 0 }
}

#[test]
fn app_starts_in_menu() {
    let app = app();
    assert_eq!(app.role(), Role::Unselected);
    assert_eq!(app.selection(), Some(0));
    assert_eq!(app.notice(), None);
    assert_eq!(app.session(), None);
    assert_eq!(app.bind_address(), "0.0.0.0:0");
    assert_eq!(app.remote_address(), "127.0.0.1:1");
    assert_eq!(app.frame(), Frame::Menu { selection: 0, notice: None });
}

#[test]
fn down_then_confirm_becomes_client() {
    let mut app = app();
    assert_eq!(app.on_key(Key::Down), Command::Nothing);
    assert_eq!(app.selection(), Some(1));
    assert_eq!(app.on_key(Key::Confirm), Command::Connect(first()));
    assert_eq!(app.role(), Role::Client);
    assert_eq!(app.session(), Some(first()));
    assert_eq!(app.poll_status(first()).state, ConnState::Connecting);
    assert_eq!(app.selection(), None);
}

#[test]
fn confirm_on_first_entry_becomes_server() {
    let mut app = app();
    assert_eq!(app.on_key(Key::Confirm), Command::Listen(first()));
    assert_eq!(app.role(), Role::Server);
    assert_eq!(
        app.poll_status(first()),
        SessionStatus { state: ConnState::Listening, peer: None, failure: None }
    );
    assert_eq!(
        app.frame(),
        Frame::Session {
            role: Role::Server,
            status: SessionStatus { state: ConnState::Listening, peer: None, failure: None },
        }
    );
}

#[test]
fn confirm_on_quit_entry_terminates() {
    let mut app = app();
    app.on_key(Key::Down);
    app.on_key(Key::Down);
    assert_eq!(app.selection(), Some(2));
    assert_eq!(app.on_key(Key::Confirm), Command::Terminate);
    assert_eq!(app.role(), Role::Unselected);
    assert_eq!(app.session(), None);
}

#[test]
fn quit_key_in_menu_terminates() {
    let mut app = app();
    assert_eq!(app.on_key(Key::Quit), Command::Terminate);
    assert_eq!(app.role(), Role::Unselected);
}

#[test]
fn back_key_in_menu_does_nothing() {
    let mut app = app();
    app.on_key(Key::Down);
    assert_eq!(app.on_key(Key::Back), Command::Nothing);
    assert_eq!(app.selection(), Some(1));
    assert_eq!(app.role(), Role::Unselected);
}

#[test]
fn menu_selection_is_clamped() {
    let mut app = app();
    app.on_key(Key::Up);
    assert_eq!(app.selection(), Some(0));
    for _ in 0..5 {
        app.on_key(Key::Down);
    }
    assert_eq!(app.selection(), Some(2));
    app.on_key(Key::Up);
    assert_eq!(app.selection(), Some(1));
}

#[test]
fn refused_connection_reverts_to_menu_with_error() {
    let mut app = app();
    app.on_key(Key::Down);
    app.on_key(Key::Confirm);
    assert_eq!(
        app.on_net(first(), NetEvent::ConnectFailed(ConnectFailure::Refused)),
        Command::Close(first())
    );
    assert_eq!(app.role(), Role::Unselected);
    assert_eq!(app.notice(), Some(Error::ConnectError(ConnectFailure::Refused)));
    assert_eq!(app.session(), None);
    assert_eq!(
        app.poll_status(first()),
        SessionStatus {
            state: ConnState::Closed,
            peer: None,
            failure: Some(Error::ConnectError(ConnectFailure::Refused)),
        }
    );
    assert_eq!(
        app.frame(),
        Frame::Menu {
            selection: 0,
            notice: Some(Error::ConnectError(ConnectFailure::Refused)),
        }
    );
}

#[test]
fn back_while_connecting_cancels_attempt() {
    let mut app = app();
    app.on_key(Key::Down);
    app.on_key(Key::Confirm);
    assert_eq!(app.poll_status(first()).state, ConnState::Connecting);
    assert_eq!(app.on_key(Key::Back), Command::Close(first()));
    assert_eq!(app.role(), Role::Unselected);
    assert_eq!(app.session(), None);
    assert_eq!(
        app.poll_status(first()),
        SessionStatus { state: ConnState::Closed, peer: None, failure: None }
    );
    assert_eq!(app.notice(), None);
    assert_eq!(app.selection(), Some(0));
}

#[test]
fn late_connect_after_back_is_discarded() {
    let mut app = app();
    app.on_key(Key::Down);
    app.on_key(Key::Confirm);
    app.on_key(Key::Back);
    assert_eq!(app.on_net(first(), NetEvent::Connected(far_end())), Command::Close(first()));
    assert_eq!(app.role(), Role::Unselected);
    assert_eq!(app.poll_status(first()).state, ConnState::Closed);
    assert_eq!(app.poll_status(first()).peer, None);
}

#[test]
fn quit_key_in_role_returns_to_menu() {
    let mut app = app();
    app.on_key(Key::Confirm);
    assert_eq!(app.on_key(Key::Quit), Command::Close(first()));
    assert_eq!(app.role(), Role::Unselected);
    assert_eq!(app.poll_status(first()).state, ConnState::Closed);
}

#[test]
fn other_keys_in_role_do_nothing() {
    let mut app = app();
    app.on_key(Key::Confirm);
    assert_eq!(app.on_key(Key::Up), Command::Nothing);
    assert_eq!(app.on_key(Key::Down), Command::Nothing);
    assert_eq!(app.on_key(Key::Confirm), Command::Nothing);
    assert_eq!(app.role(), Role::Server);
    assert_eq!(app.poll_status(first()).state, ConnState::Listening);
}

#[test]
fn accepted_peer_is_shown() {
    let mut app = app();
    app.on_key(Key::Confirm);
    assert_eq!(app.on_net(first(), NetEvent::Accepted(far_end())), Command::Nothing);
    assert_eq!(app.role(), Role::Server);
    assert_eq!(
        app.frame(),
        Frame::Session {
            role: Role::Server,
            status: SessionStatus {
                state: ConnState::Established,
                peer: Some(far_end()),
                failure: None,
            },
        }
    );
}

#[test]
fn address_in_use_reverts_to_menu_with_error() {
    let mut app = app();
    app.on_key(Key::Confirm);
    assert_eq!(
        app.on_net(first(), NetEvent::BindFailed(BindFailure::AddressInUse)),
        Command::Close(first())
    );
    assert_eq!(app.role(), Role::Unselected);
    assert_eq!(app.notice(), Some(Error::BindError(BindFailure::AddressInUse)));
}

#[test]
fn broken_session_reverts_to_menu_with_error() {
    let mut app = app();
    app.on_key(Key::Confirm);
    app.on_net(first(), NetEvent::Accepted(far_end()));
    assert_eq!(
        app.on_net(first(), NetEvent::IoFailed(IoFailure::PeerReset)),
        Command::Close(first())
    );
    assert_eq!(app.role(), Role::Unselected);
    assert_eq!(app.notice(), Some(Error::SessionIoError(IoFailure::PeerReset)));
    assert_eq!(app.selection(), Some(0));
}

#[test]
fn any_key_dismisses_the_error() {
    let keys = [Key::Up, Key::Down, Key::Back, Key::Quit];
    for &key in keys.iter() {
        let mut app = app();
        app.on_key(Key::Confirm);
        app.on_net(first(), NetEvent::BindFailed(BindFailure::AddressInUse));
        assert!(app.notice().is_some());
        app.on_key(key);
        assert_eq!(app.notice(), None);
    }
}

#[test]
fn error_stays_until_a_key_arrives() {
    let mut app = app();
    app.on_key(Key::Confirm);
    app.on_net(first(), NetEvent::BindFailed(BindFailure::AddressInUse));
    app.on_net(first(), NetEvent::Accepted(far_end()));
    app.on_net(Handle { id: 9 }, NetEvent::IoFailed(IoFailure::BrokenPipe));
    assert_eq!(app.notice(), Some(Error::BindError(BindFailure::AddressInUse)));
}

#[test]
fn invalid_bind_address_keeps_menu_and_shows_error() {
    let mut app = App::new(String::from("nowhere"), String::from("127.0.0.1:1"));
    assert_eq!(app.on_key(Key::Confirm), Command::Nothing);
    assert_eq!(app.role(), Role::Unselected);
    assert_eq!(app.notice(), Some(Error::BindError(BindFailure::InvalidAddress)));
    assert_eq!(app.session(), None);
    assert_eq!(app.selection(), Some(0));
}

#[test]
fn invalid_remote_address_keeps_menu_and_shows_error() {
    let mut app = App::new(String::from("0.0.0.0:0"), String::from("127.0.0.1"));
    app.on_key(Key::Down);
    assert_eq!(app.on_key(Key::Confirm), Command::Nothing);
    assert_eq!(app.role(), Role::Unselected);
    assert_eq!(app.notice(), Some(Error::ConnectError(ConnectFailure::Unreachable)));
    assert_eq!(app.selection(), Some(1));
}

#[test]
fn second_session_gets_next_handle() {
    let mut app = app();
    app.on_key(Key::Confirm);
    app.on_key(Key::Back);
    app.on_key(Key::Down);
    assert_eq!(app.on_key(Key::Confirm), Command::Connect(Handle { id: 1 }));
    assert_eq!(app.poll_status(first()).state, ConnState::Closed);
    assert_eq!(app.poll_status(Handle { id: 1 }).state, ConnState::Connecting);
    assert_eq!(app.on_net(first(), NetEvent::Accepted(far_end())), Command::Close(first()));
    assert_eq!(app.role(), Role::Client);
    assert_eq!(app.poll_status(Handle { id: 1 }).state, ConnState::Connecting);
}

#[test]
fn report_that_is_not_due_changes_nothing() {
    let mut app = app();
    app.on_key(Key::Confirm);
    assert_eq!(app.on_net(first(), NetEvent::Connected(far_end())), Command::Nothing);
    assert_eq!(app.role(), Role::Server);
    assert_eq!(app.poll_status(first()).state, ConnState::Listening);
}

#[test]
fn set_role_enters_and_leaves() {
    let mut app = app();
    assert_eq!(app.set_role(Role::Client), Command::Connect(first()));
    assert_eq!(app.role(), Role::Client);
    assert_eq!(app.set_role(Role::Client), Command::Nothing);
    assert_eq!(app.set_role(Role::Unselected), Command::Close(first()));
    assert_eq!(app.role(), Role::Unselected);
    assert_eq!(app.poll_status(first()).state, ConnState::Closed);
    assert_eq!(app.set_role(Role::Unselected), Command::Nothing);
    assert_eq!(app.set_role(Role::Server), Command::Listen(Handle { id: 1 }));
    assert_eq!(app.role(), Role::Server);
}

#[test]
fn set_role_does_not_switch_roles_directly() {
    let mut app = app();
    app.set_role(Role::Server);
    assert_eq!(app.set_role(Role::Client), Command::Nothing);
    assert_eq!(app.role(), Role::Server);
    assert_eq!(app.session(), Some(first()));
    assert_eq!(app.poll_status(first()).state, ConnState::Listening);
}

#[test]
fn tui_choose_role_takes_highlighted_entry() {
    let mut app = app();
    app.on_key(Key::Down);
    assert_eq!(app.tui_choose_role(), Command::Connect(first()));
    assert_eq!(app.role(), Role::Client);
    assert_eq!(app.tui_choose_role(), Command::Nothing);
    assert_eq!(app.role(), Role::Client);
}

#[test]
fn input_failure_tears_down_and_terminates() {
    let mut app = app();
    app.on_key(Key::Confirm);
    app.on_net(first(), NetEvent::Accepted(far_end()));
    assert_eq!(app.on_input_failure(), Command::Terminate);
    assert_eq!(app.role(), Role::Unselected);
    assert_eq!(app.poll_status(first()).state, ConnState::Closed);
    assert_eq!(app.notice(), Some(Error::InputError));
}

#[test]
fn input_failure_in_menu_terminates() {
    let mut app = app();
    assert_eq!(app.on_input_failure(), Command::Terminate);
    assert_eq!(app.notice(), Some(Error::InputError));
}

#[test]
fn menu_never_shows_with_an_open_session() {
    let mut app = app();
    let keys = [
        Key::Confirm,
        Key::Down,
        Key::Back,
        Key::Down,
        Key::Confirm,
        Key::Up,
        Key::Quit,
        Key::Confirm,
        Key::Confirm,
        Key::Back,
    ];
    for (round, &key) in keys.iter().enumerate() {
        app.on_key(key);
        if round % 4 == 3 {
            app.on_net(Handle { id: round / 4 }, NetEvent::IoFailed(IoFailure::BrokenPipe));
        }
        let mut live = 0;
        for id in 0..12 {
            if app.poll_status(Handle { id }).state != ConnState::Closed {
                live += 1;
            }
        }
        if app.role() == Role::Unselected {
            assert_eq!(live, 0);
            assert_eq!(app.session(), None);
        } else {
            assert_eq!(live, 1);
            assert!(app.session().is_some());
        }
    }
}

#[test]
fn error_messages_read_as_status_lines() {
    assert_eq!(
        Error::BindError(BindFailure::InvalidAddress).message(),
        "bind failed: invalid address"
    );
    assert_eq!(Error::BindError(BindFailure::AddressInUse).message(), "bind failed: address in use");
    assert_eq!(
        Error::ConnectError(ConnectFailure::Refused).message(),
        "connect failed: connection refused"
    );
    assert_eq!(Error::ConnectError(ConnectFailure::TimedOut).message(), "connect failed: timed out");
    assert_eq!(
        Error::ConnectError(ConnectFailure::Unreachable).message(),
        "connect failed: host unreachable"
    );
    assert_eq!(
        Error::SessionIoError(IoFailure::PeerReset).message(),
        "session closed: reset by peer"
    );
    assert_eq!(Error::SessionIoError(IoFailure::BrokenPipe).message(), "session closed: broken pipe");
    assert_eq!(
        Error::SessionIoError(IoFailure::ShortTransfer).message(),
        "session closed: short read or write"
    );
    assert_eq!(Error::InputError.message(), "terminal input failed");
}

#[test]
fn only_input_error_is_fatal() {
    assert!(Error::InputError.fatal());
    assert!(!Error::BindError(BindFailure::AddressInUse).fatal());
    assert!(!Error::ConnectError(ConnectFailure::TimedOut).fatal());
    assert!(!Error::SessionIoError(IoFailure::BrokenPipe).fatal());
}
