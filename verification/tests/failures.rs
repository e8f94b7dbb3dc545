use netrole::{BindFailure, ConnectFailure, IoFailure, IoKind};

const KINDS: [IoKind; 13] = [
    IoKind::AddrInUse,
    IoKind::AddrNotAvailable,
    IoKind::InvalidInput,
    IoKind::PermissionDenied,
    IoKind::ConnectionRefused,
    IoKind::ConnectionReset,
    IoKind::ConnectionAborted,
    IoKind::NotConnected,
    IoKind::BrokenPipe,
    IoKind::TimedOut,
    IoKind::UnexpectedEof,
    IoKind::WriteZero,
    IoKind::Other,
];

#[test]
fn bind_fails_as_in_use_only_when_the_address_is_taken() {
    for &kind in KINDS.iter() {
        let expected = if kind == IoKind::AddrInUse {
            BindFailure::AddressInUse
        } else {
            BindFailure::InvalidAddress
        };
        assert_eq!(BindFailure::from_kind(kind), expected);
    }
}

#[test]
fn connect_failure_tells_refusal_and_timeout_apart() {
    assert_eq!(ConnectFailure::from_kind(IoKind::ConnectionRefused), ConnectFailure::Refused);
    assert_eq!(ConnectFailure::from_kind(IoKind::TimedOut), ConnectFailure::TimedOut);
    for &kind in KINDS.iter() {
        if kind != IoKind::ConnectionRefused && kind != IoKind::TimedOut {
            assert_eq!(ConnectFailure::from_kind(kind), ConnectFailure::Unreachable);
        }
    }
}

#[test]
fn io_failure_tells_reset_and_short_transfer_apart() {
    assert_eq!(IoFailure::from_kind(IoKind::ConnectionReset), IoFailure::PeerReset);
    assert_eq!(IoFailure::from_kind(IoKind::ConnectionAborted), IoFailure::PeerReset);
    assert_eq!(IoFailure::from_kind(IoKind::UnexpectedEof), IoFailure::ShortTransfer);
    assert_eq!(IoFailure::from_kind(IoKind::WriteZero), IoFailure::ShortTransfer);
    assert_eq!(IoFailure::from_kind(IoKind::BrokenPipe), IoFailure::BrokenPipe);
    assert_eq!(IoFailure::from_kind(IoKind::NotConnected), IoFailure::BrokenPipe);
    assert_eq!(IoFailure::from_kind(IoKind::TimedOut), IoFailure::BrokenPipe);
    assert_eq!(IoFailure::from_kind(IoKind::Other), IoFailure::BrokenPipe);
}
