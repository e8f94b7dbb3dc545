//! A terminal front end chooses whether the process acts as a listening
//! server or as an outbound client; this crate holds the rules behind that
//! choice and behind the single network session that follows from it.
//!
//! Nothing here touches a terminal or a socket. The surrounding program polls
//! keys, draws, binds, accepts and connects; it hands every key and every
//! network outcome to [`App`] and carries out the [`Command`] it gets back.

pub mod address;
pub mod app;
pub mod error;
pub mod menu;
pub mod role;
pub mod session;
pub mod widget;

pub use address::parse_port;
pub use app::{App, Command, Frame, Key, POLL_INTERVAL_MS};
pub use error::{BindFailure, ConnectFailure, Error, IoFailure, IoKind};
pub use menu::{move_selection, Direction, OPTION_COUNT};
pub use role::{select_role, Role};
pub use session::{
    ConnState, Handle, IpAddress, NetEvent, PeerAddr, Session, SessionManager, SessionStatus,
    CONNECT_TIMEOUT_MS,
};
pub use widget::show_selection;
