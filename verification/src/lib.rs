//! Decisions and message formats of a code runner that executes programs
//! on behalf of a server it talks to over a websocket.
pub mod protocol;
pub mod text;
pub mod language;
pub mod events;
pub mod session;
pub mod watch;
pub mod legacy;
pub mod address;
