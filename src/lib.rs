//! A portfolio served as a full-screen terminal UI to remote shell clients.
//!
//! Each connected client has its own navigation state (section, scroll
//! position, intro animation), changed and drawn together through the
//! session registry. The state machine, the input byte table, the frame
//! buffer that keeps frames whole, and the sizes derived from the content
//! tables are verified here; the transport, the terminal widgets and the
//! async runtime are driven from outside.

pub mod app;
pub mod bridge;
pub mod content;
pub mod input;
pub mod screen;
pub mod session;
