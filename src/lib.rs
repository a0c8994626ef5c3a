//! Interactive-session core of a remote-desktop client: keyboard translation,
//! pointer-position coalescing, the shared framebuffer slot and the decisions
//! of the session event loop.

pub mod cli;
pub mod connection;
pub mod framebuffer;
pub mod keyboard;
pub mod mouse;
pub mod session;
pub mod vc;
