//! Secure Passage core: session-key encryption, length-prefixed framing,
//! the chat and file-transfer protocols, and the state that the desktop
//! front end keeps about them.
pub mod bindings;
pub mod crypto;
pub mod encoding;
pub mod events;
pub mod frame;
pub mod protocol;
pub mod qr;
pub mod service;
pub mod session;
pub mod transfer;
pub mod ui;
pub mod vpn;
pub mod worker;

pub use crypto::{SessionKey, SessionKeyError};
