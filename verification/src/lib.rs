//! Backend core of the MediaPedia desktop catalogue: the tray icon's
//! visibility state machine, the forward-only schema migration runner and the
//! credential vault over the operating system's secure storage.

pub mod keychain;
pub mod migrate;
pub mod tray;
pub mod vault;
