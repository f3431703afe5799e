//! Core of a desktop shell that hosts a single web page in managed windows.
//!
//! The library covers the parts of the shell that carry real invariants:
//! the window registry (one live window per label), the menu command
//! dispatcher, the configuration store with its repair-on-read policy and
//! its JSON codec, the single-flight update session, and the theme
//! broadcaster.  Everything that touches the operating system — window
//! creation, event emission, file and network I/O, process restart — is
//! described here as data (effect descriptors) and performed by the thin
//! unverified driver around the library.

pub mod codec;
pub mod effect;
pub mod conf;
pub mod dispatch;
pub mod json;
pub mod menu;
pub mod theme;
pub mod update;
pub mod util;
pub mod windows;
