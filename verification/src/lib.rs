//! Manages a desktop wallpaper drawn from a remote photo service: the
//! cross-platform setter with its per-platform fallback chains, the
//! cancellable rotation scheduler, the desktop-reconciliation watcher,
//! the retention policy for downloaded files, and the settings codec.
//! The decisions are verified here; the surrounding process runs the
//! commands, the network calls and the file accesses they ask for.

pub mod codec;
pub mod daemon;
pub mod images;
pub mod platform;
pub mod retention;
pub mod service;
pub mod settings;
pub mod text;
pub mod watcher;
