//! Verified core of an FPS unlocker for a Unity game: the configuration
//! files that the injectors write and the injected module reads, the command
//! line of the console injector, the matching of running processes, the
//! polling decisions, the wide-string conversions handed to the Windows API,
//! and the decisions of the injection sequence.
//!
//! Everything that touches the operating system (process enumeration,
//! remote threads, function detours, windows and message boxes, files,
//! sleeping) lives in the application crate around this library.

pub mod text;
pub mod wide;
pub mod config;
pub mod process;
pub mod polling;
pub mod cli;
pub mod flow;
pub mod hooking;
