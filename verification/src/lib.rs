//! The decisions of a monitor that reports selected text on a Windows
//! desktop.
//!
//! A mouse hook turns button messages into drags and runs of clicks
//! ([`hook`], [`hit_test`], [`debounce`]). A worker thread then looks for the
//! selected text ([`worker`], [`uia`]), if need be by way of the clipboard
//! ([`clipboard`]), and reports it ([`global`]). Every module decides over
//! plain values; the calls into the system stand outside of the library. Where
//! such calls and decisions take turns, a function takes what the system has
//! answered and returns what to ask next.

pub mod clipboard;
pub mod clipboard_laws;
pub mod debounce;
pub mod debounce_laws;
pub mod geometry;
pub mod geometry_laws;
pub mod global;
pub mod hit_test;
pub mod hit_test_laws;
pub mod hook;
pub mod hook_laws;
pub mod lifecycle;
pub mod lifecycle_laws;
pub mod report_laws;
pub mod text;
pub mod text_laws;
pub mod uia;
pub mod uia_laws;
pub mod worker;
pub mod worker_laws;
