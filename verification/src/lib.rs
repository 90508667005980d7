//! Capture of what surrounds the insertion point in the focused application,
//! for dictation software that post-processes a transcript.
//!
//! The library decides; it does not talk to the operating system. Where a
//! decision needs an answer from outside (an accessibility query, the Screen
//! Recording prompt, a capture of the screen), it is a state machine that names
//! what to do next and goes on when it is handed what came of it.
//!
//! - [`context_capture`]: the captured context, the slot that holds it, and the
//!   capture at the end of a dictation.
//! - [`accessibility`]: reading the context out of the focused element, one
//!   query at a time; [`accessibility_laws`]: what that amounts to.
//! - [`screenshot`] and [`geometry`]: the screenshot that stands in for missing
//!   text.
//! - [`screen_permission`]: the rate-limited permission check and the prompt;
//!   [`preflight_laws`]: what holds of checks from any number of threads.
//! - [`text`], [`text_range`], [`utf16`], [`native_string`], [`base64`]: text
//!   and its encodings.
//! - [`laws`]: what the functions do, stated of calls to them.
//! - [`unsupported`]: platforms without an implementation.

pub mod accessibility;
pub mod accessibility_laws;
pub mod base64;
pub mod context_capture;
pub mod geometry;
pub mod laws;
pub mod native_string;
pub mod preflight_laws;
pub mod screen_permission;
pub mod screenshot;
pub mod text;
pub mod text_range;
pub mod unsupported;
pub mod utf16;
