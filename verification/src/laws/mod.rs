//! What the library's functions do, stated of the functions themselves.
//!
//! Each law speaks of calls: `call_ensures(f, args, result)` says that `f`,
//! called with `args`, may return `result`. What follows is stated over the
//! arguments and results alone, or relates several calls.
use vstd::prelude::*;
use crate::context_capture::CaretContext;

pub mod calls;
pub mod capture;
pub mod dictation;
pub mod encodings;
pub mod permission;
pub mod screen;
pub mod text;

verus! {

/// Both texts are missing, or both are there and hold the same characters.
pub open spec fn same_text(a: Option<String>, b: Option<String>) -> bool {
    match (a, b) {
        (Some(x), Some(y)) => x@ == y@,
        (None, None) => true,
        (_, _) => false,
    }
}

/// Both contexts hold the same.
pub open spec fn same_context(a: CaretContext, b: CaretContext) -> bool {
    &&& a.before@ == b.before@
    &&& a.after@ == b.after@
    &&& same_text(a.app_name, b.app_name)
    &&& same_text(a.screenshot_png_base64, b.screenshot_png_base64)
}

/// Both contexts are missing, or both are there and hold the same.
pub open spec fn same_optional_context(a: Option<CaretContext>, b: Option<CaretContext>) -> bool {
    match (a, b) {
        (Some(x), Some(y)) => same_context(x, y),
        (None, None) => true,
        (_, _) => false,
    }
}

} // verus!
