//! Platforms without an implementation: the feature degrades to "no context"
//! and "no permission" rather than failing the dictation.
use vstd::prelude::*;
use crate::context_capture::CaretContext;

verus! {

/// There is no caret context to be had.
pub fn capture(_want_text: bool, _want_screenshot: bool) -> (context: Option<CaretContext>)
    ensures
        context is None,
{
    None
}

/// There is nothing to ask for.
pub fn preflight() -> (granted: bool)
    ensures
        !granted,
{
    false
}

/// There is no prompt to raise.
pub fn prompt() -> (outcome: Result<bool, String>)
    ensures
        outcome matches Ok(granted) && !granted,
{
    Ok(false)
}

} // verus!
