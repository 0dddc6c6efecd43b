//! The clipboard seam. Reading the selection and writing the clipboard
//! are OS calls and live outside the library; the library owns the
//! decision of when a capture counts as usable.

use vstd::prelude::*;
use crate::text::{is_blank, spec_is_blank};

verus! {

/// Handle the process holds for its clipboard access.
pub struct ClipboardManager;

impl ClipboardManager {
    pub fn new() -> (m: ClipboardManager) {
        ClipboardManager
    }

    /// Captured text counts as usable only when it holds some
    /// non-whitespace character: an empty or blank capture is an
    /// error, not an empty success.
    pub fn is_usable_capture(&self, text: &str) -> (r: bool)
        ensures
            r == !spec_is_blank(text@),
    {
        !is_blank(text)
    }
}

} // verus!
