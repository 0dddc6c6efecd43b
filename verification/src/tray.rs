//! The status panel's content: what the window's labels say in each
//! state, and the messages its three buttons send. Rendering itself is
//! the GUI toolkit's business, outside the library.

use vstd::prelude::*;
use vstd::string::*;

verus! {

/// A user action on one of the three buttons.
#[derive(Debug, Clone, PartialEq, Eq)]
pub enum TrayMessage {
    Enable,
    Disable,
    Quit,
}

/// The data the status panel renders.
#[derive(Debug, Clone, Copy, PartialEq, Eq)]
pub struct TrayView {
    pub enabled: bool,
    pub openai_connected: bool,
}

impl TrayView {
    pub fn new(enabled: bool, openai_connected: bool) -> (v: TrayView)
        ensures
            v.enabled == enabled,
            v.openai_connected == openai_connected,
    {
        TrayView { enabled, openai_connected }
    }

    /// The status line shown for the enabled flag.
    pub fn status_label(&self) -> (s: String)
        ensures
            s@ == (if self.enabled {
                "Status: Enabled"@
            } else {
                "Status: Disabled"@
            }),
    {
        if self.enabled {
            String::from_str("Status: Enabled")
        } else {
            String::from_str("Status: Disabled")
        }
    }

    /// The line shown for the rewriting service's availability.
    pub fn openai_label(&self) -> (s: String)
        ensures
            s@ == (if self.openai_connected {
                "OpenAI: Connected"@
            } else {
                "OpenAI: Not configured"@
            }),
    {
        if self.openai_connected {
            String::from_str("OpenAI: Connected")
        } else {
            String::from_str("OpenAI: Not configured")
        }
    }
}

} // verus!
