//! The welcome panel: static guidance text, shown while nothing has been
//! discovered yet. It takes no input.

use crate::keys::Key;
use crate::tui::HandleKeydownResult;
use vstd::prelude::*;

verus! {

/// The welcome panel.
pub struct WelcomeBlock {}

impl WelcomeBlock {
    /// A fresh welcome panel.
    pub fn new() -> (r: Self) {
        WelcomeBlock {  }
    }

    /// The welcome panel never consumes a key.
    pub fn handle_input(&self, _key: &Key) -> (r: HandleKeydownResult)
        ensures
            r == HandleKeydownResult::Continue,
    {
        HandleKeydownResult::Continue
    }
}

} // verus!
