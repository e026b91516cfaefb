//! The settings tab. It keeps nothing between frames: what it shows lives
//! in the configuration of the application.

use vstd::prelude::*;

verus! {

/// The settings tab.
#[derive(Clone, Copy, PartialEq, Eq, Debug, Structural)]
pub struct SettingsTab {}

impl SettingsTab {
    pub fn new() -> (r: Self)
        ensures
            r == (SettingsTab {  }),
    {
        Self {  }
    }

    pub fn name(&self) -> (r: &'static str)
        ensures
            r@ == "Settings"@,
    {
        "Settings"
    }
}

} // verus!
