//! Settings that come with an application.

use vstd::prelude::*;

verus! {

/// Settings that come with an application, in the form of an override.
pub struct AppProfile {
    pub name: String,
    pub settings: String,
}

impl AppProfile {
    /// The name of the profile.
    pub fn name(&self) -> (r: &str)
        ensures
            r@ == self.name@,
    {
        self.name.as_str()
    }

    /// The settings, separated by semicolons.
    pub fn settings(&self) -> (r: &str)
        ensures
            r@ == self.settings@,
    {
        self.settings.as_str()
    }
}

} // verus!
