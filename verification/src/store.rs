//! The persisted appearance: the two named integer fields of the
//! configuration store.

use vstd::prelude::*;

verus! {

/// What the configuration store holds of the appearance.
///
/// Each field is `None` while the store has no readable integer under that
/// name: the path or the value is missing, or it holds something else.
#[derive(Copy, Clone, PartialEq, Eq, Debug, Structural)]
pub struct PersistedAppearance {
    /// Whether applications use the light theme. This is the flag that
    /// detection reads.
    pub apps_use_light_theme: Option<u32>,
    /// Whether the system surfaces use the light theme.
    pub system_uses_light_theme: Option<u32>,
}

impl PersistedAppearance {
    /// The store after `value` was written: both fields hold it.
    pub open spec fn written(self, value: u32) -> PersistedAppearance {
        PersistedAppearance {
            apps_use_light_theme: Some(value),
            system_uses_light_theme: Some(value),
        }
    }

    /// A store in which neither field can be read.
    pub fn absent() -> (store: PersistedAppearance)
        ensures
            store.apps_use_light_theme is None,
            store.system_uses_light_theme is None,
    {
        PersistedAppearance { apps_use_light_theme: None, system_uses_light_theme: None }
    }

    /// Writes `value` to both fields, creating whichever is missing.
    pub fn write_persisted_flag(&mut self, value: u32)
        ensures
            *final(self) == old(self).written(value),
    {
        self.apps_use_light_theme = Some(value);
        self.system_uses_light_theme = Some(value);
    }
}

} // verus!
