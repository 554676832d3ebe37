//! The appearance mode: how a persisted flag decodes to it, what a switch
//! turns it into, and which external theme resource stands for it.

use crate::store::PersistedAppearance;
use vstd::prelude::*;

verus! {

/// The appearance of the desktop.
///
/// `Default` is reserved: no flag decodes to it and a switch leaves it alone.
#[derive(Copy, Clone, PartialEq, Eq, Debug, Structural)]
pub enum ThemeMode {
    Dark,
    Light,
    Default,
}

impl ThemeMode {
    /// The mode that a flag stands for: `Some(0)` is dark, every other value
    /// is light, and so is a flag that is missing or could not be read.
    pub open spec fn of_flag(flag: Option<u32>) -> ThemeMode {
        if flag == Some(0u32) {
            ThemeMode::Dark
        } else {
            ThemeMode::Light
        }
    }

    /// The mode that the store is in: the one its application flag stands for.
    pub open spec fn detected(store: PersistedAppearance) -> ThemeMode {
        Self::of_flag(store.apps_use_light_theme)
    }

    /// The mode that a switch leads to.
    pub open spec fn switched(self) -> ThemeMode {
        match self {
            ThemeMode::Dark => ThemeMode::Light,
            ThemeMode::Light => ThemeMode::Dark,
            ThemeMode::Default => ThemeMode::Default,
        }
    }

    /// The flag that persists a mode; the reserved mode has none.
    pub open spec fn flag_of(self) -> Option<u32> {
        match self {
            ThemeMode::Dark => Some(0u32),
            ThemeMode::Light => Some(1u32),
            ThemeMode::Default => None,
        }
    }

    /// The external theme resource to open on a switch away from `self`.
    ///
    /// `args` are the process parameters, the program name first, then the
    /// dark-theme resource, then the light-theme resource. The resource named
    /// is that of the mode being switched into. Unless both resources were
    /// given there is none, and the reserved mode never has one.
    pub open spec fn external_request(self, args: Seq<Seq<char>>) -> Option<Seq<char>> {
        if args.len() < 3 {
            None
        } else {
            match self {
                ThemeMode::Dark => Some(args[2]),
                ThemeMode::Light => Some(args[1]),
                ThemeMode::Default => None,
            }
        }
    }

    /// Decodes a flag as it was read; `None` is a flag that is missing or
    /// unreadable.
    pub fn from_flag(flag: Option<u32>) -> (mode: ThemeMode)
        ensures
            mode == Self::of_flag(flag),
    {
        match flag {
            Some(0) => ThemeMode::Dark,
            _ => ThemeMode::Light,
        }
    }

    /// Detects the current mode from the store. A flag that cannot be read
    /// counts as light; the store is left as it is.
    pub fn detect_mode(store: &PersistedAppearance) -> (mode: ThemeMode)
        ensures
            mode == Self::detected(*store),
            mode == ThemeMode::Dark <==> store.apps_use_light_theme == Some(0u32),
            mode == ThemeMode::Light <==> store.apps_use_light_theme != Some(0u32),
    {
        Self::from_flag(store.apps_use_light_theme)
    }

    /// Decides the mode that follows `self` when the user switches.
    pub fn apply_transition(self) -> (next: ThemeMode)
        ensures
            next == self.switched(),
    {
        match self {
            ThemeMode::Dark => ThemeMode::Light,
            ThemeMode::Light => ThemeMode::Dark,
            ThemeMode::Default => ThemeMode::Default,
        }
    }

    /// The flag to write so that detection finds `self` again.
    pub fn flag(self) -> (flag: Option<u32>)
        ensures
            flag == self.flag_of(),
    {
        match self {
            ThemeMode::Dark => Some(0),
            ThemeMode::Light => Some(1),
            ThemeMode::Default => None,
        }
    }

    /// Picks, from the process parameters, the external theme resource for
    /// the mode that a switch away from `self` leads to.
    pub fn resolve_external_request(self, args: &Vec<String>) -> (path: Option<String>)
        ensures
            path.deep_view() == self.external_request(args.deep_view()),
    {
        if args.len() > 2 {
            match self {
                ThemeMode::Dark => Some(args[2].clone()),
                ThemeMode::Light => Some(args[1].clone()),
                ThemeMode::Default => None,
            }
        } else {
            None
        }
    }
}

} // verus!
