//! What one switch does: open an external theme resource, or write the
//! opposite flag.

use crate::store::PersistedAppearance;
use crate::theme::ThemeMode;
use vstd::prelude::*;

verus! {

/// The effect that a switch asks for.
#[derive(Debug, PartialEq, Eq)]
pub enum SwitchAction {
    /// Open this external theme resource and leave the store alone.
    Launch(String),
    /// Write this value to both fields of the store.
    WriteFlag(u32),
    /// Do nothing: the mode is the reserved one.
    Nothing,
}

/// A `SwitchAction` as a mathematical value.
pub enum SwitchActionView {
    Launch(Seq<char>),
    WriteFlag(u32),
    Nothing,
}

impl View for SwitchAction {
    type V = SwitchActionView;

    open spec fn view(&self) -> SwitchActionView {
        match self {
            SwitchAction::Launch(path) => SwitchActionView::Launch(path@),
            SwitchAction::WriteFlag(value) => SwitchActionView::WriteFlag(*value),
            SwitchAction::Nothing => SwitchActionView::Nothing,
        }
    }
}

impl ThemeMode {
    /// The effect of a switch away from `self`, given the process parameters.
    ///
    /// An external theme resource for the target mode takes the place of the
    /// write. Without one, the flag of the target mode is written.
    pub open spec fn switch_action(self, args: Seq<Seq<char>>) -> SwitchActionView {
        match self.external_request(args) {
            Some(path) => SwitchActionView::Launch(path),
            None => match self.switched().flag_of() {
                Some(value) => SwitchActionView::WriteFlag(value),
                None => SwitchActionView::Nothing,
            },
        }
    }
}

impl PersistedAppearance {
    /// The store after `action` was carried out: only a write changes it.
    pub open spec fn applied(self, action: SwitchActionView) -> PersistedAppearance {
        match action {
            SwitchActionView::WriteFlag(value) => self.written(value),
            _ => self,
        }
    }
}

impl SwitchAction {
    /// Decides what a switch does when the current mode is `mode`.
    pub fn plan(mode: ThemeMode, args: &Vec<String>) -> (action: SwitchAction)
        ensures
            action@ == mode.switch_action(args.deep_view()),
    {
        match mode.resolve_external_request(args) {
            Some(path) => SwitchAction::Launch(path),
            None => match mode.apply_transition().flag() {
                Some(value) => SwitchAction::WriteFlag(value),
                None => SwitchAction::Nothing,
            },
        }
    }

    /// Whether a failure to carry the action out must abort the switch.
    ///
    /// A resource that cannot be opened is fatal. A write that fails is
    /// ignored: the switch goes on to the repaint.
    pub fn failure_is_fatal(&self) -> (fatal: bool)
        ensures
            fatal <==> self@ is Launch,
    {
        match self {
            SwitchAction::Launch(_) => true,
            SwitchAction::WriteFlag(_) => false,
            SwitchAction::Nothing => false,
        }
    }
}

} // verus!
