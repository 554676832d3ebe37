//! The tray indicator and the gestures it answers.
//!
//! The indicator shows one of two glyphs. The glyph stands for the mode that
//! a click would switch into, so it is the inverse of the current mode.

use crate::store::PersistedAppearance;
use crate::switch::SwitchAction;
use crate::theme::ThemeMode;
use vstd::prelude::*;

verus! {

/// One of the two glyphs that the indicator can show.
#[derive(Copy, Clone, PartialEq, Eq, Debug, Structural)]
pub enum Glyph {
    Dark,
    Light,
}

impl Glyph {
    /// The glyph shown while the desktop is in `mode`: the light one in dark
    /// mode, the dark one in light mode, the light one in the reserved mode.
    pub open spec fn inverse_of(mode: ThemeMode) -> Glyph {
        match mode {
            ThemeMode::Dark => Glyph::Light,
            ThemeMode::Light => Glyph::Dark,
            ThemeMode::Default => Glyph::Light,
        }
    }

    /// Selects the glyph to show while the desktop is in `mode`.
    pub fn for_mode(mode: ThemeMode) -> (glyph: Glyph)
        ensures
            glyph == Self::inverse_of(mode),
    {
        match mode {
            ThemeMode::Dark => Glyph::Light,
            ThemeMode::Light => Glyph::Dark,
            ThemeMode::Default => Glyph::Light,
        }
    }
}

/// The tooltip of the indicator.
pub const TOOLTIP: &'static str = "Dark Switch";

/// The tray indicator: the glyph it shows, its tooltip, where its context
/// menu was last opened, and whether its event loop is still running.
///
/// The tooltip is set when the tray is built and no gesture changes it.
#[derive(Copy, Clone, PartialEq, Eq, Debug)]
pub struct SystemTray {
    pub icon: Glyph,
    pub tip: &'static str,
    pub menu_at: Option<(i32, i32)>,
    pub running: bool,
}

impl SystemTray {
    /// The tray after a repaint against `store`: only the glyph changes.
    pub open spec fn repainted(self, store: PersistedAppearance) -> SystemTray {
        SystemTray { icon: Glyph::inverse_of(ThemeMode::detected(store)), ..self }
    }

    /// Builds the tray at startup: it shows the glyph for the mode of
    /// `store` and the tooltip, its menu is closed and its event loop runs.
    pub fn new(store: &PersistedAppearance) -> (tray: SystemTray)
        ensures
            tray.icon == Glyph::inverse_of(ThemeMode::detected(*store)),
            tray.tip == TOOLTIP,
            tray.menu_at is None,
            tray.running,
    {
        SystemTray {
            icon: Glyph::for_mode(ThemeMode::detect_mode(store)),
            tip: TOOLTIP,
            menu_at: None,
            running: true,
        }
    }

    /// Detects the mode of `store` and selects the glyph for it.
    pub fn load_icon(&self, store: &PersistedAppearance) -> (glyph: Glyph)
        ensures
            glyph == Glyph::inverse_of(ThemeMode::detected(*store)),
            ThemeMode::detected(*store) == ThemeMode::Dark ==> glyph == Glyph::Light,
            ThemeMode::detected(*store) == ThemeMode::Light ==> glyph == Glyph::Dark,
    {
        Glyph::for_mode(ThemeMode::detect_mode(store))
    }

    /// Repaints: shows the glyph for the mode of `store`.
    pub fn update_tray_icon(&mut self, store: &PersistedAppearance)
        ensures
            *final(self) == old(self).repainted(*store),
    {
        self.icon = self.load_icon(store);
    }

    /// Answers the primary click: switches once, then repaints.
    ///
    /// The mode is detected from `store`. If the process parameters `args`
    /// name an external theme resource for the target mode, that resource is
    /// the action and `store` is not touched. Otherwise the flag of the
    /// target mode is written to both fields of `store`. The glyph then
    /// follows the mode detected afresh. The action is returned for the
    /// caller to carry out on the desktop.
    pub fn switch_mode(&mut self, store: &mut PersistedAppearance, args: &Vec<String>) -> (action:
        SwitchAction)
        ensures
            action@ == ThemeMode::detected(*old(store)).switch_action(args.deep_view()),
            *final(store) == old(store).applied(action@),
            *final(self) == old(self).repainted(*final(store)),
    {
        let mode = ThemeMode::detect_mode(store);
        let action = SwitchAction::plan(mode, args);
        match &action {
            SwitchAction::WriteFlag(value) => {
                store.write_persisted_flag(*value);
            },
            SwitchAction::Launch(_) => {},
            SwitchAction::Nothing => {},
        }
        self.update_tray_icon(store);
        action
    }

    /// Answers the secondary click: repaints, then opens the context menu at
    /// the cursor position `(x, y)`.
    pub fn show_menu(&mut self, store: &PersistedAppearance, x: i32, y: i32)
        ensures
            *final(self) == (SystemTray { menu_at: Some((x, y)), ..old(self).repainted(*store) }),
    {
        self.update_tray_icon(store);
        self.menu_at = Some((x, y));
    }

    /// Answers the menu's exit entry: stops the event loop. Nothing is
    /// repainted.
    pub fn exit(&mut self)
        ensures
            *final(self) == (SystemTray { running: false, ..*old(self) }),
    {
        self.running = false;
    }
}

} // verus!
