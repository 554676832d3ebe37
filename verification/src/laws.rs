//! What holds of detection, writing, switching and icon selection taken
//! together.

use crate::store::PersistedAppearance;
use crate::switch::SwitchActionView;
use crate::theme::ThemeMode;
use crate::tray::{Glyph, SystemTray};
use vstd::prelude::*;

verus! {

/// Detection is idempotent: two detections find the same mode as long as no
/// write was carried out between them, whatever else was.
pub proof fn detection_is_idempotent(
    store: PersistedAppearance,
    between: SwitchActionView,
    first: ThemeMode,
    second: ThemeMode,
)
    requires
        !(between is WriteFlag),
        first == ThemeMode::detected(store),
        second == ThemeMode::detected(store.applied(between)),
    ensures
        first == second,
{
}

/// Round trip: after `value` was written, detection finds the mode that
/// `value` stands for, dark after `0` and light after anything else,
/// whatever the store held before.
pub proof fn write_then_detect(store: PersistedAppearance, value: u32)
    ensures
        ThemeMode::detected(store.written(value)) == ThemeMode::of_flag(Some(value)),
        value == 0 ==> ThemeMode::detected(store.written(value)) == ThemeMode::Dark,
        value != 0 ==> ThemeMode::detected(store.written(value)) == ThemeMode::Light,
{
}

/// Toggle: while fewer than two external theme resources are given, a switch
/// leaves the store in the opposite mode. Out of dark mode it writes `1` to
/// both fields and leaves the store in light mode; out of light mode it
/// writes `0` to both fields and leaves the store in dark mode.
pub proof fn switch_toggles_the_flag(store: PersistedAppearance, args: Seq<Seq<char>>)
    requires
        args.len() < 3,
    ensures
        ({
            let before = ThemeMode::detected(store);
            let action = before.switch_action(args);
            let after = store.applied(action);
            &&& ThemeMode::detected(after) == before.switched()
            &&& before == ThemeMode::Dark ==> {
                &&& action == SwitchActionView::WriteFlag(1)
                &&& after.apps_use_light_theme == Some(1u32)
                &&& after.system_uses_light_theme == Some(1u32)
                &&& ThemeMode::detected(after) == ThemeMode::Light
            }
            &&& before == ThemeMode::Light ==> {
                &&& action == SwitchActionView::WriteFlag(0)
                &&& after.apps_use_light_theme == Some(0u32)
                &&& after.system_uses_light_theme == Some(0u32)
                &&& ThemeMode::detected(after) == ThemeMode::Dark
            }
        }),
{
}

/// Precedence of the external resource, out of dark mode: with both
/// resources given, a switch opens the second one, the light theme, and
/// leaves the store as it was.
pub proof fn switch_from_dark_launches_light_resource(
    store: PersistedAppearance,
    args: Seq<Seq<char>>,
)
    requires
        args.len() >= 3,
        ThemeMode::detected(store) == ThemeMode::Dark,
    ensures
        ThemeMode::detected(store).switch_action(args) == SwitchActionView::Launch(args[2]),
        store.applied(ThemeMode::detected(store).switch_action(args)) == store,
{
}

/// Precedence of the external resource, out of light mode: with both
/// resources given, a switch opens the first one, the dark theme, and leaves
/// the store as it was.
pub proof fn switch_from_light_launches_dark_resource(
    store: PersistedAppearance,
    args: Seq<Seq<char>>,
)
    requires
        args.len() >= 3,
        ThemeMode::detected(store) == ThemeMode::Light,
    ensures
        ThemeMode::detected(store).switch_action(args) == SwitchActionView::Launch(args[1]),
        store.applied(ThemeMode::detected(store).switch_action(args)) == store,
{
}

/// Fallback: while fewer than two external theme resources are given, no
/// switch opens one, whatever the mode. Out of a detected mode the switch
/// writes the flag of the opposite mode.
pub proof fn switch_falls_back_to_the_flag(
    store: PersistedAppearance,
    mode: ThemeMode,
    args: Seq<Seq<char>>,
)
    requires
        args.len() < 3,
    ensures
        !(mode.switch_action(args) is Launch),
        ThemeMode::detected(store).switch_action(args) is WriteFlag,
        Some(ThemeMode::detected(store).switch_action(args)->WriteFlag_0) == ThemeMode::detected(
            store,
        ).switched().flag_of(),
{
}

/// The glyph is the inverse of the detected mode: after a repaint the tray
/// shows the light glyph while the store is in dark mode, and the dark glyph
/// while it is in light mode. A repaint changes nothing else.
pub proof fn icon_is_inverse_of_mode(tray: SystemTray, store: PersistedAppearance)
    ensures
        ThemeMode::detected(store) == ThemeMode::Dark ==> tray.repainted(store).icon
            == Glyph::Light,
        ThemeMode::detected(store) == ThemeMode::Light ==> tray.repainted(store).icon
            == Glyph::Dark,
        tray.repainted(store).tip == tray.tip,
        tray.repainted(store).menu_at == tray.menu_at,
        tray.repainted(store).running == tray.running,
{
}

} // verus!
