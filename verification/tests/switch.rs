use dark_switch::{SwitchAction, ThemeMode};

fn arguments(items: &[&str]) -> Vec<String> {
    items.iter().map(|item| item.to_string()).collect()
}

#[test]
fn plan_from_dark_without_resources_writes_one() {
    let args = arguments(&["switch"]);
    assert_eq!(SwitchAction::plan(ThemeMode::Dark, &args), SwitchAction::WriteFlag(1));
}

#[test]
fn plan_from_light_without_resources_writes_zero() {
    let args = arguments(&["switch"]);
    assert_eq!(SwitchAction::plan(ThemeMode::Light, &args), SwitchAction::WriteFlag(0));
}

#[test]
fn plan_with_one_resource_still_writes() {
    let args = arguments(&["switch", "dark.theme"]);
    assert_eq!(SwitchAction::plan(ThemeMode::Dark, &args), SwitchAction::WriteFlag(1));
    assert_eq!(SwitchAction::plan(ThemeMode::Light, &args), SwitchAction::WriteFlag(0));
}

#[test]
fn plan_with_no_parameters_at_all_still_writes() {
    let args: Vec<String> = Vec::new();
    assert_eq!(SwitchAction::plan(ThemeMode::Dark, &args), SwitchAction::WriteFlag(1));
    assert_eq!(SwitchAction::plan(ThemeMode::Light, &args), SwitchAction::WriteFlag(0));
}

#[test]
fn plan_from_dark_with_resources_launches_the_second() {
    let args = arguments(&["switch", "C:\\themes\\dark.theme", "C:\\themes\\light.theme"]);
    assert_eq!(
        SwitchAction::plan(ThemeMode::Dark, &args),
        SwitchAction::Launch("C:\\themes\\light.theme".to_string())
    );
}

#[test]
fn plan_from_light_with_resources_launches_the_first() {
    let args = arguments(&["switch", "C:\\themes\\dark.theme", "C:\\themes\\light.theme"]);
    assert_eq!(
        SwitchAction::plan(ThemeMode::Light, &args),
        SwitchAction::Launch("C:\\themes\\dark.theme".to_string())
    );
}

#[test]
fn plan_from_the_reserved_mode_does_nothing() {
    let without = arguments(&["switch"]);
    let with = arguments(&["switch", "dark.theme", "light.theme"]);
    assert_eq!(SwitchAction::plan(ThemeMode::Default, &without), SwitchAction::Nothing);
    assert_eq!(SwitchAction::plan(ThemeMode::Default, &with), SwitchAction::Nothing);
}

#[test]
fn plan_never_launches_with_fewer_than_two_resources() {
    let cases = [arguments(&[]), arguments(&["switch"]), arguments(&["switch", "only.theme"])];
    for args in cases.iter() {
        for mode in [ThemeMode::Dark, ThemeMode::Light, ThemeMode::Default] {
            assert!(!matches!(SwitchAction::plan(mode, args), SwitchAction::Launch(_)));
        }
    }
}

#[test]
fn planned_write_is_the_flag_of_the_next_mode() {
    let args = arguments(&["switch"]);
    for mode in [ThemeMode::Dark, ThemeMode::Light] {
        let expected = mode.apply_transition().flag().unwrap();
        assert_eq!(SwitchAction::plan(mode, &args), SwitchAction::WriteFlag(expected));
    }
}

#[test]
fn only_a_failed_launch_is_fatal() {
    assert!(SwitchAction::Launch("light.theme".to_string()).failure_is_fatal());
    assert!(SwitchAction::Launch(String::new()).failure_is_fatal());
}

#[test]
fn a_failed_write_is_ignored() {
    assert!(!SwitchAction::WriteFlag(0).failure_is_fatal());
    assert!(!SwitchAction::WriteFlag(1).failure_is_fatal());
    assert!(!SwitchAction::Nothing.failure_is_fatal());
}
