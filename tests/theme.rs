use runcat::theme::{
    flag_value, icon_id, is_app_force_dark, is_effective_dark_mode, is_skin_follow_system,
    is_time_window_in_dark_mode, resolve, skin_mode_of, SkinMode, Theme, ThemeSignal,
};

#[test]
fn follow_system_with_dark_os_is_dark_regardless_of_force_flag() {
    assert_eq!(resolve(SkinMode::FollowSystem, true, false), Theme::Dark);
    assert_eq!(resolve(SkinMode::FollowSystem, true, true), Theme::Dark);
}

#[test]
fn follow_system_with_light_os_is_light() {
    assert_eq!(resolve(SkinMode::FollowSystem, false, true), Theme::Light);
    assert_eq!(resolve(SkinMode::FollowSystem, false, false), Theme::Light);
}

#[test]
fn forced_modes_follow_the_force_flag() {
    assert_eq!(resolve(SkinMode::ForceDark, false, true), Theme::Dark);
    assert_eq!(resolve(SkinMode::ForceLight, true, false), Theme::Light);
}

#[test]
fn effective_dark_mode() {
    assert!(is_effective_dark_mode(true, true, false));
    assert!(!is_effective_dark_mode(true, false, true));
    assert!(is_effective_dark_mode(false, false, true));
    assert!(!is_effective_dark_mode(false, true, false));
}

#[test]
fn signal_theme_matches_resolve() {
    let sig = ThemeSignal { skin: SkinMode::ForceDark, os_is_dark: false, forced_dark: true };
    assert_eq!(sig.theme(), Theme::Dark);
}

#[test]
fn stored_settings_defaults() {
    assert!(is_skin_follow_system(None));
    assert!(is_skin_follow_system(Some(1)));
    assert!(!is_skin_follow_system(Some(0)));
    assert!(!is_skin_follow_system(Some(2)));
    assert!(!is_app_force_dark(None));
    assert!(is_app_force_dark(Some(1)));
    assert!(!is_app_force_dark(Some(0)));
    assert!(is_time_window_in_dark_mode(Some(0)));
    assert!(!is_time_window_in_dark_mode(Some(1)));
    assert!(!is_time_window_in_dark_mode(None));
}

#[test]
fn flag_values() {
    assert_eq!(flag_value(true), 1);
    assert_eq!(flag_value(false), 0);
}

#[test]
fn skin_mode_from_flags() {
    assert_eq!(skin_mode_of(true, true), SkinMode::FollowSystem);
    assert_eq!(skin_mode_of(false, true), SkinMode::ForceDark);
    assert_eq!(skin_mode_of(false, false), SkinMode::ForceLight);
}

#[test]
fn icon_ids_per_family() {
    assert_eq!(icon_id(Theme::Light, 0), 101);
    assert_eq!(icon_id(Theme::Light, 4), 105);
    assert_eq!(icon_id(Theme::Dark, 0), 106);
    assert_eq!(icon_id(Theme::Dark, 4), 110);
}
