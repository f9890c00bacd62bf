use runcat::presentation::{OverlayAction, Presentation};
use runcat::sampler::SamplerEvent;
use runcat::text::tooltip_buffer;
use runcat::theme::{SkinMode, ThemeSignal};

fn light() -> ThemeSignal {
    ThemeSignal { skin: SkinMode::ForceLight, os_is_dark: true, forced_dark: false }
}

fn dark_os() -> ThemeSignal {
    ThemeSignal { skin: SkinMode::FollowSystem, os_is_dark: true, forced_dark: false }
}

#[test]
fn initial_presentation() {
    let p = Presentation::new();
    assert_eq!(p.icon_id, 101);
    assert_eq!(p.utilization, None);
    assert!(!p.is_time_window_visible());
    assert_eq!(p.tooltip(), "RunCat Rust - CPU Monitor");
}

#[test]
fn icon_update_resolves_theme_at_delivery() {
    let mut p = Presentation::new();
    p.apply_icon_update(SamplerEvent { frame: 2, utilization: 456 }, dark_os());
    assert_eq!(p.icon_id, 108);
    assert_eq!(p.tooltip(), "CPU: 45.6%");
    p.apply_icon_update(SamplerEvent { frame: 2, utilization: 456 }, light());
    assert_eq!(p.icon_id, 103);
}

#[test]
fn tip_buffer_holds_tooltip() {
    let mut p = Presentation::new();
    p.apply_icon_update(SamplerEvent { frame: 0, utilization: 50 }, light());
    assert_eq!(p.tip_buffer(), tooltip_buffer("CPU: 5.0%"));
}

#[test]
fn toggle_twice_from_hidden_creates_once() {
    let mut p = Presentation::new();
    assert_eq!(p.toggle_overlay(), OverlayAction::Create);
    p.overlay_created(true);
    assert!(p.is_time_window_visible());
    assert_eq!(p.toggle_overlay(), OverlayAction::Hide);
    assert!(!p.is_time_window_visible());
    assert!(p.overlay_created);
    assert_eq!(p.toggle_overlay(), OverlayAction::Show);
    assert!(p.is_time_window_visible());
}

#[test]
fn failed_creation_leaves_overlay_absent() {
    let mut p = Presentation::new();
    assert_eq!(p.toggle_overlay(), OverlayAction::Create);
    p.overlay_created(false);
    assert!(!p.overlay_created);
    assert!(!p.is_time_window_visible());
    assert_eq!(p.toggle_overlay(), OverlayAction::Create);
}

#[test]
fn close_hides_only_an_existing_window() {
    let mut p = Presentation::new();
    assert!(!p.close_time_window());
    p.create_time_window();
    p.overlay_created(true);
    assert!(p.close_time_window());
    assert!(!p.is_time_window_visible());
    assert_eq!(p.create_time_window(), OverlayAction::Show);
}
