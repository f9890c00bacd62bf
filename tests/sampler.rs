use runcat::resources::FRAME_COUNT;
use runcat::sampler::{Sampler, SamplerEvent};

#[test]
fn sampler_starts_at_first_frame() {
    assert_eq!(Sampler::new().frame, 0);
}

#[test]
fn tick_advances_frame_and_reports_clamped_load() {
    let mut s = Sampler::new();
    let t = s.tick(250);
    assert_eq!(t.event, SamplerEvent { frame: 1, utilization: 250 });
    assert_eq!(t.sleep_ms, 100);
    assert_eq!(s.frame, 1);
    let t = s.tick(-30);
    assert_eq!(t.event, SamplerEvent { frame: 2, utilization: 0 });
    assert_eq!(t.sleep_ms, 200);
    let t = s.tick(2000);
    assert_eq!(t.event, SamplerEvent { frame: 3, utilization: 1000 });
    assert_eq!(t.sleep_ms, 50);
}

#[test]
fn sampler_frame_cycles_with_period_frame_count() {
    let mut s = Sampler { frame: 3 };
    for _ in 0..FRAME_COUNT {
        s.tick(100);
    }
    assert_eq!(s.frame, 3);
}

#[test]
fn event_validity() {
    assert!(SamplerEvent { frame: 4, utilization: 1000 }.is_valid());
    assert!(!SamplerEvent { frame: 5, utilization: 0 }.is_valid());
    assert!(!SamplerEvent { frame: 0, utilization: 1001 }.is_valid());
}
