use fireworks::budget::{scale_burst_count, ParticleBudget, MAX_FLASHES, NATIVE_MAX_SPARKS};
use fireworks::capture::{FrameCaptureJob, ScreenshotJob};
use fireworks::config::{
    capture_mode, frame_capture_settings, native_mode_from, screenshot_frame_target,
    screenshot_path_from, setting_or,
};
use fireworks::controls::{toggled_display, Controls, DisplayMode, InputFrame};
use fireworks::scene::{burst_scene, finale_scene, scene_from_name, SceneKind};
use fireworks::shells::{
    kind_for_roll, launch_count, launch_count_from, palette_from_rolls, random_kind,
    random_palette, secondary_star_count, star_count_range, BurstKind, COLOR_COUNT,
};
use fireworks::terrain::{hash2_bits, ridge_indices, RIDGE_COLUMNS};
use fireworks::text::{eq_ignore_ascii_case, frame_file_name, parse_u32, str_equal};
use fireworks::view::{may_spawn_satellite, HillLighting, LightingPlan, ViewSync};

fn budget_with_sparks(n: u32) -> ParticleBudget {
    let mut b = ParticleBudget::new();
    for _ in 0..n {
        assert!(b.try_spawn_spark());
    }
    b
}

fn budget_with_trails(n: u32) -> ParticleBudget {
    let mut b = ParticleBudget::new();
    for _ in 0..n {
        assert!(b.try_spawn_trail());
    }
    b
}

#[test]
fn budget_starts_empty_with_native_caps() {
    let b = ParticleBudget::default();
    assert_eq!((b.sparks(), b.trails(), b.flashes()), (0, 0, 0));
    assert!(b.can_spawn_spark() && b.can_spawn_trail() && b.can_spawn_flash());
    assert_eq!(b.burst_scale_percent(), 100);
}

#[test]
fn flash_cap_refuses_spawn_and_changes_nothing() {
    let mut b = ParticleBudget::new();
    for _ in 0..MAX_FLASHES {
        assert!(b.try_spawn_flash());
    }
    assert!(!b.can_spawn_flash());
    assert!(!b.try_spawn_flash());
    assert_eq!(b.flashes(), MAX_FLASHES);
    b.release_flash();
    assert_eq!(b.flashes(), MAX_FLASHES - 1);
    assert!(b.can_spawn_flash());
}

#[test]
fn spark_cap_on_native_and_web() {
    let mut b = budget_with_sparks(NATIVE_MAX_SPARKS);
    assert!(!b.try_spawn_spark());
    assert_eq!(b.sparks(), 2800);
    let mut w = ParticleBudget::for_web();
    for _ in 0..1600 {
        assert!(w.try_spawn_spark());
    }
    assert!(!w.try_spawn_spark());
    b.release_spark();
    assert!(b.try_spawn_spark());
}

#[test]
fn release_saturates_at_zero() {
    let mut b = ParticleBudget::new();
    b.release_spark();
    b.release_trail();
    b.release_flash();
    assert_eq!((b.sparks(), b.trails(), b.flashes()), (0, 0, 0));
}

#[test]
fn spawn_then_release_restores_counts() {
    let mut b = budget_with_sparks(10);
    assert!(b.try_spawn_trail());
    assert!(b.try_spawn_spark());
    b.release_spark();
    b.release_trail();
    assert_eq!((b.sparks(), b.trails(), b.flashes()), (10, 0, 0));
}

#[test]
fn burst_scale_tiers_follow_load() {
    assert_eq!(budget_with_sparks(2520).burst_scale_percent(), 35);
    assert_eq!(budget_with_sparks(2519).burst_scale_percent(), 55);
    assert_eq!(budget_with_sparks(1960).burst_scale_percent(), 55);
    assert_eq!(budget_with_sparks(1959).burst_scale_percent(), 75);
    assert_eq!(budget_with_sparks(1400).burst_scale_percent(), 75);
    assert_eq!(budget_with_sparks(840).burst_scale_percent(), 90);
    assert_eq!(budget_with_sparks(839).burst_scale_percent(), 100);
    assert_eq!(budget_with_trails(1260).burst_scale_percent(), 35);
    assert_eq!(budget_with_trails(420).burst_scale_percent(), 90);
    assert_eq!(budget_with_trails(419).burst_scale_percent(), 100);
}

#[test]
fn burst_scale_matches_float_load_thresholds() {
    for sparks in [0u32, 500, 839, 840, 1399, 1400, 1959, 1960, 2519, 2520, 2800] {
        let b = budget_with_sparks(sparks);
        let load = sparks as f32 / 2800.0;
        let expected = if load >= 0.9 {
            35
        } else if load >= 0.7 {
            55
        } else if load >= 0.5 {
            75
        } else if load >= 0.3 {
            90
        } else {
            100
        };
        assert_eq!(b.burst_scale_percent(), expected, "sparks {sparks}");
    }
}

#[test]
fn scaled_burst_counts() {
    let idle = ParticleBudget::new();
    assert_eq!(scale_burst_count(200, &idle), 200);
    assert_eq!(scale_burst_count(0, &idle), 1);
    let busy = budget_with_sparks(2600);
    assert_eq!(scale_burst_count(200, &busy), 70);
    assert_eq!(scale_burst_count(2, &busy), 1);
    let half = budget_with_sparks(1500);
    assert_eq!(scale_burst_count(173, &half), 129);
}

#[test]
fn scaled_counts_match_float_scaling_for_burst_sizes() {
    for (sparks, scale) in [(0u32, 1.0f32), (900, 0.9), (1500, 0.75), (2000, 0.55), (2600, 0.35)] {
        let b = budget_with_sparks(sparks);
        for n in 0u32..400 {
            let float_count = ((n as f32) * scale).max(1.0) as u32;
            assert_eq!(scale_burst_count(n, &b), float_count, "n {n} scale {scale}");
        }
    }
}

#[test]
fn rolls_select_kinds() {
    let cases = [
        (0, BurstKind::Peony),
        (25, BurstKind::Peony),
        (26, BurstKind::Chrysanthemum),
        (47, BurstKind::Chrysanthemum),
        (48, BurstKind::Willow),
        (59, BurstKind::Willow),
        (60, BurstKind::Palm),
        (69, BurstKind::Palm),
        (70, BurstKind::Ring),
        (79, BurstKind::Ring),
        (80, BurstKind::Crossette),
        (89, BurstKind::Crossette),
        (90, BurstKind::Strobe),
        (99, BurstKind::Strobe),
    ];
    for (roll, kind) in cases {
        assert_eq!(kind_for_roll(roll), kind, "roll {roll}");
    }
}

#[test]
fn kind_weights_over_all_rolls() {
    let mut counts = [0u32; 7];
    for roll in 0..100 {
        let i = match kind_for_roll(roll) {
            BurstKind::Peony => 0,
            BurstKind::Chrysanthemum => 1,
            BurstKind::Willow => 2,
            BurstKind::Palm => 3,
            BurstKind::Ring => 4,
            BurstKind::Crossette => 5,
            BurstKind::Strobe => 6,
        };
        counts[i] += 1;
    }
    assert_eq!(counts, [26, 22, 12, 10, 10, 10, 10]);
}

#[test]
fn random_choices_stay_in_range() {
    let mut rng = rand::thread_rng();
    for _ in 0..500 {
        let _kind = random_kind(&mut rng);
        let (a, b) = random_palette(&mut rng);
        assert!(a < COLOR_COUNT && b < COLOR_COUNT);
        let n = launch_count(&mut rng);
        assert!((1..=3).contains(&n));
    }
}

#[test]
fn palettes_and_launch_counts() {
    assert_eq!(palette_from_rolls(3, true, 5), (3, 5));
    assert_eq!(palette_from_rolls(3, false, 5), (3, 3));
    assert_eq!(launch_count_from(false, 0), 1);
    assert_eq!(launch_count_from(true, 0), 2);
    assert_eq!(launch_count_from(true, 1), 3);
}

#[test]
fn star_counts_per_kind() {
    assert_eq!(star_count_range(BurstKind::Peony), (170, 250));
    assert_eq!(star_count_range(BurstKind::Palm), (9, 14));
    assert_eq!(star_count_range(BurstKind::Strobe), (90, 130));
    let idle = ParticleBudget::new();
    assert_eq!(secondary_star_count(BurstKind::Peony, 200, &idle), 66);
    assert_eq!(secondary_star_count(BurstKind::Palm, 12, &idle), 40);
    assert_eq!(secondary_star_count(BurstKind::Ring, 90, &idle), 0);
    let busy = budget_with_sparks(2600);
    assert_eq!(secondary_star_count(BurstKind::Palm, 12, &busy), 14);
    assert_eq!(secondary_star_count(BurstKind::Peony, 2, &busy), 1);
}

#[test]
fn parse_agrees_with_std() {
    for s in [
        "120", "+7", "", "+", "-1", "4294967295", "4294967296", "12a", " 1", "007", "0",
        "99999999999999999999", "+0010", "1_000", "٣",
    ] {
        assert_eq!(parse_u32(s), s.parse::<u32>().ok(), "input {s:?}");
    }
}

#[test]
fn frame_names_are_zero_padded() {
    assert_eq!(frame_file_name(7), "frame_0007.png");
    assert_eq!(frame_file_name(0), "frame_0000.png");
    assert_eq!(frame_file_name(12345), "frame_12345.png");
    for i in [1u32, 10, 99, 1000, 9999, u32::MAX] {
        assert_eq!(frame_file_name(i), format!("frame_{:04}.png", i));
    }
}

#[test]
fn frame_number_reads_back() {
    for i in [0u32, 3, 42, 1234, 98765] {
        let name = frame_file_name(i);
        let digits = &name["frame_".len()..name.len() - ".png".len()];
        assert_eq!(parse_u32(digits), Some(i));
    }
}

#[test]
fn text_comparisons() {
    assert!(str_equal("finale", "finale"));
    assert!(!str_equal("finale", "final"));
    for (a, b) in [("true", "TRUE"), ("True", "true"), ("tru", "true"), ("ÄB", "äb"), ("1", "1")] {
        assert_eq!(eq_ignore_ascii_case(a, b), a.eq_ignore_ascii_case(b), "{a} {b}");
    }
}

#[test]
fn native_mode_decisions() {
    assert!(native_mode_from(false, Some("1")));
    assert!(native_mode_from(false, Some("TRUE")));
    assert!(native_mode_from(false, Some("tRuE")));
    assert!(!native_mode_from(false, Some("yes")));
    assert!(!native_mode_from(false, Some("0")));
    assert!(!native_mode_from(false, None));
    assert!(!native_mode_from(true, Some("1")));
    assert!(capture_mode(false, true, false));
    assert!(!capture_mode(false, false, false));
}

#[test]
fn numeric_settings_fall_back() {
    assert_eq!(screenshot_frame_target(None), 120);
    assert_eq!(screenshot_frame_target(Some("30")), 30);
    assert_eq!(screenshot_frame_target(Some("soon")), 120);
    assert_eq!(frame_capture_settings(None, None), (180, 2));
    assert_eq!(frame_capture_settings(Some("60"), Some("0")), (60, 1));
    assert_eq!(frame_capture_settings(Some("x"), Some("5")), (180, 5));
    assert_eq!(setting_or(Some("-3"), 9), 9);
}

#[test]
fn screenshot_path_prefers_primary() {
    assert_eq!(
        screenshot_path_from(Some("a.png".to_string()), Some("b.png".to_string())),
        Some("a.png".to_string())
    );
    assert_eq!(screenshot_path_from(None, Some("b.png".to_string())), Some("b.png".to_string()));
    assert_eq!(screenshot_path_from(None, None), None);
}

#[test]
fn scenes_by_name() {
    assert_eq!(scene_from_name("night"), Some(SceneKind::Night));
    assert_eq!(scene_from_name("burst"), Some(SceneKind::Burst));
    assert_eq!(scene_from_name("finale"), Some(SceneKind::Finale));
    assert_eq!(scene_from_name("Finale"), None);
    assert_eq!(scene_from_name(""), None);
    let b = burst_scene();
    assert_eq!((b.x, b.y, b.kind, b.main_color, b.pistil_color), (60, 230, BurstKind::Chrysanthemum, 0, 2));
    let finale = finale_scene();
    assert_eq!(finale.len(), 7);
    assert_eq!(finale[3].kind, BurstKind::Palm);
    assert_eq!((finale[3].x, finale[3].y), (320, 250));
    assert!(finale.iter().all(|p| p.main_color == p.pistil_color));
}

#[test]
fn screenshot_fires_once_on_target_frame() {
    let mut job = ScreenshotJob::new(3);
    assert!(!job.tick());
    assert!(!job.tick());
    assert!(job.tick());
    assert!(!job.tick());
    assert!(!job.tick());
    assert_eq!(job.frame(), 5);
    let mut now = ScreenshotJob::new(0);
    assert!(now.tick());
    assert!(!now.tick());
}

#[test]
fn frame_sequence_saves_every_step() {
    let mut job = FrameCaptureJob::new(6, 2);
    let mut saved = Vec::new();
    let mut exited = false;
    for _ in 0..20 {
        if let Some(i) = job.advance() {
            saved.push(i);
        }
        // The save completes one frame later.
        if job.frame_saved(true) {
            exited = true;
            break;
        }
    }
    assert_eq!(saved, vec![1, 2, 3]);
    assert!(exited);
    assert!(job.is_finished());
}

#[test]
fn frame_sequence_waits_for_outstanding_save() {
    let mut job = FrameCaptureJob::new(4, 1);
    assert_eq!(job.advance(), Some(1));
    assert_eq!(job.advance(), None);
    assert!(!job.frame_saved(false));
    assert_eq!(job.advance(), None);
    assert!(!job.frame_saved(true));
    assert_eq!(job.advance(), Some(2));
}

#[test]
fn controls_toggle_and_respond() {
    let mut c = Controls::new();
    assert!(c.auto_launch && !c.fps_overlay);
    let press_a = InputFrame { escape: false, key_a: true, key_f: false, key_f11: false, space: false, left_click: false };
    let r = c.handle(press_a);
    assert!(!c.auto_launch);
    assert!(!r.exit && r.salvo_shells == 0 && !r.launch_at_cursor);
    c.handle(press_a);
    assert!(c.auto_launch);
    let busy = InputFrame { escape: true, key_a: false, key_f: true, key_f11: true, space: true, left_click: true };
    let r = c.handle(busy);
    assert!(c.fps_overlay && c.auto_launch);
    assert!(r.exit && r.toggle_fullscreen && r.launch_at_cursor);
    assert_eq!(r.salvo_shells, 8);
    assert_eq!(toggled_display(DisplayMode::Windowed), DisplayMode::Fullscreen);
    assert_eq!(toggled_display(DisplayMode::Fullscreen), DisplayMode::Windowed);
}

#[test]
fn view_rescales_once_per_size() {
    let mut v = ViewSync::new();
    assert!(!v.observe(0, 800));
    assert!(v.observe(1920, 1080));
    assert!(!v.observe(1920, 1080));
    assert!(v.observe(2560, 1440));
    assert_eq!(v.last_size, Some((2560, 1440)));
}

#[test]
fn hill_lighting_schedule() {
    let mut h = HillLighting::new();
    assert_eq!(h.plan(0), LightingPlan::Skip);
    assert_eq!(h.plan(3), LightingPlan::Relight { keep: 3 });
    // Frame 3 is odd: under heavy load it is skipped.
    assert_eq!(h.plan(20), LightingPlan::Skip);
    assert_eq!(h.plan(20), LightingPlan::Relight { keep: 12 });
    assert_eq!(h.plan(0), LightingPlan::Relight { keep: 0 });
    assert_eq!(h.plan(0), LightingPlan::Skip);
    assert!(!h.was_lit);
    assert_eq!(h.frame, 6);
    assert!(may_spawn_satellite(1));
    assert!(!may_spawn_satellite(2));
}

#[test]
fn lattice_hash_values() {
    assert_eq!(hash2_bits(0, 0), 0);
    assert_eq!(hash2_bits(1, 0), 29142);
    assert_eq!(hash2_bits(1, 2), 36249);
    assert_eq!(hash2_bits(-5, 7), 58032);
    assert_eq!(hash2_bits(123, -456), 27860);
}

#[test]
fn ridge_index_buffer() {
    assert_eq!(ridge_indices(1), Vec::<u32>::new());
    assert_eq!(ridge_indices(2), vec![0, 1, 3, 3, 1, 4, 1, 2, 4, 4, 2, 5]);
    let v = ridge_indices(RIDGE_COLUMNS);
    assert_eq!(v.len(), 12 * 559);
    assert!(v.iter().all(|&i| i < 3 * RIDGE_COLUMNS));
    assert_eq!(&v[12..24], &[3, 4, 6, 6, 4, 7, 4, 5, 7, 7, 5, 8]);
}

#[test]
fn random_draws_vary() {
    let mut rng = rand::thread_rng();
    let mut kinds = Vec::new();
    let mut colors = Vec::new();
    let mut counts = Vec::new();
    for _ in 0..2000 {
        let k = random_kind(&mut rng);
        if !kinds.contains(&k) {
            kinds.push(k);
        }
        let (a, b) = random_palette(&mut rng);
        if !colors.contains(&a) {
            colors.push(a);
        }
        if !colors.contains(&b) {
            colors.push(b);
        }
        let n = launch_count(&mut rng);
        if !counts.contains(&n) {
            counts.push(n);
        }
    }
    assert_eq!(kinds.len(), 7);
    assert_eq!(colors.len(), 8);
    assert_eq!(counts.len(), 3);
}
