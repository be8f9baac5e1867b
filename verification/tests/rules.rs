use phira_vrenxz::config::{Config, PERF_CUSTOM, PERF_FULL, PERF_LIGHT, PERF_MEDIUM, PERF_OFF, PERF_ULTRA};
use phira_vrenxz::mods::{
    Mods, AUTOPLAY, FADE_IN, FADE_OUT, FLIP_X, FLIP_Y, FX_GLITCH, FX_SCANLINE, FX_TV, INSTANT_DEATH_AP,
    INSTANT_DEATH_FC, NIGHTCORE, UNRATED,
};
use phira_vrenxz::play_rules::{
    finish_action, full_combo, instant_death, interactive, line_tint, load_decisions, metrics_in_parallel, note_metric,
    next_phase, record_eligible, space_action, sum_metrics, FinishAction, GameMode, JudgeCounts, LineTint,
    PhaseEvent, PlayState, SpaceAction,
};
use phira_vrenxz::record::{accuracy_greater, merge_into, SimpleRecord};

fn m(bits: i32) -> Mods {
    Mods::from_bits_retain(bits)
}

#[test]
fn toggle_mod_sets_and_clears() {
    let mut mods = Mods::empty();
    mods.toggle_mod(m(AUTOPLAY));
    assert_eq!(mods.bits(), AUTOPLAY);
    mods.toggle_mod(m(AUTOPLAY));
    assert_eq!(mods.bits(), 0);
}

#[test]
fn toggle_mod_clears_fade_conflict() {
    let mut mods = m(FADE_OUT | NIGHTCORE);
    mods.toggle_mod(m(FADE_IN));
    assert_eq!(mods.bits(), FADE_IN | NIGHTCORE);
    mods.toggle_mod(m(FADE_OUT));
    assert_eq!(mods.bits(), FADE_OUT | NIGHTCORE);
}

#[test]
fn toggle_mod_clears_instant_death_conflict() {
    let mut mods = m(INSTANT_DEATH_AP);
    mods.toggle_mod(m(INSTANT_DEATH_FC));
    assert_eq!(mods.bits(), INSTANT_DEATH_FC);
}

#[test]
fn toggle_mod_screen_effects_are_exclusive() {
    let mut mods = m(FX_SCANLINE);
    mods.toggle_mod(m(FX_TV));
    assert_eq!(mods.bits(), FX_TV);
    mods.toggle_mod(m(FX_GLITCH));
    assert_eq!(mods.bits(), FX_GLITCH);
    mods.toggle_mod(m(FX_SCANLINE));
    assert_eq!(mods.bits(), FX_SCANLINE);
}

#[test]
fn law_toggle_keeps_exclusive_example() {
    // No two exclusive modifiers ever end up set together.
    let mut mods = m(FADE_IN | INSTANT_DEATH_FC | FX_TV);
    for flag in [FADE_OUT, INSTANT_DEATH_AP, FX_GLITCH, FADE_IN, FX_SCANLINE] {
        mods.toggle_mod(m(flag));
        let b = mods.bits();
        assert!(!(b & FADE_IN != 0 && b & FADE_OUT != 0));
        assert!(!(b & INSTANT_DEATH_AP != 0 && b & INSTANT_DEATH_FC != 0));
        let fx = [FX_TV, FX_SCANLINE, FX_GLITCH].iter().filter(|f| b & **f != 0).count();
        assert!(fx <= 1);
    }
}

#[test]
fn law_toggle_twice_restores_example() {
    let start = m(AUTOPLAY | FLIP_X);
    let mut mods = start;
    mods.toggle_mod(m(FLIP_Y));
    mods.toggle_mod(m(FLIP_Y));
    assert_eq!(mods, start);
    mods.toggle_mod(m(FLIP_X));
    mods.toggle_mod(m(FLIP_X));
    assert_eq!(mods, start);
}

#[test]
fn conflicts_lists() {
    assert_eq!(Mods::conflicts(m(FADE_IN)), vec![m(FADE_OUT)]);
    assert_eq!(Mods::conflicts(m(FX_TV)), vec![m(FX_SCANLINE), m(FX_GLITCH)]);
    assert_eq!(Mods::conflicts(m(FX_SCANLINE)), vec![m(FX_TV), m(FX_GLITCH)]);
    assert!(Mods::conflicts(m(AUTOPLAY)).is_empty());
}

#[test]
fn mods_set_operations() {
    let mut mods = Mods::empty();
    mods.insert(m(FLIP_X | FLIP_Y));
    assert!(mods.contains(m(FLIP_X)));
    assert!(mods.intersects(m(FLIP_Y | AUTOPLAY)));
    assert!(!mods.contains(m(FLIP_Y | AUTOPLAY)));
    mods.remove(m(FLIP_X));
    assert_eq!(mods.bits(), FLIP_Y);
    mods.set(m(AUTOPLAY), true);
    assert_eq!(mods.bits(), FLIP_Y | AUTOPLAY);
    mods.set(m(FLIP_Y), false);
    assert_eq!(mods.bits(), AUTOPLAY);
}

#[test]
fn config_defaults() {
    let c = Config::default();
    assert_eq!(c.performance, PERF_FULL);
    assert_eq!(c.custom_combo_text, "COMBO");
    assert_eq!(c.custom_watermark(), "Phira-Vrenxz");
    assert_eq!(c.player_name, "Mivik");
    assert_eq!(c.mp_address, "mp2.phira.cn:12345");
    assert_eq!(c.custom_crash_code, 888);
    assert_eq!(c.perf_custom_lowres, 100);
    assert_eq!(c.perf_custom_fx_density, 20);
    assert!(c.interactive && c.particle && c.vsync && c.aggressive);
    assert!(!c.autoplay());
    assert_eq!(c.mods.bits(), 0);
}

#[test]
fn config_init_applies_legacy_autoplay() {
    let mut c = Config::default();
    c.autoplay = Some(true);
    c.init();
    assert!(c.autoplay());
    c.autoplay = Some(false);
    c.init();
    assert!(!c.autoplay());
    c.mods = m(FLIP_X);
    c.autoplay = None;
    c.init();
    assert_eq!(c.mods.bits(), FLIP_X);
    assert!(c.flip_x() && !c.flip_y());
}

#[test]
fn performance_profiles() {
    let mut c = Config::default();
    c.performance = PERF_OFF;
    assert!(!c.metrics_parallel());
    assert_eq!(c.metrics_parallel_min(), usize::MAX);
    assert!(!c.eff_cull());
    assert_eq!(c.eff_lowres_threshold(), usize::MAX);
    assert_eq!(c.eff_fx_density_threshold(), 20);

    c.performance = PERF_LIGHT;
    assert!(!c.metrics_parallel());
    assert!(c.eff_cull());
    assert_eq!(c.eff_lowres_threshold(), 100);

    c.performance = PERF_MEDIUM;
    assert!(c.metrics_parallel());
    assert_eq!(c.metrics_parallel_min(), 8192);

    c.performance = PERF_FULL;
    assert_eq!(c.metrics_parallel_min(), 4096);
    assert_eq!(c.eff_fx_density_threshold(), 500);
    assert!(!c.eff_fx_reduce());

    c.performance = PERF_ULTRA;
    assert_eq!(c.eff_lowres_threshold(), 60);
    assert_eq!(c.eff_fx_density_threshold(), 12);
    assert!(c.eff_fx_reduce() && c.eff_vsync_off() && c.eff_particles());

    c.performance = 9;
    assert_eq!(c.perf_profile(), PERF_CUSTOM);
    assert!(c.perf_is_custom());
    c.perf_custom_metrics = false;
    c.perf_custom_lowres = 33;
    c.perf_custom_fx_density = 44;
    c.aggressive = false;
    c.particle = false;
    assert!(!c.metrics_parallel());
    assert_eq!(c.metrics_parallel_min(), usize::MAX);
    assert_eq!(c.eff_lowres_threshold(), 33);
    assert_eq!(c.eff_fx_density_threshold(), 44);
    assert!(!c.eff_cull());
    assert!(!c.eff_particles());
}

#[test]
fn law_parallel_iff_threshold_finite_example() {
    let mut c = Config::default();
    for p in 0..=7u8 {
        for custom in [false, true] {
            c.performance = p;
            c.perf_custom_metrics = custom;
            assert_eq!(c.metrics_parallel(), c.metrics_parallel_min() != usize::MAX);
        }
    }
}

fn counts(perfect: u32, good: u32, bad: u32, miss: u32) -> JudgeCounts {
    JudgeCounts { perfect, good, bad, miss }
}

#[test]
fn judge_line_tint() {
    assert_eq!(line_tint(counts(10, 0, 0, 0), true), LineTint::Perfect);
    assert_eq!(line_tint(counts(10, 2, 0, 0), true), LineTint::Good);
    assert_eq!(line_tint(counts(10, 0, 1, 0), true), LineTint::Plain);
    assert_eq!(line_tint(counts(10, 0, 0, 0), false), LineTint::Plain);
}

#[test]
fn instant_death_rules() {
    let ap = m(INSTANT_DEATH_AP);
    let fc = m(INSTANT_DEATH_FC);
    assert!(instant_death(false, false, true, ap, counts(3, 1, 0, 0)));
    assert!(!instant_death(false, false, true, fc, counts(3, 1, 0, 0)));
    assert!(instant_death(false, false, true, fc, counts(3, 0, 0, 1)));
    assert!(!instant_death(true, false, true, ap, counts(3, 1, 0, 0)));
    assert!(!instant_death(false, true, true, ap, counts(3, 1, 0, 0)));
    assert!(!instant_death(false, false, false, ap, counts(3, 1, 0, 0)));
    assert!(!instant_death(false, false, true, Mods::empty(), counts(0, 0, 5, 5)));
}

#[test]
fn record_and_combo_rules() {
    assert!(record_eligible(false, m(FLIP_X), true));
    assert!(!record_eligible(false, m(AUTOPLAY), true));
    assert!(!record_eligible(false, m(UNRATED), true));
    assert!(!record_eligible(true, Mods::empty(), true));
    assert!(!record_eligible(false, Mods::empty(), false));
    assert!(full_combo(120, 120));
    assert!(!full_combo(119, 120));
}

#[test]
fn finish_actions() {
    assert_eq!(finish_action(true, GameMode::Normal), FinishAction::Exit);
    assert_eq!(finish_action(false, GameMode::Normal), FinishAction::ShowResult);
    assert_eq!(finish_action(false, GameMode::View), FinishAction::ShowResult);
    assert_eq!(finish_action(false, GameMode::NoRetry), FinishAction::ShowResult);
    assert_eq!(finish_action(false, GameMode::TweakOffset), FinishAction::ReturnNoOffset);
    assert_eq!(finish_action(false, GameMode::Exercise), FinishAction::Stay);
}

#[test]
fn load_decision_thresholds() {
    let mut c = Config::default();
    c.performance = PERF_ULTRA;
    assert_eq!(load_decisions(&c, 60, 12), (true, false));
    assert_eq!(load_decisions(&c, 59, 13), (false, true));
    c.performance = PERF_OFF;
    assert_eq!(load_decisions(&c, 100000, 21), (false, true));
    assert!(interactive(true, true));
    assert!(!interactive(true, false));
}

fn rec(score: i32, acc: f32, fc: bool) -> SimpleRecord {
    SimpleRecord { score, accuracy_bits: acc.to_bits(), full_combo: fc }
}

#[test]
fn record_update_keeps_best() {
    let mut r = rec(900000, 0.95, false);
    assert!(r.update(&rec(950000, 0.9, false)));
    assert_eq!(r, rec(950000, 0.95, false));
    assert!(!r.update(&rec(100, 0.5, false)));
    assert!(r.update(&rec(0, 0.0, true)));
    assert_eq!(r, rec(950000, 0.95, true));
}

#[test]
fn merge_into_slot() {
    let mut slot = None;
    assert!(merge_into(&mut slot, &rec(5, 0.5, false)));
    assert_eq!(slot, Some(rec(5, 0.5, false)));
    assert!(!merge_into(&mut slot, &rec(4, 0.25, false)));
    assert!(merge_into(&mut slot, &rec(4, 0.75, false)));
    assert_eq!(slot, Some(rec(5, 0.75, false)));
}

#[test]
fn law_merge_monotone_idempotent_commutative_example() {
    let a = rec(10, 0.5, false);
    let b = rec(20, 0.25, true);
    let c = rec(15, 0.75, false);
    let mut ab = a;
    ab.update(&b);
    assert!(ab.score >= a.score && ab.score >= b.score);
    let mut abb = ab;
    assert!(!abb.update(&b));
    let mut abc = ab;
    abc.update(&c);
    let mut acb = a;
    acb.update(&c);
    acb.update(&b);
    assert_eq!(abc, acb);
}

#[test]
fn parallel_statistics_decision() {
    let mut c = Config::default();
    c.performance = PERF_FULL;
    assert!(metrics_in_parallel(&c, 4, 4097));
    assert!(!metrics_in_parallel(&c, 4, 4096));
    assert!(!metrics_in_parallel(&c, 1, 100000));
    c.performance = PERF_LIGHT;
    assert!(!metrics_in_parallel(&c, 8, 100000));
    c.performance = PERF_MEDIUM;
    assert!(!metrics_in_parallel(&c, 8, 8192));
    assert!(metrics_in_parallel(&c, 8, 8193));
}

#[test]
fn note_statistics() {
    // judged, not_judged, hold, fake, visible window, upcoming window
    assert_eq!(note_metric(true, false, false, false, true, true), (0, 0));
    assert_eq!(note_metric(true, false, true, false, true, true), (1, 0));
    assert_eq!(note_metric(false, true, false, false, true, true), (1, 1));
    assert_eq!(note_metric(false, true, false, true, true, true), (1, 0));
    assert_eq!(note_metric(false, false, false, false, false, true), (0, 0));
    assert_eq!(note_metric(false, true, false, false, false, true), (0, 1));
    let counts = vec![(1, 1), (0, 1), (1, 0), (0, 0), (1, 1)];
    assert_eq!(sum_metrics(&counts), (3, 3));
    assert_eq!(sum_metrics(&Vec::new()), (0, 0));
}

#[test]
fn play_phases() {
    assert_eq!(next_phase(PlayState::Starting, false), (PlayState::Starting, PhaseEvent::Continue));
    assert_eq!(next_phase(PlayState::Starting, true), (PlayState::BeforeMusic, PhaseEvent::StartClock));
    assert_eq!(next_phase(PlayState::BeforeMusic, true), (PlayState::Playing, PhaseEvent::StartMusic));
    assert_eq!(next_phase(PlayState::Playing, true), (PlayState::Ending, PhaseEvent::BeginEnding));
    assert_eq!(next_phase(PlayState::Ending, true), (PlayState::Ending, PhaseEvent::Finish));
    assert_eq!(next_phase(PlayState::Ending, false), (PlayState::Ending, PhaseEvent::Continue));
}

#[test]
fn space_key() {
    assert_eq!(space_action(true, true, false, PlayState::Playing), SpaceAction::Resume);
    assert_eq!(space_action(true, true, false, PlayState::BeforeMusic), SpaceAction::Nothing);
    assert_eq!(space_action(true, false, false, PlayState::BeforeMusic), SpaceAction::Pause);
    assert_eq!(space_action(true, false, false, PlayState::Ending), SpaceAction::Nothing);
    assert_eq!(space_action(true, false, true, PlayState::Playing), SpaceAction::Nothing);
    assert_eq!(space_action(false, false, false, PlayState::Playing), SpaceAction::Nothing);
}

#[test]
fn custom_switches_act_only_in_custom_profile() {
    let mut c = Config::default();
    c.perf_custom_particles = true;
    c.perf_custom_vsync_off = true;
    for p in [PERF_OFF, PERF_LIGHT, PERF_MEDIUM, PERF_FULL] {
        c.performance = p;
        assert!(!c.eff_fx_reduce(), "profile {p}");
        assert!(!c.eff_vsync_off(), "profile {p}");
    }
    c.performance = PERF_ULTRA;
    assert!(c.eff_fx_reduce() && c.eff_vsync_off());
    c.performance = PERF_CUSTOM;
    assert!(c.eff_fx_reduce() && c.eff_vsync_off());
    c.perf_custom_particles = false;
    c.perf_custom_vsync_off = false;
    assert!(!c.eff_fx_reduce() && !c.eff_vsync_off());
    c.performance = 200;
    c.perf_custom_vsync_off = true;
    assert!(c.eff_vsync_off());
}

#[test]
fn config_init_keeps_other_settings() {
    let mut c = Config::default();
    c.aggressive = false;
    c.custom_combo_text = "连击".to_string();
    c.sample_count = 4;
    c.autoplay = Some(true);
    c.init();
    assert!(!c.aggressive);
    assert_eq!(c.custom_combo_text, "连击");
    assert_eq!(c.sample_count, 4);
    assert_eq!(c.performance, PERF_FULL);
}

#[test]
fn accuracy_compares_as_numbers() {
    let mut r = rec(100, -0.0, false);
    assert!(r.update(&rec(50, 0.9, false)));
    assert_eq!(r, rec(100, 0.9, false));
    let mut r = rec(100, 0.9, false);
    assert!(!r.update(&rec(50, -0.0, false)));
    let mut r = rec(1, -0.5, false);
    assert!(r.update(&rec(0, -0.25, false)));
    assert_eq!(r.accuracy_bits, (-0.25f32).to_bits());
    // -0 and +0 are the same number: the stored one stays.
    let mut r = rec(1, 0.0, false);
    assert!(!r.update(&rec(0, -0.0, false)));
    assert_eq!(r.accuracy_bits, 0.0f32.to_bits());
    // NaN is never greater, and nothing is greater than NaN.
    let mut r = rec(1, 0.5, false);
    assert!(!r.update(&rec(0, f32::NAN, false)));
    let mut r = rec(1, f32::NAN, false);
    assert!(!r.update(&rec(0, 0.5, false)));
}

#[test]
fn accuracy_order_matches_float_order() {
    let values = [
        f32::NEG_INFINITY, -1e30, -2.0, -1.0, -0.5, -1e-40, -0.0, 0.0, 1e-40, 1e-3, 0.5, 0.9, 1.0, 3.5, 1e30,
        f32::INFINITY, f32::NAN, -f32::NAN, f32::from_bits(0x7fc0_0001), f32::MIN_POSITIVE,
    ];
    for a in values {
        for b in values {
            assert_eq!(accuracy_greater(a.to_bits(), b.to_bits()), a > b, "{a} > {b}");
        }
    }
}
