use vstd::prelude::*;
use vstd::string::*;
use crate::mods::{Mods, AUTOPLAY, FLIP_X, FLIP_Y, bits_contain};

verus! {

/// Minimum number of live notes before per-frame note statistics run in
/// parallel, at full optimisation.
pub const DEFAULT_METRICS_PARALLEL_MIN: usize = 4096;

/// Performance profile: no optimisation.
pub const PERF_OFF: u8 = 0;
/// Performance profile: light optimisation.
pub const PERF_LIGHT: u8 = 1;
/// Performance profile: medium optimisation.
pub const PERF_MEDIUM: u8 = 2;
/// Performance profile: full optimisation.
pub const PERF_FULL: u8 = 3;
/// Performance profile: full, aggressive optimisation.
pub const PERF_ULTRA: u8 = 4;
/// Performance profile: every switch set by hand.
pub const PERF_CUSTOM: u8 = 5;

/// Default crash code of the hand-triggered crash screen.
pub fn default_custom_crash_code() -> (res: u32)
    ensures
        res == 888,
{
    888
}

/// Default reason of the hand-triggered crash screen: empty.
pub fn default_custom_crash_reason() -> (res: String)
    ensures
        res@ == Seq::<char>::empty(),
{
    String::new()
}

/// Default title of the hand-triggered crash screen: empty.
pub fn default_custom_crash_title() -> (res: String)
    ensures
        res@ == Seq::<char>::empty(),
{
    String::new()
}

/// Default performance profile: full optimisation.
pub fn default_performance() -> (res: u8)
    ensures
        res == PERF_FULL,
{
    PERF_FULL
}

/// Default of the switches that are on unless configured.
pub fn default_true() -> (res: bool)
    ensures
        res,
{
    true
}

/// Default visible-note threshold for low-resolution notes (custom profile).
pub fn default_perf_lowres() -> (res: u32)
    ensures
        res == 100,
{
    100
}

/// Default hit-effect density threshold (custom profile).
pub fn default_perf_fx_density() -> (res: u32)
    ensures
        res == 20,
{
    20
}

/// The playing environment's settings that the game's rules read: switches,
/// texts, counts and the performance profile. (Offsets, volumes, speed and the
/// other real-valued settings are kept by the caller.)
pub struct Config {
    pub adjust_time: bool,
    pub aggressive: bool,
    pub ap_fc_indicator: bool,
    pub full_screen_judge: bool,
    pub combo_text_debug: bool,
    pub arcaea_judgement: bool,
    pub fnf_judgement: bool,
    pub custom_combo_text: String,
    pub custom_watermark: String,
    pub show_score: bool,
    pub show_score_initialized: bool,
    pub show_combo: bool,
    pub custom_accent: String,
    pub old_home: bool,
    pub audio_buffer_size: Option<u32>,
    pub chart_debug: bool,
    pub roman_numerals: bool,
    pub chinese_numerals: bool,
    pub autoplay_display_text: String,
    pub disable_effect: bool,
    pub double_click_to_pause: bool,
    pub double_hint: bool,
    pub fullscreen_mode: bool,
    pub fxaa: bool,
    pub interactive: bool,
    pub mods: Mods,
    pub mp_address: String,
    pub mp_enabled: bool,
    pub offline_mode: bool,
    pub particle: bool,
    pub player_name: String,
    pub preferred_sample_rate: Option<u32>,
    pub res_pack_path: Option<String>,
    pub sample_count: u32,
    pub show_acc: bool,
    pub show_avg_fps: bool,
    pub show_fps: bool,
    pub touch_debug: bool,
    pub use_keyboard: bool,
    pub console_enabled: bool,
    pub vsync: bool,
    pub performance: u8,
    pub perf_custom_metrics: bool,
    pub perf_custom_cull: bool,
    pub perf_custom_particles: bool,
    pub perf_custom_vsync_off: bool,
    pub perf_custom_lowres: u32,
    pub perf_custom_fx_density: u32,
    pub custom_crash_code: u32,
    pub custom_crash_reason: String,
    pub custom_crash_title: String,
    /// Legacy autoplay switch; when present it overrides the autoplay modifier
    /// on [`Config::init`].
    pub autoplay: Option<bool>,
}

/// The effective profile: the stored one, capped at the custom profile.
pub open spec fn spec_perf_profile(performance: u8) -> u8 {
    if performance < PERF_CUSTOM {
        performance
    } else {
        PERF_CUSTOM
    }
}

/// Whether statistics run in parallel under the given profile.
pub open spec fn spec_metrics_parallel(performance: u8, custom_metrics: bool) -> bool {
    if performance <= PERF_LIGHT {
        false
    } else if performance <= PERF_ULTRA {
        true
    } else {
        custom_metrics
    }
}

/// The live-note threshold for parallel statistics under the given profile.
pub open spec fn spec_metrics_parallel_min(performance: u8, custom_metrics: bool) -> usize {
    if performance == PERF_MEDIUM {
        (2 * DEFAULT_METRICS_PARALLEL_MIN) as usize
    } else if performance == PERF_FULL || performance == PERF_ULTRA {
        DEFAULT_METRICS_PARALLEL_MIN
    } else if performance >= PERF_CUSTOM && custom_metrics {
        DEFAULT_METRICS_PARALLEL_MIN
    } else {
        usize::MAX
    }
}

/// The visible-note count from which notes are drawn at low resolution.
pub open spec fn spec_lowres_threshold(performance: u8, custom_lowres: u32) -> usize {
    if performance == PERF_OFF {
        usize::MAX
    } else if performance <= PERF_FULL {
        100
    } else if performance == PERF_ULTRA {
        60
    } else {
        custom_lowres as usize
    }
}

/// The upcoming-note count above which hit effects are switched off.
pub open spec fn spec_fx_density_threshold(performance: u8, custom_fx_density: u32) -> usize {
    if performance == PERF_ULTRA {
        12
    } else if performance == PERF_FULL {
        500
    } else if performance >= PERF_CUSTOM {
        custom_fx_density as usize
    } else {
        20
    }
}

impl Config {
    /// The settings a fresh installation starts with.
    pub fn default() -> (res: Config)
        ensures
            !res.adjust_time,
            res.aggressive,
            res.ap_fc_indicator,
            !res.full_screen_judge,
            !res.combo_text_debug,
            !res.arcaea_judgement,
            !res.fnf_judgement,
            res.custom_combo_text@ == "COMBO"@,
            res.custom_watermark@ == "Phira-Vrenxz"@,
            res.show_score,
            !res.show_score_initialized,
            res.show_combo,
            res.custom_accent@ == "#4C84FF"@,
            !res.old_home,
            res.audio_buffer_size is None,
            !res.chart_debug,
            !res.roman_numerals,
            !res.chinese_numerals,
            res.autoplay_display_text@ == "Autoplay"@,
            !res.disable_effect,
            res.double_click_to_pause,
            res.double_hint,
            !res.fullscreen_mode,
            !res.fxaa,
            res.interactive,
            res.mods.bits == 0,
            res.mp_address@ == "mp2.phira.cn:12345"@,
            !res.mp_enabled,
            !res.offline_mode,
            res.particle,
            res.player_name@ == "Mivik"@,
            res.preferred_sample_rate is None,
            res.res_pack_path is None,
            res.sample_count == 1,
            !res.show_acc,
            !res.show_avg_fps,
            !res.show_fps,
            !res.touch_debug,
            !res.use_keyboard,
            !res.console_enabled,
            res.vsync,
            res.performance == PERF_FULL,
            res.perf_custom_metrics,
            res.perf_custom_cull,
            !res.perf_custom_particles,
            !res.perf_custom_vsync_off,
            res.perf_custom_lowres == 100,
            res.perf_custom_fx_density == 20,
            res.custom_crash_code == 888,
            res.custom_crash_reason@ == Seq::<char>::empty(),
            res.custom_crash_title@ == Seq::<char>::empty(),
            res.autoplay is None,
    {
        Config {
            adjust_time: false,
            aggressive: true,
            ap_fc_indicator: true,
            full_screen_judge: false,
            combo_text_debug: false,
            arcaea_judgement: false,
            fnf_judgement: false,
            custom_combo_text: String::from_str("COMBO"),
            custom_watermark: String::from_str("Phira-Vrenxz"),
            show_score: true,
            show_score_initialized: false,
            show_combo: true,
            custom_accent: String::from_str("#4C84FF"),
            old_home: false,
            audio_buffer_size: None,
            chart_debug: false,
            roman_numerals: false,
            chinese_numerals: false,
            autoplay_display_text: String::from_str("Autoplay"),
            disable_effect: false,
            double_click_to_pause: true,
            double_hint: true,
            fullscreen_mode: false,
            fxaa: false,
            interactive: true,
            mods: Mods::empty(),
            mp_address: String::from_str("mp2.phira.cn:12345"),
            mp_enabled: false,
            offline_mode: false,
            particle: true,
            player_name: String::from_str("Mivik"),
            preferred_sample_rate: None,
            res_pack_path: None,
            sample_count: 1,
            show_acc: false,
            show_avg_fps: false,
            show_fps: false,
            touch_debug: false,
            use_keyboard: false,
            console_enabled: false,
            vsync: true,
            performance: default_performance(),
            perf_custom_metrics: default_true(),
            perf_custom_cull: default_true(),
            perf_custom_particles: false,
            perf_custom_vsync_off: false,
            perf_custom_lowres: default_perf_lowres(),
            perf_custom_fx_density: default_perf_fx_density(),
            custom_crash_code: default_custom_crash_code(),
            custom_crash_reason: default_custom_crash_reason(),
            custom_crash_title: default_custom_crash_title(),
            autoplay: None,
        }
    }

    /// Applies the legacy autoplay switch, when present, to the modifiers;
    /// every other setting stays as it is.
    pub fn init(&mut self)
        ensures
            old(self).autoplay == Some(true) ==> final(self).mods.bits == old(self).mods.bits | AUTOPLAY,
            old(self).autoplay == Some(false) ==> final(self).mods.bits == old(self).mods.bits & !AUTOPLAY,
            old(self).autoplay is None ==> final(self).mods == old(self).mods,
            *final(self) == (Config { mods: final(self).mods, ..*old(self) }),
    {
        if let Some(flag) = self.autoplay {
            self.mods.set(Mods::from_bits_retain(AUTOPLAY), flag);
        }
    }

    /// Whether every modifier of `m` is active.
    pub fn has_mod(&self, m: Mods) -> (res: bool)
        ensures
            res == bits_contain(self.mods.bits, m.bits),
    {
        self.mods.contains(m)
    }

    /// Whether the autoplay modifier is active.
    pub fn autoplay(&self) -> (res: bool)
        ensures
            res == bits_contain(self.mods.bits, AUTOPLAY),
    {
        self.has_mod(Mods::from_bits_retain(AUTOPLAY))
    }

    /// Whether the horizontal mirror modifier is active.
    pub fn flip_x(&self) -> (res: bool)
        ensures
            res == bits_contain(self.mods.bits, FLIP_X),
    {
        self.has_mod(Mods::from_bits_retain(FLIP_X))
    }

    /// Whether the vertical mirror modifier is active.
    pub fn flip_y(&self) -> (res: bool)
        ensures
            res == bits_contain(self.mods.bits, FLIP_Y),
    {
        self.has_mod(Mods::from_bits_retain(FLIP_Y))
    }

    /// The effective performance profile (values above the custom profile
    /// count as the custom profile).
    pub fn perf_profile(&self) -> (res: u8)
        ensures
            res == spec_perf_profile(self.performance),
            res <= PERF_CUSTOM,
    {
        if self.performance < PERF_CUSTOM {
            self.performance
        } else {
            PERF_CUSTOM
        }
    }

    /// Whether the custom profile is in effect.
    pub fn perf_is_custom(&self) -> (res: bool)
        ensures
            res == (self.performance >= PERF_CUSTOM),
    {
        self.perf_profile() == PERF_CUSTOM
    }

    /// Whether per-frame note statistics run in parallel.
    pub fn metrics_parallel(&self) -> (res: bool)
        ensures
            res == spec_metrics_parallel(self.performance, self.perf_custom_metrics),
    {
        let p = self.perf_profile();
        if p == PERF_OFF || p == PERF_LIGHT {
            false
        } else if p == PERF_MEDIUM || p == PERF_FULL || p == PERF_ULTRA {
            true
        } else {
            self.perf_custom_metrics
        }
    }

    /// The minimum number of live notes for parallel statistics; `usize::MAX`
    /// where they never run in parallel.
    pub fn metrics_parallel_min(&self) -> (res: usize)
        ensures
            res == spec_metrics_parallel_min(self.performance, self.perf_custom_metrics),
    {
        let p = self.perf_profile();
        if p == PERF_MEDIUM {
            2 * DEFAULT_METRICS_PARALLEL_MIN
        } else if p == PERF_FULL || p == PERF_ULTRA {
            DEFAULT_METRICS_PARALLEL_MIN
        } else if p == PERF_CUSTOM && self.perf_custom_metrics {
            DEFAULT_METRICS_PARALLEL_MIN
        } else {
            usize::MAX
        }
    }

    /// Whether off-screen notes are culled.
    pub fn eff_cull(&self) -> (res: bool)
        ensures
            res == (if self.performance == PERF_OFF {
                false
            } else if self.performance <= PERF_ULTRA {
                true
            } else {
                self.aggressive
            }),
    {
        let p = self.perf_profile();
        if p == PERF_OFF {
            false
        } else if PERF_LIGHT <= p && p <= PERF_ULTRA {
            true
        } else {
            self.aggressive
        }
    }

    /// Visible-note count from which notes are drawn at low resolution;
    /// `usize::MAX` without optimisation.
    pub fn eff_lowres_threshold(&self) -> (res: usize)
        ensures
            res == spec_lowres_threshold(self.performance, self.perf_custom_lowres),
    {
        let p = self.perf_profile();
        if p == PERF_OFF {
            usize::MAX
        } else if PERF_LIGHT <= p && p <= PERF_FULL {
            100
        } else if p == PERF_ULTRA {
            60
        } else {
            self.perf_custom_lowres as usize
        }
    }

    /// Upcoming-note count above which hit effects are switched off.
    pub fn eff_fx_density_threshold(&self) -> (res: usize)
        ensures
            res == spec_fx_density_threshold(self.performance, self.perf_custom_fx_density),
    {
        let p = self.perf_profile();
        if p == PERF_ULTRA {
            12
        } else if p == PERF_FULL {
            500
        } else if p == PERF_CUSTOM {
            self.perf_custom_fx_density as usize
        } else {
            20
        }
    }

    /// Whether particle emission is thinned out: always under the ultra
    /// profile, by the custom switch under the custom profile, never
    /// otherwise (the custom switches act only under the custom profile).
    pub fn eff_fx_reduce(&self) -> (res: bool)
        ensures
            res == (spec_perf_profile(self.performance) == PERF_ULTRA || (spec_perf_profile(self.performance)
                == PERF_CUSTOM && self.perf_custom_particles)),
    {
        let p = self.perf_profile();
        if p == PERF_ULTRA {
            true
        } else if p == PERF_CUSTOM {
            self.perf_custom_particles
        } else {
            false
        }
    }

    /// Whether vertical synchronisation is forced off: always under the ultra
    /// profile, by the custom switch under the custom profile, never
    /// otherwise.
    pub fn eff_vsync_off(&self) -> (res: bool)
        ensures
            res == (spec_perf_profile(self.performance) == PERF_ULTRA || (spec_perf_profile(self.performance)
                == PERF_CUSTOM && self.perf_custom_vsync_off)),
    {
        let p = self.perf_profile();
        if p == PERF_ULTRA {
            true
        } else if p == PERF_CUSTOM {
            self.perf_custom_vsync_off
        } else {
            false
        }
    }

    /// Whether particles are shown: the manual switch under the custom
    /// profile, always otherwise.
    pub fn eff_particles(&self) -> (res: bool)
        ensures
            res == (self.performance < PERF_CUSTOM || self.particle),
    {
        if self.perf_is_custom() {
            self.particle
        } else {
            true
        }
    }

    /// Whether the whole screen accepts judgements.
    pub fn full_screen_judge(&self) -> (res: bool)
        ensures
            res == self.full_screen_judge,
    {
        self.full_screen_judge
    }

    /// Whether the combo text debug overlay is shown.
    pub fn combo_text_debug(&self) -> (res: bool)
        ensures
            res == self.combo_text_debug,
    {
        self.combo_text_debug
    }

    /// The watermark text.
    pub fn custom_watermark(&self) -> (res: &str)
        ensures
            res@ == self.custom_watermark@,
    {
        self.custom_watermark.as_str()
    }

    /// The text drawn under the combo number.
    pub fn custom_combo_text(&self) -> (res: &str)
        ensures
            res@ == self.custom_combo_text@,
    {
        self.custom_combo_text.as_str()
    }
}

/// Statistics run in parallel exactly when their live-note threshold is
/// finite.
pub proof fn law_parallel_iff_threshold_finite(c: Config)
    ensures
        spec_metrics_parallel(c.performance, c.perf_custom_metrics) <==> spec_metrics_parallel_min(
            c.performance,
            c.perf_custom_metrics,
        ) != usize::MAX,
{
}

/// Under the custom profile the statistics run in parallel exactly when its
/// switch is on, and then from the same live-note threshold as under the
/// full profile; with the switch off they never do.
pub proof fn law_custom_profile_follows_metrics_switch(performance: u8, custom_metrics: bool)
    requires
        performance >= PERF_CUSTOM,
    ensures
        spec_metrics_parallel(performance, custom_metrics) == custom_metrics,
        custom_metrics ==> spec_metrics_parallel_min(performance, custom_metrics) == spec_metrics_parallel_min(
            PERF_FULL,
            custom_metrics,
        ),
        custom_metrics ==> spec_metrics_parallel_min(performance, custom_metrics) == 4096,
        !custom_metrics ==> spec_metrics_parallel_min(performance, custom_metrics) == usize::MAX,
{
}

} // verus!
