use vstd::prelude::*;
use crate::config::{Config, spec_lowres_threshold, spec_fx_density_threshold, spec_metrics_parallel, spec_metrics_parallel_min};
use crate::mods::{Mods, INSTANT_DEATH_AP, INSTANT_DEATH_FC, UNRATED, bits_contain};

verus! {

/// Judgement tallies of a play: perfect, good, bad, miss.
#[derive(Clone, Copy, Debug, PartialEq, Eq, Structural)]
pub struct JudgeCounts {
    pub perfect: u32,
    pub good: u32,
    pub bad: u32,
    pub miss: u32,
}

/// How the play is being run.
#[derive(Clone, Copy, Debug, PartialEq, Eq, Structural)]
pub enum GameMode {
    Normal,
    TweakOffset,
    Exercise,
    NoRetry,
    View,
}

/// The tint of the judge lines.
#[derive(Clone, Copy, Debug, PartialEq, Eq, Structural)]
pub enum LineTint {
    /// Everything so far perfect.
    Perfect,
    /// Nothing missed or bad, but some good.
    Good,
    /// No indicator: plain white.
    Plain,
}

/// The judge-line tint: with the all-perfect / full-combo indicator on and no
/// bad or miss, the perfect tint when there is no good either, else the good
/// tint; otherwise plain.
pub fn line_tint(counts: JudgeCounts, ap_fc_indicator: bool) -> (res: LineTint)
    requires
        counts.bad + counts.miss <= u32::MAX,
    ensures
        res == (if counts.bad + counts.miss == 0 && ap_fc_indicator {
            if counts.good == 0 { LineTint::Perfect } else { LineTint::Good }
        } else {
            LineTint::Plain
        }),
{
    if counts.bad + counts.miss == 0 && ap_fc_indicator {
        if counts.good == 0 {
            LineTint::Perfect
        } else {
            LineTint::Good
        }
    } else {
        LineTint::Plain
    }
}

/// Whether an instant-death modifier ends the play now: only while playing,
/// not already dead or skipping; the all-perfect variant on any good, bad or
/// miss; the full-combo variant on any bad or miss.
pub fn instant_death(dead: bool, skipping: bool, playing: bool, mods: Mods, counts: JudgeCounts) -> (res: bool)
    requires
        counts.good + counts.bad + counts.miss <= u32::MAX,
    ensures
        res == (!dead && !skipping && playing && ((bits_contain(mods.bits, INSTANT_DEATH_AP) && counts.good
            + counts.bad + counts.miss > 0) || (bits_contain(mods.bits, INSTANT_DEATH_FC) && counts.bad
            + counts.miss > 0))),
{
    !dead && !skipping && playing && (mods.contains(Mods::from_bits_retain(INSTANT_DEATH_AP)) && counts.good
        + counts.bad + counts.miss > 0 || mods.contains(Mods::from_bits_retain(INSTANT_DEATH_FC)) && counts.bad
        + counts.miss > 0)
}

/// Whether the finished play counts as a record: not skipped, no unrated
/// modifier, and played at normal speed or faster.
pub fn record_eligible(track_skipped: bool, mods: Mods, speed_at_least_normal: bool) -> (res: bool)
    ensures
        res == (!track_skipped && mods.bits & UNRATED == 0 && speed_at_least_normal),
{
    !(track_skipped || mods.intersects(Mods::from_bits_retain(UNRATED)) || !speed_at_least_normal)
}

/// Whether the play was a full combo: the best combo covered every note.
pub fn full_combo(max_combo: u32, num_of_notes: u32) -> (res: bool)
    ensures
        res == (max_combo == num_of_notes),
{
    max_combo == num_of_notes
}

/// What happens when a play ends.
#[derive(Clone, Copy, Debug, PartialEq, Eq, Structural)]
pub enum FinishAction {
    /// Leave right away (previews).
    Exit,
    /// Show the results screen.
    ShowResult,
    /// Return to the offset screen without a new offset.
    ReturnNoOffset,
    /// Stay (exercise mode loops).
    Stay,
}

/// The end of a play: previews leave; normal, no-retry and view plays show
/// the results; offset tuning returns without an offset; exercise stays.
pub fn finish_action(preview: bool, mode: GameMode) -> (res: FinishAction)
    ensures
        preview ==> res == FinishAction::Exit,
        !preview ==> res == match mode {
            GameMode::Normal | GameMode::NoRetry | GameMode::View => FinishAction::ShowResult,
            GameMode::TweakOffset => FinishAction::ReturnNoOffset,
            GameMode::Exercise => FinishAction::Stay,
        },
{
    if preview {
        return FinishAction::Exit;
    }
    match mode {
        GameMode::Normal | GameMode::NoRetry | GameMode::View => FinishAction::ShowResult,
        GameMode::TweakOffset => FinishAction::ReturnNoOffset,
        GameMode::Exercise => FinishAction::Stay,
    }
}

/// The per-frame load decisions: notes drawn at low resolution from the
/// visible-note threshold on, hit effects off above the upcoming-note
/// threshold.
pub fn load_decisions(config: &Config, visible_notes: usize, upcoming_notes: usize) -> (res: (bool, bool))
    ensures
        res.0 == (visible_notes >= spec_lowres_threshold(config.performance, config.perf_custom_lowres)),
        res.1 == (upcoming_notes > spec_fx_density_threshold(config.performance, config.perf_custom_fx_density)),
{
    let low_res = visible_notes >= config.eff_lowres_threshold();
    let suppress = upcoming_notes > config.eff_fx_density_threshold();
    (low_res, suppress)
}

/// Whether the player can interact: interaction enabled and the play running.
pub fn interactive(interactive_enabled: bool, playing: bool) -> (res: bool)
    ensures
        res == (interactive_enabled && playing),
{
    interactive_enabled && playing
}

/// Whether the per-frame load statistics run on the worker pool: more than
/// one worker, parallel statistics enabled by the profile, and more live notes
/// than the profile's threshold.
pub fn metrics_in_parallel(config: &Config, workers: usize, live_notes: usize) -> (res: bool)
    ensures
        res == (workers > 1 && spec_metrics_parallel(config.performance, config.perf_custom_metrics)
            && live_notes > spec_metrics_parallel_min(config.performance, config.perf_custom_metrics)),
{
    workers > 1 && config.metrics_parallel() && live_notes > config.metrics_parallel_min()
}

/// How a live note counts toward the load statistics, given where its time
/// lies: it is visible when within the visible window, upcoming when not yet
/// judged, not fake and within the next second. A judged note that is not a
/// hold counts for nothing.
pub fn note_metric(
    judged: bool,
    not_judged: bool,
    hold: bool,
    fake: bool,
    in_visible_window: bool,
    in_upcoming_window: bool,
) -> (res: (usize, usize))
    ensures
        (judged && !hold) ==> res == (0usize, 0usize),
        !(judged && !hold) ==> res == (
            (if in_visible_window { 1usize } else { 0usize }),
            (if not_judged && !fake && in_upcoming_window { 1usize } else { 0usize }),
        ),
{
    if judged && !hold {
        return (0, 0);
    }
    let visible = if in_visible_window { 1 } else { 0 };
    let upcoming = if not_judged && !fake && in_upcoming_window { 1 } else { 0 };
    (visible, upcoming)
}

/// The sum over `counts` of component `which` (0 for visible, 1 for
/// upcoming).
pub open spec fn count_flags(counts: Seq<(usize, usize)>, which: int) -> int
    decreases counts.len(),
{
    if counts.len() == 0 {
        0
    } else {
        count_flags(counts.drop_last(), which) + if which == 0 { counts.last().0 as int } else { counts.last().1 as int }
    }
}

/// Adds up per-note statistics (each component zero or one) into the visible
/// and upcoming totals.
pub fn sum_metrics(counts: &Vec<(usize, usize)>) -> (res: (usize, usize))
    requires
        forall|i: int| 0 <= i < counts@.len() ==> #[trigger] counts@[i].0 <= 1 && counts@[i].1 <= 1,
    ensures
        res.0 == count_flags(counts@, 0),
        res.1 == count_flags(counts@, 1),
{
    let mut visible: usize = 0;
    let mut upcoming: usize = 0;
    let mut i: usize = 0;
    while i < counts.len()
        invariant
            i <= counts@.len(),
            forall|j: int| 0 <= j < counts@.len() ==> #[trigger] counts@[j].0 <= 1 && counts@[j].1 <= 1,
            visible == count_flags(counts@.subrange(0, i as int), 0),
            upcoming == count_flags(counts@.subrange(0, i as int), 1),
            visible <= i,
            upcoming <= i,
        decreases counts@.len() - i,
    {
        proof {
            assert(counts@.subrange(0, i + 1).drop_last() == counts@.subrange(0, i as int));
        }
        visible = visible + counts[i].0;
        upcoming = upcoming + counts[i].1;
        i = i + 1;
    }
    proof {
        assert(counts@.subrange(0, counts@.len() as int) == counts@);
    }
    (visible, upcoming)
}

/// The phases of a play.
#[derive(Clone, Copy, Debug, PartialEq, Eq, Structural)]
pub enum PlayState {
    /// The fade-in before the clock starts.
    Starting,
    /// The clock runs but the music has not begun.
    BeforeMusic,
    /// The music plays.
    Playing,
    /// The track is over; the fade-out runs.
    Ending,
}

/// What the caller does when a phase ends.
#[derive(Clone, Copy, Debug, PartialEq, Eq, Structural)]
pub enum PhaseEvent {
    /// The phase goes on.
    Continue,
    /// Restart the clock at the start point (pausing it on the first
    /// exercise run).
    StartClock,
    /// Seek the music to the clock and play it unless paused.
    StartMusic,
    /// The track ended: begin the fade-out.
    BeginEnding,
    /// The fade-out is over: finish and show the result.
    Finish,
}

/// The phase after a frame, given whether the current phase's deadline was
/// reached (the fade-in time, time zero, the end of the track plus the wait,
/// the end of the fade-out), and what the caller has to do.
pub fn next_phase(state: PlayState, deadline_reached: bool) -> (res: (PlayState, PhaseEvent))
    ensures
        !deadline_reached ==> res == (state, PhaseEvent::Continue),
        deadline_reached ==> res == match state {
            PlayState::Starting => (PlayState::BeforeMusic, PhaseEvent::StartClock),
            PlayState::BeforeMusic => (PlayState::Playing, PhaseEvent::StartMusic),
            PlayState::Playing => (PlayState::Ending, PhaseEvent::BeginEnding),
            PlayState::Ending => (PlayState::Ending, PhaseEvent::Finish),
        },
{
    if !deadline_reached {
        return (state, PhaseEvent::Continue);
    }
    match state {
        PlayState::Starting => (PlayState::BeforeMusic, PhaseEvent::StartClock),
        PlayState::BeforeMusic => (PlayState::Playing, PhaseEvent::StartMusic),
        PlayState::Playing => (PlayState::Ending, PhaseEvent::BeginEnding),
        PlayState::Ending => (PlayState::Ending, PhaseEvent::Finish),
    }
}

/// What the space key does.
#[derive(Clone, Copy, Debug, PartialEq, Eq, Structural)]
pub enum SpaceAction {
    Nothing,
    /// Resume the paused play and its music.
    Resume,
    /// Pause the play and its music.
    Pause,
}

/// The space key, when interaction is enabled and the player is not dead: a
/// paused play resumes while the music is on; a running play before or
/// during the music pauses.
pub fn space_action(interactive: bool, paused: bool, dead: bool, state: PlayState) -> (res: SpaceAction)
    ensures
        res == (if !interactive || dead {
            SpaceAction::Nothing
        } else if paused {
            if state == PlayState::Playing { SpaceAction::Resume } else { SpaceAction::Nothing }
        } else if state == PlayState::Playing || state == PlayState::BeforeMusic {
            SpaceAction::Pause
        } else {
            SpaceAction::Nothing
        }),
{
    if !interactive || dead {
        SpaceAction::Nothing
    } else if paused {
        if state == PlayState::Playing { SpaceAction::Resume } else { SpaceAction::Nothing }
    } else if state == PlayState::Playing || state == PlayState::BeforeMusic {
        SpaceAction::Pause
    } else {
        SpaceAction::Nothing
    }
}

/// Whether a preview ends at once because something outside interrupted it
/// (such as the host of a multiplayer room starting the game): only previews
/// end so, without a result.
pub fn preview_interrupted(preview_mode: bool, interrupted: bool) -> (res: bool)
    ensures
        res == (preview_mode && interrupted),
{
    preview_mode && interrupted
}

} // verus!
