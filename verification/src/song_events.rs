use vstd::prelude::*;
use crate::play_rules::GameMode;
use crate::song_menu::MenuOption;
use crate::scene_stack::Transition;
use crate::strings::{decimal, u128_to_decimal, string_from_chars, str_chars, append_chars};

verus! {

/// What choosing an entry of a chart's menu sets off.
#[derive(Clone, Copy, Debug, PartialEq, Eq, Structural)]
pub enum MenuAction {
    /// Ask before deleting the local copy.
    ConfirmDelete,
    /// Open the rating dialog.
    OpenRating,
    /// Start a play in the given mode; `unlock` plays the unlock sequence.
    Launch { mode: GameMode, unlock: bool },
    /// Ask before approving the chart in review.
    ConfirmReviewApprove,
    /// Ask for the reason of a review denial.
    AskDenyReason,
    /// Ask before deleting the chart on the server.
    ConfirmServerDelete,
    /// Open the tag editor on the server's tags.
    EditTags,
    /// Ask before requesting stabilization.
    ConfirmStabilizeRequest,
    /// Ask before approving a stabilization; `ranked` for the ranked kind.
    ConfirmStabilizeApprove { ranked: bool },
    /// Ask for a stabilization comment.
    AskStabilizeComment,
    /// Ask for the reason of a stabilization denial.
    AskStabilizeDenyReason,
    /// Ask where to export the chart.
    Export,
}

/// The action that a menu entry sets off.
pub fn menu_action(option: MenuOption) -> (res: MenuAction)
    ensures
        res == match option {
            MenuOption::Delete => MenuAction::ConfirmDelete,
            MenuOption::Rate => MenuAction::OpenRating,
            MenuOption::Exercise => MenuAction::Launch { mode: GameMode::Exercise, unlock: false },
            MenuOption::Offset => MenuAction::Launch { mode: GameMode::TweakOffset, unlock: false },
            MenuOption::Unlock => MenuAction::Launch { mode: GameMode::Normal, unlock: true },
            MenuOption::ReviewApprove => MenuAction::ConfirmReviewApprove,
            MenuOption::ReviewDeny => MenuAction::AskDenyReason,
            MenuOption::ReviewDel => MenuAction::ConfirmServerDelete,
            MenuOption::ReviewEditTags => MenuAction::EditTags,
            MenuOption::Stabilize => MenuAction::ConfirmStabilizeRequest,
            MenuOption::StabilizeApprove => MenuAction::ConfirmStabilizeApprove { ranked: false },
            MenuOption::StabilizeApproveRanked => MenuAction::ConfirmStabilizeApprove { ranked: true },
            MenuOption::StabilizeComment => MenuAction::AskStabilizeComment,
            MenuOption::StabilizeDeny => MenuAction::AskStabilizeDenyReason,
            MenuOption::Export => MenuAction::Export,
        },
{
    match option {
        MenuOption::Delete => MenuAction::ConfirmDelete,
        MenuOption::Rate => MenuAction::OpenRating,
        MenuOption::Exercise => MenuAction::Launch { mode: GameMode::Exercise, unlock: false },
        MenuOption::Offset => MenuAction::Launch { mode: GameMode::TweakOffset, unlock: false },
        MenuOption::Unlock => MenuAction::Launch { mode: GameMode::Normal, unlock: true },
        MenuOption::ReviewApprove => MenuAction::ConfirmReviewApprove,
        MenuOption::ReviewDeny => MenuAction::AskDenyReason,
        MenuOption::ReviewDel => MenuAction::ConfirmServerDelete,
        MenuOption::ReviewEditTags => MenuAction::EditTags,
        MenuOption::Stabilize => MenuAction::ConfirmStabilizeRequest,
        MenuOption::StabilizeApprove => MenuAction::ConfirmStabilizeApprove { ranked: false },
        MenuOption::StabilizeApproveRanked => MenuAction::ConfirmStabilizeApprove { ranked: true },
        MenuOption::StabilizeComment => MenuAction::AskStabilizeComment,
        MenuOption::StabilizeDeny => MenuAction::AskStabilizeDenyReason,
        MenuOption::Export => MenuAction::Export,
    }
}

/// Timestamps of a chart as the server reports them (seconds, or any unit
/// that orders and compares as the server's times do).
#[derive(Clone, Copy, Debug, PartialEq, Eq, Structural)]
pub struct RemoteStamps {
    pub created: i64,
    pub updated: i64,
    pub chart_updated: i64,
}

/// Timestamps recorded with the local copy, if it was ever synchronised.
#[derive(Clone, Copy, Debug, PartialEq, Eq, Structural)]
pub struct LocalStamps {
    pub updated: Option<i64>,
    pub chart_updated: Option<i64>,
}

/// Whether the server's copy differs from the local one as far as a stamp
/// tells: a recorded stamp differs from the server's, or none was recorded and
/// the server's has moved since creation.
pub open spec fn stamp_changed(local: Option<i64>, remote: i64, created: i64) -> bool {
    match local {
        Some(l) => l != remote,
        None => remote != created,
    }
}

/// The prompt offered after the chart's entry was fetched.
#[derive(Clone, Copy, Debug, PartialEq, Eq, Structural)]
pub enum UpdatePrompt {
    /// Nothing to offer.
    NoPrompt,
    /// The chart itself changed on the server.
    ChartChanged,
    /// Only the chart's information changed.
    InfoOnly,
}

/// The update prompt: none without a local copy or when the entry did not
/// change; otherwise whether the chart file itself changed.
pub fn update_prompt(local: LocalStamps, remote: RemoteStamps, has_local_copy: bool) -> (res: UpdatePrompt)
    ensures
        res == (if !(has_local_copy && stamp_changed(local.updated, remote.updated, remote.created)) {
            UpdatePrompt::NoPrompt
        } else if stamp_changed(local.chart_updated, remote.chart_updated, remote.created) {
            UpdatePrompt::ChartChanged
        } else {
            UpdatePrompt::InfoOnly
        }),
{
    let changed = match local.updated {
        Some(l) => l != remote.updated,
        None => remote.updated != remote.created,
    };
    if !(changed && has_local_copy) {
        return UpdatePrompt::NoPrompt;
    }
    let chart_changed = match local.chart_updated {
        Some(l) => l != remote.chart_updated,
        None => remote.chart_updated != remote.created,
    };
    if chart_changed {
        UpdatePrompt::ChartChanged
    } else {
        UpdatePrompt::InfoOnly
    }
}

/// One row of a chart's leaderboard.
#[derive(Clone, Copy, Debug, PartialEq, Eq, Structural)]
pub struct LeaderboardEntry {
    pub player_id: i32,
    pub rank: u32,
    pub score: u32,
}

/// The index of the first row of `rows` from `from` on whose player is `me`,
/// or `rows.len()` if there is none.
pub open spec fn first_row_of(rows: Seq<LeaderboardEntry>, me: i32, from: int) -> int
    decreases rows.len() - from,
{
    if from >= rows.len() {
        rows.len() as int
    } else if rows[from].player_id == me {
        from
    } else {
        first_row_of(rows, me, from + 1)
    }
}

/// The rank the signed-in player holds on the leaderboard: that of the first
/// row that is theirs; none when signed out or absent.
pub open spec fn own_rank_spec(rows: Seq<LeaderboardEntry>, me: Option<i32>) -> Option<u32> {
    match me {
        None => None,
        Some(id) => {
            let k = first_row_of(rows, id, 0);
            if k < rows.len() {
                Some(rows[k].rank)
            } else {
                None
            }
        },
    }
}

/// The signed-in player's rank on a leaderboard.
pub fn own_rank(rows: &Vec<LeaderboardEntry>, me: Option<i32>) -> (res: Option<u32>)
    ensures
        res == own_rank_spec(rows@, me),
{
    if me.is_none() {
        return None;
    }
    let id = me.unwrap();
    let mut i: usize = 0;
    while i < rows.len()
        invariant
            i <= rows.len(),
            me == Some(id),
            first_row_of(rows@, id, 0) == first_row_of(rows@, id, i as int),
        decreases rows.len() - i,
    {
        if rows[i].player_id == id {
            assert(first_row_of(rows@, id, i as int) == i as int);
            return Some(rows[i].rank);
        }
        i = i + 1;
    }
    assert(first_row_of(rows@, id, i as int) == rows@.len());
    None
}

/// `n` in decimal, padded on the left with zeros to at least `width` digits.
pub open spec fn zero_padded(n: nat, width: nat) -> Seq<char> {
    let d = decimal(n);
    if d.len() >= width {
        d
    } else {
        Seq::new((width - d.len()) as nat, |i: int| '0') + d
    }
}

/// The score column of a leaderboard row: seven digits, eight for charts of
/// the second chart service, zero-padded.
pub fn leaderboard_score_text(score: u32, wide: bool) -> (res: String)
    ensures
        res@ == zero_padded(score as nat, if wide { 8 } else { 7 }),
{
    let width: usize = if wide { 8 } else { 7 };
    let digits = u128_to_decimal(score as u128);
    let mut out: Vec<char> = Vec::new();
    if digits.len() < width {
        let pad = width - digits.len();
        let mut k: usize = 0;
        while k < pad
            invariant
                k <= pad,
                out@ == Seq::new(k as nat, |i: int| '0'),
            decreases pad - k,
        {
            out.push('0');
            k = k + 1;
            proof {
                assert(out@ =~= Seq::new(k as nat, |i: int| '0'));
            }
        }
    }
    append_chars(&mut out, &digits);
    proof {
        assert(out@ =~= zero_padded(score as nat, width as nat));
    }
    string_from_chars(&out)
}

/// The message key shown once a review approval went through: whether the
/// chart passed review outright, or only got this approval.
pub fn review_result_key(passed: bool) -> (res: &'static str)
    ensures
        res@ == (if passed { "review-passed"@ } else { "review-approved"@ }),
{
    if passed { "review-passed" } else { "review-approved" }
}

/// The message key shown once a stabilization approval went through: status
/// zero means approved and pending, any other that it passed.
pub fn stabilize_result_key(status: i8) -> (res: &'static str)
    ensures
        res@ == (if status == 0 { "stabilize-approved"@ } else { "stabilize-approved-passed"@ }),
{
    if status == 0 { "stabilize-approved" } else { "stabilize-approved-passed" }
}

/// The resource pack a play uses: none for index zero, else the pack at
/// `index - 1` under the packs directory.
pub fn respack_path(dir: &str, packs: &Vec<String>, index: usize) -> (res: Option<String>)
    requires
        index <= packs.len(),
    ensures
        index == 0 ==> res is None,
        index > 0 ==> res is Some && res->0@ == dir@ + seq!['/'] + packs@[index - 1]@,
{
    if index == 0 {
        return None;
    }
    let mut out = str_chars(dir);
    out.push('/');
    let name = str_chars(packs[index - 1].as_str());
    append_chars(&mut out, &name);
    let s = string_from_chars(&out);
    proof {
        assert(s@ =~= dir@ + seq!['/'] + packs@[index - 1]@);
    }
    Some(s)
}

/// What the chart screen asks of the scene stack once the local copy was
/// deleted: to be left, telling the screen below that a chart was deleted.
pub fn after_delete<S>() -> (res: Transition<S, bool>)
    ensures
        res == Transition::<S, bool>::PopWithResult(true),
{
    Transition::PopWithResult(true)
}

} // verus!
