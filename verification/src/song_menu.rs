use vstd::prelude::*;

verus! {

/// An entry of a chart's menu.
#[derive(Clone, Copy, Debug, PartialEq, Eq, Structural)]
pub enum MenuOption {
    Delete,
    Rate,
    Exercise,
    Offset,
    Unlock,
    ReviewApprove,
    ReviewDeny,
    ReviewEditTags,
    Stabilize,
    StabilizeApprove,
    StabilizeApproveRanked,
    StabilizeComment,
    StabilizeDeny,
    ReviewDel,
    Export,
}

impl MenuOption {
    /// The key under which the entry's label is translated.
    pub fn key(&self) -> (res: &'static str)
        ensures
            res@ == match self {
                MenuOption::Delete => "delete"@,
                MenuOption::Rate => "rate"@,
                MenuOption::Exercise => "exercise"@,
                MenuOption::Offset => "offset"@,
                MenuOption::Unlock => "unlock"@,
                MenuOption::ReviewApprove => "review-approve"@,
                MenuOption::ReviewDeny => "review-deny"@,
                MenuOption::ReviewEditTags => "review-edit-tags"@,
                MenuOption::Stabilize => "stabilize"@,
                MenuOption::StabilizeApprove => "stabilize-approve"@,
                MenuOption::StabilizeApproveRanked => "stabilize-approve-ranked"@,
                MenuOption::StabilizeComment => "stabilize-comment"@,
                MenuOption::StabilizeDeny => "stabilize-deny"@,
                MenuOption::ReviewDel => "review-del"@,
                MenuOption::Export => "export"@,
            },
    {
        match self {
            MenuOption::Delete => "delete",
            MenuOption::Rate => "rate",
            MenuOption::Exercise => "exercise",
            MenuOption::Offset => "offset",
            MenuOption::Unlock => "unlock",
            MenuOption::ReviewApprove => "review-approve",
            MenuOption::ReviewDeny => "review-deny",
            MenuOption::ReviewEditTags => "review-edit-tags",
            MenuOption::Stabilize => "stabilize",
            MenuOption::StabilizeApprove => "stabilize-approve",
            MenuOption::StabilizeApproveRanked => "stabilize-approve-ranked",
            MenuOption::StabilizeComment => "stabilize-comment",
            MenuOption::StabilizeDeny => "stabilize-deny",
            MenuOption::ReviewDel => "review-del",
            MenuOption::Export => "export",
        }
    }
}

/// The review state of a chart on the server.
#[derive(Clone, Copy, Debug, PartialEq, Eq, Structural)]
pub struct ChartEntityState {
    pub reviewed: bool,
    pub stable: bool,
    pub stable_request: bool,
}

/// The signed-in user's relevant permissions.
#[derive(Clone, Copy, Debug, PartialEq, Eq, Structural)]
pub struct MenuPermissions {
    pub review: bool,
    pub review_pecjam: bool,
    pub stabilize_chart: bool,
    pub delete_stable: bool,
    pub delete_unstable: bool,
}

/// What a chart's menu depends on.
#[derive(Clone, Copy, Debug, PartialEq, Eq, Structural)]
pub struct MenuContext {
    /// The chart is stored locally.
    pub local: bool,
    /// The local copy is a built-in chart (its path starts with `:`).
    pub builtin: bool,
    /// The chart has a server id.
    pub has_id: bool,
    /// The chart comes from the XC-SIM service.
    pub xcsim: bool,
    /// The stored chart was unlocked by playing.
    pub played_unlock: bool,
    /// The signed-in user uploaded the chart.
    pub is_uploader: bool,
    pub perms: MenuPermissions,
    /// The server state, when loaded.
    pub entity: Option<ChartEntityState>,
}

/// `seq![x]` when `cond`, else nothing.
pub open spec fn opt_item(cond: bool, x: MenuOption) -> Seq<MenuOption> {
    if cond {
        seq![x]
    } else {
        Seq::empty()
    }
}

/// The entries of a chart's menu, in order.
pub open spec fn menu_spec(c: MenuContext) -> Seq<MenuOption> {
    let can_review = c.has_id && (c.perms.review || c.perms.review_pecjam);
    let review_pending = c.entity matches Some(e) && !e.reviewed && !e.stable_request;
    let can_stabilize = c.has_id && c.is_uploader && (c.entity matches Some(e) && !e.stable && !e.stable_request);
    let can_judge_stable = c.has_id && (c.entity matches Some(e) && e.stable_request) && c.perms.stabilize_chart;
    let can_del = c.has_id && (c.entity matches Some(e) && (if e.stable {
        c.perms.delete_stable
    } else {
        c.is_uploader || c.perms.delete_unstable
    }));
    opt_item(c.local && !c.builtin, MenuOption::Delete)
        + opt_item(c.has_id && !c.xcsim, MenuOption::Rate)
        + opt_item(c.local, MenuOption::Exercise)
        + opt_item(c.local, MenuOption::Offset)
        + opt_item(c.local && c.played_unlock, MenuOption::Unlock)
        + opt_item(can_review && review_pending, MenuOption::ReviewApprove)
        + opt_item(can_review && review_pending, MenuOption::ReviewDeny)
        + opt_item(can_review, MenuOption::ReviewEditTags)
        + opt_item(can_stabilize, MenuOption::Stabilize)
        + opt_item(can_judge_stable, MenuOption::StabilizeApprove)
        + opt_item(can_judge_stable, MenuOption::StabilizeApproveRanked)
        + opt_item(can_judge_stable, MenuOption::StabilizeComment)
        + opt_item(can_judge_stable, MenuOption::StabilizeDeny)
        + opt_item(can_del, MenuOption::ReviewDel)
        + opt_item(c.local && !c.builtin, MenuOption::Export)
}

fn push_if(v: &mut Vec<MenuOption>, cond: bool, x: MenuOption)
    ensures
        final(v)@ == old(v)@ + opt_item(cond, x),
{
    if cond {
        v.push(x);
    } else {
        assert(old(v)@ + opt_item(cond, x) =~= old(v)@);
    }
}

/// The entries of a chart's menu, in order: delete and export for local
/// charts that are not built in, rating for server charts outside XC-SIM,
/// practice, offset and unlock for local charts, then the review, stable-list
/// and removal entries the user's rights allow.
pub fn menu_options(c: &MenuContext) -> (res: Vec<MenuOption>)
    ensures
        res@ == menu_spec(*c),
{
    let can_review = c.has_id && (c.perms.review || c.perms.review_pecjam);
    let review_pending = match c.entity {
        Some(e) => !e.reviewed && !e.stable_request,
        None => false,
    };
    let can_stabilize = c.has_id && c.is_uploader && match c.entity {
        Some(e) => !e.stable && !e.stable_request,
        None => false,
    };
    let can_judge_stable = c.has_id && match c.entity {
        Some(e) => e.stable_request,
        None => false,
    } && c.perms.stabilize_chart;
    let can_del = c.has_id && match c.entity {
        Some(e) => if e.stable {
            c.perms.delete_stable
        } else {
            c.is_uploader || c.perms.delete_unstable
        },
        None => false,
    };
    let mut v: Vec<MenuOption> = Vec::new();
    push_if(&mut v, c.local && !c.builtin, MenuOption::Delete);
    push_if(&mut v, c.has_id && !c.xcsim, MenuOption::Rate);
    push_if(&mut v, c.local, MenuOption::Exercise);
    push_if(&mut v, c.local, MenuOption::Offset);
    push_if(&mut v, c.local && c.played_unlock, MenuOption::Unlock);
    push_if(&mut v, can_review && review_pending, MenuOption::ReviewApprove);
    push_if(&mut v, can_review && review_pending, MenuOption::ReviewDeny);
    push_if(&mut v, can_review, MenuOption::ReviewEditTags);
    push_if(&mut v, can_stabilize, MenuOption::Stabilize);
    push_if(&mut v, can_judge_stable, MenuOption::StabilizeApprove);
    push_if(&mut v, can_judge_stable, MenuOption::StabilizeApproveRanked);
    push_if(&mut v, can_judge_stable, MenuOption::StabilizeComment);
    push_if(&mut v, can_judge_stable, MenuOption::StabilizeDeny);
    push_if(&mut v, can_del, MenuOption::ReviewDel);
    push_if(&mut v, c.local && !c.builtin, MenuOption::Export);
    assert(v@ =~= menu_spec(*c));
    v
}

proof fn lemma_contains_opt(a: Seq<MenuOption>, cond: bool, y: MenuOption, x: MenuOption)
    ensures
        (a + opt_item(cond, y)).contains(x) <==> (a.contains(x) || (cond && x == y)),
{
    let b = a + opt_item(cond, y);
    if a.contains(x) {
        let i = choose|i: int| 0 <= i < a.len() && a[i] == x;
        assert(b[i] == x);
    }
    if cond && x == y {
        assert(b[a.len() as int] == x);
    }
    if b.contains(x) {
        let i = choose|i: int| 0 <= i < b.len() && b[i] == x;
        if i < a.len() {
            assert(a[i] == x);
        }
    }
}

/// A server chart can be removed from the menu exactly by those allowed to:
/// for a chart on the stable list by holders of the stable-deletion right,
/// otherwise by its uploader or holders of the unstable-deletion right. A
/// chart without an id, or whose server state is not loaded, offers no
/// removal.
pub proof fn law_review_del_exactly_when_allowed(c: MenuContext)
    ensures
        (c.has_id && c.entity is Some && !c.entity->0.stable) ==> (menu_spec(c).contains(MenuOption::ReviewDel)
            <==> (c.is_uploader || c.perms.delete_unstable)),
        (c.has_id && c.entity is Some && c.entity->0.stable) ==> (menu_spec(c).contains(MenuOption::ReviewDel)
            <==> c.perms.delete_stable),
        (!c.has_id || c.entity is None) ==> !menu_spec(c).contains(MenuOption::ReviewDel),
{
    let can_review = c.has_id && (c.perms.review || c.perms.review_pecjam);
    let review_pending = c.entity matches Some(e) && !e.reviewed && !e.stable_request;
    let can_stabilize = c.has_id && c.is_uploader && (c.entity matches Some(e) && !e.stable && !e.stable_request);
    let can_judge_stable = c.has_id && (c.entity matches Some(e) && e.stable_request) && c.perms.stabilize_chart;
    let can_del = c.has_id && (c.entity matches Some(e) && (if e.stable {
        c.perms.delete_stable
    } else {
        c.is_uploader || c.perms.delete_unstable
    }));
    let x = MenuOption::ReviewDel;
    let s0 = Seq::<MenuOption>::empty();
    let s1 = s0 + opt_item(c.local && !c.builtin, MenuOption::Delete);
    lemma_contains_opt(s0, c.local && !c.builtin, MenuOption::Delete, x);
    let s2 = s1 + opt_item(c.has_id && !c.xcsim, MenuOption::Rate);
    lemma_contains_opt(s1, c.has_id && !c.xcsim, MenuOption::Rate, x);
    let s3 = s2 + opt_item(c.local, MenuOption::Exercise);
    lemma_contains_opt(s2, c.local, MenuOption::Exercise, x);
    let s4 = s3 + opt_item(c.local, MenuOption::Offset);
    lemma_contains_opt(s3, c.local, MenuOption::Offset, x);
    let s5 = s4 + opt_item(c.local && c.played_unlock, MenuOption::Unlock);
    lemma_contains_opt(s4, c.local && c.played_unlock, MenuOption::Unlock, x);
    let s6 = s5 + opt_item(can_review && review_pending, MenuOption::ReviewApprove);
    lemma_contains_opt(s5, can_review && review_pending, MenuOption::ReviewApprove, x);
    let s7 = s6 + opt_item(can_review && review_pending, MenuOption::ReviewDeny);
    lemma_contains_opt(s6, can_review && review_pending, MenuOption::ReviewDeny, x);
    let s8 = s7 + opt_item(can_review, MenuOption::ReviewEditTags);
    lemma_contains_opt(s7, can_review, MenuOption::ReviewEditTags, x);
    let s9 = s8 + opt_item(can_stabilize, MenuOption::Stabilize);
    lemma_contains_opt(s8, can_stabilize, MenuOption::Stabilize, x);
    let s10 = s9 + opt_item(can_judge_stable, MenuOption::StabilizeApprove);
    lemma_contains_opt(s9, can_judge_stable, MenuOption::StabilizeApprove, x);
    let s11 = s10 + opt_item(can_judge_stable, MenuOption::StabilizeApproveRanked);
    lemma_contains_opt(s10, can_judge_stable, MenuOption::StabilizeApproveRanked, x);
    let s12 = s11 + opt_item(can_judge_stable, MenuOption::StabilizeComment);
    lemma_contains_opt(s11, can_judge_stable, MenuOption::StabilizeComment, x);
    let s13 = s12 + opt_item(can_judge_stable, MenuOption::StabilizeDeny);
    lemma_contains_opt(s12, can_judge_stable, MenuOption::StabilizeDeny, x);
    let s14 = s13 + opt_item(can_del, MenuOption::ReviewDel);
    lemma_contains_opt(s13, can_del, MenuOption::ReviewDel, x);
    let s15 = s14 + opt_item(c.local && !c.builtin, MenuOption::Export);
    lemma_contains_opt(s14, c.local && !c.builtin, MenuOption::Export, x);
    assert(opt_item(c.local && !c.builtin, MenuOption::Delete) =~= s1);
    assert(menu_spec(c) =~= s15);
}

} // verus!
