use vstd::prelude::*;

verus! {

/// What the achievement page needs of an achievement's definition: its id,
/// the code of its category and its place in the display order.
#[derive(Clone, Copy, Debug, PartialEq, Eq, Structural)]
pub struct AchievementDef {
    pub id: u32,
    pub category: u8,
    pub order: u32,
}

/// Which achievements a tab of the page lists.
#[derive(Clone, Copy, Debug, PartialEq, Eq, Structural)]
pub enum AchievementFilter {
    All,
    Category(u8),
}

/// Whether the definition at `i` belongs on the tab.
pub open spec fn listed(defs: Seq<AchievementDef>, filter: AchievementFilter, i: int) -> bool {
    match filter {
        AchievementFilter::All => true,
        AchievementFilter::Category(c) => defs[i].category == c,
    }
}

/// The display order: by `order`, and among equal orders by position in the
/// definition table (a stable sort).
pub open spec fn shown_before(defs: Seq<AchievementDef>, a: int, b: int) -> bool {
    defs[a].order < defs[b].order || (defs[a].order == defs[b].order && a < b)
}

/// `res` lists exactly the listed definitions, each once, in display order.
pub open spec fn is_display_order(defs: Seq<AchievementDef>, filter: AchievementFilter, res: Seq<usize>) -> bool {
    &&& forall|k: int| 0 <= k < res.len() ==> #[trigger] res[k] < defs.len() && listed(defs, filter, res[k] as int)
    &&& forall|i: int| 0 <= i < defs.len() && listed(defs, filter, i) ==> res.contains(i as usize)
    &&& forall|a: int, b: int| 0 <= a < b < res.len() ==> shown_before(defs, #[trigger] res[a] as int, #[trigger] res[b] as int)
}

/// The positions in `defs` of the achievements a tab lists, in display order.
pub fn display_order(defs: &Vec<AchievementDef>, filter: AchievementFilter) -> (res: Vec<usize>)
    ensures
        is_display_order(defs@, filter, res@),
{
    let mut res: Vec<usize> = Vec::new();
    let mut i: usize = 0;
    while i < defs.len()
        invariant
            i <= defs.len(),
            forall|k: int| 0 <= k < res.len() ==> #[trigger] res@[k] < i && listed(defs@, filter, res@[k] as int),
            forall|j: int| 0 <= j < i && listed(defs@, filter, j) ==> res@.contains(j as usize),
            forall|a: int, b: int| 0 <= a < b < res.len() ==> shown_before(defs@, #[trigger] res@[a] as int, #[trigger] res@[b] as int),
        decreases defs.len() - i,
    {
        let keep = match filter {
            AchievementFilter::All => true,
            AchievementFilter::Category(c) => defs[i].category == c,
        };
        if keep {
            let key = defs[i].order;
            let mut p: usize = 0;
            while p < res.len() && defs[res[p]].order <= key
                invariant
                    p <= res.len(),
                    i < defs.len(),
                    key == defs@[i as int].order,
                    forall|k: int| 0 <= k < res.len() ==> #[trigger] res@[k] < i,
                    forall|q: int| 0 <= q < p ==> defs@[#[trigger] res@[q] as int].order <= key,
                decreases res.len() - p,
            {
                p = p + 1;
            }
            let ghost old_res = res@;
            proof {
                assert forall|q: int| p <= q < old_res.len() implies defs@[#[trigger] old_res[q] as int].order > key by {
                    if q > p {
                        assert(shown_before(defs@, old_res[p as int] as int, old_res[q] as int));
                    }
                }
            }
            res.insert(p, i);
            proof {
                assert(res@ =~= old_res.subrange(0, p as int).push(i).add(old_res.subrange(p as int, old_res.len() as int)));
                assert forall|a: int, b: int| 0 <= a < b < res.len() implies shown_before(defs@, #[trigger] res@[a] as int, #[trigger] res@[b] as int) by {
                    if b < p {
                        assert(res@[a] == old_res[a] && res@[b] == old_res[b]);
                    } else if b == p {
                        assert(res@[a] == old_res[a]);
                    } else if a == p {
                        assert(res@[b] == old_res[b - 1]);
                    } else if a < p {
                        assert(res@[a] == old_res[a] && res@[b] == old_res[b - 1]);
                    } else {
                        assert(res@[a] == old_res[a - 1] && res@[b] == old_res[b - 1]);
                    }
                }
                assert forall|j: int| 0 <= j < i + 1 && listed(defs@, filter, j) implies res@.contains(j as usize) by {
                    if j == i {
                        assert(res@[p as int] == i);
                    } else {
                        assert(old_res.contains(j as usize));
                        let k = choose|k: int| 0 <= k < old_res.len() && old_res[k] == j as usize;
                        if k < p {
                            assert(res@[k] == j as usize);
                        } else {
                            assert(res@[k + 1] == j as usize);
                        }
                    }
                }
                assert forall|k: int| 0 <= k < res.len() implies #[trigger] res@[k] < i + 1 && listed(defs@, filter, res@[k] as int) by {
                    if k < p {
                        assert(res@[k] == old_res[k]);
                    } else if k > p {
                        assert(res@[k] == old_res[k - 1]);
                    }
                }
            }
        }
        i = i + 1;
    }
    res
}

} // verus!
