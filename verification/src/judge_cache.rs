use vstd::prelude::*;

verus! {

/// The four kinds of notes, without their timing.
#[derive(Clone, Copy, Debug, PartialEq, Eq, Structural)]
pub enum NoteShape {
    Hold,
    Drag,
    Click,
    Flick,
}

impl NoteShape {
    /// The batch a note of this kind is drawn in: holds first, then drags,
    /// clicks and flicks.
    pub fn order(&self) -> (res: i8)
        ensures
            res == match self {
                NoteShape::Hold => 0i8,
                NoteShape::Drag => 1i8,
                NoteShape::Click => 2i8,
                NoteShape::Flick => 3i8,
            },
    {
        match self {
            NoteShape::Hold => 0,
            NoteShape::Drag => 1,
            NoteShape::Click => 2,
            NoteShape::Flick => 3,
        }
    }
}

/// `x * y` modulo 2^64.
pub open spec fn mul_mod64(x: u64, y: u64) -> u64 {
    ((x as nat * y as nat) % 0x1_0000_0000_0000_0000nat) as u64
}

/// The 32-bit hash of a note's time and height bits from which the
/// random-position modifier takes its horizontal jitter: the bits xored with
/// a constant, mixed by two multiply-xorshift rounds, high half kept.
pub open spec fn jitter_hash(time_bits: u64, height_bits: u64) -> u32 {
    let z0 = time_bits ^ height_bits ^ 0x9E37_79B9_7F4A_7C15u64;
    let z1 = mul_mod64(z0 ^ (z0 >> 30u64), 0xBF58_476D_1CE4_E5B9u64);
    let z2 = mul_mod64(z1 ^ (z1 >> 27u64), 0x94D0_49BB_1331_11EBu64);
    let z3 = z2 ^ (z2 >> 31u64);
    (z3 >> 32u64) as u32
}

/// The jitter hash of a note's time and height bits.
pub fn x_jitter_bits(time_bits: u64, height_bits: u64) -> (res: u32)
    ensures
        res == jitter_hash(time_bits, height_bits),
{
    let mut z: u64 = time_bits ^ height_bits ^ 0x9E37_79B9_7F4A_7C15u64;
    z = z ^ (z >> 30u64);
    z = z.wrapping_mul(0xBF58_476D_1CE4_E5B9u64);
    z = z ^ (z >> 27u64);
    z = z.wrapping_mul(0x94D0_49BB_1331_11EBu64);
    z = z ^ (z >> 31u64);
    proof {
        assert((z >> 32u64) <= 0xffff_ffffu64) by (bit_vector);
    }
    (z >> 32u64) as u32
}

/// Whether a note is plain, drawn without special handling: a real note that
/// is not a hold and whose vertical offset has at most one keyframe.
pub fn is_plain(fake: bool, shape: NoteShape, offset_keyframes: usize) -> (res: bool)
    ensures
        res == (!fake && shape != NoteShape::Hold && offset_keyframes <= 1),
{
    !fake && shape != NoteShape::Hold && offset_keyframes <= 1
}

/// What the per-line note cache reads of a note: whether it is plain
/// (drawn without special handling), whether it is above the line, and its
/// speed class (notes with equal speeds share a class).
#[derive(Clone, Copy, Debug, PartialEq, Eq, Structural)]
pub struct NoteKey {
    pub plain: bool,
    pub above: bool,
    pub speed_class: u32,
}

/// Where a note goes in the drawing order: non-plain notes first, then
/// plain notes above the line, then plain notes below it.
pub open spec fn cache_rank(n: NoteKey) -> int {
    if !n.plain {
        0
    } else if n.above {
        1
    } else {
        2
    }
}

/// The notes are in drawing order.
pub open spec fn in_cache_order(notes: Seq<NoteKey>) -> bool {
    forall|i: int, j: int| 0 <= i < j < notes.len() ==> cache_rank(#[trigger] notes[i]) <= cache_rank(#[trigger] notes[j])
}

/// The first index in `[lo, n)` whose note is plain, or `n`.
pub open spec fn first_plain(notes: Seq<NoteKey>, lo: int) -> int
    decreases notes.len() - lo,
{
    if lo >= notes.len() {
        notes.len() as int
    } else if notes[lo].plain {
        lo
    } else {
        first_plain(notes, lo + 1)
    }
}

/// The end of the run of notes above the line that starts at `lo`.
pub open spec fn above_run_end(notes: Seq<NoteKey>, lo: int) -> int
    decreases notes.len() - lo,
{
    if lo >= notes.len() || !notes[lo].above {
        if lo >= notes.len() { notes.len() as int } else { lo }
    } else {
        above_run_end(notes, lo + 1)
    }
}

/// The indices in `[lo, hi)` that start a group of equal speed.
pub open spec fn group_starts(notes: Seq<NoteKey>, lo: int, hi: int) -> Seq<usize>
    decreases hi - lo,
{
    if hi <= lo {
        Seq::empty()
    } else {
        let prev = group_starts(notes, lo, hi - 1);
        let i = hi - 1;
        if i == lo || notes[i].speed_class != notes[i - 1].speed_class {
            prev.push(i as usize)
        } else {
            prev
        }
    }
}

/// The cached note order and group starts of one judge line.
pub struct JudgeLineCache {
    pub update_order: Vec<u32>,
    pub not_plain_count: usize,
    pub above_indices: Vec<usize>,
    pub below_indices: Vec<usize>,
}

/// Where a group start moves after judged notes: past judged notes of the
/// same group (same speed, and for groups above the line, above the line);
/// `None` once the group is used up.
pub open spec fn advanced(notes: Seq<NoteKey>, judged: Seq<bool>, above_group: bool, idx: int) -> Option<usize>
    decreases notes.len() - idx,
{
    if idx < 0 || idx >= notes.len() || !judged[idx] {
        Some(idx as usize)
    } else if idx + 1 < notes.len() && (!above_group || notes[idx + 1].above) && notes[idx + 1].speed_class
        == notes[idx].speed_class {
        advanced(notes, judged, above_group, idx + 1)
    } else {
        None
    }
}

/// The group starts after advancing each one, dropping used-up groups.
pub open spec fn advanced_list(notes: Seq<NoteKey>, judged: Seq<bool>, above_group: bool, list: Seq<usize>) -> Seq<usize>
    decreases list.len(),
{
    if list.len() == 0 {
        Seq::empty()
    } else {
        let prev = advanced_list(notes, judged, above_group, list.drop_last());
        match advanced(notes, judged, above_group, list.last() as int) {
            Some(i) => prev.push(i),
            None => prev,
        }
    }
}

/// The ids kept after dropping the notes that are dead.
pub open spec fn alive_ids(ids: Seq<u32>, dead: Seq<bool>) -> Seq<u32>
    decreases ids.len(),
{
    if ids.len() == 0 {
        Seq::empty()
    } else {
        let prev = alive_ids(ids.drop_last(), dead);
        if dead[ids.last() as int] {
            prev
        } else {
            prev.push(ids.last())
        }
    }
}

fn group_starts_exec(notes: &Vec<NoteKey>, lo: usize, hi: usize, out: &mut Vec<usize>)
    requires
        lo <= hi <= notes@.len(),
    ensures
        final(out)@ == old(out)@ + group_starts(notes@, lo as int, hi as int),
{
    let mut i: usize = lo;
    let ghost base = out@;
    while i < hi
        invariant
            lo <= i <= hi <= notes@.len(),
            out@ == base + group_starts(notes@, lo as int, i as int),
        decreases hi - i,
    {
        if i == lo || notes[i].speed_class != notes[i - 1].speed_class {
            out.push(i);
        }
        i = i + 1;
    }
}

proof fn lemma_first_plain_splits(notes: Seq<NoteKey>, lo: int)
    requires
        0 <= lo <= notes.len(),
        in_cache_order(notes),
        forall|i: int| 0 <= i < lo ==> !(#[trigger] notes[i]).plain,
    ensures
        forall|i: int| 0 <= i < notes.len() ==> (#[trigger] notes[i].plain <==> i >= first_plain(notes, lo)),
    decreases notes.len() - lo,
{
    if lo < notes.len() && !notes[lo].plain {
        lemma_first_plain_splits(notes, lo + 1);
    } else if lo < notes.len() {
        assert forall|i: int| 0 <= i < notes.len() implies (#[trigger] notes[i].plain <==> i >= lo) by {
            if i > lo {
                assert(cache_rank(notes[lo]) <= cache_rank(notes[i]));
            }
        }
    }
}

impl JudgeLineCache {
    /// An empty cache.
    pub fn empty() -> (res: JudgeLineCache)
        ensures
            res.update_order@.len() == 0,
            res.not_plain_count == 0,
            res.above_indices@.len() == 0,
            res.below_indices@.len() == 0,
    {
        JudgeLineCache {
            update_order: Vec::new(),
            not_plain_count: 0,
            above_indices: Vec::new(),
            below_indices: Vec::new(),
        }
    }

    /// Rebuilds the cache for notes in drawing order (the non-plain notes
    /// first, then the plain notes above the line, then those below it):
    /// every note is updated; the non-plain notes are counted; then come the
    /// groups of equal speed among the plain notes above the line, then those
    /// after them.
    pub fn reset(&mut self, notes: &Vec<NoteKey>)
        requires
            notes@.len() <= u32::MAX,
            in_cache_order(notes@),
        ensures
            forall|i: int| 0 <= i < notes@.len() ==> (#[trigger] notes@[i].plain <==> i >= final(self).not_plain_count),
            final(self).update_order@ == Seq::new(notes@.len(), |i: int| i as u32),
            final(self).not_plain_count == first_plain(notes@, 0),
            final(self).above_indices@ == group_starts(notes@, first_plain(notes@, 0), above_run_end(notes@, first_plain(notes@, 0))),
            final(self).below_indices@ == group_starts(notes@, above_run_end(notes@, first_plain(notes@, 0)), notes@.len() as int),
    {
        let n = notes.len();
        let mut order: Vec<u32> = Vec::new();
        let mut k: usize = 0;
        while k < n
            invariant
                n == notes@.len(),
                n <= u32::MAX,
                k <= n,
                order@ == Seq::new(k as nat, |i: int| i as u32),
            decreases n - k,
        {
            order.push(k as u32);
            k = k + 1;
            assert(order@ =~= Seq::new(k as nat, |i: int| i as u32));
        }
        self.update_order = order;
        let mut p: usize = 0;
        while p < n && !notes[p].plain
            invariant
                n == notes@.len(),
                p <= n,
                first_plain(notes@, 0) == first_plain(notes@, p as int),
            decreases n - p,
        {
            p = p + 1;
        }
        self.not_plain_count = p;
        proof {
            lemma_first_plain_splits(notes@, 0);
        }
        let mut a: usize = p;
        while a < n && notes[a].above
            invariant
                n == notes@.len(),
                p <= a <= n,
                above_run_end(notes@, p as int) == above_run_end(notes@, a as int),
            decreases n - a,
        {
            a = a + 1;
        }
        let mut above: Vec<usize> = Vec::new();
        group_starts_exec(notes, p, a, &mut above);
        let mut below: Vec<usize> = Vec::new();
        group_starts_exec(notes, a, n, &mut below);
        self.above_indices = above;
        self.below_indices = below;
    }

    /// Drops the ids of the notes that are dead after their update.
    pub fn retain_alive(&mut self, dead: &Vec<bool>)
        requires
            forall|k: int| 0 <= k < old(self).update_order@.len() ==> (#[trigger] old(self).update_order@[k] as int) < dead@.len(),
        ensures
            final(self).update_order@ == alive_ids(old(self).update_order@, dead@),
            final(self).not_plain_count == old(self).not_plain_count,
            final(self).above_indices@ == old(self).above_indices@,
            final(self).below_indices@ == old(self).below_indices@,
    {
        let ids = &self.update_order;
        let mut kept: Vec<u32> = Vec::new();
        let mut i: usize = 0;
        while i < ids.len()
            invariant
                i <= ids@.len(),
                forall|k: int| 0 <= k < ids@.len() ==> (#[trigger] ids@[k] as int) < dead@.len(),
                kept@ == alive_ids(ids@.subrange(0, i as int), dead@),
            decreases ids@.len() - i,
        {
            proof {
                assert(ids@.subrange(0, i + 1).drop_last() == ids@.subrange(0, i as int));
            }
            let id = ids[i];
            if !dead[id as usize] {
                kept.push(id);
            }
            i = i + 1;
        }
        assert(ids@.subrange(0, ids@.len() as int) == ids@);
        self.update_order = kept;
    }

    /// Moves every group start past its judged notes and drops used-up
    /// groups, for the groups above the line and those below.
    pub fn advance_groups(&mut self, notes: &Vec<NoteKey>, judged: &Vec<bool>)
        requires
            judged@.len() == notes@.len(),
            forall|k: int| 0 <= k < old(self).above_indices@.len() ==> #[trigger] old(self).above_indices@[k] < notes@.len(),
            forall|k: int| 0 <= k < old(self).below_indices@.len() ==> #[trigger] old(self).below_indices@[k] < notes@.len(),
        ensures
            final(self).above_indices@ == advanced_list(notes@, judged@, true, old(self).above_indices@),
            final(self).below_indices@ == advanced_list(notes@, judged@, false, old(self).below_indices@),
            final(self).update_order@ == old(self).update_order@,
            final(self).not_plain_count == old(self).not_plain_count,
    {
        let above = advance_list(notes, judged, true, &self.above_indices);
        let below = advance_list(notes, judged, false, &self.below_indices);
        self.above_indices = above;
        self.below_indices = below;
    }

    /// The ids of the notes still alive, in update order.
    pub fn active_ids(&self) -> (res: &Vec<u32>)
        ensures
            res@ == self.update_order@,
    {
        &self.update_order
    }
}

fn advance_one(notes: &Vec<NoteKey>, judged: &Vec<bool>, above_group: bool, start: usize) -> (res: Option<usize>)
    requires
        judged@.len() == notes@.len(),
        start < notes@.len(),
    ensures
        res == advanced(notes@, judged@, above_group, start as int),
{
    let n = notes.len();
    let mut idx = start;
    while judged[idx]
        invariant
            n == notes@.len(),
            judged@.len() == n,
            idx < n,
            advanced(notes@, judged@, above_group, start as int) == advanced(notes@, judged@, above_group, idx as int),
        decreases n - idx,
    {
        if idx + 1 < n && (!above_group || notes[idx + 1].above) && notes[idx + 1].speed_class == notes[idx].speed_class {
            idx = idx + 1;
        } else {
            return None;
        }
    }
    Some(idx)
}

fn advance_list(notes: &Vec<NoteKey>, judged: &Vec<bool>, above_group: bool, list: &Vec<usize>) -> (res: Vec<usize>)
    requires
        judged@.len() == notes@.len(),
        forall|k: int| 0 <= k < list@.len() ==> #[trigger] list@[k] < notes@.len(),
    ensures
        res@ == advanced_list(notes@, judged@, above_group, list@),
{
    let mut out: Vec<usize> = Vec::new();
    let mut i: usize = 0;
    while i < list.len()
        invariant
            judged@.len() == notes@.len(),
            forall|k: int| 0 <= k < list@.len() ==> #[trigger] list@[k] < notes@.len(),
            i <= list@.len(),
            out@ == advanced_list(notes@, judged@, above_group, list@.subrange(0, i as int)),
        decreases list@.len() - i,
    {
        proof {
            assert(list@.subrange(0, i + 1).drop_last() == list@.subrange(0, i as int));
        }
        match advance_one(notes, judged, above_group, list[i]) {
            Some(j) => out.push(j),
            None => {},
        }
        i = i + 1;
    }
    assert(list@.subrange(0, list@.len() as int) == list@);
    out
}

proof fn lemma_first_plain_bounds(notes: Seq<NoteKey>, lo: int)
    requires
        0 <= lo <= notes.len(),
    ensures
        lo <= first_plain(notes, lo) <= notes.len(),
    decreases notes.len() - lo,
{
    if lo < notes.len() && !notes[lo].plain {
        lemma_first_plain_bounds(notes, lo + 1);
    }
}

proof fn lemma_above_run_end_bounds(notes: Seq<NoteKey>, lo: int)
    requires
        0 <= lo <= notes.len(),
    ensures
        lo <= above_run_end(notes, lo) <= notes.len(),
    decreases notes.len() - lo,
{
    if lo < notes.len() && notes[lo].above {
        lemma_above_run_end_bounds(notes, lo + 1);
    }
}

proof fn lemma_group_starts_in_range(notes: Seq<NoteKey>, lo: int, hi: int)
    requires
        0 <= lo,
        hi <= notes.len() <= usize::MAX,
    ensures
        forall|k: int| 0 <= k < group_starts(notes, lo, hi).len() ==> lo <= #[trigger] group_starts(notes, lo, hi)[k] < hi,
    decreases hi - lo,
{
    if hi > lo {
        lemma_group_starts_in_range(notes, lo, hi - 1);
        let prev = group_starts(notes, lo, hi - 1);
        let i = hi - 1;
        assert((i as usize) as int == i);
        if i == lo || notes[i].speed_class != notes[i - 1].speed_class {
            assert(group_starts(notes, lo, hi) == prev.push(i as usize));
        } else {
            assert(group_starts(notes, lo, hi) == prev);
        }
    }
}

proof fn lemma_advanced_in_range(notes: Seq<NoteKey>, judged: Seq<bool>, above_group: bool, idx: int)
    requires
        0 <= idx < notes.len(),
        notes.len() <= usize::MAX,
    ensures
        advanced(notes, judged, above_group, idx) matches Some(j) ==> idx <= j < notes.len(),
    decreases notes.len() - idx,
{
    if judged[idx] && idx + 1 < notes.len() && (!above_group || notes[idx + 1].above) && notes[idx + 1].speed_class
        == notes[idx].speed_class {
        lemma_advanced_in_range(notes, judged, above_group, idx + 1);
    }
}

proof fn lemma_advanced_list_in_range(notes: Seq<NoteKey>, judged: Seq<bool>, above_group: bool, list: Seq<usize>)
    requires
        notes.len() <= usize::MAX,
        forall|k: int| 0 <= k < list.len() ==> #[trigger] list[k] < notes.len(),
    ensures
        forall|k: int| 0 <= k < advanced_list(notes, judged, above_group, list).len() ==> #[trigger] advanced_list(
            notes,
            judged,
            above_group,
            list,
        )[k] < notes.len(),
    decreases list.len(),
{
    if list.len() > 0 {
        let prefix = list.drop_last();
        assert forall|k: int| 0 <= k < prefix.len() implies #[trigger] prefix[k] < notes.len() by {
            assert(prefix[k] == list[k]);
        }
        lemma_advanced_list_in_range(notes, judged, above_group, prefix);
        lemma_advanced_in_range(notes, judged, above_group, list.last() as int);
        let prev = advanced_list(notes, judged, above_group, prefix);
        match advanced(notes, judged, above_group, list.last() as int) {
            Some(i) => {
                assert(advanced_list(notes, judged, above_group, list) == prev.push(i));
            },
            None => {
                assert(advanced_list(notes, judged, above_group, list) == prev);
            },
        }
    }
}

/// The group starts that a reset records lie within the notes, and advancing
/// them past judged notes, any number of times, keeps them there: the cache
/// never points past the line's notes.
pub proof fn law_group_starts_stay_in_range(notes: Seq<NoteKey>, judged: Seq<bool>, starts: Seq<usize>)
    requires
        notes.len() <= usize::MAX,
        forall|k: int| 0 <= k < starts.len() ==> #[trigger] starts[k] < notes.len(),
    ensures
        ({
            let p = first_plain(notes, 0);
            let q = above_run_end(notes, p);
            &&& forall|k: int| 0 <= k < group_starts(notes, p, q).len() ==> #[trigger] group_starts(notes, p, q)[k] < notes.len()
            &&& forall|k: int| 0 <= k < group_starts(notes, q, notes.len() as int).len() ==> #[trigger] group_starts(notes, q, notes.len() as int)[k] < notes.len()
        }),
        forall|k: int| 0 <= k < advanced_list(notes, judged, true, starts).len() ==> #[trigger] advanced_list(
            notes,
            judged,
            true,
            starts,
        )[k] < notes.len(),
        forall|k: int| 0 <= k < advanced_list(notes, judged, false, starts).len() ==> #[trigger] advanced_list(
            notes,
            judged,
            false,
            starts,
        )[k] < notes.len(),
{
    let p = first_plain(notes, 0);
    lemma_first_plain_bounds(notes, 0);
    let q = above_run_end(notes, p);
    lemma_above_run_end_bounds(notes, p);
    lemma_group_starts_in_range(notes, p, q);
    lemma_group_starts_in_range(notes, q, notes.len() as int);
    lemma_advanced_list_in_range(notes, judged, true, starts);
    lemma_advanced_list_in_range(notes, judged, false, starts);
}

} // verus!
