use vstd::prelude::*;
use crate::judge_cache::NoteKey;

verus! {

/// How a judge line with a negative alpha is drawn, when the alpha extension
/// is on, by the whole part `w` of minus the alpha.
#[derive(Clone, Copy, Debug, PartialEq, Eq, Structural)]
pub enum LineVisibility {
    /// The line's notes are drawn as usual.
    Normal,
    /// None of the line's notes is drawn.
    Hidden,
    /// Notes below the line are not drawn.
    NoBelow,
    /// Notes appear only this many tenths of a second before their time.
    AppearBefore(u32),
}

/// The visibility of a line's notes: a non-negative alpha draws them as
/// usual; a negative alpha hides them unless the alpha extension is on, in
/// which case `w` = 1 hides them, `w` = 2 hides the notes below the line,
/// `w` in 100..1000 lets notes appear `w - 100` tenths of a second early, and
/// any other `w` draws them as usual.
pub fn line_visibility(negative_alpha: bool, extension: bool, w: u32) -> (res: LineVisibility)
    ensures
        res == (if !negative_alpha {
            LineVisibility::Normal
        } else if !extension || w == 1 {
            LineVisibility::Hidden
        } else if w == 2 {
            LineVisibility::NoBelow
        } else if 100 <= w < 1000 {
            LineVisibility::AppearBefore((w - 100) as u32)
        } else {
            LineVisibility::Normal
        }),
{
    if !negative_alpha {
        LineVisibility::Normal
    } else if !extension || w == 1 {
        LineVisibility::Hidden
    } else if w == 2 {
        LineVisibility::NoBelow
    } else if 100 <= w && w < 1000 {
        LineVisibility::AppearBefore(w - 100)
    } else {
        LineVisibility::Normal
    }
}

/// Whether note `j` is culled on the given side: culling is on and the note
/// lies beyond the visible area on that side (`off[j].0` above the line,
/// `off[j].1` below it).
pub open spec fn culled(off: Seq<(bool, bool)>, cull: bool, upper: bool, j: int) -> bool {
    cull && (if upper { off[j].0 } else { off[j].1 })
}

/// The notes among the first `k` that are drawn one by one on the given
/// side: those on that side of the line that are not culled, in index order.
pub open spec fn loose_notes(notes: Seq<NoteKey>, off: Seq<(bool, bool)>, cull: bool, upper: bool, k: int) -> Seq<usize>
    decreases k,
{
    if k <= 0 {
        Seq::empty()
    } else {
        let prev = loose_notes(notes, off, cull, upper, k - 1);
        let j = k - 1;
        if notes[j].above == upper && !culled(off, cull, upper, j) {
            prev.push(j as usize)
        } else {
            prev
        }
    }
}

/// A group's run stops at note `j`: on the upper side at a note below the
/// line, at a note of another speed, or at a culled note.
pub open spec fn run_stops(notes: Seq<NoteKey>, off: Seq<(bool, bool)>, cull: bool, upper: bool, start: int, j: int) -> bool {
    (upper && !notes[j].above) || notes[j].speed_class != notes[start].speed_class || culled(off, cull, upper, j)
}

/// Where the run of the group starting at `start`, scanned from `j`, ends.
pub open spec fn run_end(notes: Seq<NoteKey>, off: Seq<(bool, bool)>, cull: bool, upper: bool, start: int, j: int) -> int
    decreases notes.len() - j,
{
    if j >= notes.len() || run_stops(notes, off, cull, upper, start, j) {
        j
    } else {
        run_end(notes, off, cull, upper, start, j + 1)
    }
}

/// The indices from `a` up to `b`.
pub open spec fn index_range(a: int, b: int) -> Seq<usize> {
    Seq::new(if b > a { (b - a) as nat } else { 0 }, |i: int| (a + i) as usize)
}

/// The notes drawn for the groups starting at `starts`, group after group,
/// each from its start up to where its run ends.
pub open spec fn group_runs(notes: Seq<NoteKey>, off: Seq<(bool, bool)>, cull: bool, upper: bool, starts: Seq<usize>) -> Seq<usize>
    decreases starts.len(),
{
    if starts.len() == 0 {
        Seq::empty()
    } else {
        let s = starts.last() as int;
        group_runs(notes, off, cull, upper, starts.drop_last()) + index_range(s, run_end(notes, off, cull, upper, s, s))
    }
}

/// The notes drawn on one side of a line, in drawing order: first the
/// special (non-plain) notes of that side, then each group's run.
pub open spec fn side_order(
    notes: Seq<NoteKey>,
    off: Seq<(bool, bool)>,
    cull: bool,
    upper: bool,
    not_plain_count: int,
    starts: Seq<usize>,
) -> Seq<usize> {
    loose_notes(notes, off, cull, upper, not_plain_count) + group_runs(notes, off, cull, upper, starts)
}

proof fn lemma_run_end_from(notes: Seq<NoteKey>, off: Seq<(bool, bool)>, cull: bool, upper: bool, start: int, j: int)
    requires
        start <= j,
        j < notes.len(),
        !run_stops(notes, off, cull, upper, start, j),
    ensures
        run_end(notes, off, cull, upper, start, j) == run_end(notes, off, cull, upper, start, j + 1),
{
}

fn stops_at(notes: &Vec<NoteKey>, off: &Vec<(bool, bool)>, cull: bool, upper: bool, start: usize, j: usize) -> (res: bool)
    requires
        start < notes@.len(),
        j < notes@.len(),
        off@.len() == notes@.len(),
    ensures
        res == run_stops(notes@, off@, cull, upper, start as int, j as int),
{
    let beyond = if upper { off[j].0 } else { off[j].1 };
    (upper && !notes[j].above) || notes[j].speed_class != notes[start].speed_class || (cull && beyond)
}

/// Appends the run of the group starting at `start`.
fn push_run(notes: &Vec<NoteKey>, off: &Vec<(bool, bool)>, cull: bool, upper: bool, start: usize, out: &mut Vec<usize>)
    requires
        start < notes@.len(),
        off@.len() == notes@.len(),
    ensures
        final(out)@ == old(out)@ + index_range(start as int, run_end(notes@, off@, cull, upper, start as int, start as int)),
{
    let ghost base = out@;
    let mut j: usize = start;
    proof {
        assert(index_range(start as int, start as int) =~= Seq::<usize>::empty());
        assert(base + Seq::<usize>::empty() =~= base);
    }
    while j < notes.len() && !stops_at(notes, off, cull, upper, start, j)
        invariant
            start <= j <= notes@.len(),
            start < notes@.len(),
            off@.len() == notes@.len(),
            run_end(notes@, off@, cull, upper, start as int, j as int) == run_end(notes@, off@, cull, upper, start as int, start as int),
            out@ == base + index_range(start as int, j as int),
        decreases notes@.len() - j,
    {
        proof {
            lemma_run_end_from(notes@, off@, cull, upper, start as int, j as int);
        }
        out.push(j);
        j = j + 1;
        proof {
            assert(index_range(start as int, j as int) =~= index_range(start as int, j - 1).push((j - 1) as usize));
            assert(out@ =~= base + index_range(start as int, j as int));
        }
    }
    proof {
        assert(run_end(notes@, off@, cull, upper, start as int, j as int) == j as int);
    }
}

/// The notes of one side of a line, in drawing order.
fn side_pass(
    notes: &Vec<NoteKey>,
    off: &Vec<(bool, bool)>,
    cull: bool,
    upper: bool,
    not_plain_count: usize,
    starts: &Vec<usize>,
) -> (res: Vec<usize>)
    requires
        not_plain_count <= notes@.len(),
        off@.len() == notes@.len(),
        forall|k: int| 0 <= k < starts@.len() ==> #[trigger] starts@[k] < notes@.len(),
    ensures
        res@ == side_order(notes@, off@, cull, upper, not_plain_count as int, starts@),
{
    let mut out: Vec<usize> = Vec::new();
    let mut i: usize = 0;
    while i < not_plain_count
        invariant
            i <= not_plain_count <= notes@.len(),
            off@.len() == notes@.len(),
            out@ == loose_notes(notes@, off@, cull, upper, i as int),
        decreases not_plain_count - i,
    {
        let beyond = if upper { off[i].0 } else { off[i].1 };
        if notes[i].above == upper && !(cull && beyond) {
            out.push(i);
        }
        i = i + 1;
    }
    let ghost loose = out@;
    let mut g: usize = 0;
    proof {
        assert(starts@.subrange(0, 0) =~= Seq::<usize>::empty());
        assert(loose + Seq::<usize>::empty() =~= loose);
    }
    while g < starts.len()
        invariant
            g <= starts@.len(),
            off@.len() == notes@.len(),
            forall|k: int| 0 <= k < starts@.len() ==> #[trigger] starts@[k] < notes@.len(),
            out@ == loose + group_runs(notes@, off@, cull, upper, starts@.subrange(0, g as int)),
        decreases starts@.len() - g,
    {
        let ghost before = out@;
        push_run(notes, off, cull, upper, starts[g], &mut out);
        g = g + 1;
        proof {
            let sub = starts@.subrange(0, g as int);
            assert(sub.drop_last() =~= starts@.subrange(0, g - 1));
            assert(sub.last() == starts@[g - 1]);
            assert(out@ =~= loose + group_runs(notes@, off@, cull, upper, sub));
        }
    }
    proof {
        assert(starts@.subrange(0, starts@.len() as int) =~= starts@);
    }
    out
}

/// The notes of a judge line in drawing order, above the line and below it:
/// on each side first its special notes that are not culled, then for each
/// group start the notes of that group from its start on, up to the first
/// note that leaves the group (another speed, or below the line for groups
/// above it) or is culled.
pub fn line_draw_order(
    notes: &Vec<NoteKey>,
    off: &Vec<(bool, bool)>,
    cull: bool,
    not_plain_count: usize,
    above_starts: &Vec<usize>,
    below_starts: &Vec<usize>,
) -> (res: (Vec<usize>, Vec<usize>))
    requires
        not_plain_count <= notes@.len(),
        off@.len() == notes@.len(),
        forall|k: int| 0 <= k < above_starts@.len() ==> #[trigger] above_starts@[k] < notes@.len(),
        forall|k: int| 0 <= k < below_starts@.len() ==> #[trigger] below_starts@[k] < notes@.len(),
    ensures
        res.0@ == side_order(notes@, off@, cull, true, not_plain_count as int, above_starts@),
        res.1@ == side_order(notes@, off@, cull, false, not_plain_count as int, below_starts@),
{
    let upper = side_pass(notes, off, cull, true, not_plain_count, above_starts);
    let lower = side_pass(notes, off, cull, false, not_plain_count, below_starts);
    (upper, lower)
}

} // verus!
