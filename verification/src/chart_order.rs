use vstd::prelude::*;

verus! {

/// A heads-up element that a judge line can carry along.
#[derive(Clone, Copy, Debug, PartialEq, Eq, Structural)]
pub enum UIElement {
    Pause,
    ComboNumber,
    Combo,
    Score,
    Bar,
    Name,
    Level,
}

/// The element's number in chart files (1 to 7).
pub open spec fn element_code(e: UIElement) -> int {
    match e {
        UIElement::Pause => 1,
        UIElement::ComboNumber => 2,
        UIElement::Combo => 3,
        UIElement::Score => 4,
        UIElement::Bar => 5,
        UIElement::Name => 6,
        UIElement::Level => 7,
    }
}

impl UIElement {
    /// The element numbered `val` in chart files, if any.
    pub fn from_u8(val: u8) -> (res: Option<UIElement>)
        ensures
            match res {
                Some(e) => element_code(e) == val,
                None => val < 1 || val > 7,
            },
    {
        match val {
            1 => Some(UIElement::Pause),
            2 => Some(UIElement::ComboNumber),
            3 => Some(UIElement::Combo),
            4 => Some(UIElement::Score),
            5 => Some(UIElement::Bar),
            6 => Some(UIElement::Name),
            7 => Some(UIElement::Level),
            _ => None,
        }
    }

    /// The element's number in chart files.
    pub fn code(&self) -> (res: u8)
        ensures
            res == element_code(*self),
    {
        match self {
            UIElement::Pause => 1,
            UIElement::ComboNumber => 2,
            UIElement::Combo => 3,
            UIElement::Score => 4,
            UIElement::Bar => 5,
            UIElement::Name => 6,
            UIElement::Level => 7,
        }
    }
}

/// What the drawing order of a chart's lines depends on.
#[derive(Clone, Copy)]
pub struct LineMeta {
    pub z_index: i32,
    pub attach_ui: Option<UIElement>,
}

/// Line `p` is drawn before line `q`: lower z-index first, then lower index.
pub open spec fn draws_before(lines: Seq<LineMeta>, p: int, q: int) -> bool {
    lines[p].z_index < lines[q].z_index || (lines[p].z_index == lines[q].z_index && p < q)
}

/// `order` lists lines strictly in drawing order.
pub open spec fn in_draw_order(lines: Seq<LineMeta>, order: Seq<usize>) -> bool {
    forall|a: int, b: int| 0 <= a < b < order.len() ==> draws_before(lines, order[a] as int, order[b] as int)
}

/// The line that carries element slot `k` (0 to 6): the last one that names
/// it.
pub open spec fn carrier(lines: Seq<LineMeta>, k: int, res: Option<usize>) -> bool {
    match res {
        Some(i) => {
            &&& i < lines.len()
            &&& lines[i as int].attach_ui matches Some(e) && element_code(e) == k + 1
            &&& forall|j: int| i < j < lines.len() ==> !(#[trigger] lines[j].attach_ui matches Some(e) && element_code(e) == k + 1)
        },
        None => forall|j: int| 0 <= j < lines.len() ==> !(#[trigger] lines[j].attach_ui matches Some(e) && element_code(e) == k + 1),
    }
}

/// The drawing order of the lines that carry no heads-up element (sorted by
/// z-index, ties by index), and for each element the line that carries it.
pub fn line_order(lines: &Vec<LineMeta>) -> (res: (Vec<usize>, [Option<usize>; 7]))
    ensures
        in_draw_order(lines@, res.0@),
        forall|i: int| 0 <= i < lines@.len() ==> (lines@[i].attach_ui is None <==> res.0@.contains(i as usize)),
        forall|k: int| 0 <= k < res.0@.len() ==> res.0@[k] < lines@.len(),
        forall|k: int| 0 <= k < 7 ==> carrier(lines@, k, #[trigger] res.1@[k]),
{
    let mut attach: [Option<usize>; 7] = [None, None, None, None, None, None, None];
    let mut order: Vec<usize> = Vec::new();
    let n = lines.len();
    let mut i: usize = 0;
    while i < n
        invariant
            n == lines@.len(),
            i <= n,
            in_draw_order(lines@, order@),
            forall|k: int| 0 <= k < order@.len() ==> order@[k] < i,
            forall|j: int| 0 <= j < i ==> (lines@[j].attach_ui is None <==> order@.contains(j as usize)),
            forall|k: int| 0 <= k < 7 ==> carrier(lines@.subrange(0, i as int), k, #[trigger] attach@[k]),
        decreases n - i,
    {
        let ghost prev_attach = attach@;
        let ghost prev_order = order@;
        match lines[i].attach_ui {
            Some(e) => {
                let slot = (e.code() - 1) as usize;
                attach[slot] = Some(i);
            },
            None => {
                let z = lines[i].z_index;
                let mut p: usize = 0;
                while p < order.len() && lines[order[p]].z_index <= z
                    invariant
                        n == lines@.len(),
                        i < n,
                        p <= order@.len(),
                        forall|k: int| 0 <= k < order@.len() ==> order@[k] < i,
                        forall|k: int| 0 <= k < p ==> lines@[order@[k] as int].z_index <= z,
                    decreases order@.len() - p,
                {
                    p = p + 1;
                }
                let ghost before = order@;
                proof {
                    assert forall|k: int| p <= k < before.len() implies lines@[before[k] as int].z_index > z by {
                        if k > p {
                            assert(draws_before(lines@, before[p as int] as int, before[k] as int));
                        }
                    }
                }
                order.insert(p, i);
                proof {
                    assert(order@ == before.insert(p as int, i));
                    assert forall|a: int, b: int| 0 <= a < b < order@.len() implies draws_before(
                        lines@,
                        order@[a] as int,
                        order@[b] as int,
                    ) by {
                        if b < p {
                            assert(order@[a] == before[a] && order@[b] == before[b]);
                        } else if b == p {
                            assert(order@[a] == before[a]);
                        } else if a < p {
                            assert(order@[a] == before[a] && order@[b] == before[b - 1]);
                        } else if a == p {
                            assert(order@[b] == before[b - 1]);
                        } else {
                            assert(order@[a] == before[a - 1] && order@[b] == before[b - 1]);
                        }
                    }
                }
            },
        }
        proof {
            let sub = lines@.subrange(0, i + 1);
            assert forall|j: int| 0 <= j < i + 1 implies (lines@[j].attach_ui is None <==> order@.contains(
                j as usize,
            )) by {
                if lines@[i as int].attach_ui is None {
                    lemma_insert_contains(prev_order, order@, i as usize, j as usize);
                } else {
                    assert(order@ == prev_order);
                    if j == i {
                        if order@.contains(j as usize) {
                            let k = choose|k: int| 0 <= k < order@.len() && order@[k] == j as usize;
                            assert(order@[k] < i);
                        }
                    }
                }
            }
            assert forall|k: int| 0 <= k < 7 implies carrier(sub, k, #[trigger] attach@[k]) by {
                assert(carrier(lines@.subrange(0, i as int), k, prev_attach[k]));
                match lines@[i as int].attach_ui {
                    Some(e) => {
                        if k == element_code(e) - 1 {
                            assert(attach@[k] == Some(i));
                        } else {
                            assert(attach@[k] == prev_attach[k]);
                        }
                    },
                    None => {
                        assert(attach@[k] == prev_attach[k]);
                    },
                }
            }
        }
        i = i + 1;
    }
    assert(lines@.subrange(0, n as int) == lines@);
    (order, attach)
}

/// After inserting `v` into `s` (anywhere), `x` is present exactly when it
/// is `v` or was present before.
proof fn lemma_insert_contains(s: Seq<usize>, t: Seq<usize>, v: usize, x: usize)
    requires
        exists|p: int| 0 <= p <= s.len() && t == s.insert(p, v),
    ensures
        t.contains(x) <==> (x == v || s.contains(x)),
{
    let p = choose|p: int| 0 <= p <= s.len() && t == s.insert(p, v);
    if t.contains(x) && x != v {
        let k = choose|k: int| 0 <= k < t.len() && t[k] == x;
        if k < p {
            assert(s[k] == x);
        } else {
            assert(s[k - 1] == x);
        }
    }
    if s.contains(x) {
        let k = choose|k: int| 0 <= k < s.len() && s[k] == x;
        if k < p {
            assert(t[k] == x);
        } else {
            assert(t[k + 1] == x);
        }
    }
    if x == v {
        assert(t[p] == v);
    }
}

} // verus!
