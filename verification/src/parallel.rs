use vstd::prelude::*;

verus! {

/// `n / d` rounded up.
pub open spec fn ceil_div(n: int, d: int) -> int {
    (n + d - 1) / d
}

/// The number of worker threads: the available parallelism, or one when it
/// is unknown (never less than one).
pub fn worker_count(available: Option<usize>) -> (res: usize)
    ensures
        res >= 1,
        (available matches Some(k) && k >= 1) ==> res == available.unwrap(),
        available is None ==> res == 1,
{
    let n = match available {
        Some(k) => k,
        None => 1,
    };
    if n < 1 {
        1
    } else {
        n
    }
}

/// How a batch of items is processed.
pub enum Plan {
    /// On the calling thread, in order.
    Sequential,
    /// One half-open index range per worker, in order.
    Chunks(Vec<(usize, usize)>),
}

/// The ranges `[i * chunk, min((i + 1) * chunk, n))` for `i` from zero while
/// the start is below `n`.
pub open spec fn chunk_layout(r: Seq<(usize, usize)>, n: int, chunk: int) -> bool {
    &&& r.len() == ceil_div(n, chunk)
    &&& forall|i: int| 0 <= i < r.len() ==> #[trigger] r[i].0 == i * chunk
    &&& forall|i: int| 0 <= i < r.len() ==> #[trigger] r[i].1 == if (i + 1) * chunk < n { (i + 1) * chunk } else { n }
}

/// The ranges cover `[0, n)` one after another, each non-empty.
pub open spec fn covers_in_order(r: Seq<(usize, usize)>, n: int) -> bool {
    &&& r.len() >= 1
    &&& r[0].0 == 0
    &&& r[r.len() - 1].1 == n
    &&& forall|i: int| 0 <= i < r.len() ==> #[trigger] r[i].0 < r[i].1
    &&& forall|i: int| 0 <= i < r.len() - 1 ==> #[trigger] r[i].1 == r[i + 1].0
}

/// Splits `[0, n)` into consecutive ranges of `chunk` items (the last one
/// possibly shorter).
pub fn chunk_ranges(n: usize, chunk: usize) -> (res: Vec<(usize, usize)>)
    requires
        chunk >= 1,
    ensures
        chunk_layout(res@, n as int, chunk as int),
{
    let mut res: Vec<(usize, usize)> = Vec::new();
    let mut start: usize = 0;
    let mut i: usize = 0;
    proof {
        assert(n > 0 ==> 0 < (n + chunk - 1) / (chunk as int)) by (nonlinear_arith)
            requires
                chunk >= 1,
        ;
        assert(n == 0 ==> (n + chunk - 1) / (chunk as int) == 0) by (nonlinear_arith)
            requires
                chunk >= 1,
        ;
        assert(0 * chunk == 0);
    }
    while start < n
        invariant
            chunk >= 1,
            start == if i * chunk < n { i * chunk } else { n as int },
            i <= ceil_div(n as int, chunk as int),
            i * chunk < n ==> i < ceil_div(n as int, chunk as int),
            i * chunk >= n ==> i == ceil_div(n as int, chunk as int),
            res@.len() == i,
            forall|k: int| 0 <= k < i ==> #[trigger] res@[k].0 == k * chunk,
            forall|k: int| 0 <= k < i ==> #[trigger] res@[k].1 == if (k + 1) * chunk < n { (k + 1) * chunk } else { n as int },
        decreases n - start,
    {
        proof {
            assert(i < n) by (nonlinear_arith)
                requires
                    i * chunk < n,
                    chunk >= 1,
            ;
            assert((i + 1) * chunk == i * chunk + chunk) by (nonlinear_arith);
        }
        let end = if n - start > chunk { start + chunk } else { n };
        res.push((start, end));
        proof {
            lemma_ceil_step(n as int, chunk as int, i as int);
            if (i + 1) * chunk >= n {
                lemma_ceil_exact(n as int, chunk as int, (i + 1) as int);
            }
        }
        i = i + 1;
        start = end;
    }
    proof {
        if n == 0 {
            assert(ceil_div(0, chunk as int) == 0) by (nonlinear_arith)
                requires
                    chunk >= 1,
            ;
        }
    }
    res
}

proof fn lemma_ceil_step(n: int, c: int, i: int)
    requires
        c >= 1,
        i * c < n,
    ensures
        i + 1 <= ceil_div(n, c),
        (i + 1) * c < n ==> i + 1 < ceil_div(n, c),
{
    assert(i + 1 <= (n + c - 1) / c) by (nonlinear_arith)
        requires
            c >= 1,
            i * c < n,
    ;
    assert((i + 1) * c < n ==> i + 1 < (n + c - 1) / c) by (nonlinear_arith)
        requires
            c >= 1,
    ;
}

proof fn lemma_ceil_exact(n: int, c: int, i: int)
    requires
        c >= 1,
        i >= 1,
        (i - 1) * c < n <= i * c,
    ensures
        i == ceil_div(n, c),
{
    assert(i == (n + c - 1) / c) by (nonlinear_arith)
        requires
            c >= 1,
            (i - 1) * c < n <= i * c,
    ;
}

/// Splitting into ceil(n / workers)-sized chunks gives at most `workers`
/// ranges, and the layout covers `[0, n)` in order.
pub proof fn law_chunks_cover_in_order(r: Seq<(usize, usize)>, n: int, workers: int)
    requires
        workers >= 1,
        n >= 1,
        chunk_layout(r, n, ceil_div(n, workers)),
    ensures
        covers_in_order(r, n),
        r.len() <= workers,
{
    let c = ceil_div(n, workers);
    assert(c >= 1 && c * workers >= n) by (nonlinear_arith)
        requires
            c == (n as int + workers as int - 1) / (workers as int),
            workers >= 1,
            n >= 1,
    ;
    let k = r.len() as int;
    assert(k >= 1 && (k - 1) * c < n) by (nonlinear_arith)
        requires
            k == (n + c - 1) / c,
            c >= 1,
            n >= 1,
    ;
    assert(k <= workers) by (nonlinear_arith)
        requires
            (k - 1) * c < n,
            c * workers >= n,
            c >= 1,
    ;
    assert forall|i: int| 0 <= i < r.len() implies #[trigger] r[i].0 < r[i].1 by {
        assert(i * c < n) by (nonlinear_arith)
            requires
                i <= k - 1,
                (k - 1) * c < n,
                c >= 1,
        ;
        assert(i * c < (i + 1) * c) by (nonlinear_arith)
            requires
                c >= 1,
        ;
    }
    assert forall|i: int| 0 <= i < r.len() - 1 implies #[trigger] r[i].1 == r[i + 1].0 by {
        assert((i + 1) * c < n) by (nonlinear_arith)
            requires
                i + 1 <= k - 1,
                (k - 1) * c < n,
                c >= 1,
        ;
    }
    assert(r[k - 1].1 == n) by {
        assert(k * c >= n) by (nonlinear_arith)
            requires
                k == (n + c - 1) / c,
                c >= 1,
        ;
    }
}

/// The pool's bookkeeping: how many workers it has.
pub struct ThreadPool {
    pub workers: usize,
}

impl ThreadPool {
    /// A pool with `workers` workers (at least one).
    pub fn new(workers: usize) -> (res: ThreadPool)
        ensures
            res.workers == if workers < 1 { 1 } else { workers },
    {
        ThreadPool { workers: if workers < 1 { 1 } else { workers } }
    }

    /// The number of workers.
    pub fn worker_count(&self) -> (res: usize)
        ensures
            res == self.workers,
    {
        self.workers
    }

    /// How `n` items are split among the pool's workers: sequentially when at
    /// most one worker would be busy or there is at most one item; else into
    /// chunks of ceil(n / w) items, where `w` is the number of workers capped
    /// at `n`.
    pub fn plan(&self, n: usize) -> (res: Plan)
        ensures
            ({
                let w = if self.workers < n { self.workers as int } else { n as int };
                let w = if w < 1 { 1 } else { w };
                if w <= 1 || n <= 1 {
                    res is Sequential
                } else {
                    res matches Plan::Chunks(r) && chunk_layout(r@, n as int, ceil_div(n as int, w))
                }
            }),
    {
        let w = if self.workers < n { self.workers } else { n };
        let w = if w < 1 { 1 } else { w };
        plan_split(w, n)
    }
}

/// How `n` items are split among `workers` threads: sequentially for at most
/// one worker or one item, else into chunks of ceil(n / workers) items.
pub fn plan_split(workers: usize, n: usize) -> (res: Plan)
    ensures
        if workers <= 1 || n <= 1 {
            res is Sequential
        } else {
            res matches Plan::Chunks(r) && chunk_layout(r@, n as int, ceil_div(n as int, workers as int))
        },
{
    if workers <= 1 || n <= 1 {
        return Plan::Sequential;
    }
    proof {
        assert(n / workers < n) by (nonlinear_arith)
            requires
                workers >= 2,
                n >= 2,
        ;
    }
    let chunk = n / workers + if n % workers != 0 { 1 } else { 0 };
    proof {
        assert(chunk == (n as int + workers as int - 1) / (workers as int)) by (nonlinear_arith)
            requires
                chunk == n / workers + if n % workers != 0 { 1int } else { 0int },
                workers >= 1,
        ;
        assert(chunk >= 1) by (nonlinear_arith)
            requires
                chunk == (n as int + workers as int - 1) / (workers as int),
                workers >= 1,
                n >= 1,
        ;
    }
    Plan::Chunks(chunk_ranges(n, chunk))
}

} // verus!
