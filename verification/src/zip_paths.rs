use vstd::prelude::*;
use vstd::string::*;
use crate::strings::{str_chars, string_from_chars};

verus! {

/// Where `c` first occurs in `s`.
pub open spec fn first_index_of(s: Seq<char>, c: char) -> Option<int> {
    if exists|i: int| 0 <= i < s.len() && s[i] == c {
        Some(choose|i: int| 0 <= i < s.len() && s[i] == c && forall|j: int| 0 <= j < i ==> s[j] != c)
    } else {
        None
    }
}

/// The first path component of an archive entry name: up to the first `/`,
/// or else the first `\`; `None` when there is neither.
pub open spec fn top_component(name: Seq<char>) -> Option<Seq<char>> {
    match first_index_of(name, '/') {
        Some(i) => Some(name.subrange(0, i)),
        None => match first_index_of(name, '\\') {
            Some(i) => Some(name.subrange(0, i)),
            None => None,
        },
    }
}

/// The scan for a shared top directory: still looking, found one so far, or
/// given up.
pub enum TopScan {
    Looking,
    Found(Seq<char>),
    GaveUp,
}

/// The scan over the first `k` entry names: empty names and `/` are ignored;
/// a name without a separator, or with a different first component, gives up.
pub open spec fn top_scan(names: Seq<Seq<char>>) -> TopScan
    decreases names.len(),
{
    if names.len() == 0 {
        TopScan::Looking
    } else {
        let prev = top_scan(names.drop_last());
        let name = names.last();
        match prev {
            TopScan::GaveUp => TopScan::GaveUp,
            _ => if name.len() == 0 || name == seq!['/'] {
                prev
            } else {
                match top_component(name) {
                    None => TopScan::GaveUp,
                    Some(t) => match prev {
                        TopScan::Found(e) => if e == t { prev } else { TopScan::GaveUp },
                        _ => TopScan::Found(t),
                    },
                }
            },
        }
    }
}

/// Where `c` first occurs in `s`, if anywhere.
fn index_of(s: &Vec<char>, c: char) -> (res: Option<usize>)
    ensures
        match res {
            Some(i) => first_index_of(s@, c) == Some(i as int),
            None => first_index_of(s@, c) is None,
        },
        res matches Some(i) ==> i < s@.len(),
{
    let mut i: usize = 0;
    while i < s.len()
        invariant
            i <= s@.len(),
            forall|j: int| 0 <= j < i ==> s@[j] != c,
        decreases s@.len() - i,
    {
        if s[i] == c {
            proof {
                let k = choose|k: int| 0 <= k < s@.len() && s@[k] == c && forall|j: int| 0 <= j < k ==> s@[j] != c;
                assert(k == i as int) by {
                    if k < i {
                        assert(s@[k] != c);
                    } else if k > i {
                        assert(s@[i as int] != c);
                    }
                }
            }
            return Some(i);
        }
        i = i + 1;
    }
    None
}

fn prefix_chars(s: &Vec<char>, k: usize) -> (res: Vec<char>)
    requires
        k <= s@.len(),
    ensures
        res@ == s@.subrange(0, k as int),
{
    let mut out: Vec<char> = Vec::new();
    let mut i: usize = 0;
    while i < k
        invariant
            i <= k <= s@.len(),
            out@ == s@.subrange(0, i as int),
        decreases k - i,
    {
        out.push(s[i]);
        i = i + 1;
    }
    out
}

/// The directory that every entry of an archive sits in, if there is one.
pub fn common_top_dir(names: &Vec<String>) -> (res: Option<String>)
    ensures
        match top_scan(names@.map_values(|n: String| n@)) {
            TopScan::Found(t) => res matches Some(r) && r@ == t,
            _ => res is None,
        },
{
    let ghost views = names@.map_values(|n: String| n@);
    let mut top: Option<Vec<char>> = None;
    let mut i: usize = 0;
    while i < names.len()
        invariant
            i <= names@.len(),
            views == names@.map_values(|n: String| n@),
            match top_scan(views.subrange(0, i as int)) {
                TopScan::Looking => top is None,
                TopScan::Found(t) => top matches Some(v) && v@ == t,
                TopScan::GaveUp => false,
            },
        decreases names@.len() - i,
    {
        proof {
            assert(views.subrange(0, i + 1).drop_last() == views.subrange(0, i as int));
            assert(views.subrange(0, i + 1).last() == names@[i as int]@);
        }
        let name = str_chars(names[i].as_str());
        if name.len() == 0 || (name.len() == 1 && name[0] == '/') {
            proof {
                if name@.len() == 1 {
                    assert(name@ == seq!['/']);
                }
            }
            i = i + 1;
            continue;
        }
        proof {
            if name@.len() == 1 {
                assert(name@ != seq!['/']) by {
                    assert(seq!['/'][0] == '/');
                }
            }
        }
        let first = match index_of(&name, '/') {
            Some(k) => Some(k),
            None => index_of(&name, '\\'),
        };
        let current = match first {
            Some(k) => prefix_chars(&name, k),
            None => {
                proof {
                    lemma_gave_up_stays(views, (i + 1) as int);
                }
                return None;
            },
        };
        match &top {
            None => {
                top = Some(current);
            },
            Some(existing) => {
                if !chars_eq(existing, &current) {
                    proof {
                        lemma_gave_up_stays(views, (i + 1) as int);
                    }
                    return None;
                }
            },
        }
        i = i + 1;
    }
    proof {
        assert(views.subrange(0, names@.len() as int) == views);
    }
    match top {
        Some(v) => Some(string_from_chars(&v)),
        None => None,
    }
}

proof fn lemma_gave_up_stays(names: Seq<Seq<char>>, k: int)
    requires
        0 <= k <= names.len(),
        top_scan(names.subrange(0, k)) is GaveUp,
    ensures
        top_scan(names) is GaveUp,
    decreases names.len() - k,
{
    if k < names.len() {
        assert(names.subrange(0, k + 1).drop_last() == names.subrange(0, k));
        lemma_gave_up_stays(names, k + 1);
    } else {
        assert(names.subrange(0, k) == names);
    }
}

/// Whether two character vectors are equal.
pub fn chars_eq(a: &Vec<char>, b: &Vec<char>) -> (res: bool)
    ensures
        res == (a@ == b@),
{
    if a.len() != b.len() {
        return false;
    }
    let mut i: usize = 0;
    while i < a.len()
        invariant
            a@.len() == b@.len(),
            i <= a@.len(),
            forall|j: int| 0 <= j < i ==> a@[j] == b@[j],
        decreases a@.len() - i,
    {
        if a[i] != b[i] {
            return false;
        }
        i = i + 1;
    }
    assert(a@ =~= b@);
    true
}

/// `s` with every `\` turned into `/`.
pub open spec fn forward_slashes(s: Seq<char>) -> Seq<char> {
    Seq::new(s.len(), |i: int| if s[i] == '\\' { '/' } else { s[i] })
}

/// `s` without `prefix` when it starts with it.
pub open spec fn strip_prefix_or_keep(s: Seq<char>, prefix: Seq<char>) -> Seq<char> {
    if prefix.len() <= s.len() && s.subrange(0, prefix.len() as int) == prefix {
        s.subrange(prefix.len() as int, s.len() as int)
    } else {
        s
    }
}

/// The first component of a relative path (up to the first `/` or `\`).
pub open spec fn first_segment(s: Seq<char>) -> Seq<char> {
    if exists|i: int| 0 <= i < s.len() && (s[i] == '/' || s[i] == '\\') {
        s.subrange(0, choose|i: int| 0 <= i < s.len() && (s[i] == '/' || s[i] == '\\') && forall|j: int|
            0 <= j < i ==> !(s[j] == '/' || s[j] == '\\'))
    } else {
        s
    }
}

/// Where an archive entry goes relative to the output directory: its path
/// with forward slashes, without the shared top directory; `None` (skipped)
/// when nothing is left or when it belongs to the removed `skel` and
/// `voice_Line` content.
pub open spec fn entry_target(path: Seq<char>, top: Option<Seq<char>>) -> Option<Seq<char>> {
    let p = forward_slashes(path);
    let rel = match top {
        Some(t) => strip_prefix_or_keep(p, t.push('/')),
        None => p,
    };
    if rel.len() == 0 || first_segment(rel) == "skel"@ || first_segment(rel) == "voice_Line"@ {
        None
    } else {
        Some(rel)
    }
}

/// Where an archive entry goes relative to the output directory, or `None`
/// when it is skipped.
pub fn entry_target_path(path: &str, top: &Option<String>) -> (res: Option<String>)
    ensures
        match entry_target(path@, match top { Some(t) => Some(t@), None => None }) {
            Some(r) => res matches Some(s) && s@ == r,
            None => res is None,
        },
{
    let raw = str_chars(path);
    let mut p: Vec<char> = Vec::new();
    let mut i: usize = 0;
    while i < raw.len()
        invariant
            i <= raw@.len(),
            p@ == forward_slashes(raw@).subrange(0, i as int),
        decreases raw@.len() - i,
    {
        let c = raw[i];
        p.push(if c == '\\' { '/' } else { c });
        proof {
            assert(forward_slashes(raw@).subrange(0, i + 1) =~= forward_slashes(raw@).subrange(0, i as int).push(
                if c == '\\' { '/' } else { c },
            ));
        }
        i = i + 1;
    }
    assert(forward_slashes(raw@).subrange(0, raw@.len() as int) =~= forward_slashes(raw@));
    let rel: Vec<char> = match top {
        Some(t) => {
            let mut prefix = str_chars(t.as_str());
            prefix.push('/');
            strip_prefix_vec(&p, &prefix)
        },
        None => p,
    };
    if rel.len() == 0 {
        return None;
    }
    let seg = first_segment_vec(&rel);
    let skel = str_chars("skel");
    let voice = str_chars("voice_Line");
    if chars_eq(&seg, &skel) || chars_eq(&seg, &voice) {
        return None;
    }
    Some(string_from_chars(&rel))
}

fn strip_prefix_vec(s: &Vec<char>, prefix: &Vec<char>) -> (res: Vec<char>)
    ensures
        res@ == strip_prefix_or_keep(s@, prefix@),
{
    if prefix.len() > s.len() {
        return s.clone();
    }
    let head = prefix_chars(s, prefix.len());
    if chars_eq(&head, prefix) {
        let mut out: Vec<char> = Vec::new();
        let mut i: usize = prefix.len();
        while i < s.len()
            invariant
                prefix@.len() <= i <= s@.len(),
                out@ == s@.subrange(prefix@.len() as int, i as int),
            decreases s@.len() - i,
        {
            out.push(s[i]);
            i = i + 1;
        }
        out
    } else {
        s.clone()
    }
}

fn first_segment_vec(s: &Vec<char>) -> (res: Vec<char>)
    ensures
        res@ == first_segment(s@),
{
    let mut i: usize = 0;
    while i < s.len()
        invariant
            i <= s@.len(),
            forall|j: int| 0 <= j < i ==> !(s@[j] == '/' || s@[j] == '\\'),
        decreases s@.len() - i,
    {
        if s[i] == '/' || s[i] == '\\' {
            proof {
                let k = choose|k: int| 0 <= k < s@.len() && (s@[k] == '/' || s@[k] == '\\') && forall|j: int|
                    0 <= j < k ==> !(s@[j] == '/' || s@[j] == '\\');
                assert(k == i as int) by {
                    if k < i {
                        assert(!(s@[k] == '/' || s@[k] == '\\'));
                    } else if k > i {
                        assert(!(s@[i as int] == '/' || s@[i as int] == '\\'));
                    }
                }
            }
            return prefix_chars(s, i);
        }
        i = i + 1;
    }
    s.clone()
}

/// Whether an entry stands for a directory: the archive says so, or its
/// target path ends with `/`.
pub fn is_dir_entry(archive_says_dir: bool, target: &str) -> (res: bool)
    ensures
        res == (archive_says_dir || (target@.len() > 0 && target@.last() == '/')),
{
    if archive_says_dir {
        return true;
    }
    let n = target.unicode_len();
    n > 0 && target.get_char(n - 1) == '/'
}

} // verus!
