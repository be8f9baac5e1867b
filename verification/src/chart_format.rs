use vstd::prelude::*;
use vstd::string::*;
use crate::strings::{str_chars, string_from_chars};

verus! {

/// The file formats of charts.
#[derive(Clone, Copy, Debug, PartialEq, Eq, Structural)]
pub enum ChartFormat {
    Rpe,
    Pgr,
    Pec,
    Pbc,
}

/// Whether `bytes` is well-formed UTF-8, as `std::str::from_utf8` decides
/// (it returns `Ok` exactly for well-formed UTF-8).
#[verifier::external_body]
fn utf8_valid(bytes: &[u8]) -> (res: bool)
    ensures
        res == vstd::utf8::valid_utf8(bytes@),
{
    std::str::from_utf8(bytes).is_ok()
}

/// Whether `pat` occurs in `s`.
pub open spec fn contains_bytes(s: Seq<u8>, pat: Seq<u8>) -> bool {
    exists|i: int| 0 <= i && i + pat.len() <= s.len() && #[trigger] s.subrange(i, i + pat.len()) == pat
}

/// The bytes of `"META"` with its quotes.
pub open spec fn meta_key() -> Seq<u8> {
    seq![0x22u8, 0x4du8, 0x45u8, 0x54u8, 0x41u8, 0x22u8]
}

/// The format of a chart file: the declared one, else guessed from the
/// content: text starting with `{` is RPE when it holds the key `"META"` and
/// PGR otherwise; other text is PEC; non-text is PBC. (On well-formed UTF-8,
/// a leading `{` character is a leading `{` byte, and the quoted key occurs
/// as characters exactly when its bytes occur.)
pub open spec fn inferred_format(declared: Option<ChartFormat>, bytes: Seq<u8>) -> ChartFormat {
    match declared {
        Some(f) => f,
        None => if vstd::utf8::valid_utf8(bytes) {
            if bytes.len() > 0 && bytes[0] == 0x7bu8 {
                if contains_bytes(bytes, meta_key()) {
                    ChartFormat::Rpe
                } else {
                    ChartFormat::Pgr
                }
            } else {
                ChartFormat::Pec
            }
        } else {
            ChartFormat::Pbc
        },
    }
}

/// Whether the byte string `pat` occurs in `s`.
fn find_bytes(s: &[u8], pat: &Vec<u8>) -> (res: bool)
    ensures
        res == contains_bytes(s@, pat@),
{
    let n = s.len();
    let m = pat.len();
    if m > n {
        return false;
    }
    let mut i: usize = 0;
    while i <= n - m
        invariant
            n == s@.len(),
            m == pat@.len(),
            m <= n,
            i <= n - m + 1,
            forall|j: int| 0 <= j < i ==> #[trigger] s@.subrange(j, j + m) != pat@,
        decreases n - m + 1 - i,
    {
        let mut k: usize = 0;
        let mut same = true;
        while k < m
            invariant
                n == s@.len(),
                m == pat@.len(),
                i + m <= n,
                k <= m,
                same == (forall|t: int| 0 <= t < k ==> s@[i + t] == pat@[t]),
            decreases m - k,
        {
            if s[i + k] != pat[k] {
                same = false;
            }
            k = k + 1;
        }
        if same {
            assert(s@.subrange(i as int, i + m) =~= pat@);
            return true;
        }
        proof {
            let t = choose|t: int| 0 <= t < m && s@[i + t] != pat@[t];
            assert(s@.subrange(i as int, i + m)[t] != pat@[t]);
        }
        i = i + 1;
    }
    false
}

/// The format of a chart: the declared one, or one guessed from the bytes.
pub fn infer_chart_format(declared: Option<ChartFormat>, bytes: &[u8]) -> (res: ChartFormat)
    ensures
        res == inferred_format(declared, bytes@),
{
    match declared {
        Some(f) => f,
        None => {
            if utf8_valid(bytes) {
                if bytes.len() > 0 && bytes[0] == 0x7b {
                    let key: Vec<u8> = vec![0x22u8, 0x4du8, 0x45u8, 0x54u8, 0x41u8, 0x22u8];
                    assert(key@ == meta_key());
                    if find_bytes(bytes, &key) {
                        ChartFormat::Rpe
                    } else {
                        ChartFormat::Pgr
                    }
                } else {
                    ChartFormat::Pec
                }
            } else {
                ChartFormat::Pbc
            }
        },
    }
}

/// The other file tried when a chart file is missing: `x.pec` is looked up
/// as `x.json`; other names have none.
pub fn chart_fallback_path(chart: &str) -> (res: Option<String>)
    ensures
        ({
            let s = chart@;
            let n = s.len();
            if n >= 4 && s.subrange(n - 4, n as int) == ".pec"@ {
                res matches Some(p) && p@ == s.subrange(0, n - 4) + ".json"@
            } else {
                res is None
            }
        }),
{
    let chars = str_chars(chart);
    let suffix = str_chars(".pec");
    proof {
        reveal_strlit(".pec");
    }
    let n = chars.len();
    if n < 4 {
        return None;
    }
    let mut k: usize = 0;
    let mut same = true;
    while k < 4
        invariant
            n == chars@.len(),
            n >= 4,
            suffix@ == ".pec"@,
            suffix@.len() == 4,
            k <= 4,
            same == (forall|t: int| 0 <= t < k ==> chars@[n - 4 + t] == suffix@[t]),
        decreases 4 - k,
    {
        if chars[n - 4 + k] != suffix[k] {
            same = false;
        }
        k = k + 1;
    }
    if !same {
        proof {
            let t = choose|t: int| 0 <= t < 4 && chars@[n - 4 + t] != suffix@[t];
            assert(chars@.subrange(n - 4, n as int)[t] != suffix@[t]);
        }
        return None;
    }
    assert(chars@.subrange(n - 4, n as int) =~= ".pec"@);
    let mut out: Vec<char> = Vec::new();
    let mut i: usize = 0;
    while i < n - 4
        invariant
            n >= 4,
            n == chars@.len(),
            i <= n - 4,
            out@ == chars@.subrange(0, i as int),
        decreases n - 4 - i,
    {
        out.push(chars[i]);
        i = i + 1;
    }
    let ext = str_chars(".json");
    let mut j: usize = 0;
    while j < ext.len()
        invariant
            n >= 4,
            n == chars@.len(),
            j <= ext@.len(),
            out@ == chars@.subrange(0, n - 4) + ext@.subrange(0, j as int),
        decreases ext@.len() - j,
    {
        out.push(ext[j]);
        j = j + 1;
    }
    assert(ext@.subrange(0, ext@.len() as int) == ext@);
    Some(string_from_chars(&out))
}

/// Without a declared format, a text chart starting with `{` is read as RPE
/// exactly when the quoted key `"META"` occurs in it, at whatever offset;
/// otherwise it is a PGR chart.
pub proof fn law_meta_key_anywhere_means_rpe(bytes: Seq<u8>)
    requires
        vstd::utf8::valid_utf8(bytes),
        bytes.len() > 0,
        bytes[0] == 0x7bu8,
    ensures
        (exists|i: int| 0 <= i && i + 6 <= bytes.len() && #[trigger] bytes.subrange(i, i + 6) == seq![0x22u8, 0x4du8, 0x45u8, 0x54u8, 0x41u8, 0x22u8])
            <==> inferred_format(None, bytes) == ChartFormat::Rpe,
        !(exists|i: int| 0 <= i && i + 6 <= bytes.len() && #[trigger] bytes.subrange(i, i + 6) == seq![0x22u8, 0x4du8, 0x45u8, 0x54u8, 0x41u8, 0x22u8])
            ==> inferred_format(None, bytes) == ChartFormat::Pgr,
{
    let key = seq![0x22u8, 0x4du8, 0x45u8, 0x54u8, 0x41u8, 0x22u8];
    assert(meta_key() == key);
    assert(key.len() == 6);
}

} // verus!
