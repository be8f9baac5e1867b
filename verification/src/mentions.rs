use vstd::prelude::*;
use std::collections::BTreeMap;
use crate::strings::str_chars;

verus! {

/// The pattern of a collaborator mention in a chart's introduction:
/// `@name`, then optionally `#id`, then optionally a role in ASCII or
/// full-width parentheses.
pub const MENTION_PATTERN: &'static str = r"@([^\s#@(（]+)(?:#(\d+))?(?:\s*[（(]([^)）]+)[)）])?";

/// One mention found by the pattern: the byte range of the whole match, the
/// name, and the id and role groups when they matched.
pub struct MentionCapture {
    pub start: usize,
    pub end: usize,
    pub name: String,
    pub id: Option<String>,
    pub role: Option<String>,
}

/// A mention as plain values: byte range, name, id text, role text.
pub type MentionView = (usize, usize, Seq<char>, Option<Seq<char>>, Option<Seq<char>>);

/// The text of an optional group.
pub open spec fn opt_view(s: Option<String>) -> Option<Seq<char>> {
    match s {
        Some(t) => Some(t@),
        None => None,
    }
}

impl View for MentionCapture {
    type V = MentionView;

    /// The mention as plain values.
    open spec fn view(&self) -> MentionView {
        (self.start, self.end, self.name@, opt_view(self.id), opt_view(self.role))
    }
}

/// The successive non-overlapping matches of [`MENTION_PATTERN`] in `text`,
/// as found by the regex engine.
pub uninterp spec fn mention_matches(text: Seq<char>) -> Seq<MentionView>;

/// Runs the mention pattern over `text` with the `regex` crate
/// (`Regex::captures_iter`) and copies each match's byte range and groups.
/// The contract only names the result: which matches the engine finds is
/// left to the crate.
#[verifier::external_body]
fn find_mentions(text: &str) -> (res: Vec<MentionCapture>)
    ensures
        res@.len() == mention_matches(text@).len(),
        forall|i: int| 0 <= i < res@.len() ==> #[trigger] res@[i].view() == mention_matches(text@)[i],
{
    let re = regex::Regex::new(MENTION_PATTERN).unwrap();
    re.captures_iter(text).map(|cap| {
        let whole = cap.get(0).unwrap();
        MentionCapture {
            start: whole.start(),
            end: whole.end(),
            name: cap.get(1).map_or(String::new(), |m| m.as_str().to_owned()),
            id: cap.get(2).map(|m| m.as_str().to_owned()),
            role: cap.get(3).map(|m| m.as_str().to_owned()),
        }
    }).collect()
}

/// Whether `c` is an ASCII decimal digit.
pub open spec fn is_ascii_digit(c: char) -> bool {
    '0' <= c && c <= '9'
}

/// Every character of `s` is an ASCII decimal digit.
pub open spec fn all_ascii_digits(s: Seq<char>) -> bool {
    forall|i: int| 0 <= i < s.len() ==> is_ascii_digit(#[trigger] s[i])
}

/// The value of a string of ASCII digits.
pub open spec fn digits_value(s: Seq<char>) -> int
    decreases s.len(),
{
    if s.len() == 0 {
        0
    } else {
        digits_value(s.drop_last()) * 10 + (s.last() as int - '0' as int)
    }
}

/// Decimal integer syntax as `i32`'s `FromStr` reads it: an optional sign,
/// then one or more ASCII digits, with the value in range.
pub open spec fn parse_i32(s: Seq<char>) -> Option<i32> {
    let neg = s.len() > 0 && s[0] == '-';
    let signed = s.len() > 0 && (s[0] == '-' || s[0] == '+');
    let body = if signed { s.drop_first() } else { s };
    if body.len() == 0 || !all_ascii_digits(body) {
        None
    } else {
        let v = if neg { -digits_value(body) } else { digits_value(body) };
        if i32::MIN <= v <= i32::MAX {
            Some(v as i32)
        } else {
            None
        }
    }
}

proof fn lemma_digits_value_nonneg(s: Seq<char>)
    requires
        forall|i: int| 0 <= i < s.len() ==> is_ascii_digit(#[trigger] s[i]),
    ensures
        digits_value(s) >= 0,
        s.len() > 0 && digits_value(s.drop_last()) > 0x80000000 ==> digits_value(s) > 0x80000000,
    decreases s.len(),
{
    if s.len() > 0 {
        assert(forall|i: int| 0 <= i < s.drop_last().len() ==> is_ascii_digit(#[trigger] s.drop_last()[i]) ) by {
            assert forall|i: int| 0 <= i < s.drop_last().len() implies is_ascii_digit(#[trigger] s.drop_last()[i]) by {
                assert(s.drop_last()[i] == s[i]);
            }
        }
        lemma_digits_value_nonneg(s.drop_last());
        assert(is_ascii_digit(s[s.len() - 1]));
    }
}

/// Reads a decimal `i32` the way `str::parse::<i32>` does.
pub fn parse_i32_chars(s: &Vec<char>) -> (res: Option<i32>)
    ensures
        res == parse_i32(s@),
{
    let n = s.len();
    let neg = n > 0 && s[0] == '-';
    let signed = n > 0 && (s[0] == '-' || s[0] == '+');
    let begin: usize = if signed { 1 } else { 0 };
    let ghost body = if signed { s@.drop_first() } else { s@ };
    if begin == n {
        return None;
    }
    let mut v: u64 = 0;
    let mut overflow = false;
    let mut i: usize = begin;
    while i < n
        invariant
            n == s@.len(),
            begin <= i <= n,
            body == s@.subrange(begin as int, n as int),
            body == (if signed { s@.drop_first() } else { s@ }),
            signed == (s@.len() > 0 && (s@[0] == '-' || s@[0] == '+')),
            neg == (s@.len() > 0 && s@[0] == '-'),
            begin == (if signed { 1usize } else { 0usize }),
            forall|k: int| 0 <= k < i - begin ==> is_ascii_digit(#[trigger] body[k]),
            !overflow ==> v == digits_value(body.subrange(0, i - begin)),
            !overflow ==> v <= 0x80000000,
            overflow ==> digits_value(body.subrange(0, i - begin)) > 0x80000000,
        decreases n - i,
    {
        let c = s[i];
        proof {
            assert(body.subrange(0, i + 1 - begin).drop_last() == body.subrange(0, i - begin));
            assert(body[i - begin] == c);
        }
        if !('0' <= c && c <= '9') {
            proof {
                assert(!is_ascii_digit(body[i - begin]));
                assert(body.len() > 0);
                assert(!(forall|k: int| 0 <= k < body.len() ==> is_ascii_digit(#[trigger] body[k])));
                assert(body == (if signed { s@.drop_first() } else { s@ }));
                assert(!all_ascii_digits(body));
            }
            return None;
        }
        proof {
            assert(forall|k: int| 0 <= k < body.subrange(0, i + 1 - begin).len() ==> is_ascii_digit(
                #[trigger] body.subrange(0, i + 1 - begin)[k],
            ));
            lemma_digits_value_nonneg(body.subrange(0, i + 1 - begin));
        }
        if !overflow {
            let d = (c as u32 - '0' as u32) as u64;
            v = v * 10 + d;
            if v > 0x80000000 {
                overflow = true;
            }
        }
        i = i + 1;
    }
    proof {
        assert(body.subrange(0, n - begin) == body);
    }
    if overflow {
        return None;
    }
    if neg {
        if v == 0x80000000 {
            Some(i32::MIN)
        } else {
            Some(-(v as i32))
        }
    } else if v > 0x7fffffff {
        None
    } else {
        Some(v as i32)
    }
}

/// The (id, role) pairs of mentions whose id group reads as an `i32`, in
/// order.
pub open spec fn mention_entries(caps: Seq<MentionView>) -> Seq<(i32, Option<Seq<char>>)>
    decreases caps.len(),
{
    if caps.len() == 0 {
        Seq::empty()
    } else {
        let prev = mention_entries(caps.drop_last());
        let c = caps.last();
        match c.3 {
            Some(id_text) => match parse_i32(id_text) {
                Some(id) => prev.push((id, c.4)),
                None => prev,
            },
            None => prev,
        }
    }
}

/// The role given to `id` by the first of `entries` that names `id` with a
/// role.
pub open spec fn first_role(entries: Seq<(i32, Option<Seq<char>>)>, id: i32) -> Option<Seq<char>>
    decreases entries.len(),
{
    if entries.len() == 0 {
        None
    } else if entries[0].0 == id && entries[0].1 is Some {
        entries[0].1
    } else {
        first_role(entries.drop_first(), id)
    }
}

proof fn lemma_first_role_push(e: Seq<(i32, Option<Seq<char>>)>, x: (i32, Option<Seq<char>>), id: i32)
    ensures
        first_role(e.push(x), id) == (if first_role(e, id) is Some {
            first_role(e, id)
        } else if x.0 == id {
            x.1
        } else {
            None
        }),
    decreases e.len(),
{
    reveal_with_fuel(first_role, 2);
    if e.len() > 0 {
        assert(e.push(x)[0] == e[0]);
        assert(e.push(x).drop_first() == e.drop_first().push(x));
        lemma_first_role_push(e.drop_first(), x, id);
    } else {
        assert(e.push(x)[0] == x);
        assert(e.push(x).drop_first() == Seq::<(i32, Option<Seq<char>>)>::empty());
    }
}

/// The collaborators named with an id in a chart's introduction: each id
/// mapped to the first role it is given, if any.
pub open spec fn collaborators_of(caps: Seq<MentionView>, m: Map<i32, Option<String>>) -> bool {
    let entries = mention_entries(caps);
    &&& forall|id: i32| m.dom().contains(id) <==> (exists|k: int| 0 <= k < entries.len() && #[trigger] entries[k].0 == id)
    &&& forall|id: i32| #[trigger] m.dom().contains(id) ==> opt_view(m[id]) == first_role(entries, id)
}

/// Reads the collaborators from the mentions found in an introduction.
pub fn collaborators_from(caps: &Vec<MentionCapture>) -> (res: BTreeMap<i32, Option<String>>)
    ensures
        collaborators_of(caps@.map_values(|c: MentionCapture| c.view()), res@),
{
    let ghost views = caps@.map_values(|c: MentionCapture| c.view());
    let mut result: BTreeMap<i32, Option<String>> = BTreeMap::new();
    let mut i: usize = 0;
    while i < caps.len()
        invariant
            i <= caps@.len(),
            views == caps@.map_values(|c: MentionCapture| c.view()),
            collaborators_of(views.subrange(0, i as int), result@),
        decreases caps@.len() - i,
    {
        let ghost prev_entries = mention_entries(views.subrange(0, i as int));
        let ghost prev = result@;
        proof {
            assert(views.subrange(0, i + 1).drop_last() == views.subrange(0, i as int));
            assert(views.subrange(0, i + 1).last() == caps@[i as int].view());
        }
        let cap = &caps[i];
        match &cap.id {
            Some(id_text) => {
                let digits = str_chars(id_text.as_str());
                match parse_i32_chars(&digits) {
                    Some(id) => {
                        let role = match &cap.role {
                            Some(r) => Some(r.clone()),
                            None => None,
                        };
                        let ghost entries = prev_entries.push((id, opt_view(cap.role)));
                        if !result.contains_key(&id) {
                            result.insert(id, role);
                        } else {
                            let existing_none = match result.get(&id) {
                                Some(v) => v.is_none(),
                                None => false,
                            };
                            if existing_none && role.is_some() {
                                result.insert(id, role);
                            }
                        }
                        proof {
                            assert(mention_entries(views.subrange(0, i + 1)) == entries);
                            assert forall|x: i32| result@.dom().contains(x) <==> (exists|k: int|
                                0 <= k < entries.len() && #[trigger] entries[k].0 == x) by {
                                if x == id {
                                    assert(entries[entries.len() - 1].0 == id);
                                } else if result@.dom().contains(x) {
                                    assert(prev.dom().contains(x));
                                    let k = choose|k: int| 0 <= k < prev_entries.len() && #[trigger] prev_entries[k].0 == x;
                                    assert(entries[k].0 == x);
                                } else if exists|k: int| 0 <= k < entries.len() && #[trigger] entries[k].0 == x {
                                    let k = choose|k: int| 0 <= k < entries.len() && #[trigger] entries[k].0 == x;
                                    assert(prev_entries[k].0 == x);
                                }
                            }
                            assert forall|x: i32| #[trigger] result@.dom().contains(x) implies opt_view(result@[x])
                                == first_role(entries, x) by {
                                lemma_first_role_push(prev_entries, (id, opt_view(cap.role)), x);
                                if x != id {
                                    assert(prev.dom().contains(x));
                                } else if prev.dom().contains(id) {
                                    assert(opt_view(prev[id]) == first_role(prev_entries, id));
                                } else {
                                    assert(first_role(prev_entries, id) is None) by {
                                        lemma_first_role_absent(prev_entries, id);
                                    }
                                }
                            }
                        }
                    },
                    None => {
                        proof {
                            assert(mention_entries(views.subrange(0, i + 1)) == prev_entries);
                        }
                    },
                }
            },
            None => {
                proof {
                    assert(mention_entries(views.subrange(0, i + 1)) == prev_entries);
                }
            },
        }
        i = i + 1;
    }
    proof {
        assert(views.subrange(0, caps@.len() as int) == views);
    }
    result
}

proof fn lemma_first_role_absent(e: Seq<(i32, Option<Seq<char>>)>, id: i32)
    requires
        !(exists|k: int| 0 <= k < e.len() && #[trigger] e[k].0 == id),
    ensures
        first_role(e, id) is None,
    decreases e.len(),
{
    if e.len() > 0 {
        assert(e[0].0 != id);
        assert forall|k: int| 0 <= k < e.drop_first().len() implies #[trigger] e.drop_first()[k].0 != id by {
            assert(e.drop_first()[k] == e[k + 1]);
        }
        lemma_first_role_absent(e.drop_first(), id);
    }
}

/// The collaborators named `@name#id (role)` in a chart's introduction, each
/// id with the first role it is given.
pub fn parse_collaborators(intro: &str) -> (res: BTreeMap<i32, Option<String>>)
    ensures
        collaborators_of(mention_matches(intro@), res@),
{
    let caps = find_mentions(intro);
    proof {
        assert(caps@.map_values(|c: MentionCapture| c.view()) == mention_matches(intro@));
    }
    collaborators_from(&caps)
}

/// The mentions without an id, as (start, end, name) with byte offsets.
pub open spec fn unresolved_of(caps: Seq<MentionView>) -> Seq<(usize, usize, Seq<char>)>
    decreases caps.len(),
{
    if caps.len() == 0 {
        Seq::empty()
    } else {
        let prev = unresolved_of(caps.drop_last());
        let c = caps.last();
        if c.3 is None {
            prev.push((c.0, c.1, c.2))
        } else {
            prev
        }
    }
}

/// The mentions among `caps` that carry no id, as (start, end, name).
pub fn unresolved_from(caps: &Vec<MentionCapture>) -> (res: Vec<(usize, usize, String)>)
    ensures
        res@.map_values(|t: (usize, usize, String)| (t.0, t.1, t.2@)) == unresolved_of(
            caps@.map_values(|c: MentionCapture| c.view()),
        ),
{
    let ghost views = caps@.map_values(|c: MentionCapture| c.view());
    let mut out: Vec<(usize, usize, String)> = Vec::new();
    let mut i: usize = 0;
    while i < caps.len()
        invariant
            i <= caps@.len(),
            views == caps@.map_values(|c: MentionCapture| c.view()),
            out@.map_values(|t: (usize, usize, String)| (t.0, t.1, t.2@)) == unresolved_of(views.subrange(0, i as int)),
        decreases caps@.len() - i,
    {
        proof {
            assert(views.subrange(0, i + 1).drop_last() == views.subrange(0, i as int));
            assert(views.subrange(0, i + 1).last() == caps@[i as int].view());
        }
        let cap = &caps[i];
        if cap.id.is_none() {
            let ghost before = out@;
            out.push((cap.start, cap.end, cap.name.clone()));
            proof {
                assert(out@.map_values(|t: (usize, usize, String)| (t.0, t.1, t.2@)) == before.map_values(
                    |t: (usize, usize, String)| (t.0, t.1, t.2@),
                ).push((cap.start, cap.end, cap.name@)));
            }
        }
        i = i + 1;
    }
    proof {
        assert(views.subrange(0, caps@.len() as int) == views);
    }
    out
}

/// The mentions in an introduction that carry no `#id`, as (start, end,
/// name) with byte offsets, in order.
pub fn find_unresolved_mentions(intro: &str) -> (res: Vec<(usize, usize, String)>)
    ensures
        res@.map_values(|t: (usize, usize, String)| (t.0, t.1, t.2@)) == unresolved_of(mention_matches(intro@)),
{
    let caps = find_mentions(intro);
    proof {
        assert(caps@.map_values(|c: MentionCapture| c.view()) == mention_matches(intro@));
    }
    unresolved_from(&caps)
}

/// The pattern of a user reference in a charter line: `[!:id:name]`, with
/// the name as its group.
pub const USER_REF_PATTERN: &'static str = r"\[!:[0-9]+:([^:]*)\]";

/// `text` with every match of [`USER_REF_PATTERN`] replaced by its name
/// group, as the regex engine does it.
pub uninterp spec fn user_refs_replaced(text: Seq<char>) -> Seq<char>;

/// Replaces each user reference in `text` by the name it carries, with the
/// `regex` crate (`Regex::replace_all` with the replacement `$1`). The
/// contract names the result; it also states that a text without `[`, where
/// the pattern cannot match, comes back unchanged, as `replace_all` documents
/// for a haystack without matches.
#[verifier::external_body]
fn replace_user_refs(text: &str) -> (res: String)
    ensures
        res@ == user_refs_replaced(text@),
        !text@.contains('[') ==> res@ == text@,
{
    regex::Regex::new(USER_REF_PATTERN).unwrap().replace_all(text, "$1").into_owned()
}

/// The charter line as shown on the loading screen: user references
/// `[!:id:name]` shown as their names.
pub fn charter_display(charter: &str) -> (res: String)
    ensures
        res@ == user_refs_replaced(charter@),
        !charter@.contains('[') ==> res@ == charter@,
{
    replace_user_refs(charter)
}

} // verus!
