use vstd::prelude::*;
use vstd::string::*;
use crate::strings::{str_chars, string_from_chars, concat_str};

verus! {

/// The chart service's API address used when none is configured.
pub const DEFAULT_XCSIM_API_URL: &'static str = "http://xcapi-dchk.hotanyan.net:20003";
/// The chart service's download address used when none is configured.
pub const DEFAULT_XCSIM_DOWNLOAD_URL: &'static str = "http://xcapi-dchk.hotanyan.net:20004";

/// The signed-in chart-service account, as far as it is known.
#[derive(Clone)]
pub struct XCSimAccount {
    pub id: Option<i32>,
    pub name: Option<String>,
    pub access_token: Option<String>,
    pub refresh_token: Option<String>,
}

impl XCSimAccount {
    /// No account.
    pub fn default() -> (res: XCSimAccount)
        ensures
            res.id is None,
            res.name is None,
            res.access_token is None,
            res.refresh_token is None,
    {
        XCSimAccount { id: None, name: None, access_token: None, refresh_token: None }
    }
}

/// The stored chart-service settings: configured addresses and the account.
pub struct XCSimSettings {
    pub xcsim_api_url: Option<String>,
    pub xcsim_download_url: Option<String>,
    pub xcsim_account: XCSimAccount,
}

/// `s` without its trailing slashes.
pub open spec fn trim_trailing_slashes(s: Seq<char>) -> Seq<char>
    decreases s.len(),
{
    if s.len() > 0 && s.last() == '/' {
        trim_trailing_slashes(s.drop_last())
    } else {
        s
    }
}

/// `s` without its trailing slashes.
pub fn trim_end_slashes(s: &str) -> (res: String)
    ensures
        res@ == trim_trailing_slashes(s@),
{
    let chars = str_chars(s);
    let mut k: usize = chars.len();
    assert(chars@.subrange(0, chars@.len() as int) == chars@);
    while k > 0 && chars[k - 1] == '/'
        invariant
            k <= chars@.len(),
            trim_trailing_slashes(chars@) == trim_trailing_slashes(chars@.subrange(0, k as int)),
        decreases k,
    {
        proof {
            assert(chars@.subrange(0, k as int).drop_last() == chars@.subrange(0, k - 1));
        }
        k = k - 1;
    }
    assert(chars@.subrange(0, chars@.len() as int) == chars@);
    let mut out: Vec<char> = Vec::new();
    let mut i: usize = 0;
    while i < k
        invariant
            i <= k <= chars@.len(),
            out@ == chars@.subrange(0, i as int),
        decreases k - i,
    {
        out.push(chars[i]);
        i = i + 1;
    }
    string_from_chars(&out)
}

/// A configured address without trailing slashes, or `default`.
pub open spec fn base_url(configured: Option<String>, default: Seq<char>) -> Seq<char> {
    match configured {
        Some(u) => trim_trailing_slashes(u@),
        None => default,
    }
}

fn configured_or(configured: &Option<String>, default: &str) -> (res: String)
    ensures
        res@ == base_url(*configured, default@),
{
    match configured {
        Some(u) => trim_end_slashes(u.as_str()),
        None => default.to_owned(),
    }
}

/// Where `pat` first occurs in `s`.
pub open spec fn first_occurrence(s: Seq<char>, pat: Seq<char>) -> Option<int> {
    if exists|i: int| 0 <= i && i + pat.len() <= s.len() && #[trigger] s.subrange(i, i + pat.len()) == pat {
        Some(choose|i: int| 0 <= i && i + pat.len() <= s.len() && #[trigger] s.subrange(i, i + pat.len()) == pat
            && forall|j: int| 0 <= j < i ==> #[trigger] s.subrange(j, j + pat.len()) != pat)
    } else {
        None
    }
}

/// The first position at which `pat` occurs in `s`, if any.
pub fn find_chars(s: &Vec<char>, pat: &Vec<char>) -> (res: Option<usize>)
    ensures
        match res {
            Some(i) => {
                &&& i + pat@.len() <= s@.len()
                &&& s@.subrange(i as int, i + pat@.len()) == pat@
                &&& forall|j: int| 0 <= j < i ==> #[trigger] s@.subrange(j, j + pat@.len()) != pat@
            },
            None => forall|j: int| 0 <= j && j + pat@.len() <= s@.len() ==> #[trigger] s@.subrange(j, j + pat@.len()) != pat@,
        },
{
    let n = s.len();
    let m = pat.len();
    if m > n {
        return None;
    }
    let mut i: usize = 0;
    while i <= n - m
        invariant
            n == s@.len(),
            m == pat@.len(),
            m <= n,
            i <= n - m + 1,
            forall|j: int| 0 <= j < i ==> #[trigger] s@.subrange(j, j + m) != pat@,
        decreases n - m + 1 - i,
    {
        let mut k: usize = 0;
        let mut same = true;
        while k < m
            invariant
                n == s@.len(),
                m == pat@.len(),
                i + m <= n,
                k <= m,
                same == (forall|t: int| 0 <= t < k ==> s@[i + t] == pat@[t]),
            decreases m - k,
        {
            if s[i + k] != pat[k] {
                same = false;
            }
            k = k + 1;
        }
        if same {
            assert(s@.subrange(i as int, i + m) =~= pat@);
            return Some(i);
        }
        proof {
            let t = choose|t: int| 0 <= t < m && s@[i + t] != pat@[t];
            assert(s@.subrange(i as int, i + m)[t] != pat@[t]);
        }
        i = i + 1;
    }
    None
}

/// The address for `url` on the configured download host: from the first
/// `/files/` on, `url` is appended to the download base; other URLs are kept.
pub open spec fn rehosted(url: Seq<char>, download_base: Seq<char>) -> Seq<char> {
    match first_occurrence(url, "/files/"@) {
        Some(i) => download_base + url.subrange(i, url.len() as int),
        None => url,
    }
}

impl XCSimSettings {
    /// The API address: the configured one without trailing slashes, or the
    /// default.
    pub fn api_base_url(&self) -> (res: String)
        ensures
            res@ == base_url(self.xcsim_api_url, DEFAULT_XCSIM_API_URL@),
    {
        configured_or(&self.xcsim_api_url, DEFAULT_XCSIM_API_URL)
    }

    /// The download address: the configured one without trailing slashes,
    /// or the default.
    pub fn download_base_url(&self) -> (res: String)
        ensures
            res@ == base_url(self.xcsim_download_url, DEFAULT_XCSIM_DOWNLOAD_URL@),
    {
        configured_or(&self.xcsim_download_url, DEFAULT_XCSIM_DOWNLOAD_URL)
    }

    /// The address of an API path.
    pub fn api_url(&self, path: &str) -> (res: String)
        ensures
            res@ == base_url(self.xcsim_api_url, DEFAULT_XCSIM_API_URL@) + path@,
    {
        let base = self.api_base_url();
        concat_str(base.as_str(), path)
    }

    /// A file address moved onto the configured download host.
    pub fn rehost_url(&self, url: &str) -> (res: String)
        ensures
            res@ == rehosted(url@, base_url(self.xcsim_download_url, DEFAULT_XCSIM_DOWNLOAD_URL@)),
    {
        let chars = str_chars(url);
        let pat = str_chars("/files/");
        match find_chars(&chars, &pat) {
            Some(i) => {
                let mut tail: Vec<char> = Vec::new();
                let mut k: usize = i;
                while k < chars.len()
                    invariant
                        i <= k <= chars@.len(),
                        tail@ == chars@.subrange(i as int, k as int),
                    decreases chars@.len() - k,
                {
                    tail.push(chars[k]);
                    k = k + 1;
                }
                let tail_s = string_from_chars(&tail);
                let base = self.download_base_url();
                proof {
                    lemma_first_occurrence_is(chars@, pat@, i as int);
                }
                concat_str(base.as_str(), tail_s.as_str())
            },
            None => {
                proof {
                    assert(first_occurrence(chars@, pat@) is None);
                }
                url.to_owned()
            },
        }
    }

    /// Whether an account is signed in (it holds an access token).
    pub fn is_logged_in(&self) -> (res: bool)
        ensures
            res == self.xcsim_account.access_token is Some,
    {
        self.xcsim_account.access_token.is_some()
    }

    /// The stored account.
    pub fn account(&self) -> (res: &XCSimAccount)
        ensures
            *res == self.xcsim_account,
    {
        &self.xcsim_account
    }
}

proof fn lemma_first_occurrence_is(s: Seq<char>, pat: Seq<char>, i: int)
    requires
        0 <= i,
        i + pat.len() <= s.len(),
        s.subrange(i, i + pat.len()) == pat,
        forall|j: int| 0 <= j < i ==> #[trigger] s.subrange(j, j + pat.len()) != pat,
    ensures
        first_occurrence(s, pat) == Some(i),
{
    let k = choose|k: int| 0 <= k && k + pat.len() <= s.len() && #[trigger] s.subrange(k, k + pat.len()) == pat
        && forall|j: int| 0 <= j < k ==> #[trigger] s.subrange(j, j + pat.len()) != pat;
    if k < i {
        assert(s.subrange(k, k + pat.len()) != pat);
    } else if k > i {
        assert(s.subrange(i, i + pat.len()) != pat);
    }
}

proof fn lemma_first_match_exists(s: Seq<char>, pat: Seq<char>, w: int)
    requires
        0 <= w,
        w + pat.len() <= s.len(),
        s.subrange(w, w + pat.len()) == pat,
    ensures
        exists|k: int| 0 <= k && k + pat.len() <= s.len() && #[trigger] s.subrange(k, k + pat.len()) == pat
            && forall|j: int| 0 <= j < k ==> #[trigger] s.subrange(j, j + pat.len()) != pat,
    decreases w,
{
    if exists|j: int| 0 <= j < w && #[trigger] s.subrange(j, j + pat.len()) == pat {
        let j = choose|j: int| 0 <= j < w && #[trigger] s.subrange(j, j + pat.len()) == pat;
        lemma_first_match_exists(s, pat, j);
    } else {
        assert(forall|j: int| 0 <= j < w ==> #[trigger] s.subrange(j, j + pat.len()) != pat);
    }
}

proof fn lemma_first_occurrence_props(s: Seq<char>, pat: Seq<char>)
    ensures
        match first_occurrence(s, pat) {
            Some(i) => {
                &&& 0 <= i
                &&& i + pat.len() <= s.len()
                &&& s.subrange(i, i + pat.len()) == pat
                &&& forall|j: int| 0 <= j < i ==> #[trigger] s.subrange(j, j + pat.len()) != pat
            },
            None => forall|i: int| 0 <= i && i + pat.len() <= s.len() ==> #[trigger] s.subrange(i, i + pat.len()) != pat,
        },
{
    if exists|i: int| 0 <= i && i + pat.len() <= s.len() && #[trigger] s.subrange(i, i + pat.len()) == pat {
        let w = choose|i: int| 0 <= i && i + pat.len() <= s.len() && #[trigger] s.subrange(i, i + pat.len()) == pat;
        lemma_first_match_exists(s, pat, w);
    }
}

/// Moving an address onto the download host a second time changes nothing,
/// provided the download base does not itself hold the start of a `/files/`
/// (that is, in the base followed by `/files/` the first `/files/` is the
/// appended one).
pub proof fn law_rehost_twice_is_once(url: Seq<char>, base: Seq<char>)
    requires
        first_occurrence(base + "/files/"@, "/files/"@) == Some(base.len() as int),
    ensures
        rehosted(rehosted(url, base), base) == rehosted(url, base),
{
    let p = "/files/"@;
    lemma_first_occurrence_props(url, p);
    lemma_first_occurrence_props(base + p, p);
    match first_occurrence(url, p) {
        None => {},
        Some(i) => {
            let b = base.len() as int;
            let tail = url.subrange(i, url.len() as int);
            let r = base + tail;
            assert(r.subrange(b, b + p.len()) =~= url.subrange(i, i + p.len()));
            assert forall|j: int| 0 <= j < b implies #[trigger] r.subrange(j, j + p.len()) != p by {
                if j + p.len() <= r.len() {
                    assert(r.subrange(j, j + p.len()) =~= (base + p).subrange(j, j + p.len()));
                }
            }
            lemma_first_occurrence_is(r, p, b);
            assert(r.subrange(b, r.len() as int) =~= tail);
        },
    }
}

/// `Bearer ` followed by the token: the value of an authorisation header.
pub fn bearer(token: &str) -> (res: String)
    ensures
        res@ == "Bearer "@ + token@,
{
    concat_str("Bearer ", token)
}

/// The message of a failed request: `request failed (<status>): <message>`,
/// where the message is the service's error text when the body held one,
/// else the body itself.
pub fn request_failure_message(status: &str, body: &str, service_error: Option<String>) -> (res: String)
    ensures
        res@ == "request failed ("@ + status@ + "): "@ + match service_error {
            Some(e) => e@,
            None => body@,
        },
{
    let mut s = concat_str("request failed (", status);
    s.append("): ");
    match &service_error {
        Some(e) => s.append(e.as_str()),
        None => s.append(body),
    }
    s
}

/// The query of a chart-list request: the one-based page, the page size and
/// the search text when it is not empty.
pub fn chart_list_query(page: u32, page_num: u32, search: Option<&str>) -> (res: (u32, u32, Option<String>))
    requires
        page < u32::MAX,
    ensures
        res.0 == page + 1,
        res.1 == page_num,
        match search {
            Some(s) => if s@.len() > 0 {
                res.2 matches Some(t) && t@ == s@
            } else {
                res.2 is None
            },
            None => res.2 is None,
        },
{
    let search = match search {
        Some(s) => if s.unicode_len() > 0 {
            Some(s.to_owned())
        } else {
            None
        },
        None => None,
    };
    (page + 1, page_num, search)
}

} // verus!
