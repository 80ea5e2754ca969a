//! Hierarchical project-name matching: stream-prefix extraction from
//! depot-style paths (`//seg1/seg2/...`), wildcard suffix matching, and the
//! coarse scope pattern used by storage-side lookups.

use vstd::prelude::*;

verus! {

/// Characters allowed inside a path segment: alphanumerics, `.`, `-`, `_`.
pub open spec fn is_stream_char(c: char) -> bool {
    ('a' as u32 <= c as u32 && c as u32 <= 'z' as u32)
        || ('A' as u32 <= c as u32 && c as u32 <= 'Z' as u32)
        || ('0' as u32 <= c as u32 && c as u32 <= '9' as u32)
        || c == '.' || c == '-' || c == '_'
}

/// Length of the run of segment characters starting at index `i`.
pub open spec fn run_len(s: Seq<char>, i: int) -> int
    decreases s.len() - i,
{
    if i < 0 || i >= s.len() || !is_stream_char(s[i]) {
        0
    } else {
        1 + run_len(s, i + 1)
    }
}

proof fn lemma_run_len_bound(s: Seq<char>, i: int)
    requires
        0 <= i <= s.len(),
    ensures
        0 <= run_len(s, i) <= s.len() - i,
    decreases s.len() - i,
{
    if i < s.len() && is_stream_char(s[i]) {
        lemma_run_len_bound(s, i + 1);
    }
}

proof fn lemma_run_len_is(s: Seq<char>, i: int, k: int)
    requires
        0 <= i <= k <= s.len(),
        forall|j: int| i <= j < k ==> is_stream_char(s[j]),
        k == s.len() || !is_stream_char(s[k]),
    ensures
        run_len(s, i) == k - i,
    decreases k - i,
{
    if i < k {
        lemma_run_len_is(s, i + 1, k);
    }
}

/// The stream prefix of a path: the first two slash-delimited segments of a
/// path of the form `//seg1/seg2/...`, including the leading `//`.  A string
/// not of that form is handed back unchanged.
pub open spec fn spec_stream_of(s: Seq<char>) -> Seq<char> {
    let k1 = run_len(s, 2);
    let a = 2 + k1;
    let k2 = run_len(s, a + 1);
    if s.len() >= 2 && s[0] == '/' && s[1] == '/' && k1 > 0 && a < s.len() && s[a] == '/'
        && k2 > 0 {
        s.take(a + 1 + k2)
    } else {
        s
    }
}

fn exec_is_stream_char(c: char) -> (r: bool)
    ensures
        r == is_stream_char(c),
{
    let u = c as u32;
    ('a' as u32 <= u && u <= 'z' as u32) || ('A' as u32 <= u && u <= 'Z' as u32) || ('0'
        as u32 <= u && u <= '9' as u32) || c == '.' || c == '-' || c == '_'
}

fn run_end(s: &str, start: usize, n: usize) -> (k: usize)
    requires
        start <= n,
        n == s@.len(),
    ensures
        start <= k <= n,
        run_len(s@, start as int) == k - start,
{
    let mut k: usize = start;
    while k < n
        invariant
            start <= k <= n,
            n == s@.len(),
            forall|j: int| start <= j < k ==> is_stream_char(s@[j]),
        decreases n - k,
    {
        if !exec_is_stream_char(s.get_char(k)) {
            proof {
                lemma_run_len_is(s@, start as int, k as int);
            }
            return k;
        }
        k = k + 1;
    }
    proof {
        lemma_run_len_is(s@, start as int, n as int);
    }
    n
}

/// Extract the two-segment stream prefix of `project`, or hand `project`
/// back unchanged when it does not start with one.
pub fn get_project_stream(project: &str) -> (r: String)
    ensures
        r@ == spec_stream_of(project@),
{
    let n = project.unicode_len();
    if n < 2 || project.get_char(0) != '/' || project.get_char(1) != '/' {
        return project.to_owned();
    }
    let e1 = run_end(project, 2, n);
    if e1 == 2 || e1 >= n {
        return project.to_owned();
    }
    if project.get_char(e1) != '/' {
        return project.to_owned();
    }
    let e2 = run_end(project, e1 + 1, n);
    if e2 == e1 + 1 {
        return project.to_owned();
    }
    let prefix = project.substring_char(0, e2);
    prefix.to_owned()
}

/// A wildcard pattern: at least one character, then the separator `/` and
/// the three-character ellipsis marker.
pub open spec fn spec_is_wildcard(w: Seq<char>) -> bool {
    w.len() >= 4 && w[w.len() - 4] == '/' && w[w.len() - 3] == '.' && w[w.len() - 2] == '.'
        && w[w.len() - 1] == '.'
}

/// `wildcard` matches `project` when it is a wildcard pattern and `project`
/// starts with the pattern minus its trailing four-character `/...` marker.
pub open spec fn spec_matches_wildcard(w: Seq<char>, p: Seq<char>) -> bool {
    spec_is_wildcard(w) && w.len() - 4 <= p.len() && p.take(w.len() - 4) == w.take(w.len() - 4)
}

pub fn matches_wildcard(wildcard: &str, project: &str) -> (r: bool)
    ensures
        r == spec_matches_wildcard(wildcard@, project@),
{
    let wn = wildcard.unicode_len();
    let pn = project.unicode_len();
    if wn < 4 {
        return false;
    }
    if wildcard.get_char(wn - 4) != '/' || wildcard.get_char(wn - 3) != '.' || wildcard.get_char(
        wn - 2,
    ) != '.' || wildcard.get_char(wn - 1) != '.' {
        return false;
    }
    let stem = wn - 4;
    if pn < stem {
        return false;
    }
    let mut i: usize = 0;
    while i < stem
        invariant
            0 <= i <= stem,
            stem == wn - 4,
            wn == wildcard@.len(),
            pn == project@.len(),
            stem <= pn,
            forall|j: int| 0 <= j < i ==> wildcard@[j] == project@[j],
        decreases stem - i,
    {
        if wildcard.get_char(i) != project.get_char(i) {
            proof {
                let st = stem as int;
                assert(project@.take(st)[i as int] != wildcard@.take(st)[i as int]);
            }
            return false;
        }
        i = i + 1;
    }
    proof {
        assert(project@.take(stem as int) =~= wildcard@.take(stem as int));
    }
    true
}

/// The coarse storage-side scope pattern: the stream prefix of the filter
/// (empty for no filter) between two `%` match-anything marks.
pub open spec fn spec_like_string(project: Option<Seq<char>>) -> Seq<char> {
    seq!['%'] + (match project {
        Option::None => Seq::<char>::empty(),
        Option::Some(p) => spec_stream_of(p),
    }) + seq!['%']
}

pub fn get_project_like_string(project: Option<&str>) -> (r: String)
    ensures
        r@ == spec_like_string(match project {
            Option::None => Option::None,
            Option::Some(p) => Option::Some(p@),
        }),
{
    let mut out = String::new();
    out.append("%");
    match project {
        Option::None => {},
        Option::Some(p) => {
            let stream = get_project_stream(p);
            out.append(stream.as_str());
        },
    }
    out.append("%");
    proof {
        reveal_strlit("%");
        assert(("%")@ =~= seq!['%']);
        assert(out@ =~= spec_like_string(match project {
            Option::None => Option::None,
            Option::Some(p) => Option::Some(p@),
        }));
    }
    out
}

} // verus!
