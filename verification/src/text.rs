//! Text sanitization for user-supplied issue summaries and diagnostic
//! messages, plus a small verified string-equality helper.

use vstd::prelude::*;

verus! {

/// Index of the last newline strictly before `end` in `t`, or `-1` if the
/// prefix `t[0..end]` holds none.
pub open spec fn last_newline_before(t: Seq<char>, end: int) -> int
    decreases end,
{
    if end <= 0 {
        -1
    } else if t[end - 1] == '\n' {
        end - 1
    } else {
        last_newline_before(t, end - 1)
    }
}

/// The three-character marker appended when text is cut short.
pub open spec fn ellipsis() -> Seq<char> {
    seq!['.', '.', '.']
}

/// What sanitization returns: text of at most `max` characters is kept
/// as it is; longer text is cut just after the last newline in its first
/// `max` characters, or, when that prefix has no newline, at `max - 3`
/// characters, and the ellipsis marker is appended.
pub open spec fn spec_sanitize(t: Seq<char>, max: int) -> Seq<char> {
    if t.len() <= max {
        t
    } else {
        let nl = last_newline_before(t, max);
        if nl >= 0 {
            t.take(nl + 1) + ellipsis()
        } else {
            t.take(max - 3) + ellipsis()
        }
    }
}

proof fn lemma_last_newline_bounds(t: Seq<char>, end: int)
    requires
        0 <= end,
    ensures
        -1 <= last_newline_before(t, end) < end,
    decreases end,
{
    if end > 0 && t[end - 1] != '\n' {
        lemma_last_newline_bounds(t, end - 1);
    }
}

proof fn lemma_last_newline_props(t: Seq<char>, end: int)
    requires
        last_newline_before(t, end) >= 0,
    ensures
        t[last_newline_before(t, end)] == '\n',
        forall|j: int| last_newline_before(t, end) < j < end ==> t[j] != '\n',
    decreases end,
{
    if end > 0 && t[end - 1] != '\n' {
        lemma_last_newline_props(t, end - 1);
    }
}

proof fn lemma_last_newline_found(s: Seq<char>, k: int, end: int)
    requires
        0 <= k < end,
        s[k] == '\n',
        forall|j: int| k < j < end ==> s[j] != '\n',
    ensures
        last_newline_before(s, end) == k,
    decreases end,
{
    if end > k + 1 {
        lemma_last_newline_found(s, k, end - 1);
    }
}

proof fn lemma_last_newline_none(t: Seq<char>, end: int)
    requires
        forall|j: int| 0 <= j < end ==> t[j] != '\n',
    ensures
        last_newline_before(t, end) == -1,
    decreases end,
{
    if end > 0 {
        lemma_last_newline_none(t, end - 1);
    }
}

fn rfind_newline(text: &str, end: usize) -> (r: Option<usize>)
    requires
        end <= text@.len(),
    ensures
        match r {
            Some(k) => last_newline_before(text@, end as int) == k as int,
            None => last_newline_before(text@, end as int) == -1,
        },
{
    let mut i: usize = end;
    while i > 0
        invariant
            i <= end <= text@.len(),
            last_newline_before(text@, end as int) == last_newline_before(text@, i as int),
        decreases i,
    {
        if text.get_char(i - 1) == '\n' {
            return Some(i - 1);
        }
        i = i - 1;
    }
    None
}

/// Cut `text` down to roughly `length` characters, keeping whole lines
/// where possible and marking the cut with an ellipsis.  Inputs where the
/// text is longer than a `length` under 3 are excluded: there is no room
/// for the marker.
pub fn sanitize_text(text: &str, length: usize) -> (r: String)
    requires
        3 <= length || text@.len() <= length,
    ensures
        r@ == spec_sanitize(text@, length as int),
{
    let n = text.unicode_len();
    if n <= length {
        return text.to_owned();
    }
    proof {
        lemma_last_newline_bounds(text@, length as int);
    }
    let cut: usize = match rfind_newline(text, length) {
        Some(k) => k + 1,
        None => length - 3,
    };
    let prefix = text.substring_char(0, cut);
    let mut out = prefix.to_owned();
    out.append("...");
    proof {
        reveal_strlit("...");
        assert(("...")@ =~= ellipsis());
        assert(out@ =~= spec_sanitize(text@, length as int));
    }
    out
}

/// Sanitizing its own output changes nothing.
pub proof fn lemma_sanitize_idempotent(t: Seq<char>, max: int)
    requires
        3 <= max,
    ensures
        spec_sanitize(spec_sanitize(t, max), max) == spec_sanitize(t, max),
{
    if t.len() <= max {
        return;
    }
    let nl = last_newline_before(t, max);
    lemma_last_newline_bounds(t, max);
    if nl >= 0 {
        lemma_last_newline_props(t, max);
        let s = t.take(nl + 1) + ellipsis();
        if s.len() > max {
            assert(s[nl] == '\n');
            assert forall|j: int| nl < j < max implies s[j] != '\n' by {
                assert(s[j] == ellipsis()[j - (nl + 1)]);
            }
            lemma_last_newline_found(s, nl, max);
            assert(s.take(nl + 1) =~= t.take(nl + 1));
            assert(spec_sanitize(s, max) =~= s);
        }
    } else {
        let s = t.take(max - 3) + ellipsis();
        assert(s.len() == max);
    }
}

/// The output never exceeds `max` characters, as long as the last newline
/// in the first `max` characters (if any) leaves room for the marker.
pub proof fn lemma_sanitize_bound(t: Seq<char>, max: int)
    requires
        3 <= max,
        last_newline_before(t, max) + 4 <= max,
    ensures
        spec_sanitize(t, max).len() <= max,
{
    lemma_last_newline_bounds(t, max);
}

/// When the first `max` characters hold no newline, the output is exactly
/// the first `max - 3` characters followed by the marker.
pub proof fn lemma_sanitize_no_newline(t: Seq<char>, max: int)
    requires
        3 <= max < t.len(),
        forall|j: int| 0 <= j < max ==> t[j] != '\n',
    ensures
        spec_sanitize(t, max) == t.take(max - 3) + ellipsis(),
        spec_sanitize(t, max).len() == max,
{
    lemma_last_newline_none(t, max);
}

/// Character-for-character string comparison.
pub fn str_eq(a: &str, b: &str) -> (r: bool)
    ensures
        r == (a@ == b@),
{
    let na = a.unicode_len();
    let nb = b.unicode_len();
    if na != nb {
        return false;
    }
    let mut i: usize = 0;
    while i < na
        invariant
            i <= na,
            na == a@.len(),
            na == b@.len(),
            forall|j: int| 0 <= j < i ==> a@[j] == b@[j],
        decreases na - i,
    {
        if a.get_char(i) != b.get_char(i) {
            return false;
        }
        i = i + 1;
    }
    proof {
        assert(a@ =~= b@);
    }
    true
}

} // verus!
