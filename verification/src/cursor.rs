//! Incremental sync cursors: per-kind polling watermarks over a bounded
//! window of recent rows, and the precise client-side delta filter applied
//! after the storage-side scope match.
//!
//! The storage-side scope match is intentionally coarse (a substring match
//! on the stream prefix, see [`crate::project::get_project_like_string`]);
//! the functions here make the final inclusion test exact or
//! wildcard-aware.

use vstd::prelude::*;
use vstd::seq_lib::group_seq_properties;
use crate::models::{BuildData, CommentData, EventData, LatestData};
use crate::project::spec_matches_wildcard;
use crate::project::matches_wildcard;
use crate::text::str_eq;

verus! {

/// How many of the most recent rows a cursor window spans.
pub const CURSOR_WINDOW: usize = 100;

/// The id and change-number key of one polled row, ordered newest first by
/// change number as the window query delivers it.
#[derive(Clone, Copy, Debug, PartialEq, Eq, Structural)]
pub struct CursorRow {
    pub id: i64,
    pub change: i32,
}

/// The watermark of one window: the id of the window's oldest row — the
/// last of the first hundred — or 0 when the scope has no rows at all.
/// Supplying it back bounds the backlog a client must consume to roughly
/// one window per kind.
pub open spec fn spec_watermark(rows: Seq<CursorRow>) -> i64 {
    if rows.len() == 0 {
        0
    } else if rows.len() <= CURSOR_WINDOW {
        rows.last().id
    } else {
        rows[CURSOR_WINDOW as int - 1].id
    }
}

/// Rows ordered newest first by change number.
pub open spec fn sorted_newest_first(rows: Seq<CursorRow>) -> bool {
    forall|i: int, j: int| 0 <= i < j < rows.len() ==> rows[i].change >= rows[j].change
}

fn watermark(rows: &Vec<CursorRow>) -> (r: i64)
    ensures
        r == spec_watermark(rows@),
{
    if rows.len() == 0 {
        0
    } else if rows.len() <= CURSOR_WINDOW {
        rows[rows.len() - 1].id
    } else {
        rows[CURSOR_WINDOW - 1].id
    }
}

/// Compute the three independent polling watermarks, one per entity kind.
/// Each argument holds the rows of one kind in scope, newest first by
/// change number.
pub fn get_last_ids(
    event_rows: &Vec<CursorRow>,
    comment_rows: &Vec<CursorRow>,
    build_rows: &Vec<CursorRow>,
) -> (r: LatestData)
    ensures
        r.last_event_id == spec_watermark(event_rows@),
        r.last_comment_id == spec_watermark(comment_rows@),
        r.last_build_id == spec_watermark(build_rows@),
{
    LatestData {
        last_event_id: watermark(event_rows),
        last_comment_id: watermark(comment_rows),
        last_build_id: watermark(build_rows),
    }
}

/// Law: cursor boundedness.  With at least 150 rows of one kind in scope
/// (newest first, persisted ids, ids pairwise distinct), the watermark is
/// the id of the hundredth-most-recent row — neither 0 nor the id of the
/// oldest row.
pub proof fn lemma_cursor_bounded(rows: Seq<CursorRow>)
    requires
        rows.len() >= 150,
        sorted_newest_first(rows),
        forall|i: int| 0 <= i < rows.len() ==> (#[trigger] rows[i].id) >= 1,
        forall|i: int, j: int| 0 <= i < j < rows.len() ==> rows[i].id != rows[j].id,
    ensures
        spec_watermark(rows) == rows[CURSOR_WINDOW as int - 1].id,
        spec_watermark(rows) != 0,
        spec_watermark(rows) != rows[rows.len() - 1].id,
{
}

/// A vote/review event row a delta read keeps: newer than the watermark,
/// and stored either unscoped (legacy) or under exactly the polled project.
pub open spec fn event_in_delta(e: EventData, project: Seq<char>, last_id: i64) -> bool {
    e.id > last_id && (e.project@.len() == 0 || e.project@ == project)
}

/// A comment row a delta read keeps.
pub open spec fn comment_in_delta(c: CommentData, project: Seq<char>, last_id: i64) -> bool {
    c.id > last_id && (c.project@.len() == 0 || c.project@ == project)
}

/// A build row a delta read keeps: builds additionally match when their
/// stored project is a wildcard pattern whose prefix matches the filter.
pub open spec fn build_in_delta(b: BuildData, project: Seq<char>, last_id: i64) -> bool {
    b.id > last_id && (b.project@.len() == 0 || b.project@ == project
        || spec_matches_wildcard(b.project@, project))
}

/// The delta of event rows for one project past a watermark.
pub open spec fn spec_user_votes(rows: Seq<EventData>, project: Seq<char>, last_id: i64) -> Seq<
    EventData,
> {
    rows.filter(|e: EventData| event_in_delta(e, project, last_id))
}

/// The delta of comment rows for one project past a watermark.
pub open spec fn spec_comments(rows: Seq<CommentData>, project: Seq<char>, last_id: i64) -> Seq<
    CommentData,
> {
    rows.filter(|c: CommentData| comment_in_delta(c, project, last_id))
}

/// The delta of build rows for one project past a watermark.
pub open spec fn spec_builds(rows: Seq<BuildData>, project: Seq<char>, last_id: i64) -> Seq<
    BuildData,
> {
    rows.filter(|b: BuildData| build_in_delta(b, project, last_id))
}

/// Keep, in order, the fetched event rows that are newer than the
/// watermark and precisely in scope.
#[verifier::loop_isolation(false)]
pub fn get_user_votes(rows: &Vec<EventData>, project: &str, last_event_id: i64) -> (r: Vec<
    EventData,
>)
    ensures
        r@ == spec_user_votes(rows@, project@, last_event_id),
{
    let ghost pred = |e: EventData| event_in_delta(e, project@, last_event_id);
    let mut out: Vec<EventData> = Vec::new();
    let n = rows.len();
    let mut i: usize = 0;
    while i < n
        invariant
            i <= n == rows@.len(),
            out@ == rows@.take(i as int).filter(pred),
        decreases n - i,
    {
        let e = &rows[i];
        if e.id > last_event_id && (e.project.as_str().is_empty() || str_eq(
            e.project.as_str(),
            project,
        )) {
            out.push(e.clone());
        }
        proof {
            reveal(Seq::filter);
            assert(rows@.take(i + 1).drop_last() =~= rows@.take(i as int));
            assert(rows@.take(i + 1).last() == rows@[i as int]);
        }
        i = i + 1;
    }
    proof {
        assert(rows@.take(n as int) =~= rows@);
    }
    out
}

/// Keep, in order, the fetched comment rows that are newer than the
/// watermark and precisely in scope.
#[verifier::loop_isolation(false)]
pub fn get_comments(rows: &Vec<CommentData>, project: &str, last_comment_id: i64) -> (r: Vec<
    CommentData,
>)
    ensures
        r@ == spec_comments(rows@, project@, last_comment_id),
{
    let ghost pred = |c: CommentData| comment_in_delta(c, project@, last_comment_id);
    let mut out: Vec<CommentData> = Vec::new();
    let n = rows.len();
    let mut i: usize = 0;
    while i < n
        invariant
            i <= n == rows@.len(),
            out@ == rows@.take(i as int).filter(pred),
        decreases n - i,
    {
        let c = &rows[i];
        if c.id > last_comment_id && (c.project.as_str().is_empty() || str_eq(
            c.project.as_str(),
            project,
        )) {
            out.push(c.clone());
        }
        proof {
            reveal(Seq::filter);
            assert(rows@.take(i + 1).drop_last() =~= rows@.take(i as int));
            assert(rows@.take(i + 1).last() == rows@[i as int]);
        }
        i = i + 1;
    }
    proof {
        assert(rows@.take(n as int) =~= rows@);
    }
    out
}

/// Keep, in order, the fetched build rows that are newer than the
/// watermark and precisely or wildcard in scope.
#[verifier::loop_isolation(false)]
pub fn get_builds(rows: &Vec<BuildData>, project: &str, last_build_id: i64) -> (r: Vec<BuildData>)
    ensures
        r@ == spec_builds(rows@, project@, last_build_id),
{
    let ghost pred = |b: BuildData| build_in_delta(b, project@, last_build_id);
    let mut out: Vec<BuildData> = Vec::new();
    let n = rows.len();
    let mut i: usize = 0;
    while i < n
        invariant
            i <= n == rows@.len(),
            out@ == rows@.take(i as int).filter(pred),
        decreases n - i,
    {
        let b = &rows[i];
        if b.id > last_build_id && (b.project.as_str().is_empty() || str_eq(
            b.project.as_str(),
            project,
        ) || matches_wildcard(b.project.as_str(), project)) {
            out.push(b.clone());
        }
        proof {
            reveal(Seq::filter);
            assert(rows@.take(i + 1).drop_last() =~= rows@.take(i as int));
            assert(rows@.take(i + 1).last() == rows@[i as int]);
        }
        i = i + 1;
    }
    proof {
        assert(rows@.take(n as int) =~= rows@);
    }
    out
}

/// Filtering rows that arrive strictly ascending in `key` leaves a result
/// that is still strictly ascending in `key`.
pub(crate) proof fn lemma_filter_preserves_ascending<T>(
    rows: Seq<T>,
    pred: spec_fn(T) -> bool,
    key: spec_fn(T) -> i64,
)
    requires
        forall|i: int, j: int| 0 <= i < j < rows.len() ==> key(rows[i]) < key(rows[j]),
    ensures
        forall|i: int, j: int|
            0 <= i < j < rows.filter(pred).len() ==> key(rows.filter(pred)[i]) < key(
                rows.filter(pred)[j],
            ),
    decreases rows.len(),
{
    broadcast use group_seq_properties;

    reveal(Seq::filter);
    if rows.len() > 0 {
        let prefix = rows.drop_last();
        lemma_filter_preserves_ascending(prefix, pred, key);
        let f = rows.filter(pred);
        let fp = prefix.filter(pred);
        if pred(rows.last()) {
            assert(f == fp.push(rows.last()));
            assert forall|i: int| 0 <= i < fp.len() implies key(fp[i]) < key(rows.last()) by {
                assert(fp.contains(fp[i]));
                prefix.lemma_filter_contains_rev(pred, fp[i]);
                let k = choose|k: int| 0 <= k < prefix.len() && prefix[k] == fp[i];
                assert(key(rows[k]) < key(rows.last()));
            }
        }
    }
}

/// Law: delta correctness for event rows.  A delta read never returns a
/// row at or below the watermark, keeps only rows whose stored project is
/// empty or exactly the polled one, and hands rows back strictly ascending
/// by id when they arrived that way.
pub proof fn lemma_user_votes_delta_correct(rows: Seq<EventData>, project: Seq<char>, last_id: i64)
    requires
        forall|i: int, j: int| 0 <= i < j < rows.len() ==> rows[i].id < rows[j].id,
    ensures
        forall|i: int|
            0 <= i < spec_user_votes(rows, project, last_id).len() ==> event_in_delta(
                #[trigger] spec_user_votes(rows, project, last_id)[i],
                project,
                last_id,
            ),
        forall|i: int, j: int|
            0 <= i < j < spec_user_votes(rows, project, last_id).len() ==> spec_user_votes(
                rows,
                project,
                last_id,
            )[i].id < spec_user_votes(rows, project, last_id)[j].id,
{
    let pred = |e: EventData| event_in_delta(e, project, last_id);
    assert forall|i: int| 0 <= i < rows.filter(pred).len() implies pred(
        #[trigger] rows.filter(pred)[i],
    ) by {
        rows.lemma_filter_pred(pred, i);
    }
    lemma_filter_preserves_ascending(rows, pred, |e: EventData| e.id);
}

/// Law: delta correctness for comment rows, as for event rows.
pub proof fn lemma_comments_delta_correct(rows: Seq<CommentData>, project: Seq<char>, last_id: i64)
    requires
        forall|i: int, j: int| 0 <= i < j < rows.len() ==> rows[i].id < rows[j].id,
    ensures
        forall|i: int|
            0 <= i < spec_comments(rows, project, last_id).len() ==> comment_in_delta(
                #[trigger] spec_comments(rows, project, last_id)[i],
                project,
                last_id,
            ),
        forall|i: int, j: int|
            0 <= i < j < spec_comments(rows, project, last_id).len() ==> spec_comments(
                rows,
                project,
                last_id,
            )[i].id < spec_comments(rows, project, last_id)[j].id,
{
    let pred = |c: CommentData| comment_in_delta(c, project, last_id);
    assert forall|i: int| 0 <= i < rows.filter(pred).len() implies pred(
        #[trigger] rows.filter(pred)[i],
    ) by {
        rows.lemma_filter_pred(pred, i);
    }
    lemma_filter_preserves_ascending(rows, pred, |c: CommentData| c.id);
}

/// Law: delta correctness for build rows; builds may also match through a
/// wildcard-prefix pattern.
pub proof fn lemma_builds_delta_correct(rows: Seq<BuildData>, project: Seq<char>, last_id: i64)
    requires
        forall|i: int, j: int| 0 <= i < j < rows.len() ==> rows[i].id < rows[j].id,
    ensures
        forall|i: int|
            0 <= i < spec_builds(rows, project, last_id).len() ==> build_in_delta(
                #[trigger] spec_builds(rows, project, last_id)[i],
                project,
                last_id,
            ),
        forall|i: int, j: int|
            0 <= i < j < spec_builds(rows, project, last_id).len() ==> spec_builds(
                rows,
                project,
                last_id,
            )[i].id < spec_builds(rows, project, last_id)[j].id,
{
    let pred = |b: BuildData| build_in_delta(b, project, last_id);
    assert forall|i: int| 0 <= i < rows.filter(pred).len() implies pred(
        #[trigger] rows.filter(pred)[i],
    ) by {
        rows.lemma_filter_pred(pred, i);
    }
    lemma_filter_preserves_ascending(rows, pred, |b: BuildData| b.id);
}

} // verus!
