//! Dynamic query composition for the issue tracker: the list selector with
//! its precedence rule, the partial-update clause builder with its
//! no-fields-means-no-op rule, the in-memory semantics of both, and the
//! rendering of each into one parameterized statement.

use vstd::prelude::*;
use crate::models::{IssueData, IssueUpdateData};
use crate::resolver::upper_of;
use crate::resolver::normalize_user_name;
use crate::text::{sanitize_text, spec_sanitize};

verus! {

/// Upper bound on a stored issue summary, in characters.
pub const ISSUE_SUMMARY_MAX_LENGTH: usize = 200;

/// Upper bound on a stored diagnostic message, in characters.
pub const DIAGNOSTIC_MESSAGE_MAX_LENGTH: usize = 1000;

/// One watcher row: a user subscribed to an issue.
#[derive(Clone, Copy, Debug, PartialEq, Eq, Structural)]
pub struct WatcherRow {
    pub issue_id: i64,
    pub user_id: i64,
}

/// Which issues a list query selects.  Exactly one selector is honored per
/// query.
#[derive(Clone, Copy, Debug, PartialEq, Eq)]
pub enum IssueSelector {
    /// At most the one row with this id, any resolved state, unordered.
    ById(i64),
    /// The rows watched by this resolved user id, any resolved state,
    /// unordered.
    ByUser(i64),
    /// All rows, or only unresolved ones; newest first by id; optionally
    /// bounded.
    ByFilter { include_resolved: bool, num_results: Option<i32> },
}

/// Selector precedence: an id wins over a user, a user over the
/// resolution filter.
pub open spec fn spec_make_selector(
    issue_id: Option<i64>,
    user_id: Option<i64>,
    include_resolved: bool,
    num_results: Option<i32>,
) -> IssueSelector {
    match issue_id {
        Option::Some(id) => IssueSelector::ById(id),
        Option::None => match user_id {
            Option::Some(uid) => IssueSelector::ByUser(uid),
            Option::None => IssueSelector::ByFilter { include_resolved, num_results },
        },
    }
}

pub fn make_selector(
    issue_id: Option<i64>,
    user_id: Option<i64>,
    include_resolved: bool,
    num_results: Option<i32>,
) -> (r: IssueSelector)
    ensures
        r == spec_make_selector(issue_id, user_id, include_resolved, num_results),
{
    match issue_id {
        Option::Some(id) => IssueSelector::ById(id),
        Option::None => match user_id {
            Option::Some(uid) => IssueSelector::ByUser(uid),
            Option::None => IssueSelector::ByFilter { include_resolved, num_results },
        },
    }
}

/// Whether one stored row matches a selector.
pub open spec fn issue_selected(
    row: IssueData,
    watchers: Seq<WatcherRow>,
    sel: IssueSelector,
) -> bool {
    match sel {
        IssueSelector::ById(id) => row.id == id,
        IssueSelector::ByUser(uid) => exists|k: int|
            0 <= k < watchers.len() && (#[trigger] watchers[k]).issue_id == row.id
                && watchers[k].user_id == uid,
        IssueSelector::ByFilter { include_resolved, .. } => include_resolved || row.resolved_at
            == Option::<i64>::None,
    }
}

/// At most the first `limit` rows, when a limit is given.
pub open spec fn spec_limit(s: Seq<IssueData>, limit: Option<i32>) -> Seq<IssueData> {
    match limit {
        Option::None => s,
        Option::Some(k) => if k < 0 {
            s.take(0)
        } else if s.len() <= k {
            s
        } else {
            s.take(k as int)
        },
    }
}

/// The rows a list query returns, given every stored issue row (ascending
/// by id, as the table scan delivers them) and every watcher row: the
/// matching rows, newest first and bounded when the resolution filter asks
/// for that.
pub open spec fn spec_list_issues(
    rows: Seq<IssueData>,
    watchers: Seq<WatcherRow>,
    sel: IssueSelector,
) -> Seq<IssueData> {
    let picked = rows.filter(|r: IssueData| issue_selected(r, watchers, sel));
    match sel {
        IssueSelector::ByFilter { num_results, .. } => spec_limit(picked.reverse(), num_results),
        _ => picked,
    }
}

#[verifier::loop_isolation(false)]
fn row_selected(row: &IssueData, watchers: &Vec<WatcherRow>, sel: IssueSelector) -> (r: bool)
    ensures
        r == issue_selected(*row, watchers@, sel),
{
    match sel {
        IssueSelector::ById(id) => row.id == id,
        IssueSelector::ByUser(uid) => {
            let n = watchers.len();
            let mut k: usize = 0;
            while k < n
                invariant
                    k <= n == watchers@.len(),
                    forall|j: int|
                        0 <= j < k ==> !((#[trigger] watchers@[j]).issue_id == row.id
                            && watchers@[j].user_id == uid),
                decreases n - k,
            {
                if watchers[k].issue_id == row.id && watchers[k].user_id == uid {
                    proof {
                        let kk = k as int;
                        assert(watchers@[kk].issue_id == row.id && watchers@[kk].user_id == uid);
                    }
                    return true;
                }
                k = k + 1;
            }
            false
        },
        IssueSelector::ByFilter { include_resolved, .. } => include_resolved
            || row.resolved_at.is_none(),
    }
}

/// List the issues a selector picks out of the stored rows.
#[verifier::loop_isolation(false)]
pub fn list_issues(
    rows: &Vec<IssueData>,
    watchers: &Vec<WatcherRow>,
    selector: IssueSelector,
) -> (r: Vec<IssueData>)
    ensures
        r@ == spec_list_issues(rows@, watchers@, selector),
{
    let ghost pred = |row: IssueData| issue_selected(row, watchers@, selector);
    let mut picked: Vec<IssueData> = Vec::new();
    let n = rows.len();
    let mut i: usize = 0;
    while i < n
        invariant
            i <= n,
            picked@ == rows@.take(i as int).filter(pred),
        decreases n - i,
    {
        if row_selected(&rows[i], watchers, selector) {
            picked.push(rows[i].clone());
        }
        proof {
            reveal(Seq::filter);
            assert(rows@.take(i + 1).drop_last() =~= rows@.take(i as int));
            assert(rows@.take(i + 1).last() == rows@[i as int]);
        }
        i = i + 1;
    }
    proof {
        assert(rows@.take(n as int) =~= rows@);
    }
    match selector {
        IssueSelector::ByFilter { num_results, .. } => {
            // newest first, then the bound
            let mut ordered: Vec<IssueData> = Vec::new();
            let m = picked.len();
            let mut j: usize = 0;
            while j < m
                invariant
                    j <= m == picked@.len(),
                    ordered@.len() == j,
                    forall|t: int| 0 <= t < j ==> ordered@[t] == picked@[m - 1 - t],
                decreases m - j,
            {
                ordered.push(picked[m - 1 - j].clone());
                j = j + 1;
            }
            proof {
                assert(ordered@ =~= picked@.reverse());
            }
            match num_results {
                Option::None => ordered,
                Option::Some(k) => {
                    let bound: usize = if k <= 0 {
                        0
                    } else {
                        k as usize
                    };
                    ordered.truncate(bound);
                    proof {
                        assert(ordered@ =~= spec_limit(picked@.reverse(), num_results));
                    }
                    ordered
                },
            }
        },
        _ => picked,
    }
}

/// The single-issue lookup: the first stored row with the given id, or
/// nothing — surfaced distinctly so the boundary can signal absence rather
/// than failure.
pub fn get_issue(rows: &Vec<IssueData>, issue_id: i64) -> (r: Option<IssueData>)
    ensures
        match r {
            Option::Some(row) => exists|k: int|
                0 <= k < rows@.len() && rows@[k] == row && row.id == issue_id && (forall|j: int|
                    0 <= j < k ==> rows@[j].id != issue_id),
            Option::None => forall|k: int| 0 <= k < rows@.len() ==> rows@[k].id != issue_id,
        },
{
    let n = rows.len();
    let mut i: usize = 0;
    while i < n
        invariant
            i <= n == rows@.len(),
            forall|j: int| 0 <= j < i ==> rows@[j].id != issue_id,
        decreases n - i,
    {
        if rows[i].id == issue_id {
            return Option::Some(rows[i].clone());
        }
        i = i + 1;
    }
    Option::None
}

/// Law: selector precedence.  Given an id, a list query returns exactly
/// the rows with that id — the user and resolution inputs, and any limit,
/// are ignored, so an id-matched row is returned even when it is resolved.
pub proof fn lemma_selector_precedence(
    rows: Seq<IssueData>,
    watchers: Seq<WatcherRow>,
    id: i64,
    user_id: Option<i64>,
    include_resolved: bool,
    num_results: Option<i32>,
)
    ensures
        spec_list_issues(
            rows,
            watchers,
            spec_make_selector(Option::Some(id), user_id, include_resolved, num_results),
        ) == rows.filter(|r: IssueData| r.id == id),
{
    let sel = spec_make_selector(Option::Some(id), user_id, include_resolved, num_results);
    let p1 = |r: IssueData| issue_selected(r, watchers, sel);
    let p2 = |r: IssueData| r.id == id;
    assert(p1 =~= p2);
}

/// Law: shape of a filtered listing.  Over stored rows that arrive
/// strictly ascending by id, the resolution-filter selector returns rows
/// strictly descending by id (newest first); when resolved rows are
/// excluded, every returned row is unresolved; and a non-negative limit
/// bounds the count.
pub proof fn lemma_filtered_list_shape(
    rows: Seq<IssueData>,
    watchers: Seq<WatcherRow>,
    include_resolved: bool,
    num_results: Option<i32>,
)
    requires
        forall|i: int, j: int| 0 <= i < j < rows.len() ==> rows[i].id < rows[j].id,
    ensures
        ({
            let out = spec_list_issues(
                rows,
                watchers,
                IssueSelector::ByFilter { include_resolved, num_results },
            );
            &&& forall|i: int, j: int| 0 <= i < j < out.len() ==> out[i].id > out[j].id
            &&& !include_resolved ==> forall|i: int|
                0 <= i < out.len() ==> (#[trigger] out[i]).resolved_at == Option::<i64>::None
            &&& match num_results {
                Option::Some(k) => k >= 0 ==> out.len() <= k,
                Option::None => true,
            }
        }),
{
    let sel = IssueSelector::ByFilter { include_resolved, num_results };
    let pred = |r: IssueData| issue_selected(r, watchers, sel);
    let picked = rows.filter(pred);
    crate::cursor::lemma_filter_preserves_ascending(rows, pred, |r: IssueData| r.id);
    assert forall|i: int| 0 <= i < picked.len() implies pred(#[trigger] picked[i]) by {
        rows.lemma_filter_pred(pred, i);
    }
    let rev = picked.reverse();
    assert(forall|i: int| 0 <= i < rev.len() ==> rev[i] == picked[picked.len() - 1 - i]);
    let out = spec_list_issues(rows, watchers, sel);
    assert forall|i: int| 0 <= i < out.len() implies pred(#[trigger] out[i]) by {
        match num_results {
            Option::Some(k) => {
                assert(out[i] == rev[i]);
            },
            Option::None => {},
        }
    }
}

/// One column assignment of a partial issue update, in the order the
/// statement lists them.
#[derive(Debug, PartialEq, Eq)]
pub enum UpdateClause {
    /// Store this (already sanitized) summary.
    Summary(String),
    /// Store this resolved user id as the owner.
    Owner(i64),
    /// Store this resolved user id as the nominator.
    NominatedBy(i64),
    /// Stamp the acknowledgement time (`true`) or clear it (`false`).
    Acknowledged(bool),
    /// Store this fix changelist verbatim.
    FixChange(i32),
    /// Stamp the resolution time (`true`) or clear it (`false`).
    Resolved(bool),
}

/// The mathematical shape of a clause.
pub enum SpecClause {
    Summary(Seq<char>),
    Owner(int),
    NominatedBy(int),
    Acknowledged(bool),
    FixChange(int),
    Resolved(bool),
}

impl View for UpdateClause {
    type V = SpecClause;

    open spec fn view(&self) -> SpecClause {
        match self {
            UpdateClause::Summary(s) => SpecClause::Summary(s@),
            UpdateClause::Owner(id) => SpecClause::Owner(*id as int),
            UpdateClause::NominatedBy(id) => SpecClause::NominatedBy(*id as int),
            UpdateClause::Acknowledged(b) => SpecClause::Acknowledged(*b),
            UpdateClause::FixChange(c) => SpecClause::FixChange(*c as int),
            UpdateClause::Resolved(b) => SpecClause::Resolved(*b),
        }
    }
}

pub open spec fn clause_views(cs: Seq<UpdateClause>) -> Seq<SpecClause> {
    cs.map_values(|c: UpdateClause| c@)
}

/// A partial update with no field supplied at all.
pub open spec fn update_is_empty(u: IssueUpdateData) -> bool {
    u.summary@.len() == 0 && u.owner@.len() == 0 && u.nominated_by@.len() == 0 && u.acknowledged
        == Option::<bool>::None && u.fix_change == Option::<i32>::None && u.resolved
        == Option::<bool>::None
}

/// The clause list a partial update produces: one clause per supplied
/// field, in statement order, with the summary sanitized and the two user
/// fields already resolved to ids.
pub open spec fn spec_update_clauses(
    u: IssueUpdateData,
    owner_id: int,
    nominated_by_id: int,
) -> Seq<SpecClause> {
    (if u.summary@.len() > 0 {
        seq![SpecClause::Summary(spec_sanitize(u.summary@, ISSUE_SUMMARY_MAX_LENGTH as int))]
    } else {
        Seq::<SpecClause>::empty()
    }) + (if u.owner@.len() > 0 {
        seq![SpecClause::Owner(owner_id)]
    } else {
        Seq::<SpecClause>::empty()
    }) + (if u.nominated_by@.len() > 0 {
        seq![SpecClause::NominatedBy(nominated_by_id)]
    } else {
        Seq::<SpecClause>::empty()
    }) + (match u.acknowledged {
        Option::Some(b) => seq![SpecClause::Acknowledged(b)],
        Option::None => Seq::<SpecClause>::empty(),
    }) + (match u.fix_change {
        Option::Some(c) => seq![SpecClause::FixChange(c as int)],
        Option::None => Seq::<SpecClause>::empty(),
    }) + (match u.resolved {
        Option::Some(b) => seq![SpecClause::Resolved(b)],
        Option::None => Seq::<SpecClause>::empty(),
    })
}

/// Build the clause list for a partial update.  `owner_id` and
/// `nominated_by_id` are the resolved ids of the respective names; each is
/// read only when its name was supplied.  No supplied field means no
/// clauses — the caller must then issue no statement at all.
pub fn update_clauses(update: &IssueUpdateData, owner_id: i64, nominated_by_id: i64) -> (r: Vec<
    UpdateClause,
>)
    ensures
        clause_views(r@) == spec_update_clauses(*update, owner_id as int, nominated_by_id as int),
        r@.len() == 0 <==> update_is_empty(*update),
{
    let mut out: Vec<UpdateClause> = Vec::new();
    if !update.summary.as_str().is_empty() {
        out.push(
            UpdateClause::Summary(
                sanitize_text(update.summary.as_str(), ISSUE_SUMMARY_MAX_LENGTH),
            ),
        );
    }
    if !update.owner.as_str().is_empty() {
        out.push(UpdateClause::Owner(owner_id));
    }
    if !update.nominated_by.as_str().is_empty() {
        out.push(UpdateClause::NominatedBy(nominated_by_id));
    }
    match update.acknowledged {
        Option::Some(b) => out.push(UpdateClause::Acknowledged(b)),
        Option::None => {},
    }
    match update.fix_change {
        Option::Some(c) => out.push(UpdateClause::FixChange(c)),
        Option::None => {},
    }
    match update.resolved {
        Option::Some(b) => out.push(UpdateClause::Resolved(b)),
        Option::None => {},
    }
    proof {
        assert(clause_views(out@) =~= spec_update_clauses(
            *update,
            owner_id as int,
            nominated_by_id as int,
        ));
    }
    out
}

/// Apply a partial update to a row, as the stored row will read back
/// afterwards: the summary sanitized, the user fields normalized, the
/// tri-state booleans stamping or clearing their timestamps with `now`,
/// and — the no-op rule — a update with no field supplied leaves the row
/// exactly as it was.
pub fn update_issue(row: &mut IssueData, update: &IssueUpdateData, now: i64)
    ensures
        final(row).id == old(row).id,
        final(row).created_at == old(row).created_at,
        final(row).retrieved_at == old(row).retrieved_at,
        final(row).project == old(row).project,
        final(row).notify == old(row).notify,
        final(row).summary@ == (if update.summary@.len() > 0 {
            spec_sanitize(update.summary@, ISSUE_SUMMARY_MAX_LENGTH as int)
        } else {
            old(row).summary@
        }),
        final(row).owner@ == (if update.owner@.len() > 0 {
            upper_of(update.owner@)
        } else {
            old(row).owner@
        }),
        final(row).nominated_by@ == (if update.nominated_by@.len() > 0 {
            upper_of(update.nominated_by@)
        } else {
            old(row).nominated_by@
        }),
        final(row).acknowledged_at == (match update.acknowledged {
            Option::Some(true) => Option::Some(now),
            Option::Some(false) => Option::<i64>::None,
            Option::None => old(row).acknowledged_at,
        }),
        final(row).fix_change == (match update.fix_change {
            Option::Some(c) => c,
            Option::None => old(row).fix_change,
        }),
        final(row).resolved_at == (match update.resolved {
            Option::Some(true) => Option::Some(now),
            Option::Some(false) => Option::<i64>::None,
            Option::None => old(row).resolved_at,
        }),
        update_is_empty(*update) ==> *final(row) == *old(row),
{
    if !update.summary.as_str().is_empty() {
        row.summary = sanitize_text(update.summary.as_str(), ISSUE_SUMMARY_MAX_LENGTH);
    }
    if !update.owner.as_str().is_empty() {
        row.owner = normalize_user_name(update.owner.as_str());
    }
    if !update.nominated_by.as_str().is_empty() {
        row.nominated_by = normalize_user_name(update.nominated_by.as_str());
    }
    match update.acknowledged {
        Option::Some(true) => {
            row.acknowledged_at = Option::Some(now);
        },
        Option::Some(false) => {
            row.acknowledged_at = Option::None;
        },
        Option::None => {},
    }
    match update.fix_change {
        Option::Some(c) => {
            row.fix_change = c;
        },
        Option::None => {},
    }
    match update.resolved {
        Option::Some(true) => {
            row.resolved_at = Option::Some(now);
        },
        Option::Some(false) => {
            row.resolved_at = Option::None;
        },
        Option::None => {},
    }
}


/// One bound parameter of a rendered statement.
#[derive(Debug, PartialEq, Eq)]
pub enum BindValue {
    Int(i64),
    Text(String),
}

/// The mathematical shape of a bound parameter.
pub enum SpecBind {
    Int(int),
    Text(Seq<char>),
}

impl View for BindValue {
    type V = SpecBind;

    open spec fn view(&self) -> SpecBind {
        match self {
            BindValue::Int(v) => SpecBind::Int(*v as int),
            BindValue::Text(s) => SpecBind::Text(s@),
        }
    }
}

pub open spec fn bind_views(bs: Seq<BindValue>) -> Seq<SpecBind> {
    bs.map_values(|b: BindValue| b@)
}

/// The SET fragment of one clause.  The tri-state timestamps never bind a
/// value: the statement stamps the storage clock or clears the column.
pub open spec fn spec_clause_sql(c: SpecClause) -> Seq<char> {
    match c {
        SpecClause::Summary(_) => "Summary=?"@,
        SpecClause::Owner(_) => "OwnerId=?"@,
        SpecClause::NominatedBy(_) => "NominatedById=?"@,
        SpecClause::Acknowledged(b) => if b {
            "AcknowledgedAt=UTC_TIMESTAMP()"@
        } else {
            "AcknowledgedAt=NULL"@
        },
        SpecClause::FixChange(_) => "FixChange=?"@,
        SpecClause::Resolved(b) => if b {
            "ResolvedAt=UTC_TIMESTAMP()"@
        } else {
            "ResolvedAt=NULL"@
        },
    }
}

/// The bound parameters of one clause, in order.
pub open spec fn spec_clause_binds(c: SpecClause) -> Seq<SpecBind> {
    match c {
        SpecClause::Summary(s) => seq![SpecBind::Text(s)],
        SpecClause::Owner(id) => seq![SpecBind::Int(id)],
        SpecClause::NominatedBy(id) => seq![SpecBind::Int(id)],
        SpecClause::Acknowledged(_) => Seq::<SpecBind>::empty(),
        SpecClause::FixChange(c) => seq![SpecBind::Int(c)],
        SpecClause::Resolved(_) => Seq::<SpecBind>::empty(),
    }
}

/// The comma-separated SET list of a clause sequence.
pub open spec fn spec_set_list(cs: Seq<SpecClause>) -> Seq<char>
    decreases cs.len(),
{
    if cs.len() == 0 {
        Seq::<char>::empty()
    } else if cs.len() == 1 {
        spec_clause_sql(cs[0])
    } else {
        spec_set_list(cs.drop_last()) + seq![','] + spec_clause_sql(cs.last())
    }
}

/// The bound parameters of a clause sequence, in order.
pub open spec fn spec_set_binds(cs: Seq<SpecClause>) -> Seq<SpecBind>
    decreases cs.len(),
{
    if cs.len() == 0 {
        Seq::<SpecBind>::empty()
    } else {
        spec_set_binds(cs.drop_last()) + spec_clause_binds(cs.last())
    }
}

/// The full partial-update statement for a non-empty clause list.
pub open spec fn spec_update_sql(cs: Seq<SpecClause>) -> Seq<char> {
    "UPDATE ugs_db.Issues SET "@ + spec_set_list(cs) + " WHERE id = ?"@
}

/// Render a partial update into one parameterized statement: the SET list
/// in clause order, each clause\u{2019}s parameters in the same order, and the
/// target id bound last.  An empty clause list renders no statement at all
/// \u{2014} the no-op rule, enforced in this one place.
#[verifier::loop_isolation(false)]
pub fn render_update(issue_id: i64, clauses: &Vec<UpdateClause>) -> (r: Option<
    (String, Vec<BindValue>),
>)
    ensures
        match r {
            Option::None => clauses@.len() == 0,
            Option::Some(q) => clauses@.len() > 0 && q.0@ == spec_update_sql(
                clause_views(clauses@),
            ) && bind_views(q.1@) == spec_set_binds(clause_views(clauses@)).push(
                SpecBind::Int(issue_id as int),
            ),
        },
{
    if clauses.len() == 0 {
        return Option::None;
    }
    let mut sql = String::new();
    sql.append("UPDATE ugs_db.Issues SET ");
    let mut binds: Vec<BindValue> = Vec::new();
    let n = clauses.len();
    let mut i: usize = 0;
    while i < n
        invariant
            i <= n,
            sql@ == "UPDATE ugs_db.Issues SET "@ + spec_set_list(
                clause_views(clauses@.take(i as int)),
            ),
            bind_views(binds@) == spec_set_binds(clause_views(clauses@.take(i as int))),
        decreases n - i,
    {
        if i > 0 {
            sql.append(",");
        }
        match &clauses[i] {
            UpdateClause::Summary(s) => {
                sql.append("Summary=?");
                binds.push(BindValue::Text(s.clone()));
            },
            UpdateClause::Owner(id) => {
                sql.append("OwnerId=?");
                binds.push(BindValue::Int(*id));
            },
            UpdateClause::NominatedBy(id) => {
                sql.append("NominatedById=?");
                binds.push(BindValue::Int(*id));
            },
            UpdateClause::Acknowledged(b) => {
                if *b {
                    sql.append("AcknowledgedAt=UTC_TIMESTAMP()");
                } else {
                    sql.append("AcknowledgedAt=NULL");
                }
            },
            UpdateClause::FixChange(c) => {
                sql.append("FixChange=?");
                binds.push(BindValue::Int(*c as i64));
            },
            UpdateClause::Resolved(b) => {
                if *b {
                    sql.append("ResolvedAt=UTC_TIMESTAMP()");
                } else {
                    sql.append("ResolvedAt=NULL");
                }
            },
        }
        proof {
            reveal_strlit(",");
            let prev = clause_views(clauses@.take(i as int));
            let cur = clause_views(clauses@.take(i + 1));
            assert(cur.drop_last() =~= prev);
            assert(cur.last() == clauses@[i as int]@);
            assert(sql@ =~= "UPDATE ugs_db.Issues SET "@ + spec_set_list(cur));
            assert(bind_views(binds@) =~= spec_set_binds(cur));
        }
        i = i + 1;
    }
    sql.append(" WHERE id = ?");
    binds.push(BindValue::Int(issue_id));
    proof {
        assert(clauses@.take(n as int) =~= clauses@);
        assert(sql@ =~= spec_update_sql(clause_views(clauses@)));
        assert(bind_views(binds@) =~= spec_set_binds(clause_views(clauses@)).push(
            SpecBind::Int(issue_id as int),
        ));
    }
    Option::Some((sql, binds))
}

/// The filtered-list statement a selector renders to.
pub open spec fn spec_issue_query_sql(sel: IssueSelector) -> Seq<char> {
    "SELECT Issues.Id, Issues.CreatedAt, UTC_TIMESTAMP(), Issues.Project, Issues.Summary, OwnerUsers.Name, NominatedByUsers.Name, Issues.AcknowledgedAt, Issues.FixChange, Issues.ResolvedAt"@
        + (match sel {
        IssueSelector::ByUser(_) => ", IssueWatchers.UserId"@,
        _ => Seq::<char>::empty(),
    })
        + " FROM ugs_db.Issues LEFT JOIN ugs_db.Users AS OwnerUsers ON OwnerUsers.Id = Issues.OwnerId LEFT JOIN ugs_db.Users AS NominatedByUsers ON NominatedByUsers.Id = Issues.NominatedById"@
        + (match sel {
        IssueSelector::ByUser(_) =>
            " LEFT JOIN ugs_db.IssueWatchers ON IssueWatchers.IssueId = Issues.Id AND IssueWatchers.UserId = ?"@,
        _ => Seq::<char>::empty(),
    }) + (match sel {
        IssueSelector::ById(_) => " WHERE Issues.Id = ?"@,
        IssueSelector::ByUser(_) => " WHERE IssueWatchers.UserId IS NOT NULL"@,
        IssueSelector::ByFilter { include_resolved, .. } => if include_resolved {
            Seq::<char>::empty()
        } else {
            " WHERE Issues.ResolvedAt IS NULL"@
        },
    }) + (match sel {
        IssueSelector::ByFilter { num_results: Option::Some(_), .. } =>
            " ORDER BY Issues.Id DESC LIMIT ?"@,
        IssueSelector::ByFilter { num_results: Option::None, .. } =>
            " ORDER BY Issues.Id DESC"@,
        _ => Seq::<char>::empty(),
    })
}

/// The bound parameters of the filtered-list statement.
pub open spec fn spec_issue_query_binds(sel: IssueSelector) -> Seq<SpecBind> {
    match sel {
        IssueSelector::ById(id) => seq![SpecBind::Int(id as int)],
        IssueSelector::ByUser(uid) => seq![SpecBind::Int(uid as int)],
        IssueSelector::ByFilter { num_results: Option::Some(k), .. } => seq![
            SpecBind::Int(k as int),
        ],
        IssueSelector::ByFilter { num_results: Option::None, .. } => Seq::<SpecBind>::empty(),
    }
}

/// Render a list selector into one parameterized statement.
pub fn render_issue_query(selector: IssueSelector) -> (r: (String, Vec<BindValue>))
    ensures
        r.0@ == spec_issue_query_sql(selector),
        bind_views(r.1@) == spec_issue_query_binds(selector),
{
    let mut sql = String::new();
    let mut binds: Vec<BindValue> = Vec::new();
    sql.append(
        "SELECT Issues.Id, Issues.CreatedAt, UTC_TIMESTAMP(), Issues.Project, Issues.Summary, OwnerUsers.Name, NominatedByUsers.Name, Issues.AcknowledgedAt, Issues.FixChange, Issues.ResolvedAt",
    );
    match selector {
        IssueSelector::ByUser(_) => sql.append(", IssueWatchers.UserId"),
        _ => {},
    }
    sql.append(
        " FROM ugs_db.Issues LEFT JOIN ugs_db.Users AS OwnerUsers ON OwnerUsers.Id = Issues.OwnerId LEFT JOIN ugs_db.Users AS NominatedByUsers ON NominatedByUsers.Id = Issues.NominatedById",
    );
    match selector {
        IssueSelector::ByUser(uid) => {
            sql.append(
                " LEFT JOIN ugs_db.IssueWatchers ON IssueWatchers.IssueId = Issues.Id AND IssueWatchers.UserId = ?",
            );
            binds.push(BindValue::Int(uid));
        },
        _ => {},
    }
    match selector {
        IssueSelector::ById(id) => {
            sql.append(" WHERE Issues.Id = ?");
            binds.push(BindValue::Int(id));
        },
        IssueSelector::ByUser(_) => {
            sql.append(" WHERE IssueWatchers.UserId IS NOT NULL");
        },
        IssueSelector::ByFilter { include_resolved, .. } => {
            if !include_resolved {
                sql.append(" WHERE Issues.ResolvedAt IS NULL");
            }
        },
    }
    match selector {
        IssueSelector::ByFilter { num_results: Option::Some(k), .. } => {
            sql.append(" ORDER BY Issues.Id DESC LIMIT ?");
            binds.push(BindValue::Int(k as i64));
        },
        IssueSelector::ByFilter { num_results: Option::None, .. } => {
            sql.append(" ORDER BY Issues.Id DESC");
        },
        _ => {},
    }
    proof {
        assert(sql@ =~= spec_issue_query_sql(selector));
        assert(bind_views(binds@) =~= spec_issue_query_binds(selector));
    }
    (sql, binds)
}

} // verus!
