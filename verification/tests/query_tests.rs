use ugs_metadata::models::{IssueData, IssueUpdateData};
use ugs_metadata::query::{
    get_issue, list_issues, make_selector, render_issue_query, render_update, update_clauses,
    update_issue, BindValue, IssueSelector, UpdateClause, WatcherRow,
};

fn issue(id: i64, resolved: bool) -> IssueData {
    IssueData {
        id,
        created_at: 1000 + id,
        retrieved_at: 2000 + id,
        project: String::from("//Foo/Bar"),
        summary: format!("issue {}", id),
        owner: String::from("ALICE"),
        nominated_by: String::new(),
        acknowledged_at: None,
        fix_change: 0,
        resolved_at: if resolved { Some(3000 + id) } else { None },
        notify: false,
    }
}

fn empty_update() -> IssueUpdateData {
    IssueUpdateData {
        summary: String::new(),
        owner: String::new(),
        nominated_by: String::new(),
        acknowledged: None,
        fix_change: None,
        resolved: None,
    }
}

#[test]
fn selector_prefers_id_over_user_and_filter() {
    let sel = make_selector(Some(7), Some(3), false, Some(10));
    assert_eq!(sel, IssueSelector::ById(7));
    let sel = make_selector(None, Some(3), false, Some(10));
    assert_eq!(sel, IssueSelector::ByUser(3));
    let sel = make_selector(None, None, true, None);
    assert_eq!(sel, IssueSelector::ByFilter { include_resolved: true, num_results: None });
}

#[test]
fn id_selector_returns_resolved_row_despite_filter() {
    // the resolution filter is ignored when an id is supplied
    let rows = vec![issue(5, false), issue(7, true), issue(9, false)];
    let watchers: Vec<WatcherRow> = Vec::new();
    let sel = make_selector(Some(7), None, false, Some(1));
    let out = list_issues(&rows, &watchers, sel);
    assert_eq!(out.len(), 1);
    assert_eq!(out[0].id, 7);
    assert!(out[0].resolved_at.is_some());
}

#[test]
fn user_selector_returns_watched_rows_any_state() {
    let rows = vec![issue(1, false), issue(2, true), issue(3, false)];
    let watchers = vec![
        WatcherRow { issue_id: 2, user_id: 40 },
        WatcherRow { issue_id: 3, user_id: 41 },
    ];
    let out = list_issues(&rows, &watchers, IssueSelector::ByUser(40));
    assert_eq!(out.len(), 1);
    assert_eq!(out[0].id, 2);
}

#[test]
fn filter_selector_orders_newest_first_and_bounds() {
    let rows = vec![issue(1, false), issue(2, true), issue(3, false), issue(4, false)];
    let watchers: Vec<WatcherRow> = Vec::new();
    let all = list_issues(
        &rows,
        &watchers,
        IssueSelector::ByFilter { include_resolved: true, num_results: None },
    );
    let ids: Vec<i64> = all.iter().map(|r| r.id).collect();
    assert_eq!(ids, vec![4, 3, 2, 1]);
    let unresolved = list_issues(
        &rows,
        &watchers,
        IssueSelector::ByFilter { include_resolved: false, num_results: Some(2) },
    );
    let ids: Vec<i64> = unresolved.iter().map(|r| r.id).collect();
    assert_eq!(ids, vec![4, 3]);
}

#[test]
fn get_issue_finds_first_match_or_nothing() {
    let rows = vec![issue(5, false), issue(7, true)];
    assert_eq!(get_issue(&rows, 7).map(|r| r.id), Some(7));
    assert!(get_issue(&rows, 8).is_none());
}

#[test]
fn empty_update_is_a_noop() {
    let mut row = issue(7, true);
    let before = row.clone();
    update_issue(&mut row, &empty_update(), 99999);
    assert_eq!(row, before);
    assert!(update_clauses(&empty_update(), 0, 0).is_empty());
    assert!(render_update(7, &Vec::new()).is_none());
}

#[test]
fn update_applies_supplied_fields() {
    let mut row = issue(7, false);
    let update = IssueUpdateData {
        summary: String::from("new summary"),
        owner: String::from("bob"),
        nominated_by: String::new(),
        acknowledged: Some(true),
        fix_change: Some(123),
        resolved: Some(true),
    };
    update_issue(&mut row, &update, 5555);
    assert_eq!(row.summary, "new summary");
    assert_eq!(row.owner, "BOB");
    assert_eq!(row.nominated_by, "");
    assert_eq!(row.acknowledged_at, Some(5555));
    assert_eq!(row.fix_change, 123);
    assert_eq!(row.resolved_at, Some(5555));
    assert_eq!(row.id, 7);
}

#[test]
fn update_sanitizes_long_summaries() {
    let mut row = issue(7, false);
    let update = IssueUpdateData { summary: "a".repeat(500), ..empty_update() };
    update_issue(&mut row, &update, 0);
    assert_eq!(row.summary, format!("{}...", "a".repeat(197)));
    assert_eq!(row.summary.chars().count(), 200);
}

#[test]
fn update_clears_timestamps_on_false() {
    let mut row = issue(7, true);
    row.acknowledged_at = Some(10);
    let update =
        IssueUpdateData { acknowledged: Some(false), resolved: Some(false), ..empty_update() };
    update_issue(&mut row, &update, 5555);
    assert_eq!(row.acknowledged_at, None);
    assert_eq!(row.resolved_at, None);
}

#[test]
fn update_statement_lists_only_supplied_columns() {
    let update = IssueUpdateData {
        summary: String::from("s"),
        resolved: Some(true),
        ..empty_update()
    };
    let clauses = update_clauses(&update, 0, 0);
    assert_eq!(
        clauses,
        vec![UpdateClause::Summary(String::from("s")), UpdateClause::Resolved(true)]
    );
    let (sql, binds) = render_update(42, &clauses).unwrap();
    assert_eq!(sql, "UPDATE ugs_db.Issues SET Summary=?,ResolvedAt=UTC_TIMESTAMP() WHERE id = ?");
    assert_eq!(binds, vec![BindValue::Text(String::from("s")), BindValue::Int(42)]);
}

#[test]
fn update_statement_binds_resolved_users() {
    let update = IssueUpdateData {
        owner: String::from("bob"),
        nominated_by: String::from("carol"),
        acknowledged: Some(false),
        fix_change: Some(9),
        ..empty_update()
    };
    let clauses = update_clauses(&update, 11, 12);
    let (sql, binds) = render_update(7, &clauses).unwrap();
    assert_eq!(
        sql,
        "UPDATE ugs_db.Issues SET OwnerId=?,NominatedById=?,AcknowledgedAt=NULL,FixChange=? WHERE id = ?"
    );
    assert_eq!(
        binds,
        vec![BindValue::Int(11), BindValue::Int(12), BindValue::Int(9), BindValue::Int(7)]
    );
}

#[test]
fn query_statement_by_id() {
    let (sql, binds) = render_issue_query(IssueSelector::ById(7));
    assert_eq!(
        sql,
        "SELECT Issues.Id, Issues.CreatedAt, UTC_TIMESTAMP(), Issues.Project, Issues.Summary, \
         OwnerUsers.Name, NominatedByUsers.Name, Issues.AcknowledgedAt, Issues.FixChange, \
         Issues.ResolvedAt FROM ugs_db.Issues LEFT JOIN ugs_db.Users AS OwnerUsers ON \
         OwnerUsers.Id = Issues.OwnerId LEFT JOIN ugs_db.Users AS NominatedByUsers ON \
         NominatedByUsers.Id = Issues.NominatedById WHERE Issues.Id = ?"
    );
    assert_eq!(binds, vec![BindValue::Int(7)]);
}

#[test]
fn query_statement_by_user_restricts_to_watched_rows() {
    let (sql, binds) = render_issue_query(IssueSelector::ByUser(3));
    assert!(sql.contains(", IssueWatchers.UserId"));
    assert!(sql.contains(
        " LEFT JOIN ugs_db.IssueWatchers ON IssueWatchers.IssueId = Issues.Id AND \
         IssueWatchers.UserId = ?"
    ));
    assert!(sql.ends_with(" WHERE IssueWatchers.UserId IS NOT NULL"));
    assert_eq!(binds, vec![BindValue::Int(3)]);
}

#[test]
fn query_statement_by_filter() {
    let (sql, binds) = render_issue_query(IssueSelector::ByFilter {
        include_resolved: false,
        num_results: Some(5),
    });
    assert!(sql.ends_with(" WHERE Issues.ResolvedAt IS NULL ORDER BY Issues.Id DESC LIMIT ?"));
    assert_eq!(binds, vec![BindValue::Int(5)]);
    let (sql, binds) = render_issue_query(IssueSelector::ByFilter {
        include_resolved: true,
        num_results: None,
    });
    assert!(sql.ends_with("NominatedByUsers.Id = Issues.NominatedById ORDER BY Issues.Id DESC"));
    assert!(binds.is_empty());
}
