use ugs_metadata::cursor::{get_builds, get_comments, get_last_ids, get_user_votes, CursorRow};
use ugs_metadata::models::{BuildData, BuildResult, CommentData, EventData, EventType};

fn window(count: i64) -> Vec<CursorRow> {
    // newest first: row k has the k-th highest change number and id
    (0..count).map(|k| CursorRow { id: count - k, change: (1000 - k) as i32 }).collect()
}

#[test]
fn watermarks_of_empty_scope_are_zero() {
    let none: Vec<CursorRow> = Vec::new();
    let latest = get_last_ids(&none, &none, &none);
    assert_eq!(latest.last_event_id, 0);
    assert_eq!(latest.last_comment_id, 0);
    assert_eq!(latest.last_build_id, 0);
}

#[test]
fn watermark_of_small_scope_is_oldest_row() {
    let rows = window(5);
    let latest = get_last_ids(&rows, &Vec::new(), &Vec::new());
    assert_eq!(latest.last_event_id, 1);
}

#[test]
fn watermark_is_bounded_by_the_window() {
    // 150 rows in scope: the watermark is the id of the hundredth-most-
    // recent row, not 0 and not the absolute earliest id.
    let rows = window(150);
    let latest = get_last_ids(&Vec::new(), &rows, &Vec::new());
    assert_eq!(latest.last_comment_id, rows[99].id);
    assert_eq!(latest.last_comment_id, 51);
    assert_ne!(latest.last_comment_id, 0);
    assert_ne!(latest.last_comment_id, 1);
}

fn event(id: i64, project: &str) -> EventData {
    EventData {
        id,
        change: id as i32,
        user_name: String::from("u"),
        event_type: EventType::Good,
        project: String::from(project),
    }
}

#[test]
fn event_delta_filters_watermark_and_project() {
    let rows = vec![
        event(1, "//Foo/Bar"),
        event(5, ""),
        event(7, "//Other/Place"),
        event(9, "//Foo/Bar"),
    ];
    let out = get_user_votes(&rows, "//Foo/Bar", 1);
    let ids: Vec<i64> = out.iter().map(|e| e.id).collect();
    assert_eq!(ids, vec![5, 9]);
}

#[test]
fn comment_delta_keeps_ascending_order() {
    let rows: Vec<CommentData> = (1..=6)
        .map(|id| CommentData {
            id,
            change_number: id as i32,
            user_name: String::from("u"),
            text: String::from("t"),
            project: String::from("//Foo/Bar"),
        })
        .collect();
    let out = get_comments(&rows, "//Foo/Bar", 3);
    let ids: Vec<i64> = out.iter().map(|c| c.id).collect();
    assert_eq!(ids, vec![4, 5, 6]);
}

fn build(id: i64, project: &str) -> BuildData {
    BuildData {
        id,
        change_number: id as i32,
        build_type: String::from("Editor"),
        result: BuildResult::Success,
        url: String::from("http://example"),
        project: String::from(project),
        archive_path: String::new(),
    }
}

#[test]
fn build_delta_accepts_wildcard_projects() {
    let rows = vec![
        build(2, "//Foo/..."),
        build(3, "//Foo/Bar"),
        build(4, ""),
        build(5, "//Baz/..."),
        build(6, "//Other/Place"),
    ];
    let out = get_builds(&rows, "//Foo/Bar", 0);
    let ids: Vec<i64> = out.iter().map(|b| b.id).collect();
    assert_eq!(ids, vec![2, 3, 4]);
}
