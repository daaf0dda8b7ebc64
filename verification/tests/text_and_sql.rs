use maps_backend::jobs::gas_station_sync::{region_tiles, sync_start, sync_step, SyncAction, SyncEvent, SyncState};
use maps_backend::migrate::{plan_migration, split_sql_statements, MigrationPlan};
use maps_backend::text::{is_blank, same_text, trim};

#[test]
fn trim_removes_unicode_whitespace_at_both_ends() {
    assert_eq!(trim("  \t hello world \n"), "hello world");
    assert_eq!(trim("\u{3000}สวัสดี\u{a0}"), "สวัสดี");
    assert_eq!(trim("   "), "");
    assert_eq!(trim(""), "");
}

#[test]
fn trim_twice_is_trim_once() {
    for s in ["  a b  ", "\n\nx", "y\t", "", " \u{2003} "] {
        let once = trim(s);
        assert_eq!(trim(&once), once);
    }
}

#[test]
fn blank_texts() {
    assert!(is_blank(" \r\n\t"));
    assert!(!is_blank(" a "));
    assert!(same_text("abc", "abc"));
    assert!(!same_text("abc", "abd"));
}

#[test]
fn sql_is_split_at_semicolon_newline() {
    let sql = "CREATE TABLE a (id INT);\nCREATE TABLE b (id INT);\n";
    assert_eq!(
        split_sql_statements(sql),
        vec!["CREATE TABLE a (id INT)".to_string(), "CREATE TABLE b (id INT)".to_string()]
    );
}

#[test]
fn sql_windows_line_endings_are_normalised() {
    let sql = "INSERT INTO t VALUES (1);\r\nINSERT INTO t VALUES (2);\r\n";
    assert_eq!(
        split_sql_statements(sql),
        vec!["INSERT INTO t VALUES (1)".to_string(), "INSERT INTO t VALUES (2)".to_string()]
    );
}

#[test]
fn sql_comment_only_pieces_are_skipped() {
    let sql = "-- header comment\n\n-- more;\nSELECT 1;\n   \n;\nSELECT 2";
    assert_eq!(split_sql_statements(sql), vec!["SELECT 1".to_string(), "SELECT 2".to_string()]);
}

#[test]
fn sql_statement_with_comment_and_code_is_kept() {
    let sql = "-- make table\nCREATE TABLE c (x INT);\n";
    assert_eq!(split_sql_statements(sql), vec!["-- make table\nCREATE TABLE c (x INT)".to_string()]);
}

#[test]
fn sql_trailing_semicolons_are_removed() {
    assert_eq!(split_sql_statements("SELECT 3;;"), vec!["SELECT 3".to_string()]);
    assert_eq!(split_sql_statements(" ; "), Vec::<String>::new());
    assert_eq!(split_sql_statements(""), Vec::<String>::new());
}

#[test]
fn sql_semicolon_inside_a_line_does_not_split() {
    assert_eq!(
        split_sql_statements("SELECT ';' ; SELECT 4;\nSELECT 5"),
        vec!["SELECT ';' ; SELECT 4".to_string(), "SELECT 5".to_string()]
    );
}

#[test]
fn joined_statements_split_back() {
    let stmts = vec!["CREATE TABLE x (a INT)".to_string(), "ALTER TABLE x ADD b INT".to_string(), "SELECT 1".to_string()];
    let joined = stmts.join(";\n");
    assert_eq!(split_sql_statements(&joined), stmts);
}

#[test]
fn region_tiles_are_sorted_and_cover_both_grids() {
    let tiles = region_tiles();
    // 9 latitudes by 6 longitudes, then 4 latitudes by 6 longitudes
    assert_eq!(tiles.len(), 78);
    assert_eq!(tiles[0], (2, 194, 7, 199));
    for w in tiles.windows(2) {
        assert!((w[0].0, w[0].1) < (w[1].0, w[1].1));
    }
    assert!(tiles.contains(&(36, 219, 41, 224)));
    assert!(tiles.contains(&(42, 219, 47, 224)));
    assert!(!tiles.contains(&(47, 194, 52, 199)));
    assert_eq!(*tiles.last().unwrap(), (51, 219, 56, 224));
}

#[test]
fn sync_walks_every_tile_once_and_pauses_between() {
    let s = sync_start();
    assert_eq!(s, SyncState { next: 0, stored: 0, failed: 0 });
    let (s, a) = sync_step(s, 3, SyncEvent::Stored(4));
    assert_eq!((s, a), (SyncState { next: 1, stored: 4, failed: 0 }, SyncAction::Pause(2500)));
    let (s, a) = sync_step(s, 3, SyncEvent::Failed);
    assert_eq!((s, a), (SyncState { next: 2, stored: 4, failed: 1 }, SyncAction::Pause(2500)));
    let (s, a) = sync_step(s, 3, SyncEvent::Stored(1));
    assert_eq!((s, a), (SyncState { next: 3, stored: 5, failed: 1 }, SyncAction::Done));
}

#[test]
fn applied_migrations_are_skipped_others_run() {
    assert_eq!(plan_migration(true, "CREATE TABLE a (x INT);\n"), MigrationPlan::Skip);
    assert_eq!(
        plan_migration(false, "CREATE TABLE a (x INT);\nCREATE TABLE b (y INT);\n"),
        MigrationPlan::Run(vec!["CREATE TABLE a (x INT)".to_string(), "CREATE TABLE b (y INT)".to_string()])
    );
}
