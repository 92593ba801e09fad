use gitradar::infrastructure::database::repositories::commit_parents::{
    commit_graph_data_query, commits_with_parents_query, parent_links, split_parent_list,
};
use gitradar::infrastructure::database::repositories::settings::default_settings;
use gitradar::infrastructure::database::migrations::{
    has_column, legacy_upgrade, missing_starred_columns, starred_index_wanted, LegacyUpgrade,
};
use gitradar::infrastructure::database::repositories::activity::{
    activity_summary_query, daily_activity_query, repo_activity_query,
};
use gitradar::infrastructure::database::repositories::audit_logs::{
    audit_logs_by_action_query, audit_logs_query,
};
use gitradar::infrastructure::database::repositories::commits::split_aggregated_list;
use gitradar::infrastructure::database::repositories::contributors::top_contributors_query;
use gitradar::infrastructure::database::repositories::indexing_jobs::{
    completes_job, indexing_jobs_by_repo_query,
};
use gitradar::infrastructure::database::repositories::repositories::{
    build_page_query, cut_page, filter_clause, lowered_filter_clause, PageCut, SqlValue,
};
use gitradar::infrastructure::database::repositories::search_index::{
    build_match_expression, search_match_expression,
};

const COLUMNS: &str = "SELECT id, name, path, git_dir_path, repo_type, is_enabled, health_score, default_branch, head_branch,
                remote_url, is_dirty, last_commit_hash, last_commit_at, last_scanned_at, last_indexed_at, index_status, 
                created_at, updated_at, total_commits, weekly_commits, unique_contributors
         FROM repository_summary
         ";

#[test]
fn page_query_with_search_filter_and_cursor() {
    let q = build_page_query(Some("  web "), Some("Modified"), 20, Some(42));
    assert_eq!(
        q.count_sql,
        "SELECT COUNT(*) FROM repository_summary WHERE (name LIKE ?1 OR path LIKE ?1) AND is_dirty = 1"
    );
    assert_eq!(q.count_params, vec![SqlValue::Text("%web%".to_string())]);
    assert_eq!(
        q.page_sql,
        format!(
            "{}WHERE (name LIKE ?1 OR path LIKE ?1) AND is_dirty = 1 AND id < ?2\n         ORDER BY id DESC\n         LIMIT ?3",
            COLUMNS
        )
    );
    assert_eq!(
        q.page_params,
        vec![
            SqlValue::Text("%web%".to_string()),
            SqlValue::Integer(42),
            SqlValue::Integer(21)
        ]
    );
}

#[test]
fn page_query_without_conditions() {
    let q = build_page_query(Some("   "), Some("bogus"), 5, None);
    assert_eq!(q.count_sql, "SELECT COUNT(*) FROM repository_summary ");
    assert!(q.count_params.is_empty());
    assert_eq!(q.page_sql, format!("{}\n         ORDER BY id DESC\n         LIMIT ?1", COLUMNS));
    assert_eq!(q.page_params, vec![SqlValue::Integer(6)]);
    assert_eq!(filter_clause("CLEAN"), Some("is_dirty = 0"));
    assert_eq!(filter_clause("Unhealthy"), Some("health_score < 0.7"));
    assert_eq!(filter_clause("other"), None);
}

#[test]
fn page_cut_tells_whether_more_follow() {
    assert_eq!(
        cut_page(&vec![9, 8, 7], 2),
        PageCut { keep: 2, has_more: true, next_cursor: Some(8) }
    );
    assert_eq!(
        cut_page(&vec![9, 8], 2),
        PageCut { keep: 2, has_more: false, next_cursor: None }
    );
    assert_eq!(
        cut_page(&vec![9], 0),
        PageCut { keep: 0, has_more: true, next_cursor: None }
    );
    let all = vec![9, 8, 7, 5, 2];
    let cut = cut_page(&all, 2);
    let cursor = cut.next_cursor.unwrap();
    let rest: Vec<i64> = all.iter().copied().filter(|id| *id < cursor).collect();
    assert_eq!(rest, all[cut.keep..].to_vec());
}

#[test]
fn search_expression_from_words() {
    assert_eq!(build_match_expression("fix login"), "fix* login*");
    assert_eq!(build_match_expression("say \"hi\""), "say* \"\"hi\"\"*");
    assert_eq!(search_match_expression("   "), None);
    assert_eq!(search_match_expression("  bob\t main "), Some("bob* main*".to_string()));
}

#[test]
fn audit_and_job_queries() {
    let base = "SELECT id, action, entity_type, entity_id, details, created_at FROM audit_logs";
    assert_eq!(
        audit_logs_query(Some("repo"), Some("7"), Some(10)),
        format!(
            "{} WHERE entity_type = 'repo' AND entity_id = '7' ORDER BY created_at DESC LIMIT 10",
            base
        )
    );
    assert_eq!(
        audit_logs_query(None, Some("7"), None),
        format!("{} WHERE entity_id = '7' ORDER BY created_at DESC", base)
    );
    assert_eq!(audit_logs_query(None, None, Some(-1)), format!("{} ORDER BY created_at DESC LIMIT -1", base));
    assert!(audit_logs_by_action_query(Some(3)).ends_with("ORDER BY created_at DESC LIMIT 3"));
    assert!(indexing_jobs_by_repo_query(None).contains("WHERE repo_id = ?1"));
    assert!(indexing_jobs_by_repo_query(Some(5)).ends_with(" LIMIT 5"));
    assert!(top_contributors_query(Some(2)).ends_with("ORDER BY commit_count DESC LIMIT 2"));
    assert!(completes_job("completed"));
    assert!(completes_job("failed"));
    assert!(!completes_job("running"));
}

#[test]
fn activity_queries() {
    let q = repo_activity_query(Some("2024-01-01"), None, Some(30));
    assert!(q.ends_with(
        "WHERE repo_id = ?1 AND activity_date >= '2024-01-01' ORDER BY activity_date DESC LIMIT 30"
    ));
    let s = activity_summary_query(None, Some("2024-02-01"));
    assert!(s.starts_with("SELECT SUM(commit_count)"));
    assert!(s.ends_with("WHERE repo_id = ?1 AND activity_date <= '2024-02-01'"));
    let d = daily_activity_query(3, None, Some("2024-02-01"));
    assert!(d.sql.ends_with("WHERE repo_id = ?1 AND activity_date <= ?2 ORDER BY activity_date DESC"));
    assert_eq!(
        d.params,
        vec![SqlValue::Integer(3), SqlValue::Text("2024-02-01".to_string())]
    );
    let both = daily_activity_query(3, Some("a"), Some("b"));
    assert!(both.sql.contains(">= ?2 AND activity_date <= ?3"));
    assert_eq!(both.params.len(), 3);
}

#[test]
fn aggregated_lists_split_on_commas() {
    assert_eq!(
        split_aggregated_list(Some("main,,dev,".to_string())),
        vec!["main".to_string(), "dev".to_string()]
    );
    assert!(split_aggregated_list(None).is_empty());
    assert!(split_aggregated_list(Some(String::new())).is_empty());
}

#[test]
fn schema_upgrade_decisions() {
    let cols = |names: &[&str]| names.iter().map(|s| s.to_string()).collect::<Vec<String>>();
    assert_eq!(legacy_upgrade(&cols(&["id", "root_id"])), LegacyUpgrade::RebuildWithoutRootId);
    assert_eq!(legacy_upgrade(&cols(&["id", "name"])), LegacyUpgrade::AddEnabledColumn);
    assert_eq!(legacy_upgrade(&cols(&[])), LegacyUpgrade::NoChange);
    assert_eq!(legacy_upgrade(&cols(&["id", "is_enabled"])), LegacyUpgrade::NoChange);
    let m = missing_starred_columns(&cols(&["is_starred"]));
    assert!(!m.add_is_starred);
    assert!(m.add_starred_at);
    assert!(starred_index_wanted(&cols(&["is_starred"]), false, true));
    assert!(!starred_index_wanted(&cols(&["is_starred"]), false, false));
    assert!(has_column(&cols(&["a", "b"]), "b"));
}

#[test]
fn parent_links_and_graph_rows() {
    let links = parent_links(&vec!["p0".to_string(), "p1".to_string()]);
    assert_eq!(links, vec![("p0".to_string(), 0), ("p1".to_string(), 1)]);
    assert_eq!(
        split_parent_list(Some("a,,b".to_string())),
        vec!["a".to_string(), String::new(), "b".to_string()]
    );
    assert_eq!(split_parent_list(Some(String::new())), vec![String::new()]);
    assert!(split_parent_list(None).is_empty());
    assert!(commit_graph_data_query(Some(4)).ends_with("GROUP BY cp.commit_hash LIMIT 4"));
    assert!(commits_with_parents_query(None).ends_with("ORDER BY c.committed_at ASC"));
    let defaults = default_settings();
    assert_eq!(defaults.len(), 5);
    assert_eq!(defaults[0], ("scan_interval_minutes", "30"));
    assert_eq!(defaults[4], ("language", "en"));
}

#[test]
fn successive_pages_list_every_row_once() {
    let all: Vec<i64> = vec![9, 8, 7, 5, 2];
    let limit: usize = 2;
    let mut cursor: Option<i64> = None;
    let mut listed: Vec<i64> = Vec::new();
    let mut pages: usize = 0;
    loop {
        let fetched: Vec<i64> = all
            .iter()
            .copied()
            .filter(|id| cursor.map_or(true, |c| *id < c))
            .take(limit + 1)
            .collect();
        let cut = cut_page(&fetched, limit);
        listed.extend_from_slice(&fetched[..cut.keep]);
        pages += 1;
        if !cut.has_more {
            assert_eq!(cut.next_cursor, None);
            break;
        }
        cursor = cut.next_cursor;
    }
    assert_eq!(pages, 3);
    assert_eq!(listed, all);
}

#[test]
fn lowered_filters_name_their_conditions() {
    assert_eq!(lowered_filter_clause("clean"), Some("is_dirty = 0"));
    assert_eq!(lowered_filter_clause("modified"), Some("is_dirty = 1"));
    assert_eq!(lowered_filter_clause("unhealthy"), Some("health_score < 0.7"));
    assert_eq!(lowered_filter_clause("enabled"), Some("is_enabled = 1"));
    assert_eq!(lowered_filter_clause("disabled"), Some("is_enabled = 0"));
    assert_eq!(lowered_filter_clause("Clean"), None);
    assert_eq!(filter_clause("Clean"), Some("is_dirty = 0"));
}
