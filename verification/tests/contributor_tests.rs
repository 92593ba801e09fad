use gitradar::domain::contributor::{Contributor, ContributorLevel, ContributorRole};

#[test]
fn test_contributor_creation() {
    let contributor =
        Contributor::new(1, 1, "John Doe".to_string(), "john@example.com".to_string()).unwrap();

    assert_eq!(contributor.name, "John Doe");
    assert_eq!(contributor.commit_count, 0);
}

#[test]
fn test_changes_per_commit() {
    let mut contributor =
        Contributor::new(1, 1, "John Doe".to_string(), "john@example.com".to_string()).unwrap();

    contributor.commit_count = 10;
    contributor.additions = 1000;
    contributor.deletions = 500;

    assert_eq!(contributor.changes_per_commit(), 150);
}

#[test]
fn test_contribution_summary() {
    let mut contributor =
        Contributor::new(1, 1, "John Doe".to_string(), "john@example.com".to_string()).unwrap();

    contributor.commit_count = 50;
    contributor.additions = 5000;
    contributor.deletions = 2000;
    contributor.active_days = 100;

    let summary = contributor.contribution_summary();
    assert!(summary.contains("50 commits"));
    assert!(summary.contains("5000 added"));
}

#[test]
fn contributor_roles_by_tier_and_activity() {
    let mut c = Contributor::new(1, 1, "John".to_string(), "j@x".to_string()).unwrap();
    assert!(!c.is_active());
    assert_eq!(c.get_role(ContributorLevel::CoreMaintainer), ContributorRole::InactiveMaintainer);
    c.set_last_commit("2024-01-01T10:00:00Z".to_string());
    assert!(c.is_active());
    assert_eq!(c.get_role(ContributorLevel::CoreMaintainer), ContributorRole::ActiveMaintainer);
    assert_eq!(c.get_role(ContributorLevel::MajorContributor), ContributorRole::ActiveContributor);
    assert_eq!(c.get_role(ContributorLevel::Occasional), ContributorRole::Contributor);
    assert_eq!(ContributorRole::ActiveMaintainer.to_string(), "Active Maintainer");
    assert_eq!(ContributorLevel::RegularContributor.to_string(), "Regular");
    c.set_last_commit(String::new());
    assert!(!c.is_active());
}

#[test]
fn contributor_metrics_and_summary_text() {
    let mut c = Contributor::new(1, 1, "John".to_string(), "j@x".to_string()).unwrap();
    assert_eq!(c.changes_per_commit(), 0);
    c.update_metrics(7, 3, 2);
    c.increment_commit_count();
    c.increment_commit_count();
    c.increment_commit_count();
    assert_eq!(c.commit_count, 3);
    assert_eq!(c.changes_per_commit(), 3);
    assert_eq!(
        c.contribution_summary(),
        "3 commits, 7 added, 3 removed, 2 active days"
    );
    let err = Contributor::new(1, 1, String::new(), "j@x".to_string()).unwrap_err();
    assert_eq!(err.to_string(), "Invalid commit: Contributor name cannot be empty");
}
