use gitradar::domain::repository::{
    activity_description, validate_paths, validate_paths_named, is_dormant, needs_maintenance, MaintenancePriority, RepositoryStatus,
};
use gitradar::domain::value_objects::{ActivityLevel, CommitCount, HealthStatus, RepositoryId};

#[test]
fn test_activity_level_calculation() {
    assert_eq!(ActivityLevel::from_weekly_commits(0), ActivityLevel::VeryLow);
    assert_eq!(ActivityLevel::from_weekly_commits(2), ActivityLevel::Low);
    assert_eq!(ActivityLevel::from_weekly_commits(7), ActivityLevel::Moderate);
    assert_eq!(ActivityLevel::from_weekly_commits(15), ActivityLevel::High);
    assert_eq!(ActivityLevel::from_weekly_commits(25), ActivityLevel::VeryHigh);
}

#[test]
fn test_activity_is_active() {
    assert!(!ActivityLevel::VeryLow.is_active());
    assert!(!ActivityLevel::Low.is_active());
    assert!(ActivityLevel::Moderate.is_active());
    assert!(ActivityLevel::High.is_active());
}

#[test]
fn test_repository_id_validation() {
    assert!(RepositoryId::new(1).is_ok());
    assert!(RepositoryId::new(0).is_err());
    assert!(RepositoryId::new(-1).is_err());
}

#[test]
fn activity_band_edges() {
    assert_eq!(ActivityLevel::from_weekly_commits(3), ActivityLevel::Low);
    assert_eq!(ActivityLevel::from_weekly_commits(4), ActivityLevel::Moderate);
    assert_eq!(ActivityLevel::from_weekly_commits(10), ActivityLevel::Moderate);
    assert_eq!(ActivityLevel::from_weekly_commits(11), ActivityLevel::High);
    assert_eq!(ActivityLevel::from_weekly_commits(20), ActivityLevel::High);
    assert_eq!(ActivityLevel::from_weekly_commits(21), ActivityLevel::VeryHigh);
    assert_eq!(ActivityLevel::VeryHigh.name(), "VeryHigh");
    assert_eq!(ActivityLevel::Low.description(), "Low - Occasional updates");
    assert_eq!(RepositoryId::new(5).unwrap().value(), 5);
    assert_eq!(
        RepositoryId::new(0).unwrap_err(),
        "Repository ID must be positive"
    );
    assert!(CommitCount::new(0).is_empty());
    assert_eq!(CommitCount::from(4).value(), 4);
    assert_eq!(HealthStatus::Poor.to_string(), "Poor");
    assert_eq!(HealthStatus::Poor.description(), "Repository needs attention");
}

#[test]
fn repository_status_rules() {
    assert_eq!(
        RepositoryStatus::from_health_and_activity(true, ActivityLevel::High),
        RepositoryStatus::HealthyAndActive
    );
    assert_eq!(
        RepositoryStatus::from_health_and_activity(false, ActivityLevel::Low),
        RepositoryStatus::UnhealthyAndInactive
    );
    assert_eq!(
        RepositoryStatus::from_health_and_activity(true, ActivityLevel::Low).to_string(),
        "Healthy but Inactive"
    );
    assert!(!needs_maintenance(true, ActivityLevel::Moderate));
    assert!(needs_maintenance(true, ActivityLevel::Low));
    assert!(needs_maintenance(false, ActivityLevel::VeryHigh));
    assert!(is_dormant(CommitCount::new(0), ActivityLevel::VeryLow));
    assert!(!is_dormant(CommitCount::new(1), ActivityLevel::VeryLow));
    assert_eq!(
        activity_description(ActivityLevel::Moderate, 3),
        "Moderate - Regular updates with 3 contributors"
    );
    assert_eq!(
        activity_description(ActivityLevel::VeryLow, 0),
        "Very Low - Rarely updated with no contributors"
    );
    assert_eq!(
        activity_description(ActivityLevel::High, 1),
        "High - Frequent updates with 1 contributor"
    );
    assert_eq!(MaintenancePriority::Critical.rank(), 4);
    assert_eq!(MaintenancePriority::NotNeeded.to_string(), "No maintenance needed");
    assert!(MaintenancePriority::Low < MaintenancePriority::High);
}

#[test]
fn repository_paths_are_validated() {
    assert!(validate_paths("/r/app", "/r/app/.git").is_ok());
    assert!(validate_paths("/r/app", "").is_ok());
    assert_eq!(
        validate_paths("", "/r/app/.git").unwrap_err().to_string(),
        "Invalid repository: Repository path cannot be empty"
    );
    assert_eq!(
        validate_paths("/r/app", "/r/app/git").unwrap_err().to_string(),
        "Invalid repository: Git directory must end with .git"
    );
}

#[test]
fn git_dir_name_decides_path_validity() {
    assert!(validate_paths_named("/r", "/r/.git", Some(".git".to_string())).is_ok());
    assert!(validate_paths_named("/r", "", None).is_ok());
    assert_eq!(
        validate_paths_named("/r", "/r/git", Some("git".to_string())).unwrap_err().to_string(),
        "Invalid repository: Git directory must end with .git"
    );
    assert_eq!(
        validate_paths_named("/r", "..", None).unwrap_err().to_string(),
        "Invalid repository: Git directory must end with .git"
    );
    assert_eq!(
        validate_paths_named("", "/r/.git", Some(".git".to_string())).unwrap_err().to_string(),
        "Invalid repository: Repository path cannot be empty"
    );
}
