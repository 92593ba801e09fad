use gitradar::domain::branch::{Branch, BranchImportance, BranchStatus, BranchType};

#[test]
fn test_branch_type_from_name() {
    assert_eq!(BranchType::from_name("main"), BranchType::Main);
    assert_eq!(BranchType::from_name("master"), BranchType::Main);
    assert_eq!(BranchType::from_name("develop"), BranchType::Develop);
    assert_eq!(BranchType::from_name("feature/new-feature"), BranchType::Feature);
    assert_eq!(BranchType::from_name("release/v1.0"), BranchType::Release);
    assert_eq!(BranchType::from_name("hotfix/critical-bug"), BranchType::Hotfix);
}

#[test]
fn test_branch_status() {
    let mut branch = Branch::new(1, 1, "feature/test".to_string(), false, false).unwrap();

    branch.update_sync_info(0, 0);
    assert_eq!(branch.status(), BranchStatus::InSync);

    branch.update_sync_info(3, 0);
    assert_eq!(branch.status(), BranchStatus::Ahead);

    branch.update_sync_info(0, 3);
    assert_eq!(branch.status(), BranchStatus::Behind);

    branch.update_sync_info(3, 3);
    assert_eq!(branch.status(), BranchStatus::Diverged);
}

#[test]
fn test_should_merge() {
    let mut branch = Branch::new(1, 1, "feature/test".to_string(), false, false).unwrap();

    branch.update_sync_info(3, 0);
    assert!(branch.should_merge());

    branch.update_sync_info(3, 1);
    assert!(!branch.should_merge());

    let mut main = Branch::new(2, 1, "main".to_string(), true, true).unwrap();
    main.update_sync_info(3, 0);
    assert!(!main.should_merge());
}

#[test]
fn test_branch_importance() {
    let main = Branch::new(1, 1, "main".to_string(), true, true).unwrap();
    assert_eq!(main.importance(), BranchImportance::Critical);

    let develop = Branch::new(2, 1, "develop".to_string(), false, false).unwrap();
    assert_eq!(develop.importance(), BranchImportance::High);

    let feature = Branch::new(3, 1, "feature/new".to_string(), false, false).unwrap();
    assert_eq!(feature.importance(), BranchImportance::Medium);
}

#[test]
fn branch_type_prefixes_and_fallback() {
    assert_eq!(BranchType::from_name("development"), BranchType::Develop);
    assert_eq!(BranchType::from_name("release-2.0"), BranchType::Release);
    assert_eq!(BranchType::from_name("fix/typo"), BranchType::Hotfix);
    assert_eq!(BranchType::from_name("fix-typo"), BranchType::Hotfix);
    assert_eq!(BranchType::from_name("feature-x"), BranchType::Feature);
    assert_eq!(BranchType::from_name("mainline"), BranchType::Other);
    assert_eq!(BranchType::from_name("Main"), BranchType::Other);
    assert!(BranchType::Hotfix.is_special());
    assert!(!BranchType::Feature.is_special());
    assert_eq!(BranchType::Hotfix.template_name(), "fix/*");
    assert_eq!(BranchType::Main.template_name(), "main/master");
}

#[test]
fn branch_empty_name_is_rejected() {
    let err = Branch::new(1, 1, String::new(), false, false).unwrap_err();
    assert_eq!(err.to_string(), "Invalid branch: Branch name cannot be empty");
}

#[test]
fn branch_sync_messages() {
    let mut b = Branch::new(1, 1, "feature/x".to_string(), false, false).unwrap();
    assert_eq!(b.sync_message(), "In sync with default");
    b.update_sync_info(1, 0);
    assert_eq!(b.sync_message(), "Ahead by 1 commit from default");
    b.update_sync_info(0, 12);
    assert_eq!(b.sync_message(), "Behind by 12 commits from default");
    b.update_sync_info(2, 1);
    assert_eq!(
        b.sync_message(),
        "Ahead by 2 commits and behind by 1 commit from default"
    );
    assert_eq!(b.status().to_string(), "Diverged");
}

#[test]
fn branch_staleness_and_other_importance() {
    let mut b = Branch::new(1, 1, "wip".to_string(), false, false).unwrap();
    assert_eq!(b.importance(), BranchImportance::Low);
    b.update_sync_info(0, 51);
    assert!(b.is_stale());
    assert!(b.is_behind());
    assert!(!b.should_merge());
    b.update_sync_info(0, 50);
    assert!(!b.is_stale());
    let head = Branch::new(2, 1, "wip".to_string(), true, false).unwrap();
    assert_eq!(head.importance(), BranchImportance::Medium);
    assert_eq!(head.importance().name(), "Medium");
}

#[test]
fn branch_last_commit_is_recorded() {
    let mut b = Branch::new(1, 1, "main".to_string(), true, true).unwrap();
    assert_eq!(b.last_commit_hash, None);
    b.set_last_commit("abc1234".to_string());
    assert_eq!(b.last_commit_hash.as_deref(), Some("abc1234"));
    assert!(b.is_in_sync());
}
