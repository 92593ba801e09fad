use gitradar::domain::commit::{Commit, CommitHash, CommitType};

fn commit(hash: &str, author: &str, subject: &str, parents: u32) -> Commit {
    Commit::new(
        1,
        hash.to_string(),
        author.to_string(),
        "a@example.com".to_string(),
        author.to_string(),
        "a@example.com".to_string(),
        subject.to_string(),
        parents,
        "2024-01-01T10:00:00Z".to_string(),
    )
    .unwrap()
}

#[test]
fn test_commit_creation() {
    let commit = Commit::new(
        1,
        "abc123def456".to_string(),
        "John Doe".to_string(),
        "john@example.com".to_string(),
        "John Doe".to_string(),
        "john@example.com".to_string(),
        "Fix: login issue".to_string(),
        1,
        "2024-01-01T10:00:00Z".to_string(),
    )
    .unwrap();

    assert_eq!(commit.author_name, "John Doe");
    assert_eq!(commit.subject, "Fix: login issue");
}

#[test]
fn test_commit_types() {
    let root = Commit::new(
        1,
        "abc123def456".to_string(),
        "John".to_string(),
        "john@example.com".to_string(),
        "John".to_string(),
        "john@example.com".to_string(),
        "Initial commit".to_string(),
        0,
        "2024-01-01T10:00:00Z".to_string(),
    )
    .unwrap();

    let regular = Commit::new(
        2,
        "def456abc789".to_string(),
        "Jane".to_string(),
        "jane@example.com".to_string(),
        "Jane".to_string(),
        "jane@example.com".to_string(),
        "Add feature".to_string(),
        1,
        "2024-01-02T10:00:00Z".to_string(),
    )
    .unwrap();

    let merge = Commit::new(
        3,
        "789abc123def".to_string(),
        "Bob".to_string(),
        "bob@example.com".to_string(),
        "Bob".to_string(),
        "bob@example.com".to_string(),
        "Merge branch feature".to_string(),
        2,
        "2024-01-03T10:00:00Z".to_string(),
    )
    .unwrap();

    assert!(root.is_root_commit());
    assert!(regular.is_regular_commit());
    assert!(merge.is_merge_commit());
}

#[test]
fn test_commit_type_enum() {
    let root = Commit::new(
        1,
        "abc123".to_string(),
        "John".to_string(),
        "john@example.com".to_string(),
        "John".to_string(),
        "john@example.com".to_string(),
        "Initial".to_string(),
        0,
        "2024-01-01T10:00:00Z".to_string(),
    )
    .unwrap();

    assert_eq!(root.commit_type(), CommitType::Root);
}

#[test]
fn test_short_message() {
    let commit = Commit::new(
        1,
        "abc123".to_string(),
        "John".to_string(),
        "john@example.com".to_string(),
        "John".to_string(),
        "john@example.com".to_string(),
        "This is a very long commit message that should be truncated when displayed in short form"
            .to_string(),
        1,
        "2024-01-01T10:00:00Z".to_string(),
    )
    .unwrap();

    let short = commit.short_message();
    assert!(short.len() <= 53);
}

#[test]
fn test_commit_significance() {
    let mut regular = Commit::new(
        1,
        "abc123".to_string(),
        "John".to_string(),
        "john@example.com".to_string(),
        "John".to_string(),
        "john@example.com".to_string(),
        "Short msg".to_string(),
        1,
        "2024-01-01T10:00:00Z".to_string(),
    )
    .unwrap();

    regular.determine_significance();
    assert!(!regular.is_significant);

    let mut merge = Commit::new(
        2,
        "def456".to_string(),
        "Jane".to_string(),
        "jane@example.com".to_string(),
        "Jane".to_string(),
        "jane@example.com".to_string(),
        "Merge branch".to_string(),
        2,
        "2024-01-02T10:00:00Z".to_string(),
    )
    .unwrap();

    merge.determine_significance();
    assert!(merge.is_significant);
}

#[test]
fn test_commit_hash_short() {
    let hash = CommitHash("abc123def456abc123def456abc123def456abc1".to_string());
    assert_eq!(hash.short(), "abc123d");
    assert_eq!(hash.full(), "abc123def456abc123def456abc123def456abc1");
}

#[test]
fn commit_short_message_exact_forms() {
    let long = commit(
        "abc1234",
        "John",
        "This is a very long commit message that should be truncated when displayed in short form",
        1,
    );
    assert_eq!(
        long.short_message(),
        "This is a very long commit message that should be ..."
    );
    let fifty = "x".repeat(50);
    assert_eq!(commit("abc1234", "J", &fifty, 1).short_message(), fifty);
}

#[test]
fn commit_rejections_and_validation() {
    let err = Commit::new(
        1,
        String::new(),
        "J".to_string(),
        "e".to_string(),
        "J".to_string(),
        "e".to_string(),
        "s".to_string(),
        1,
        "t".to_string(),
    )
    .unwrap_err();
    assert_eq!(err.to_string(), "Invalid commit: Commit hash cannot be empty");
    let err = Commit::new(
        1,
        "abc".to_string(),
        "J".to_string(),
        "e".to_string(),
        "J".to_string(),
        "e".to_string(),
        String::new(),
        1,
        "t".to_string(),
    )
    .unwrap_err();
    assert_eq!(err.to_string(), "Invalid commit: Commit subject cannot be empty");

    let bad = commit("abc12", "John", "subject", 1);
    assert_eq!(
        bad.validate().unwrap_err().to_string(),
        "Invalid commit: Invalid commit hash length: 5"
    );
    assert!(commit("abc1234", "John", "subject", 1).validate().is_ok());
    assert!(commit(&"a".repeat(40), "John", "subject", 1).validate().is_ok());
    assert_eq!(
        commit("abc1234", "", "subject", 1).validate().unwrap_err().to_string(),
        "Invalid commit: Author name cannot be empty"
    );
}

#[test]
fn commit_documentation_and_body() {
    let mut c = commit("abc1234", "John", "A descriptive subject", 1);
    assert!(!c.is_well_documented());
    c.set_body(String::new());
    assert_eq!(c.body, None);
    c.set_body("Details".to_string());
    assert!(c.is_well_documented());
    assert_eq!(c.message_size(), "A descriptive subject".len() + "Details".len());
    c.determine_significance();
    assert!(c.is_significant);
    let info = c.get_commit_info();
    assert_eq!(info.hash, "abc1234");
    assert_eq!(info.commit_type, CommitType::Regular);
    assert_eq!(info.commit_type.to_string(), "Regular");
    assert!(info.is_significant);
}
