use gitradar::commands::branches::BranchResponse;
use gitradar::commands::commits::{CommitGraphNodeResponse, CommitResponse};
use gitradar::commands::repos::listed_repository_figures;
use gitradar::commands::search::SearchResponse;
use gitradar::discovery::paths::join_git_dir;
use gitradar::discovery::scanner::{EntryAction, RepoScan};
use gitradar::discovery::sync::RepositorySync;
use gitradar::domain::branch::Branch;
use gitradar::domain::commit::{Commit, CommitGraphNode};
use gitradar::infrastructure::database::models::SearchHit;
use gitradar::infrastructure::git::graph::{revwalk_step, WalkStep};
use gitradar::infrastructure::git::repo::{
    discovered_repository, discovered_repository_named, repository_type_for,
};
use gitradar::infrastructure::git::RepositoryType;

#[test]
fn scan_records_each_repository_once() {
    let mut scan = RepoScan::new();
    assert_eq!(scan.visit_entry("/src/notes.txt".to_string(), false, false), EntryAction::Skip);
    assert_eq!(scan.visit_entry("/src/group".to_string(), true, false), EntryAction::Descend);
    assert_eq!(scan.visit_entry("/src/group/app".to_string(), true, true), EntryAction::Record);
    assert_eq!(scan.visit_entry("/src/group/app".to_string(), true, true), EntryAction::Record);
    assert!(scan.contains_path("/src/group/app"));
    let repos = scan.finish().unwrap();
    assert_eq!(repos.len(), 1);
    assert_eq!(repos[0].name, "app");
    assert_eq!(repos[0].path, "/src/group/app");
}

#[test]
fn sync_registers_unknown_paths_only() {
    let sync = RepositorySync::new("/work/site".to_string());
    let rec = sync.registration(&vec!["/work/other".to_string()]).unwrap();
    assert_eq!(rec.name, "site");
    assert_eq!(rec.path, "/work/site");
    assert_eq!(rec.git_dir_path, "/work/site/.git");
    assert!(sync.registration(&vec!["/work/site".to_string()]).is_none());
    let root = RepositorySync::new("/".to_string());
    assert_eq!(root.registration(&Vec::new()).unwrap().name, "Unknown");
    assert_eq!(join_git_dir("a/"), "a/.git");
    assert_eq!(join_git_dir(""), ".git");
}

#[test]
fn walk_takes_the_window() {
    let mut taken = Vec::new();
    let mut collected = 0usize;
    for i in 0..10usize {
        match revwalk_step(i, collected, 3, 4) {
            WalkStep::Skip => continue,
            WalkStep::Stop => break,
            WalkStep::Take => {
                taken.push(i);
                collected += 1;
            }
        }
    }
    assert_eq!(taken, vec![3, 4, 5, 6]);
}

#[test]
fn repository_layout_from_git_entry() {
    assert_eq!(repository_type_for(false, ""), RepositoryType::Standard);
    assert_eq!(
        repository_type_for(true, "gitdir: /r/.git/worktrees/x"),
        RepositoryType::Worktree
    );
    assert_eq!(repository_type_for(true, "gitdir: ../.git/modules/lib"), RepositoryType::Submodule);
    assert_eq!(repository_type_for(true, "gitdir: elsewhere"), RepositoryType::Standard);
    assert_eq!(RepositoryType::Worktree.as_str(), "Worktree");
}

#[test]
fn responses_describe_domain_values() {
    let mut b = Branch::new(4, 1, "feature/ui".to_string(), false, false).unwrap();
    b.update_sync_info(2, 0);
    let r = BranchResponse::from_branch(b);
    assert_eq!(r.status, "Ahead");
    assert_eq!(r.branch_type, "Feature");
    assert_eq!(r.importance, "Medium");
    assert!(r.should_merge);
    assert!(!r.is_stale);

    let c = Commit::new(
        9,
        "0123456789abcdef".to_string(),
        "Ann".to_string(),
        "ann@x".to_string(),
        "Ann".to_string(),
        "ann@x".to_string(),
        "Merge".to_string(),
        2,
        "t".to_string(),
    )
    .unwrap();
    let cr = CommitResponse::from_commit(c);
    assert_eq!(cr.short_hash, "0123456");
    assert!(cr.is_merge_commit);
    assert!(!cr.is_root_commit);

    let node = CommitGraphNode {
        hash: "h".to_string(),
        branches: vec!["main".to_string(), "dev".to_string()],
        author_name: "a".to_string(),
        author_email: "e".to_string(),
        subject: "s".to_string(),
        committed_at: "t".to_string(),
        total_additions: 3,
        total_deletions: 1,
        total_files_changed: 2,
        parents: vec![],
    };
    let nr = CommitGraphNodeResponse::from_node(node);
    assert_eq!(nr.branch_name.as_deref(), Some("main"));
    assert_eq!(nr.additions, 3);

    let hits = vec![SearchHit {
        repo_id: 1,
        repo_name: "r".to_string(),
        entity_type: "commit".to_string(),
        entity_id: 2,
        title: "Fix".to_string(),
        body: "b".to_string(),
    }];
    let sr = SearchResponse::from_hits("fix".to_string(), hits);
    assert_eq!(sr.total_count, 1);
    assert_eq!(sr.items[0].title, "Fix");

    let f = listed_repository_figures(&vec![5, 6], Some(12), None, Some(3));
    assert_eq!(f.root_id, Some(5));
    assert_eq!(f.activity_level, "High");
    assert_eq!(f.total_commits, 0);
    assert_eq!(f.unique_contributors, 3);
}

#[test]
fn discovered_repositories_are_named_by_their_directory() {
    let d = discovered_repository("/code/lib", true, "gitdir: /code/.git/modules/lib").unwrap();
    assert_eq!(d.name, "lib");
    assert_eq!(d.path, "/code/lib");
    assert_eq!(d.git_dir, "/code/lib/.git");
    assert_eq!(d.repo_type, RepositoryType::Submodule);
    assert!(discovered_repository("/", false, "").is_none());
}

#[test]
fn names_given_to_found_repositories() {
    let sync = RepositorySync::new("/work/site".to_string());
    let rec = sync.registration_named(&Vec::new(), Some("given".to_string())).unwrap();
    assert_eq!(rec.name, "given");
    assert_eq!(rec.git_dir_path, "/work/site/.git");
    assert_eq!(sync.registration_named(&Vec::new(), None).unwrap().name, "Unknown");
    assert!(sync.registration_named(&vec!["/work/site".to_string()], None).is_none());

    let mut scan = RepoScan::new();
    scan.record_named("/a/b".to_string(), Some("b".to_string()));
    scan.record_named("/a/b".to_string(), Some("other".to_string()));
    scan.record_named("/".to_string(), None);
    let repos = scan.finish().unwrap();
    assert_eq!(repos.len(), 2);
    assert_eq!(repos[0].name, "b");
    assert_eq!(repos[1].name, "");
    assert_eq!(repos[1].path, "/");

    assert!(discovered_repository_named("/x/y", None, false, "").is_none());
    let d = discovered_repository_named("/x/y", Some("y".to_string()), false, "").unwrap();
    assert_eq!(d.name, "y");
    assert_eq!(d.git_dir, "/x/y/.git");
    assert_eq!(d.repo_type, RepositoryType::Standard);
}
