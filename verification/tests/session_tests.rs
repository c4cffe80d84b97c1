use codex_git::config::CodexRepoConfig;
use codex_git::config::SshKeys;
use codex_git::config::User;
use codex_git::merge::IntegrationPlan;
use codex_git::session::CommitPlan;
use codex_git::session::PushPlan;
use codex_git::session::SyncSession;

fn session() -> SyncSession {
    SyncSession::new(CodexRepoConfig {
        user: User::new("tester", "tester@example.com"),
        remote_url: "file:///srv/codex-test/remote".to_string(),
        path: "/tmp/work".to_string(),
        branch: "main".to_string(),
        auto_add: vec![".".to_string()],
        ssh_keys: SshKeys::new(String::new(), String::new()),
        verbose: false,
    })
}

#[test]
fn fresh_session_is_clean() {
    let s = session();
    assert!(s.is_clean());
    assert!(matches!(s.plan_commit(), CommitPlan::NoCommitNeeded));
    assert!(matches!(s.plan_push(false), PushPlan::NoPushNeeded));
}

#[test]
fn add_marks_commit_needed() {
    let mut s = session();
    s.add("test.txt".to_string());
    assert!(s.needs_commit);
    assert!(!s.needs_push);
    assert!(matches!(s.plan_commit(), CommitPlan::WriteCommit));
}

#[test]
fn add_is_idempotent_per_path() {
    let mut s = session();
    s.add("test.txt".to_string());
    s.add("test.txt".to_string());
    s.add("other.txt".to_string());
    assert_eq!(s.added, vec!["test.txt".to_string(), "other.txt".to_string()]);
}

#[test]
fn commit_twice_is_noop_second_time() {
    let mut s = session();
    s.add("test.txt".to_string());
    // first commit request: engine work is planned, and once it succeeds the
    // session awaits a push
    assert!(matches!(s.plan_commit(), CommitPlan::WriteCommit));
    s.finish_commit();
    assert!(!s.needs_commit);
    assert!(s.needs_push);
    assert!(s.added.is_empty());
    // second commit request with no intervening add: a successful no-op
    assert!(matches!(s.plan_commit(), CommitPlan::NoCommitNeeded));
}

#[test]
fn push_twice_is_noop_second_time() {
    let mut s = session();
    s.add("test.txt".to_string());
    s.finish_commit();
    match s.plan_push(false) {
        PushPlan::PushRefspec(refspec) => {
            assert_eq!(refspec, "refs/heads/main:refs/heads/main")
        },
        PushPlan::NoPushNeeded => panic!("a push was owed"),
    }
    s.finish_push();
    // second push request with no intervening commit: nothing is transmitted
    assert!(matches!(s.plan_push(false), PushPlan::NoPushNeeded));
    assert!(s.is_clean());
}

#[test]
fn forced_push_carries_force_marker() {
    let mut s = session();
    s.add("test.txt".to_string());
    s.finish_commit();
    match s.plan_push(true) {
        PushPlan::PushRefspec(refspec) => {
            assert_eq!(refspec, "+refs/heads/main:refs/heads/main")
        },
        PushPlan::NoPushNeeded => panic!("a push was owed"),
    }
}

#[test]
fn commit_message_lists_staged_paths() {
    let mut s = session();
    s.add("a.txt".to_string());
    s.add("b.txt".to_string());
    let matched = vec!["\"a.txt\"".to_string(), "\"b.txt\"".to_string()];
    assert_eq!(s.commit_message(&matched), "commit changes \"a.txt\" \"b.txt\" a.txt b.txt");
}

#[test]
fn commit_message_of_nothing() {
    let s = session();
    let matched: Vec<String> = vec![];
    assert_eq!(s.commit_message(&matched), "commit changes  ");
}

#[test]
fn fast_forward_never_sets_needs_push() {
    let mut s = session();
    s.finish_integrate(&IntegrationPlan::FastForwardExisting, false);
    assert!(!s.needs_push);
    s.finish_integrate(&IntegrationPlan::CreateLocalBranch, false);
    assert!(!s.needs_push);
    s.finish_integrate(&IntegrationPlan::AlreadyUpToDate, false);
    assert!(!s.needs_push);
}

#[test]
fn clean_merge_commit_awaits_push() {
    let mut s = session();
    s.finish_integrate(&IntegrationPlan::ThreeWayMerge, false);
    assert!(s.needs_push);
    assert!(!s.needs_commit);
}

#[test]
fn conflicted_merge_leaves_flags_alone() {
    let mut s = session();
    s.finish_integrate(&IntegrationPlan::ThreeWayMerge, true);
    assert!(!s.needs_push);
    assert!(!s.needs_commit);
}
