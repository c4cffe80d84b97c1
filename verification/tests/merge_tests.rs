use codex_git::errors::CodexGitError;
use codex_git::merge::FetchStatus;
use codex_git::merge::IntegrationPlan;
use codex_git::merge::MergeAnalysisKind;
use codex_git::merge::analysis_kind;
use codex_git::merge::plan_integration;
use codex_git::merge::status_for_plan;

#[test]
fn analysis_flags_collapse_in_order() {
    assert_eq!(analysis_kind(true, false, false), MergeAnalysisKind::UpToDate);
    assert_eq!(analysis_kind(false, true, false), MergeAnalysisKind::FastForwardable);
    assert_eq!(analysis_kind(false, false, true), MergeAnalysisKind::NormalMergeable);
    assert_eq!(analysis_kind(false, false, false), MergeAnalysisKind::Unrelated);
}

#[test]
fn fast_forward_wins_over_normal_merge() {
    // when both integrations are nominally possible, no unnecessary merge
    // commit is created
    assert_eq!(analysis_kind(false, true, true), MergeAnalysisKind::FastForwardable);
}

#[test]
fn up_to_date_plans_nothing() {
    let plan = plan_integration(MergeAnalysisKind::UpToDate, true).unwrap();
    assert_eq!(plan, IntegrationPlan::AlreadyUpToDate);
    let status = status_for_plan(&plan, false, vec![]);
    assert!(!status.is_changed);
    assert!(!status.has_conflict());
}

#[test]
fn fast_forward_moves_existing_branch() {
    let plan = plan_integration(MergeAnalysisKind::FastForwardable, true).unwrap();
    assert_eq!(plan, IntegrationPlan::FastForwardExisting);
    let status = status_for_plan(&plan, false, vec![]);
    assert!(status.is_changed);
    assert!(!status.has_conflict());
}

#[test]
fn fast_forward_into_empty_repository_creates_branch() {
    let plan = plan_integration(MergeAnalysisKind::FastForwardable, false).unwrap();
    assert_eq!(plan, IntegrationPlan::CreateLocalBranch);
    let status = status_for_plan(&plan, false, vec![]);
    assert!(status.is_changed);
    assert!(!status.has_conflict());
}

#[test]
fn diverged_histories_plan_three_way_merge() {
    let plan = plan_integration(MergeAnalysisKind::NormalMergeable, true).unwrap();
    assert_eq!(plan, IntegrationPlan::ThreeWayMerge);
}

#[test]
fn unrelated_histories_are_refused() {
    let err = plan_integration(MergeAnalysisKind::Unrelated, true).unwrap_err();
    assert_eq!(err, CodexGitError::UnrelatedHistories);
}

#[test]
fn conflicted_merge_reports_the_paths() {
    let plan = IntegrationPlan::ThreeWayMerge;
    let status = status_for_plan(&plan, true, vec!["a.txt".to_string()]);
    assert!(status.is_changed);
    assert!(status.has_conflict());
    assert_eq!(status.conflict_paths, vec!["a.txt".to_string()]);
}

#[test]
fn clean_merge_reports_change_without_conflict() {
    let plan = IntegrationPlan::ThreeWayMerge;
    let status = status_for_plan(&plan, false, vec![]);
    assert!(status.is_changed);
    assert!(!status.has_conflict());
    assert!(status.conflict_paths.is_empty());
}

#[test]
fn conflict_report_is_ignored_outside_the_merge_plan() {
    let status = status_for_plan(&IntegrationPlan::FastForwardExisting, true, vec![
        "a.txt".to_string(),
    ]);
    assert!(!status.has_conflict());
    assert!(status.conflict_paths.is_empty());
}

#[test]
fn fetch_status_accessors() {
    let status = FetchStatus {
        is_changed: true,
        conflicted: true,
        conflict_paths: vec!["a.txt".to_string()],
    };
    assert!(status.has_conflict());
}

#[test]
fn summary_reports_conflict_paths() {
    let status = FetchStatus {
        is_changed: true,
        conflicted: true,
        conflict_paths: vec!["a.txt".to_string(), "b.txt".to_string()],
    };
    assert_eq!(status.summary(), "conflicts [a.txt b.txt] changed");
}

#[test]
fn summary_without_conflicts() {
    let changed = FetchStatus { is_changed: true, conflicted: false, conflict_paths: vec![] };
    assert_eq!(changed.summary(), "changed");
    let unchanged = FetchStatus { is_changed: false, conflicted: false, conflict_paths: vec![] };
    assert_eq!(unchanged.summary(), "unchanged");
}
