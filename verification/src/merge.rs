//! The fetch/merge-analysis decision tree: how the relationship between the
//! local branch tip and a fetched commit is classified, which integration
//! action that classification selects, and what the caller observes of the
//! outcome.
//!
//! The engine computes the analysis flags, moves references, merges trees
//! and writes commits; this module decides, and pins down what each decision
//! means for the branch pointer and for the reported status.

use vstd::prelude::*;
use vstd::string::StringExecFns;

use crate::errors::CodexGitError;
use crate::strutil::join_with_spaces;

verus! {

/// The classification of the relationship between the local branch tip and
/// a fetched commit.
#[derive(Clone, Copy, Debug, PartialEq, Eq, Structural)]
pub enum MergeAnalysisKind {
    /// the local branch already contains the fetched commit
    UpToDate,
    /// the local tip is an ancestor of the fetched commit
    FastForwardable,
    /// the histories diverged but share an ancestor
    NormalMergeable,
    /// the histories share no ancestor
    Unrelated,
}

/// How the engine's analysis flags collapse into one kind.  When the flags
/// nominate both a fast-forward and a normal merge, fast-forward wins: no
/// unnecessary merge commit.  Flags that nominate nothing mean the
/// histories are unrelated.
pub open spec fn analysis_kind_spec(up_to_date: bool, fast_forward: bool, normal: bool) -> MergeAnalysisKind {
    if up_to_date {
        MergeAnalysisKind::UpToDate
    } else if fast_forward {
        MergeAnalysisKind::FastForwardable
    } else if normal {
        MergeAnalysisKind::NormalMergeable
    } else {
        MergeAnalysisKind::Unrelated
    }
}

/// Collapses the engine's merge-analysis flags into one kind.
pub fn analysis_kind(up_to_date: bool, fast_forward: bool, normal: bool) -> (k: MergeAnalysisKind)
    ensures
        k == analysis_kind_spec(up_to_date, fast_forward, normal),
        !up_to_date && fast_forward ==> k == MergeAnalysisKind::FastForwardable,
        !up_to_date && !fast_forward && !normal ==> k == MergeAnalysisKind::Unrelated,
{
    if up_to_date {
        MergeAnalysisKind::UpToDate
    } else if fast_forward {
        MergeAnalysisKind::FastForwardable
    } else if normal {
        MergeAnalysisKind::NormalMergeable
    } else {
        MergeAnalysisKind::Unrelated
    }
}

/// The branch-pointer / working-tree action that integrates a fetched
/// commit.
#[derive(Clone, Copy, Debug, PartialEq, Eq, Structural)]
pub enum IntegrationPlan {
    /// nothing to do
    AlreadyUpToDate,
    /// move the existing local branch reference to the fetched commit and
    /// update the working tree to match, discarding uncommitted tree drift
    FastForwardExisting,
    /// the local branch reference does not exist yet (first sync into an
    /// empty repository): create it at the fetched commit, set it as the
    /// active branch, and check out conflict-tolerantly
    CreateLocalBranch,
    /// diverged histories: three-way merge of the ancestor, local and
    /// fetched trees, surfacing but not resolving conflicts
    ThreeWayMerge,
}

/// Which plan each analysis kind selects; unrelated histories are refused
/// rather than auto-resolved.
pub open spec fn integration_plan_spec(k: MergeAnalysisKind, local_branch_exists: bool) -> Result<
    IntegrationPlan,
    CodexGitError,
> {
    match k {
        MergeAnalysisKind::UpToDate => Ok(IntegrationPlan::AlreadyUpToDate),
        MergeAnalysisKind::FastForwardable => if local_branch_exists {
            Ok(IntegrationPlan::FastForwardExisting)
        } else {
            Ok(IntegrationPlan::CreateLocalBranch)
        },
        MergeAnalysisKind::NormalMergeable => Ok(IntegrationPlan::ThreeWayMerge),
        MergeAnalysisKind::Unrelated => Err(CodexGitError::UnrelatedHistories),
    }
}

/// Decides how a fetched commit is integrated, from the analysis kind and
/// whether the local branch reference exists.
pub fn plan_integration(k: MergeAnalysisKind, local_branch_exists: bool) -> (r: Result<
    IntegrationPlan,
    CodexGitError,
>)
    ensures
        r == integration_plan_spec(k, local_branch_exists),
        r is Err <==> k == MergeAnalysisKind::Unrelated,
        r is Err ==> r->Err_0 == CodexGitError::UnrelatedHistories,
{
    match k {
        MergeAnalysisKind::UpToDate => Ok(IntegrationPlan::AlreadyUpToDate),
        MergeAnalysisKind::FastForwardable => if local_branch_exists {
            Ok(IntegrationPlan::FastForwardExisting)
        } else {
            Ok(IntegrationPlan::CreateLocalBranch)
        },
        MergeAnalysisKind::NormalMergeable => Ok(IntegrationPlan::ThreeWayMerge),
        MergeAnalysisKind::Unrelated => Err(CodexGitError::UnrelatedHistories),
    }
}

/// The local branch tip after executing `plan`, as commit identities:
/// `local` is the tip before (absent in an empty repository), `fetched` the
/// fetched commit, `merged` the merge commit a conflict-free three-way merge
/// writes, and `conflicted` the engine's conflict report for that merge.  A
/// conflicted merge leaves the pointer unmoved for the caller to resolve.
pub open spec fn tip_after_plan(
    plan: IntegrationPlan,
    local: Option<int>,
    fetched: int,
    merged: int,
    conflicted: bool,
) -> Option<int> {
    match plan {
        IntegrationPlan::AlreadyUpToDate => local,
        IntegrationPlan::FastForwardExisting => Some(fetched),
        IntegrationPlan::CreateLocalBranch => Some(fetched),
        IntegrationPlan::ThreeWayMerge => if conflicted {
            local
        } else {
            Some(merged)
        },
    }
}

/// What the caller observes of each plan, as (changed, conflicted);
/// `merge_conflicted` is the engine's conflict report and matters only for
/// the three-way merge.
pub open spec fn plan_status_spec(plan: IntegrationPlan, merge_conflicted: bool) -> (bool, bool) {
    match plan {
        IntegrationPlan::AlreadyUpToDate => (false, false),
        IntegrationPlan::FastForwardExisting => (true, false),
        IntegrationPlan::CreateLocalBranch => (true, false),
        IntegrationPlan::ThreeWayMerge => (true, merge_conflicted),
    }
}

/// The observable result of one fetch-and-integrate cycle.
#[derive(Debug)]
pub struct FetchStatus {
    /// whether integration changed the local repository
    pub is_changed: bool,
    /// whether the merge stopped on conflicts that the caller must resolve
    pub conflicted: bool,
    /// the conflicted paths; empty when `conflicted` is false
    pub conflict_paths: Vec<String>,
}

impl FetchStatus {
    /// A conflict is only ever reported on a cycle that changed the
    /// repository, and paths are only reported on a conflict.
    pub open spec fn wf(self) -> bool {
        &&& self.conflicted ==> self.is_changed
        &&& !self.conflicted ==> self.conflict_paths@.len() == 0
    }

    /// Whether the cycle ended on conflicts awaiting manual resolution.
    pub fn has_conflict(&self) -> (r: bool)
        ensures
            r == self.conflicted,
    {
        self.conflicted
    }

    /// A human-readable summary: the conflicted paths, if any, then whether
    /// the cycle changed the repository.
    pub fn summary(&self) -> (r: String)
        ensures
            r@ == summary_of(self.is_changed, self.conflicted, self.conflict_paths.deep_view()),
    {
        let mut r = String::new();
        if self.conflicted {
            r.append("conflicts [");
            r.append(crate::strutil::join_all(&self.conflict_paths).as_str());
            r.append("] ");
        }
        if self.is_changed {
            r.append("changed");
        } else {
            r.append("unchanged");
        }
        proof {
            reveal_strlit("conflicts [");
            reveal_strlit("] ");
            reveal_strlit("changed");
            reveal_strlit("unchanged");
            assert("conflicts ["@ =~= seq![
                'c', 'o', 'n', 'f', 'l', 'i', 'c', 't', 's', ' ', '[',
            ]);
            assert("] "@ =~= seq![']', ' ']);
            assert("changed"@ =~= seq!['c', 'h', 'a', 'n', 'g', 'e', 'd']);
            assert("unchanged"@ =~= seq!['u', 'n', 'c', 'h', 'a', 'n', 'g', 'e', 'd']);
            assert(r@ =~= summary_of(
                self.is_changed,
                self.conflicted,
                self.conflict_paths.deep_view(),
            ));
        }
        r
    }
}

/// What [`FetchStatus::summary`] returns: the conflict report, when there is
/// one, then `changed` or `unchanged`.
pub open spec fn summary_of(changed: bool, conflicted: bool, paths: Seq<Seq<char>>) -> Seq<char> {
    (if conflicted {
        seq!['c', 'o', 'n', 'f', 'l', 'i', 'c', 't', 's', ' ', '['] + join_with_spaces(paths)
            + seq![']', ' ']
    } else {
        Seq::<char>::empty()
    }) + (if changed {
        seq!['c', 'h', 'a', 'n', 'g', 'e', 'd']
    } else {
        seq!['u', 'n', 'c', 'h', 'a', 'n', 'g', 'e', 'd']
    })
}

/// Builds the status a plan's execution reports.  `merge_had_conflicts` and
/// `merge_conflict_paths` are the engine's conflict report from the
/// three-way merge; both are ignored for every other plan.
pub fn status_for_plan(
    plan: &IntegrationPlan,
    merge_had_conflicts: bool,
    merge_conflict_paths: Vec<String>,
) -> (s: FetchStatus)
    ensures
        s.wf(),
        s.is_changed == plan_status_spec(*plan, merge_had_conflicts).0,
        s.conflicted == plan_status_spec(*plan, merge_had_conflicts).1,
        s.conflicted ==> s.conflict_paths == merge_conflict_paths,
{
    match plan {
        IntegrationPlan::AlreadyUpToDate => FetchStatus {
            is_changed: false,
            conflicted: false,
            conflict_paths: Vec::new(),
        },
        IntegrationPlan::FastForwardExisting => FetchStatus {
            is_changed: true,
            conflicted: false,
            conflict_paths: Vec::new(),
        },
        IntegrationPlan::CreateLocalBranch => FetchStatus {
            is_changed: true,
            conflicted: false,
            conflict_paths: Vec::new(),
        },
        IntegrationPlan::ThreeWayMerge => {
            if merge_had_conflicts {
                FetchStatus { is_changed: true, conflicted: true, conflict_paths: merge_conflict_paths }
            } else {
                FetchStatus { is_changed: true, conflicted: false, conflict_paths: Vec::new() }
            }
        },
    }
}

/// Fast-forward determinism: whenever the analysis says the fetched commit
/// is a strict descendant of the local tip — the fast-forwardable kind —
/// integration always succeeds without a conflict, reports a change, and
/// leaves the local tip equal to the fetched tip, whether or not the local
/// branch reference existed beforehand.
pub proof fn lemma_fast_forward_deterministic(
    local_branch_exists: bool,
    local: Option<int>,
    fetched: int,
    merged: int,
)
    ensures
        integration_plan_spec(MergeAnalysisKind::FastForwardable, local_branch_exists) is Ok,
        ({
            let plan = integration_plan_spec(
                MergeAnalysisKind::FastForwardable,
                local_branch_exists,
            )->Ok_0;
            &&& tip_after_plan(plan, local, fetched, merged, false) == Some(fetched)
            &&& plan_status_spec(plan, false).0
            &&& !plan_status_spec(plan, false).1
        }),
{
}

} // verus!
