//! The repository session: dirty-state bookkeeping over the commit/push
//! lifecycle.
//!
//! A session starts clean after clone or open (a clone's own history is
//! already pushed).  `add` records a staged path and marks a commit as
//! needed; a successful commit consumes the pending paths and marks a push
//! as needed; a successful push clears that flag; a successful three-way
//! merge writes a merge commit that awaits push, while a fast-forward never
//! does.  Planning a commit or push when nothing is pending asks for no
//! work, so flushing twice performs the engine work only once.
//!
//! The session decides; a host program performs each planned engine action
//! and reports its success back through the `finish_*` methods.  On
//! teardown the host must attempt one final commit-then-push flush exactly
//! once, surfacing any failure loudly.

use vstd::prelude::*;
use vstd::string::StringExecFns;

use crate::config::CodexRepoConfig;
use crate::config::refspec_of;
use crate::merge::IntegrationPlan;
use crate::strutil::join_with_spaces;

verus! {

/// The dirty flags of a session, the spec-level core of its state machine.
#[derive(Clone, Copy, Debug, PartialEq, Eq, Structural)]
pub struct DirtyFlags {
    /// local edits await a commit
    pub needs_commit: bool,
    /// local commits await a push
    pub needs_push: bool,
}

/// What a commit request amounts to.
#[derive(Clone, Copy, Debug, PartialEq, Eq, Structural)]
pub enum CommitPlan {
    /// nothing awaits commit: a successful no-op
    NoCommitNeeded,
    /// stage the auto-add patterns and the recorded paths, write the tree
    /// snapshot, and commit it onto the current branch tip
    WriteCommit,
}

/// What a push request amounts to.
#[derive(Debug)]
pub enum PushPlan {
    /// nothing awaits push: a successful no-op
    NoPushNeeded,
    /// transmit the carried refspec to the remote
    PushRefspec(String),
}

/// The plan a commit request selects in flag state `f`.
pub open spec fn commit_plan_of(f: DirtyFlags) -> CommitPlan {
    if f.needs_commit {
        CommitPlan::WriteCommit
    } else {
        CommitPlan::NoCommitNeeded
    }
}

/// Whether a push request transmits anything in flag state `f`.
pub open spec fn push_plan_needed(f: DirtyFlags) -> bool {
    f.needs_push
}

/// The flags after `add` records a path: a commit is now needed.
pub open spec fn after_add(f: DirtyFlags) -> DirtyFlags {
    DirtyFlags { needs_commit: true, needs_push: f.needs_push }
}

/// The flags after a successful commit: nothing awaits commit, the new
/// commit awaits push.
pub open spec fn after_commit(f: DirtyFlags) -> DirtyFlags {
    DirtyFlags { needs_commit: false, needs_push: true }
}

/// The flags after a successful push.
pub open spec fn after_push(f: DirtyFlags) -> DirtyFlags {
    DirtyFlags { needs_commit: f.needs_commit, needs_push: false }
}

/// The flags after an integration cycle: a conflict-free three-way merge
/// wrote a merge commit that awaits push; a fast-forward never sets the
/// flag, and nothing here touches the commit flag.
pub open spec fn after_integrate(f: DirtyFlags, plan: IntegrationPlan, conflicted: bool) -> DirtyFlags {
    DirtyFlags {
        needs_commit: f.needs_commit,
        needs_push: f.needs_push || (plan is ThreeWayMerge && !conflicted),
    }
}

/// The synthesized commit message: no user-supplied text, only the paths
/// that went into the snapshot — the engine-matched auto-add paths, then
/// the explicitly recorded ones.
pub open spec fn commit_message_of(matched: Seq<Seq<char>>, added: Seq<Seq<char>>) -> Seq<char> {
    seq!['c', 'o', 'm', 'm', 'i', 't', ' ', 'c', 'h', 'a', 'n', 'g', 'e', 's', ' ']
        + join_with_spaces(matched) + seq![' '] + join_with_spaces(added)
}

/// A stateful session over one open local repository: its configuration,
/// its dirty flags, and the paths recorded for the next commit message.
#[derive(Debug)]
pub struct SyncSession {
    /// the configuration the session was made from
    pub config: CodexRepoConfig,
    /// local edits await a commit
    pub needs_commit: bool,
    /// local commits await a push
    pub needs_push: bool,
    /// paths recorded by `add` since the last commit, in order, without
    /// repetition
    pub added: Vec<String>,
}

impl SyncSession {
    /// The session's dirty flags.
    pub open spec fn dirty(self) -> DirtyFlags {
        DirtyFlags { needs_commit: self.needs_commit, needs_push: self.needs_push }
    }

    /// A fresh session over a just-cloned or just-opened repository:
    /// clean, with nothing recorded.
    pub fn new(config: CodexRepoConfig) -> (s: SyncSession)
        ensures
            s.config == config,
            !s.needs_commit,
            !s.needs_push,
            s.added.deep_view() == Seq::<Seq<char>>::empty(),
    {
        let s = SyncSession { config, needs_commit: false, needs_push: false, added: Vec::new() };
        proof {
            assert(s.added.deep_view() =~= Seq::<Seq<char>>::empty());
        }
        s
    }

    /// Records a path staged for the next commit and marks the session as
    /// needing one.  Idempotent per path: a path already recorded is not
    /// recorded again.
    pub fn add(&mut self, path: String)
        ensures
            final(self).config == old(self).config,
            final(self).dirty() == after_add(old(self).dirty()),
            old(self).added.deep_view().contains(path@) ==> final(self).added.deep_view() == old(
                self,
            ).added.deep_view(),
            !old(self).added.deep_view().contains(path@) ==> final(self).added.deep_view() == old(
                self,
            ).added.deep_view().push(path@),
    {
        let mut found = false;
        let mut i: usize = 0;
        while i < self.added.len()
            invariant
                i <= self.added.len(),
                found <==> (exists|j: int|
                    0 <= j < i && self.added.deep_view()[j] == path@),
            decreases self.added.len() - i,
        {
            proof {
                assert(self.added.deep_view()[i as int] == self.added@[i as int]@);
            }
            if self.added[i] == path {
                found = true;
            }
            i = i + 1;
        }
        proof {
            if found {
                assert(self.added.deep_view().contains(path@));
            }
            if self.added.deep_view().contains(path@) {
                let j = choose|j: int|
                    0 <= j < self.added.deep_view().len() && self.added.deep_view()[j] == path@;
                assert(0 <= j < i && self.added.deep_view()[j] == path@);
            }
        }
        if !found {
            let ghost before = self.added.deep_view();
            self.added.push(path);
            proof {
                assert(self.added.deep_view() =~= before.push(path@));
            }
        }
        self.needs_commit = true;
    }

    /// What a commit request amounts to now: work exactly when something
    /// awaits commit.
    pub fn plan_commit(&self) -> (p: CommitPlan)
        ensures
            p == commit_plan_of(self.dirty()),
            p is WriteCommit <==> self.needs_commit,
    {
        if self.needs_commit {
            CommitPlan::WriteCommit
        } else {
            CommitPlan::NoCommitNeeded
        }
    }

    /// The message for the commit being written; `matched` is the list of
    /// paths the engine staged for the auto-add patterns.
    pub fn commit_message(&self, matched: &Vec<String>) -> (m: String)
        ensures
            m@ == commit_message_of(matched.deep_view(), self.added.deep_view()),
    {
        let mut m = String::from_str("commit changes ");
        m.append(crate::strutil::join_all(matched).as_str());
        m.append(" ");
        m.append(crate::strutil::join_all(&self.added).as_str());
        proof {
            reveal_strlit("commit changes ");
            reveal_strlit(" ");
            assert("commit changes "@ =~= seq![
                'c', 'o', 'm', 'm', 'i', 't', ' ', 'c', 'h', 'a', 'n', 'g', 'e', 's', ' ',
            ]);
            assert(" "@ =~= seq![' ']);
            assert(m@ =~= commit_message_of(matched.deep_view(), self.added.deep_view()));
        }
        m
    }

    /// Records that the planned commit succeeded: the snapshot is written
    /// and the branch pointer advanced, so nothing awaits commit any more,
    /// the new commit awaits push, and the recorded paths are consumed.
    pub fn finish_commit(&mut self)
        requires
            old(self).needs_commit,
        ensures
            final(self).config == old(self).config,
            final(self).dirty() == after_commit(old(self).dirty()),
            final(self).added.deep_view() == Seq::<Seq<char>>::empty(),
    {
        self.added = Vec::new();
        self.needs_commit = false;
        self.needs_push = true;
        proof {
            assert(self.added.deep_view() =~= Seq::<Seq<char>>::empty());
        }
    }

    /// What a push request amounts to now: exactly when commits await push,
    /// the tracked branch's refspec is transmitted, with a force marker
    /// when history rewriting was requested.
    pub fn plan_push(&self, force: bool) -> (p: PushPlan)
        ensures
            p is PushRefspec <==> push_plan_needed(self.dirty()),
            p matches PushPlan::PushRefspec(r) ==> r@ == refspec_of(self.config.branch@, force),
    {
        if self.needs_push {
            PushPlan::PushRefspec(self.config.push_refspec(force))
        } else {
            PushPlan::NoPushNeeded
        }
    }

    /// Records that the planned push succeeded.
    pub fn finish_push(&mut self)
        requires
            old(self).needs_push,
        ensures
            final(self).config == old(self).config,
            final(self).dirty() == after_push(old(self).dirty()),
            final(self).added == old(self).added,
    {
        self.needs_push = false;
    }

    /// Records the outcome of a fetch-and-integrate cycle on the dirty
    /// bookkeeping: integration never touches the commit flag or the
    /// recorded paths; a three-way merge that completed without conflicts
    /// wrote a merge commit, which now awaits push; a fast-forward never
    /// sets the flag.
    pub fn finish_integrate(&mut self, plan: &IntegrationPlan, had_conflicts: bool)
        ensures
            final(self).config == old(self).config,
            final(self).added == old(self).added,
            final(self).dirty() == after_integrate(old(self).dirty(), *plan, had_conflicts),
    {
        match plan {
            IntegrationPlan::ThreeWayMerge => {
                if !had_conflicts {
                    self.needs_push = true;
                }
            },
            _ => {},
        }
    }

    /// Whether nothing awaits commit or push, so teardown owes no flush.
    pub fn is_clean(&self) -> (r: bool)
        ensures
            r == (!self.needs_commit && !self.needs_push),
    {
        !self.needs_commit && !self.needs_push
    }
}

/// Committing is idempotent: right after a successful commit, a second
/// commit request with no intervening `add` plans no engine work — it is a
/// successful no-op.
pub proof fn lemma_commit_idempotent(f: DirtyFlags)
    ensures
        commit_plan_of(after_commit(f)) is NoCommitNeeded,
{
}

/// Pushing is idempotent: right after a successful push, a second push
/// request with no intervening commit transmits nothing.
pub proof fn lemma_push_idempotent(f: DirtyFlags)
    ensures
        !push_plan_needed(after_push(f)),
{
}

/// A full flush — a successful commit followed by a successful push —
/// leaves the session clean, whatever state it started in.
pub proof fn lemma_flush_leaves_clean(f: DirtyFlags)
    ensures
        !after_push(after_commit(f)).needs_commit,
        !after_push(after_commit(f)).needs_push,
{
}

/// Provenance of the dirty flags: the push flag rises only through a
/// successful commit or a conflict-free three-way merge — never through
/// `add`, never through a fast-forward — and the commit flag rises only
/// through `add`; each flag falls only through its own successful
/// operation.
pub proof fn lemma_dirty_flag_provenance(f: DirtyFlags, plan: IntegrationPlan, conflicted: bool)
    ensures
        after_add(f).needs_push == f.needs_push,
        after_commit(f).needs_push,
        !f.needs_push && after_integrate(f, plan, conflicted).needs_push ==> plan
            is ThreeWayMerge && !conflicted,
        !(plan is ThreeWayMerge) ==> after_integrate(f, plan, conflicted).needs_push
            == f.needs_push,
        after_push(f).needs_commit == f.needs_commit,
        after_integrate(f, plan, conflicted).needs_commit == f.needs_commit,
        !after_commit(f).needs_commit,
        !after_push(f).needs_push,
{
}

} // verus!
