//! What holds of every run of the updater, stated over its model.
use vstd::prelude::*;
use crate::command::GitCall;
use crate::message::{success_text, tool_missing_text};
use crate::text::trimmed;
use crate::updater::{
    advance, lemma_occurrences_push, occurrences, start, target_of, updating, Next, Phase, Reply,
    Tree, UpdaterView,
};

verus! {

/// Without arguments the run rebases onto `main`.
pub proof fn lemma_no_argument_targets_main(args: Seq<Seq<char>>)
    requires
        args.len() == 0,
    ensures
        target_of(args) == "main"@,
        start(target_of(args)).0.target == "main"@,
{
}

/// When the tool cannot report its version, the run prints that it is not
/// installed and exits with status 1, having issued no other call.
pub proof fn lemma_missing_tool_ends_run(t: Seq<char>, r: Reply)
    requires
        !r.ok(),
    ensures
        start(t).1.next == Next::Run(GitCall::Version),
        advance(start(t).0, r).1.next == Next::Exit(1),
        advance(start(t).0, r).1.lines == seq![(true, tool_missing_text())],
        advance(start(t).0, r).0.issued == seq![GitCall::Version],
        advance(start(t).0, r).0.finished(),
{
}

/// Once the working tree is found clean, no stash push has been issued and
/// none ever is: the finding stays, and no step issues one.
pub proof fn lemma_clean_tree_never_stashes(s: UpdaterView, r: Reply)
    requires
        s.wf(),
        s.tree == Tree::Clean,
        !s.finished(),
    ensures
        occurrences(s.issued, GitCall::StashPush) == 0,
        advance(s, r).0.tree == Tree::Clean,
        advance(s, r).1.next != Next::Run(GitCall::StashPush),
        occurrences(advance(s, r).0.issued, GitCall::StashPush) == 0,
{
    crate::updater::lemma_advance_wf(s, r);
}

/// Once the working tree is found dirty, exactly one stash push is issued
/// before the switch to the target branch, and it has succeeded by then.
pub proof fn lemma_dirty_tree_stashes_once(s: UpdaterView)
    requires
        s.wf(),
        s.tree == Tree::Dirty,
        updating(s.phase),
    ensures
        s.stash_pushed,
        occurrences(s.issued, GitCall::StashPush) == 1,
        s.phase == Phase::Awaiting(GitCall::SwitchToTarget) ==> occurrences(
            s.issued.drop_last(),
            GitCall::StashPush,
        ) == 1,
{
}

/// A run that found changes issues the stash push as its very next call.
pub proof fn lemma_dirty_finding_pushes(s: UpdaterView, r: Reply)
    requires
        s.wf(),
        !s.finished(),
        s.tree != Tree::Dirty,
        advance(s, r).0.tree == Tree::Dirty,
    ensures
        advance(s, r).1.next == Next::Run(GitCall::StashPush),
        occurrences(advance(s, r).0.issued, GitCall::StashPush) == 1,
{
    lemma_occurrences_push(s.issued, GitCall::StashPush);
}

/// When the switch or the pull fails after a stash was pushed, exactly one
/// stash pop is attempted, and the run then fails whatever the pop gives.
pub proof fn lemma_failed_update_pops_once(s: UpdaterView, r: Reply, r2: Reply)
    requires
        s.wf(),
        s.stash_pushed,
        s.phase == Phase::Awaiting(GitCall::SwitchToTarget) || s.phase == Phase::Awaiting(
            GitCall::PullTarget,
        ),
        !r.ok(),
    ensures
        advance(s, r).1.next == Next::Run(GitCall::StashPop),
        advance(s, r).0.issued == s.issued.push(GitCall::StashPop),
        occurrences(advance(s, r).0.issued, GitCall::StashPop) == 1,
        advance(advance(s, r).0, r2).1.next == Next::Exit(1),
        advance(advance(s, r).0, r2).0.issued == advance(s, r).0.issued,
{
    lemma_occurrences_push(s.issued, GitCall::StashPop);
}

/// When the rebase succeeds after a stash was pushed, exactly one stash pop
/// follows it, and the success line comes only after that pop succeeds.
pub proof fn lemma_rebased_run_pops_once(s: UpdaterView, r: Reply, r2: Reply)
    requires
        s.wf(),
        s.stash_pushed,
        s.phase == Phase::Awaiting(GitCall::RebaseOntoTarget),
        r.ok(),
    ensures
        occurrences(s.issued, GitCall::StashPop) == 0,
        advance(s, r).1.next == Next::Run(GitCall::StashPop),
        advance(s, r).0.issued == s.issued.push(GitCall::StashPop),
        occurrences(advance(s, r).0.issued, GitCall::StashPop) == 1,
        r2.ok() ==> advance(advance(s, r).0, r2).1.next == Next::Exit(0),
        r2.ok() ==> advance(advance(s, r).0, r2).1.lines == seq![
            (false, success_text(s.current, s.target)),
        ],
        advance(advance(s, r).0, r2).0.issued == advance(s, r).0.issued,
{
    lemma_occurrences_push(s.issued, GitCall::StashPop);
}

/// A run that ends with status 0 has popped its stash exactly when it
/// pushed one.
pub proof fn lemma_success_restores_stash(s: UpdaterView)
    requires
        s.wf(),
        s.phase == Phase::Finished(0),
    ensures
        occurrences(s.issued, GitCall::StashPop) == if s.stash_pushed {
            1nat
        } else {
            0nat
        },
        s.stash_pushed ==> occurrences(s.issued, GitCall::StashPush) == 1,
{
}

/// The target branch never changes, and the original branch is the one read
/// back, trimmed, from the current-branch query; the step that ends a run with
/// status 0 prints the success line naming the two, and nothing else.
pub proof fn lemma_success_names_branches(s: UpdaterView, r: Reply)
    requires
        s.wf(),
        !s.finished(),
    ensures
        advance(s, r).0.target == s.target,
        s.phase != Phase::Awaiting(GitCall::CurrentBranch) ==> advance(s, r).0.current
            == s.current,
        s.phase == Phase::Awaiting(GitCall::CurrentBranch) ==> match r {
            Reply::Succeeded(o) => advance(s, r).0.current == trimmed(o@),
            _ => advance(s, r).0.finished(),
        },
        advance(s, r).1.next == Next::Exit(0) ==> advance(s, r).1.lines == seq![
            (false, success_text(s.current, s.target)),
        ],
{
}

} // verus!
