//! The update procedure as a state machine. Each step names the next call
//! to make, or the exit status, and the lines to print before it; the caller
//! runs the call and hands back how it went.
use vstd::prelude::*;
use crate::command::GitCall;
use crate::message::{
    branch_missing, branch_missing_text, call_failed, call_failed_text, call_not_run, call_not_run_text,
    choose_branch_text, default_branch_line, default_branch_text, err, example, example_text,
    fetching_text, line_views, no_default_text, not_a_repository_text, nothing_to_stash_text, out,
    pop_conflict_text, rebase_conflict_text, rebasing, rebasing_text, restoring_text, specify_branch_text,
    stash_failed_text, stashing_text, success, success_text, tool_missing_text, update_failed,
    update_failed_text, Line,
};
use crate::text::{default_branch, default_branch_of, trim, trimmed};
use vstd::string::StrSliceExecFns;

verus! {

/// The branch rebased onto when none is given.
pub open spec fn default_target() -> Seq<char> {
    "main"@
}

/// The target branch for the command-line arguments `args` (the program
/// name left out): the first one, or the default.
pub open spec fn target_of(args: Seq<Seq<char>>) -> Seq<char> {
    if args.len() == 0 {
        default_target()
    } else {
        args[0]
    }
}

/// How a call went.
pub enum Reply {
    /// The tool could not be started.
    Unavailable,
    /// It ran and exited with a failure status.
    Failed,
    /// It ran and succeeded; holds what it wrote to standard output when
    /// that is read back (empty otherwise).
    Succeeded(String),
}

impl Reply {
    pub open spec fn ok(self) -> bool {
        self is Succeeded
    }
}

/// What the caller does next.
#[derive(Clone, Copy, Debug, PartialEq, Eq, Structural)]
pub enum Next {
    Run(GitCall),
    Exit(i32),
}

/// Where a run stands.
#[derive(Clone, Copy, Debug, PartialEq, Eq, Structural)]
pub enum Phase {
    /// Waiting for the outcome of the call.
    Awaiting(GitCall),
    /// Waiting for a stash pop that undoes the stash after a failed update;
    /// the run fails whatever it gives.
    Rescuing,
    /// Done, with this exit status.
    Finished(i32),
}

/// What the run has found of the working tree.
#[derive(Clone, Copy, Debug, PartialEq, Eq, Structural)]
pub enum Tree {
    Unknown,
    Clean,
    Dirty,
}

/// The lines to print and what follows them.
pub struct Step {
    pub lines: Vec<Line>,
    pub next: Next,
}

pub struct StepView {
    pub lines: Seq<(bool, Seq<char>)>,
    pub next: Next,
}

impl View for Step {
    type V = StepView;

    open spec fn view(&self) -> StepView {
        StepView { lines: line_views(self.lines@), next: self.next }
    }
}

/// One run of the update procedure.
pub struct Updater {
    target: String,
    current: String,
    phase: Phase,
    tree: Tree,
    stash_pushed: bool,
    issued: Ghost<Seq<GitCall>>,
}

/// The model of an [`Updater`]: the target branch, the branch checked out
/// at the start, where the run stands, what it found of the working tree,
/// whether it pushed a stash, and every call it has issued so far.
pub struct UpdaterView {
    pub target: Seq<char>,
    pub current: Seq<char>,
    pub phase: Phase,
    pub tree: Tree,
    pub stash_pushed: bool,
    pub issued: Seq<GitCall>,
}

impl View for Updater {
    type V = UpdaterView;

    closed spec fn view(&self) -> UpdaterView {
        UpdaterView {
            target: self.target@,
            current: self.current@,
            phase: self.phase,
            tree: self.tree,
            stash_pushed: self.stash_pushed,
            issued: self.issued@,
        }
    }
}

/// How often `c` occurs in `s`.
pub open spec fn occurrences(s: Seq<GitCall>, c: GitCall) -> nat
    decreases s.len(),
{
    if s.len() == 0 {
        0
    } else {
        occurrences(s.drop_last(), c) + if s.last() == c {
            1nat
        } else {
            0nat
        }
    }
}

/// Whether the update calls (switch, pull, switch back, rebase) are under way.
pub open spec fn updating(p: Phase) -> bool {
    ||| p == Phase::Awaiting(GitCall::SwitchToTarget)
    ||| p == Phase::Awaiting(GitCall::PullTarget)
    ||| p == Phase::Awaiting(GitCall::SwitchBack)
    ||| p == Phase::Awaiting(GitCall::RebaseOntoTarget)
}

/// Whether the run has not yet decided whether to stash.
pub open spec fn deciding(p: Phase) -> bool {
    ||| p == Phase::Awaiting(GitCall::Version)
    ||| p == Phase::Awaiting(GitCall::InsideWorkTree)
    ||| p == Phase::Awaiting(GitCall::RemoteHeads)
    ||| p == Phase::Awaiting(GitCall::RemoteShow)
    ||| p == Phase::Awaiting(GitCall::CurrentBranch)
    ||| p == Phase::Awaiting(GitCall::TrackedChanges)
    ||| p == Phase::Awaiting(GitCall::UntrackedFiles)
}

impl UpdaterView {
    pub open spec fn finished(self) -> bool {
        self.phase is Finished
    }

    /// Whether the model is one that a run can reach.
    pub open spec fn wf(self) -> bool {
        &&& self.issued.len() > 0
        &&& self.issued[0] == GitCall::Version
        &&& match self.phase {
            Phase::Awaiting(c) => self.issued.last() == c,
            Phase::Rescuing => self.issued.last() == GitCall::StashPop,
            Phase::Finished(code) => code == 0 || code == 1,
        }
        &&& occurrences(self.issued, GitCall::StashPush) <= 1
        &&& occurrences(self.issued, GitCall::StashPop) <= 1
        &&& self.stash_pushed ==> self.tree == Tree::Dirty && occurrences(
            self.issued,
            GitCall::StashPush,
        ) == 1
        &&& self.tree == Tree::Clean ==> occurrences(self.issued, GitCall::StashPush) == 0
        &&& self.tree == Tree::Unknown ==> occurrences(self.issued, GitCall::StashPush) == 0
        &&& deciding(self.phase) ==> self.tree == Tree::Unknown
        &&& self.phase == Phase::Awaiting(GitCall::StashPush) ==> {
            &&& self.tree == Tree::Dirty
            &&& !self.stash_pushed
        }
        &&& occurrences(self.issued, GitCall::StashPop) == 1 ==> self.stash_pushed
        &&& updating(self.phase) ==> {
            &&& occurrences(self.issued, GitCall::StashPop) == 0
            &&& self.tree != Tree::Unknown
            &&& self.tree == Tree::Dirty ==> self.stash_pushed
        }
        &&& self.phase == Phase::Awaiting(GitCall::SwitchToTarget) ==> occurrences(
            self.issued.drop_last(),
            GitCall::StashPush,
        ) == occurrences(self.issued, GitCall::StashPush)
        &&& self.phase == Phase::Awaiting(GitCall::StashPop) ==> self.stash_pushed
        &&& self.phase == Phase::Rescuing ==> self.stash_pushed
        &&& self.phase == Phase::Finished(0) ==> occurrences(self.issued, GitCall::StashPop) == (
        if self.stash_pushed {
            1nat
        } else {
            0nat
        })
    }
}

/// The model of a step.
pub open spec fn step_of(lines: Seq<(bool, Seq<char>)>, next: Next) -> StepView {
    StepView { lines, next }
}

/// Issue call `c` after printing `lines`.
pub open spec fn call(s: UpdaterView, c: GitCall, lines: Seq<(bool, Seq<char>)>) -> (
    UpdaterView,
    StepView,
) {
    (
        UpdaterView { phase: Phase::Awaiting(c), issued: s.issued.push(c), ..s },
        step_of(lines, Next::Run(c)),
    )
}

/// Stop with status `code` after printing `lines`.
pub open spec fn stop(s: UpdaterView, code: i32, lines: Seq<(bool, Seq<char>)>) -> (
    UpdaterView,
    StepView,
) {
    (UpdaterView { phase: Phase::Finished(code), ..s }, step_of(lines, Next::Exit(code)))
}

/// What comes of a failed switch or pull: the stash, if one was pushed, is
/// popped before the run fails.
pub open spec fn update_failed_step(s: UpdaterView) -> (UpdaterView, StepView) {
    if s.stash_pushed {
        let (s1, st) = call(
            s,
            GitCall::StashPop,
            seq![(true, update_failed_text(s.target)), (true, restoring_text())],
        );
        (UpdaterView { phase: Phase::Rescuing, ..s1 }, st)
    } else {
        stop(s, 1, seq![(true, update_failed_text(s.target))])
    }
}

/// The error line for call `c` that did not succeed.
pub open spec fn call_error(c: GitCall, t: Seq<char>, r: Reply) -> (bool, Seq<char>) {
    if r is Unavailable {
        (true, call_not_run_text(c, t))
    } else {
        (true, call_failed_text(c, t))
    }
}

/// The lines that end a run whose target branch is missing on the remote,
/// after the remote's description `shown` was read (`None`: it could not be).
/// A description that names no default branch is treated as one that could
/// not be read: a run never goes on once the target is known to be missing.
pub open spec fn missing_branch_lines(shown: Option<Seq<char>>) -> Seq<(bool, Seq<char>)> {
    match shown {
        Some(info) => match default_branch_of(info) {
            Some(d) => seq![
                (false, default_branch_text(d)),
                (false, choose_branch_text()),
                (false, example_text(d)),
            ],
            None => seq![(true, no_default_text()), (true, specify_branch_text())],
        },
        None => seq![(true, no_default_text()), (true, specify_branch_text())],
    }
}

/// The start of a run onto target branch `t`: the tool's version is asked first.
pub open spec fn start(t: Seq<char>) -> (UpdaterView, StepView) {
    (
        UpdaterView {
            target: t,
            current: Seq::empty(),
            phase: Phase::Awaiting(GitCall::Version),
            tree: Tree::Unknown,
            stash_pushed: false,
            issued: seq![GitCall::Version],
        },
        step_of(Seq::empty(), Next::Run(GitCall::Version)),
    )
}

/// What a run in state `s` does when its pending call ends with `r`.
pub open spec fn advance(s: UpdaterView, r: Reply) -> (UpdaterView, StepView) {
    match s.phase {
        Phase::Finished(code) => (s, step_of(Seq::empty(), Next::Exit(code))),
        Phase::Rescuing => stop(s, 1, Seq::empty()),
        Phase::Awaiting(c) => match c {
            GitCall::Version => if r.ok() {
                call(s, GitCall::InsideWorkTree, Seq::empty())
            } else {
                stop(s, 1, seq![(true, tool_missing_text())])
            },
            GitCall::InsideWorkTree => if r.ok() {
                call(s, GitCall::RemoteHeads, Seq::empty())
            } else {
                stop(s, 1, seq![(true, not_a_repository_text())])
            },
            GitCall::RemoteHeads => if r.ok() {
                call(s, GitCall::CurrentBranch, Seq::empty())
            } else {
                call(s, GitCall::RemoteShow, seq![(true, branch_missing_text(s.target))])
            },
            GitCall::RemoteShow => match r {
                Reply::Succeeded(o) => stop(s, 1, missing_branch_lines(Some(o@))),
                _ => stop(s, 1, missing_branch_lines(None)),
            },
            GitCall::CurrentBranch => match r {
                Reply::Succeeded(o) => call(
                    UpdaterView { current: trimmed(o@), ..s },
                    GitCall::TrackedChanges,
                    Seq::empty(),
                ),
                _ => stop(s, 1, seq![call_error(c, s.target, r)]),
            },
            GitCall::TrackedChanges => if r.ok() {
                call(s, GitCall::UntrackedFiles, Seq::empty())
            } else {
                call(
                    UpdaterView { tree: Tree::Dirty, ..s },
                    GitCall::StashPush,
                    seq![(false, stashing_text())],
                )
            },
            GitCall::UntrackedFiles => match r {
                Reply::Succeeded(o) if trimmed(o@).len() > 0 => call(
                    UpdaterView { tree: Tree::Dirty, ..s },
                    GitCall::StashPush,
                    seq![(false, stashing_text())],
                ),
                _ => call(
                    UpdaterView { tree: Tree::Clean, ..s },
                    GitCall::SwitchToTarget,
                    seq![(false, nothing_to_stash_text()), (false, fetching_text())],
                ),
            },
            GitCall::StashPush => if r.ok() {
                call(
                    UpdaterView { stash_pushed: true, ..s },
                    GitCall::SwitchToTarget,
                    seq![(false, fetching_text())],
                )
            } else {
                stop(s, 1, seq![(true, stash_failed_text())])
            },
            GitCall::SwitchToTarget => if r.ok() {
                call(s, GitCall::PullTarget, Seq::empty())
            } else {
                update_failed_step(s)
            },
            GitCall::PullTarget => if r.ok() {
                call(s, GitCall::SwitchBack, Seq::empty())
            } else {
                update_failed_step(s)
            },
            GitCall::SwitchBack => if r.ok() {
                call(
                    s,
                    GitCall::RebaseOntoTarget,
                    seq![(false, rebasing_text(s.current, s.target))],
                )
            } else {
                stop(s, 1, seq![call_error(c, s.target, r)])
            },
            GitCall::RebaseOntoTarget => if !r.ok() {
                stop(s, 1, seq![(true, rebase_conflict_text())])
            } else if s.stash_pushed {
                call(s, GitCall::StashPop, seq![(false, restoring_text())])
            } else {
                stop(s, 0, seq![(false, success_text(s.current, s.target))])
            },
            GitCall::StashPop => if r.ok() {
                stop(s, 0, seq![(false, success_text(s.current, s.target))])
            } else {
                stop(s, 1, seq![(true, pop_conflict_text())])
            },
        },
    }
}

/// Issuing `x` adds one to its own count and leaves every other count.
pub proof fn lemma_occurrences_push(s: Seq<GitCall>, x: GitCall)
    ensures
        forall|c: GitCall|
            #[trigger] occurrences(s.push(x), c) == occurrences(s, c) + if x == c {
                1nat
            } else {
                0nat
            },
        s.push(x).drop_last() == s,
{
    assert(s.push(x).drop_last() =~= s);
}

/// A run starts in a reachable state.
pub proof fn lemma_start_wf(t: Seq<char>)
    ensures
        start(t).0.wf(),
{
    let s = start(t).0;
    lemma_occurrences_push(Seq::empty(), GitCall::Version);
    assert(seq![GitCall::Version] =~= Seq::<GitCall>::empty().push(GitCall::Version));
}

/// Every step from a reachable state that is not finished reaches one.
pub proof fn lemma_advance_wf(s: UpdaterView, r: Reply)
    requires
        s.wf(),
        !s.finished(),
    ensures
        advance(s, r).0.wf(),
{
    lemma_occurrences_push(s.issued, GitCall::InsideWorkTree);
    lemma_occurrences_push(s.issued, GitCall::RemoteHeads);
    lemma_occurrences_push(s.issued, GitCall::RemoteShow);
    lemma_occurrences_push(s.issued, GitCall::CurrentBranch);
    lemma_occurrences_push(s.issued, GitCall::TrackedChanges);
    lemma_occurrences_push(s.issued, GitCall::UntrackedFiles);
    lemma_occurrences_push(s.issued, GitCall::StashPush);
    lemma_occurrences_push(s.issued, GitCall::SwitchToTarget);
    lemma_occurrences_push(s.issued, GitCall::PullTarget);
    lemma_occurrences_push(s.issued, GitCall::SwitchBack);
    lemma_occurrences_push(s.issued, GitCall::RebaseOntoTarget);
    lemma_occurrences_push(s.issued, GitCall::StashPop);
}

/// The target branch for the command-line arguments `args` (the program
/// name left out): the first argument, or `main` when there is none.
pub fn target_branch(args: &Vec<String>) -> (r: String)
    ensures
        r@ == target_of(crate::command::views(args@)),
{
    if args.len() == 0 {
        String::from_str("main")
    } else {
        args[0].clone()
    }
}

fn no_lines() -> (r: Vec<Line>)
    ensures
        line_views(r@) == Seq::<(bool, Seq<char>)>::empty(),
{
    let r: Vec<Line> = Vec::new();
    assert(line_views(r@) =~= Seq::<(bool, Seq<char>)>::empty());
    r
}

fn one_line(a: Line) -> (r: Vec<Line>)
    ensures
        line_views(r@) == seq![a@],
{
    let ghost va = a@;
    let r = vec![a];
    assert(line_views(r@) =~= seq![va]);
    r
}

fn two_lines(a: Line, b: Line) -> (r: Vec<Line>)
    ensures
        line_views(r@) == seq![a@, b@],
{
    let ghost (va, vb) = (a@, b@);
    let r = vec![a, b];
    assert(line_views(r@) =~= seq![va, vb]);
    r
}

fn three_lines(a: Line, b: Line, c: Line) -> (r: Vec<Line>)
    ensures
        line_views(r@) == seq![a@, b@, c@],
{
    let ghost (va, vb, vc) = (a@, b@, c@);
    let r = vec![a, b, c];
    assert(line_views(r@) =~= seq![va, vb, vc]);
    r
}

fn text(s: &str) -> (r: String)
    ensures
        r@ == s@,
{
    String::from_str(s)
}

impl Updater {
    /// A run onto the branch that the command-line arguments `args` (the
    /// program name left out) name, with its first step.
    pub fn new(args: &Vec<String>) -> (r: (Updater, Step))
        ensures
            (r.0@, r.1@) == start(target_of(crate::command::views(args@))),
            r.0@.wf(),
    {
        let target = target_branch(args);
        let ghost first = seq![GitCall::Version];
        let u = Updater {
            target,
            current: String::new(),
            phase: Phase::Awaiting(GitCall::Version),
            tree: Tree::Unknown,
            stash_pushed: false,
            issued: Ghost(first),
        };
        proof {
            lemma_start_wf(target_of(crate::command::views(args@)));
        }
        (u, Step { lines: no_lines(), next: Next::Run(GitCall::Version) })
    }

    /// The branch rebased onto.
    pub fn target(&self) -> (r: &str)
        ensures
            r@ == self@.target,
    {
        self.target.as_str()
    }

    /// The branch that was checked out when the run began (empty until it
    /// has been read).
    pub fn current(&self) -> (r: &str)
        ensures
            r@ == self@.current,
    {
        self.current.as_str()
    }

    /// Whether this run has pushed a stash.
    pub fn stash_pushed(&self) -> (r: bool)
        ensures
            r == self@.stash_pushed,
    {
        self.stash_pushed
    }

    /// Where the run stands.
    pub fn phase(&self) -> (r: Phase)
        ensures
            r == self@.phase,
    {
        self.phase
    }

    /// The arguments of `c` in this run.
    pub fn args(&self, c: GitCall) -> (r: Vec<String>)
        ensures
            crate::command::views(r@) == crate::command::args_of(c, self@.target),
    {
        c.args(self.target.as_str())
    }

    fn issue(&mut self, c: GitCall, lines: Vec<Line>) -> (r: Step)
        ensures
            (final(self)@, r@) == call(old(self)@, c, line_views(lines@)),
    {
        self.phase = Phase::Awaiting(c);
        self.issued = Ghost(self.issued@.push(c));
        Step { lines, next: Next::Run(c) }
    }

    fn halt(&mut self, code: i32, lines: Vec<Line>) -> (r: Step)
        ensures
            (final(self)@, r@) == stop(old(self)@, code, line_views(lines@)),
    {
        self.phase = Phase::Finished(code);
        Step { lines, next: Next::Exit(code) }
    }

    fn call_error(&self, c: GitCall, r: &Reply) -> (l: Line)
        ensures
            l@ == call_error(c, self@.target, *r),
    {
        match r {
            Reply::Unavailable => err(call_not_run(c, self.target.as_str())),
            _ => err(call_failed(c, self.target.as_str())),
        }
    }

    fn update_failed(&mut self) -> (r: Step)
        ensures
            (final(self)@, r@) == update_failed_step(old(self)@),
    {
        let first = err(update_failed(self.target.as_str()));
        if self.stash_pushed {
            let st = self.issue(
                GitCall::StashPop,
                two_lines(first, err(text("Restoring stashed changes."))),
            );
            self.phase = Phase::Rescuing;
            st
        } else {
            self.halt(1, one_line(first))
        }
    }

    /// Takes the outcome `reply` of the pending call and gives the next step.
    pub fn resume(&mut self, reply: Reply) -> (r: Step)
        requires
            old(self)@.wf(),
            !old(self)@.finished(),
        ensures
            (final(self)@, r@) == advance(old(self)@, reply),
            final(self)@.wf(),
    {
        proof {
            lemma_advance_wf(self@, reply);
        }
        let ok = match reply {
            Reply::Succeeded(_) => true,
            _ => false,
        };
        match self.phase {
            Phase::Finished(code) => Step { lines: no_lines(), next: Next::Exit(code) },
            Phase::Rescuing => self.halt(1, no_lines()),
            Phase::Awaiting(c) => match c {
                GitCall::Version => if ok {
                    self.issue(GitCall::InsideWorkTree, no_lines())
                } else {
                    self.halt(1, one_line(err(text("Error: Git is not installed."))))
                },
                GitCall::InsideWorkTree => if ok {
                    self.issue(GitCall::RemoteHeads, no_lines())
                } else {
                    self.halt(1, one_line(err(text("Error: Not inside a Git repository."))))
                },
                GitCall::RemoteHeads => if ok {
                    self.issue(GitCall::CurrentBranch, no_lines())
                } else {
                    let l = err(branch_missing(self.target.as_str()));
                    self.issue(GitCall::RemoteShow, one_line(l))
                },
                GitCall::RemoteShow => {
                    let found = match &reply {
                        Reply::Succeeded(o) => default_branch(o.as_str()),
                        _ => None,
                    };
                    match found {
                        Some(d) => self.halt(
                            1,
                            three_lines(
                                out(default_branch_line(d.as_str())),
                                out(text("Please specify the branch to rebase onto:")),
                                out(example(d.as_str())),
                            ),
                        ),
                        None => self.halt(
                            1,
                            two_lines(
                                err(
                                    text(
                                        "Could not determine the default branch on remote 'origin'.",
                                    ),
                                ),
                                err(text("Please specify the branch to rebase onto.")),
                            ),
                        ),
                    }
                },
                GitCall::CurrentBranch => match &reply {
                    Reply::Succeeded(o) => {
                        self.current = trim(o.as_str());
                        self.issue(GitCall::TrackedChanges, no_lines())
                    },
                    _ => {
                        let l = self.call_error(c, &reply);
                        self.halt(1, one_line(l))
                    },
                },
                GitCall::TrackedChanges => if ok {
                    self.issue(GitCall::UntrackedFiles, no_lines())
                } else {
                    self.tree = Tree::Dirty;
                    self.issue(
                        GitCall::StashPush,
                        one_line(
                            out(text("Stashing uncommitted changes, including untracked files.")),
                        ),
                    )
                },
                GitCall::UntrackedFiles => {
                    let dirty = match &reply {
                        Reply::Succeeded(o) => trim(o.as_str()).as_str().unicode_len() > 0,
                        _ => false,
                    };
                    if dirty {
                        self.tree = Tree::Dirty;
                        self.issue(
                            GitCall::StashPush,
                            one_line(
                                out(
                                    text(
                                        "Stashing uncommitted changes, including untracked files.",
                                    ),
                                ),
                            ),
                        )
                    } else {
                        self.tree = Tree::Clean;
                        self.issue(
                            GitCall::SwitchToTarget,
                            two_lines(
                                out(text("No uncommitted changes to stash.")),
                                out(text("Fetching updates from origin...")),
                            ),
                        )
                    }
                },
                GitCall::StashPush => if ok {
                    self.stash_pushed = true;
                    self.issue(
                        GitCall::SwitchToTarget,
                        one_line(out(text("Fetching updates from origin..."))),
                    )
                } else {
                    self.halt(1, one_line(err(text("Failed to stash changes."))))
                },
                GitCall::SwitchToTarget => if ok {
                    self.issue(GitCall::PullTarget, no_lines())
                } else {
                    self.update_failed()
                },
                GitCall::PullTarget => if ok {
                    self.issue(GitCall::SwitchBack, no_lines())
                } else {
                    self.update_failed()
                },
                GitCall::SwitchBack => if ok {
                    let l = out(rebasing(self.current.as_str(), self.target.as_str()));
                    self.issue(GitCall::RebaseOntoTarget, one_line(l))
                } else {
                    let l = self.call_error(c, &reply);
                    self.halt(1, one_line(l))
                },
                GitCall::RebaseOntoTarget => if !ok {
                    self.halt(
                        1,
                        one_line(
                            err(
                                text(
                                    "Merge conflicts detected during rebase. Please resolve them and continue.",
                                ),
                            ),
                        ),
                    )
                } else if self.stash_pushed {
                    self.issue(GitCall::StashPop, one_line(out(text("Restoring stashed changes."))))
                } else {
                    let l = out(success(self.current.as_str(), self.target.as_str()));
                    self.halt(0, one_line(l))
                },
                GitCall::StashPop => if ok {
                    let l = out(success(self.current.as_str(), self.target.as_str()));
                    self.halt(0, one_line(l))
                } else {
                    self.halt(
                        1,
                        one_line(
                            err(
                                text(
                                    "Merge conflicts detected when applying stashed changes. Please resolve them and continue.",
                                ),
                            ),
                        ),
                    )
                },
            },
        }
    }
}

} // verus!
