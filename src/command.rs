//! The version-control commands that the updater issues, and their argument
//! vectors.
use vstd::prelude::*;

verus! {

/// One invocation of the version-control tool. Those that name a branch
/// name the target branch of the run.
#[derive(Clone, Copy, Debug, PartialEq, Eq, Structural)]
pub enum GitCall {
    /// `git --version`: is the tool there at all.
    Version,
    /// `git rev-parse --is-inside-work-tree`.
    InsideWorkTree,
    /// `git ls-remote --exit-code --heads origin <target>`.
    RemoteHeads,
    /// `git remote show origin`, read back.
    RemoteShow,
    /// `git rev-parse --abbrev-ref HEAD`, read back.
    CurrentBranch,
    /// `git diff-index --quiet HEAD --`: fails when tracked files changed.
    TrackedChanges,
    /// `git ls-files --others --exclude-standard`, read back.
    UntrackedFiles,
    /// `git stash push --include-untracked -m "Auto-stash before rebasing"`.
    StashPush,
    /// `git switch <target>`.
    SwitchToTarget,
    /// `git pull origin <target>`.
    PullTarget,
    /// `git switch -`.
    SwitchBack,
    /// `git rebase origin/<target>`.
    RebaseOntoTarget,
    /// `git stash pop`.
    StashPop,
}

/// The name of the version-control tool.
pub open spec fn tool_name() -> Seq<char> {
    "git"@
}

/// The remote-tracking name of branch `t` on `origin`.
pub open spec fn remote_ref(t: Seq<char>) -> Seq<char> {
    "origin/"@ + t
}

/// The arguments that `c` passes to the tool when the target branch is `t`.
pub open spec fn args_of(c: GitCall, t: Seq<char>) -> Seq<Seq<char>> {
    match c {
        GitCall::Version => seq!["--version"@],
        GitCall::InsideWorkTree => seq!["rev-parse"@, "--is-inside-work-tree"@],
        GitCall::RemoteHeads => seq!["ls-remote"@, "--exit-code"@, "--heads"@, "origin"@, t],
        GitCall::RemoteShow => seq!["remote"@, "show"@, "origin"@],
        GitCall::CurrentBranch => seq!["rev-parse"@, "--abbrev-ref"@, "HEAD"@],
        GitCall::TrackedChanges => seq!["diff-index"@, "--quiet"@, "HEAD"@, "--"@],
        GitCall::UntrackedFiles => seq!["ls-files"@, "--others"@, "--exclude-standard"@],
        GitCall::StashPush => seq![
            "stash"@,
            "push"@,
            "--include-untracked"@,
            "-m"@,
            "Auto-stash before rebasing"@,
        ],
        GitCall::SwitchToTarget => seq!["switch"@, t],
        GitCall::PullTarget => seq!["pull"@, "origin"@, t],
        GitCall::SwitchBack => seq!["switch"@, "-"@],
        GitCall::RebaseOntoTarget => seq!["rebase"@, remote_ref(t)],
        GitCall::StashPop => seq!["stash"@, "pop"@],
    }
}

/// Whether the standard output of `c` is read back.
pub open spec fn reads_output(c: GitCall) -> bool {
    c == GitCall::RemoteShow || c == GitCall::CurrentBranch || c == GitCall::UntrackedFiles
}

/// The views of the strings in `v`.
pub open spec fn views(v: Seq<String>) -> Seq<Seq<char>> {
    v.map_values(|x: String| x@)
}

fn owned(s: &str) -> (r: String)
    ensures
        r@ == s@,
{
    String::from_str(s)
}

impl GitCall {
    /// The name of the tool that runs every call.
    pub fn program() -> (r: &'static str)
        ensures
            r@ == tool_name(),
    {
        "git"
    }

    /// Whether the standard output of this call is read back (otherwise it
    /// goes to the terminal and only the exit status counts).
    pub fn captures(self) -> (r: bool)
        ensures
            r == reads_output(self),
    {
        match self {
            GitCall::RemoteShow | GitCall::CurrentBranch | GitCall::UntrackedFiles => true,
            _ => false,
        }
    }

    /// The arguments of this call when the target branch is `target`.
    pub fn args(self, target: &str) -> (r: Vec<String>)
        ensures
            views(r@) == args_of(self, target@),
    {
        let r = match self {
            GitCall::Version => vec![owned("--version")],
            GitCall::InsideWorkTree => vec![owned("rev-parse"), owned("--is-inside-work-tree")],
            GitCall::RemoteHeads => vec![
                owned("ls-remote"),
                owned("--exit-code"),
                owned("--heads"),
                owned("origin"),
                owned(target),
            ],
            GitCall::RemoteShow => vec![owned("remote"), owned("show"), owned("origin")],
            GitCall::CurrentBranch => vec![owned("rev-parse"), owned("--abbrev-ref"), owned("HEAD")],
            GitCall::TrackedChanges => vec![
                owned("diff-index"),
                owned("--quiet"),
                owned("HEAD"),
                owned("--"),
            ],
            GitCall::UntrackedFiles => vec![
                owned("ls-files"),
                owned("--others"),
                owned("--exclude-standard"),
            ],
            GitCall::StashPush => vec![
                owned("stash"),
                owned("push"),
                owned("--include-untracked"),
                owned("-m"),
                owned("Auto-stash before rebasing"),
            ],
            GitCall::SwitchToTarget => vec![owned("switch"), owned(target)],
            GitCall::PullTarget => vec![owned("pull"), owned("origin"), owned(target)],
            GitCall::SwitchBack => vec![owned("switch"), owned("-")],
            GitCall::RebaseOntoTarget => vec![owned("rebase"), owned("origin/").concat(target)],
            GitCall::StashPop => vec![owned("stash"), owned("pop")],
        };
        assert(views(r@) =~= args_of(self, target@));
        r
    }
}

} // verus!
