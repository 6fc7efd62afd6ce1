use up_branch::command::GitCall;
use up_branch::updater::{Next, Phase, Reply, Updater};

struct Run {
    calls: Vec<GitCall>,
    lines: Vec<(bool, String)>,
    exit: i32,
}

fn drive(args: &[&str], answer: &dyn Fn(GitCall) -> Reply) -> Run {
    let args: Vec<String> = args.iter().map(|a| a.to_string()).collect();
    let (mut updater, mut step) = Updater::new(&args);
    let mut run = Run { calls: Vec::new(), lines: Vec::new(), exit: -1 };
    loop {
        for line in &step.lines {
            run.lines.push((line.to_stderr, line.text.clone()));
        }
        match step.next {
            Next::Exit(code) => {
                assert_eq!(updater.phase(), Phase::Finished(code));
                run.exit = code;
                return run;
            }
            Next::Run(call) => {
                run.calls.push(call);
                step = updater.resume(answer(call));
            }
        }
    }
}

fn ok() -> Reply {
    Reply::Succeeded(String::new())
}

fn healthy(call: GitCall) -> Reply {
    match call {
        GitCall::RemoteShow => Reply::Succeeded("* remote origin\n  HEAD branch: main\n".to_string()),
        GitCall::CurrentBranch => Reply::Succeeded("feature\n".to_string()),
        GitCall::UntrackedFiles => Reply::Succeeded(String::new()),
        _ => ok(),
    }
}

fn dirty(call: GitCall) -> Reply {
    match call {
        GitCall::TrackedChanges => Reply::Failed,
        other => healthy(other),
    }
}

fn count(calls: &[GitCall], c: GitCall) -> usize {
    calls.iter().filter(|x| **x == c).count()
}

fn texts(run: &Run) -> Vec<String> {
    run.lines.iter().map(|l| l.1.clone()).collect()
}

#[test]
fn no_argument_targets_main() {
    let (updater, step) = Updater::new(&Vec::new());
    assert_eq!(updater.target(), "main");
    assert_eq!(step.next, Next::Run(GitCall::Version));
    assert!(step.lines.is_empty());
    let args = updater.args(GitCall::PullTarget);
    assert_eq!(args, vec!["pull", "origin", "main"]);
}

#[test]
fn first_argument_is_target() {
    let (updater, _) = Updater::new(&vec!["develop".to_string(), "extra".to_string()]);
    assert_eq!(updater.target(), "develop");
    assert_eq!(updater.args(GitCall::RebaseOntoTarget), vec!["rebase", "origin/develop"]);
}

#[test]
fn missing_tool_ends_run_at_once() {
    for reply in [Reply::Unavailable, Reply::Failed] {
        let (mut updater, _) = Updater::new(&Vec::new());
        let step = updater.resume(reply);
        assert_eq!(step.next, Next::Exit(1));
        assert_eq!(step.lines.len(), 1);
        assert!(step.lines[0].to_stderr);
        assert_eq!(step.lines[0].text, "Error: Git is not installed.");
    }
    let run = drive(&[], &|c| if c == GitCall::Version { Reply::Unavailable } else { ok() });
    assert_eq!(run.calls, vec![GitCall::Version]);
    assert_eq!(run.exit, 1);
}

#[test]
fn outside_repository_fails() {
    let run = drive(&[], &|c| if c == GitCall::InsideWorkTree { Reply::Failed } else { healthy(c) });
    assert_eq!(run.calls, vec![GitCall::Version, GitCall::InsideWorkTree]);
    assert_eq!(run.exit, 1);
    assert_eq!(run.lines, vec![(true, "Error: Not inside a Git repository.".to_string())]);
}

#[test]
fn develop_clean_tree_succeeds() {
    let run = drive(&["develop"], &healthy);
    assert_eq!(run.exit, 0);
    assert_eq!(
        run.calls,
        vec![
            GitCall::Version,
            GitCall::InsideWorkTree,
            GitCall::RemoteHeads,
            GitCall::CurrentBranch,
            GitCall::TrackedChanges,
            GitCall::UntrackedFiles,
            GitCall::SwitchToTarget,
            GitCall::PullTarget,
            GitCall::SwitchBack,
            GitCall::RebaseOntoTarget,
        ]
    );
    assert_eq!(count(&run.calls, GitCall::StashPush), 0);
    assert_eq!(count(&run.calls, GitCall::StashPop), 0);
    assert_eq!(
        texts(&run),
        vec![
            "No uncommitted changes to stash.",
            "Fetching updates from origin...",
            "Rebasing 'feature' onto 'origin/develop'.",
            "Successfully rebased 'feature' onto 'origin/develop'.",
        ]
    );
    assert_eq!(run.lines.last().unwrap().0, false);
}

#[test]
fn missing_main_reports_remote_default() {
    let run = drive(&[], &|c| match c {
        GitCall::RemoteHeads => Reply::Failed,
        GitCall::RemoteShow => Reply::Succeeded(
            "* remote origin\n  Fetch URL: git@host:repo.git\n  HEAD branch: develop\n  Remote branches:\n"
                .to_string(),
        ),
        other => healthy(other),
    });
    assert_eq!(run.exit, 1);
    assert_eq!(
        run.calls,
        vec![GitCall::Version, GitCall::InsideWorkTree, GitCall::RemoteHeads, GitCall::RemoteShow]
    );
    assert_eq!(
        run.lines,
        vec![
            (true, "Error: Branch 'main' does not exist on remote 'origin'.".to_string()),
            (false, "The default branch on remote 'origin' is 'develop'.".to_string()),
            (false, "Please specify the branch to rebase onto:".to_string()),
            (false, "Example: up_branch develop".to_string()),
        ]
    );
}

#[test]
fn missing_branch_without_remote_description_fails() {
    for show in [Reply::Failed, Reply::Succeeded("* remote origin\n  Fetch URL: x\n".to_string())] {
        let (mut updater, _) = Updater::new(&vec!["topic".to_string()]);
        updater.resume(ok());
        updater.resume(ok());
        let step = updater.resume(Reply::Failed);
        assert_eq!(step.next, Next::Run(GitCall::RemoteShow));
        assert_eq!(step.lines[0].text, "Error: Branch 'topic' does not exist on remote 'origin'.");
        let step = updater.resume(show);
        assert_eq!(step.next, Next::Exit(1));
        let lines: Vec<(bool, String)> =
            step.lines.iter().map(|l| (l.to_stderr, l.text.clone())).collect();
        assert_eq!(
            lines,
            vec![
                (true, "Could not determine the default branch on remote 'origin'.".to_string()),
                (true, "Please specify the branch to rebase onto.".to_string()),
            ]
        );
    }
}

#[test]
fn current_branch_failure_reports_command() {
    let run = drive(&[], &|c| if c == GitCall::CurrentBranch { Reply::Failed } else { healthy(c) });
    assert_eq!(run.exit, 1);
    assert_eq!(
        run.lines,
        vec![(
            true,
            "Command `git` with arguments [\"rev-parse\", \"--abbrev-ref\", \"HEAD\"] failed."
                .to_string()
        )]
    );
    let run = drive(&[], &|c| if c == GitCall::CurrentBranch { Reply::Unavailable } else { healthy(c) });
    assert_eq!(
        run.lines,
        vec![(
            true,
            "Failed to execute command: git [\"rev-parse\", \"--abbrev-ref\", \"HEAD\"]".to_string()
        )]
    );
}

#[test]
fn current_branch_is_trimmed() {
    let run = drive(&["develop"], &|c| match c {
        GitCall::CurrentBranch => Reply::Succeeded("  \t fix/bug-12 \r\n".to_string()),
        other => healthy(other),
    });
    assert_eq!(run.exit, 0);
    assert_eq!(
        run.lines.last().unwrap().1,
        "Successfully rebased 'fix/bug-12' onto 'origin/develop'."
    );
}

#[test]
fn untracked_files_make_tree_dirty() {
    let run = drive(&[], &|c| match c {
        GitCall::UntrackedFiles => Reply::Succeeded("notes.txt\n".to_string()),
        other => healthy(other),
    });
    assert_eq!(run.exit, 0);
    assert_eq!(count(&run.calls, GitCall::StashPush), 1);
    assert_eq!(count(&run.calls, GitCall::StashPop), 1);
    let run = drive(&[], &|c| match c {
        GitCall::UntrackedFiles => Reply::Succeeded(" \n\n".to_string()),
        other => healthy(other),
    });
    assert_eq!(count(&run.calls, GitCall::StashPush), 0);
    let run = drive(&[], &|c| match c {
        GitCall::UntrackedFiles => Reply::Failed,
        other => healthy(other),
    });
    assert_eq!(count(&run.calls, GitCall::StashPush), 0);
    assert_eq!(run.exit, 0);
}

#[test]
fn dirty_tree_stashes_before_switch_and_pops_after_rebase() {
    let run = drive(&["develop"], &dirty);
    assert_eq!(run.exit, 0);
    assert_eq!(
        run.calls,
        vec![
            GitCall::Version,
            GitCall::InsideWorkTree,
            GitCall::RemoteHeads,
            GitCall::CurrentBranch,
            GitCall::TrackedChanges,
            GitCall::StashPush,
            GitCall::SwitchToTarget,
            GitCall::PullTarget,
            GitCall::SwitchBack,
            GitCall::RebaseOntoTarget,
            GitCall::StashPop,
        ]
    );
    assert_eq!(
        texts(&run),
        vec![
            "Stashing uncommitted changes, including untracked files.",
            "Fetching updates from origin...",
            "Rebasing 'feature' onto 'origin/develop'.",
            "Restoring stashed changes.",
            "Successfully rebased 'feature' onto 'origin/develop'.",
        ]
    );
}

#[test]
fn stash_push_failure_ends_run() {
    let run = drive(&[], &|c| match c {
        GitCall::StashPush => Reply::Failed,
        other => dirty(other),
    });
    assert_eq!(run.exit, 1);
    assert_eq!(run.calls.last(), Some(&GitCall::StashPush));
    assert_eq!(run.lines.last().unwrap(), &(true, "Failed to stash changes.".to_string()));
}

#[test]
fn dirty_tree_pull_failure_pops_once() {
    for pop in [true, false] {
        let run = drive(&[], &move |c| match c {
            GitCall::PullTarget => Reply::Failed,
            GitCall::StashPop if !pop => Reply::Failed,
            other => dirty(other),
        });
        assert_eq!(run.exit, 1);
        assert_eq!(count(&run.calls, GitCall::StashPop), 1);
        assert_eq!(count(&run.calls, GitCall::RebaseOntoTarget), 0);
        assert_eq!(run.calls.last(), Some(&GitCall::StashPop));
        assert_eq!(
            run.lines[run.lines.len() - 2..].to_vec(),
            vec![
                (true, "Failed to switch to branch 'main' or pull latest changes.".to_string()),
                (true, "Restoring stashed changes.".to_string()),
            ]
        );
    }
}

#[test]
fn switch_failure_with_clean_tree_does_not_pop() {
    let run = drive(&[], &|c| if c == GitCall::SwitchToTarget { Reply::Failed } else { healthy(c) });
    assert_eq!(run.exit, 1);
    assert_eq!(count(&run.calls, GitCall::StashPop), 0);
    assert_eq!(count(&run.calls, GitCall::PullTarget), 0);
}

#[test]
fn switch_back_failure_leaves_stash() {
    let run = drive(&[], &|c| if c == GitCall::SwitchBack { Reply::Failed } else { dirty(c) });
    assert_eq!(run.exit, 1);
    assert_eq!(count(&run.calls, GitCall::StashPop), 0);
    assert_eq!(
        run.lines.last().unwrap().1,
        "Command `git` with arguments [\"switch\", \"-\"] failed."
    );
}

#[test]
fn rebase_conflict_leaves_stash() {
    let run = drive(&[], &|c| if c == GitCall::RebaseOntoTarget { Reply::Failed } else { dirty(c) });
    assert_eq!(run.exit, 1);
    assert_eq!(count(&run.calls, GitCall::StashPop), 0);
    assert_eq!(
        run.lines.last().unwrap().1,
        "Merge conflicts detected during rebase. Please resolve them and continue."
    );
}

#[test]
fn pop_conflict_fails_after_rebase() {
    let run = drive(&[], &|c| if c == GitCall::StashPop { Reply::Failed } else { dirty(c) });
    assert_eq!(run.exit, 1);
    assert_eq!(count(&run.calls, GitCall::StashPop), 1);
    assert_eq!(
        run.lines.last().unwrap(),
        &(
            true,
            "Merge conflicts detected when applying stashed changes. Please resolve them and continue."
                .to_string()
        )
    );
}

#[test]
fn stash_flag_follows_push() {
    let (mut updater, _) = Updater::new(&Vec::new());
    for _ in 0..4 {
        updater.resume(healthy(GitCall::Version));
    }
    assert!(!updater.stash_pushed());
    let step = updater.resume(Reply::Failed);
    assert_eq!(step.next, Next::Run(GitCall::StashPush));
    assert!(!updater.stash_pushed());
    updater.resume(ok());
    assert!(updater.stash_pushed());
    assert_eq!(updater.current(), "");
}
