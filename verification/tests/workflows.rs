use branchflow::GitCommands;
use branchflow::machine::Action;
use branchflow::machine::CmdResult;
use branchflow::machine::Event;
use branchflow::machine::GitCmd;
use branchflow::machine::Machine;
use branchflow::machine::Outcome;
use branchflow::machine::captures;
use branchflow::machine::error_context;
use branchflow::machine::fixed_args;
use branchflow::machine::init;
use branchflow::machine::step;

fn git_ok(stdout: &[u8]) -> Event {
    Event::Git(CmdResult { launched: true, exit_ok: true, stdout: stdout.to_vec() })
}

fn git_fail() -> Event {
    Event::Git(CmdResult { launched: true, exit_ok: false, stdout: Vec::new() })
}

fn not_launched() -> Event {
    Event::Git(CmdResult { launched: false, exit_ok: false, stdout: Vec::new() })
}

/// Feeds the events in order and returns every action the machine asked
/// for, the initial one included.
fn drive(workflow: GitCommands, events: Vec<Event>) -> Vec<Action> {
    let (mut machine, mut action) = init(workflow);
    let mut actions = vec![action.clone()];
    for event in events {
        assert!(
            !matches!(action, Action::Done(_)),
            "machine finished with events left over"
        );
        let (m2, a2) = step(machine, event);
        machine = m2;
        action = a2;
        actions.push(action.clone());
    }
    assert!(matches!(action, Action::Done(_)), "machine still running");
    let _ = machine;
    actions
}

fn mutating_actions(actions: &[Action]) -> Vec<&Action> {
    actions
        .iter()
        .filter(|a| {
            matches!(
                a,
                Action::Git(
                    GitCmd::AddAll
                        | GitCmd::Stash
                        | GitCmd::Fetch
                        | GitCmd::PullRebase
                        | GitCmd::StashPop
                        | GitCmd::StashClear
                        | GitCmd::Reset
                        | GitCmd::Checkout { .. }
                        | GitCmd::DeleteBranch { .. }
                )
            )
        })
        .collect()
}

#[test]
fn sync_with_local_changes_stashes_and_restores() {
    // uncommitted changes present, upstream ahead: the changes are
    // stashed, the rebase pull runs, the stash is restored, and the new
    // latest commit is reported
    let actions = drive(
        GitCommands::Sync {},
        vec![
            git_ok(b".git\n"),
            git_ok(b"origin/main\n"),
            git_ok(b" M file.txt\n"),
            git_ok(b""),
            git_ok(b""),
            git_ok(b""),
            git_ok(b""),
            git_ok(b""),
            git_ok(b""),
            git_ok(b""),
            git_ok(b"abc1234 add feature\n"),
        ],
    );
    let expected = vec![
        Action::Git(GitCmd::CheckRepo),
        Action::Git(GitCmd::CheckUpstream),
        Action::Git(GitCmd::Status),
        Action::Git(GitCmd::AddAll),
        Action::Git(GitCmd::Stash),
        Action::Git(GitCmd::Fetch),
        Action::Git(GitCmd::PullRebase),
        Action::Git(GitCmd::StashPop),
        Action::Git(GitCmd::StashClear),
        Action::Git(GitCmd::Reset),
        Action::Git(GitCmd::LogLatest),
        Action::Done(Outcome::Synced { latest: b"abc1234 add feature".to_vec() }),
    ];
    assert_eq!(actions, expected);
}

#[test]
fn sync_with_clean_tree_never_touches_the_stash() {
    let events = || {
        vec![
            git_ok(b".git\n"),
            git_ok(b"origin/main\n"),
            git_ok(b""),
            git_ok(b""),
            git_ok(b""),
            git_ok(b"abc1234 same tip\n"),
        ]
    };
    // nothing new upstream: two runs over the same repository answers
    // report the same latest commit and issue no stash command
    let first = drive(GitCommands::Sync {}, events());
    let second = drive(GitCommands::Sync {}, events());
    assert_eq!(first, second);
    for actions in [&first, &second] {
        assert!(!actions.iter().any(|a| matches!(
            a,
            Action::Git(
                GitCmd::Stash | GitCmd::StashPop | GitCmd::StashClear | GitCmd::Reset
            )
        )));
        assert_eq!(
            actions.last(),
            Some(&Action::Done(Outcome::Synced { latest: b"abc1234 same tip".to_vec() }))
        );
    }
}

#[test]
fn sync_outside_a_repository_exits_cleanly() {
    let actions = drive(GitCommands::Sync {}, vec![git_fail()]);
    assert_eq!(actions.last(), Some(&Action::Done(Outcome::NotARepo)));
    assert!(mutating_actions(&actions).is_empty());
}

#[test]
fn sync_without_upstream_exits_cleanly() {
    let actions = drive(GitCommands::Sync {}, vec![git_ok(b".git\n"), git_fail()]);
    assert_eq!(actions.last(), Some(&Action::Done(Outcome::NoUpstream)));
    assert!(mutating_actions(&actions).is_empty());
}

#[test]
fn sync_restores_stash_even_when_pull_fails() {
    let actions = drive(
        GitCommands::Sync {},
        vec![
            git_ok(b".git\n"),
            git_ok(b"origin/main\n"),
            git_ok(b" M file.txt\n"),
            git_ok(b""),
            git_ok(b""),
            git_ok(b""),
            git_fail(), // pull --rebase fails
            git_ok(b""),
            git_ok(b""),
            git_ok(b""),
        ],
    );
    let tail = &actions[actions.len() - 4..];
    assert_eq!(
        tail,
        &[
            Action::Git(GitCmd::StashPop),
            Action::Git(GitCmd::StashClear),
            Action::Git(GitCmd::Reset),
            Action::Done(Outcome::Failed),
        ]
    );
}

#[test]
fn sync_fails_fast_when_git_cannot_launch() {
    let actions = drive(GitCommands::Sync {}, vec![not_launched()]);
    assert_eq!(actions.last(), Some(&Action::Done(Outcome::Failed)));
}

#[test]
fn switch_with_single_branch_reports_nothing_to_do() {
    let actions = drive(GitCommands::Switch {}, vec![git_ok(b"* main\n")]);
    assert_eq!(
        actions,
        vec![
            Action::Git(GitCmd::ListBranches),
            Action::Done(Outcome::NoOtherBranches { current: b"main".to_vec() }),
        ]
    );
    assert!(mutating_actions(&actions).is_empty());
}

#[test]
fn delete_with_single_branch_reports_nothing_to_do() {
    let actions = drive(GitCommands::Delete {}, vec![git_ok(b"* main\n")]);
    assert_eq!(
        actions,
        vec![
            Action::Git(GitCmd::ListBranches),
            Action::Done(Outcome::NoOtherBranches { current: b"main".to_vec() }),
        ]
    );
    assert!(mutating_actions(&actions).is_empty());
}

#[test]
fn switch_checks_out_the_selected_branch() {
    let actions = drive(
        GitCommands::Switch {},
        vec![
            git_ok(b"* main\n  feature-x\n"),
            Event::Selected { branch: b"feature-x".to_vec() },
            git_ok(b""),
            git_ok(b""),
        ],
    );
    let expected = vec![
        Action::Git(GitCmd::ListBranches),
        Action::PromptSelect {
            current: b"main".to_vec(),
            options: vec![b"feature-x".to_vec()],
        },
        Action::Git(GitCmd::Status),
        Action::Git(GitCmd::Checkout { branch: b"feature-x".to_vec() }),
        Action::Done(Outcome::Success),
    ];
    assert_eq!(actions, expected);
}

#[test]
fn switch_with_local_changes_guards_the_checkout() {
    let actions = drive(
        GitCommands::Switch {},
        vec![
            git_ok(b"* main\n  feature-x\n"),
            Event::Selected { branch: b"feature-x".to_vec() },
            git_ok(b"?? new.txt\n"),
            git_ok(b""),
            git_ok(b""),
            git_ok(b""),
            git_ok(b""),
            git_ok(b""),
            git_ok(b""),
        ],
    );
    let expected = vec![
        Action::Git(GitCmd::ListBranches),
        Action::PromptSelect {
            current: b"main".to_vec(),
            options: vec![b"feature-x".to_vec()],
        },
        Action::Git(GitCmd::Status),
        Action::Git(GitCmd::AddAll),
        Action::Git(GitCmd::Stash),
        Action::Git(GitCmd::Checkout { branch: b"feature-x".to_vec() }),
        Action::Git(GitCmd::StashPop),
        Action::Git(GitCmd::StashClear),
        Action::Git(GitCmd::Reset),
        Action::Done(Outcome::Success),
    ];
    assert_eq!(actions, expected);
}

#[test]
fn cancelling_switch_selection_mutates_nothing() {
    let actions = drive(
        GitCommands::Switch {},
        vec![git_ok(b"* main\n  feature-x\n"), Event::PromptCancelled],
    );
    assert_eq!(actions.last(), Some(&Action::Done(Outcome::Cancelled)));
    assert!(mutating_actions(&actions).is_empty());
}

#[test]
fn cancelling_delete_selection_mutates_nothing() {
    let actions = drive(
        GitCommands::Delete {},
        vec![git_ok(b"* main\n  feature-x\n"), Event::PromptCancelled],
    );
    assert_eq!(actions.last(), Some(&Action::Done(Outcome::Cancelled)));
    assert!(mutating_actions(&actions).is_empty());
}

#[test]
fn unexpected_prompt_failure_aborts_cleanly() {
    let actions = drive(
        GitCommands::Switch {},
        vec![git_ok(b"* main\n  feature-x\n"), Event::PromptFailed],
    );
    assert_eq!(actions.last(), Some(&Action::Done(Outcome::PromptError)));
    assert!(mutating_actions(&actions).is_empty());
}

#[test]
fn delete_runs_only_after_an_explicit_yes() {
    // fully merged feature branch: select it, confirm, and the forced
    // delete for exactly that branch is issued
    let actions = drive(
        GitCommands::Delete {},
        vec![
            git_ok(b"* main\n  feature-x\n"),
            Event::Selected { branch: b"feature-x".to_vec() },
            Event::Confirmed { yes: true },
            git_ok(b""),
        ],
    );
    let expected = vec![
        Action::Git(GitCmd::ListBranches),
        Action::PromptSelect {
            current: b"main".to_vec(),
            options: vec![b"feature-x".to_vec()],
        },
        Action::ConfirmDelete,
        Action::Git(GitCmd::DeleteBranch { branch: b"feature-x".to_vec() }),
        Action::Done(Outcome::Success),
    ];
    assert_eq!(actions, expected);
    // a later listing without the branch offers nothing to delete
    let after = drive(GitCommands::Delete {}, vec![git_ok(b"* main\n")]);
    assert_eq!(
        after.last(),
        Some(&Action::Done(Outcome::NoOtherBranches { current: b"main".to_vec() }))
    );
}

#[test]
fn delete_refused_on_no() {
    let actions = drive(
        GitCommands::Delete {},
        vec![
            git_ok(b"* main\n  feature-x\n"),
            Event::Selected { branch: b"feature-x".to_vec() },
            Event::Confirmed { yes: false },
        ],
    );
    assert_eq!(actions.last(), Some(&Action::Done(Outcome::Cancelled)));
    assert!(mutating_actions(&actions).is_empty());
}

#[test]
fn delete_refused_on_cancelled_confirmation() {
    let actions = drive(
        GitCommands::Delete {},
        vec![
            git_ok(b"* main\n  feature-x\n"),
            Event::Selected { branch: b"feature-x".to_vec() },
            Event::PromptCancelled,
        ],
    );
    assert_eq!(actions.last(), Some(&Action::Done(Outcome::Cancelled)));
    assert!(mutating_actions(&actions).is_empty());
}

#[test]
fn delete_refused_on_confirmation_error() {
    let actions = drive(
        GitCommands::Delete {},
        vec![
            git_ok(b"* main\n  feature-x\n"),
            Event::Selected { branch: b"feature-x".to_vec() },
            Event::PromptFailed,
        ],
    );
    assert_eq!(actions.last(), Some(&Action::Done(Outcome::PromptError)));
    assert!(mutating_actions(&actions).is_empty());
}

#[test]
fn an_event_outside_the_protocol_fails_the_run() {
    // a prompt answer arrives while a command result is awaited
    let (machine, _) = init(GitCommands::Sync {});
    let (machine, action) = step(machine, Event::Selected { branch: b"x".to_vec() });
    assert_eq!(action, Action::Done(Outcome::Failed));
    let _ = machine;
}

#[test]
fn stepping_a_finished_machine_reports_failure() {
    let (machine, _) = init(GitCommands::Sync {});
    let (machine, action) = step(machine, git_fail());
    assert_eq!(action, Action::Done(Outcome::NotARepo));
    let (machine, action): (Machine, Action) = step(machine, git_ok(b""));
    assert_eq!(action, Action::Done(Outcome::Failed));
    let _ = machine;
}

#[test]
fn argument_vectors_match_the_external_interface() {
    let cases: Vec<(GitCmd, Vec<&str>, bool)> = vec![
        (GitCmd::CheckRepo, vec!["rev-parse", "--git-dir"], true),
        (
            GitCmd::CheckUpstream,
            vec!["rev-parse", "--abbrev-ref", "--symbolic-full-name", "@{u}"],
            true,
        ),
        (GitCmd::Status, vec!["status", "--porcelain"], true),
        (GitCmd::AddAll, vec!["add", "."], false),
        (GitCmd::Stash, vec!["stash"], false),
        (GitCmd::Fetch, vec!["fetch", "-p"], false),
        (GitCmd::PullRebase, vec!["pull", "--rebase"], false),
        (GitCmd::StashPop, vec!["stash", "pop"], false),
        (GitCmd::StashClear, vec!["stash", "clear"], false),
        (GitCmd::Reset, vec!["reset"], false),
        (GitCmd::LogLatest, vec!["log", "-1", "--oneline"], true),
        (GitCmd::ListBranches, vec!["--no-pager", "branch", "--no-color"], true),
        (GitCmd::Checkout { branch: b"b".to_vec() }, vec!["checkout"], false),
        (GitCmd::DeleteBranch { branch: b"b".to_vec() }, vec!["branch", "-D"], false),
    ];
    for (cmd, args, cap) in cases {
        assert_eq!(fixed_args(&cmd), args);
        assert_eq!(captures(&cmd), cap);
    }
}

#[test]
fn failures_carry_their_context() {
    assert_eq!(error_context(&GitCmd::PullRebase), "failed to pull remote changes");
    assert_eq!(error_context(&GitCmd::StashPop), "failed to restore local changes");
    assert_eq!(
        error_context(&GitCmd::DeleteBranch { branch: b"b".to_vec() }),
        "failed to delete branch"
    );
}
