//! The workflow state machine.
//!
//! The three workflows (sync, switch, delete) are sequences of external
//! commands and prompts with decision points between them. The machine
//! holds the decisions: [`init`] gives the first action of a workflow,
//! and [`step`] maps the machine and the outcome of the last action to
//! the next machine and action. A driver performs each action (running
//! the version-control binary, prompting the user) and feeds the result
//! back as an [`Event`]; the driver does no deciding of its own.
//!
//! The stash guard is part of the machine: when uncommitted changes were
//! stashed before the mutating step, every path to a terminal action
//! first issues the restore sequence (stash pop, stash clear, reset).
//! The guard is best-effort, not a transaction: the underlying tool has
//! no atomic multi-step primitive, so when the mutating step fails the
//! machine still asks for the restore sequence and then reports a hard
//! failure for the user to resolve manually.

use vstd::prelude::*;

use crate::GitCommands;
use crate::branches::current_of;
use crate::branches::others_of;
use crate::branches::parse_branch_listing;
use crate::branches::trim_bytes;
use crate::branches::trimmed;

verus! {

/// One invocation of the version-control binary. `Checkout` and
/// `DeleteBranch` carry the branch name they act on.
#[derive(Debug, Clone, PartialEq, Eq)]
pub enum GitCmd {
    /// `rev-parse --git-dir`
    CheckRepo,
    /// `rev-parse --abbrev-ref --symbolic-full-name @{u}`
    CheckUpstream,
    /// `status --porcelain`
    Status,
    /// `add .`
    AddAll,
    /// `stash`
    Stash,
    /// `fetch -p`
    Fetch,
    /// `pull --rebase`
    PullRebase,
    /// `stash pop`
    StashPop,
    /// `stash clear`
    StashClear,
    /// `reset`
    Reset,
    /// `log -1 --oneline`
    LogLatest,
    /// `--no-pager branch --no-color`
    ListBranches,
    /// `checkout <branch>`
    Checkout { branch: Vec<u8> },
    /// `branch -D <branch>`
    DeleteBranch { branch: Vec<u8> },
}

/// What one command execution reported: whether the binary could be
/// launched at all, whether it exited successfully, and its captured
/// standard output (empty when the command streamed to the terminal).
#[derive(Debug, Clone, PartialEq, Eq)]
pub struct CmdResult {
    pub launched: bool,
    pub exit_ok: bool,
    pub stdout: Vec<u8>,
}

/// What the driver reports back after performing an action.
#[derive(Debug, Clone, PartialEq, Eq)]
pub enum Event {
    /// A command finished (or could not be launched).
    Git(CmdResult),
    /// The user picked a branch at the selection prompt.
    Selected { branch: Vec<u8> },
    /// The user answered the confirmation prompt.
    Confirmed { yes: bool },
    /// The user cancelled a prompt.
    PromptCancelled,
    /// The prompt itself failed in an unexpected way.
    PromptFailed,
}

/// How a workflow ended.
#[derive(Debug, Clone, PartialEq, Eq)]
pub enum Outcome {
    /// Sync finished; `latest` is the trimmed one-line summary of the
    /// newest commit.
    Synced { latest: Vec<u8> },
    /// Switch or delete finished.
    Success,
    /// The working directory is not inside a repository.
    NotARepo,
    /// No upstream branch is configured.
    NoUpstream,
    /// Only the current branch exists; there is nothing to switch to or
    /// delete.
    NoOtherBranches { current: Vec<u8> },
    /// The user declined or cancelled a prompt.
    Cancelled,
    /// The prompt failed in an unexpected way; treated as a clean abort.
    PromptError,
    /// A command failed; any stashed changes were restored best-effort
    /// before this was reported.
    Failed,
}

/// What the machine asks the driver to do next.
#[derive(Debug, Clone, PartialEq, Eq)]
pub enum Action {
    /// Run one command and report its result.
    Git(GitCmd),
    /// Ask the user to pick one of `options`; `current` is the branch
    /// they are on, for display.
    PromptSelect { current: Vec<u8>, options: Vec<Vec<u8>> },
    /// Ask the user to confirm an irreversible deletion; the prompt must
    /// default to refusal.
    ConfirmDelete,
    /// The workflow is over.
    Done(Outcome),
}

/// Which answer the machine is waiting for.
#[derive(Debug, Clone, Copy, PartialEq, Eq, Structural)]
pub enum Phase {
    AwaitRepoCheck,
    AwaitUpstreamCheck,
    AwaitStatus,
    AwaitAdd,
    AwaitStash,
    AwaitFetch,
    AwaitPull,
    AwaitCheckout,
    AwaitPop,
    AwaitClear,
    AwaitReset,
    AwaitLog,
    AwaitList,
    AwaitSelect,
    AwaitConfirm,
    AwaitDelete,
    Finished,
}

/// The state of one workflow run.
#[derive(Debug, Clone)]
pub struct Machine {
    pub workflow: GitCommands,
    pub phase: Phase,
    /// Uncommitted changes were stashed and are not yet restored.
    pub stashed: bool,
    /// A step failed; once any restoration is done, the run reports a
    /// hard failure.
    pub failed: bool,
    /// The branch picked at the selection prompt, until it is spent on
    /// the checkout or delete command.
    pub target: Option<Vec<u8>>,
}

/// A command was launched and exited successfully.
pub open spec fn cmd_ok(r: CmdResult) -> bool {
    r.launched && r.exit_ok
}

/// The event is a successful command result.
pub open spec fn event_ok(e: Event) -> bool {
    match e {
        Event::Git(r) => cmd_ok(r),
        _ => false,
    }
}

/// Commands that change the repository, its refs or its stash; the
/// others only read.
pub open spec fn mutating(c: GitCmd) -> bool {
    match c {
        GitCmd::CheckRepo => false,
        GitCmd::CheckUpstream => false,
        GitCmd::Status => false,
        GitCmd::LogLatest => false,
        GitCmd::ListBranches => false,
        _ => true,
    }
}

/// The action runs a command that changes the repository.
pub open spec fn mutating_action(a: Action) -> bool {
    match a {
        Action::Git(c) => mutating(c),
        _ => false,
    }
}

/// Phases between a successful stash and the end of its restoration;
/// `stashed` can hold only here.
pub open spec fn in_guard(p: Phase) -> bool {
    ||| p is AwaitFetch
    ||| p is AwaitPull
    ||| p is AwaitCheckout
    ||| p is AwaitPop
    ||| p is AwaitClear
    ||| p is AwaitReset
}

pub open spec fn initial_phase(w: GitCommands) -> Phase {
    match w {
        GitCommands::Sync {  } => Phase::AwaitRepoCheck,
        GitCommands::Switch {  } => Phase::AwaitList,
        GitCommands::Delete {  } => Phase::AwaitList,
    }
}

pub open spec fn initial_action(w: GitCommands) -> Action {
    match w {
        GitCommands::Sync {  } => Action::Git(GitCmd::CheckRepo),
        GitCommands::Switch {  } => Action::Git(GitCmd::ListBranches),
        GitCommands::Delete {  } => Action::Git(GitCmd::ListBranches),
    }
}

pub open spec fn init_machine(w: GitCommands) -> Machine {
    Machine { workflow: w, phase: initial_phase(w), stashed: false, failed: false, target: None }
}

/// The run halts at once with outcome `o`.
pub open spec fn halt(o: Outcome, pre: Machine, post: Machine, a: Action) -> bool {
    &&& post == Machine { phase: Phase::Finished, ..pre }
    &&& a == Action::Done(o)
}

/// A step failed. Without a stash the run ends as a hard failure; with
/// one, the machine first turns to the restore sequence.
pub open spec fn abort_rel(pre: Machine, post: Machine, a: Action) -> bool {
    if pre.stashed {
        &&& post == Machine { phase: Phase::AwaitPop, failed: true, ..pre }
        &&& a == Action::Git(GitCmd::StashPop)
    } else {
        halt(Outcome::Failed, pre, post, a)
    }
}

/// A step failed right after the stash succeeded: the restore sequence
/// starts with the stash already recorded.
pub open spec fn guard_abort(pre: Machine, post: Machine, a: Action) -> bool {
    &&& post == Machine { phase: Phase::AwaitPop, stashed: true, failed: true, ..pre }
    &&& a == Action::Git(GitCmd::StashPop)
}

/// The transition relation of the machine: from state `pre` and event
/// `e` to state `post` and action `a`. It is a relation rather than a
/// function only because the values built from command output (parsed
/// branch names, the trimmed commit line) are pinned by their views.
pub open spec fn step_rel(pre: Machine, e: Event, post: Machine, a: Action) -> bool {
    match pre.phase {
        Phase::AwaitRepoCheck => match e {
            Event::Git(r) => {
                if !r.launched {
                    abort_rel(pre, post, a)
                } else if !r.exit_ok {
                    halt(Outcome::NotARepo, pre, post, a)
                } else {
                    &&& post == Machine { phase: Phase::AwaitUpstreamCheck, ..pre }
                    &&& a == Action::Git(GitCmd::CheckUpstream)
                }
            },
            _ => abort_rel(pre, post, a),
        },
        Phase::AwaitUpstreamCheck => match e {
            Event::Git(r) => {
                if !r.launched {
                    abort_rel(pre, post, a)
                } else if !r.exit_ok {
                    halt(Outcome::NoUpstream, pre, post, a)
                } else {
                    &&& post == Machine { phase: Phase::AwaitStatus, ..pre }
                    &&& a == Action::Git(GitCmd::Status)
                }
            },
            _ => abort_rel(pre, post, a),
        },
        Phase::AwaitStatus => match e {
            Event::Git(r) => {
                if !cmd_ok(r) {
                    abort_rel(pre, post, a)
                } else if r.stdout@.len() > 0 {
                    &&& post == Machine { phase: Phase::AwaitAdd, ..pre }
                    &&& a == Action::Git(GitCmd::AddAll)
                } else {
                    match pre.workflow {
                        GitCommands::Sync {  } => {
                            &&& post == Machine { phase: Phase::AwaitFetch, ..pre }
                            &&& a == Action::Git(GitCmd::Fetch)
                        },
                        GitCommands::Switch {  } => match pre.target {
                            Some(t) => {
                                &&& post == Machine {
                                    phase: Phase::AwaitCheckout,
                                    target: None,
                                    ..pre
                                }
                                &&& a == Action::Git(GitCmd::Checkout { branch: t })
                            },
                            None => abort_rel(pre, post, a),
                        },
                        GitCommands::Delete {  } => abort_rel(pre, post, a),
                    }
                }
            },
            _ => abort_rel(pre, post, a),
        },
        Phase::AwaitAdd => match e {
            Event::Git(r) => {
                if cmd_ok(r) {
                    &&& post == Machine { phase: Phase::AwaitStash, ..pre }
                    &&& a == Action::Git(GitCmd::Stash)
                } else {
                    abort_rel(pre, post, a)
                }
            },
            _ => abort_rel(pre, post, a),
        },
        Phase::AwaitStash => match e {
            Event::Git(r) => {
                if cmd_ok(r) {
                    match pre.workflow {
                        GitCommands::Sync {  } => {
                            &&& post == Machine { phase: Phase::AwaitFetch, stashed: true, ..pre }
                            &&& a == Action::Git(GitCmd::Fetch)
                        },
                        GitCommands::Switch {  } => match pre.target {
                            Some(t) => {
                                &&& post == Machine {
                                    phase: Phase::AwaitCheckout,
                                    stashed: true,
                                    target: None,
                                    ..pre
                                }
                                &&& a == Action::Git(GitCmd::Checkout { branch: t })
                            },
                            None => guard_abort(pre, post, a),
                        },
                        GitCommands::Delete {  } => guard_abort(pre, post, a),
                    }
                } else {
                    abort_rel(pre, post, a)
                }
            },
            _ => abort_rel(pre, post, a),
        },
        Phase::AwaitFetch => match e {
            Event::Git(r) => {
                if cmd_ok(r) {
                    &&& post == Machine { phase: Phase::AwaitPull, ..pre }
                    &&& a == Action::Git(GitCmd::PullRebase)
                } else {
                    abort_rel(pre, post, a)
                }
            },
            _ => abort_rel(pre, post, a),
        },
        Phase::AwaitPull => match e {
            Event::Git(r) => {
                if cmd_ok(r) {
                    if pre.stashed {
                        &&& post == Machine { phase: Phase::AwaitPop, ..pre }
                        &&& a == Action::Git(GitCmd::StashPop)
                    } else {
                        &&& post == Machine { phase: Phase::AwaitLog, ..pre }
                        &&& a == Action::Git(GitCmd::LogLatest)
                    }
                } else {
                    abort_rel(pre, post, a)
                }
            },
            _ => abort_rel(pre, post, a),
        },
        Phase::AwaitCheckout => match e {
            Event::Git(r) => {
                if cmd_ok(r) {
                    if pre.stashed {
                        &&& post == Machine { phase: Phase::AwaitPop, ..pre }
                        &&& a == Action::Git(GitCmd::StashPop)
                    } else {
                        halt(Outcome::Success, pre, post, a)
                    }
                } else {
                    abort_rel(pre, post, a)
                }
            },
            _ => abort_rel(pre, post, a),
        },
        // The restore sequence presses on whatever each of its own steps
        // reports; a failure is recorded and reported at the end.
        Phase::AwaitPop => {
            &&& post == Machine { phase: Phase::AwaitClear, failed: pre.failed || !event_ok(e), ..pre }
            &&& a == Action::Git(GitCmd::StashClear)
        },
        Phase::AwaitClear => {
            &&& post == Machine { phase: Phase::AwaitReset, failed: pre.failed || !event_ok(e), ..pre }
            &&& a == Action::Git(GitCmd::Reset)
        },
        Phase::AwaitReset => {
            let bad = pre.failed || !event_ok(e);
            if bad {
                &&& post == Machine { phase: Phase::Finished, stashed: false, failed: true, ..pre }
                &&& a == Action::Done(Outcome::Failed)
            } else {
                match pre.workflow {
                    GitCommands::Sync {  } => {
                        &&& post == Machine { phase: Phase::AwaitLog, stashed: false, ..pre }
                        &&& a == Action::Git(GitCmd::LogLatest)
                    },
                    GitCommands::Switch {  } => {
                        &&& post == Machine { phase: Phase::Finished, stashed: false, ..pre }
                        &&& a == Action::Done(Outcome::Success)
                    },
                    GitCommands::Delete {  } => {
                        &&& post == Machine { phase: Phase::Finished, stashed: false, ..pre }
                        &&& a == Action::Done(Outcome::Failed)
                    },
                }
            }
        },
        Phase::AwaitLog => match e {
            Event::Git(r) => {
                if cmd_ok(r) {
                    &&& post == Machine { phase: Phase::Finished, ..pre }
                    &&& (a matches Action::Done(Outcome::Synced { latest }) && latest@ == trimmed(
                        r.stdout@,
                    ))
                } else {
                    halt(Outcome::Failed, pre, post, a)
                }
            },
            _ => abort_rel(pre, post, a),
        },
        Phase::AwaitList => match e {
            Event::Git(r) => {
                if cmd_ok(r) {
                    if others_of(r.stdout@).len() == 0 {
                        &&& post == Machine { phase: Phase::Finished, ..pre }
                        &&& (a matches Action::Done(Outcome::NoOtherBranches { current })
                            && current@ == current_of(r.stdout@))
                    } else {
                        &&& post == Machine { phase: Phase::AwaitSelect, ..pre }
                        &&& (a matches Action::PromptSelect { current, options } && current@
                            == current_of(r.stdout@) && options@.len() == others_of(
                            r.stdout@,
                        ).len() && (forall|i: int|
                            0 <= i < options@.len() ==> options@[i]@ == others_of(r.stdout@)[i]))
                    }
                } else {
                    abort_rel(pre, post, a)
                }
            },
            _ => abort_rel(pre, post, a),
        },
        Phase::AwaitSelect => match e {
            Event::Selected { branch } => match pre.workflow {
                GitCommands::Switch {  } => {
                    &&& post == Machine { phase: Phase::AwaitStatus, target: Some(branch), ..pre }
                    &&& a == Action::Git(GitCmd::Status)
                },
                GitCommands::Delete {  } => {
                    &&& post == Machine { phase: Phase::AwaitConfirm, target: Some(branch), ..pre }
                    &&& a == Action::ConfirmDelete
                },
                GitCommands::Sync {  } => abort_rel(pre, post, a),
            },
            Event::PromptCancelled => halt(Outcome::Cancelled, pre, post, a),
            Event::PromptFailed => halt(Outcome::PromptError, pre, post, a),
            _ => abort_rel(pre, post, a),
        },
        Phase::AwaitConfirm => match e {
            Event::Confirmed { yes } => {
                if yes {
                    match pre.target {
                        Some(t) => {
                            &&& post == Machine { phase: Phase::AwaitDelete, target: None, ..pre }
                            &&& a == Action::Git(GitCmd::DeleteBranch { branch: t })
                        },
                        None => abort_rel(pre, post, a),
                    }
                } else {
                    halt(Outcome::Cancelled, pre, post, a)
                }
            },
            Event::PromptCancelled => halt(Outcome::Cancelled, pre, post, a),
            Event::PromptFailed => halt(Outcome::PromptError, pre, post, a),
            _ => abort_rel(pre, post, a),
        },
        Phase::AwaitDelete => match e {
            Event::Git(r) => {
                if cmd_ok(r) {
                    halt(Outcome::Success, pre, post, a)
                } else {
                    abort_rel(pre, post, a)
                }
            },
            _ => abort_rel(pre, post, a),
        },
        Phase::Finished => halt(Outcome::Failed, pre, post, a),
    }
}

/// A fresh machine for the given workflow, with the first action to
/// perform: a repository check for sync, the branch listing otherwise.
pub fn init(workflow: GitCommands) -> (r: (Machine, Action))
    ensures
        r.0 == init_machine(workflow),
        r.1 == initial_action(workflow),
{
    match workflow {
        GitCommands::Sync {  } => (
            Machine {
                workflow,
                phase: Phase::AwaitRepoCheck,
                stashed: false,
                failed: false,
                target: None,
            },
            Action::Git(GitCmd::CheckRepo),
        ),
        GitCommands::Switch {  } | GitCommands::Delete {  } => (
            Machine {
                workflow,
                phase: Phase::AwaitList,
                stashed: false,
                failed: false,
                target: None,
            },
            Action::Git(GitCmd::ListBranches),
        ),
    }
}

fn abort(m: Machine) -> (r: (Machine, Action))
    ensures
        abort_rel(m, r.0, r.1),
{
    if m.stashed {
        (Machine { phase: Phase::AwaitPop, failed: true, ..m }, Action::Git(GitCmd::StashPop))
    } else {
        (Machine { phase: Phase::Finished, ..m }, Action::Done(Outcome::Failed))
    }
}

fn check_event(e: &Event) -> (r: bool)
    ensures
        r == event_ok(*e),
{
    match e {
        Event::Git(res) => res.launched && res.exit_ok,
        _ => false,
    }
}

/// One decision of a workflow: from the machine and the report on the
/// last action to the next machine and action. Every pair is handled;
/// an event that does not belong to the phase counts as a failure of
/// that step, so that a stashed run still restores before it ends.
pub fn step(m: Machine, e: Event) -> (r: (Machine, Action))
    ensures
        step_rel(m, e, r.0, r.1),
{
    match m.phase {
        Phase::AwaitRepoCheck => match e {
            Event::Git(res) => {
                if !res.launched {
                    abort(m)
                } else if !res.exit_ok {
                    (Machine { phase: Phase::Finished, ..m }, Action::Done(Outcome::NotARepo))
                } else {
                    (
                        Machine { phase: Phase::AwaitUpstreamCheck, ..m },
                        Action::Git(GitCmd::CheckUpstream),
                    )
                }
            },
            _ => abort(m),
        },
        Phase::AwaitUpstreamCheck => match e {
            Event::Git(res) => {
                if !res.launched {
                    abort(m)
                } else if !res.exit_ok {
                    (Machine { phase: Phase::Finished, ..m }, Action::Done(Outcome::NoUpstream))
                } else {
                    (Machine { phase: Phase::AwaitStatus, ..m }, Action::Git(GitCmd::Status))
                }
            },
            _ => abort(m),
        },
        Phase::AwaitStatus => match e {
            Event::Git(res) => {
                if !(res.launched && res.exit_ok) {
                    abort(m)
                } else if res.stdout.len() > 0 {
                    (Machine { phase: Phase::AwaitAdd, ..m }, Action::Git(GitCmd::AddAll))
                } else {
                    match m.workflow {
                        GitCommands::Sync {  } => (
                            Machine { phase: Phase::AwaitFetch, ..m },
                            Action::Git(GitCmd::Fetch),
                        ),
                        GitCommands::Switch {  } => match m.target {
                            Some(t) => (
                                Machine {
                                    workflow: m.workflow,
                                    phase: Phase::AwaitCheckout,
                                    stashed: m.stashed,
                                    failed: m.failed,
                                    target: None,
                                },
                                Action::Git(GitCmd::Checkout { branch: t }),
                            ),
                            None => abort(
                                Machine {
                                    workflow: m.workflow,
                                    phase: m.phase,
                                    stashed: m.stashed,
                                    failed: m.failed,
                                    target: None,
                                },
                            ),
                        },
                        GitCommands::Delete {  } => abort(m),
                    }
                }
            },
            _ => abort(m),
        },
        Phase::AwaitAdd => match e {
            Event::Git(res) => {
                if res.launched && res.exit_ok {
                    (Machine { phase: Phase::AwaitStash, ..m }, Action::Git(GitCmd::Stash))
                } else {
                    abort(m)
                }
            },
            _ => abort(m),
        },
        Phase::AwaitStash => match e {
            Event::Git(res) => {
                if res.launched && res.exit_ok {
                    match m.workflow {
                        GitCommands::Sync {  } => (
                            Machine { phase: Phase::AwaitFetch, stashed: true, ..m },
                            Action::Git(GitCmd::Fetch),
                        ),
                        GitCommands::Switch {  } => match m.target {
                            Some(t) => (
                                Machine {
                                    workflow: m.workflow,
                                    phase: Phase::AwaitCheckout,
                                    stashed: true,
                                    failed: m.failed,
                                    target: None,
                                },
                                Action::Git(GitCmd::Checkout { branch: t }),
                            ),
                            None => (
                                Machine {
                                    workflow: m.workflow,
                                    phase: Phase::AwaitPop,
                                    stashed: true,
                                    failed: true,
                                    target: None,
                                },
                                Action::Git(GitCmd::StashPop),
                            ),
                        },
                        GitCommands::Delete {  } => (
                            Machine { phase: Phase::AwaitPop, stashed: true, failed: true, ..m },
                            Action::Git(GitCmd::StashPop),
                        ),
                    }
                } else {
                    abort(m)
                }
            },
            _ => abort(m),
        },
        Phase::AwaitFetch => match e {
            Event::Git(res) => {
                if res.launched && res.exit_ok {
                    (Machine { phase: Phase::AwaitPull, ..m }, Action::Git(GitCmd::PullRebase))
                } else {
                    abort(m)
                }
            },
            _ => abort(m),
        },
        Phase::AwaitPull => match e {
            Event::Git(res) => {
                if res.launched && res.exit_ok {
                    if m.stashed {
                        (Machine { phase: Phase::AwaitPop, ..m }, Action::Git(GitCmd::StashPop))
                    } else {
                        (Machine { phase: Phase::AwaitLog, ..m }, Action::Git(GitCmd::LogLatest))
                    }
                } else {
                    abort(m)
                }
            },
            _ => abort(m),
        },
        Phase::AwaitCheckout => match e {
            Event::Git(res) => {
                if res.launched && res.exit_ok {
                    if m.stashed {
                        (Machine { phase: Phase::AwaitPop, ..m }, Action::Git(GitCmd::StashPop))
                    } else {
                        (Machine { phase: Phase::Finished, ..m }, Action::Done(Outcome::Success))
                    }
                } else {
                    abort(m)
                }
            },
            _ => abort(m),
        },
        Phase::AwaitPop => {
            let ok = check_event(&e);
            (
                Machine { phase: Phase::AwaitClear, failed: m.failed || !ok, ..m },
                Action::Git(GitCmd::StashClear),
            )
        },
        Phase::AwaitClear => {
            let ok = check_event(&e);
            (
                Machine { phase: Phase::AwaitReset, failed: m.failed || !ok, ..m },
                Action::Git(GitCmd::Reset),
            )
        },
        Phase::AwaitReset => {
            let ok = check_event(&e);
            if m.failed || !ok {
                (
                    Machine { phase: Phase::Finished, stashed: false, failed: true, ..m },
                    Action::Done(Outcome::Failed),
                )
            } else {
                match m.workflow {
                    GitCommands::Sync {  } => (
                        Machine { phase: Phase::AwaitLog, stashed: false, ..m },
                        Action::Git(GitCmd::LogLatest),
                    ),
                    GitCommands::Switch {  } => (
                        Machine { phase: Phase::Finished, stashed: false, ..m },
                        Action::Done(Outcome::Success),
                    ),
                    GitCommands::Delete {  } => (
                        Machine { phase: Phase::Finished, stashed: false, ..m },
                        Action::Done(Outcome::Failed),
                    ),
                }
            }
        },
        Phase::AwaitLog => match e {
            Event::Git(res) => {
                if res.launched && res.exit_ok {
                    let latest = trim_bytes(&res.stdout);
                    (
                        Machine { phase: Phase::Finished, ..m },
                        Action::Done(Outcome::Synced { latest }),
                    )
                } else {
                    (Machine { phase: Phase::Finished, ..m }, Action::Done(Outcome::Failed))
                }
            },
            _ => abort(m),
        },
        Phase::AwaitList => match e {
            Event::Git(res) => {
                if res.launched && res.exit_ok {
                    let info = parse_branch_listing(&res.stdout);
                    if info.others.len() == 0 {
                        (
                            Machine { phase: Phase::Finished, ..m },
                            Action::Done(Outcome::NoOtherBranches { current: info.current }),
                        )
                    } else {
                        (
                            Machine { phase: Phase::AwaitSelect, ..m },
                            Action::PromptSelect { current: info.current, options: info.others },
                        )
                    }
                } else {
                    abort(m)
                }
            },
            _ => abort(m),
        },
        Phase::AwaitSelect => match e {
            Event::Selected { branch } => match m.workflow {
                GitCommands::Switch {  } => (
                    Machine {
                        workflow: m.workflow,
                        phase: Phase::AwaitStatus,
                        stashed: m.stashed,
                        failed: m.failed,
                        target: Some(branch),
                    },
                    Action::Git(GitCmd::Status),
                ),
                GitCommands::Delete {  } => (
                    Machine {
                        workflow: m.workflow,
                        phase: Phase::AwaitConfirm,
                        stashed: m.stashed,
                        failed: m.failed,
                        target: Some(branch),
                    },
                    Action::ConfirmDelete,
                ),
                GitCommands::Sync {  } => abort(m),
            },
            Event::PromptCancelled => (
                Machine { phase: Phase::Finished, ..m },
                Action::Done(Outcome::Cancelled),
            ),
            Event::PromptFailed => (
                Machine { phase: Phase::Finished, ..m },
                Action::Done(Outcome::PromptError),
            ),
            _ => abort(m),
        },
        Phase::AwaitConfirm => match e {
            Event::Confirmed { yes } => {
                if yes {
                    match m.target {
                        Some(t) => (
                            Machine {
                                workflow: m.workflow,
                                phase: Phase::AwaitDelete,
                                stashed: m.stashed,
                                failed: m.failed,
                                target: None,
                            },
                            Action::Git(GitCmd::DeleteBranch { branch: t }),
                        ),
                        None => abort(
                            Machine {
                                workflow: m.workflow,
                                phase: m.phase,
                                stashed: m.stashed,
                                failed: m.failed,
                                target: None,
                            },
                        ),
                    }
                } else {
                    (Machine { phase: Phase::Finished, ..m }, Action::Done(Outcome::Cancelled))
                }
            },
            Event::PromptCancelled => (
                Machine { phase: Phase::Finished, ..m },
                Action::Done(Outcome::Cancelled),
            ),
            Event::PromptFailed => (
                Machine { phase: Phase::Finished, ..m },
                Action::Done(Outcome::PromptError),
            ),
            _ => abort(m),
        },
        Phase::AwaitDelete => match e {
            Event::Git(res) => {
                if res.launched && res.exit_ok {
                    (Machine { phase: Phase::Finished, ..m }, Action::Done(Outcome::Success))
                } else {
                    abort(m)
                }
            },
            _ => abort(m),
        },
        Phase::Finished => (
            Machine { phase: Phase::Finished, ..m },
            Action::Done(Outcome::Failed),
        ),
    }
}

/// The argument views of each command, in the order they are handed to
/// the binary; `Checkout` and `DeleteBranch` append their branch name
/// after these.
pub open spec fn args_spec(c: GitCmd) -> Seq<Seq<char>> {
    match c {
        GitCmd::CheckRepo => seq!["rev-parse"@, "--git-dir"@],
        GitCmd::CheckUpstream => seq![
            "rev-parse"@,
            "--abbrev-ref"@,
            "--symbolic-full-name"@,
            "@{u}"@,
        ],
        GitCmd::Status => seq!["status"@, "--porcelain"@],
        GitCmd::AddAll => seq!["add"@, "."@],
        GitCmd::Stash => seq!["stash"@],
        GitCmd::Fetch => seq!["fetch"@, "-p"@],
        GitCmd::PullRebase => seq!["pull"@, "--rebase"@],
        GitCmd::StashPop => seq!["stash"@, "pop"@],
        GitCmd::StashClear => seq!["stash"@, "clear"@],
        GitCmd::Reset => seq!["reset"@],
        GitCmd::LogLatest => seq!["log"@, "-1"@, "--oneline"@],
        GitCmd::ListBranches => seq!["--no-pager"@, "branch"@, "--no-color"@],
        GitCmd::Checkout { .. } => seq!["checkout"@],
        GitCmd::DeleteBranch { .. } => seq!["branch"@, "-D"@],
    }
}

/// These commands have their output captured for the machine; the
/// others stream to the terminal so the user sees live progress.
pub open spec fn captures_spec(c: GitCmd) -> bool {
    match c {
        GitCmd::CheckRepo => true,
        GitCmd::CheckUpstream => true,
        GitCmd::Status => true,
        GitCmd::LogLatest => true,
        GitCmd::ListBranches => true,
        _ => false,
    }
}

/// The fixed arguments of a command; the caller appends the branch name
/// of `Checkout` and `DeleteBranch`.
pub fn fixed_args(cmd: &GitCmd) -> (r: Vec<&'static str>)
    ensures
        r@.len() == args_spec(*cmd).len(),
        forall|i: int| 0 <= i < r@.len() ==> r@[i]@ == args_spec(*cmd)[i],
{
    match cmd {
        GitCmd::CheckRepo => vec!["rev-parse", "--git-dir"],
        GitCmd::CheckUpstream => vec![
            "rev-parse",
            "--abbrev-ref",
            "--symbolic-full-name",
            "@{u}",
        ],
        GitCmd::Status => vec!["status", "--porcelain"],
        GitCmd::AddAll => vec!["add", "."],
        GitCmd::Stash => vec!["stash"],
        GitCmd::Fetch => vec!["fetch", "-p"],
        GitCmd::PullRebase => vec!["pull", "--rebase"],
        GitCmd::StashPop => vec!["stash", "pop"],
        GitCmd::StashClear => vec!["stash", "clear"],
        GitCmd::Reset => vec!["reset"],
        GitCmd::LogLatest => vec!["log", "-1", "--oneline"],
        GitCmd::ListBranches => vec!["--no-pager", "branch", "--no-color"],
        GitCmd::Checkout { .. } => vec!["checkout"],
        GitCmd::DeleteBranch { .. } => vec!["branch", "-D"],
    }
}

/// The context each command's failure is reported with.
pub open spec fn error_text(c: GitCmd) -> Seq<char> {
    match c {
        GitCmd::CheckRepo => "failed to execute git command"@,
        GitCmd::CheckUpstream => "failed to get upstream branch"@,
        GitCmd::Status => "failed to get git status"@,
        GitCmd::AddAll => "failed to stage local changes"@,
        GitCmd::Stash => "failed to stash local changes"@,
        GitCmd::Fetch => "failed to fetch remote changes"@,
        GitCmd::PullRebase => "failed to pull remote changes"@,
        GitCmd::StashPop => "failed to restore local changes"@,
        GitCmd::StashClear => "failed to clear stash"@,
        GitCmd::Reset => "failed to unstage local changes"@,
        GitCmd::LogLatest => "failed to get latest commit"@,
        GitCmd::ListBranches => "failed to get branch list"@,
        GitCmd::Checkout { .. } => "failed to switch branch"@,
        GitCmd::DeleteBranch { .. } => "failed to delete branch"@,
    }
}

/// The context a failure of this command is reported with.
pub fn error_context(cmd: &GitCmd) -> (r: &'static str)
    ensures
        r@ == error_text(*cmd),
{
    match cmd {
        GitCmd::CheckRepo => "failed to execute git command",
        GitCmd::CheckUpstream => "failed to get upstream branch",
        GitCmd::Status => "failed to get git status",
        GitCmd::AddAll => "failed to stage local changes",
        GitCmd::Stash => "failed to stash local changes",
        GitCmd::Fetch => "failed to fetch remote changes",
        GitCmd::PullRebase => "failed to pull remote changes",
        GitCmd::StashPop => "failed to restore local changes",
        GitCmd::StashClear => "failed to clear stash",
        GitCmd::Reset => "failed to unstage local changes",
        GitCmd::LogLatest => "failed to get latest commit",
        GitCmd::ListBranches => "failed to get branch list",
        GitCmd::Checkout { .. } => "failed to switch branch",
        GitCmd::DeleteBranch { .. } => "failed to delete branch",
    }
}

/// Whether a command's output is captured rather than streamed.
pub fn captures(cmd: &GitCmd) -> (r: bool)
    ensures
        r == captures_spec(*cmd),
{
    match cmd {
        GitCmd::CheckRepo => true,
        GitCmd::CheckUpstream => true,
        GitCmd::Status => true,
        GitCmd::LogLatest => true,
        GitCmd::ListBranches => true,
        _ => false,
    }
}

} // verus!
