//! The guarantees of the workflow machine, stated over its transition
//! relation and proved for every state and event.

use vstd::prelude::*;

use crate::GitCommands;
use crate::branches::current_of;
use crate::branches::others_of;
use crate::branches::trimmed;
use crate::machine::Action;
use crate::machine::CmdResult;
use crate::machine::Event;
use crate::machine::GitCmd;
use crate::machine::Machine;
use crate::machine::Outcome;
use crate::machine::Phase;
use crate::machine::cmd_ok;
use crate::machine::in_guard;
use crate::machine::init_machine;
use crate::machine::initial_action;
use crate::machine::mutating_action;
use crate::machine::step_rel;

verus! {

/// The phases a workflow can be in.
pub open spec fn phase_fits(w: GitCommands, p: Phase) -> bool {
    match w {
        GitCommands::Sync {  } => !(p is AwaitList || p is AwaitSelect || p is AwaitConfirm
            || p is AwaitDelete || p is AwaitCheckout),
        GitCommands::Switch {  } => !(p is AwaitRepoCheck || p is AwaitUpstreamCheck
            || p is AwaitFetch || p is AwaitPull || p is AwaitLog || p is AwaitConfirm
            || p is AwaitDelete),
        GitCommands::Delete {  } => p is AwaitList || p is AwaitSelect || p is AwaitConfirm
            || p is AwaitDelete || p is Finished,
    }
}

/// Every state a workflow can reach satisfies this. A stash is held only
/// between the stash command and the end of its restoration; the restore
/// phases always hold one; the branch to act on is present wherever the
/// machine will spend it.
pub open spec fn wf(m: Machine) -> bool {
    &&& phase_fits(m.workflow, m.phase)
    &&& (m.stashed ==> in_guard(m.phase))
    &&& ((m.phase is AwaitPop || m.phase is AwaitClear || m.phase is AwaitReset) ==> m.stashed)
    &&& (m.phase is AwaitConfirm ==> m.target is Some)
    &&& ((m.workflow is Switch && (m.phase is AwaitStatus || m.phase is AwaitAdd
        || m.phase is AwaitStash)) ==> m.target is Some)
}

/// A fresh machine is well-formed and its first action only reads.
pub proof fn lemma_init_wf(w: GitCommands)
    ensures
        wf(init_machine(w)),
        !mutating_action(initial_action(w)),
{
}

/// Every step preserves well-formedness.
pub proof fn lemma_step_preserves_wf(m: Machine, e: Event, m2: Machine, a: Action)
    requires
        wf(m),
        step_rel(m, e, m2, a),
    ensures
        wf(m2),
{
}

/// The stash guard: a run that holds a stash cannot end on this step
/// unless this step consumes the result of the final reset. While the
/// stash is held the machine keeps issuing commands; the restore
/// sequence runs pop, then clear, then reset, in that order, whatever
/// each step reports; and the stash is given up only once the whole
/// sequence has been issued. Whether the restored tree is byte-identical
/// to the one stashed is the external tool's contract, not restated
/// here.
pub proof fn lemma_guard_restores(m: Machine, e: Event, m2: Machine, a: Action)
    requires
        wf(m),
        step_rel(m, e, m2, a),
        m.stashed,
    ensures
        !(m.phase is AwaitReset) ==> !(a is Done) && m2.stashed && in_guard(m2.phase),
        m.phase is AwaitPop ==> a == Action::Git(GitCmd::StashClear) && m2.phase is AwaitClear,
        m.phase is AwaitClear ==> a == Action::Git(GitCmd::Reset) && m2.phase is AwaitReset,
        m.phase is AwaitReset ==> !m2.stashed,
        (m2.phase is AwaitPop && m2.stashed) ==> a == Action::Git(GitCmd::StashPop),
{
    lemma_step_preserves_wf(m, e, m2, a);
}

/// Without a stash on hand, no stash restoration command is ever issued,
/// a stash is asked for only right after staging succeeded, and staging
/// only where the status query found changes.
pub proof fn lemma_no_stash_activity(m: Machine, e: Event, m2: Machine, a: Action)
    requires
        wf(m),
        step_rel(m, e, m2, a),
        !m.stashed,
    ensures
        a != Action::Git(GitCmd::StashPop),
        a != Action::Git(GitCmd::StashClear),
        a != Action::Git(GitCmd::Reset),
        a == Action::Git(GitCmd::Stash) ==> m.phase is AwaitAdd,
        a == Action::Git(GitCmd::AddAll) ==> m.phase is AwaitStatus,
{
}

/// A clean status during sync skips the stash entirely: the machine goes
/// straight to fetching, still holding no stash. With the previous law,
/// a sync over a clean tree never touches the stash, so two such runs
/// given the same answers behave alike.
pub proof fn lemma_sync_clean_status_no_stash(m: Machine, r: CmdResult, m2: Machine, a: Action)
    requires
        wf(m),
        m.workflow is Sync,
        m.phase is AwaitStatus,
        !m.stashed,
        step_rel(m, Event::Git(r), m2, a),
        cmd_ok(r),
        r.stdout@.len() == 0,
    ensures
        a == Action::Git(GitCmd::Fetch),
        m2.phase is AwaitFetch,
        !m2.stashed,
{
}

/// The sync report is exactly the trimmed output of the log query.
pub proof fn lemma_sync_report(m: Machine, r: CmdResult, m2: Machine, a: Action)
    requires
        m.phase is AwaitLog,
        step_rel(m, Event::Git(r), m2, a),
        cmd_ok(r),
    ensures
        a matches Action::Done(Outcome::Synced { latest }) && latest@ == trimmed(r.stdout@),
        m2.phase is Finished,
{
}

/// Two sync runs whose repositories answer the log query alike report
/// the same latest commit: with nothing new upstream, running sync twice
/// reports the same line both times.
pub proof fn lemma_sync_report_deterministic(
    m1: Machine,
    r1: CmdResult,
    n1: Machine,
    a1: Action,
    m2: Machine,
    r2: CmdResult,
    n2: Machine,
    a2: Action,
)
    requires
        m1.phase is AwaitLog,
        m2.phase is AwaitLog,
        step_rel(m1, Event::Git(r1), n1, a1),
        step_rel(m2, Event::Git(r2), n2, a2),
        cmd_ok(r1),
        cmd_ok(r2),
        r1.stdout@ == r2.stdout@,
    ensures
        a1 matches Action::Done(Outcome::Synced { latest: l1 }) && (a2 matches Action::Done(
            Outcome::Synced { latest: l2 },
        ) && l1@ == l2@),
{
}

/// A listing with no branch besides the current one ends switch and
/// delete at once, reporting that branch, with nothing mutated.
pub proof fn lemma_nothing_to_do(m: Machine, r: CmdResult, m2: Machine, a: Action)
    requires
        wf(m),
        m.phase is AwaitList,
        step_rel(m, Event::Git(r), m2, a),
        cmd_ok(r),
        others_of(r.stdout@).len() == 0,
    ensures
        a matches Action::Done(Outcome::NoOtherBranches { current }) && current@ == current_of(
            r.stdout@,
        ),
        m2.phase is Finished,
        !mutating_action(a),
{
}

/// Cancelling the selection prompt in switch or delete ends the run at
/// once; up to that point only the branch listing was asked for, so the
/// repository is left exactly as it was found.
pub proof fn lemma_cancel_leaves_repo_unchanged(
    w: GitCommands,
    r: CmdResult,
    m1: Machine,
    a1: Action,
    e: Event,
    m2: Machine,
    a2: Action,
)
    requires
        w is Switch || w is Delete,
        step_rel(init_machine(w), Event::Git(r), m1, a1),
        cmd_ok(r),
        others_of(r.stdout@).len() > 0,
        step_rel(m1, e, m2, a2),
        e is PromptCancelled || e is PromptFailed,
    ensures
        !mutating_action(initial_action(w)),
        !mutating_action(a1),
        !mutating_action(a2),
        e is PromptCancelled ==> a2 == Action::Done(Outcome::Cancelled),
        e is PromptFailed ==> a2 == Action::Done(Outcome::PromptError),
        m2.phase is Finished,
{
}

/// Delete mutates nothing without an explicit yes: every answer at the
/// confirmation other than an affirmative one ends the run without any
/// command being issued.
pub proof fn lemma_delete_needs_yes(m: Machine, e: Event, m2: Machine, a: Action)
    requires
        wf(m),
        m.phase is AwaitConfirm,
        step_rel(m, e, m2, a),
        !(e matches Event::Confirmed { yes: true }),
    ensures
        !(a is Git),
        !mutating_action(a),
        m2.phase is Finished,
{
}

/// The machine is on no stash path: none is held, and none is about to
/// be taken.
pub open spec fn off_stash_path(m: Machine) -> bool {
    &&& !m.stashed
    &&& !(m.phase is AwaitAdd)
    &&& !(m.phase is AwaitStash)
}

/// Off the stash path, a step whose status answer (if this is one)
/// reports a clean tree stays off it and asks for no staging or stash
/// command of any kind.
pub proof fn lemma_clean_step_off_stash_path(m: Machine, e: Event, m2: Machine, a: Action)
    requires
        wf(m),
        step_rel(m, e, m2, a),
        off_stash_path(m),
        m.phase is AwaitStatus ==> match e {
            Event::Git(r) => r.stdout@.len() == 0,
            _ => true,
        },
    ensures
        off_stash_path(m2),
        a != Action::Git(GitCmd::AddAll),
        a != Action::Git(GitCmd::Stash),
        a != Action::Git(GitCmd::StashPop),
        a != Action::Git(GitCmd::StashClear),
        a != Action::Git(GitCmd::Reset),
{
}

/// A run of the machine: for each step, the event fed in, the machine
/// after it, and the action it asked for.
pub open spec fn is_trace(m0: Machine, steps: Seq<(Event, Machine, Action)>) -> bool
    decreases steps.len(),
{
    if steps.len() == 0 {
        true
    } else {
        &&& step_rel(m0, steps[0].0, steps[0].1, steps[0].2)
        &&& is_trace(steps[0].1, steps.drop_first())
    }
}

/// Each step of a trace is a transition from the machine before it, and
/// what follows it is a trace of the machine after it.
pub proof fn lemma_trace_index(m0: Machine, steps: Seq<(Event, Machine, Action)>, n: int)
    requires
        is_trace(m0, steps),
        0 <= n < steps.len(),
    ensures
        step_rel(
            if n == 0 {
                m0
            } else {
                steps[n - 1].1
            },
            steps[n].0,
            steps[n].1,
            steps[n].2,
        ),
        is_trace(steps[n].1, steps.subrange(n + 1, steps.len() as int)),
    decreases n,
{
    assert(steps.drop_first() =~= steps.subrange(1, steps.len() as int));
    if n == 0 {
    } else {
        lemma_trace_index(steps[0].1, steps.drop_first(), n - 1);
        assert(steps.drop_first().subrange(n, steps.len() as int - 1) =~= steps.subrange(
            n + 1,
            steps.len() as int,
        ));
    }
}

/// Well-formedness holds at every point of a trace.
pub proof fn lemma_trace_wf(m0: Machine, steps: Seq<(Event, Machine, Action)>, n: int)
    requires
        wf(m0),
        is_trace(m0, steps),
        0 <= n < steps.len(),
    ensures
        wf(steps[n].1),
    decreases n,
{
    if n == 0 {
        lemma_step_preserves_wf(m0, steps[0].0, steps[0].1, steps[0].2);
    } else {
        lemma_step_preserves_wf(m0, steps[0].0, steps[0].1, steps[0].2);
        lemma_trace_wf(steps[0].1, steps.drop_first(), n - 1);
    }
}

/// The machine a step starts from: the initial one for the first step,
/// else the one the previous step left.
pub open spec fn pre_state(m0: Machine, steps: Seq<(Event, Machine, Action)>, n: int) -> Machine {
    if n == 0 {
        m0
    } else {
        steps[n - 1].1
    }
}

/// If step `j` answers a status query, it reports a clean tree.
pub open spec fn status_answered_clean(
    m0: Machine,
    steps: Seq<(Event, Machine, Action)>,
    j: int,
) -> bool {
    pre_state(m0, steps, j).phase is AwaitStatus ==> match steps[j].0 {
        Event::Git(r) => r.stdout@.len() == 0,
        _ => true,
    }
}

/// A run over a clean tree never touches the stash: when every status
/// query of a run reports no output, no staging or stash command of any
/// kind is issued at any step. In particular, syncing twice with nothing
/// new upstream causes no stash activity in either run.
pub proof fn lemma_clean_run_no_stash_activity(
    w: GitCommands,
    steps: Seq<(Event, Machine, Action)>,
    n: int,
)
    requires
        is_trace(init_machine(w), steps),
        forall|j: int|
            0 <= j < steps.len() ==> #[trigger] status_answered_clean(init_machine(w), steps, j),
        0 <= n < steps.len(),
    ensures
        off_stash_path(steps[n].1),
        steps[n].2 != Action::Git(GitCmd::AddAll),
        steps[n].2 != Action::Git(GitCmd::Stash),
        steps[n].2 != Action::Git(GitCmd::StashPop),
        steps[n].2 != Action::Git(GitCmd::StashClear),
        steps[n].2 != Action::Git(GitCmd::Reset),
    decreases n,
{
    let m0 = init_machine(w);
    lemma_init_wf(w);
    lemma_trace_index(m0, steps, n);
    assert(status_answered_clean(m0, steps, n));
    if n == 0 {
        lemma_clean_step_off_stash_path(m0, steps[0].0, steps[0].1, steps[0].2);
    } else {
        lemma_clean_run_no_stash_activity(w, steps, n - 1);
        lemma_trace_wf(m0, steps, n - 1);
        lemma_clean_step_off_stash_path(steps[n - 1].1, steps[n].0, steps[n].1, steps[n].2);
    }
}

/// The step that takes the stash leaves the machine either before its
/// guarded mutating command, or already aborting with the pop issued.
pub proof fn lemma_stash_taken(m: Machine, e: Event, m2: Machine, a: Action)
    requires
        wf(m),
        step_rel(m, e, m2, a),
        !m.stashed,
        m2.stashed,
    ensures
        m.phase is AwaitStash,
        (m2.phase is AwaitFetch || m2.phase is AwaitCheckout) || (m2.phase is AwaitPop && a
            == Action::Git(GitCmd::StashPop)),
        !(a is Done),
{
}

/// From a stashed state, a run that reaches a terminal action issues
/// whatever remains of the restore sequence, in order: the pop where it
/// is still ahead, then the clear, then the reset.
pub proof fn lemma_stashed_run_restores(m: Machine, steps: Seq<(Event, Machine, Action)>)
    requires
        wf(m),
        m.stashed,
        is_trace(m, steps),
        steps.len() > 0,
        steps.last().2 is Done,
    ensures
        (m.phase is AwaitFetch || m.phase is AwaitPull || m.phase is AwaitCheckout) ==> exists|
            i: int,
            j: int,
            k: int,
        |
            0 <= i < j < k < steps.len() && steps[i].2 == Action::Git(GitCmd::StashPop)
                && steps[j].2 == Action::Git(GitCmd::StashClear) && steps[k].2 == Action::Git(
                GitCmd::Reset,
            ),
        m.phase is AwaitPop ==> exists|j: int, k: int|
            0 <= j < k < steps.len() && steps[j].2 == Action::Git(GitCmd::StashClear) && steps[k].2
                == Action::Git(GitCmd::Reset),
        m.phase is AwaitClear ==> exists|k: int|
            0 <= k < steps.len() && steps[k].2 == Action::Git(GitCmd::Reset),
    decreases steps.len(),
{
    let e = steps[0].0;
    let m1 = steps[0].1;
    let a = steps[0].2;
    lemma_step_preserves_wf(m, e, m1, a);
    lemma_guard_restores(m, e, m1, a);
    let rest = steps.drop_first();
    if m.phase is AwaitClear {
        assert(steps[0].2 == Action::Git(GitCmd::Reset));
    } else if m.phase is AwaitReset {
    } else {
        // the step is not terminal, so the trace goes on
        assert(steps.len() > 1) by {
            if steps.len() == 1 {
                assert(steps.last() == steps[0]);
            }
        }
        assert(rest.last() == steps.last());
        lemma_stashed_run_restores(m1, rest);
        if m.phase is AwaitPop {
            assert(a == Action::Git(GitCmd::StashClear));
            let k0 = choose|k: int|
                0 <= k < rest.len() && rest[k].2 == Action::Git(GitCmd::Reset);
            assert(steps[k0 + 1].2 == Action::Git(GitCmd::Reset));
            assert(steps[0].2 == Action::Git(GitCmd::StashClear));
        } else {
            // the guarded commands: fetch, pull or checkout was answered
            if m1.phase is AwaitPop {
                assert(a == Action::Git(GitCmd::StashPop));
                let (j0, k0) = choose|j: int, k: int|
                    0 <= j < k < rest.len() && rest[j].2 == Action::Git(GitCmd::StashClear)
                        && rest[k].2 == Action::Git(GitCmd::Reset);
                assert(steps[0].2 == Action::Git(GitCmd::StashPop));
                assert(steps[j0 + 1].2 == Action::Git(GitCmd::StashClear));
                assert(steps[k0 + 1].2 == Action::Git(GitCmd::Reset));
            } else {
                assert(m1.phase is AwaitPull);
                let (i0, j0, k0) = choose|i: int, j: int, k: int|
                    0 <= i < j < k < rest.len() && rest[i].2 == Action::Git(GitCmd::StashPop)
                        && rest[j].2 == Action::Git(GitCmd::StashClear) && rest[k].2
                        == Action::Git(GitCmd::Reset);
                assert(steps[i0 + 1].2 == Action::Git(GitCmd::StashPop));
                assert(steps[j0 + 1].2 == Action::Git(GitCmd::StashClear));
                assert(steps[k0 + 1].2 == Action::Git(GitCmd::Reset));
            }
        }
    }
}

/// The change-guard law over whole runs: in any run from a fresh machine
/// that reaches a terminal action, from the moment the stash is taken
/// the restore sequence -- stash pop, then stash clear, then reset -- is
/// issued before the run ends, whatever the intervening steps report.
pub proof fn lemma_guard_restores_whole_run(
    w: GitCommands,
    steps: Seq<(Event, Machine, Action)>,
    n: int,
)
    requires
        is_trace(init_machine(w), steps),
        steps.len() > 0,
        steps.last().2 is Done,
        0 <= n < steps.len(),
        steps[n].1.stashed,
        n == 0 || !steps[n - 1].1.stashed,
    ensures
        exists|i: int, j: int, k: int|
            n <= i < j < k < steps.len() && steps[i].2 == Action::Git(GitCmd::StashPop)
                && steps[j].2 == Action::Git(GitCmd::StashClear) && steps[k].2 == Action::Git(
                GitCmd::Reset,
            ),
{
    let m0 = init_machine(w);
    lemma_init_wf(w);
    let prev = if n == 0 {
        m0
    } else {
        steps[n - 1].1
    };
    if n > 0 {
        lemma_trace_wf(m0, steps, n - 1);
    }
    lemma_trace_index(m0, steps, n);
    lemma_trace_wf(m0, steps, n);
    lemma_stash_taken(prev, steps[n].0, steps[n].1, steps[n].2);
    // the taking step is not the last, whose action is terminal
    assert(n < steps.len() - 1) by {
        if n == steps.len() - 1 {
            assert(steps.last() == steps[n]);
        }
    }
    let suffix = steps.subrange(n + 1, steps.len() as int);
    assert(suffix.last() == steps.last());
    lemma_stashed_run_restores(steps[n].1, suffix);
    if steps[n].1.phase is AwaitPop {
        // the same step already issued the pop
        let (j0, k0) = choose|j: int, k: int|
            0 <= j < k < suffix.len() && suffix[j].2 == Action::Git(GitCmd::StashClear)
                && suffix[k].2 == Action::Git(GitCmd::Reset);
        assert(steps[n].2 == Action::Git(GitCmd::StashPop));
        assert(steps[j0 + n + 1].2 == Action::Git(GitCmd::StashClear));
        assert(steps[k0 + n + 1].2 == Action::Git(GitCmd::Reset));
    } else {
        let (i0, j0, k0) = choose|i: int, j: int, k: int|
            0 <= i < j < k < suffix.len() && suffix[i].2 == Action::Git(GitCmd::StashPop)
                && suffix[j].2 == Action::Git(GitCmd::StashClear) && suffix[k].2 == Action::Git(
                GitCmd::Reset,
            );
        assert(steps[i0 + n + 1].2 == Action::Git(GitCmd::StashPop));
        assert(steps[j0 + n + 1].2 == Action::Git(GitCmd::StashClear));
        assert(steps[k0 + n + 1].2 == Action::Git(GitCmd::Reset));
    }
}

/// Delete from start to finish without an explicit yes: through the
/// listing, the selection and any non-affirmative answer at the
/// confirmation, not one mutating command is issued.
pub proof fn lemma_delete_without_yes_mutates_nothing(
    r: CmdResult,
    m1: Machine,
    a1: Action,
    branch: Vec<u8>,
    m2: Machine,
    a2: Action,
    e: Event,
    m3: Machine,
    a3: Action,
)
    requires
        step_rel(init_machine(GitCommands::Delete {  }), Event::Git(r), m1, a1),
        cmd_ok(r),
        others_of(r.stdout@).len() > 0,
        step_rel(m1, Event::Selected { branch }, m2, a2),
        step_rel(m2, e, m3, a3),
        !(e matches Event::Confirmed { yes: true }),
    ensures
        !mutating_action(initial_action(GitCommands::Delete {  })),
        !mutating_action(a1),
        !mutating_action(a2),
        !mutating_action(a3),
        m3.phase is Finished,
{
    let m0 = init_machine(GitCommands::Delete {  });
    lemma_init_wf(GitCommands::Delete {  });
    lemma_step_preserves_wf(m0, Event::Git(r), m1, a1);
    lemma_step_preserves_wf(m1, Event::Selected { branch }, m2, a2);
    lemma_delete_needs_yes(m2, e, m3, a3);
}

/// An explicit yes at the confirmation asks to delete exactly the branch
/// that was selected, and nothing else.
pub proof fn lemma_delete_on_yes(m: Machine, m2: Machine, a: Action)
    requires
        wf(m),
        m.phase is AwaitConfirm,
        step_rel(m, Event::Confirmed { yes: true }, m2, a),
    ensures
        m.target matches Some(t) && a == Action::Git(GitCmd::DeleteBranch { branch: t }),
        m2.phase is AwaitDelete,
{
}

} // verus!
