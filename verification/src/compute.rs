use vstd::prelude::*;

use crate::validation::InputError;

verus! {

/// The flags that drive recomputation.
#[derive(Clone, Copy, PartialEq, Eq, Debug, Structural)]
pub struct ComputeFlags {
    /// Recompute by itself after the inputs change.
    pub auto_compute: bool,
    /// The inputs changed since the last computation.
    pub recompute_pending: bool,
    /// The plot's view must be reset before it is drawn next.
    pub plot_needs_reset: bool,
}

/// A message for the user about a computation.
#[derive(Clone, Copy, PartialEq, Eq, Debug, Structural)]
pub enum Notice {
    /// An automatic computation was refused for this reason, and automatic
    /// computation was switched off.
    AutoComputeDisabled(InputError),
    /// A computation the user asked for was refused for this reason.
    InputRejected(InputError),
    /// The numeric core failed, and automatic computation was switched off.
    ComputeFailed,
}

/// The flags after a computation was refused: automatic computation is off
/// if it triggered the computation, and nothing is pending any more.
pub open spec fn rejected_flags(flags: ComputeFlags, triggered_by_auto: bool) -> ComputeFlags {
    ComputeFlags {
        auto_compute: flags.auto_compute && !triggered_by_auto,
        recompute_pending: false,
        plot_needs_reset: flags.plot_needs_reset,
    }
}

/// A computation was refused because of `error`: the new flags and the
/// message to show.
pub fn after_rejected_inputs(flags: ComputeFlags, triggered_by_auto: bool, error: InputError) -> (res: (
    ComputeFlags,
    Notice,
))
    ensures
        res.0 == rejected_flags(flags, triggered_by_auto),
        res.0.auto_compute ==> flags.auto_compute,
        !triggered_by_auto ==> res.0.auto_compute == flags.auto_compute,
        triggered_by_auto ==> !res.0.auto_compute,
        !res.0.recompute_pending,
        res.0.plot_needs_reset == flags.plot_needs_reset,
        triggered_by_auto ==> res.1 == Notice::AutoComputeDisabled(error),
        !triggered_by_auto ==> res.1 == Notice::InputRejected(error),
{
    if triggered_by_auto {
        (
            ComputeFlags {
                auto_compute: false,
                recompute_pending: false,
                plot_needs_reset: flags.plot_needs_reset,
            },
            Notice::AutoComputeDisabled(error),
        )
    } else {
        (
            ComputeFlags {
                auto_compute: flags.auto_compute,
                recompute_pending: false,
                plot_needs_reset: flags.plot_needs_reset,
            },
            Notice::InputRejected(error),
        )
    }
}

/// The flags after the numeric core ran: nothing is pending; a success
/// resets the plot's view, a failure switches automatic computation off.
pub open spec fn run_flags(flags: ComputeFlags, succeeded: bool) -> ComputeFlags {
    if succeeded {
        ComputeFlags {
            auto_compute: flags.auto_compute,
            recompute_pending: false,
            plot_needs_reset: true,
        }
    } else {
        ComputeFlags {
            auto_compute: false,
            recompute_pending: false,
            plot_needs_reset: flags.plot_needs_reset,
        }
    }
}

/// The numeric core ran, successfully or not: the new flags and the message
/// to show, if any.
pub fn after_run(flags: ComputeFlags, succeeded: bool) -> (res: (ComputeFlags, Option<Notice>))
    ensures
        res.0 == run_flags(flags, succeeded),
        res.0.auto_compute ==> flags.auto_compute,
        succeeded ==> res.0.auto_compute == flags.auto_compute,
        !res.0.recompute_pending,
        succeeded ==> res.1 is None,
        !succeeded ==> res.1 == Some(Notice::ComputeFailed),
{
    if succeeded {
        (
            ComputeFlags {
                auto_compute: flags.auto_compute,
                recompute_pending: false,
                plot_needs_reset: true,
            },
            None,
        )
    } else {
        (
            ComputeFlags {
                auto_compute: false,
                recompute_pending: false,
                plot_needs_reset: flags.plot_needs_reset,
            },
            Some(Notice::ComputeFailed),
        )
    }
}

/// The flags after the inputs were compared with those last seen: a change
/// makes a computation pending.
pub open spec fn observed_flags(flags: ComputeFlags, unchanged: bool) -> ComputeFlags {
    ComputeFlags { recompute_pending: flags.recompute_pending || !unchanged, ..flags }
}

/// The inputs were compared with those last seen.
pub fn after_input_check(flags: ComputeFlags, unchanged: bool) -> (f: ComputeFlags)
    ensures
        f == observed_flags(flags, unchanged),
        unchanged ==> f == flags,
        flags.recompute_pending ==> f.recompute_pending,
        !unchanged ==> f.recompute_pending,
        f.auto_compute == flags.auto_compute,
        f.plot_needs_reset == flags.plot_needs_reset,
{
    if unchanged {
        flags
    } else {
        ComputeFlags { recompute_pending: true, ..flags }
    }
}

/// What automatic computation does on a frame.
#[derive(Clone, Copy, PartialEq, Eq, Debug, Structural)]
pub enum AutoComputeAction {
    /// Nothing: automatic computation is off or nothing is pending.
    Idle,
    /// Wait for the delay after the last change to pass.
    Wait,
    /// The results already belong to these inputs: nothing is pending any more.
    MarkCurrent,
    /// Compute now.
    Compute,
}

/// The action of automatic computation, given whether the delay since the
/// last change has passed and whether the last computation used the current
/// inputs.
pub open spec fn auto_action(flags: ComputeFlags, delay_elapsed: bool, results_current: bool) -> AutoComputeAction {
    if !flags.auto_compute || !flags.recompute_pending {
        AutoComputeAction::Idle
    } else if !delay_elapsed {
        AutoComputeAction::Wait
    } else if results_current {
        AutoComputeAction::MarkCurrent
    } else {
        AutoComputeAction::Compute
    }
}

/// Decides what automatic computation does on a frame.
pub fn auto_compute_action(flags: ComputeFlags, delay_elapsed: bool, results_current: bool) -> (a:
    AutoComputeAction)
    ensures
        a == auto_action(flags, delay_elapsed, results_current),
{
    if !flags.auto_compute || !flags.recompute_pending {
        AutoComputeAction::Idle
    } else if !delay_elapsed {
        AutoComputeAction::Wait
    } else if results_current {
        AutoComputeAction::MarkCurrent
    } else {
        AutoComputeAction::Compute
    }
}

/// After any computation, refused or run, nothing is pending, so automatic
/// computation stays idle until the inputs change again; and a computation
/// it triggered that was refused or failed switches it off for good.
pub proof fn lemma_computation_settles(
    flags: ComputeFlags,
    triggered_by_auto: bool,
    succeeded: bool,
    delay_elapsed: bool,
    results_current: bool,
)
    ensures
        auto_action(rejected_flags(flags, triggered_by_auto), delay_elapsed, results_current)
            == AutoComputeAction::Idle,
        auto_action(run_flags(flags, succeeded), delay_elapsed, results_current)
            == AutoComputeAction::Idle,
        triggered_by_auto ==> !rejected_flags(flags, triggered_by_auto).auto_compute,
        !succeeded ==> !run_flags(flags, succeeded).auto_compute,
        succeeded ==> run_flags(flags, succeeded).plot_needs_reset,
{
}

/// A change of the inputs with automatic computation on leads, once the
/// delay has passed, to a computation unless the results are already those
/// of the inputs.
pub proof fn lemma_change_triggers_computation(flags: ComputeFlags, results_current: bool)
    requires
        flags.auto_compute,
    ensures
        auto_action(observed_flags(flags, false), true, results_current) == if results_current {
            AutoComputeAction::MarkCurrent
        } else {
            AutoComputeAction::Compute
        },
        auto_action(observed_flags(flags, false), false, results_current) == AutoComputeAction::Wait,
{
}

/// Comparing the inputs never drops a pending computation: with the inputs
/// unchanged the flags stay exactly as they were, a change makes a
/// computation pending, and the other flags are never touched.
pub proof fn lemma_input_check_keeps_pending(flags: ComputeFlags, unchanged: bool)
    ensures
        unchanged ==> observed_flags(flags, unchanged) == flags,
        flags.recompute_pending ==> observed_flags(flags, unchanged).recompute_pending,
        !unchanged ==> observed_flags(flags, unchanged).recompute_pending,
        observed_flags(flags, unchanged).auto_compute == flags.auto_compute,
        observed_flags(flags, unchanged).plot_needs_reset == flags.plot_needs_reset,
{
}

/// A pending computation with automatic computation on survives the frames
/// in which the inputs stay the same, so it fires once the delay has passed.
pub proof fn lemma_pending_computation_fires(flags: ComputeFlags, results_current: bool)
    requires
        flags.auto_compute,
        flags.recompute_pending,
        !results_current,
    ensures
        auto_action(observed_flags(flags, true), false, results_current) == AutoComputeAction::Wait,
        auto_action(observed_flags(observed_flags(flags, true), true), true, results_current)
            == AutoComputeAction::Compute,
{
}

/// Neither a refused computation nor a run ever switches automatic
/// computation on; a refusal the user asked for leaves it as it was, one it
/// triggered switches it off; a successful run leaves it as it was.
pub proof fn lemma_auto_compute_never_switched_on(
    flags: ComputeFlags,
    triggered_by_auto: bool,
    succeeded: bool,
)
    ensures
        rejected_flags(flags, triggered_by_auto).auto_compute ==> flags.auto_compute,
        !triggered_by_auto ==> rejected_flags(flags, triggered_by_auto).auto_compute
            == flags.auto_compute,
        triggered_by_auto ==> !rejected_flags(flags, triggered_by_auto).auto_compute,
        run_flags(flags, succeeded).auto_compute ==> flags.auto_compute,
        succeeded ==> run_flags(flags, succeeded).auto_compute == flags.auto_compute,
        !rejected_flags(flags, triggered_by_auto).recompute_pending,
        rejected_flags(flags, triggered_by_auto).plot_needs_reset == flags.plot_needs_reset,
{
}

/// Automatic computation computes only when it is on, something is pending,
/// the delay has passed and the results are not those of the inputs; it
/// waits only while the delay runs.
pub proof fn lemma_auto_compute_conditions(flags: ComputeFlags, delay_elapsed: bool, results_current: bool)
    ensures
        auto_action(flags, delay_elapsed, results_current) == AutoComputeAction::Compute
            <==> flags.auto_compute && flags.recompute_pending && delay_elapsed && !results_current,
        auto_action(flags, delay_elapsed, results_current) == AutoComputeAction::Wait
            <==> flags.auto_compute && flags.recompute_pending && !delay_elapsed,
        auto_action(flags, delay_elapsed, results_current) == AutoComputeAction::Idle
            <==> !flags.auto_compute || !flags.recompute_pending,
{
}

} // verus!
