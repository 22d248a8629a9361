use filter_design::compute::{
    after_input_check, after_rejected_inputs, after_run, auto_compute_action, AutoComputeAction, ComputeFlags, Notice,
};
use filter_design::models::{FilterMode, FilterType};
use filter_design::validation::{validate_inputs, IndexCounts, InputError, ParameterChecks, MAX_INDEX};

fn all_pass() -> ParameterChecks {
    ParameterChecks {
        dt_positive: true,
        dw_positive: true,
        finite: true,
        v1_valid: true,
        stopband_ripple_valid: true,
        passband_ripple_valid: true,
        design_frequencies_ordered: true,
    }
}

fn counts() -> IndexCounts {
    IndexCounts { kf: 100, nt: 200, ne: 300, l: 50, nf: 40, lf: -3 }
}

#[test]
fn accepted_parameters() {
    for mode in [FilterMode::Design, FilterMode::Operation] {
        for ft in [FilterType::NonRecursive, FilterType::Recursive] {
            assert_eq!(validate_inputs(all_pass(), mode, ft, counts()), Ok(()));
        }
    }
}

#[test]
fn first_failing_check_is_reported() {
    let mut c = all_pass();
    c.dt_positive = false;
    c.finite = false;
    assert_eq!(validate_inputs(c, FilterMode::Design, FilterType::Recursive, counts()), Err(InputError::TimeStepNotPositive));
    let mut c = all_pass();
    c.dw_positive = false;
    assert_eq!(validate_inputs(c, FilterMode::Design, FilterType::Recursive, counts()), Err(InputError::FrequencyStepNotPositive));
    assert_eq!(validate_inputs(c, FilterMode::Operation, FilterType::Recursive, counts()), Ok(()));
    let mut c = all_pass();
    c.finite = false;
    assert_eq!(validate_inputs(c, FilterMode::Operation, FilterType::Recursive, counts()), Err(InputError::NotFinite));
    let mut c = all_pass();
    c.v1_valid = false;
    assert_eq!(validate_inputs(c, FilterMode::Operation, FilterType::Recursive, counts()), Err(InputError::TransitionParameter));
    let mut c = all_pass();
    c.stopband_ripple_valid = false;
    assert_eq!(validate_inputs(c, FilterMode::Operation, FilterType::Recursive, counts()), Err(InputError::StopbandRipple));
    let mut c = all_pass();
    c.passband_ripple_valid = false;
    assert_eq!(validate_inputs(c, FilterMode::Operation, FilterType::Recursive, counts()), Err(InputError::PassbandRipple));
    let mut c = all_pass();
    c.design_frequencies_ordered = false;
    assert_eq!(validate_inputs(c, FilterMode::Design, FilterType::Recursive, counts()), Err(InputError::DesignFrequencyOrder));
    assert_eq!(validate_inputs(c, FilterMode::Operation, FilterType::Recursive, counts()), Ok(()));
}

#[test]
fn buffer_limits() {
    let mut n = counts();
    n.kf = MAX_INDEX + 1;
    assert_eq!(validate_inputs(all_pass(), FilterMode::Design, FilterType::NonRecursive, n), Err(InputError::FrequencyCount(5001)));
    let mut n = counts();
    n.nt = 6000;
    assert_eq!(validate_inputs(all_pass(), FilterMode::Design, FilterType::Recursive, n), Err(InputError::TransientCount(6000)));
    assert_eq!(validate_inputs(all_pass(), FilterMode::Design, FilterType::NonRecursive, n), Ok(()));
    let mut n = counts();
    n.ne = 5001;
    assert_eq!(validate_inputs(all_pass(), FilterMode::Operation, FilterType::NonRecursive, n), Err(InputError::MainIntervalCount(5001)));
    let mut n = counts();
    n.l = 1600;
    n.ne = 200;
    assert_eq!(validate_inputs(all_pass(), FilterMode::Operation, FilterType::NonRecursive, n), Err(InputError::ImpulseInputLength(5001)));
    n.l = 1599;
    assert_eq!(validate_inputs(all_pass(), FilterMode::Operation, FilterType::NonRecursive, n), Ok(()));
    let mut n = counts();
    n.nf = 4000;
    n.lf = -700;
    n.ne = 300;
    assert_eq!(validate_inputs(all_pass(), FilterMode::Operation, FilterType::Recursive, n), Err(InputError::DelayedInputLength(5001)));
}

fn flags(auto: bool, pending: bool) -> ComputeFlags {
    ComputeFlags { auto_compute: auto, recompute_pending: pending, plot_needs_reset: false }
}

#[test]
fn rejected_computations() {
    let e = InputError::NotFinite;
    let (f, n) = after_rejected_inputs(flags(true, true), true, e);
    assert_eq!(f, flags(false, false));
    assert_eq!(n, Notice::AutoComputeDisabled(e));
    let (f, n) = after_rejected_inputs(flags(true, true), false, e);
    assert_eq!(f, flags(true, false));
    assert_eq!(n, Notice::InputRejected(e));
}

#[test]
fn finished_runs() {
    let (f, n) = after_run(flags(true, true), true);
    assert_eq!(f, ComputeFlags { auto_compute: true, recompute_pending: false, plot_needs_reset: true });
    assert_eq!(n, None);
    let (f, n) = after_run(flags(true, true), false);
    assert_eq!(f, flags(false, false));
    assert_eq!(n, Some(Notice::ComputeFailed));
}

#[test]
fn auto_compute_decisions() {
    assert_eq!(auto_compute_action(flags(false, true), true, false), AutoComputeAction::Idle);
    assert_eq!(auto_compute_action(flags(true, false), true, false), AutoComputeAction::Idle);
    assert_eq!(auto_compute_action(flags(true, true), false, false), AutoComputeAction::Wait);
    assert_eq!(auto_compute_action(flags(true, true), true, true), AutoComputeAction::MarkCurrent);
    assert_eq!(auto_compute_action(flags(true, true), true, false), AutoComputeAction::Compute);
    assert_eq!(after_input_check(flags(true, false), true), flags(true, false));
    assert_eq!(after_input_check(flags(true, false), false), flags(true, true));
    let (f, _) = after_run(after_input_check(flags(true, false), false), true);
    assert_eq!(auto_compute_action(f, true, false), AutoComputeAction::Idle);
}

#[test]
fn saturated_main_interval_is_refused_not_overflowed() {
    let mut n = counts();
    n.ne = i32::MAX;
    n.l = 0;
    assert_eq!(
        validate_inputs(all_pass(), FilterMode::Operation, FilterType::NonRecursive, n),
        Err(InputError::MainIntervalCount(i32::MAX))
    );
    n.l = i32::MAX;
    n.lf = i32::MIN;
    n.nf = i32::MAX;
    assert_eq!(
        validate_inputs(all_pass(), FilterMode::Operation, FilterType::Recursive, n),
        Err(InputError::MainIntervalCount(i32::MAX))
    );
    let mut c = all_pass();
    c.finite = false;
    let mut n = counts();
    n.l = i32::MAX;
    assert_eq!(
        validate_inputs(c, FilterMode::Operation, FilterType::NonRecursive, n),
        Err(InputError::NotFinite)
    );
    assert_eq!(
        validate_inputs(all_pass(), FilterMode::Design, FilterType::NonRecursive, n),
        Ok(())
    );
}
