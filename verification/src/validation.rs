use vstd::prelude::*;

use crate::models::{FilterMode, FilterType};
use crate::numeric::abs;

verus! {

/// The largest index the numeric core's buffers hold.
pub const MAX_INDEX: i32 = 5000;

/// Outcome of the checks on the real-valued parameters, each true when the
/// parameter passes.
#[derive(Clone, Copy, PartialEq, Eq, Debug)]
pub struct ParameterChecks {
    /// The time step is not known to be zero or negative.
    pub dt_positive: bool,
    /// The frequency step is not known to be zero or negative.
    pub dw_positive: bool,
    /// Time step, frequency step and both design frequencies are finite.
    pub finite: bool,
    /// The transition-band parameter is finite and greater than one.
    pub v1_valid: bool,
    /// The stop-band ripple is finite and strictly between zero and one.
    pub stopband_ripple_valid: bool,
    /// The pass-band ripple is finite and strictly between zero and one.
    pub passband_ripple_valid: bool,
    /// Both design frequencies are non-negative and in order.
    pub design_frequencies_ordered: bool,
}

/// The sample counts the numeric core would use, derived from the
/// real-valued parameters.
#[derive(Clone, Copy, PartialEq, Eq, Debug)]
pub struct IndexCounts {
    /// Last frequency index of the design range (`KF`).
    pub kf: i32,
    /// Samples of the transient response (`NT`).
    pub nt: i32,
    /// Samples of the main interval (`NE`).
    pub ne: i32,
    /// Impulse response length of the non-recursive filter (`L`).
    pub l: i32,
    /// Lead-in samples of the recursive filter (`NF`).
    pub nf: i32,
    /// Phase-delay correction of the recursive filter (`LF`).
    pub lf: i32,
}

/// Why a parameter set is refused.
#[derive(Clone, Copy, PartialEq, Eq, Debug, Structural)]
pub enum InputError {
    /// The time step is not positive.
    TimeStepNotPositive,
    /// The frequency step is not positive (design mode).
    FrequencyStepNotPositive,
    /// A step or design frequency is infinite or not a number.
    NotFinite,
    /// The transition-band parameter is not greater than one.
    TransitionParameter,
    /// The stop-band ripple is outside (0, 1).
    StopbandRipple,
    /// The pass-band ripple is outside (0, 1).
    PassbandRipple,
    /// The design frequencies are negative or out of order.
    DesignFrequencyOrder,
    /// The frequency range needs more points than the buffers hold.
    FrequencyCount(i32),
    /// The transient response needs more samples than the buffers hold.
    TransientCount(i32),
    /// The main interval needs more samples than the buffers hold.
    MainIntervalCount(i32),
    /// The input signal of the non-recursive filter is too long.
    ImpulseInputLength(i32),
    /// The input signal of the recursive filter is too long.
    DelayedInputLength(i32),
}

/// Whether every check on the real-valued parameters passes.
pub open spec fn scalar_checks_pass(checks: ParameterChecks) -> bool {
    &&& checks.dt_positive
    &&& checks.finite
    &&& checks.v1_valid
    &&& checks.stopband_ripple_valid
    &&& checks.passband_ripple_valid
}

/// Whether the input length that the check computes fits 32-bit integers.
/// The check computes it only in operation mode, once every check on the
/// real-valued parameters has passed and the main interval fits the buffers.
pub open spec fn counts_fit(
    checks: ParameterChecks,
    mode: FilterMode,
    filter_type: FilterType,
    c: IndexCounts,
) -> bool {
    mode == FilterMode::Operation && scalar_checks_pass(checks) && c.ne <= MAX_INDEX ==> match filter_type {
        FilterType::NonRecursive => i32::MIN <= 3 * c.l + c.ne + 1 <= i32::MAX
            && i32::MIN <= 3 * c.l <= i32::MAX && i32::MIN <= 3 * c.l + c.ne <= i32::MAX,
        FilterType::Recursive => c.lf != i32::MIN && nf_lf_ne_fits(c),
    }
}

/// Whether `nf + |lf| + ne + 1` and its partial sums fit 32-bit integers.
pub open spec fn nf_lf_ne_fits(c: IndexCounts) -> bool {
    &&& i32::MIN <= c.nf + abs(c.lf as int) <= i32::MAX
    &&& i32::MIN <= c.nf + abs(c.lf as int) + c.ne <= i32::MAX
    &&& i32::MIN <= c.nf + abs(c.lf as int) + c.ne + 1 <= i32::MAX
}

/// The first failing check, in the order the checks are made: the time
/// step, the frequency step (design mode), finiteness, the transition
/// parameter, the two ripples, then per mode the design frequencies and the
/// buffer limits.
pub open spec fn first_input_error(
    checks: ParameterChecks,
    mode: FilterMode,
    filter_type: FilterType,
    c: IndexCounts,
) -> Option<InputError> {
    if !checks.dt_positive {
        Some(InputError::TimeStepNotPositive)
    } else if mode == FilterMode::Design && !checks.dw_positive {
        Some(InputError::FrequencyStepNotPositive)
    } else if !checks.finite {
        Some(InputError::NotFinite)
    } else if !checks.v1_valid {
        Some(InputError::TransitionParameter)
    } else if !checks.stopband_ripple_valid {
        Some(InputError::StopbandRipple)
    } else if !checks.passband_ripple_valid {
        Some(InputError::PassbandRipple)
    } else if mode == FilterMode::Design {
        if !checks.design_frequencies_ordered {
            Some(InputError::DesignFrequencyOrder)
        } else if c.kf > MAX_INDEX {
            Some(InputError::FrequencyCount(c.kf))
        } else if filter_type == FilterType::Recursive && c.nt > MAX_INDEX {
            Some(InputError::TransientCount(c.nt))
        } else {
            None
        }
    } else if c.ne > MAX_INDEX {
        Some(InputError::MainIntervalCount(c.ne))
    } else if filter_type == FilterType::NonRecursive {
        if 3 * c.l + c.ne + 1 > MAX_INDEX {
            Some(InputError::ImpulseInputLength((3 * c.l + c.ne + 1) as i32))
        } else {
            None
        }
    } else if c.nf + abs(c.lf as int) + c.ne + 1 > MAX_INDEX {
        Some(InputError::DelayedInputLength((c.nf + abs(c.lf as int) + c.ne + 1) as i32))
    } else {
        None
    }
}

/// Checks a parameter set before a run: `Ok` exactly when no check fails,
/// else the first failing check.
pub fn validate_inputs(
    checks: ParameterChecks,
    mode: FilterMode,
    filter_type: FilterType,
    counts: IndexCounts,
) -> (res: Result<(), InputError>)
    requires
        counts_fit(checks, mode, filter_type, counts),
    ensures
        res is Ok <==> first_input_error(checks, mode, filter_type, counts) is None,
        res matches Err(e) ==> first_input_error(checks, mode, filter_type, counts) == Some(e),
        res is Ok ==> checks.dt_positive && checks.finite && checks.v1_valid
            && checks.stopband_ripple_valid && checks.passband_ripple_valid,
        res is Ok && mode == FilterMode::Design ==> checks.dw_positive
            && checks.design_frequencies_ordered,
        checks.dt_positive && (mode == FilterMode::Design ==> checks.dw_positive) && checks.finite
            && !checks.v1_valid ==> res == Err::<(), InputError>(InputError::TransitionParameter),
{
    let design = match mode {
        FilterMode::Design => true,
        FilterMode::Operation => false,
    };
    let recursive = match filter_type {
        FilterType::NonRecursive => false,
        FilterType::Recursive => true,
    };
    if !checks.dt_positive {
        return Err(InputError::TimeStepNotPositive);
    }
    if design && !checks.dw_positive {
        return Err(InputError::FrequencyStepNotPositive);
    }
    if !checks.finite {
        return Err(InputError::NotFinite);
    }
    if !checks.v1_valid {
        return Err(InputError::TransitionParameter);
    }
    if !checks.stopband_ripple_valid {
        return Err(InputError::StopbandRipple);
    }
    if !checks.passband_ripple_valid {
        return Err(InputError::PassbandRipple);
    }
    if design {
        if !checks.design_frequencies_ordered {
            return Err(InputError::DesignFrequencyOrder);
        }
        if counts.kf > MAX_INDEX {
            return Err(InputError::FrequencyCount(counts.kf));
        }
        if recursive && counts.nt > MAX_INDEX {
            return Err(InputError::TransientCount(counts.nt));
        }
    } else {
        if counts.ne > MAX_INDEX {
            return Err(InputError::MainIntervalCount(counts.ne));
        }
        if !recursive {
            let nx = 3 * counts.l + counts.ne + 1;
            if nx > MAX_INDEX {
                return Err(InputError::ImpulseInputLength(nx));
            }
        } else {
            let shift = if counts.lf < 0 {
                -counts.lf
            } else {
                counts.lf
            };
            let nx = counts.nf + shift + counts.ne + 1;
            if nx > MAX_INDEX {
                return Err(InputError::DelayedInputLength(nx));
            }
        }
    }
    Ok(())
}

/// A parameter set that passes the checks fits the numeric core's buffers:
/// in design mode the frequency range (and the transient of the recursive
/// filter) has at most `MAX_INDEX` points; in operation mode the main
/// interval and the input signal, whose length `operation_lengths` computes
/// from the same counts, have at most `MAX_INDEX` samples.
pub proof fn lemma_accepted_inputs_fit_buffers(
    checks: ParameterChecks,
    mode: FilterMode,
    filter_type: FilterType,
    c: IndexCounts,
)
    requires
        first_input_error(checks, mode, filter_type, c) is None,
    ensures
        mode == FilterMode::Design ==> c.kf <= MAX_INDEX,
        mode == FilterMode::Design && filter_type == FilterType::Recursive ==> c.nt <= MAX_INDEX,
        mode == FilterMode::Operation ==> c.ne <= MAX_INDEX,
        mode == FilterMode::Operation && filter_type == FilterType::NonRecursive ==> 2 * c.l + c.l
            + c.ne + 1 <= MAX_INDEX,
        mode == FilterMode::Operation && filter_type == FilterType::Recursive ==> c.nf + abs(
            c.lf as int,
        ) + c.ne + 1 <= MAX_INDEX,
{
}

/// A parameter set is accepted only when every check on it passes, in every
/// mode: the time step, finiteness, the transition parameter and both
/// ripples always, and in design mode also the frequency step and the order
/// of the design frequencies.
pub proof fn lemma_accepted_means_every_check_passes(
    checks: ParameterChecks,
    mode: FilterMode,
    filter_type: FilterType,
    c: IndexCounts,
)
    requires
        first_input_error(checks, mode, filter_type, c) is None,
    ensures
        checks.dt_positive,
        checks.finite,
        checks.v1_valid,
        checks.stopband_ripple_valid,
        checks.passband_ripple_valid,
        mode == FilterMode::Design ==> checks.dw_positive && checks.design_frequencies_ordered,
{
}

/// A transition parameter of at most one is refused in every mode and for
/// every implementation, as soon as the checks before it (time step,
/// frequency step in design mode, finiteness) pass; the buffer counts play
/// no part.
pub proof fn lemma_transition_parameter_refused(
    checks: ParameterChecks,
    mode: FilterMode,
    filter_type: FilterType,
    c: IndexCounts,
)
    requires
        checks.dt_positive,
        mode == FilterMode::Design ==> checks.dw_positive,
        checks.finite,
        !checks.v1_valid,
    ensures
        first_input_error(checks, mode, filter_type, c) == Some(InputError::TransitionParameter),
{
}

} // verus!
