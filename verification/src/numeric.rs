use vstd::prelude::*;

use crate::models::{FilterCategory, FilterType};

verus! {

/// The modulus of the random sequence: every value lies in `0 .. 2^31`.
pub open spec fn lcg_modulus() -> int {
    0x8000_0000
}

/// The next value of the multiplicative congruential sequence that drives the
/// band-limited random signal: the seed times 65539, reduced modulo 2^31.
pub open spec fn lcg_step(seed: int) -> int {
    (seed * 65539) % lcg_modulus()
}

/// Every value of the random sequence lies in `0 .. 2^31`, so the signal
/// samples drawn from it (the value over 2^31) lie in [0, 1).
pub proof fn lemma_lcg_range(seed: int)
    ensures
        0 <= lcg_step(seed) < lcg_modulus(),
{
}

/// Advances the random sequence by one step.
///
/// The multiplication wraps at 32 bits and a negative result is lifted by
/// 2^31, which together is the product reduced modulo 2^31.
pub fn lcg_next(seed: i32) -> (next: i32)
    ensures
        next == lcg_step(seed as int),
{
    let mut iy = seed.wrapping_mul(65_539);
    if iy < 0 {
        iy = iy.wrapping_add(i32::MAX).wrapping_add(1);
    }
    proof {
        let p = seed as int * 65539;
        vstd::arithmetic::div_mod::lemma_mod_mod(p, 0x8000_0000, 2);
        assert(p % 0x1_0000_0000 == (p % 0x1_0000_0000) % 0x1_0000_0000);
    }
    iy
}

/// The number of second-order sections of the recursive filter of a given
/// prototype order: half the order, and twice that for the band classes,
/// whose sections come in pairs.
pub open spec fn section_count(order: int, category: FilterCategory) -> int {
    if category.is_band() {
        2 * (order / 2)
    } else {
        order / 2
    }
}

/// The order of the digital filter built from `sections` sections of a
/// prototype of the given order: two per section, plus the first-order
/// section of an odd prototype (one for low- and high-pass, two for the band
/// classes, none for the differentiator).
pub open spec fn realized_order(order: int, category: FilterCategory) -> int {
    let extra = if order % 2 == 1 {
        match category {
            FilterCategory::LowPass | FilterCategory::HighPass => 1int,
            FilterCategory::BandPass | FilterCategory::BandStop => 2int,
            FilterCategory::Differentiating => 0int,
        }
    } else {
        0int
    };
    2 * section_count(order, category) + extra
}

/// How the recursive filter is laid out for a prototype order.
#[derive(Clone, Copy, PartialEq, Eq, Debug)]
pub struct SectionLayout {
    /// Number of second-order sections (`L`).
    pub sections: i32,
    /// Whether the prototype has an extra first-order section (odd order).
    pub odd: bool,
    /// Index of the state slot that holds the filter output (`LO`).
    pub output_slot: i32,
    /// Order of the resulting digital filter (`N` after synthesis).
    pub order: i32,
}

/// Whether the layout of a prototype order fits the 32-bit indices the
/// numeric core uses.
pub open spec fn layout_fits(order: int, category: FilterCategory) -> bool {
    &&& 0 <= order
    &&& 3 * section_count(order, category) + 3 <= i32::MAX
}

/// Lays out the recursive filter for a prototype of the given order.
pub fn section_layout(order: i32, category: FilterCategory) -> (layout: SectionLayout)
    requires
        layout_fits(order as int, category),
    ensures
        layout.sections == section_count(order as int, category),
        layout.odd == (order % 2 == 1),
        layout.output_slot == 3 * layout.sections + 3,
        layout.order == realized_order(order as int, category),
        category == FilterCategory::LowPass || category == FilterCategory::HighPass
            ==> layout.order == order,
        category.is_band() ==> layout.order == 2 * order,
{
    let half = order / 2;
    let odd = 2 * half + 1 == order;
    let sections = match category {
        FilterCategory::BandPass | FilterCategory::BandStop => 2 * half,
        _ => half,
    };
    let output_slot = 3 * sections + 3;
    let mut realized = 2 * sections;
    if odd {
        match category {
            FilterCategory::LowPass | FilterCategory::HighPass => {
                realized = realized + 1;
            },
            FilterCategory::BandPass | FilterCategory::BandStop => {
                realized = realized + 2;
            },
            FilterCategory::Differentiating => {},
        }
    }
    SectionLayout { sections, odd, output_slot, order: realized }
}

/// Buffer lengths of an operation-mode run.
#[derive(Clone, Copy, PartialEq, Eq, Debug)]
pub struct OperationLengths {
    /// Samples of the main interval (`NE`).
    pub ne: i32,
    /// Samples before the main interval (`NF`).
    pub nf: i32,
    /// Samples of the input signal (`NX`).
    pub nx: i32,
    /// Phase-delay correction in samples (`LF`); zero for the non-recursive filter.
    pub lf: i32,
}

/// Whether the lengths of an operation-mode run fit 32-bit integers.
pub open spec fn operation_lengths_fit(
    filter_type: FilterType,
    ne: int,
    l: int,
    nf: int,
    lf: int,
) -> bool {
    match filter_type {
        FilterType::NonRecursive => {
            &&& i32::MIN <= 2 * l + l + ne + 1 <= i32::MAX
            &&& i32::MIN <= 2 * l <= i32::MAX
            &&& i32::MIN <= 2 * l + l <= i32::MAX
            &&& i32::MIN <= 2 * l + l + ne <= i32::MAX
        },
        FilterType::Recursive => {
            &&& lf != i32::MIN
            &&& i32::MIN <= nf + abs(lf) <= i32::MAX
            &&& i32::MIN <= nf + abs(lf) + ne <= i32::MAX
            &&& i32::MIN <= nf + abs(lf) + ne + 1 <= i32::MAX
        },
    }
}

/// The absolute value of an integer.
pub open spec fn abs(x: int) -> int {
    if x < 0 {
        -x
    } else {
        x
    }
}

/// The buffer lengths of an operation-mode run.
///
/// `ne` is the number of samples of the main interval. For the non-recursive
/// filter the lead-in is twice the impulse response length `l`; for the
/// recursive filter the lead-in `nf` and the delay correction `lf` come from
/// its effective length and phase delay. The input signal covers the lead-in,
/// the correction and the main interval, plus one sample.
pub fn operation_lengths(filter_type: FilterType, ne: i32, l: i32, nf: i32, lf: i32) -> (res:
    OperationLengths)
    requires
        operation_lengths_fit(filter_type, ne as int, l as int, nf as int, lf as int),
    ensures
        res.ne == ne,
        filter_type == FilterType::NonRecursive ==> {
            &&& res.nf == 2 * l
            &&& res.nx == 2 * l + l + ne + 1
            &&& res.lf == 0
        },
        filter_type == FilterType::Recursive ==> {
            &&& res.nf == nf
            &&& res.nx == nf + abs(lf as int) + ne + 1
            &&& res.lf == lf
        },
{
    match filter_type {
        FilterType::NonRecursive => {
            let lead = 2 * l;
            OperationLengths { ne, nf: lead, nx: lead + l + ne + 1, lf: 0 }
        },
        FilterType::Recursive => {
            let shift = if lf < 0 {
                -lf
            } else {
                lf
            };
            OperationLengths { ne, nf, nx: nf + shift + ne + 1, lf }
        },
    }
}

} // verus!
