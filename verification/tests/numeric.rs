use filter_design::models::{FilterCategory, FilterType};
use filter_design::numeric::{lcg_next, operation_lengths, section_layout};

#[test]
fn lcg_matches_the_product_modulo_2_pow_31() {
    assert_eq!(lcg_next(1), 65539);
    assert_eq!(lcg_next(21733), ((21733i64 * 65539) % (1i64 << 31)) as i32);
    assert_eq!(lcg_next(0), 0);
    // a product past 2^31 that wraps negative is lifted back
    let seed = 40000;
    let expected = ((seed as i64 * 65539) % (1i64 << 31)) as i32;
    assert_eq!(lcg_next(seed), expected);
    assert_eq!(lcg_next(-1), ((-65539i64).rem_euclid(1i64 << 31)) as i32);
}

#[test]
fn lcg_stays_non_negative() {
    let mut x = 21733;
    for _ in 0..1000 {
        x = lcg_next(x);
        assert!(x >= 0);
    }
}

#[test]
fn section_layout_low_pass_keeps_order() {
    let even = section_layout(6, FilterCategory::LowPass);
    assert_eq!(even.sections, 3);
    assert!(!even.odd);
    assert_eq!(even.output_slot, 12);
    assert_eq!(even.order, 6);
    let odd = section_layout(5, FilterCategory::HighPass);
    assert_eq!(odd.sections, 2);
    assert!(odd.odd);
    assert_eq!(odd.output_slot, 9);
    assert_eq!(odd.order, 5);
}

#[test]
fn section_layout_band_doubles_order() {
    let bp = section_layout(5, FilterCategory::BandPass);
    assert_eq!(bp.sections, 4);
    assert!(bp.odd);
    assert_eq!(bp.output_slot, 15);
    assert_eq!(bp.order, 10);
    let bs = section_layout(4, FilterCategory::BandStop);
    assert_eq!(bs.sections, 4);
    assert_eq!(bs.order, 8);
}

#[test]
fn section_layout_differentiator_drops_first_order_section() {
    let d = section_layout(5, FilterCategory::Differentiating);
    assert_eq!(d.sections, 2);
    assert!(d.odd);
    assert_eq!(d.order, 4);
    let zero = section_layout(0, FilterCategory::LowPass);
    assert_eq!(zero.sections, 0);
    assert_eq!(zero.output_slot, 3);
    assert_eq!(zero.order, 0);
}

#[test]
fn operation_lengths_non_recursive() {
    let r = operation_lengths(FilterType::NonRecursive, 101, 20, 999, -7);
    assert_eq!(r.ne, 101);
    assert_eq!(r.nf, 40);
    assert_eq!(r.nx, 40 + 20 + 101 + 1);
    assert_eq!(r.lf, 0);
}

#[test]
fn operation_lengths_recursive_uses_delay_magnitude() {
    let r = operation_lengths(FilterType::Recursive, 101, 20, 30, -7);
    assert_eq!(r.ne, 101);
    assert_eq!(r.nf, 30);
    assert_eq!(r.nx, 30 + 7 + 101 + 1);
    assert_eq!(r.lf, -7);
    let r = operation_lengths(FilterType::Recursive, 10, 0, 5, 3);
    assert_eq!(r.nx, 5 + 3 + 10 + 1);
}
