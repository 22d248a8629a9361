use filter_design::models::{
    FilterCategory, FilterMode, FilterType, OperationModeType, SignalType,
};
use filter_design::operation::{Signal, Task};

#[test]
fn test_mode_conversion() {
    assert_eq!(FilterMode::Design.to_i32(), 0);
    assert_eq!(FilterMode::Operation.to_i32(), 1);
}

#[test]
fn test_filter_type_conversion() {
    assert_eq!(FilterType::NonRecursive.to_i32(), 1);
    assert_eq!(FilterType::Recursive.to_i32(), 2);
}

#[test]
fn test_filter_category_conversion() {
    assert_eq!(FilterCategory::LowPass.to_i32(), 1);
    assert_eq!(FilterCategory::BandPass.to_i32(), 2);
    assert_eq!(FilterCategory::BandStop.to_i32(), 3);
    assert_eq!(FilterCategory::HighPass.to_i32(), 4);
    assert_eq!(FilterCategory::Differentiating.to_i32(), 5);
}

#[test]
fn test_operation_mode_type_conversion() {
    assert_eq!(OperationModeType::SpectralAnalysis.to_i32(), 1);
    assert_eq!(OperationModeType::Smoothing.to_i32(), 2);
    assert_eq!(OperationModeType::Differentiating.to_i32(), 3);
}

#[test]
fn signal_type_codes() {
    assert_eq!(SignalType::X1.to_i32(), 1);
    assert_eq!(SignalType::X1X2.to_i32(), 2);
    assert_eq!(SignalType::X1X3.to_i32(), 3);
    assert_eq!(SignalType::X2.to_i32(), 4);
    assert_eq!(SignalType::X2X3.to_i32(), 5);
    assert_eq!(SignalType::X3.to_i32(), 6);
}

#[test]
fn defaults_match_the_first_choices() {
    assert_eq!(FilterMode::default(), FilterMode::Design);
    assert_eq!(FilterType::default(), FilterType::NonRecursive);
    assert_eq!(FilterCategory::default(), FilterCategory::LowPass);
    assert_eq!(OperationModeType::default(), OperationModeType::SpectralAnalysis);
    assert_eq!(SignalType::default(), SignalType::X1);
    assert_eq!(Task::default(), Task::SpecralAnalysis);
    assert_eq!(Signal::default(), Signal::X1);
}

#[test]
fn task_and_signal_codes() {
    assert_eq!(Task::SpecralAnalysis.to_i32(), 1);
    assert_eq!(Task::Convolution.to_i32(), 2);
    assert_eq!(Task::Differentiation.to_i32(), 3);
    assert_eq!(Signal::X1.to_i32(), 1);
    assert_eq!(Signal::X1X2.to_i32(), 2);
    assert_eq!(Signal::X1X3.to_i32(), 3);
    assert_eq!(Signal::X2.to_i32(), 4);
    assert_eq!(Signal::X2X3.to_i32(), 5);
    assert_eq!(Signal::X3.to_i32(), 6);
}

#[test]
fn signal_formulas() {
    assert_eq!(Signal::X1.to_string(), "x₁(t)");
    assert_eq!(Signal::X1X2.to_string(), "x₁(t)+x₂(t)");
    assert_eq!(Signal::X1X3.to_string(), "x₁(t)+x₃(t)");
    assert_eq!(Signal::X2.to_string(), "x₂(t)");
    assert_eq!(Signal::X2X3.to_string(), "x₂(t)+x₃(t)");
    assert_eq!(Signal::X3.to_string(), "x₃(t)");
}
