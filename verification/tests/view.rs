use filter_design::models::{FilterMode, FilterType};
use filter_design::view::{
    active_line_ids, line_customization_ids, normalize_plot_type, normalize_table_type,
    operation_line_ids, palette_index, plot_type_choices, table_kind, table_type_choices, LineDrawStyle,
    LineId, OperationSeries, PlotScaleAction, PlotType, SignalVisibility, TableKind, ValueTableType,
};
use filter_design::widgets::{clicked_action, TripleButtonAction};

#[test]
fn plot_type_modes() {
    assert_eq!(PlotType::FrequencyResponse.mode(), FilterMode::Design);
    assert_eq!(PlotType::PhaseResponse.mode(), FilterMode::Design);
    assert_eq!(PlotType::ImpulseResponse.mode(), FilterMode::Design);
    assert_eq!(PlotType::StepResponse.mode(), FilterMode::Design);
    assert_eq!(PlotType::Operation.mode(), FilterMode::Operation);
}

#[test]
fn plot_type_label_keys() {
    assert_eq!(PlotType::FrequencyResponse.label(), "plot-type-frequency");
    assert_eq!(PlotType::PhaseResponse.label(), "plot-type-phase");
    assert_eq!(PlotType::ImpulseResponse.label(), "plot-type-impulse");
    assert_eq!(PlotType::StepResponse.label(), "plot-type-step");
    assert_eq!(PlotType::Operation.label(), "plot-type-operation");
    assert_eq!(PlotType::PhaseResponse.x_axis_label(), "x-axis-frequency");
    assert_eq!(PlotType::StepResponse.x_axis_label(), "x-axis-time");
}

#[test]
fn series_names() {
    assert_eq!(OperationSeries::Input.name(), "x(t)");
    assert_eq!(OperationSeries::Output.name(), "y(t)");
    assert_eq!(OperationSeries::Corrected.name(), "z(t)");
    assert_eq!(OperationSeries::Reference.name(), "v(t)");
}

#[test]
fn line_labels_and_colors() {
    assert_eq!(LineId::DesignFrequency.label(), "line-design-frequency");
    assert_eq!(LineId::OperationReference.label(), "line-operation-reference");
    assert_eq!(LineId::DesignFrequency.default_color_index(), 0);
    assert_eq!(LineId::DesignPhase.default_color_index(), 1);
    assert_eq!(LineId::DesignImpulse.default_color_index(), 2);
    assert_eq!(LineId::DesignStep.default_color_index(), 3);
    assert_eq!(LineId::OperationInput.default_color_index(), 0);
    assert_eq!(LineId::OperationOutput.default_color_index(), 1);
    assert_eq!(LineId::OperationCorrected.default_color_index(), 2);
    assert_eq!(LineId::OperationReference.default_color_index(), 3);
    assert_eq!(LineDrawStyle::Solid.label(), "option-line-solid");
    assert_eq!(LineDrawStyle::Dotted.label(), "option-line-dotted");
    assert_eq!(LineDrawStyle::Dashed.label(), "option-line-dashed");
}

#[test]
fn palette_index_clamps() {
    assert_eq!(palette_index(2, 5), 2);
    assert_eq!(palette_index(4, 5), 4);
    assert_eq!(palette_index(9, 5), 4);
    assert_eq!(palette_index(3, 0), 0);
}

#[test]
fn scale_buttons() {
    assert_eq!(PlotScaleAction::from_button(TripleButtonAction::Left), PlotScaleAction::Downscale);
    assert_eq!(PlotScaleAction::from_button(TripleButtonAction::Center), PlotScaleAction::Fit);
    assert_eq!(PlotScaleAction::from_button(TripleButtonAction::Right), PlotScaleAction::Upscale);
}

#[test]
fn normalize_plot_in_design_mode() {
    let nr = FilterType::NonRecursive;
    let r = FilterType::Recursive;
    assert_eq!(normalize_plot_type(PlotType::Operation, FilterMode::Design, nr), (PlotType::FrequencyResponse, true));
    assert_eq!(normalize_plot_type(PlotType::StepResponse, FilterMode::Design, nr), (PlotType::ImpulseResponse, true));
    assert_eq!(normalize_plot_type(PlotType::ImpulseResponse, FilterMode::Design, r), (PlotType::StepResponse, true));
    assert_eq!(normalize_plot_type(PlotType::PhaseResponse, FilterMode::Design, r), (PlotType::PhaseResponse, false));
    assert_eq!(normalize_plot_type(PlotType::ImpulseResponse, FilterMode::Design, nr), (PlotType::ImpulseResponse, false));
}

#[test]
fn normalize_plot_in_operation_mode() {
    for pt in [
        PlotType::FrequencyResponse,
        PlotType::PhaseResponse,
        PlotType::ImpulseResponse,
        PlotType::StepResponse,
    ] {
        assert_eq!(
            normalize_plot_type(pt, FilterMode::Operation, FilterType::Recursive),
            (PlotType::Operation, true)
        );
    }
    assert_eq!(
        normalize_plot_type(PlotType::Operation, FilterMode::Operation, FilterType::NonRecursive),
        (PlotType::Operation, false)
    );
}

#[test]
fn normalize_plot_is_idempotent() {
    for mode in [FilterMode::Design, FilterMode::Operation] {
        for ft in [FilterType::NonRecursive, FilterType::Recursive] {
            for pt in [
                PlotType::FrequencyResponse,
                PlotType::PhaseResponse,
                PlotType::ImpulseResponse,
                PlotType::StepResponse,
                PlotType::Operation,
            ] {
                let (once, _) = normalize_plot_type(pt, mode, ft);
                assert_eq!(normalize_plot_type(once, mode, ft), (once, false));
                assert_eq!(once.mode(), mode);
            }
        }
    }
}

#[test]
fn choices_follow_the_implementation() {
    assert_eq!(
        plot_type_choices(FilterType::NonRecursive),
        vec![PlotType::FrequencyResponse, PlotType::PhaseResponse, PlotType::ImpulseResponse]
    );
    assert_eq!(
        plot_type_choices(FilterType::Recursive),
        vec![PlotType::FrequencyResponse, PlotType::PhaseResponse, PlotType::StepResponse]
    );
    assert_eq!(table_type_choices(FilterType::NonRecursive), vec![ValueTableType::Frequency, ValueTableType::Impulse]);
    assert_eq!(table_type_choices(FilterType::Recursive), vec![ValueTableType::Frequency, ValueTableType::Step]);
}

#[test]
fn normalize_table() {
    assert_eq!(normalize_table_type(ValueTableType::Step, FilterType::NonRecursive), ValueTableType::Impulse);
    assert_eq!(normalize_table_type(ValueTableType::Impulse, FilterType::Recursive), ValueTableType::Step);
    assert_eq!(normalize_table_type(ValueTableType::Frequency, FilterType::Recursive), ValueTableType::Frequency);
    assert_eq!(normalize_table_type(ValueTableType::Impulse, FilterType::NonRecursive), ValueTableType::Impulse);
}

#[test]
fn table_kinds() {
    assert_eq!(table_kind(FilterMode::Operation, ValueTableType::Impulse), TableKind::Operation);
    assert_eq!(table_kind(FilterMode::Design, ValueTableType::Frequency), TableKind::Frequency);
    assert_eq!(table_kind(FilterMode::Design, ValueTableType::Impulse), TableKind::Impulse);
    assert_eq!(table_kind(FilterMode::Design, ValueTableType::Step), TableKind::Step);
}

#[test]
fn visibility_switches() {
    let mut v = SignalVisibility::all_shown();
    assert!(v.line_visible(LineId::OperationOutput));
    assert!(v.set_line_visible(LineId::OperationOutput, false));
    assert!(!v.line_visible(LineId::OperationOutput));
    assert!(v.line_visible(LineId::OperationInput));
    assert!(!v.set_line_visible(LineId::DesignPhase, false));
    assert!(v.line_visible(LineId::DesignPhase));
}

#[test]
fn active_lines_per_mode() {
    let mut v = SignalVisibility::all_shown();
    assert_eq!(
        active_line_ids(PlotType::PhaseResponse, &v, FilterMode::Design, FilterType::NonRecursive),
        vec![LineId::DesignPhase]
    );
    assert_eq!(
        active_line_ids(PlotType::Operation, &v, FilterMode::Design, FilterType::Recursive),
        vec![LineId::DesignStep]
    );
    assert_eq!(active_line_ids(PlotType::Operation, &v, FilterMode::Operation, FilterType::Recursive), operation_line_ids());
    v.corrected = false;
    v.input = false;
    assert_eq!(
        active_line_ids(PlotType::Operation, &v, FilterMode::Operation, FilterType::Recursive),
        vec![LineId::OperationOutput, LineId::OperationReference]
    );
    assert_eq!(
        line_customization_ids(PlotType::Operation, &v, FilterMode::Operation, FilterType::Recursive),
        operation_line_ids()
    );
    assert_eq!(
        line_customization_ids(PlotType::FrequencyResponse, &v, FilterMode::Design, FilterType::Recursive),
        vec![LineId::DesignFrequency]
    );
}

#[test]
fn rightmost_clicked_button_wins() {
    assert_eq!(clicked_action(false, false, false), None);
    assert_eq!(clicked_action(true, false, false), Some(TripleButtonAction::Left));
    assert_eq!(clicked_action(true, true, false), Some(TripleButtonAction::Center));
    assert_eq!(clicked_action(true, true, true), Some(TripleButtonAction::Right));
    assert_eq!(clicked_action(false, false, true), Some(TripleButtonAction::Right));
}
