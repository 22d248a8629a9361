use vstd::prelude::*;

use crate::models::{FilterMode, FilterType};
use crate::widgets::TripleButtonAction;

verus! {

/// Which table of values is shown in design mode.
#[derive(Clone, Copy, PartialEq, Eq, Debug, Structural)]
pub enum ValueTableType {
    /// Frequency and phase response.
    Frequency,
    /// Impulse response (non-recursive filter).
    Impulse,
    /// Step response (recursive filter).
    Step,
}

impl Default for ValueTableType {
    fn default() -> (r: Self)
        ensures
            r == ValueTableType::Frequency,
    {
        ValueTableType::Frequency
    }
}

/// Which plot is drawn.
#[derive(Clone, Copy, PartialEq, Eq, Debug, Structural)]
pub enum PlotType {
    /// Magnitude of the frequency response.
    FrequencyResponse,
    /// Phase of the frequency response.
    PhaseResponse,
    /// Impulse response (non-recursive filter).
    ImpulseResponse,
    /// Step response (recursive filter).
    StepResponse,
    /// Signals of an operation-mode run.
    Operation,
}

impl Default for PlotType {
    fn default() -> (r: Self)
        ensures
            r == PlotType::FrequencyResponse,
    {
        PlotType::FrequencyResponse
    }
}

impl PlotType {
    /// The mode whose results the plot shows.
    pub open spec fn spec_mode(self) -> FilterMode {
        match self {
            PlotType::Operation => FilterMode::Operation,
            _ => FilterMode::Design,
        }
    }

    /// The mode whose results the plot shows.
    pub fn mode(self) -> (m: FilterMode)
        ensures
            m == self.spec_mode(),
    {
        match self {
            PlotType::FrequencyResponse
            | PlotType::PhaseResponse
            | PlotType::ImpulseResponse
            | PlotType::StepResponse => FilterMode::Design,
            PlotType::Operation => FilterMode::Operation,
        }
    }

    /// The message identifier of the plot's caption.
    pub open spec fn label_key(self) -> Seq<char> {
        match self {
            PlotType::FrequencyResponse => "plot-type-frequency"@,
            PlotType::PhaseResponse => "plot-type-phase"@,
            PlotType::ImpulseResponse => "plot-type-impulse"@,
            PlotType::StepResponse => "plot-type-step"@,
            PlotType::Operation => "plot-type-operation"@,
        }
    }

    /// The message identifier of the plot's caption, which the localisation
    /// catalogue turns into text.
    pub fn label(self) -> (key: String)
        ensures
            key@ == self.label_key(),
    {
        match self {
            PlotType::FrequencyResponse => String::from_str("plot-type-frequency"),
            PlotType::PhaseResponse => String::from_str("plot-type-phase"),
            PlotType::ImpulseResponse => String::from_str("plot-type-impulse"),
            PlotType::StepResponse => String::from_str("plot-type-step"),
            PlotType::Operation => String::from_str("plot-type-operation"),
        }
    }

    /// Whether the plot's horizontal axis is frequency rather than time.
    pub open spec fn spec_on_frequency_axis(self) -> bool {
        self == PlotType::FrequencyResponse || self == PlotType::PhaseResponse
    }

    /// The message identifier of the horizontal axis caption: frequency for
    /// the frequency and phase responses, time otherwise.
    pub fn x_axis_label(self) -> (key: String)
        ensures
            self.spec_on_frequency_axis() ==> key@ == "x-axis-frequency"@,
            !self.spec_on_frequency_axis() ==> key@ == "x-axis-time"@,
    {
        match self {
            PlotType::FrequencyResponse | PlotType::PhaseResponse => String::from_str(
                "x-axis-frequency",
            ),
            _ => String::from_str("x-axis-time"),
        }
    }
}

/// The signals of an operation-mode run.
#[derive(Clone, Copy, PartialEq, Eq, Debug, Structural)]
pub enum OperationSeries {
    /// Input signal.
    Input,
    /// Filter output.
    Output,
    /// Output corrected for the filter's delay.
    Corrected,
    /// Reference signal.
    Reference,
}

impl OperationSeries {
    /// The legend name of the signal.
    pub open spec fn spec_name(self) -> Seq<char> {
        match self {
            OperationSeries::Input => "x(t)"@,
            OperationSeries::Output => "y(t)"@,
            OperationSeries::Corrected => "z(t)"@,
            OperationSeries::Reference => "v(t)"@,
        }
    }

    /// The legend name of the signal.
    pub fn name(self) -> (n: &'static str)
        ensures
            n@ == self.spec_name(),
    {
        match self {
            OperationSeries::Input => "x(t)",
            OperationSeries::Output => "y(t)",
            OperationSeries::Corrected => "z(t)",
            OperationSeries::Reference => "v(t)",
        }
    }
}

/// The plot lines whose look the user can set.
#[derive(Clone, Copy, PartialEq, Eq, Debug, Structural)]
pub enum LineId {
    /// Magnitude response.
    DesignFrequency,
    /// Phase response.
    DesignPhase,
    /// Impulse response.
    DesignImpulse,
    /// Step response.
    DesignStep,
    /// Input signal of a run.
    OperationInput,
    /// Output signal of a run.
    OperationOutput,
    /// Corrected output of a run.
    OperationCorrected,
    /// Reference signal of a run.
    OperationReference,
}

impl LineId {
    /// The message identifier of the line's caption.
    pub open spec fn label_key(self) -> Seq<char> {
        match self {
            LineId::DesignFrequency => "line-design-frequency"@,
            LineId::DesignPhase => "line-design-phase"@,
            LineId::DesignImpulse => "line-design-impulse"@,
            LineId::DesignStep => "line-design-step"@,
            LineId::OperationInput => "line-operation-input"@,
            LineId::OperationOutput => "line-operation-output"@,
            LineId::OperationCorrected => "line-operation-corrected"@,
            LineId::OperationReference => "line-operation-reference"@,
        }
    }

    /// The message identifier of the line's caption, which the localisation
    /// catalogue turns into text.
    pub fn label(self) -> (key: String)
        ensures
            key@ == self.label_key(),
    {
        match self {
            LineId::DesignFrequency => String::from_str("line-design-frequency"),
            LineId::DesignPhase => String::from_str("line-design-phase"),
            LineId::DesignImpulse => String::from_str("line-design-impulse"),
            LineId::DesignStep => String::from_str("line-design-step"),
            LineId::OperationInput => String::from_str("line-operation-input"),
            LineId::OperationOutput => String::from_str("line-operation-output"),
            LineId::OperationCorrected => String::from_str("line-operation-corrected"),
            LineId::OperationReference => String::from_str("line-operation-reference"),
        }
    }

    /// The palette colour a line starts with: the four design lines and the
    /// four signals of a run each take the first four colours in order.
    pub open spec fn spec_default_color_index(self) -> int {
        match self {
            LineId::DesignFrequency => 0,
            LineId::DesignPhase => 1,
            LineId::DesignImpulse => 2,
            LineId::DesignStep => 3,
            LineId::OperationInput => 0,
            LineId::OperationOutput => 1,
            LineId::OperationCorrected => 2,
            LineId::OperationReference => 3,
        }
    }

    /// The palette colour a line starts with.
    pub fn default_color_index(self) -> (i: usize)
        ensures
            i == self.spec_default_color_index(),
    {
        match self {
            LineId::DesignFrequency => 0,
            LineId::DesignPhase => 1,
            LineId::DesignImpulse => 2,
            LineId::DesignStep => 3,
            LineId::OperationInput => 0,
            LineId::OperationOutput => 1,
            LineId::OperationCorrected => 2,
            LineId::OperationReference => 3,
        }
    }
}

/// How a plot line is drawn.
#[derive(Clone, Copy, PartialEq, Eq, Debug, Structural)]
pub enum LineDrawStyle {
    /// A continuous line.
    Solid,
    /// A dotted line.
    Dotted,
    /// A dashed line.
    Dashed,
}

impl LineDrawStyle {
    /// The message identifier of the style's caption.
    pub open spec fn label_key(self) -> Seq<char> {
        match self {
            LineDrawStyle::Solid => "option-line-solid"@,
            LineDrawStyle::Dotted => "option-line-dotted"@,
            LineDrawStyle::Dashed => "option-line-dashed"@,
        }
    }

    /// The message identifier of the style's caption, which the localisation
    /// catalogue turns into text.
    pub fn label(self) -> (key: String)
        ensures
            key@ == self.label_key(),
    {
        match self {
            LineDrawStyle::Solid => String::from_str("option-line-solid"),
            LineDrawStyle::Dotted => String::from_str("option-line-dotted"),
            LineDrawStyle::Dashed => String::from_str("option-line-dashed"),
        }
    }
}

/// A change of the plot's zoom requested by the user.
#[derive(Clone, Copy, PartialEq, Eq, Debug, Structural)]
pub enum PlotScaleAction {
    /// Zoom out.
    Downscale,
    /// Fit the plot to its data.
    Fit,
    /// Zoom in.
    Upscale,
}

impl PlotScaleAction {
    /// The zoom change the buttons of the scale row stand for: left zooms
    /// out, the middle one fits, right zooms in.
    pub fn from_button(action: TripleButtonAction) -> (r: PlotScaleAction)
        ensures
            action == TripleButtonAction::Left ==> r == PlotScaleAction::Downscale,
            action == TripleButtonAction::Center ==> r == PlotScaleAction::Fit,
            action == TripleButtonAction::Right ==> r == PlotScaleAction::Upscale,
    {
        match action {
            TripleButtonAction::Left => PlotScaleAction::Downscale,
            TripleButtonAction::Center => PlotScaleAction::Fit,
            TripleButtonAction::Right => PlotScaleAction::Upscale,
        }
    }
}

/// The palette entry used for a colour index: the index itself, or the last
/// entry when the index is past the end.
pub fn palette_index(color_index: usize, palette_len: usize) -> (i: usize)
    ensures
        palette_len == 0 ==> i == 0,
        palette_len > 0 && color_index < palette_len ==> i == color_index,
        palette_len > 0 && color_index >= palette_len ==> i == palette_len - 1,
{
    let last = if palette_len == 0 {
        0
    } else {
        palette_len - 1
    };
    if color_index < last {
        color_index
    } else {
        last
    }
}

/// The design plot that shows a filter's time response: the impulse
/// response of the non-recursive filter, the step response of the recursive
/// one.
pub open spec fn time_response_plot(filter_type: FilterType) -> PlotType {
    match filter_type {
        FilterType::NonRecursive => PlotType::ImpulseResponse,
        FilterType::Recursive => PlotType::StepResponse,
    }
}

/// Whether a plot can show the results of a run of the given mode and
/// implementation.
pub open spec fn plot_fits(plot_type: PlotType, mode: FilterMode, filter_type: FilterType) -> bool {
    match mode {
        FilterMode::Operation => plot_type == PlotType::Operation,
        FilterMode::Design => {
            ||| plot_type == PlotType::FrequencyResponse
            ||| plot_type == PlotType::PhaseResponse
            ||| plot_type == time_response_plot(filter_type)
        },
    }
}

/// The plot shown for results of the given mode and implementation: the
/// operation plot in operation mode; in design mode the chosen plot, with
/// the operation plot replaced by the magnitude response and a time response
/// replaced by the one the implementation has.
pub open spec fn normalized_plot(
    plot_type: PlotType,
    mode: FilterMode,
    filter_type: FilterType,
) -> PlotType {
    match mode {
        FilterMode::Operation => PlotType::Operation,
        FilterMode::Design => match plot_type {
            PlotType::Operation => PlotType::FrequencyResponse,
            PlotType::ImpulseResponse | PlotType::StepResponse => time_response_plot(filter_type),
            _ => plot_type,
        },
    }
}

/// Brings the chosen plot in line with the results on display. The second
/// component says whether the plot changed, in which case its view must be
/// reset.
pub fn normalize_plot_type(plot_type: PlotType, mode: FilterMode, filter_type: FilterType) -> (res: (
    PlotType,
    bool,
))
    ensures
        res.0 == normalized_plot(plot_type, mode, filter_type),
        res.1 == (res.0 != plot_type),
        mode == FilterMode::Design && plot_type == PlotType::Operation ==> res.0
            == PlotType::FrequencyResponse,
        mode == FilterMode::Design && (plot_type == PlotType::FrequencyResponse || plot_type
            == PlotType::PhaseResponse) ==> res.0 == plot_type,
        mode == FilterMode::Operation ==> res.0 == PlotType::Operation,
{
    let mut current = plot_type;
    let mut changed = false;
    let design = match mode {
        FilterMode::Design => true,
        FilterMode::Operation => false,
    };
    if design {
        if let PlotType::Operation = current {
            current = PlotType::FrequencyResponse;
            changed = true;
        }
    } else {
        match current.mode() {
            FilterMode::Design => {
                current = PlotType::Operation;
                changed = true;
            },
            FilterMode::Operation => {},
        }
    }
    match (filter_type, current) {
        (FilterType::NonRecursive, PlotType::StepResponse) => {
            current = PlotType::ImpulseResponse;
            changed = true;
        },
        (FilterType::Recursive, PlotType::ImpulseResponse) => {
            current = PlotType::StepResponse;
            changed = true;
        },
        _ => {},
    }
    (current, changed)
}

/// The plots offered in design mode: magnitude, phase and the time response
/// of the implementation.
pub fn plot_type_choices(filter_type: FilterType) -> (choices: Vec<PlotType>)
    ensures
        choices@ == seq![
            PlotType::FrequencyResponse,
            PlotType::PhaseResponse,
            time_response_plot(filter_type),
        ],
{
    let time_plot = match filter_type {
        FilterType::NonRecursive => PlotType::ImpulseResponse,
        FilterType::Recursive => PlotType::StepResponse,
    };
    vec![PlotType::FrequencyResponse, PlotType::PhaseResponse, time_plot]
}

/// The design table that lists a filter's time response.
pub open spec fn time_response_table(filter_type: FilterType) -> ValueTableType {
    match filter_type {
        FilterType::NonRecursive => ValueTableType::Impulse,
        FilterType::Recursive => ValueTableType::Step,
    }
}

/// The table shown for the implementation: a time-response table is replaced
/// by the one the implementation has; the frequency table stays.
pub open spec fn normalized_table(table_type: ValueTableType, filter_type: FilterType) -> ValueTableType {
    match table_type {
        ValueTableType::Frequency => ValueTableType::Frequency,
        _ => time_response_table(filter_type),
    }
}

/// Brings the chosen table in line with the implementation.
pub fn normalize_table_type(table_type: ValueTableType, filter_type: FilterType) -> (t:
    ValueTableType)
    ensures
        t == normalized_table(table_type, filter_type),
{
    match (filter_type, table_type) {
        (FilterType::NonRecursive, ValueTableType::Step) => ValueTableType::Impulse,
        (FilterType::Recursive, ValueTableType::Impulse) => ValueTableType::Step,
        _ => table_type,
    }
}

/// The tables offered in design mode: the frequency table and the time
/// response table of the implementation.
pub fn table_type_choices(filter_type: FilterType) -> (choices: Vec<ValueTableType>)
    ensures
        choices@ == seq![ValueTableType::Frequency, time_response_table(filter_type)],
{
    let time_table = match filter_type {
        FilterType::NonRecursive => ValueTableType::Impulse,
        FilterType::Recursive => ValueTableType::Step,
    };
    vec![ValueTableType::Frequency, time_table]
}

/// The table listed and written out as CSV.
#[derive(Clone, Copy, PartialEq, Eq, Debug, Structural)]
pub enum TableKind {
    /// Frequency, magnitude and phase.
    Frequency,
    /// Impulse response.
    Impulse,
    /// Step response.
    Step,
    /// Input and output signals of a run.
    Operation,
}

/// The table for results of a mode: the run's signals in operation mode,
/// the chosen table in design mode.
pub fn table_kind(mode: FilterMode, table_type: ValueTableType) -> (k: TableKind)
    ensures
        mode == FilterMode::Operation ==> k == TableKind::Operation,
        mode == FilterMode::Design && table_type == ValueTableType::Frequency ==> k
            == TableKind::Frequency,
        mode == FilterMode::Design && table_type == ValueTableType::Impulse ==> k
            == TableKind::Impulse,
        mode == FilterMode::Design && table_type == ValueTableType::Step ==> k == TableKind::Step,
{
    match mode {
        FilterMode::Operation => TableKind::Operation,
        FilterMode::Design => match table_type {
            ValueTableType::Frequency => TableKind::Frequency,
            ValueTableType::Impulse => TableKind::Impulse,
            ValueTableType::Step => TableKind::Step,
        },
    }
}

/// Which signals of a run are drawn.
#[derive(Clone, Copy, PartialEq, Eq, Debug)]
pub struct SignalVisibility {
    /// The input signal.
    pub input: bool,
    /// The filter output.
    pub output: bool,
    /// The corrected output.
    pub corrected: bool,
    /// The reference signal.
    pub reference: bool,
}

impl SignalVisibility {
    /// Whether a line is drawn: a run's signal when its switch is on, a design
    /// line always.
    pub open spec fn shows(self, id: LineId) -> bool {
        match id {
            LineId::OperationInput => self.input,
            LineId::OperationOutput => self.output,
            LineId::OperationCorrected => self.corrected,
            LineId::OperationReference => self.reference,
            _ => true,
        }
    }

    /// Every signal drawn.
    pub fn all_shown() -> (v: Self)
        ensures
            v.input && v.output && v.corrected && v.reference,
    {
        SignalVisibility { input: true, output: true, corrected: true, reference: true }
    }

    /// Whether a line is drawn.
    pub fn line_visible(&self, id: LineId) -> (b: bool)
        ensures
            b == self.shows(id),
            id == LineId::OperationInput ==> b == self.input,
            id == LineId::OperationOutput ==> b == self.output,
            id == LineId::OperationCorrected ==> b == self.corrected,
            id == LineId::OperationReference ==> b == self.reference,
    {
        match id {
            LineId::OperationInput => self.input,
            LineId::OperationOutput => self.output,
            LineId::OperationCorrected => self.corrected,
            LineId::OperationReference => self.reference,
            _ => true,
        }
    }

    /// Whether a line has a switch: the signals of a run do, design lines do
    /// not.
    pub open spec fn has_switch(id: LineId) -> bool {
        match id {
            LineId::OperationInput
            | LineId::OperationOutput
            | LineId::OperationCorrected
            | LineId::OperationReference => true,
            _ => false,
        }
    }

    /// Turns a signal's switch to `visible`; a design line has no switch and
    /// nothing changes. Returns whether the line has a switch.
    pub fn set_line_visible(&mut self, id: LineId, visible: bool) -> (has_switch: bool)
        ensures
            has_switch == Self::has_switch(id),
            has_switch ==> final(self).shows(id) == visible,
            !has_switch ==> *final(self) == *old(self),
            forall|other: LineId| other != id ==> final(self).shows(other) == old(self).shows(other),
            id == LineId::OperationInput ==> *final(self) == (SignalVisibility { input: visible, ..*old(self) }),
            id == LineId::OperationOutput ==> *final(self) == (SignalVisibility { output: visible, ..*old(self) }),
            id == LineId::OperationCorrected ==> *final(self) == (SignalVisibility { corrected: visible, ..*old(self) }),
            id == LineId::OperationReference ==> *final(self) == (SignalVisibility { reference: visible, ..*old(self) }),
    {
        match id {
            LineId::OperationInput => {
                self.input = visible;
                true
            },
            LineId::OperationOutput => {
                self.output = visible;
                true
            },
            LineId::OperationCorrected => {
                self.corrected = visible;
                true
            },
            LineId::OperationReference => {
                self.reference = visible;
                true
            },
            _ => false,
        }
    }
}

/// The four signals of a run, in drawing order.
pub open spec fn operation_lines() -> Seq<LineId> {
    seq![
        LineId::OperationInput,
        LineId::OperationOutput,
        LineId::OperationCorrected,
        LineId::OperationReference,
    ]
}

/// The four signals of a run, in drawing order.
pub fn operation_line_ids() -> (ids: Vec<LineId>)
    ensures
        ids@ == operation_lines(),
{
    vec![
        LineId::OperationInput,
        LineId::OperationOutput,
        LineId::OperationCorrected,
        LineId::OperationReference,
    ]
}

/// The line of a design plot; the operation plot, not a design plot, falls
/// back to the implementation's time response.
pub open spec fn design_line(plot_type: PlotType, filter_type: FilterType) -> LineId {
    match plot_type {
        PlotType::FrequencyResponse => LineId::DesignFrequency,
        PlotType::PhaseResponse => LineId::DesignPhase,
        PlotType::ImpulseResponse => LineId::DesignImpulse,
        PlotType::StepResponse => LineId::DesignStep,
        PlotType::Operation => match filter_type {
            FilterType::NonRecursive => LineId::DesignImpulse,
            FilterType::Recursive => LineId::DesignStep,
        },
    }
}

/// The run's signals whose switches are on, in drawing order.
pub open spec fn visible_operation_lines(v: SignalVisibility) -> Seq<LineId> {
    (if v.input {
        seq![LineId::OperationInput]
    } else {
        Seq::empty()
    }) + (if v.output {
        seq![LineId::OperationOutput]
    } else {
        Seq::empty()
    }) + (if v.corrected {
        seq![LineId::OperationCorrected]
    } else {
        Seq::empty()
    }) + (if v.reference {
        seq![LineId::OperationReference]
    } else {
        Seq::empty()
    })
}

/// The lines drawn: the one line of the design plot, or the run's signals
/// that are switched on.
pub open spec fn active_lines(
    plot_type: PlotType,
    visibility: SignalVisibility,
    mode: FilterMode,
    filter_type: FilterType,
) -> Seq<LineId> {
    match mode {
        FilterMode::Design => seq![design_line(plot_type, filter_type)],
        FilterMode::Operation => visible_operation_lines(visibility),
    }
}

/// The lines drawn for results of the given mode and implementation.
pub fn active_line_ids(
    plot_type: PlotType,
    visibility: &SignalVisibility,
    mode: FilterMode,
    filter_type: FilterType,
) -> (ids: Vec<LineId>)
    ensures
        ids@ == active_lines(plot_type, *visibility, mode, filter_type),
{
    match mode {
        FilterMode::Design => {
            let id = match plot_type {
                PlotType::FrequencyResponse => LineId::DesignFrequency,
                PlotType::PhaseResponse => LineId::DesignPhase,
                PlotType::ImpulseResponse => LineId::DesignImpulse,
                PlotType::StepResponse => LineId::DesignStep,
                PlotType::Operation => match filter_type {
                    FilterType::NonRecursive => LineId::DesignImpulse,
                    FilterType::Recursive => LineId::DesignStep,
                },
            };
            vec![id]
        },
        FilterMode::Operation => {
            let all = operation_line_ids();
            let mut ids: Vec<LineId> = Vec::new();
            let ghost v = *visibility;
            for i in 0..all.len()
                invariant
                    all@ == operation_lines(),
                    v == *visibility,
                    ids@ == visible_prefix(v, i as int),
            {
                let id = all[i];
                if visibility.line_visible(id) {
                    ids.push(id);
                }
                proof {
                    reveal_with_fuel(visible_prefix, 5);
                }
            }
            proof {
                reveal_with_fuel(visible_prefix, 5);
                assert(ids@ =~= visible_operation_lines(v));
            }
            ids
        },
    }
}

/// The run's signals among the first `n` whose switches are on.
pub open spec fn visible_prefix(v: SignalVisibility, n: int) -> Seq<LineId>
    decreases n,
{
    if n <= 0 {
        Seq::empty()
    } else {
        let id = operation_lines()[n - 1];
        if v.shows(id) {
            visible_prefix(v, n - 1).push(id)
        } else {
            visible_prefix(v, n - 1)
        }
    }
}

/// The lines whose look can be set: the drawn design line, or all four
/// signals of a run whether drawn or not.
pub fn line_customization_ids(
    plot_type: PlotType,
    visibility: &SignalVisibility,
    mode: FilterMode,
    filter_type: FilterType,
) -> (ids: Vec<LineId>)
    ensures
        mode == FilterMode::Design ==> ids@ == active_lines(plot_type, *visibility, mode, filter_type),
        mode == FilterMode::Operation ==> ids@ == operation_lines(),
{
    match mode {
        FilterMode::Design => active_line_ids(plot_type, visibility, mode, filter_type),
        FilterMode::Operation => operation_line_ids(),
    }
}

/// Normalising the plot gives a plot of the results' mode that can show
/// them; a plot that already can stays; and normalising twice changes
/// nothing more than once.
pub proof fn lemma_normalized_plot_fits(plot_type: PlotType, mode: FilterMode, filter_type: FilterType)
    ensures
        plot_fits(normalized_plot(plot_type, mode, filter_type), mode, filter_type),
        normalized_plot(plot_type, mode, filter_type).spec_mode() == mode,
        plot_fits(plot_type, mode, filter_type) ==> normalized_plot(plot_type, mode, filter_type)
            == plot_type,
        normalized_plot(normalized_plot(plot_type, mode, filter_type), mode, filter_type)
            == normalized_plot(plot_type, mode, filter_type),
{
}

/// In design mode the normalised plot is one of the plots offered, and every
/// plot offered is left as it is.
pub proof fn lemma_plot_choices_are_normal(plot_type: PlotType, filter_type: FilterType, i: int)
    requires
        0 <= i < 3,
    ensures
        seq![
            PlotType::FrequencyResponse,
            PlotType::PhaseResponse,
            time_response_plot(filter_type),
        ].contains(normalized_plot(plot_type, FilterMode::Design, filter_type)),
        ({
            let choice = seq![
                PlotType::FrequencyResponse,
                PlotType::PhaseResponse,
                time_response_plot(filter_type),
            ][i];
            normalized_plot(choice, FilterMode::Design, filter_type) == choice
        }),
{
    let choices = seq![
        PlotType::FrequencyResponse,
        PlotType::PhaseResponse,
        time_response_plot(filter_type),
    ];
    let n = normalized_plot(plot_type, FilterMode::Design, filter_type);
    if n == PlotType::FrequencyResponse {
        assert(choices[0] == n);
    } else if n == PlotType::PhaseResponse {
        assert(choices[1] == n);
    } else {
        assert(choices[2] == n);
    }
}

/// The normalised table is one of the tables offered, a table offered is
/// left as it is, and normalising twice changes nothing more than once.
pub proof fn lemma_table_choices_are_normal(table_type: ValueTableType, filter_type: FilterType)
    ensures
        seq![ValueTableType::Frequency, time_response_table(filter_type)].contains(
            normalized_table(table_type, filter_type),
        ),
        normalized_table(ValueTableType::Frequency, filter_type) == ValueTableType::Frequency,
        normalized_table(time_response_table(filter_type), filter_type) == time_response_table(
            filter_type,
        ),
        normalized_table(normalized_table(table_type, filter_type), filter_type)
            == normalized_table(table_type, filter_type),
{
    let choices = seq![ValueTableType::Frequency, time_response_table(filter_type)];
    let n = normalized_table(table_type, filter_type);
    if n == ValueTableType::Frequency {
        assert(choices[0] == n);
    } else {
        assert(choices[1] == n);
    }
}

/// Every line drawn is one whose look can be set, and every signal of a run
/// that is drawn is switched on.
pub proof fn lemma_active_lines_customizable(
    plot_type: PlotType,
    visibility: SignalVisibility,
    mode: FilterMode,
    filter_type: FilterType,
    i: int,
)
    requires
        0 <= i < active_lines(plot_type, visibility, mode, filter_type).len(),
    ensures
        mode == FilterMode::Operation ==> operation_lines().contains(
            active_lines(plot_type, visibility, mode, filter_type)[i],
        ),
        visibility.shows(active_lines(plot_type, visibility, mode, filter_type)[i]),
{
    let id = active_lines(plot_type, visibility, mode, filter_type)[i];
    if mode == FilterMode::Operation {
        let ops = operation_lines();
        if id == LineId::OperationInput {
            assert(ops[0] == id);
        } else if id == LineId::OperationOutput {
            assert(ops[1] == id);
        } else if id == LineId::OperationCorrected {
            assert(ops[2] == id);
        } else {
            assert(ops[3] == id);
        }
    }
}

/// Switching back to design mode from the operation plot shows the
/// magnitude response, whatever the implementation; in operation mode the
/// operation plot is shown whatever was chosen; in design mode the magnitude
/// and phase responses are kept.
pub proof fn lemma_plot_on_mode_switch(plot_type: PlotType, filter_type: FilterType)
    ensures
        normalized_plot(PlotType::Operation, FilterMode::Design, filter_type)
            == PlotType::FrequencyResponse,
        normalized_plot(plot_type, FilterMode::Operation, filter_type) == PlotType::Operation,
        normalized_plot(PlotType::FrequencyResponse, FilterMode::Design, filter_type)
            == PlotType::FrequencyResponse,
        normalized_plot(PlotType::PhaseResponse, FilterMode::Design, filter_type)
            == PlotType::PhaseResponse,
        normalized_plot(PlotType::ImpulseResponse, FilterMode::Design, filter_type)
            == time_response_plot(filter_type),
        normalized_plot(PlotType::StepResponse, FilterMode::Design, filter_type)
            == time_response_plot(filter_type),
        time_response_plot(FilterType::NonRecursive) == PlotType::ImpulseResponse,
        time_response_plot(FilterType::Recursive) == PlotType::StepResponse,
{
}

/// Each signal of a run is governed by its own switch: it is drawn exactly
/// when that switch is on, and design lines are always drawn.
pub proof fn lemma_each_signal_has_its_own_switch(v: SignalVisibility)
    ensures
        v.shows(LineId::OperationInput) == v.input,
        v.shows(LineId::OperationOutput) == v.output,
        v.shows(LineId::OperationCorrected) == v.corrected,
        v.shows(LineId::OperationReference) == v.reference,
        v.shows(LineId::DesignFrequency) && v.shows(LineId::DesignPhase) && v.shows(
            LineId::DesignImpulse,
        ) && v.shows(LineId::DesignStep),
{
}

/// In operation mode a signal's line is among those drawn exactly when its
/// switch is on, and the lines come in the order input, output, corrected,
/// reference.
pub proof fn lemma_drawn_signals_follow_switches(
    plot_type: PlotType,
    v: SignalVisibility,
    filter_type: FilterType,
)
    ensures
        ({
            let lines = active_lines(plot_type, v, FilterMode::Operation, filter_type);
            &&& lines.contains(LineId::OperationInput) == v.input
            &&& lines.contains(LineId::OperationOutput) == v.output
            &&& lines.contains(LineId::OperationCorrected) == v.corrected
            &&& lines.contains(LineId::OperationReference) == v.reference
            &&& lines.len() == (if v.input { 1int } else { 0 }) + (if v.output { 1int } else { 0 })
                + (if v.corrected { 1int } else { 0 }) + (if v.reference { 1int } else { 0 })
            &&& v.input ==> lines[0] == LineId::OperationInput
            &&& v.reference ==> lines[lines.len() - 1] == LineId::OperationReference
        }),
{
    let lines = active_lines(plot_type, v, FilterMode::Operation, filter_type);
    let a = if v.input { seq![LineId::OperationInput] } else { Seq::<LineId>::empty() };
    let b = if v.output { seq![LineId::OperationOutput] } else { Seq::<LineId>::empty() };
    let c = if v.corrected { seq![LineId::OperationCorrected] } else { Seq::<LineId>::empty() };
    let d = if v.reference { seq![LineId::OperationReference] } else { Seq::<LineId>::empty() };
    assert(lines == a + b + c + d);
    let ids = seq![
        LineId::OperationInput,
        LineId::OperationOutput,
        LineId::OperationCorrected,
        LineId::OperationReference,
    ];
    assert forall|k: int| 0 <= k < 4 implies lines.contains(#[trigger] ids[k]) == v.shows(ids[k]) by {
        let id = ids[k];
        if v.shows(id) {
            let i = (if v.input && id != LineId::OperationInput { 1int } else { 0 }) + (if v.output
                && id != LineId::OperationInput && id != LineId::OperationOutput {
                1int
            } else {
                0
            }) + (if v.corrected && id == LineId::OperationReference {
                1int
            } else {
                0
            });
            assert(lines[i] == id);
        } else {
            assert forall|j: int| 0 <= j < lines.len() implies lines[j] != id by {
                assert(lines[j] == LineId::OperationInput ==> v.input);
            }
        }
    }
    assert(ids[0] == LineId::OperationInput);
    assert(ids[1] == LineId::OperationOutput);
    assert(ids[2] == LineId::OperationCorrected);
    assert(ids[3] == LineId::OperationReference);
}

/// The frequency table is always kept; the non-recursive filter never shows
/// the step table and the recursive one never the impulse table.
pub proof fn lemma_table_follows_implementation(table_type: ValueTableType)
    ensures
        normalized_table(ValueTableType::Frequency, FilterType::NonRecursive)
            == ValueTableType::Frequency,
        normalized_table(ValueTableType::Frequency, FilterType::Recursive)
            == ValueTableType::Frequency,
        normalized_table(table_type, FilterType::NonRecursive) != ValueTableType::Step,
        normalized_table(table_type, FilterType::Recursive) != ValueTableType::Impulse,
        table_type != ValueTableType::Frequency ==> normalized_table(
            table_type,
            FilterType::NonRecursive,
        ) == ValueTableType::Impulse,
        table_type != ValueTableType::Frequency ==> normalized_table(
            table_type,
            FilterType::Recursive,
        ) == ValueTableType::Step,
{
}

} // verus!
