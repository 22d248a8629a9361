use vstd::prelude::*;

verus! {

/// What the program computes: the filter's characteristics, or its response
/// to a model signal.
#[derive(Clone, Copy, PartialEq, Eq, Debug, Structural)]
pub enum FilterMode {
    /// Design mode: frequency and time characteristics of the filter.
    Design,
    /// Operation mode: the filter applied to a model signal.
    Operation,
}

impl FilterMode {
    /// The integer code of the mode (`IW` of the numeric core).
    pub open spec fn code(self) -> int {
        match self {
            FilterMode::Design => 0,
            FilterMode::Operation => 1,
        }
    }

    /// The integer code of the mode (`IW` of the numeric core).
    pub fn to_i32(self) -> (r: i32)
        ensures
            r == self.code(),
    {
        match self {
            FilterMode::Design => 0,
            FilterMode::Operation => 1,
        }
    }
}

impl Default for FilterMode {
    fn default() -> (r: Self)
        ensures
            r == FilterMode::Design,
    {
        FilterMode::Design
    }
}

/// How the filter is implemented (`IL` of the numeric core).
#[derive(Clone, Copy, PartialEq, Eq, Debug, Structural)]
pub enum FilterType {
    /// Non-recursive (finite impulse response) filter.
    NonRecursive,
    /// Recursive filter.
    Recursive,
}

impl FilterType {
    /// The integer code of the implementation (`IL` of the numeric core).
    pub open spec fn code(self) -> int {
        match self {
            FilterType::NonRecursive => 1,
            FilterType::Recursive => 2,
        }
    }

    /// The integer code of the implementation (`IL` of the numeric core).
    pub fn to_i32(self) -> (r: i32)
        ensures
            r == self.code(),
    {
        match self {
            FilterType::NonRecursive => 1,
            FilterType::Recursive => 2,
        }
    }
}

impl Default for FilterType {
    fn default() -> (r: Self)
        ensures
            r == FilterType::NonRecursive,
    {
        FilterType::NonRecursive
    }
}

/// The class of the filter (`IN` of the numeric core).
#[derive(Clone, Copy, PartialEq, Eq, Debug, Structural)]
pub enum FilterCategory {
    /// Low-pass filter.
    LowPass,
    /// Band-pass filter.
    BandPass,
    /// Band-stop filter.
    BandStop,
    /// High-pass filter.
    HighPass,
    /// Differentiating filter.
    Differentiating,
}

impl FilterCategory {
    /// The integer code of the class (`IN` of the numeric core).
    pub open spec fn code(self) -> int {
        match self {
            FilterCategory::LowPass => 1,
            FilterCategory::BandPass => 2,
            FilterCategory::BandStop => 3,
            FilterCategory::HighPass => 4,
            FilterCategory::Differentiating => 5,
        }
    }

    /// The integer code of the class (`IN` of the numeric core).
    pub fn to_i32(self) -> (r: i32)
        ensures
            r == self.code(),
    {
        match self {
            FilterCategory::LowPass => 1,
            FilterCategory::BandPass => 2,
            FilterCategory::BandStop => 3,
            FilterCategory::HighPass => 4,
            FilterCategory::Differentiating => 5,
        }
    }

    /// Whether the class passes or stops a band between two cut-off frequencies.
    pub open spec fn is_band(self) -> bool {
        self == FilterCategory::BandPass || self == FilterCategory::BandStop
    }
}

impl Default for FilterCategory {
    fn default() -> (r: Self)
        ensures
            r == FilterCategory::LowPass,
    {
        FilterCategory::LowPass
    }
}

/// The kind of model problem solved in operation mode.
#[derive(Clone, Copy, PartialEq, Eq, Debug, Structural)]
pub enum OperationModeType {
    /// Spectral analysis of a signal.
    SpectralAnalysis,
    /// Smoothing of a signal.
    Smoothing,
    /// Differentiation of a signal.
    Differentiating,
}

impl OperationModeType {
    /// The integer code of the problem kind.
    pub open spec fn code(self) -> int {
        match self {
            OperationModeType::SpectralAnalysis => 1,
            OperationModeType::Smoothing => 2,
            OperationModeType::Differentiating => 3,
        }
    }

    /// The integer code of the problem kind.
    pub fn to_i32(self) -> (r: i32)
        ensures
            r == self.code(),
    {
        match self {
            OperationModeType::SpectralAnalysis => 1,
            OperationModeType::Smoothing => 2,
            OperationModeType::Differentiating => 3,
        }
    }
}

impl Default for OperationModeType {
    fn default() -> (r: Self)
        ensures
            r == OperationModeType::SpectralAnalysis,
    {
        OperationModeType::SpectralAnalysis
    }
}

/// The model signal fed to the filter in spectral analysis.
#[derive(Clone, Copy, PartialEq, Eq, Debug, Structural)]
pub enum SignalType {
    /// x(t) = x1(t)
    X1,
    /// x(t) = x1(t) + x2(t)
    X1X2,
    /// x(t) = x1(t) + x3(t)
    X1X3,
    /// x(t) = x2(t)
    X2,
    /// x(t) = x2(t) + x3(t)
    X2X3,
    /// x(t) = x3(t)
    X3,
}

impl SignalType {
    /// The integer code of the signal.
    pub open spec fn code(self) -> int {
        match self {
            SignalType::X1 => 1,
            SignalType::X1X2 => 2,
            SignalType::X1X3 => 3,
            SignalType::X2 => 4,
            SignalType::X2X3 => 5,
            SignalType::X3 => 6,
        }
    }

    /// The integer code of the signal.
    pub fn to_i32(self) -> (r: i32)
        ensures
            r == self.code(),
    {
        match self {
            SignalType::X1 => 1,
            SignalType::X1X2 => 2,
            SignalType::X1X3 => 3,
            SignalType::X2 => 4,
            SignalType::X2X3 => 5,
            SignalType::X3 => 6,
        }
    }
}

impl Default for SignalType {
    fn default() -> (r: Self)
        ensures
            r == SignalType::X1,
    {
        SignalType::X1
    }
}

/// Different modes, implementations and classes have different codes, and
/// each code lies in the range the numeric core dispatches on: 0..=1 for the
/// mode, 1..=2 for the implementation, 1..=5 for the class.
pub proof fn lemma_codes_identify_parameters(
    m1: FilterMode,
    m2: FilterMode,
    t1: FilterType,
    t2: FilterType,
    c1: FilterCategory,
    c2: FilterCategory,
)
    ensures
        m1.code() == m2.code() <==> m1 == m2,
        t1.code() == t2.code() <==> t1 == t2,
        c1.code() == c2.code() <==> c1 == c2,
        0 <= m1.code() <= 1,
        1 <= t1.code() <= 2,
        1 <= c1.code() <= 5,
{
}

/// Different problem kinds and model signals have different codes, in 1..=3
/// and 1..=6.
pub proof fn lemma_codes_identify_operation(
    o1: OperationModeType,
    o2: OperationModeType,
    s1: SignalType,
    s2: SignalType,
)
    ensures
        o1.code() == o2.code() <==> o1 == o2,
        s1.code() == s2.code() <==> s1 == s2,
        1 <= o1.code() <= 3,
        1 <= s1.code() <= 6,
{
}

} // verus!
