use vstd::prelude::*;

verus! {

/// The model problem of operation mode (`IM` of the numeric core).
#[derive(Clone, Copy, PartialEq, Eq, Debug, Structural)]
pub enum Task {
    /// Spectral analysis of a sum of harmonics.
    SpecralAnalysis,
    /// Smoothing of a noisy signal.
    Convolution,
    /// Differentiation of a noisy signal.
    Differentiation,
}

impl Task {
    /// The integer code of the problem (`IM` of the numeric core).
    pub open spec fn code(self) -> int {
        match self {
            Task::SpecralAnalysis => 1,
            Task::Convolution => 2,
            Task::Differentiation => 3,
        }
    }

    /// The integer code of the problem (`IM` of the numeric core).
    pub fn to_i32(self) -> (r: i32)
        ensures
            r == self.code(),
    {
        match self {
            Task::SpecralAnalysis => 1,
            Task::Convolution => 2,
            Task::Differentiation => 3,
        }
    }
}

impl Default for Task {
    fn default() -> (r: Self)
        ensures
            r == Task::SpecralAnalysis,
    {
        Task::SpecralAnalysis
    }
}

/// The model signal of spectral analysis (`IV` of the numeric core): a sum
/// of the harmonics x₁, x₂, x₃.
#[derive(Clone, Copy, PartialEq, Eq, Debug, Structural)]
pub enum Signal {
    /// x₁(t)
    X1,
    /// x₁(t) + x₂(t)
    X1X2,
    /// x₁(t) + x₃(t)
    X1X3,
    /// x₂(t)
    X2,
    /// x₂(t) + x₃(t)
    X2X3,
    /// x₃(t)
    X3,
}

impl Signal {
    /// The integer code of the signal (`IV` of the numeric core).
    pub open spec fn code(self) -> int {
        match self {
            Signal::X1 => 1,
            Signal::X1X2 => 2,
            Signal::X1X3 => 3,
            Signal::X2 => 4,
            Signal::X2X3 => 5,
            Signal::X3 => 6,
        }
    }

    /// The integer code of the signal (`IV` of the numeric core).
    pub fn to_i32(self) -> (r: i32)
        ensures
            r == self.code(),
    {
        match self {
            Signal::X1 => 1,
            Signal::X1X2 => 2,
            Signal::X1X3 => 3,
            Signal::X2 => 4,
            Signal::X2X3 => 5,
            Signal::X3 => 6,
        }
    }

    /// The formula of the signal as displayed.
    pub open spec fn formula(self) -> Seq<char> {
        match self {
            Signal::X1 => "x₁(t)"@,
            Signal::X1X2 => "x₁(t)+x₂(t)"@,
            Signal::X1X3 => "x₁(t)+x₃(t)"@,
            Signal::X2 => "x₂(t)"@,
            Signal::X2X3 => "x₂(t)+x₃(t)"@,
            Signal::X3 => "x₃(t)"@,
        }
    }

    /// The formula of the signal as displayed, such as `x₁(t)+x₂(t)`.
    pub fn to_string(&self) -> (s: String)
        ensures
            s@ == self.formula(),
    {
        match self {
            Signal::X1 => String::from_str("x₁(t)"),
            Signal::X1X2 => String::from_str("x₁(t)+x₂(t)"),
            Signal::X1X3 => String::from_str("x₁(t)+x₃(t)"),
            Signal::X2 => String::from_str("x₂(t)"),
            Signal::X2X3 => String::from_str("x₂(t)+x₃(t)"),
            Signal::X3 => String::from_str("x₃(t)"),
        }
    }
}

impl Default for Signal {
    fn default() -> (r: Self)
        ensures
            r == Signal::X1,
    {
        Signal::X1
    }
}

/// Different problems and signals have different codes, in 1..=3 and 1..=6.
pub proof fn lemma_operation_codes(t1: Task, t2: Task, s1: Signal, s2: Signal)
    ensures
        t1.code() == t2.code() <==> t1 == t2,
        s1.code() == s2.code() <==> s1 == s2,
        1 <= t1.code() <= 3,
        1 <= s1.code() <= 6,
{
}

} // verus!
