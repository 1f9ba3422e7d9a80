//! The error type shared by every constructor and evaluator.
use vstd::prelude::*;

verus! {

/// Everything that construction or evaluation can report.
#[derive(Debug, Clone, PartialEq)]
pub enum ChemEngProcessControlSimulatorError {
    /// An error described only by its text.
    GenericStringError(String),
    /// A time constant, damping factor, decay rate or oscillation frequency
    /// that must be strictly positive is not.
    UnstableDampingFactorForStableTransferFunction,
    /// A generic transfer function does not hold the requested kind.
    WrongTransferFnType,
    /// The coefficients select a regime for which no closed form is provided
    /// (unstable, undamped, or overdamped with zeroes).
    UnimplementedRegime,
    /// An exact intermediate or result cannot be stored in billionths in an `i64`.
    ValueOutOfRange,
}

/// What a constructor or an evaluator returns.
pub type SimulatorResult<T> = Result<T, ChemEngProcessControlSimulatorError>;

impl ChemEngProcessControlSimulatorError {
    /// The text that describes the error.
    pub open spec fn text(self) -> Seq<char> {
        match self {
            ChemEngProcessControlSimulatorError::GenericStringError(s) => s@,
            ChemEngProcessControlSimulatorError::UnstableDampingFactorForStableTransferFunction =>
                "unstable damping factor"@,
            ChemEngProcessControlSimulatorError::WrongTransferFnType =>
                "wrong transfer function type"@,
            ChemEngProcessControlSimulatorError::UnimplementedRegime => "unimplemented regime"@,
            ChemEngProcessControlSimulatorError::ValueOutOfRange => "value out of range"@,
        }
    }

    /// Wraps a text as an error.
    pub fn from_string(value: String) -> (e: Self)
        ensures
            e == ChemEngProcessControlSimulatorError::GenericStringError(value),
    {
        ChemEngProcessControlSimulatorError::GenericStringError(value)
    }

    /// Turns the error into the text that describes it.
    pub fn into_string(self) -> (s: String)
        ensures
            s@ == self.text(),
    {
        match self {
            ChemEngProcessControlSimulatorError::GenericStringError(string) => string,
            ChemEngProcessControlSimulatorError::UnstableDampingFactorForStableTransferFunction =>
                "unstable damping factor".to_owned(),
            ChemEngProcessControlSimulatorError::WrongTransferFnType =>
                "wrong transfer function type".to_owned(),
            ChemEngProcessControlSimulatorError::UnimplementedRegime =>
                "unimplemented regime".to_owned(),
            ChemEngProcessControlSimulatorError::ValueOutOfRange => "value out of range".to_owned(),
        }
    }
}

/// The failure that reports a value out of range.
pub open spec fn out_of_range<T>() -> SimulatorResult<T> {
    Err(ChemEngProcessControlSimulatorError::ValueOutOfRange)
}

/// The failure that reports a parameter that must be positive and is not.
pub open spec fn unstable<T>() -> SimulatorResult<T> {
    Err(ChemEngProcessControlSimulatorError::UnstableDampingFactorForStableTransferFunction)
}

/// The failure that reports a regime without a closed form.
pub open spec fn unimplemented_regime<T>() -> SimulatorResult<T> {
    Err(ChemEngProcessControlSimulatorError::UnimplementedRegime)
}

/// Maps a missing stored value to the range error.
pub fn in_range(value: Option<i64>) -> (r: SimulatorResult<i64>)
    ensures
        value matches Some(v) ==> r == Ok::<i64, ChemEngProcessControlSimulatorError>(v),
        value.is_none() ==> r == out_of_range::<i64>(),
{
    match value {
        Some(v) => Ok(v),
        None => Err(ChemEngProcessControlSimulatorError::ValueOutOfRange),
    }
}

/// Maps a missing value to the range error.
pub fn in_range_of<T>(value: Option<T>) -> (r: SimulatorResult<T>)
    ensures
        value matches Some(v) ==> r == Ok::<T, ChemEngProcessControlSimulatorError>(v),
        value is None ==> r == out_of_range::<T>(),
{
    match value {
        Some(v) => Ok(v),
        None => Err(ChemEngProcessControlSimulatorError::ValueOutOfRange),
    }
}

impl From<String> for ChemEngProcessControlSimulatorError {
    fn from(value: String) -> (e: ChemEngProcessControlSimulatorError) {
        ChemEngProcessControlSimulatorError::GenericStringError(value)
    }
}

impl vstd::std_specs::convert::FromSpecImpl<String> for ChemEngProcessControlSimulatorError {
    open spec fn obeys_from_spec() -> bool {
        true
    }

    open spec fn from_spec(value: String) -> ChemEngProcessControlSimulatorError {
        ChemEngProcessControlSimulatorError::GenericStringError(value)
    }
}

} // verus!
