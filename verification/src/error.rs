//! Why a conversion fails, and how an outcome is compared with what it is
//! meant to be.

use vstd::prelude::*;
use vstd::string::StringExecFns;

verus! {

/// Why a match record could not be rebuilt from its action log.
#[derive(Clone, Copy, Debug, PartialEq, Eq, Structural)]
pub enum ConvError {
    /// The log holds no table-setup action.
    NotFoundActionGO,
    /// The log holds no player-roster action.
    NotFoundActionUN1,
    /// A round holds neither a win nor a draw.
    NotFoundTerminalAction,
    /// The log holds no round-start action.
    NotFoundRound,
    /// No win or draw anywhere in the log.
    NotFoundFinalResult,
    /// A round's wins and draws do not form a supported outcome, or the last
    /// win or draw of the log lacks the final standings.
    InvalidRoundFormat,
    /// A raw tile code names no tile.
    InvalidTileFormat,
}

/// The outcome of a conversion.
pub type ConvResult<T> = Result<T, ConvError>;

/// The views of a sequence of values.
pub open spec fn views<T: View>(values: Seq<T>) -> Seq<T::V> {
    values.map_values(|value: T| value@)
}

/// Whether `result` is the outcome `expected`: the same error, or a value
/// with the expected view.
pub open spec fn agrees<T: View>(
    result: Result<T, ConvError>,
    expected: Result<T::V, ConvError>,
) -> bool {
    match result {
        Ok(value) => expected == Ok::<T::V, ConvError>(value@),
        Err(e) => expected == Err::<T::V, ConvError>(e),
    }
}

/// Whether `result` is the outcome `expected`: the same error, or values
/// with the expected views.
pub open spec fn agrees_each<T: View>(
    result: Result<Vec<T>, ConvError>,
    expected: Result<Seq<T::V>, ConvError>,
) -> bool {
    match result {
        Ok(values) => expected == Ok::<Seq<T::V>, ConvError>(views(values@)),
        Err(e) => expected == Err::<Seq<T::V>, ConvError>(e),
    }
}

impl ConvError {
    /// The text that describes this error to a user.
    pub open spec fn message_text(self) -> Seq<char> {
        match self {
            ConvError::NotFoundActionGO => "Action GO is not found"@,
            ConvError::NotFoundActionUN1 => "Action UN1 is not found"@,
            ConvError::NotFoundTerminalAction => "Terminal action is not found"@,
            ConvError::NotFoundRound => "Round is not found"@,
            ConvError::NotFoundFinalResult => "FinalResult is not found"@,
            ConvError::InvalidRoundFormat => "Invalid round format"@,
            ConvError::InvalidTileFormat => "Invalid tile format"@,
        }
    }

    /// Describes the error to a user.
    pub fn message(&self) -> (text: String)
        ensures
            text@ == self.message_text(),
    {
        match self {
            ConvError::NotFoundActionGO => String::from_str("Action GO is not found"),
            ConvError::NotFoundActionUN1 => String::from_str("Action UN1 is not found"),
            ConvError::NotFoundTerminalAction => String::from_str("Terminal action is not found"),
            ConvError::NotFoundRound => String::from_str("Round is not found"),
            ConvError::NotFoundFinalResult => String::from_str("FinalResult is not found"),
            ConvError::InvalidRoundFormat => String::from_str("Invalid round format"),
            ConvError::InvalidTileFormat => String::from_str("Invalid tile format"),
        }
    }
}

} // verus!
