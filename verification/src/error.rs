//! Why a run was given up.

use vstd::prelude::*;
use vstd::string::StringExecFns;
use crate::decimal::{decimal, format_decimal};

verus! {

/// Every way in which a run can fail. Each one ends the run.
#[derive(Debug, PartialEq, Eq)]
pub enum SplitError {
    /// The input file could not be read.
    InputReadError { message: String },
    /// The input is not JSON.
    InputParseError { message: String },
    /// The input is JSON, but no array.
    InputShapeError,
    /// The element at `index` holds no string under the nested field.
    NestedFieldMissingOrInvalid { index: usize },
    /// The nested string of the element at `index` is not JSON.
    NestedParseError { index: usize, message: String },
    /// Only `actual` of `expected` elements yielded a nested document.
    ExtractionCountMismatch { expected: usize, actual: usize },
    /// No file name could be derived for the element at `index`.
    FilenameDerivationFailed { index: usize },
    /// Only `actual` of `expected` elements yielded a file name.
    NamingCountMismatch { expected: usize, actual: usize },
    /// The file to write is already there.
    OutputFileExists { filename: String },
    /// The file could not be created or written.
    OutputWriteError { filename: String, message: String },
}

impl SplitError {
    /// The line that tells the operator what went wrong.
    pub open spec fn spec_message(self) -> Seq<char> {
        match self {
            SplitError::InputReadError { message } => {
                "Could not read input file: "@ + message@
            },
            SplitError::InputParseError { message } => {
                "Could not parse file contents as JSON: "@ + message@
            },
            SplitError::InputShapeError => "Expected to find array of objects"@,
            SplitError::NestedFieldMissingOrInvalid { index } => {
                "No string under the nested field in element "@ + decimal(index as nat)
            },
            SplitError::NestedParseError { index, message } => {
                "Error while parsing nested field as JSON, "@ + message@
            },
            SplitError::ExtractionCountMismatch { expected, actual } => {
                "Could not apply field to each element in array. Only "@ + decimal(actual as nat)
                    + ", expected "@ + decimal(expected as nat)
            },
            SplitError::FilenameDerivationFailed { index } => {
                "Could not derive a file name for element "@ + decimal(index as nat)
            },
            SplitError::NamingCountMismatch { expected, actual } => {
                "Could not map one or more object to get filename, got: "@ + decimal(
                    actual as nat,
                ) + ", but expected: "@ + decimal(expected as nat)
            },
            SplitError::OutputFileExists { filename } => {
                "aborting, after finding existing file: "@ + filename@
            },
            SplitError::OutputWriteError { filename, message } => {
                "Could not write file "@ + filename@ + ": "@ + message@
            },
        }
    }

    /// Writes the diagnostic line for this error.
    pub fn message(&self) -> (line: String)
        ensures
            line@ == self.spec_message(),
    {
        match self {
            SplitError::InputReadError { message } => String::from_str(
                "Could not read input file: ",
            ).concat(message.as_str()),
            SplitError::InputParseError { message } => String::from_str(
                "Could not parse file contents as JSON: ",
            ).concat(message.as_str()),
            SplitError::InputShapeError => String::from_str("Expected to find array of objects"),
            SplitError::NestedFieldMissingOrInvalid { index } => String::from_str(
                "No string under the nested field in element ",
            ).concat(format_decimal(*index).as_str()),
            SplitError::NestedParseError { index, message } => String::from_str(
                "Error while parsing nested field as JSON, ",
            ).concat(message.as_str()),
            SplitError::ExtractionCountMismatch { expected, actual } => String::from_str(
                "Could not apply field to each element in array. Only ",
            ).concat(format_decimal(*actual).as_str()).concat(", expected ").concat(
                format_decimal(*expected).as_str(),
            ),
            SplitError::FilenameDerivationFailed { index } => String::from_str(
                "Could not derive a file name for element ",
            ).concat(format_decimal(*index).as_str()),
            SplitError::NamingCountMismatch { expected, actual } => String::from_str(
                "Could not map one or more object to get filename, got: ",
            ).concat(format_decimal(*actual).as_str()).concat(", but expected: ").concat(
                format_decimal(*expected).as_str(),
            ),
            SplitError::OutputFileExists { filename } => String::from_str(
                "aborting, after finding existing file: ",
            ).concat(filename.as_str()),
            SplitError::OutputWriteError { filename, message } => String::from_str(
                "Could not write file ",
            ).concat(filename.as_str()).concat(": ").concat(message.as_str()),
        }
    }
}

} // verus!
