//! From the input bytes to one nested document per element.

use vstd::prelude::*;
use crate::codec::{complaint, json_from_bytes, json_from_text, read_bytes, read_text};
use crate::error::SplitError;
use crate::json::{get_field_as_string, string_field, Json};
use crate::leading::{leading_some, lemma_leading_some_is};

verus! {

/// A fatal error together with the failure of a single element that led to
/// it, where there was one.
#[derive(Debug, PartialEq, Eq)]
pub struct Failure {
    pub error: SplitError,
    pub cause: Option<SplitError>,
}

impl Failure {
    /// The lines to show the operator, in order: the parser's complaint
    /// about a nested string, where that is the cause, and then the fatal
    /// error.
    pub open spec fn spec_diagnostics(self) -> Seq<Seq<char>> {
        match self.cause {
            Some(SplitError::NestedParseError { index, message }) => seq![
                (SplitError::NestedParseError { index, message }).spec_message(),
                self.error.spec_message(),
            ],
            _ => seq![self.error.spec_message()],
        }
    }

    /// Writes the diagnostic lines for this failure.
    pub fn diagnostics(&self) -> (lines: Vec<String>)
        ensures
            lines.len() == self.spec_diagnostics().len(),
            forall|i: int|
                0 <= i < lines.len() ==> (#[trigger] lines[i])@ == self.spec_diagnostics()[i],
    {
        let mut lines: Vec<String> = Vec::new();
        match &self.cause {
            Some(cause) => match cause {
                SplitError::NestedParseError { .. } => {
                    lines.push(cause.message());
                },
                _ => {},
            },
            None => {},
        }
        lines.push(self.error.message());
        lines
    }
}

/// What the pass over the elements found: the nested documents of the
/// leading elements that have one, and why the pass stopped early, if it did.
#[derive(Debug, PartialEq, Eq)]
pub struct Extraction {
    pub documents: Vec<Json>,
    pub failure: Option<SplitError>,
}

/// The nested document of `element`: what its string under `field` reads
/// as. There is none where the string is missing or is not JSON.
pub open spec fn nested_document(element: Json, field: Seq<char>) -> Option<Json> {
    match string_field(element, field) {
        Some(text) => json_from_text(text),
        None => None,
    }
}

/// The nested document of each element, in order.
pub open spec fn nested_documents(values: Seq<Json>, field: Seq<char>) -> Seq<Option<Json>> {
    Seq::new(values.len(), |i: int| nested_document(values[i], field))
}

/// Whether `failure` says why `element`, at `index`, has no nested document.
pub open spec fn explains(
    failure: SplitError,
    element: Json,
    field: Seq<char>,
    index: nat,
) -> bool {
    match failure {
        SplitError::NestedFieldMissingOrInvalid { index: at } => at == index && string_field(
            element,
            field,
        ) is None,
        SplitError::NestedParseError { index: at, message } => at == index && string_field(
            element,
            field,
        ) is Some,
        _ => false,
    }
}

/// Reads the input as JSON.
pub fn parse_input(data: &[u8]) -> (parsed: Result<Json, SplitError>)
    ensures
        match parsed {
            Ok(document) => json_from_bytes(data@) == Some(document),
            Err(error) => json_from_bytes(data@) is None && error is InputParseError,
        },
{
    match read_bytes(data) {
        Ok(document) => Ok(document),
        Err(error) => Err(SplitError::InputParseError { message: complaint(&error) }),
    }
}

/// Takes the elements out of the input document, which has to be an array.
pub fn array_elements(document: Json) -> (elements: Result<Vec<Json>, SplitError>)
    ensures
        match elements {
            Ok(values) => document == Json::Array(values),
            Err(error) => !(document is Array) && error == SplitError::InputShapeError,
        },
{
    match document {
        Json::Array(values) => Ok(values),
        _ => Err(SplitError::InputShapeError),
    }
}

/// Turns the parser's answer for the element at `index` into the library's
/// own terms.
pub fn nested_result(index: usize, read: Result<Json, serde_json::Error>) -> (nested: Result<
    Json,
    SplitError,
>)
    ensures
        match nested {
            Ok(document) => read == Ok::<Json, serde_json::Error>(document),
            Err(error) => read is Err && (error matches SplitError::NestedParseError {
                index: at,
                message,
            } && at == index),
        },
{
    match read {
        Ok(document) => Ok(document),
        Err(error) => Err(SplitError::NestedParseError { index, message: complaint(&error) }),
    }
}

/// Parses the nested document of each element, from the first on, and stops
/// at the first element that has none.
pub fn extract_nested(values: &Vec<Json>, field: &str) -> (extraction: Extraction)
    ensures
        extraction.documents.len() == leading_some(nested_documents(values@, field@)),
        forall|i: int|
            0 <= i < extraction.documents.len() ==> nested_document(values[i], field@) == Some(
                #[trigger] extraction.documents[i],
            ),
        extraction.failure is None <==> extraction.documents.len() == values.len(),
        extraction.failure matches Some(failure) ==> explains(
            failure,
            values[extraction.documents.len() as int],
            field@,
            extraction.documents.len() as nat,
        ),
{
    let ghost all = nested_documents(values@, field@);
    let mut documents: Vec<Json> = Vec::new();
    let mut i: usize = 0;
    while i < values.len()
        invariant
            i <= values.len(),
            documents.len() == i,
            all == nested_documents(values@, field@),
            forall|j: int| 0 <= j < i ==> all[j] == Some(#[trigger] documents[j]),
        decreases values.len() - i,
    {
        let failure = match get_field_as_string(&values[i], field) {
            None => Some(SplitError::NestedFieldMissingOrInvalid { index: i }),
            Some(text) => match nested_result(i, read_text(text.as_str())) {
                Ok(document) => {
                    documents.push(document);
                    None
                },
                Err(error) => Some(error),
            },
        };
        if failure.is_some() {
            proof {
                assert(all[i as int] is None);
                assert forall|j: int| 0 <= j < i implies (#[trigger] all[j]) is Some by {
                    assert(all[j] == Some(documents[j]));
                }
                lemma_leading_some_is(all, i as nat);
            }
            return Extraction { documents, failure };
        }
        i = i + 1;
    }
    proof {
        assert forall|j: int| 0 <= j < i implies (#[trigger] all[j]) is Some by {
            assert(all[j] == Some(documents[j]));
        }
        lemma_leading_some_is(all, i as nat);
    }
    Extraction { documents, failure: None }
}

/// Insists that every one of the `expected` elements yielded a nested
/// document.
pub fn check_extraction(expected: usize, extraction: Extraction) -> (checked: Result<
    Vec<Json>,
    Failure,
>)
    ensures
        match checked {
            Ok(documents) => documents == extraction.documents && documents.len() == expected,
            Err(failure) => extraction.documents.len() != expected && failure == (Failure {
                error: SplitError::ExtractionCountMismatch {
                    expected,
                    actual: extraction.documents.len(),
                },
                cause: extraction.failure,
            }),
        },
{
    let actual = extraction.documents.len();
    if actual == expected {
        Ok(extraction.documents)
    } else {
        Err(
            Failure {
                error: SplitError::ExtractionCountMismatch { expected, actual },
                cause: extraction.failure,
            },
        )
    }
}

} // verus!
