//! The whole run up to the point of writing: from the input bytes to the
//! records to write, or to the reason why nothing is written.

use vstd::prelude::*;
use crate::codec::{json_from_bytes, json_text, write_text};
use crate::decimal::{digit_count, is_digit, lemma_padded_width, padding_size, zero_padded};
use crate::error::SplitError;
use crate::extract::{
    array_elements,
    check_extraction,
    explains,
    extract_nested,
    nested_document,
    nested_documents,
    parse_input,
    Failure,
};
use crate::json::Json;
use crate::leading::{
    leading_some,
    lemma_leading_some,
    lemma_leading_some_complete,
    lemma_leading_some_is,
};
use crate::naming::{filename, padding_enabled, spec_filename, suffix, OutputNaming};

verus! {

/// One file to write: its name and its content.
#[derive(Debug, PartialEq, Eq)]
pub struct OutputRecord {
    pub filename: String,
    pub content: String,
}

impl View for OutputRecord {
    type V = (Seq<char>, Seq<char>);

    open spec fn view(&self) -> (Seq<char>, Seq<char>) {
        (self.filename@, self.content@)
    }
}

/// The name and content of each record, in order.
pub open spec fn views(records: Seq<OutputRecord>) -> Seq<(Seq<char>, Seq<char>)> {
    Seq::new(records.len(), |i: int| records[i]@)
}

/// The shorter of two lengths.
pub open spec fn shorter(a: nat, b: nat) -> nat {
    if a <= b {
        a
    } else {
        b
    }
}

/// The file name of each element that has a nested document beside it.
pub open spec fn spec_names(
    naming: OutputNaming,
    padding_size: nat,
    values: Seq<Json>,
    nested: Seq<Json>,
) -> Seq<Option<Seq<char>>> {
    Seq::new(
        shorter(values.len(), nested.len()),
        |i: int| spec_filename(naming, i as nat, padding_size, values[i], nested[i]),
    )
}

/// The record of each element: its file name, and its nested document as
/// compact JSON text.
pub open spec fn spec_records(
    naming: OutputNaming,
    padding_size: nat,
    values: Seq<Json>,
    nested: Seq<Json>,
) -> Seq<Option<(Seq<char>, Seq<char>)>> {
    Seq::new(
        shorter(values.len(), nested.len()),
        |i: int|
            match spec_filename(naming, i as nat, padding_size, values[i], nested[i]) {
                Some(name) => Some((name, json_text(nested[i]))),
                None => None,
            },
    )
}

/// Names the output of each element, from the first on, and stops at the
/// first element for which no name can be derived.
pub fn derive_outputs(
    naming: &OutputNaming,
    padding_size: usize,
    values: &Vec<Json>,
    nested: &Vec<Json>,
) -> (outputs: Vec<OutputRecord>)
    ensures
        outputs.len() == leading_some(
            spec_records(*naming, padding_size as nat, values@, nested@),
        ),
        forall|i: int|
            0 <= i < outputs.len() ==> spec_records(
                *naming,
                padding_size as nat,
                values@,
                nested@,
            )[i] == Some((#[trigger] outputs[i])@),
{
    let ghost all = spec_records(*naming, padding_size as nat, values@, nested@);
    let count = if values.len() <= nested.len() {
        values.len()
    } else {
        nested.len()
    };
    let mut outputs: Vec<OutputRecord> = Vec::new();
    let mut i: usize = 0;
    while i < count
        invariant
            i <= count,
            count == shorter(values@.len(), nested@.len()),
            outputs.len() == i,
            all == spec_records(*naming, padding_size as nat, values@, nested@),
            forall|j: int| 0 <= j < i ==> all[j] == Some((#[trigger] outputs[j])@),
        decreases count - i,
    {
        match filename(naming, i, padding_size, &values[i], &nested[i]) {
            Some(name) => {
                let content = write_text(&nested[i]);
                outputs.push(OutputRecord { filename: name, content });
            },
            None => {
                proof {
                    assert(all[i as int] is None);
                    assert forall|j: int| 0 <= j < i implies (#[trigger] all[j]) is Some by {
                        assert(all[j] == Some(outputs[j]@));
                    }
                    lemma_leading_some_is(all, i as nat);
                }
                return outputs;
            },
        }
        i = i + 1;
    }
    proof {
        assert forall|j: int| 0 <= j < i implies (#[trigger] all[j]) is Some by {
            assert(all[j] == Some(outputs[j]@));
        }
        lemma_leading_some_is(all, i as nat);
    }
    outputs
}

/// Insists that every one of the `expected` elements yielded a record. The
/// element that stands where the records end is the one without a name.
pub fn check_naming(expected: usize, outputs: Vec<OutputRecord>) -> (checked: Result<
    Vec<OutputRecord>,
    Failure,
>)
    ensures
        match checked {
            Ok(records) => records == outputs && records.len() == expected,
            Err(failure) => outputs.len() != expected && failure == (Failure {
                error: SplitError::NamingCountMismatch { expected, actual: outputs.len() },
                cause: if outputs.len() < expected {
                    Some(SplitError::FilenameDerivationFailed { index: outputs.len() })
                } else {
                    None
                },
            }),
        },
{
    let actual = outputs.len();
    if actual == expected {
        Ok(outputs)
    } else {
        let cause = if actual < expected {
            Some(SplitError::FilenameDerivationFailed { index: actual })
        } else {
            None
        };
        Err(Failure { error: SplitError::NamingCountMismatch { expected, actual }, cause })
    }
}

/// The elements of the input, where it is a JSON array.
pub open spec fn input_elements(data: Seq<u8>) -> Option<Seq<Json>> {
    match json_from_bytes(data) {
        Some(Json::Array(values)) => Some(values@),
        _ => None,
    }
}

/// The nested documents of `values`, where every element has one.
pub open spec fn all_nested(values: Seq<Json>, field: Seq<char>) -> Option<Seq<Json>> {
    if leading_some(nested_documents(values, field)) == values.len() {
        Some(Seq::new(values.len(), |i: int| nested_documents(values, field)[i]->0))
    } else {
        None
    }
}

/// The records that a run on `data` writes, where it gets as far as writing.
///
/// That takes an input that is a JSON array, a nested document in every
/// element, and a file name for every element. Index names are padded to the
/// digit count of the number of elements.
pub open spec fn planned_records(data: Seq<u8>, field: Seq<char>, naming: OutputNaming) -> Option<
    Seq<(Seq<char>, Seq<char>)>,
> {
    match input_elements(data) {
        Some(values) => match all_nested(values, field) {
            Some(nested) => {
                let records = spec_records(naming, digit_count(values.len()), values, nested);
                if leading_some(records) == values.len() {
                    Some(Seq::new(values.len(), |i: int| records[i]->0))
                } else {
                    None
                }
            },
            None => None,
        },
        None => None,
    }
}

/// Whether `failure` is the report that a run on `data` ends with, given
/// that it writes nothing. Message texts that come from the parser are left
/// open.
pub open spec fn planned_failure(
    data: Seq<u8>,
    field: Seq<char>,
    naming: OutputNaming,
    failure: Failure,
) -> bool {
    match json_from_bytes(data) {
        None => failure.error is InputParseError && failure.cause is None,
        Some(Json::Array(items)) => {
            let values = items@;
            let found = leading_some(nested_documents(values, field));
            match all_nested(values, field) {
                None => {
                    &&& found < values.len()
                    &&& failure.error == SplitError::ExtractionCountMismatch {
                        expected: values.len() as usize,
                        actual: found as usize,
                    }
                    &&& failure.cause matches Some(cause)
                    &&& explains(cause, values[found as int], field, found)
                },
                Some(nested) => {
                    let named = leading_some(
                        spec_records(naming, digit_count(values.len()), values, nested),
                    );
                    &&& named < values.len()
                    &&& failure == Failure {
                        error: SplitError::NamingCountMismatch {
                            expected: values.len() as usize,
                            actual: named as usize,
                        },
                        cause: Some(
                            SplitError::FilenameDerivationFailed { index: named as usize },
                        ),
                    }
                },
            }
        },
        Some(_) => failure == Failure { error: SplitError::InputShapeError, cause: None },
    }
}

/// Runs every stage before writing: reads the input, takes the array's
/// elements, parses the nested document of each, and names each output.
///
/// A stage is entered only when the one before it succeeded for every
/// element, so either all records come back or none.
pub fn plan_outputs(data: &[u8], jsonfield: &str, naming: &OutputNaming) -> (plan: Result<
    Vec<OutputRecord>,
    Failure,
>)
    ensures
        match plan {
            Ok(records) => planned_records(data@, jsonfield@, *naming) == Some(views(records@)),
            Err(failure) => planned_records(data@, jsonfield@, *naming) is None
                && planned_failure(data@, jsonfield@, *naming, failure),
        },
{
    let document = match parse_input(data) {
        Ok(document) => document,
        Err(error) => {
            return Err(Failure { error, cause: None });
        },
    };
    let values = match array_elements(document) {
        Ok(values) => values,
        Err(error) => {
            return Err(Failure { error, cause: None });
        },
    };
    let expected = values.len();
    let extraction = extract_nested(&values, jsonfield);
    proof {
        lemma_leading_some(nested_documents(values@, jsonfield@));
    }
    let nested = match check_extraction(expected, extraction) {
        Ok(nested) => nested,
        Err(failure) => {
            return Err(failure);
        },
    };
    proof {
        let docs = nested_documents(values@, jsonfield@);
        assert(nested@ =~= Seq::new(values@.len(), |i: int| docs[i]->0));
    }
    let width = padding_size(nested.len());
    let outputs = derive_outputs(naming, width, &values, &nested);
    let ghost all = spec_records(*naming, digit_count(values@.len()), values@, nested@);
    proof {
        lemma_leading_some(all);
    }
    match check_naming(expected, outputs) {
        Ok(records) => {
            proof {
                assert(views(records@) =~= Seq::new(values@.len(), |i: int| all[i]->0));
            }
            Ok(records)
        },
        Err(failure) => Err(failure),
    }
}

/// One element without a nested document stops the whole batch: no record
/// is planned, and the failure reported is the shortfall in extraction.
pub proof fn lemma_missing_nested_rejects_batch(
    data: Seq<u8>,
    field: Seq<char>,
    naming: OutputNaming,
    values: Seq<Json>,
    at: int,
    failure: Failure,
)
    requires
        input_elements(data) == Some(values),
        0 <= at < values.len(),
        nested_document(values[at], field) is None,
        planned_failure(data, field, naming, failure),
    ensures
        planned_records(data, field, naming) is None,
        failure.error matches SplitError::ExtractionCountMismatch { expected, actual }
            && expected == values.len() && actual <= at,
{
    let documents = nested_documents(values, field);
    lemma_leading_some(documents);
    if leading_some(documents) > at {
        assert(documents[at] is Some);
    }
    match json_from_bytes(data) {
        Some(Json::Array(items)) => {
            assert(items.len() == values.len());
        },
        _ => {},
    }
}

/// One element without a file name stops the whole batch too: where every
/// element has a nested document but the rule names no file for one of them,
/// no record is planned, and the failure reported is the shortfall in
/// naming.
pub proof fn lemma_missing_name_rejects_batch(
    data: Seq<u8>,
    field: Seq<char>,
    naming: OutputNaming,
    values: Seq<Json>,
    nested: Seq<Json>,
    at: int,
    failure: Failure,
)
    requires
        input_elements(data) == Some(values),
        all_nested(values, field) == Some(nested),
        0 <= at < values.len(),
        spec_filename(naming, at as nat, digit_count(values.len()), values[at], nested[at]) is None,
        planned_failure(data, field, naming, failure),
    ensures
        planned_records(data, field, naming) is None,
        failure.error matches SplitError::NamingCountMismatch { expected, actual }
            && expected == values.len() && actual <= at,
{
    let records = spec_records(naming, digit_count(values.len()), values, nested);
    lemma_leading_some(records);
    if leading_some(records) > at {
        assert(records[at] is Some);
    }
    match json_from_bytes(data) {
        Some(Json::Array(items)) => {
            assert(items.len() == values.len());
        },
        _ => {},
    }
}

/// What a planned record holds is the compact text of the nested document
/// of its element, and its name is the one that the rule gives that element.
pub proof fn lemma_planned_record(
    data: Seq<u8>,
    field: Seq<char>,
    naming: OutputNaming,
    values: Seq<Json>,
    records: Seq<(Seq<char>, Seq<char>)>,
    at: int,
)
    requires
        input_elements(data) == Some(values),
        planned_records(data, field, naming) == Some(records),
        0 <= at < values.len(),
    ensures
        records.len() == values.len(),
        nested_document(values[at], field) matches Some(document) && records[at].1 == json_text(
            document,
        ) && Some(records[at].0) == spec_filename(
            naming,
            at as nat,
            digit_count(values.len()),
            values[at],
            document,
        ),
{
    let documents = nested_documents(values, field);
    lemma_leading_some(documents);
    let nested = all_nested(values, field)->0;
    let all = spec_records(naming, digit_count(values.len()), values, nested);
    lemma_leading_some(all);
    assert(documents[at] is Some);
    assert(all[at] is Some);
}

/// Every element with a nested document and a name means success: the batch
/// is planned, one record for each element.
pub proof fn lemma_complete_batch_is_planned(
    data: Seq<u8>,
    field: Seq<char>,
    naming: OutputNaming,
    values: Seq<Json>,
)
    requires
        input_elements(data) == Some(values),
        forall|i: int|
            0 <= i < values.len() ==> nested_document(#[trigger] values[i], field) is Some,
        forall|i: int|
            0 <= i < values.len() ==> spec_filename(
                naming,
                i as nat,
                digit_count(values.len()),
                #[trigger] values[i],
                nested_document(values[i], field)->0,
            ) is Some,
    ensures
        planned_records(data, field, naming) matches Some(records) && records.len() == values.len(),
{
    let documents = nested_documents(values, field);
    assert forall|i: int| 0 <= i < documents.len() implies (#[trigger] documents[i]) is Some by {
        assert(nested_document(values[i], field) is Some);
    }
    lemma_leading_some_complete(documents);
    let nested = all_nested(values, field)->0;
    let records = spec_records(naming, digit_count(values.len()), values, nested);
    assert forall|i: int| 0 <= i < records.len() implies (#[trigger] records[i]) is Some by {
        assert(nested[i] == nested_document(values[i], field)->0);
        assert(spec_filename(naming, i as nat, digit_count(values.len()), values[i], nested[i])
            is Some);
    }
    lemma_leading_some_complete(records);
}

/// With index naming and padding, the names of a planned batch all have the
/// same shape: as many digits as the number of elements has, then `.json`.
/// The digits write the element's index.
pub proof fn lemma_padded_names_share_width(
    data: Seq<u8>,
    field: Seq<char>,
    padding: Option<bool>,
    records: Seq<(Seq<char>, Seq<char>)>,
    at: int,
)
    requires
        padding_enabled(padding),
        planned_records(data, field, OutputNaming::ArrayIndex { padding }) == Some(records),
        0 <= at < records.len(),
    ensures
        records[at].0 == zero_padded(at as nat, digit_count(records.len())) + suffix(),
        records[at].0.len() == digit_count(records.len()) + 5,
        forall|i: int|
            0 <= i < digit_count(records.len()) ==> is_digit(#[trigger] records[at].0[i]),
{
    let width = digit_count(records.len());
    lemma_padded_width(at as nat, records.len());
    let digits = zero_padded(at as nat, width);
    assert forall|i: int| 0 <= i < width implies is_digit(#[trigger] records[at].0[i]) by {
        assert(records[at].0[i] == digits[i]);
    }
}

} // verus!
