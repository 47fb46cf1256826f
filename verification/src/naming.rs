//! How an output file gets its name.

use vstd::prelude::*;
use vstd::string::StringExecFns;
use crate::decimal::{format_padded, zero_padded};
use crate::json::{get_field_as_string, string_field, text_of, Json};

verus! {

/// The rule that names the output file of an element. One rule holds for a
/// whole run.
#[derive(Debug)]
pub enum OutputNaming {
    /// The element's position in the input array. The number is padded with
    /// zeros unless `padding` is `Some(false)`.
    ArrayIndex { padding: Option<bool> },
    /// The string under `field` in the element's nested document.
    NestedField { field: String },
    /// The string under `field` in the element itself.
    OriginalField { field: String },
}

/// The ending of every output file name: `.json`.
pub open spec fn suffix() -> Seq<char> {
    seq!['.', 'j', 's', 'o', 'n']
}

/// Whether index names are padded: they are unless padding was switched off.
pub open spec fn padding_enabled(padding: Option<bool>) -> bool {
    match padding {
        Some(enabled) => enabled,
        None => true,
    }
}

/// The name without its ending, where the rule yields one.
pub open spec fn spec_base(
    naming: OutputNaming,
    index: nat,
    padding_size: nat,
    original: Json,
    nested: Json,
) -> Option<Seq<char>> {
    match naming {
        OutputNaming::ArrayIndex { padding } => Some(
            zero_padded(
                index,
                if padding_enabled(padding) {
                    padding_size
                } else {
                    0
                },
            ),
        ),
        OutputNaming::NestedField { field } => string_field(nested, field@),
        OutputNaming::OriginalField { field } => string_field(original, field@),
    }
}

/// The file name of an element: its base name followed by `.json`.
pub open spec fn spec_filename(
    naming: OutputNaming,
    index: nat,
    padding_size: nat,
    original: Json,
    nested: Json,
) -> Option<Seq<char>> {
    match spec_base(naming, index, padding_size, original, nested) {
        Some(base) => Some(base + suffix()),
        None => None,
    }
}

/// Derives the output file name of the element at `index`.
///
/// Naming by index always yields a name. Naming by a field yields one only
/// where the document in question is an object that holds a string under
/// that field.
pub fn filename(
    naming: &OutputNaming,
    index: usize,
    padding_size: usize,
    original: &Json,
    nested: &Json,
) -> (name: Option<String>)
    ensures
        text_of(name) == spec_filename(
            *naming,
            index as nat,
            padding_size as nat,
            *original,
            *nested,
        ),
{
    let base = match naming {
        OutputNaming::ArrayIndex { padding } => {
            let enabled = match padding {
                Some(enabled) => *enabled,
                None => true,
            };
            let width = if enabled {
                padding_size
            } else {
                0
            };
            Some(format_padded(index, width))
        },
        OutputNaming::NestedField { field } => get_field_as_string(nested, field.as_str()),
        OutputNaming::OriginalField { field } => get_field_as_string(original, field.as_str()),
    };
    match base {
        Some(base) => {
            proof {
                reveal_strlit(".json");
                assert(".json"@ =~= suffix());
            }
            Some(base.concat(".json"))
        },
        None => None,
    }
}

} // verus!
