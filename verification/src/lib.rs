//! Splits a JSON array of objects into one document per element.
//!
//! Every element of the input array carries, under a configured key, a string
//! that is itself JSON text. The library parses that nested text for every
//! element, derives one output file name per element and hands back the
//! records to write, or the reason why the batch as a whole is rejected.
//!
//! A run passes through these stages, each entered only when the one before
//! it succeeded for every element:
//!
//! 1. the input is loaded and read as JSON ([`extract::parse_input`]);
//! 2. it is found to be an array ([`extract::array_elements`]);
//! 3. extraction is complete: every element yielded its nested document
//!    ([`extract::extract_nested`], [`extract::check_extraction`]);
//! 4. naming is complete: every element yielded a file name
//!    ([`plan::derive_outputs`], [`plan::check_naming`]);
//! 5. writing is complete: the write step reached [`writer::WriterState::Done`].
//!
//! [`plan::plan_outputs`] runs the first four. The fifth is a sequence of
//! decisions ([`writer::step`]) that the caller carries out, since the
//! library itself touches no file. Any stage can fail, and a failure ends
//! the run.

pub mod codec;
pub mod decimal;
pub mod error;
pub mod extract;
pub mod json;
pub mod leading;
pub mod naming;
pub mod plan;
pub mod run;
pub mod writer;
