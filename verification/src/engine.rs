//! The option types of the document engine, `svgdom` and `svgcleaner`, and
//! the one std function that the library calls without a specification from
//! vstd.
//!
//! The option groups and their enumerations have public fields only. They are
//! declared with their fields, so verified code builds and reads them and
//! nothing is assumed of them.
//!
//! The engine itself is not called from this library. Parsing and cleaning can
//! panic, or not return, on documents that nothing short of running them tells
//! apart, and the library promises to return on every input. So the caller
//! makes the three engine calls of a pass and reports how the pass ended; the
//! library decides what follows.

use vstd::prelude::*;
use vstd::utf8::{encode_utf8, valid_utf8};

verus! {

/// `svgdom::Indent`, with its variants.
#[verifier::external_type_specification]
pub struct ExIndent(svgdom::Indent);

/// `svgdom::ListSeparator`, with its variants.
#[verifier::external_type_specification]
pub struct ExListSeparator(svgdom::ListSeparator);

/// `svgdom::AttributesOrder`, with its variants.
#[verifier::external_type_specification]
pub struct ExAttributesOrder(svgdom::AttributesOrder);

/// `svgcleaner::StyleJoinMode`, with its variants.
#[verifier::external_type_specification]
pub struct ExStyleJoinMode(svgcleaner::StyleJoinMode);

/// `svgdom::ParseOptions`, with its fields.
#[verifier::external_type_specification]
pub struct ExParseOptions(svgdom::ParseOptions);

/// `svgdom::WriteOptions`, with its fields.
#[verifier::external_type_specification]
pub struct ExWriteOptions(svgdom::WriteOptions);

/// `svgcleaner::CleaningOptions`, with its fields.
#[verifier::external_type_specification]
pub struct ExCleaningOptions(svgcleaner::CleaningOptions);

/// `core::str::Utf8Error`, what `core::str::from_utf8` fails with.
#[verifier::external_type_specification]
#[verifier::external_body]
pub struct ExUtf8Error(core::str::Utf8Error);

/// `core::str::from_utf8` succeeds exactly on well-formed UTF-8, and then
/// returns the same bytes as a string slice.
pub assume_specification<'a>[ core::str::from_utf8 ](v: &'a [u8]) -> (r: Result<
    &'a str,
    core::str::Utf8Error,
>)
    ensures
        r is Ok <==> valid_utf8(v@),
        r matches Ok(text) ==> encode_utf8(text@) == v@,
;

} // verus!
