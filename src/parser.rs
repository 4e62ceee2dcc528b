//! Parsing and expansion through libpostal: input validation before the
//! native call, and the mapping of its errors after it.

use vstd::prelude::*;
use crate::address::{keys_distinct, ParsedAddress};
use crate::error::{libpostal_error_display, libpostal_error_text, prefixed, PostalError};
use crate::text::{is_blank, is_blank_str};

verus! {

/// Relies on `libpostal_rust::parse_address`: its components come in a
/// `HashMap`, so no label occurs twice, and an address holding a NUL char is
/// refused with an error.
#[verifier::external_body]
fn native_parse(address: &str) -> (r: Result<Vec<(String, String)>, libpostal_rust::Error>)
    ensures
        r matches Ok(e) ==> keys_distinct(e@),
        address@.contains('\0') ==> r is Err,
{
    let options = libpostal_rust::ParseAddressOptions::default();
    libpostal_rust::parse_address(address, &options).map(|m| m.into_iter().collect())
}

/// Relies on `libpostal_rust::expand_address`: an address holding a NUL char
/// is refused with an error.
#[verifier::external_body]
fn native_expand(address: &str) -> (r: Result<Vec<String>, libpostal_rust::Error>)
    ensures
        address@.contains('\0') ==> r is Err,
{
    let options = libpostal_rust::ExpandAddressOptions::default();
    libpostal_rust::expand_address(address, &options)
}

/// The refusal of a blank address: `message` and `context` as given.
pub open spec fn is_invalid_input(
    r: PostalError,
    message: Seq<char>,
    context: Seq<char>,
) -> bool {
    r matches PostalError::InvalidInput { message: m, context: c } && m@ == message && c@ == context
}

/// A native failure whose message is `prefix` followed by the text of some
/// libpostal error.
pub open spec fn is_native_failure(r: PostalError, prefix: Seq<char>) -> bool {
    r matches PostalError::LibpostalError { message } && exists|ne: libpostal_rust::Error|
        message@ == prefix + #[trigger] libpostal_error_display(ne)
}

pub open spec fn blank_message() -> Seq<char> {
    "Address string is empty or contains only whitespace"@
}

pub open spec fn parse_context() -> Seq<char> {
    "Valid address parsing requires a non-empty string with actual address content"@
}

pub open spec fn expand_context() -> Seq<char> {
    "Address expansion requires a valid address string to process abbreviations"@
}

pub open spec fn parse_failure_prefix() -> Seq<char> {
    "Failed to parse address: "@
}

pub open spec fn expand_failure_prefix() -> Seq<char> {
    "Failed to expand address: "@
}

/// What parsing `address` may give: a refusal exactly when it is blank;
/// otherwise components with unique labels, or a native failure, which a NUL
/// char in the address always brings.
pub open spec fn parse_outcome(address: Seq<char>, r: Result<ParsedAddress, PostalError>) -> bool {
    &&& is_blank(address) ==> (r matches Err(e) && is_invalid_input(
        e,
        blank_message(),
        parse_context(),
    ))
    &&& !is_blank(address) ==> match r {
        Ok(p) => p.wf() && !address.contains('\0'),
        Err(e) => is_native_failure(e, parse_failure_prefix()),
    }
}

/// What expanding `address` may give: a refusal exactly when it is blank;
/// otherwise the native variants in their order, or a native failure, which a
/// NUL char in the address always brings.
pub open spec fn expand_outcome(address: Seq<char>, r: Result<Vec<String>, PostalError>) -> bool {
    &&& is_blank(address) ==> (r matches Err(e) && is_invalid_input(
        e,
        blank_message(),
        expand_context(),
    ))
    &&& !is_blank(address) ==> match r {
        Ok(_) => !address.contains('\0'),
        Err(e) => is_native_failure(e, expand_failure_prefix()),
    }
}

/// The failure of a parse on which libpostal reported `text`.
pub fn parse_failure(text: &str) -> (r: PostalError)
    ensures
        r matches PostalError::LibpostalError { message } && message@ == parse_failure_prefix()
            + text@,
{
    PostalError::LibpostalError { message: prefixed("Failed to parse address: ", text) }
}

/// The failure of an expansion on which libpostal reported `text`.
pub fn expand_failure(text: &str) -> (r: PostalError)
    ensures
        r matches PostalError::LibpostalError { message } && message@ == expand_failure_prefix()
            + text@,
{
    PostalError::LibpostalError { message: prefixed("Failed to expand address: ", text) }
}

/// Parses an address into its components.
pub fn parse_address_string(address: &str) -> (r: Result<ParsedAddress, PostalError>)
    ensures
        parse_outcome(address@, r),
{
    parse_address_with_options(address)
}

/// Parses an address into its components with libpostal's default options.
pub fn parse_address_with_options(address: &str) -> (r: Result<ParsedAddress, PostalError>)
    ensures
        parse_outcome(address@, r),
{
    if is_blank_str(address) {
        return Err(
            PostalError::InvalidInput {
                message: String::from_str("Address string is empty or contains only whitespace"),
                context: String::from_str(
                    "Valid address parsing requires a non-empty string with actual address content",
                ),
            },
        );
    }
    match native_parse(address) {
        Ok(entries) => Ok(ParsedAddress::from_distinct(entries)),
        Err(e) => {
            let text = libpostal_error_text(&e);
            Err(parse_failure(text.as_str()))
        },
    }
}

/// Expands the abbreviations of an address into its variants, in libpostal's
/// order.
pub fn expand_address_string(address: &str) -> (r: Result<Vec<String>, PostalError>)
    ensures
        expand_outcome(address@, r),
{
    if is_blank_str(address) {
        return Err(
            PostalError::InvalidInput {
                message: String::from_str("Address string is empty or contains only whitespace"),
                context: String::from_str(
                    "Address expansion requires a valid address string to process abbreviations",
                ),
            },
        );
    }
    match native_expand(address) {
        Ok(variants) => Ok(variants),
        Err(e) => {
            let text = libpostal_error_text(&e);
            Err(expand_failure(text.as_str()))
        },
    }
}

} // verus!
