//! The error taxonomy: four kinds of failure, each rendered with its cause
//! and a hint, and each mapped to a class of host error.

use vstd::prelude::*;

verus! {

#[verifier::external_type_specification]
#[verifier::external_body]
pub struct ExLibpostalError(libpostal_rust::Error);

#[verifier::external_type_specification]
#[verifier::external_body]
pub struct ExJsonError(serde_json::Error);

/// A failure of one of the library's operations.
#[derive(Debug)]
pub enum PostalError {
    InvalidInput { message: String, context: String },
    LibpostalError { message: String },
    SerializationError { message: String },
    ConfigurationError { message: String },
}

/// The class of error that a host sees for a [`PostalError`].
#[derive(Debug, Clone, Copy, PartialEq, Eq, Structural)]
pub enum HostErrorClass {
    /// A bad argument (a value error).
    Value,
    /// A failure at run time.
    Runtime,
}

/// The rendered text of an error: its cause, then an actionable hint.
pub open spec fn render_spec(e: PostalError) -> Seq<char> {
    match e {
        PostalError::InvalidInput { message, context } => "Invalid input: "@ + message@
            + ". Context: "@ + context@ + invalid_input_hint()@,
        PostalError::LibpostalError { message } => "Libpostal processing error: "@ + message@
            + libpostal_hint()@,
        PostalError::SerializationError { message } => "JSON serialization error: "@ + message@
            + serialization_hint()@,
        PostalError::ConfigurationError { message } => "Configuration error: "@ + message@
            + configuration_hint()@,
    }
}

pub open spec fn invalid_input_hint() -> &'static str {
    ". Please ensure the input is a valid, non-empty string."
}

pub open spec fn libpostal_hint() -> &'static str {
    ". This may indicate missing data files or an internal parsing issue."
}

pub open spec fn serialization_hint() -> &'static str {
    ". The parsed data could not be converted to JSON format."
}

pub open spec fn configuration_hint() -> &'static str {
    ". Please check your libpostal installation and data files."
}

/// The host error class of each kind.
pub open spec fn host_class_spec(e: PostalError) -> HostErrorClass {
    match e {
        PostalError::InvalidInput { .. } => HostErrorClass::Value,
        _ => HostErrorClass::Runtime,
    }
}

/// The text that the `Display` impl of `libpostal_rust::Error` writes.
pub uninterp spec fn libpostal_error_display(e: libpostal_rust::Error) -> Seq<char>;

/// The text that the `Display` impl of `serde_json::Error` writes.
pub uninterp spec fn json_error_display(e: serde_json::Error) -> Seq<char>;

/// Relies on the `Display` impl of `libpostal_rust::Error` for its text,
/// which depends on the error alone.
#[verifier::external_body]
pub(crate) fn libpostal_error_text(e: &libpostal_rust::Error) -> (r: String)
    ensures
        r@ == libpostal_error_display(*e),
{
    e.to_string()
}

/// Relies on the `Display` impl of `serde_json::Error` for its text, which
/// depends on the error alone.
#[verifier::external_body]
pub(crate) fn json_error_text(e: &serde_json::Error) -> (r: String)
    ensures
        r@ == json_error_display(*e),
{
    e.to_string()
}

/// `text` with `prefix` in front of it.
pub(crate) fn prefixed(prefix: &str, text: &str) -> (r: String)
    ensures
        r@ == prefix@ + text@,
{
    let mut r = String::from_str(prefix);
    r.append(text);
    r
}

impl PostalError {
    /// The error's message: its cause, then an actionable hint.
    pub fn render(&self) -> (r: String)
        ensures
            r@ == render_spec(*self),
    {
        match self {
            PostalError::InvalidInput { message, context } => {
                let mut r = prefixed("Invalid input: ", message.as_str());
                r.append(". Context: ");
                r.append(context.as_str());
                r.append(". Please ensure the input is a valid, non-empty string.");
                r
            },
            PostalError::LibpostalError { message } => {
                let mut r = prefixed("Libpostal processing error: ", message.as_str());
                r.append(". This may indicate missing data files or an internal parsing issue.");
                r
            },
            PostalError::SerializationError { message } => {
                let mut r = prefixed("JSON serialization error: ", message.as_str());
                r.append(". The parsed data could not be converted to JSON format.");
                r
            },
            PostalError::ConfigurationError { message } => {
                let mut r = prefixed("Configuration error: ", message.as_str());
                r.append(". Please check your libpostal installation and data files.");
                r
            },
        }
    }

    /// The class of host error this error is raised as: a value error for
    /// invalid input, a runtime error otherwise.
    pub fn host_class(&self) -> (r: HostErrorClass)
        ensures
            r == host_class_spec(*self),
    {
        match self {
            PostalError::InvalidInput { .. } => HostErrorClass::Value,
            _ => HostErrorClass::Runtime,
        }
    }

    /// A native-library failure, with the library's own text.
    pub fn from_libpostal(err: &libpostal_rust::Error) -> (r: PostalError)
        ensures
            r matches PostalError::LibpostalError { message }
                && message@ == "libpostal error: "@ + libpostal_error_display(*err),
    {
        let text = libpostal_error_text(err);
        let message = prefixed("libpostal error: ", text.as_str());
        PostalError::LibpostalError { message }
    }

    /// A serialisation failure, with serde_json's own text.
    pub fn from_json(err: &serde_json::Error) -> (r: PostalError)
        ensures
            r matches PostalError::SerializationError { message }
                && message@ == "JSON serialization error: "@ + json_error_display(*err),
    {
        let text = json_error_text(err);
        let message = prefixed("JSON serialization error: ", text.as_str());
        PostalError::SerializationError { message }
    }
}

} // verus!
