//! The errors that the operations on the database report.

use vstd::prelude::*;
use vstd::string::*;
use aws_sdk_dynamodb::error::BuildError;

verus! {

#[verifier::external_type_specification]
#[verifier::external_body]
pub struct ExBuildError(BuildError);

#[verifier::external_type_specification]
#[verifier::external_body]
pub struct ExJsonError(serde_json::Error);

/// What went wrong in an operation on the database.
#[derive(Debug)]
pub enum DynarustError {
    /// The service could not be reached.
    ConnectionError(String),
    /// The table to create exists already.
    TableAlreadyExistsError(String),
    /// Something that should not happen has happened.
    UnexpectedError(String),
    /// The request is not one that the service accepts.
    InvalidRequestError(String),
    /// A stored attribute could not be read.
    AttributeParseError(String),
    /// An attribute could not be written.
    AttributeSerializeError(String),
    /// A stored item is not a value of the resource's type.
    ResourceDeserializeError(serde_json::Error),
    /// A request was built with a required field missing.
    BuildError(BuildError),
    /// The service rejected the request; the message is the service's.
    DynamoError(String),
}

/// The `Display` text of a `serde_json::Error`. Nothing is claimed of it:
/// such an error may hold an error of the operating system, whose text the
/// platform gives.
#[verifier::external_body]
fn json_error_text(error: &serde_json::Error) -> (text: String) {
    error.to_string()
}

/// The `Display` text of a `BuildError`: which field was missing or invalid
/// and why, or that the input could not be serialized or the request not be
/// constructed.
pub uninterp spec fn build_error_display(error: BuildError) -> Seq<char>;

/// The `Display` text of a `BuildError`.
#[verifier::external_body]
fn build_error_text(error: &BuildError) -> (text: String)
    ensures
        text@ == build_error_display(*error),
{
    error.to_string()
}

impl DynarustError {
    /// What comes before the detail in the error's message.
    pub open spec fn spec_prefix(&self) -> Seq<char> {
        match self {
            DynarustError::ConnectionError(_) => "Connection error: could not connect to dynamo"@,
            DynarustError::TableAlreadyExistsError(_) => "Table already exists error: "@,
            DynarustError::UnexpectedError(_) => "Unexpected error: "@,
            DynarustError::InvalidRequestError(_) => "Invalid request: "@,
            DynarustError::AttributeParseError(_) => "Attribute parse error: "@,
            DynarustError::AttributeSerializeError(_) => "Attribute serialize error: "@,
            DynarustError::ResourceDeserializeError(_) => "Error while deserializing resource: "@,
            DynarustError::BuildError(_) => "Erorr while building something: "@,
            DynarustError::DynamoError(_) => Seq::empty(),
        }
    }

    /// The detail that the error's message shows, where it is known: the
    /// text that the error carries, none for a connection error, and for a
    /// build error that error's own text.
    pub open spec fn spec_detail(&self) -> Option<Seq<char>> {
        match self {
            DynarustError::ConnectionError(_) => Some(Seq::empty()),
            DynarustError::TableAlreadyExistsError(detail) => Some(detail@),
            DynarustError::UnexpectedError(detail) => Some(detail@),
            DynarustError::InvalidRequestError(detail) => Some(detail@),
            DynarustError::AttributeParseError(detail) => Some(detail@),
            DynarustError::AttributeSerializeError(detail) => Some(detail@),
            DynarustError::ResourceDeserializeError(_) => None,
            DynarustError::BuildError(error) => Some(build_error_display(*error)),
            DynarustError::DynamoError(detail) => Some(detail@),
        }
    }

    /// The error's message: a prefix that tells the kind, then the detail. A
    /// connection error shows no detail, and an error of the service shows
    /// the service's message alone. For an error that wraps one of another
    /// library the detail is that error's own text; of the text of a JSON
    /// error nothing more is known.
    pub fn message(&self) -> (text: String)
        ensures
            self.spec_prefix().is_prefix_of(text@),
            self.spec_detail() matches Some(detail) ==> text@ == self.spec_prefix() + detail,
    {
        match self {
            DynarustError::ConnectionError(_) => {
                let text = String::from_str("Connection error: could not connect to dynamo");
                assert(text@ =~= self.spec_prefix() + Seq::<char>::empty());
                text
            },
            DynarustError::TableAlreadyExistsError(detail) => {
                String::from_str("Table already exists error: ").concat(detail.as_str())
            },
            DynarustError::UnexpectedError(detail) => {
                String::from_str("Unexpected error: ").concat(detail.as_str())
            },
            DynarustError::InvalidRequestError(detail) => {
                String::from_str("Invalid request: ").concat(detail.as_str())
            },
            DynarustError::AttributeParseError(detail) => {
                String::from_str("Attribute parse error: ").concat(detail.as_str())
            },
            DynarustError::AttributeSerializeError(detail) => {
                String::from_str("Attribute serialize error: ").concat(detail.as_str())
            },
            DynarustError::ResourceDeserializeError(error) => {
                let detail = json_error_text(error);
                String::from_str("Error while deserializing resource: ").concat(detail.as_str())
            },
            DynarustError::BuildError(error) => {
                let detail = build_error_text(error);
                String::from_str("Erorr while building something: ").concat(detail.as_str())
            },
            DynarustError::DynamoError(detail) => {
                let text = detail.clone();
                assert(text@ =~= self.spec_prefix() + detail@);
                text
            },
        }
    }
}

impl From<serde_json::Error> for DynarustError {
    fn from(value: serde_json::Error) -> (error: Self) {
        DynarustError::ResourceDeserializeError(value)
    }
}

impl vstd::std_specs::convert::FromSpecImpl<serde_json::Error> for DynarustError {
    open spec fn obeys_from_spec() -> bool {
        true
    }

    open spec fn from_spec(value: serde_json::Error) -> Self {
        DynarustError::ResourceDeserializeError(value)
    }
}

impl From<BuildError> for DynarustError {
    fn from(value: BuildError) -> (error: Self) {
        DynarustError::BuildError(value)
    }
}

impl vstd::std_specs::convert::FromSpecImpl<BuildError> for DynarustError {
    open spec fn obeys_from_spec() -> bool {
        true
    }

    open spec fn from_spec(value: BuildError) -> Self {
        DynarustError::BuildError(value)
    }
}

} // verus!
