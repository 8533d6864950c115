use vstd::prelude::*;
use crate::operation::ErrorWrapper;

verus! {

/// An error raised while assembling a request value by hand.
#[derive(Debug)]
pub struct BuildError {
    pub message: String,
}

impl BuildError {
    pub fn new(message: &str) -> (r: Self)
        ensures
            r.message@ == message@,
    {
        BuildError { message: message.to_string() }
    }

    /// The message, as `Display` would print it.
    pub fn to_string(&self) -> (r: String)
        ensures
            r@ == self.message@,
    {
        self.message.clone()
    }
}

/// A field that a generation request cannot do without.
#[derive(Debug, Clone, Copy, PartialEq, Eq, Structural)]
pub enum RequiredField {
    Text,
    MimeType,
    AspectRatio,
}

impl RequiredField {
    /// The field's name on the wire.
    pub open spec fn spec_name(self) -> Seq<char> {
        match self {
            RequiredField::Text => "text"@,
            RequiredField::MimeType => "mimeType"@,
            RequiredField::AspectRatio => "aspectRatio"@,
        }
    }

    /// What a builder reports when the field is missing.
    pub open spec fn spec_message(self) -> Seq<char> {
        match self {
            RequiredField::Text => "Text is required"@,
            RequiredField::MimeType => "Mime type is required"@,
            RequiredField::AspectRatio => "Aspect ratio is required"@,
        }
    }

    pub fn name(&self) -> (r: &'static str)
        ensures
            r@ == self.spec_name(),
    {
        match self {
            RequiredField::Text => "text",
            RequiredField::MimeType => "mimeType",
            RequiredField::AspectRatio => "aspectRatio",
        }
    }
}

/// A request that was rejected before any network call.
#[derive(Debug, Clone, Copy, PartialEq, Eq, Structural)]
pub enum ValidationError {
    MissingField(RequiredField),
}

impl ValidationError {
    /// The same rejection in the form the step-by-step builders report it.
    pub fn to_build_error(&self) -> (r: BuildError)
        ensures
            match *self {
                ValidationError::MissingField(f) => r.message@ == f.spec_message(),
            },
    {
        match self {
            ValidationError::MissingField(RequiredField::Text) => BuildError::new("Text is required"),
            ValidationError::MissingField(RequiredField::MimeType) => BuildError::new("Mime type is required"),
            ValidationError::MissingField(RequiredField::AspectRatio) => BuildError::new("Aspect ratio is required"),
        }
    }
}

/// Every way a call to the service can fail, shared by the image and the text paths.
#[derive(Debug)]
pub enum ClientError {
    /// The request was malformed; nothing was sent.
    Validation(ValidationError),
    /// The call produced no response (network, DNS, TLS).
    Transport(String),
    /// A response came back whose body did not have the expected shape.
    DecodeFailure { raw: String, cause: String },
    /// The service reported a structured error.
    Service(ErrorWrapper),
    /// A finished operation carried neither an error nor a result, or both.
    ProtocolViolation { id: String },
    /// The caller's budget of status checks ran out while the operation `id` still ran.
    Abandoned { id: String },
}

} // verus!
