use vstd::prelude::*;
use crate::error::ClientError;

verus! {

/// An instant, in nanoseconds since the Unix epoch.
#[derive(Debug, Clone, Copy, PartialEq, Eq, Structural)]
pub struct Timestamp {
    pub unix_nanos: i128,
}

/// The payload of a finished generation.
#[derive(Debug, Clone)]
pub struct ResponseWrapper {
    /// The image, base64-encoded.
    pub image: String,
    pub model_version: Option<String>,
}

/// A structured error reported by the service.
#[derive(Debug, Clone)]
pub struct ErrorWrapper {
    pub code: String,
    pub message: String,
    /// Each detail as raw JSON text.
    pub details: Option<Vec<String>>,
}

/// One snapshot of a server-side generation job.
#[derive(Debug, Clone)]
pub struct Response {
    pub id: String,
    pub description: Option<String>,
    pub created_at: Option<Timestamp>,
    pub created_by: Option<String>,
    pub modified_at: Option<Timestamp>,
    pub done: bool,
    /// Raw JSON text of the metadata object.
    pub metadata: Option<String>,
    pub error: Option<ErrorWrapper>,
    pub response: Option<ResponseWrapper>,
}

/// What a snapshot says about its job.
#[derive(Debug, Clone, Copy, PartialEq, Eq, Structural)]
pub enum OperationStatus {
    /// Not done, with neither an error nor a payload.
    Pending,
    /// The service reports an error and no payload.
    Failed,
    /// Done, with a payload and no error.
    Succeeded,
    /// Any other combination of `done`, error and payload.
    ProtocolViolation,
}

pub open spec fn status_of(done: bool, has_error: bool, has_response: bool) -> OperationStatus {
    if has_error && has_response {
        OperationStatus::ProtocolViolation
    } else if has_error {
        OperationStatus::Failed
    } else if has_response {
        if done {
            OperationStatus::Succeeded
        } else {
            OperationStatus::ProtocolViolation
        }
    } else if done {
        OperationStatus::ProtocolViolation
    } else {
        OperationStatus::Pending
    }
}

impl Response {
    pub open spec fn spec_status(&self) -> OperationStatus {
        status_of(self.done, self.error is Some, self.response is Some)
    }

    pub fn status(&self) -> (r: OperationStatus)
        ensures
            r == self.spec_status(),
    {
        match (&self.error, &self.response) {
            (Some(_), Some(_)) => OperationStatus::ProtocolViolation,
            (Some(_), None) => OperationStatus::Failed,
            (None, Some(_)) => if self.done {
                OperationStatus::Succeeded
            } else {
                OperationStatus::ProtocolViolation
            },
            (None, None) => if self.done {
                OperationStatus::ProtocolViolation
            } else {
                OperationStatus::Pending
            },
        }
    }
}

/// A snapshot is taken as still running exactly when it is not done and carries neither an
/// error nor a payload.
pub proof fn lemma_pending_has_no_outcome(r: Response)
    ensures
        r.spec_status() == OperationStatus::Pending <==> (!r.done && r.error is None
            && r.response is None),
{
}

/// A done snapshot is accepted only when exactly one of error and payload is present, and is
/// otherwise a protocol violation; the one present decides between failure and success.
pub proof fn lemma_done_has_exactly_one_outcome(r: Response)
    requires
        r.done,
    ensures
        r.spec_status() != OperationStatus::ProtocolViolation <==> (r.error is Some
            != r.response is Some),
        r.spec_status() == OperationStatus::Failed <==> (r.error is Some && r.response is None),
        r.spec_status() == OperationStatus::Succeeded <==> (r.error is None
            && r.response is Some),
        r.spec_status() != OperationStatus::Pending,
{
}

/// What the standard base64 alphabet, with padding, decodes the text to; `None` where the
/// text is not valid base64.
pub uninterp spec fn base64_decoded(text: Seq<char>) -> Option<Seq<u8>>;

#[verifier::external_type_specification]
#[verifier::external_body]
pub struct ExDecodeError(base64::DecodeError);

/// Relies on `base64::Engine::decode` of the `base64::engine::general_purpose::STANDARD`
/// engine: the decoded bytes, or an error where the text is not valid padded base64.
#[verifier::external_body]
fn decode_base64(text: &str) -> (r: Result<Vec<u8>, base64::DecodeError>)
    ensures
        match r {
            Ok(bytes) => base64_decoded(text@) == Some(bytes@),
            Err(_) => base64_decoded(text@) is None,
        },
{
    base64::Engine::decode(&base64::engine::general_purpose::STANDARD, text)
}

/// A generated image, decoded.
#[derive(Debug, Clone)]
pub struct GeneratedImage {
    pub bytes: Vec<u8>,
    pub model_version: Option<String>,
}

pub const INVALID_IMAGE: &'static str = "the image is not valid base64";

impl ResponseWrapper {
    /// Decodes the payload's image.
    pub fn decode_image(self) -> (r: Result<GeneratedImage, ClientError>)
        ensures
            base64_decoded(self.image@) is Some <==> r is Ok,
            r is Ok ==> r->Ok_0.bytes@ == base64_decoded(self.image@)->0
                && r->Ok_0.model_version == self.model_version,
            r is Err ==> r->Err_0 is DecodeFailure && r->Err_0->raw == self.image
                && r->Err_0->cause@ == INVALID_IMAGE@,
    {
        match decode_base64(self.image.as_str()) {
            Ok(bytes) => Ok(GeneratedImage { bytes, model_version: self.model_version }),
            Err(_) => Err(
                ClientError::DecodeFailure {
                    raw: self.image,
                    cause: String::from_str(INVALID_IMAGE),
                },
            ),
        }
    }
}

} // verus!
