use vstd::prelude::*;
use crate::error::{BuildError, RequiredField, ValidationError};

verus! {

/// Output encoding of a generated image.
#[derive(Debug, Clone, Copy, PartialEq, Eq, Structural)]
pub enum ImageType {
    Jpeg,
    Png,
}

impl ImageType {
    pub open spec fn spec_mime(self) -> Seq<char> {
        match self {
            ImageType::Jpeg => "image/jpeg"@,
            ImageType::Png => "image/png"@,
        }
    }

    /// The MIME type that names this encoding.
    pub fn to_string(&self) -> (r: String)
        ensures
            r@ == self.spec_mime(),
    {
        let prefix = String::from_str("image/");
        proof {
            reveal_strlit("image/");
            reveal_strlit("jpeg");
            reveal_strlit("png");
            reveal_strlit("image/jpeg");
            reveal_strlit("image/png");
        }
        match self {
            ImageType::Jpeg => prefix.concat("jpeg"),
            ImageType::Png => prefix.concat("png"),
        }
    }
}

/// Relative width and height of the generated image.
#[derive(Debug, Clone, Copy, PartialEq, Eq, Structural)]
pub struct AspectRatio {
    pub width_ratio: i64,
    pub height_ratio: i64,
}

/// Builder for `AspectRatio`; both sides default to one.
#[derive(Debug)]
pub struct AspectRatioBuilder {
    pub width_ratio: i64,
    pub height_ratio: i64,
}

impl AspectRatioBuilder {
    pub fn new() -> (r: Self)
        ensures
            r.width_ratio == 1,
            r.height_ratio == 1,
    {
        AspectRatioBuilder { width_ratio: 1, height_ratio: 1 }
    }

    pub fn width_ratio(self, width_ratio: i64) -> (r: Self)
        ensures
            r.width_ratio == width_ratio,
            r.height_ratio == self.height_ratio,
    {
        AspectRatioBuilder { width_ratio, ..self }
    }

    pub fn height_ratio(self, height_ratio: i64) -> (r: Self)
        ensures
            r.width_ratio == self.width_ratio,
            r.height_ratio == height_ratio,
    {
        AspectRatioBuilder { height_ratio, ..self }
    }

    pub fn build(self) -> (r: AspectRatio)
        ensures
            r.width_ratio == self.width_ratio,
            r.height_ratio == self.height_ratio,
    {
        AspectRatio { width_ratio: self.width_ratio, height_ratio: self.height_ratio }
    }
}

/// How the image is to be produced and encoded.
#[derive(Debug, Clone)]
pub struct GenerationOptions {
    pub mime_type: String,
    pub seed: Option<i64>,
    pub aspect_ratio: AspectRatio,
}

/// Builder for `GenerationOptions`; the MIME type and the aspect ratio are required.
#[derive(Debug)]
pub struct GenerationOptionsBuilder {
    pub mime_type: Option<String>,
    pub seed: Option<i64>,
    pub aspect_ratio: Option<AspectRatio>,
}

impl GenerationOptionsBuilder {
    pub fn new() -> (r: Self)
        ensures
            r.mime_type is None,
            r.seed is None,
            r.aspect_ratio is None,
    {
        GenerationOptionsBuilder { mime_type: None, seed: None, aspect_ratio: None }
    }

    pub fn mime_type(self, mime_type: ImageType) -> (r: Self)
        ensures
            r.mime_type is Some && r.mime_type->0@ == mime_type.spec_mime(),
            r.seed == self.seed,
            r.aspect_ratio == self.aspect_ratio,
    {
        GenerationOptionsBuilder { mime_type: Some(mime_type.to_string()), ..self }
    }

    pub fn seed(self, seed: i64) -> (r: Self)
        ensures
            r.mime_type == self.mime_type,
            r.seed == Some(seed),
            r.aspect_ratio == self.aspect_ratio,
    {
        GenerationOptionsBuilder { seed: Some(seed), ..self }
    }

    pub fn aspect_ratio(self, aspect_ratio: AspectRatio) -> (r: Self)
        ensures
            r.mime_type == self.mime_type,
            r.seed == self.seed,
            r.aspect_ratio == Some(aspect_ratio),
    {
        GenerationOptionsBuilder { aspect_ratio: Some(aspect_ratio), ..self }
    }

    /// Fails on a missing MIME type first, then on a missing aspect ratio.
    pub fn build(self) -> (r: Result<GenerationOptions, BuildError>)
        ensures
            self.mime_type is None ==> r is Err
                && r->Err_0.message@ == RequiredField::MimeType.spec_message(),
            self.mime_type is Some && self.aspect_ratio is None ==> r is Err
                && r->Err_0.message@ == RequiredField::AspectRatio.spec_message(),
            self.mime_type is Some && self.aspect_ratio is Some ==> r is Ok
                && r->Ok_0.mime_type == self.mime_type->0
                && r->Ok_0.seed == self.seed
                && r->Ok_0.aspect_ratio == self.aspect_ratio->0,
    {
        match (self.mime_type, self.aspect_ratio) {
            (None, _) => Err(ValidationError::MissingField(RequiredField::MimeType).to_build_error()),
            (Some(_), None) => Err(
                ValidationError::MissingField(RequiredField::AspectRatio).to_build_error(),
            ),
            (Some(mime_type), Some(aspect_ratio)) => Ok(
                GenerationOptions { mime_type, seed: self.seed, aspect_ratio },
            ),
        }
    }
}

/// One weighted prompt fragment of an image request.
#[derive(Debug, Clone)]
pub struct Message {
    pub text: String,
    pub weight: i64,
}

impl Message {
    pub open spec fn view_pair(self) -> (Seq<char>, i64) {
        (self.text@, self.weight)
    }
}

/// Builder for `Message`; the weight defaults to one and the text must not be empty.
pub struct MessageBuilder {
    pub text: String,
    pub weight: i64,
}

impl MessageBuilder {
    pub fn new() -> (r: Self)
        ensures
            r.text@ == Seq::<char>::empty(),
            r.weight == 1,
    {
        MessageBuilder { text: String::new(), weight: 1 }
    }

    pub fn text(self, text: &str) -> (r: Self)
        ensures
            r.text@ == text@,
            r.weight == self.weight,
    {
        MessageBuilder { text: text.to_string(), ..self }
    }

    pub fn weight(self, weight: i64) -> (r: Self)
        ensures
            r.text == self.text,
            r.weight == weight,
    {
        MessageBuilder { weight, ..self }
    }

    pub fn build(self) -> (r: Result<Message, BuildError>)
        ensures
            self.text@.len() == 0 <==> r is Err,
            r is Err ==> r->Err_0.message@ == RequiredField::Text.spec_message(),
            r is Ok ==> r->Ok_0.text == self.text && r->Ok_0.weight == self.weight,
    {
        if self.text.as_str().is_empty() {
            return Err(ValidationError::MissingField(RequiredField::Text).to_build_error());
        }
        Ok(Message { text: self.text, weight: self.weight })
    }
}

/// The routing identifier of the image model for an account scope.
pub open spec fn art_model_uri(bucket_id: Seq<char>) -> Seq<char> {
    "art://"@ + bucket_id + "/yandex-art/latest"@
}

pub fn make_art_model_uri(bucket_id: &str) -> (r: String)
    ensures
        r@ == art_model_uri(bucket_id@),
{
    String::from_str("art://").concat(bucket_id).concat("/yandex-art/latest")
}

/// A complete image generation request, as it is sent.
#[derive(Debug, Clone)]
pub struct Request {
    pub model_uri: String,
    pub messages: Vec<Message>,
    pub generation_options: GenerationOptions,
}

pub open spec fn messages_view(messages: Seq<Message>) -> Seq<(Seq<char>, i64)> {
    messages.map_values(|m: Message| m.view_pair())
}

impl Request {
    /// At least one fragment, and no fragment with empty text.
    pub open spec fn wf(&self) -> bool {
        &&& self.messages@.len() > 0
        &&& forall|i: int| 0 <= i < self.messages@.len() ==> #[trigger] self.messages@[i].text@.len() > 0
    }

    /// The same request routed to the image model of another account scope.
    pub fn with_model_uri(self, bucket_id: &str) -> (r: Request)
        ensures
            r.model_uri@ == art_model_uri(bucket_id@),
            r.messages == self.messages,
            r.generation_options == self.generation_options,
    {
        Request { model_uri: make_art_model_uri(bucket_id), ..self }
    }
}

/// Builder for `Request`; at least one message and the options are required.
pub struct RequestBuilder {
    pub messages: Vec<Message>,
    pub generation_options: Option<GenerationOptions>,
}

impl RequestBuilder {
    pub fn new() -> (r: Self)
        ensures
            r.messages@.len() == 0,
            r.generation_options is None,
    {
        RequestBuilder { messages: Vec::new(), generation_options: None }
    }

    pub fn message(self, message: Message) -> (r: Self)
        ensures
            r.messages@ == self.messages@.push(message),
            r.generation_options == self.generation_options,
    {
        let mut messages = self.messages;
        messages.push(message);
        RequestBuilder { messages, generation_options: self.generation_options }
    }

    pub fn generation_options(self, generation_options: GenerationOptions) -> (r: Self)
        ensures
            r.messages == self.messages,
            r.generation_options == Some(generation_options),
    {
        RequestBuilder { generation_options: Some(generation_options), ..self }
    }

    /// Fails on missing messages first, then on missing options. The routing identifier
    /// stays empty until the request is submitted.
    pub fn build(self) -> (r: Result<Request, BuildError>)
        ensures
            self.messages@.len() == 0 ==> r is Err && r->Err_0.message@ == "No messages added"@,
            self.messages@.len() > 0 && self.generation_options is None ==> r is Err
                && r->Err_0.message@ == "No generation options added"@,
            self.messages@.len() > 0 && self.generation_options is Some ==> r is Ok
                && r->Ok_0.model_uri@ == Seq::<char>::empty()
                && r->Ok_0.messages == self.messages
                && r->Ok_0.generation_options == self.generation_options->0,
    {
        if self.messages.len() == 0 {
            return Err(BuildError::new("No messages added"));
        }
        match self.generation_options {
            None => Err(BuildError::new("No generation options added")),
            Some(generation_options) => Ok(
                Request { model_uri: String::new(), messages: self.messages, generation_options },
            ),
        }
    }
}

/// A prompt fragment as a caller writes it; a missing weight counts as one.
#[derive(Debug, Clone)]
pub struct Fragment {
    pub text: String,
    pub weight: Option<i64>,
}

impl Fragment {
    pub open spec fn spec_weight(self) -> i64 {
        match self.weight {
            Some(w) => w,
            None => 1,
        }
    }
}

/// Whether some fragment has non-empty text.
pub open spec fn has_text(fragments: Seq<Fragment>) -> bool {
    exists|i: int| 0 <= i < fragments.len() && (#[trigger] fragments[i]).text@.len() > 0
}

/// The messages that the fragments make: those with empty text are left out, the others
/// keep their order, and a missing weight becomes one.
pub open spec fn prompt_of(fragments: Seq<Fragment>) -> Seq<(Seq<char>, i64)>
    decreases fragments.len(),
{
    if fragments.len() == 0 {
        Seq::empty()
    } else {
        let f = fragments.last();
        let rest = prompt_of(fragments.drop_last());
        if f.text@.len() > 0 {
            rest.push((f.text@, f.spec_weight()))
        } else {
            rest
        }
    }
}

/// All parts of an image request, each of them optional until `build` checks them.
#[derive(Debug, Clone)]
pub struct RequestConfig {
    pub fragments: Vec<Fragment>,
    pub mime_type: Option<ImageType>,
    pub seed: Option<i64>,
    pub aspect_ratio: Option<AspectRatio>,
}

impl RequestConfig {
    /// The error that `build` reports for this configuration, if any.
    pub open spec fn spec_missing(self) -> Option<RequiredField> {
        if !has_text(self.fragments@) {
            Some(RequiredField::Text)
        } else if self.mime_type is None {
            Some(RequiredField::MimeType)
        } else if self.aspect_ratio is None {
            Some(RequiredField::AspectRatio)
        } else {
            None
        }
    }

    /// Validates the parts and assembles the request routed to the account scope.
    pub fn build(self, bucket_id: &str) -> (r: Result<Request, ValidationError>)
        ensures
            r is Ok <==> (has_text(self.fragments@) && self.mime_type is Some
                && self.aspect_ratio is Some),
            r is Err ==> self.spec_missing() == Some(r->Err_0->MissingField_0),
            r is Ok ==> ({
                let q = r->Ok_0;
                &&& q.wf()
                &&& q.model_uri@ == art_model_uri(bucket_id@)
                &&& messages_view(q.messages@) == prompt_of(self.fragments@)
                &&& q.generation_options.mime_type@ == self.mime_type->0.spec_mime()
                &&& q.generation_options.seed == self.seed
                &&& q.generation_options.aspect_ratio == self.aspect_ratio->0
            }),
    {
        let mut messages: Vec<Message> = Vec::new();
        let n = self.fragments.len();
        let mut i: usize = 0;
        while i < n
            invariant
                n == self.fragments@.len(),
                i <= n,
                messages_view(messages@) == prompt_of(self.fragments@.take(i as int)),
                forall|j: int| 0 <= j < messages@.len() ==> #[trigger] messages@[j].text@.len() > 0,
                messages@.len() == 0 <==> !has_text(self.fragments@.take(i as int)),
            decreases n - i,
        {
            let f = &self.fragments[i];
            proof {
                assert(self.fragments@.take(i + 1).drop_last() == self.fragments@.take(i as int));
                assert(self.fragments@.take(i + 1).last() == *f);
                if has_text(self.fragments@.take(i as int)) {
                    let k = choose|k: int| 0 <= k < i && (#[trigger] self.fragments@.take(i as int)[k]).text@.len() > 0;
                    assert(self.fragments@.take(i + 1)[k] == self.fragments@.take(i as int)[k]);
                }
                if has_text(self.fragments@.take(i + 1)) && f.text@.len() == 0 {
                    let k = choose|k: int| 0 <= k < i + 1 && (#[trigger] self.fragments@.take(i + 1)[k]).text@.len() > 0;
                    assert(self.fragments@.take(i as int)[k] == self.fragments@.take(i + 1)[k]);
                }
            }
            if !f.text.as_str().is_empty() {
                let weight = match f.weight {
                    Some(w) => w,
                    None => 1,
                };
                let m = Message { text: f.text.clone(), weight };
                proof {
                    assert(self.fragments@.take(i + 1)[i as int] == *f);
                }
                messages.push(m);
                assert(messages_view(messages@) =~= prompt_of(self.fragments@.take(i + 1)));
            }
            i = i + 1;
        }
        assert(self.fragments@.take(n as int) == self.fragments@);
        if messages.len() == 0 {
            return Err(ValidationError::MissingField(RequiredField::Text));
        }
        let mime_type = match self.mime_type {
            None => {
                return Err(ValidationError::MissingField(RequiredField::MimeType));
            },
            Some(t) => t.to_string(),
        };
        let aspect_ratio = match self.aspect_ratio {
            None => {
                return Err(ValidationError::MissingField(RequiredField::AspectRatio));
            },
            Some(a) => a,
        };
        Ok(
            Request {
                model_uri: make_art_model_uri(bucket_id),
                messages,
                generation_options: GenerationOptions { mime_type, seed: self.seed, aspect_ratio },
            },
        )
    }
}

} // verus!
