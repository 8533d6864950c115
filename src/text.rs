use vstd::prelude::*;
use crate::operation::ErrorWrapper;
use crate::poller::{authorization_of, make_authorization};

verus! {

/// Endpoint that answers text completion requests.
pub const COMPLETION_URL: &'static str =
    "https://llm.api.cloud.yandex.net/foundationModels/v1/completion";

/// Supported text models.
#[derive(Debug, Clone, Copy, PartialEq, Eq, Structural)]
pub enum ModelType {
    GptLite,
    GptPro,
    Llama8B,
    Llama70B,
}

impl ModelType {
    pub open spec fn spec_str(self) -> Seq<char> {
        match self {
            ModelType::GptLite => "yandexgpt-lite"@,
            ModelType::GptPro => "yandexgpt"@,
            ModelType::Llama8B => "llama-lite"@,
            ModelType::Llama70B => "llama"@,
        }
    }

    /// The model's segment of the routing identifier.
    pub fn as_str(&self) -> (r: &'static str)
        ensures
            r@ == self.spec_str(),
    {
        match self {
            ModelType::GptLite => "yandexgpt-lite",
            ModelType::GptPro => "yandexgpt",
            ModelType::Llama8B => "llama-lite",
            ModelType::Llama70B => "llama",
        }
    }
}

/// Supported model versions.
#[derive(Debug, Clone, Copy, PartialEq, Eq, Structural)]
pub enum Version {
    Deprecated,
    Latest,
    RC,
}

impl Version {
    pub open spec fn spec_str(self) -> Seq<char> {
        match self {
            Version::Deprecated => "deprecated"@,
            Version::Latest => "latest"@,
            Version::RC => "rc"@,
        }
    }

    /// The version's segment of the routing identifier.
    pub fn as_str(&self) -> (r: &'static str)
        ensures
            r@ == self.spec_str(),
    {
        match self {
            Version::Deprecated => "deprecated",
            Version::Latest => "latest",
            Version::RC => "rc",
        }
    }
}

/// Who speaks a message.
#[derive(Debug, Clone, Copy, PartialEq, Eq, Structural)]
pub enum Role {
    System,
    User,
    Assistant,
}

/// A call of a tool that the model asks for.
#[derive(Debug, Clone)]
pub struct FunctionCall {
    pub name: String,
    /// The arguments as raw JSON text.
    pub arguments: String,
}

#[derive(Debug, Clone)]
pub struct ToolCallWrapper {
    pub function_call: FunctionCall,
}

#[derive(Debug, Clone)]
pub struct ToolCallList {
    pub tool_calls: Vec<ToolCallWrapper>,
}

/// What a tool answered.
#[derive(Debug, Clone)]
pub struct FunctionResult {
    pub name: String,
    pub content: String,
}

#[derive(Debug, Clone)]
pub struct ToolResultWrapper {
    pub function_result: FunctionResult,
}

#[derive(Debug, Clone)]
pub struct ToolResultList {
    pub tool_results: Vec<ToolResultWrapper>,
}

/// One message of a conversation.
#[derive(Debug, Clone)]
pub struct Message {
    pub role: Role,
    pub text: Option<String>,
    pub tool_call_list: Option<ToolCallList>,
    pub tool_result_list: Option<ToolResultList>,
}

/// Builder for `Message`; the role defaults to `User`.
pub struct MessageBuilder {
    pub role: Option<Role>,
    pub text: Option<String>,
    pub tool_call_list: Option<ToolCallList>,
    pub tool_result_list: Option<ToolResultList>,
}

impl MessageBuilder {
    pub fn new() -> (r: Self)
        ensures
            r.role is None,
            r.text is None,
            r.tool_call_list is None,
            r.tool_result_list is None,
    {
        MessageBuilder { role: None, text: None, tool_call_list: None, tool_result_list: None }
    }

    pub fn with_role(self, role: Role) -> (r: Self)
        ensures
            r.role == Some(role),
            r.text == self.text,
            r.tool_call_list == self.tool_call_list,
            r.tool_result_list == self.tool_result_list,
    {
        MessageBuilder { role: Some(role), ..self }
    }

    pub fn with_text(self, text: &str) -> (r: Self)
        ensures
            r.role == self.role,
            r.text is Some && r.text->0@ == text@,
            r.tool_call_list == self.tool_call_list,
            r.tool_result_list == self.tool_result_list,
    {
        MessageBuilder { text: Some(text.to_string()), ..self }
    }

    pub fn with_tool_call_list(self, tool_call_list: ToolCallList) -> (r: Self)
        ensures
            r.role == self.role,
            r.text == self.text,
            r.tool_call_list == Some(tool_call_list),
            r.tool_result_list == self.tool_result_list,
    {
        MessageBuilder { tool_call_list: Some(tool_call_list), ..self }
    }

    pub fn with_tool_result_list(self, tool_result_list: ToolResultList) -> (r: Self)
        ensures
            r.role == self.role,
            r.text == self.text,
            r.tool_call_list == self.tool_call_list,
            r.tool_result_list == Some(tool_result_list),
    {
        MessageBuilder { tool_result_list: Some(tool_result_list), ..self }
    }

    pub fn build(self) -> (r: Message)
        ensures
            r.role == match self.role {
                Some(role) => role,
                None => Role::User,
            },
            r.text == self.text,
            r.tool_call_list == self.tool_call_list,
            r.tool_result_list == self.tool_result_list,
    {
        let role = match self.role {
            Some(role) => role,
            None => Role::User,
        };
        Message {
            role,
            text: self.text,
            tool_call_list: self.tool_call_list,
            tool_result_list: self.tool_result_list,
        }
    }
}

#[derive(Debug, Clone, Copy, PartialEq, Eq, Structural)]
pub enum ReasoningMode {
    ReasoningModeUnspecified,
    Disabled,
    EnabledHidden,
}

#[derive(Debug, Clone, Copy, PartialEq, Eq, Structural)]
pub struct ReasoningOptions {
    pub mode: ReasoningMode,
}

#[derive(Debug, Clone, Copy, PartialEq, Eq, Structural)]
pub enum ToolChoiceMode {
    ToolChoiceModeUnspecified,
    Auto,
    /// The model calls no tool (`NONE` on the wire).
    Never,
    Required,
}

#[derive(Debug, Clone)]
pub struct ToolChoice {
    pub mode: ToolChoiceMode,
    pub function_name: String,
}

/// The error object of a failed completion call.
#[derive(Debug, Clone)]
pub struct Error {
    pub code: String,
    pub message: String,
}

impl Error {
    /// The same error in the form shared with the image path.
    pub fn into_service_error(self) -> (r: ErrorWrapper)
        ensures
            r.code == self.code,
            r.message == self.message,
            r.details is None,
    {
        ErrorWrapper { code: self.code, message: self.message, details: None }
    }
}

#[derive(Debug, Clone, Copy, PartialEq, Eq, Structural)]
pub struct CompletionTokensDetails {
    pub reasoning_tokens: i64,
}

/// Token counts of a completion.
#[derive(Debug, Clone, Copy, PartialEq, Eq, Structural)]
pub struct Usage {
    pub input_text_tokens: i64,
    pub completion_tokens: i64,
    pub total_tokens: i64,
    pub completion_tokens_details: Option<CompletionTokensDetails>,
}

/// One answer of the model.
#[derive(Debug, Clone)]
pub struct Alternative {
    pub message: Message,
}

#[derive(Debug, Clone)]
pub struct ResultWrapper {
    pub alternatives: Vec<Alternative>,
    pub usage: Usage,
    pub model_version: String,
}

/// The decoded answer to a completion request.
#[derive(Debug, Clone)]
pub struct CompletionResult {
    pub result: ResultWrapper,
}

impl CompletionResult {
    /// The text of the first alternative, unchanged.
    pub fn first_text(&self) -> (r: Option<String>)
        ensures
            r is Some <==> (self.result.alternatives@.len() > 0
                && self.result.alternatives@[0].message.text is Some),
            r is Some ==> r->0@ == self.result.alternatives@[0].message.text->0@,
    {
        if self.result.alternatives.len() == 0 {
            return None;
        }
        match &self.result.alternatives[0].message.text {
            Some(t) => Some(t.clone()),
            None => None,
        }
    }
}

/// The routing identifier of a text model for an account scope.
pub open spec fn gpt_model_uri(bucket_id: Seq<char>, model: ModelType, version: Version) -> Seq<char> {
    "gpt://"@ + bucket_id + "/"@ + model.spec_str() + "/"@ + version.spec_str()
}

/// Credentials for the text service.
pub struct TextGenerator {
    api_key: String,
    bucket_id: String,
}

impl TextGenerator {
    pub closed spec fn spec_api_key(&self) -> Seq<char> {
        self.api_key@
    }

    pub closed spec fn spec_bucket_id(&self) -> Seq<char> {
        self.bucket_id@
    }

    pub fn new(api_key: String, bucket_id: String) -> (r: Self)
        ensures
            r.spec_api_key() == api_key@,
            r.spec_bucket_id() == bucket_id@,
    {
        TextGenerator { api_key, bucket_id }
    }

    pub fn change_credentials(&mut self, api_key: String, bucket_id: String)
        ensures
            final(self).spec_api_key() == api_key@,
            final(self).spec_bucket_id() == bucket_id@,
    {
        self.api_key = api_key;
        self.bucket_id = bucket_id;
    }

    /// The routing identifier of `model` at `version` for this account scope.
    pub fn model_uri(&self, model: ModelType, version: Version) -> (r: String)
        ensures
            r@ == gpt_model_uri(self.spec_bucket_id(), model, version),
    {
        String::from_str("gpt://")
            .concat(self.bucket_id.as_str())
            .concat("/")
            .concat(model.as_str())
            .concat("/")
            .concat(version.as_str())
    }

    /// The `Authorization` header value of every call.
    pub fn authorization(&self) -> (r: String)
        ensures
            r@ == authorization_of(self.spec_api_key()),
    {
        make_authorization(self.api_key.as_str())
    }
}

} // verus!
