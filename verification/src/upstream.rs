//! The call to the upstream provider, and the reading of its reply.

use vstd::prelude::*;
use vstd::string::StringExecFns;
use crate::config::{Config, ConfigView};
use crate::json::{owned, Json};
use crate::message::{conversation, Message, MessageView, Role};

verus! {

/// The value of `object` in every response.
pub const RESPONSE_OBJECT: &'static str = "chat.completion";

/// The sampling parameters of an upstream call. Fractions are held in hundredths.
#[derive(Clone, Copy, Debug, PartialEq, Eq, Structural)]
pub struct SamplingProfile {
    pub max_tokens: u32,
    pub temperature_hundredths: u32,
    pub top_p_hundredths: u32,
    pub frequency_penalty: i32,
    pub presence_penalty: i32,
}

impl SamplingProfile {
    /// The one profile in use: 1200 tokens, temperature 0.70, top-p 0.95, no penalties.
    pub open spec fn fixed() -> SamplingProfile {
        SamplingProfile {
            max_tokens: 1200,
            temperature_hundredths: 70,
            top_p_hundredths: 95,
            frequency_penalty: 0,
            presence_penalty: 0,
        }
    }

    /// The one profile in use.
    pub fn standard() -> (profile: SamplingProfile)
        ensures
            profile == SamplingProfile::fixed(),
    {
        SamplingProfile {
            max_tokens: 1200,
            temperature_hundredths: 70,
            top_p_hundredths: 95,
            frequency_penalty: 0,
            presence_penalty: 0,
        }
    }
}

/// The body of an upstream call.
#[derive(Clone, Debug, PartialEq, Eq)]
pub struct UpstreamPayload {
    pub messages: Vec<Message>,
    pub sampling: SamplingProfile,
    /// The stop sequence; the gateway sets none.
    pub stop: Option<String>,
}

/// A payload as a mathematical value.
pub struct PayloadView {
    pub messages: Seq<MessageView>,
    pub sampling: SamplingProfile,
    pub stop: Option<Seq<char>>,
}

impl View for UpstreamPayload {
    type V = PayloadView;

    open spec fn view(&self) -> PayloadView {
        PayloadView {
            messages: conversation(self.messages@),
            sampling: self.sampling,
            stop: match self.stop {
                Some(text) => Some(text@),
                None => None,
            },
        }
    }
}

/// One call to the upstream provider: where to post, the secret to present, and the body.
#[derive(Clone, Debug, PartialEq, Eq)]
pub struct UpstreamCall {
    pub url: String,
    pub api_key: String,
    pub payload: UpstreamPayload,
}

/// A call as a mathematical value.
pub struct CallView {
    pub url: Seq<char>,
    pub api_key: Seq<char>,
    pub payload: PayloadView,
}

impl View for UpstreamCall {
    type V = CallView;

    open spec fn view(&self) -> CallView {
        CallView { url: self.url@, api_key: self.api_key@, payload: self.payload@ }
    }
}

/// Why the upstream provider gave no usable reply.
#[derive(Clone, Copy, Debug, PartialEq, Eq, Structural)]
pub enum UpstreamError {
    /// The call did not go through.
    Transport,
    /// The reply is not a JSON document.
    MalformedBody,
}

/// The address of the upstream chat-completions endpoint.
pub open spec fn completions_address(config: ConfigView) -> Seq<char> {
    config.endpoint + "/openai/deployments/"@ + config.deployment
        + "/chat/completions?api-version="@ + config.api_version
}

/// The payload that carries `messages`: the fixed sampling profile and no stop sequence.
pub open spec fn payload_for(messages: Seq<MessageView>) -> PayloadView {
    PayloadView { messages, sampling: SamplingProfile::fixed(), stop: None }
}

/// The upstream call that carries `messages`. It presents the upstream secret, never a
/// caller's key.
pub open spec fn call_for(config: ConfigView, messages: Seq<MessageView>) -> CallView {
    CallView {
        url: completions_address(config),
        api_key: config.upstream_key,
        payload: payload_for(messages),
    }
}

/// The address of the upstream chat-completions endpoint.
pub fn completions_url(config: &Config) -> (url: String)
    ensures
        url@ == completions_address(config@),
{
    let mut url = config.endpoint.clone();
    url.append("/openai/deployments/");
    url.append(config.deployment.as_str());
    url.append("/chat/completions?api-version=");
    url.append(config.api_version.as_str());
    url
}

/// Builds the upstream call that carries `messages`.
pub fn build_call(config: &Config, messages: Vec<Message>) -> (call: UpstreamCall)
    ensures
        call@ == call_for(config@, conversation(messages@)),
{
    UpstreamCall {
        url: completions_url(config),
        api_key: config.upstream_key.clone(),
        payload: UpstreamPayload { messages, sampling: SamplingProfile::standard(), stop: None },
    }
}

/// The one choice of a response.
#[derive(Clone, Debug, PartialEq, Eq)]
pub struct Choice {
    pub index: u32,
    pub message: Message,
    pub finish_reason: String,
}

/// A choice as a mathematical value.
pub struct ChoiceView {
    pub index: u32,
    pub message: MessageView,
    pub finish_reason: Seq<char>,
}

impl View for Choice {
    type V = ChoiceView;

    open spec fn view(&self) -> ChoiceView {
        ChoiceView {
            index: self.index,
            message: self.message@,
            finish_reason: self.finish_reason@,
        }
    }
}

/// What the gateway answers to a completed request.
#[derive(Clone, Debug, PartialEq, Eq)]
pub struct ChatCompletionResponse {
    pub id: String,
    pub object: String,
    pub created: u64,
    pub model: String,
    pub choices: Vec<Choice>,
}

/// A response as a mathematical value.
pub struct ResponseView {
    pub id: Seq<char>,
    pub object: Seq<char>,
    pub created: u64,
    pub model: Seq<char>,
    pub choices: Seq<ChoiceView>,
}

impl View for ChatCompletionResponse {
    type V = ResponseView;

    open spec fn view(&self) -> ResponseView {
        ResponseView {
            id: self.id@,
            object: self.object@,
            created: self.created,
            model: self.model@,
            choices: self.choices@.map_values(|c: Choice| c@),
        }
    }
}

/// The member `key` of a value that may be absent.
pub open spec fn member_of(value: Option<Json>, key: Seq<char>) -> Option<Json> {
    match value {
        Some(v) => v.member(key),
        None => None,
    }
}

/// The element `index` of a value that may be absent.
pub open spec fn element_of(value: Option<Json>, index: int) -> Option<Json> {
    match value {
        Some(v) => v.element(index),
        None => None,
    }
}

/// The text of a value, or the empty text where the value is absent or no text.
pub open spec fn text_or_empty(value: Option<Json>) -> Seq<char> {
    match value {
        Some(v) => match v.text() {
            Some(t) => t,
            None => Seq::empty(),
        },
        None => Seq::empty(),
    }
}

/// The number of a value, or zero where the value is absent or no non-negative integer.
pub open spec fn unsigned_or_zero(value: Option<Json>) -> u64 {
    match value {
        Some(v) => match v.unsigned() {
            Some(n) => n,
            None => 0,
        },
        None => 0,
    }
}

/// The first choice of an upstream reply.
pub open spec fn first_choice(reply: Json) -> Option<Json> {
    element_of(reply.member("choices"@), 0)
}

/// The `id` of an upstream reply.
pub open spec fn reply_id(reply: Json) -> Seq<char> {
    text_or_empty(reply.member("id"@))
}

/// The `created` time of an upstream reply.
pub open spec fn reply_created(reply: Json) -> u64 {
    unsigned_or_zero(reply.member("created"@))
}

/// The content of the first choice's message in an upstream reply.
pub open spec fn reply_content(reply: Json) -> Seq<char> {
    text_or_empty(member_of(member_of(first_choice(reply), "message"@), "content"@))
}

/// The finish reason of the first choice in an upstream reply.
pub open spec fn reply_finish_reason(reply: Json) -> Seq<char> {
    text_or_empty(member_of(first_choice(reply), "finish_reason"@))
}

/// The response to a request for `model` that the upstream answered with `reply`: one
/// choice at index 0, spoken by the assistant; absent fields read as empty or zero.
pub open spec fn response_for(model: Seq<char>, reply: Json) -> ResponseView {
    ResponseView {
        id: reply_id(reply),
        object: RESPONSE_OBJECT@,
        created: reply_created(reply),
        model,
        choices: seq![
            ChoiceView {
                index: 0,
                message: MessageView { role: Role::Assistant, content: reply_content(reply) },
                finish_reason: reply_finish_reason(reply),
            },
        ],
    }
}

fn member<'a>(value: Option<&'a Json>, key: &str) -> (found: Option<&'a Json>)
    ensures
        owned(found) == member_of(owned(value), key@),
{
    match value {
        Some(v) => v.get(key),
        None => None,
    }
}

fn element(value: Option<&Json>, index: usize) -> (found: Option<&Json>)
    ensures
        owned(found) == element_of(owned(value), index as int),
{
    match value {
        Some(v) => v.at(index),
        None => None,
    }
}

fn text(value: Option<&Json>) -> (found: String)
    ensures
        found@ == text_or_empty(owned(value)),
{
    match value {
        Some(v) => match v.as_str() {
            Some(t) => String::from_str(t),
            None => String::new(),
        },
        None => String::new(),
    }
}

fn unsigned(value: Option<&Json>) -> (found: u64)
    ensures
        found == unsigned_or_zero(owned(value)),
{
    match value {
        Some(v) => match v.as_u64() {
            Some(n) => n,
            None => 0,
        },
        None => 0,
    }
}

/// Shapes the response to a request for `model` out of the upstream `reply`.
pub fn shape_response(model: String, reply: &Json) -> (response: ChatCompletionResponse)
    ensures
        response@ == response_for(model@, *reply),
{
    let choice = element(reply.get("choices"), 0);
    let content = text(member(member(choice, "message"), "content"));
    let finish_reason = text(member(choice, "finish_reason"));
    let message = Message { role: Role::Assistant, content };
    let only = Choice { index: 0, message, finish_reason };
    let mut choices: Vec<Choice> = Vec::new();
    choices.push(only);
    let response = ChatCompletionResponse {
        id: text(reply.get("id")),
        object: String::from_str(RESPONSE_OBJECT),
        created: unsigned(reply.get("created")),
        model,
        choices,
    };
    assert(response@.choices =~= response_for(model@, *reply).choices);
    response
}

} // verus!
