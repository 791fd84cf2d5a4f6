//! The completion orchestrator: what to do with a request, step by step.
//!
//! A request is first received: its key is checked, and the completion is started. That
//! either rejects the request, or asks for a web search, or asks for the upstream call.
//! After a search the request is resumed with what the search gave, which asks for the
//! upstream call. The upstream reply finishes the request. The caller performs the fetches;
//! every decision is taken here.

use vstd::prelude::*;
use crate::config::{Config, ConfigView};
use crate::json::Json;
use crate::message::{
    any_system,
    conversation,
    has_system,
    preamble_view,
    search_view,
    Message,
    MessageView,
    Role,
    SEARCH_HEADING,
};
use crate::search::{
    fetched_view,
    relevant_info,
    relevant_text,
    results_of,
    results_view,
    search_address,
    search_results,
    search_url,
    SearchError,
};
use crate::text::{contains, contains_text, text_eq};
use crate::upstream::{
    build_call,
    call_for,
    response_for,
    shape_response,
    CallView,
    ChatCompletionResponse,
    ResponseView,
    UpstreamCall,
    UpstreamError,
};

verus! {

/// The header in which a caller presents its key, and in which the gateway presents the
/// upstream secret.
pub const API_KEY_HEADER: &'static str = "api-key";

/// A model name that holds this marker asks for enrichment by web search.
pub const ONLINE_MARKER: &'static str = "_onlinellm";

/// A chat-completion request as it came in.
#[derive(Clone, Debug, PartialEq, Eq)]
pub struct ChatCompletionRequest {
    pub model: String,
    pub messages: Vec<Message>,
}

/// A request as a mathematical value.
pub struct RequestView {
    pub model: Seq<char>,
    pub messages: Seq<MessageView>,
}

impl View for ChatCompletionRequest {
    type V = RequestView;

    open spec fn view(&self) -> RequestView {
        RequestView { model: self.model@, messages: conversation(self.messages@) }
    }
}

/// Why a request was not completed.
#[derive(Clone, Copy, Debug, PartialEq, Eq, Structural)]
pub enum CompletionError {
    /// The caller presented no key, or a wrong one.
    Unauthorized,
    /// The request holds no message, or could not be read.
    InvalidRequest,
    /// The upstream provider gave no usable reply.
    Upstream(UpstreamError),
}

/// The HTTP status of a completed request.
pub const STATUS_OK: u16 = 200;

impl CompletionError {
    /// The HTTP status that reports the error: 401 for a refused key, 400 for a bad request,
    /// 502 for an upstream failure.
    pub open spec fn status(self) -> u16 {
        match self {
            CompletionError::Unauthorized => 401,
            CompletionError::InvalidRequest => 400,
            CompletionError::Upstream(_) => 502,
        }
    }

    /// The text that reports the error to the caller.
    pub open spec fn reason(self) -> Seq<char> {
        match self {
            CompletionError::Unauthorized => "Invalid API key"@,
            CompletionError::InvalidRequest => "Invalid request"@,
            CompletionError::Upstream(UpstreamError::Transport) =>
                "Failed to send request to Azure OpenAI"@,
            CompletionError::Upstream(UpstreamError::MalformedBody) =>
                "Failed to parse Azure OpenAI response"@,
        }
    }

    /// The HTTP status that reports the error.
    pub fn status_code(self) -> (code: u16)
        ensures
            code == self.status(),
    {
        match self {
            CompletionError::Unauthorized => 401,
            CompletionError::InvalidRequest => 400,
            CompletionError::Upstream(_) => 502,
        }
    }

    /// The text that reports the error to the caller.
    pub fn message(self) -> (text: &'static str)
        ensures
            text@ == self.reason(),
    {
        match self {
            CompletionError::Unauthorized => "Invalid API key",
            CompletionError::InvalidRequest => "Invalid request",
            CompletionError::Upstream(UpstreamError::Transport) =>
                "Failed to send request to Azure OpenAI",
            CompletionError::Upstream(UpstreamError::MalformedBody) =>
                "Failed to parse Azure OpenAI response",
        }
    }
}

/// The HTTP status that ends a request: 200 with a response, else the status of the error.
pub open spec fn final_status(result: Result<ResponseView, CompletionError>) -> u16 {
    match result {
        Ok(_) => STATUS_OK,
        Err(e) => e.status(),
    }
}

/// A request that waits for its web search.
#[derive(Clone, Debug, PartialEq, Eq)]
pub struct PendingSearch {
    pub request: ChatCompletionRequest,
    /// The address to fetch.
    pub url: String,
}

/// A waiting search as a mathematical value.
pub struct PendingSearchView {
    pub request: RequestView,
    pub url: Seq<char>,
}

impl View for PendingSearch {
    type V = PendingSearchView;

    open spec fn view(&self) -> PendingSearchView {
        PendingSearchView { request: self.request@, url: self.url@ }
    }
}

/// A request that waits for the upstream reply.
#[derive(Clone, Debug, PartialEq, Eq)]
pub struct PendingCompletion {
    /// The model that the request named.
    pub model: String,
    /// The call to make.
    pub call: UpstreamCall,
}

/// A waiting completion as a mathematical value.
pub struct PendingCompletionView {
    pub model: Seq<char>,
    pub call: CallView,
}

impl View for PendingCompletion {
    type V = PendingCompletionView;

    open spec fn view(&self) -> PendingCompletionView {
        PendingCompletionView { model: self.model@, call: self.call@ }
    }
}

/// What is decided for a request as it comes in.
#[derive(Clone, Debug, PartialEq, Eq)]
pub enum Admission {
    /// Answer with the error; fetch nothing.
    Rejected(CompletionError),
    /// Fetch the search page, then resume.
    Search(PendingSearch),
    /// Make the upstream call, then finish.
    Forward(PendingCompletion),
}

/// An admission as a mathematical value.
pub enum AdmissionView {
    Rejected(CompletionError),
    Search(PendingSearchView),
    Forward(PendingCompletionView),
}

impl View for Admission {
    type V = AdmissionView;

    open spec fn view(&self) -> AdmissionView {
        match self {
            Admission::Rejected(e) => AdmissionView::Rejected(*e),
            Admission::Search(pending) => AdmissionView::Search(pending@),
            Admission::Forward(pending) => AdmissionView::Forward(pending@),
        }
    }
}

/// The view of a key that may be absent.
pub open spec fn key_view(presented: Option<&str>) -> Option<Seq<char>> {
    match presented {
        Some(key) => Some(key@),
        None => None,
    }
}

/// The view of an enrichment that may be absent.
pub open spec fn enrichment_view(enrichment: Option<&str>) -> Option<Seq<char>> {
    match enrichment {
        Some(info) => Some(info@),
        None => None,
    }
}

/// The view of the end of a request.
pub open spec fn completion_view(
    result: Result<ChatCompletionResponse, CompletionError>,
) -> Result<ResponseView, CompletionError> {
    match result {
        Ok(response) => Ok(response@),
        Err(e) => Err(e),
    }
}

/// A caller is let in where it presents a key and the key is the secret.
pub open spec fn key_accepted(presented: Option<Seq<char>>, secret: Seq<char>) -> bool {
    presented == Some(secret)
}

/// The model name asks for enrichment by web search.
pub open spec fn is_online(model: Seq<char>) -> bool {
    contains_text(model, ONLINE_MARKER@)
}

/// The conversation with the search message for `info` in front.
pub open spec fn with_search(messages: Seq<MessageView>, info: Seq<char>) -> Seq<MessageView> {
    seq![search_view(info)] + messages
}

/// The conversation itself where it has a system message, else with the default preamble in
/// front.
pub open spec fn with_preamble(messages: Seq<MessageView>) -> Seq<MessageView> {
    if has_system(messages) {
        messages
    } else {
        seq![preamble_view()] + messages
    }
}

/// The messages that go upstream: first the search message, where there is an enrichment,
/// then the check for a system message.
pub open spec fn assembled(
    messages: Seq<MessageView>,
    enrichment: Option<Seq<char>>,
) -> Seq<MessageView> {
    with_preamble(
        match enrichment {
            Some(info) => with_search(messages, info),
            None => messages,
        },
    )
}

/// The waiting completion of a request for `model` with `messages`.
pub open spec fn forwarded(
    config: ConfigView,
    model: Seq<char>,
    messages: Seq<MessageView>,
    enrichment: Option<Seq<char>>,
) -> PendingCompletionView {
    PendingCompletionView { model, call: call_for(config, assembled(messages, enrichment)) }
}

/// What the orchestrator decides for a request whose key was accepted: an empty conversation
/// is rejected; an online model searches for the content of the last message; any other
/// model goes upstream at once.
pub open spec fn started(config: ConfigView, request: RequestView) -> AdmissionView {
    if request.messages.len() == 0 {
        AdmissionView::Rejected(CompletionError::InvalidRequest)
    } else if is_online(request.model) {
        AdmissionView::Search(
            PendingSearchView { request, url: search_address(request.messages.last().content) },
        )
    } else {
        AdmissionView::Forward(forwarded(config, request.model, request.messages, None))
    }
}

/// What is decided for a request as it comes in: a key that is not accepted rejects it
/// before anything else is looked at; with an accepted key the orchestrator decides.
pub open spec fn received(
    config: ConfigView,
    presented: Option<Seq<char>>,
    request: RequestView,
) -> AdmissionView {
    if key_accepted(presented, config.inbound_key) {
        started(config, request)
    } else {
        AdmissionView::Rejected(CompletionError::Unauthorized)
    }
}

/// The waiting completion after a search: the enrichment is what the search gave, or empty
/// where it failed.
pub open spec fn resumed(
    config: ConfigView,
    pending: PendingSearchView,
    results: Result<Seq<Seq<char>>, SearchError>,
) -> PendingCompletionView {
    forwarded(
        config,
        pending.request.model,
        pending.request.messages,
        Some(relevant_info(results)),
    )
}

/// The end of a request for `model`: the shaped reply, or the upstream failure.
pub open spec fn completed(
    model: Seq<char>,
    outcome: Result<Json, UpstreamError>,
) -> Result<ResponseView, CompletionError> {
    match outcome {
        Ok(reply) => Ok(response_for(model, reply)),
        Err(e) => Err(CompletionError::Upstream(e)),
    }
}

/// Whether the presented key is the secret, byte for byte. An absent key is refused.
pub fn verify_api_key(presented: Option<&str>, secret: &str) -> (accepted: bool)
    ensures
        accepted == key_accepted(key_view(presented), secret@),
{
    match presented {
        Some(key) => text_eq(key, secret),
        None => false,
    }
}

/// Whether the model name asks for enrichment by web search.
pub fn wants_search(model: &str) -> (online: bool)
    ensures
        online == is_online(model@),
{
    contains(model, ONLINE_MARKER)
}

/// Assembles the messages that go upstream.
pub fn assemble_messages(
    messages: Vec<Message>,
    enrichment: Option<&str>,
) -> (working: Vec<Message>)
    ensures
        conversation(working@) == assembled(conversation(messages@), enrichment_view(enrichment)),
{
    let mut working = messages;
    match enrichment {
        Some(info) => {
            working.insert(0, Message::search(info));
            assert(conversation(working@) =~= with_search(conversation(messages@), info@));
        },
        None => {},
    }
    if !any_system(&working) {
        let ghost before = conversation(working@);
        working.insert(0, Message::preamble());
        assert(conversation(working@) =~= seq![preamble_view()] + before);
    }
    working
}

fn forward(
    config: &Config,
    model: String,
    messages: Vec<Message>,
    enrichment: Option<&str>,
) -> (pending: PendingCompletion)
    ensures
        pending@ == forwarded(
            config@,
            model@,
            conversation(messages@),
            enrichment_view(enrichment),
        ),
{
    let working = assemble_messages(messages, enrichment);
    PendingCompletion { model, call: build_call(config, working) }
}

/// Starts the completion of a request whose key was accepted: decides whether to reject it,
/// to search first, or to go upstream.
pub fn start(config: &Config, request: ChatCompletionRequest) -> (admission: Admission)
    ensures
        admission@ == started(config@, request@),
{
    let count: usize = request.messages.len();
    if count == 0 {
        return Admission::Rejected(CompletionError::InvalidRequest);
    }
    if wants_search(request.model.as_str()) {
        let url = search_url(request.messages[count - 1].content.as_str());
        Admission::Search(PendingSearch { request, url })
    } else {
        let ChatCompletionRequest { model, messages } = request;
        Admission::Forward(forward(config, model, messages, None))
    }
}

/// Receives a request with the key that its caller presented: checks the key, then starts
/// the completion.
pub fn receive(
    config: &Config,
    presented: Option<&str>,
    request: ChatCompletionRequest,
) -> (admission: Admission)
    ensures
        admission@ == received(config@, key_view(presented), request@),
{
    if verify_api_key(presented, config.inbound_key.as_str()) {
        start(config, request)
    } else {
        Admission::Rejected(CompletionError::Unauthorized)
    }
}

/// Resumes a request with the results of its search, or with the reason why there are none.
/// A failed search is not an error of the request: it goes on with an empty enrichment.
pub fn resume_with_results(
    config: &Config,
    pending: PendingSearch,
    results: Result<Vec<String>, SearchError>,
) -> (next: PendingCompletion)
    ensures
        next@ == resumed(config@, pending@, results_view(results)),
{
    let info = relevant_text(&results);
    let ChatCompletionRequest { model, messages } = pending.request;
    forward(config, model, messages, Some(info.as_str()))
}

/// Resumes a request with the page that its search fetched, or with the reason why there is
/// none.
pub fn resume(
    config: &Config,
    pending: PendingSearch,
    fetched: Result<String, SearchError>,
) -> (next: PendingCompletion)
    ensures
        next@ == resumed(config@, pending@, results_of(fetched_view(fetched))),
{
    resume_with_results(config, pending, search_results(fetched))
}

/// Finishes a request with the upstream reply, or with the reason why there is none.
pub fn finish(
    pending: PendingCompletion,
    outcome: Result<Json, UpstreamError>,
) -> (result: Result<ChatCompletionResponse, CompletionError>)
    ensures
        completion_view(result) == completed(pending.model@, outcome),
{
    match outcome {
        Ok(reply) => Ok(shape_response(pending.model, &reply)),
        Err(e) => Err(CompletionError::Upstream(e)),
    }
}

/// The HTTP status that ends a request.
pub fn status_of(result: &Result<ChatCompletionResponse, CompletionError>) -> (code: u16)
    ensures
        code == final_status(completion_view(*result)),
{
    match result {
        Ok(_) => STATUS_OK,
        Err(e) => e.status_code(),
    }
}

/// With an enrichment, the search message leads and the conversation follows unchanged: the
/// search message is a system message, so no preamble is added.
pub proof fn lemma_search_message_leads(messages: Seq<MessageView>, info: Seq<char>)
    ensures
        assembled(messages, Some(info)) == seq![search_view(info)] + messages,
        assembled(messages, Some(info)).len() == messages.len() + 1,
{
    assert(with_search(messages, info)[0].role == Role::System);
}

/// Without an enrichment, a conversation that has a system message goes upstream as it is,
/// and any other gets the default preamble in front and nothing else.
pub proof fn lemma_preamble_leads_unless_system(messages: Seq<MessageView>)
    ensures
        has_system(messages) ==> assembled(messages, None) == messages,
        !has_system(messages) ==> assembled(messages, None) == seq![preamble_view()] + messages,
        !has_system(messages) ==> assembled(messages, None).len() == messages.len() + 1,
{
}

/// Whatever is assembled holds a system message, and ends with the conversation as given.
pub proof fn lemma_assembled_keeps_conversation(
    messages: Seq<MessageView>,
    enrichment: Option<Seq<char>>,
)
    ensures
        has_system(assembled(messages, enrichment)),
        messages.len() <= assembled(messages, enrichment).len() <= messages.len() + 1,
        assembled(messages, enrichment).subrange(
            assembled(messages, enrichment).len() - messages.len(),
            assembled(messages, enrichment).len() as int,
        ) == messages,
{
    let out = assembled(messages, enrichment);
    if enrichment is Some {
        lemma_search_message_leads(messages, enrichment->0);
        assert(out[0].role == Role::System);
    } else if !has_system(messages) {
        assert(out[0].role == Role::System);
    }
    assert(out.subrange(out.len() - messages.len(), out.len() as int) =~= messages);
}

/// A request with a non-empty conversation without a system message, for a model that is
/// not online, goes upstream with the default preamble as its one additional, leading
/// message.
pub proof fn lemma_plain_request_gets_preamble(config: ConfigView, request: RequestView)
    requires
        request.messages.len() > 0,
        !has_system(request.messages),
        !is_online(request.model),
    ensures
        started(config, request) is Forward,
        started(config, request)->Forward_0.call.payload.messages == seq![preamble_view()]
            + request.messages,
        started(config, request)->Forward_0.call.payload.messages.len() == request.messages.len()
            + 1,
{
}

/// A request for an online model searches for the content of its last message, and
/// whatever the search gives, its joined result goes upstream as a leading system message,
/// followed by the conversation as it came and by nothing else. A failed search leaves the
/// search message with its heading alone.
pub proof fn lemma_online_request_searches(
    config: ConfigView,
    request: RequestView,
    results: Result<Seq<Seq<char>>, SearchError>,
)
    requires
        request.messages.len() > 0,
        is_online(request.model),
    ensures
        started(config, request) == AdmissionView::Search(
            PendingSearchView { request, url: search_address(request.messages.last().content) },
        ),
        resumed(config, started(config, request)->Search_0, results).call.payload.messages
            == seq![search_view(relevant_info(results))] + request.messages,
        results is Err ==> resumed(
            config,
            started(config, request)->Search_0,
            results,
        ).call.payload.messages[0].content == SEARCH_HEADING@,
{
    lemma_search_message_leads(request.messages, relevant_info(results));
    if results is Err {
        assert(SEARCH_HEADING@ + Seq::<char>::empty() =~= SEARCH_HEADING@);
    }
}

/// A request for a model that is not online never asks for a search, whatever its key and
/// its conversation.
pub proof fn lemma_offline_request_never_searches(
    config: ConfigView,
    presented: Option<Seq<char>>,
    request: RequestView,
)
    requires
        !is_online(request.model),
    ensures
        !(started(config, request) is Search),
        !(received(config, presented, request) is Search),
{
}

/// A request without messages is rejected as invalid, and nothing is fetched for it.
pub proof fn lemma_empty_conversation_is_invalid(config: ConfigView, request: RequestView)
    requires
        request.messages.len() == 0,
    ensures
        started(config, request) == AdmissionView::Rejected(CompletionError::InvalidRequest),
{
}

/// A request whose key is absent or differs from the secret is rejected with status 401,
/// and nothing is fetched for it; with the secret as its key, the orchestrator decides.
pub proof fn lemma_key_guards_the_orchestrator(
    config: ConfigView,
    presented: Option<Seq<char>>,
    request: RequestView,
)
    ensures
        presented != Some(config.inbound_key) ==> received(config, presented, request)
            == AdmissionView::Rejected(CompletionError::Unauthorized),
        presented == Some(config.inbound_key) ==> received(config, presented, request)
            == started(config, request),
        CompletionError::Unauthorized.status() == 401,
{
}

/// The response names the model that the request named, whatever the upstream replied, and
/// holds exactly one choice.
pub proof fn lemma_model_is_echoed(model: Seq<char>, reply: Json)
    ensures
        completed(model, Ok(reply)) is Ok,
        completed(model, Ok(reply))->Ok_0.model == model,
        completed(model, Ok(reply))->Ok_0.choices.len() == 1,
        final_status(completed(model, Ok(reply))) == STATUS_OK,
{
}

/// An upstream failure ends the request with an error and a status other than 200.
pub proof fn lemma_upstream_failure_is_fatal(model: Seq<char>, failure: UpstreamError)
    ensures
        completed(model, Err(failure)) == Err::<ResponseView, CompletionError>(
            CompletionError::Upstream(failure),
        ),
        final_status(completed(model, Err(failure))) == 502,
{
}

} // verus!
