//! The command catalog: which request each command sends and which payload
//! it expects back.
//!
//! A command comes in two halves. The first builds the [`ProxyRequest`] to
//! send. The second takes the outcome of the exchange, which is the bytes
//! of the body that arrived or the error text of a transport that failed,
//! and returns the envelope for the user interface. Sending the request is
//! left to the caller.

use vstd::prelude::*;
use crate::envelope::ApiResponse;
use crate::json::{as_items, json_view, json_views, member, new_object, no_fields, object_value, parsed_json, set_member, text_value, JsonModel};
use crate::proxy::{parse_body, settle, HttpMethod, ProxyRequest, DECODE_FAILURE};
use crate::shape::{member_at, number_at, optional_text_at, optional_view, read_number, read_optional_text, read_text, read_texts, text_at, text_views, texts_of};
use crate::text::{decimal, push_decimal};

verus! {

/// One message of a conversation, as the user interface hands it in.
#[derive(Debug, PartialEq, Eq)]
pub struct ChatMessage {
    pub content: String,
    pub role: String,
}

/// The backend's answer to a chat message.
#[derive(Debug, PartialEq, Eq)]
pub struct ChatResponse {
    pub message: String,
    pub citations: Vec<String>,
}

/// One hit of a literature search.
///
/// `relevance_score` is the JSON number that the backend sent, untouched.
#[derive(Debug, PartialEq)]
pub struct LiteratureResult {
    pub title: String,
    pub abstract_text: String,
    pub pmid: Option<String>,
    pub doi: Option<String>,
    pub relevance_score: serde_json::Number,
}

/// One alert about a patient at risk of a vaso-occlusive episode.
#[derive(Debug, PartialEq, Eq)]
pub struct VoeAlert {
    pub id: String,
    pub patient_id: String,
    pub risk_level: String,
    pub message: String,
    pub timestamp: String,
}

/// What a [`ChatMessage`] holds.
pub struct ChatMessageView {
    pub content: Seq<char>,
    pub role: Seq<char>,
}

/// What a [`ChatResponse`] holds.
pub struct ChatResponseView {
    pub message: Seq<char>,
    pub citations: Seq<Seq<char>>,
}

/// What a [`LiteratureResult`] holds.
pub struct LiteratureResultView {
    pub title: Seq<char>,
    pub abstract_text: Seq<char>,
    pub pmid: Option<Seq<char>>,
    pub doi: Option<Seq<char>>,
    pub relevance_score: serde_json::Number,
}

/// What a [`VoeAlert`] holds.
pub struct VoeAlertView {
    pub id: Seq<char>,
    pub patient_id: Seq<char>,
    pub risk_level: Seq<char>,
    pub message: Seq<char>,
    pub timestamp: Seq<char>,
}

impl View for ChatMessage {
    type V = ChatMessageView;

    open spec fn view(&self) -> ChatMessageView {
        ChatMessageView { content: self.content@, role: self.role@ }
    }
}

impl View for ChatResponse {
    type V = ChatResponseView;

    open spec fn view(&self) -> ChatResponseView {
        ChatResponseView { message: self.message@, citations: text_views(self.citations@) }
    }
}

impl View for LiteratureResult {
    type V = LiteratureResultView;

    open spec fn view(&self) -> LiteratureResultView {
        LiteratureResultView {
            title: self.title@,
            abstract_text: self.abstract_text@,
            pmid: optional_view(self.pmid),
            doi: optional_view(self.doi),
            relevance_score: self.relevance_score,
        }
    }
}

impl View for VoeAlert {
    type V = VoeAlertView;

    open spec fn view(&self) -> VoeAlertView {
        VoeAlertView {
            id: self.id@,
            patient_id: self.patient_id@,
            risk_level: self.risk_level@,
            message: self.message@,
            timestamp: self.timestamp@,
        }
    }
}

/// The views of the elements of `items`, in order.
pub open spec fn views<T: View>(items: Seq<T>) -> Seq<T::V> {
    Seq::new(items.len(), |i: int| items[i]@)
}

/// The body that a chat request carries: an object with the four members
/// `message`, `role`, `mode` and `tone`, each a JSON string.
pub open spec fn chat_body(message: ChatMessageView, mode: Seq<char>, tone: Seq<char>) -> JsonModel {
    JsonModel::Object(
        no_fields().insert("message"@, JsonModel::Text(message.content)).insert(
            "role"@,
            JsonModel::Text(message.role),
        ).insert("mode"@, JsonModel::Text(mode)).insert("tone"@, JsonModel::Text(tone)),
    )
}

/// The payload that `tree` holds if it is an object with a text under
/// `message` and a list of texts under `citations`.
pub open spec fn chat_response_shape(tree: JsonModel) -> Option<ChatResponseView> {
    match (text_at(tree, "message"@), member_at(tree, "citations"@)) {
        (Some(message), Some(list)) => match texts_of(list) {
            Some(citations) => Some(ChatResponseView { message, citations }),
            None => None,
        },
        _ => None,
    }
}

/// The chat response that the bytes of a body hold.
pub open spec fn chat_response_in(body: Seq<u8>) -> Option<ChatResponseView> {
    match parsed_json(body) {
        Some(tree) => chat_response_shape(tree),
        None => None,
    }
}

/// The request of the chat command: `POST /api/chat` with the message, its
/// role and the mode and tone asked for as the body.
pub fn send_chat_message_request(message: ChatMessage, mode: String, tone: String) -> (request: ProxyRequest)
    ensures
        request.method == HttpMethod::Post,
        request.path@ == "/api/chat"@,
        request.body is Some,
        json_view(request.body->Some_0) == chat_body(message@, mode@, tone@),
{
    let mut members = new_object();
    set_member(&mut members, String::from_str("message"), text_value(message.content));
    set_member(&mut members, String::from_str("role"), text_value(message.role));
    set_member(&mut members, String::from_str("mode"), text_value(mode));
    set_member(&mut members, String::from_str("tone"), text_value(tone));
    ProxyRequest::post(String::from_str("/api/chat"), object_value(members))
}

/// Reads a chat response out of a JSON value.
pub fn decode_chat_response(value: &serde_json::Value) -> (decoded: Option<ChatResponse>)
    ensures
        match decoded {
            Some(response) => chat_response_shape(json_view(*value)) == Some(response@),
            None => chat_response_shape(json_view(*value)) is None,
        },
{
    let message = match read_text(value, "message") {
        Some(message) => message,
        None => {
            return None;
        },
    };
    let list = match member(value, "citations") {
        Some(list) => list,
        None => {
            return None;
        },
    };
    match read_texts(list) {
        Some(citations) => Some(ChatResponse { message, citations }),
        None => None,
    }
}

/// The envelope of the chat command for the outcome of its exchange.
///
/// `exchange` is the body that arrived, or the error text of the transport
/// where no body arrived.
pub fn send_chat_message(exchange: Result<Vec<u8>, String>) -> (result: Result<ApiResponse<ChatResponse>, String>)
    ensures
        result is Ok,
        result->Ok_0.well_formed(),
        match exchange {
            Err(message) => result->Ok_0.failed_with(message@),
            Ok(body) => match chat_response_in(body@) {
                Some(expected) => result->Ok_0.succeeded() && result->Ok_0.data->Some_0@ == expected,
                None => result->Ok_0.failed_with(DECODE_FAILURE@),
            },
        },
{
    let outcome = match exchange {
        Err(message) => Err(message),
        Ok(body) => match parse_body(&body) {
            Some(value) => Ok(decode_chat_response(&value)),
            None => Ok(None),
        },
    };
    Ok(settle(outcome))
}

/// The path of the pass-through command: `endpoint` behind `/api/`, taken
/// as it is.
pub open spec fn generic_path(endpoint: Seq<char>) -> Seq<char> {
    "/api/"@ + endpoint
}

/// The request of the pass-through command: `GET /api/{endpoint}`.
///
/// `endpoint` is neither escaped nor checked; the backend decides which
/// routes exist.
pub fn fetch_api_data_request(endpoint: String) -> (request: ProxyRequest)
    ensures
        request.is_get(generic_path(endpoint@)),
{
    let mut path = String::from_str("/api/");
    path.append(endpoint.as_str());
    ProxyRequest::get(path)
}

/// The envelope of the pass-through command for the outcome of its
/// exchange: any JSON value is a payload.
pub fn fetch_api_data(exchange: Result<Vec<u8>, String>) -> (result: Result<ApiResponse<serde_json::Value>, String>)
    ensures
        result is Ok,
        result->Ok_0.well_formed(),
        match exchange {
            Err(message) => result->Ok_0.failed_with(message@),
            Ok(body) => match parsed_json(body@) {
                Some(expected) => result->Ok_0.succeeded() && json_view(result->Ok_0.data->Some_0) == expected,
                None => result->Ok_0.failed_with(DECODE_FAILURE@),
            },
        },
{
    let outcome = match exchange {
        Err(message) => Err(message),
        Ok(body) => Ok(parse_body(&body)),
    };
    Ok(settle(outcome))
}

/// The path of a literature search: query and limit are put into the
/// query string as they are, the limit as a decimal numeral.
pub open spec fn search_path(query: Seq<char>, limit: u32) -> Seq<char> {
    "/api/literature/search?q="@ + query + "&limit="@ + decimal(limit as nat)
}

/// The request of the literature search:
/// `GET /api/literature/search?q={query}&limit={limit}`.
///
/// Nothing in `query` is escaped and `limit` has no bound; the backend
/// decides what it makes of them.
pub fn search_literature_request(query: String, limit: u32) -> (request: ProxyRequest)
    ensures
        request.is_get(search_path(query@, limit)),
{
    let mut path = String::from_str("/api/literature/search?q=");
    path.append(query.as_str());
    path.append("&limit=");
    push_decimal(&mut path, limit);
    ProxyRequest::get(path)
}

/// The payload that `tree` holds if it is an object with texts under
/// `title` and `abstract_text`, a number under `relevance_score`, and under
/// `pmid` and `doi` a text, `null` or nothing.
pub open spec fn literature_result_shape(tree: JsonModel) -> Option<LiteratureResultView> {
    match (
        text_at(tree, "title"@),
        text_at(tree, "abstract_text"@),
        optional_text_at(tree, "pmid"@),
        optional_text_at(tree, "doi"@),
        number_at(tree, "relevance_score"@),
    ) {
        (Some(title), Some(abstract_text), Some(pmid), Some(doi), Some(relevance_score)) => Some(
            LiteratureResultView { title, abstract_text, pmid, doi, relevance_score },
        ),
        _ => None,
    }
}

/// Whether every element of `items` is a literature result.
pub open spec fn all_literature_results(items: Seq<JsonModel>) -> bool {
    forall|i: int| 0 <= i < items.len() ==> #[trigger] literature_result_shape(items[i]) is Some
}

/// The payloads that `tree` lists, in order: present only where `tree` is
/// an array of literature results.
pub open spec fn literature_results_shape(tree: JsonModel) -> Option<Seq<LiteratureResultView>> {
    match tree {
        JsonModel::Array(items) => if all_literature_results(items) {
            Some(Seq::new(items.len(), |i: int| literature_result_shape(items[i])->Some_0))
        } else {
            None
        },
        _ => None,
    }
}

/// The literature results that the bytes of a body hold.
pub open spec fn literature_results_in(body: Seq<u8>) -> Option<Seq<LiteratureResultView>> {
    match parsed_json(body) {
        Some(tree) => literature_results_shape(tree),
        None => None,
    }
}

/// Reads one literature result out of a JSON value.
pub fn decode_literature_result(value: &serde_json::Value) -> (decoded: Option<LiteratureResult>)
    ensures
        match decoded {
            Some(result) => literature_result_shape(json_view(*value)) == Some(result@),
            None => literature_result_shape(json_view(*value)) is None,
        },
{
    let title = match read_text(value, "title") {
        Some(title) => title,
        None => {
            return None;
        },
    };
    let abstract_text = match read_text(value, "abstract_text") {
        Some(abstract_text) => abstract_text,
        None => {
            return None;
        },
    };
    let pmid = match read_optional_text(value, "pmid") {
        Some(pmid) => pmid,
        None => {
            return None;
        },
    };
    let doi = match read_optional_text(value, "doi") {
        Some(doi) => doi,
        None => {
            return None;
        },
    };
    match read_number(value, "relevance_score") {
        Some(relevance_score) => Some(LiteratureResult { title, abstract_text, pmid, doi, relevance_score }),
        None => None,
    }
}

/// Reads a list of literature results out of a JSON value, keeping their
/// order.
pub fn decode_literature_results(value: &serde_json::Value) -> (decoded: Option<Vec<LiteratureResult>>)
    ensures
        match decoded {
            Some(results) => literature_results_shape(json_view(*value)) == Some(views(results@)),
            None => literature_results_shape(json_view(*value)) is None,
        },
{
    let items = match as_items(value) {
        Some(items) => items,
        None => {
            return None;
        },
    };
    let ghost trees = json_views(items@);
    let mut results: Vec<LiteratureResult> = Vec::new();
    let mut at: usize = 0;
    while at < items.len()
        invariant
            at <= items.len(),
            trees == json_views(items@),
            json_view(*value) == JsonModel::Array(trees),
            results.len() == at,
            forall|i: int| 0 <= i < at ==> literature_result_shape(#[trigger] trees[i]) == Some(results[i]@),
        decreases items.len() - at,
    {
        match decode_literature_result(&items[at]) {
            Some(result) => {
                results.push(result);
            },
            None => {
                assert(literature_result_shape(trees[at as int]) is None);
                return None;
            },
        }
        at += 1;
    }
    assert(all_literature_results(trees));
    assert(views(results@) =~= Seq::new(trees.len(), |i: int| literature_result_shape(trees[i])->Some_0));
    Some(results)
}

/// The envelope of the literature search for the outcome of its exchange.
pub fn search_literature(exchange: Result<Vec<u8>, String>) -> (result: Result<ApiResponse<Vec<LiteratureResult>>, String>)
    ensures
        result is Ok,
        result->Ok_0.well_formed(),
        match exchange {
            Err(message) => result->Ok_0.failed_with(message@),
            Ok(body) => match literature_results_in(body@) {
                Some(expected) => result->Ok_0.succeeded() && views(result->Ok_0.data->Some_0@) == expected,
                None => result->Ok_0.failed_with(DECODE_FAILURE@),
            },
        },
{
    let outcome = match exchange {
        Err(message) => Err(message),
        Ok(body) => match parse_body(&body) {
            Some(value) => Ok(decode_literature_results(&value)),
            None => Ok(None),
        },
    };
    Ok(settle(outcome))
}

/// The request of the alert command: `GET /api/voe/alerts`.
pub fn get_voe_alerts_request() -> (request: ProxyRequest)
    ensures
        request.is_get("/api/voe/alerts"@),
{
    ProxyRequest::get(String::from_str("/api/voe/alerts"))
}

/// The payload that `tree` holds if it is an object with texts under `id`,
/// `patient_id`, `risk_level`, `message` and `timestamp`.
pub open spec fn voe_alert_shape(tree: JsonModel) -> Option<VoeAlertView> {
    match (
        text_at(tree, "id"@),
        text_at(tree, "patient_id"@),
        text_at(tree, "risk_level"@),
        text_at(tree, "message"@),
        text_at(tree, "timestamp"@),
    ) {
        (Some(id), Some(patient_id), Some(risk_level), Some(message), Some(timestamp)) => Some(
            VoeAlertView { id, patient_id, risk_level, message, timestamp },
        ),
        _ => None,
    }
}

/// Whether every element of `items` is an alert.
pub open spec fn all_voe_alerts(items: Seq<JsonModel>) -> bool {
    forall|i: int| 0 <= i < items.len() ==> #[trigger] voe_alert_shape(items[i]) is Some
}

/// The payloads that `tree` lists, in order: present only where `tree` is
/// an array of alerts.
pub open spec fn voe_alerts_shape(tree: JsonModel) -> Option<Seq<VoeAlertView>> {
    match tree {
        JsonModel::Array(items) => if all_voe_alerts(items) {
            Some(Seq::new(items.len(), |i: int| voe_alert_shape(items[i])->Some_0))
        } else {
            None
        },
        _ => None,
    }
}

/// The alerts that the bytes of a body hold.
pub open spec fn voe_alerts_in(body: Seq<u8>) -> Option<Seq<VoeAlertView>> {
    match parsed_json(body) {
        Some(tree) => voe_alerts_shape(tree),
        None => None,
    }
}

/// Reads one alert out of a JSON value.
pub fn decode_voe_alert(value: &serde_json::Value) -> (decoded: Option<VoeAlert>)
    ensures
        match decoded {
            Some(alert) => voe_alert_shape(json_view(*value)) == Some(alert@),
            None => voe_alert_shape(json_view(*value)) is None,
        },
{
    let id = match read_text(value, "id") {
        Some(id) => id,
        None => {
            return None;
        },
    };
    let patient_id = match read_text(value, "patient_id") {
        Some(patient_id) => patient_id,
        None => {
            return None;
        },
    };
    let risk_level = match read_text(value, "risk_level") {
        Some(risk_level) => risk_level,
        None => {
            return None;
        },
    };
    let message = match read_text(value, "message") {
        Some(message) => message,
        None => {
            return None;
        },
    };
    match read_text(value, "timestamp") {
        Some(timestamp) => Some(VoeAlert { id, patient_id, risk_level, message, timestamp }),
        None => None,
    }
}

/// Reads a list of alerts out of a JSON value, keeping their order.
pub fn decode_voe_alerts(value: &serde_json::Value) -> (decoded: Option<Vec<VoeAlert>>)
    ensures
        match decoded {
            Some(alerts) => voe_alerts_shape(json_view(*value)) == Some(views(alerts@)),
            None => voe_alerts_shape(json_view(*value)) is None,
        },
{
    let items = match as_items(value) {
        Some(items) => items,
        None => {
            return None;
        },
    };
    let ghost trees = json_views(items@);
    let mut alerts: Vec<VoeAlert> = Vec::new();
    let mut at: usize = 0;
    while at < items.len()
        invariant
            at <= items.len(),
            trees == json_views(items@),
            json_view(*value) == JsonModel::Array(trees),
            alerts.len() == at,
            forall|i: int| 0 <= i < at ==> voe_alert_shape(#[trigger] trees[i]) == Some(alerts[i]@),
        decreases items.len() - at,
    {
        match decode_voe_alert(&items[at]) {
            Some(alert) => {
                alerts.push(alert);
            },
            None => {
                assert(voe_alert_shape(trees[at as int]) is None);
                return None;
            },
        }
        at += 1;
    }
    assert(all_voe_alerts(trees));
    assert(views(alerts@) =~= Seq::new(trees.len(), |i: int| voe_alert_shape(trees[i])->Some_0));
    Some(alerts)
}

/// The envelope of the alert command for the outcome of its exchange.
pub fn get_voe_alerts(exchange: Result<Vec<u8>, String>) -> (result: Result<ApiResponse<Vec<VoeAlert>>, String>)
    ensures
        result is Ok,
        result->Ok_0.well_formed(),
        match exchange {
            Err(message) => result->Ok_0.failed_with(message@),
            Ok(body) => match voe_alerts_in(body@) {
                Some(expected) => result->Ok_0.succeeded() && views(result->Ok_0.data->Some_0@) == expected,
                None => result->Ok_0.failed_with(DECODE_FAILURE@),
            },
        },
{
    let outcome = match exchange {
        Err(message) => Err(message),
        Ok(body) => match parse_body(&body) {
            Some(value) => Ok(decode_voe_alerts(&value)),
            None => Ok(None),
        },
    };
    Ok(settle(outcome))
}

/// The body of a chat request has the four members `message`, `role`,
/// `mode` and `tone` and no other, and each holds the text it was given.
pub proof fn lemma_chat_body_members(message: ChatMessageView, mode: Seq<char>, tone: Seq<char>)
    ensures
        chat_body(message, mode, tone) is Object,
        chat_body(message, mode, tone)->Object_0.dom() == set!["message"@, "role"@, "mode"@, "tone"@],
        text_at(chat_body(message, mode, tone), "message"@) == Some(message.content),
        text_at(chat_body(message, mode, tone), "role"@) == Some(message.role),
        text_at(chat_body(message, mode, tone), "mode"@) == Some(mode),
        text_at(chat_body(message, mode, tone), "tone"@) == Some(tone),
{
    reveal_strlit("message");
    reveal_strlit("role");
    reveal_strlit("mode");
    reveal_strlit("tone");
    assert("message"@.len() == 7);
    assert("role"@[0] == 'r');
    assert("mode"@[0] == 'm');
    assert("tone"@[0] == 't');
    assert(chat_body(message, mode, tone)->Object_0.dom() =~= set!["message"@, "role"@, "mode"@, "tone"@]);
}

/// A value without a member `message`, or without a member `citations`, is
/// no chat response, whatever else it holds.
pub proof fn lemma_chat_response_needs_both_members(tree: JsonModel)
    requires
        member_at(tree, "message"@) is None || member_at(tree, "citations"@) is None,
    ensures
        chat_response_shape(tree) is None,
{
}

/// A list of literature results has one entry for every element of the
/// array it was read from, in the order of the array.
pub proof fn lemma_literature_results_keep_order(tree: JsonModel)
    requires
        literature_results_shape(tree) is Some,
    ensures
        tree is Array,
        literature_results_shape(tree)->Some_0.len() == tree->Array_0.len(),
        forall|i: int|
            0 <= i < tree->Array_0.len() ==> literature_result_shape(#[trigger] tree->Array_0[i]) == Some(
                literature_results_shape(tree)->Some_0[i],
            ),
{
    let items = tree->Array_0;
    assert forall|i: int| 0 <= i < items.len() implies literature_result_shape(#[trigger] items[i]) == Some(
        literature_results_shape(tree)->Some_0[i],
    ) by {
        assert(literature_result_shape(items[i]) is Some);
    }
}

/// A list of alerts has one entry for every element of the array it was
/// read from, in the order of the array.
pub proof fn lemma_voe_alerts_keep_order(tree: JsonModel)
    requires
        voe_alerts_shape(tree) is Some,
    ensures
        tree is Array,
        voe_alerts_shape(tree)->Some_0.len() == tree->Array_0.len(),
        forall|i: int|
            0 <= i < tree->Array_0.len() ==> voe_alert_shape(#[trigger] tree->Array_0[i]) == Some(
                voe_alerts_shape(tree)->Some_0[i],
            ),
{
    let items = tree->Array_0;
    assert forall|i: int| 0 <= i < items.len() implies voe_alert_shape(#[trigger] items[i]) == Some(
        voe_alerts_shape(tree)->Some_0[i],
    ) by {
        assert(voe_alert_shape(items[i]) is Some);
    }
}

/// A body that holds the empty array is a payload of both list commands:
/// the empty list, not a failure.
pub proof fn lemma_empty_array_is_empty_list(body: Seq<u8>)
    requires
        parsed_json(body) == Some(JsonModel::Array(Seq::empty())),
    ensures
        literature_results_in(body) == Some(Seq::<LiteratureResultView>::empty()),
        voe_alerts_in(body) == Some(Seq::<VoeAlertView>::empty()),
{
    let none = Seq::<JsonModel>::empty();
    assert(all_literature_results(none));
    assert(all_voe_alerts(none));
    assert(literature_results_shape(JsonModel::Array(none))->Some_0 =~= Seq::<LiteratureResultView>::empty());
    assert(voe_alerts_shape(JsonModel::Array(none))->Some_0 =~= Seq::<VoeAlertView>::empty());
}

} // verus!
