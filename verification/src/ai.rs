//! The generative service: where the request goes and how its response is
//! read. The response is an envelope whose generated text is itself a JSON
//! document, so it is decoded twice.

use crate::error::{
    agrees, failure, lemma_told_apart_at, told_apart, ErrorKind, ErrorModel, JobError,
    SEND_CONTEXT,
};
use crate::json::{
    describe_error, member, parse_value, parsed, pointer_target, text_of, value_member,
    value_model, value_pointer, value_text, JsonModel,
};
use crate::text::chain;
use vstd::prelude::*;

verus! {

/// Where the request is posted.
pub const GENERATE_URL: &'static str =
    "https://generativelanguage.googleapis.com/v1beta/models/gemini-2.0-flash:generateContent";

/// The header that carries the API credential.
pub const API_KEY_HEADER: &'static str = "X-goog-api-key";

/// The header that declares the content type.
pub const CONTENT_TYPE_HEADER: &'static str = "Content-Type";

/// The content type of the request.
pub const CONTENT_TYPE: &'static str = "application/json";

/// The JSON pointer of the generated text inside the envelope.
pub const TEXT_POINTER: &'static str = "/candidates/0/content/parts/0/text";

/// Leads the message when the body of the response does not arrive.
pub const RECEIVE_CONTEXT: &'static str = "Failed to receive AI response: ";

/// Leads the message when the envelope is no JSON.
pub const DECODE_CONTEXT: &'static str = "Failed to deserialize AI response: ";

/// Leads the message when the envelope does not hold the generated text.
pub const LOOKUP_CONTEXT: &'static str = "Failed to get AI response: ";

/// Leads the message when the generated text is there but cannot be read.
pub const TEXT_CONTEXT: &'static str = "Failed to read generated text: ";

/// Leads the message when the generated text does not decode to a fact.
pub const FACT_CONTEXT: &'static str = "Failed to decode generated fact: ";

/// The fact of the day.
#[derive(Debug, Clone, PartialEq, Eq)]
pub struct AiResponse {
    pub title: String,
    pub category: String,
    pub content: String,
}

/// The fact of the day as mathematics sees it.
pub struct FactModel {
    pub title: Seq<char>,
    pub category: Seq<char>,
    pub content: Seq<char>,
}

impl View for AiResponse {
    type V = FactModel;

    open spec fn view(&self) -> FactModel {
        FactModel { title: self.title@, category: self.category@, content: self.content@ }
    }
}

/// The text under the fixed path of an envelope. A missing path is a shape
/// mismatch whose message shows the raw body; anything but a string there is
/// an unresolved type.
pub open spec fn generated_text(body: Seq<char>, envelope: JsonModel) -> Result<
    Seq<char>,
    ErrorModel,
> {
    match pointer_target(envelope, TEXT_POINTER@) {
        None => Err(failure(ErrorKind::ShapeMismatch, LOOKUP_CONTEXT@, body)),
        Some(node) => match text_of(node) {
            Some(text) => Ok(text),
            None => Err(failure(ErrorKind::UnresolvedType, TEXT_CONTEXT@, "not a string"@)),
        },
    }
}

/// The text of the member `name` of a document, which must be there and be a
/// string.
pub open spec fn field_text(document: JsonModel, name: Seq<char>) -> Result<Seq<char>, ErrorModel> {
    match member(document, name) {
        None => Err(
            failure(ErrorKind::ShapeMismatch, FACT_CONTEXT@, "missing field `"@ + name + "`"@),
        ),
        Some(node) => match text_of(node) {
            Some(text) => Ok(text),
            None => Err(
                failure(
                    ErrorKind::ShapeMismatch,
                    FACT_CONTEXT@,
                    "field `"@ + name + "` is not a string"@,
                ),
            ),
        },
    }
}

/// The fact that a document states: its members `title`, `category` and
/// `content`, read in that order; other members are ignored.
pub open spec fn stated_fact(document: JsonModel) -> Result<FactModel, ErrorModel> {
    match field_text(document, "title"@) {
        Err(error) => Err(error),
        Ok(title) => match field_text(document, "category"@) {
            Err(error) => Err(error),
            Ok(category) => match field_text(document, "content"@) {
                Err(error) => Err(error),
                Ok(content) => Ok(FactModel { title, category, content }),
            },
        },
    }
}

/// A text decoded as a JSON document that states a fact.
pub open spec fn decoded_fact(text: Seq<char>) -> Result<FactModel, ErrorModel> {
    match parsed(text) {
        Err(detail) => Err(failure(ErrorKind::Decode, FACT_CONTEXT@, detail)),
        Ok(document) => stated_fact(document),
    }
}

/// A response body decoded in both layers: the envelope, the generated text
/// under its fixed path, and the fact that this text states.
pub open spec fn decoded_response(body: Seq<char>) -> Result<FactModel, ErrorModel> {
    match parsed(body) {
        Err(detail) => Err(failure(ErrorKind::Decode, DECODE_CONTEXT@, detail)),
        Ok(envelope) => match generated_text(body, envelope) {
            Err(error) => Err(error),
            Ok(text) => decoded_fact(text),
        },
    }
}

/// Looks up the generated text in a parsed envelope. `body` is the raw
/// response, shown in the message when the path is missing.
pub fn extract_generated_text(body: &str, envelope: &serde_json::Value) -> (out: Result<
    String,
    JobError,
>)
    ensures
        agrees(out, generated_text(body@, value_model(*envelope))),
{
    match value_pointer(envelope, TEXT_POINTER) {
        None => Err(JobError::new(ErrorKind::ShapeMismatch, LOOKUP_CONTEXT, body)),
        Some(node) => match value_text(node) {
            Some(text) => Ok(text.to_owned()),
            None => Err(
                JobError::new(ErrorKind::UnresolvedType, TEXT_CONTEXT, "not a string"),
            ),
        },
    }
}

/// Reads the member `name` of a document as a string.
pub fn read_field(document: &serde_json::Value, name: &str) -> (out: Result<String, JobError>)
    ensures
        agrees(out, field_text(value_model(*document), name@)),
{
    match value_member(document, name) {
        None => {
            let detail = chain(chain("missing field `", name).as_str(), "`");
            Err(JobError::new(ErrorKind::ShapeMismatch, FACT_CONTEXT, detail.as_str()))
        },
        Some(node) => match value_text(node) {
            Some(text) => Ok(text.to_owned()),
            None => {
                let detail = chain(chain("field `", name).as_str(), "` is not a string");
                Err(JobError::new(ErrorKind::ShapeMismatch, FACT_CONTEXT, detail.as_str()))
            },
        },
    }
}

impl AiResponse {
    /// Reads the fact that a parsed document states.
    pub fn from_document(document: &serde_json::Value) -> (out: Result<AiResponse, JobError>)
        ensures
            agrees(out, stated_fact(value_model(*document))),
    {
        let title = match read_field(document, "title") {
            Ok(text) => text,
            Err(error) => {
                return Err(error);
            },
        };
        let category = match read_field(document, "category") {
            Ok(text) => text,
            Err(error) => {
                return Err(error);
            },
        };
        let content = match read_field(document, "content") {
            Ok(text) => text,
            Err(error) => {
                return Err(error);
            },
        };
        Ok(AiResponse { title, category, content })
    }
}

/// Decodes the generated text: a JSON document that states the fact.
pub fn decode_fact(text: &str) -> (out: Result<AiResponse, JobError>)
    ensures
        agrees(out, decoded_fact(text@)),
{
    match parse_value(text) {
        Err(error) => Err(
            JobError::new(ErrorKind::Decode, FACT_CONTEXT, describe_error(&error).as_str()),
        ),
        Ok(document) => AiResponse::from_document(&document),
    }
}

/// Decodes the response of the generative service into the fact of the day.
pub fn decode_ai_response(body: &str) -> (out: Result<AiResponse, JobError>)
    ensures
        agrees(out, decoded_response(body@)),
{
    match parse_value(body) {
        Err(error) => Err(
            JobError::new(ErrorKind::Decode, DECODE_CONTEXT, describe_error(&error).as_str()),
        ),
        Ok(envelope) => match extract_generated_text(body, &envelope) {
            Err(error) => Err(error),
            Ok(text) => decode_fact(text.as_str()),
        },
    }
}

/// An object whose members `title`, `category` and `content` are strings
/// states the fact made of them, whatever else it holds.
pub proof fn lemma_fact_read_from_members(members: Map<Seq<char>, JsonModel>, fact: FactModel)
    requires
        members.contains_pair("title"@, JsonModel::Text(fact.title)),
        members.contains_pair("category"@, JsonModel::Text(fact.category)),
        members.contains_pair("content"@, JsonModel::Text(fact.content)),
    ensures
        stated_fact(JsonModel::Object(members)) == Ok::<FactModel, ErrorModel>(fact),
{
}

/// A document that lacks one of the three members as a string states no
/// fact: it is a shape mismatch.
pub proof fn lemma_fact_needs_its_members(document: JsonModel, name: Seq<char>)
    requires
        name == "title"@ || name == "category"@ || name == "content"@,
        field_text(document, name) is Err,
    ensures
        stated_fact(document) matches Err(error) && error.kind == ErrorKind::ShapeMismatch,
{
}

/// Each way in which generating can fail leads its message in a way of its
/// own: a request not sent, a body not received, an envelope that is no
/// JSON, an envelope without the generated text, a generated text that is
/// no string, and a generated text that states no fact. No two of them ever
/// give the same message.
pub proof fn lemma_generation_failures_told_apart()
    ensures
        told_apart(SEND_CONTEXT@, RECEIVE_CONTEXT@),
        told_apart(SEND_CONTEXT@, DECODE_CONTEXT@),
        told_apart(SEND_CONTEXT@, LOOKUP_CONTEXT@),
        told_apart(SEND_CONTEXT@, TEXT_CONTEXT@),
        told_apart(SEND_CONTEXT@, FACT_CONTEXT@),
        told_apart(RECEIVE_CONTEXT@, DECODE_CONTEXT@),
        told_apart(RECEIVE_CONTEXT@, LOOKUP_CONTEXT@),
        told_apart(RECEIVE_CONTEXT@, TEXT_CONTEXT@),
        told_apart(RECEIVE_CONTEXT@, FACT_CONTEXT@),
        told_apart(DECODE_CONTEXT@, LOOKUP_CONTEXT@),
        told_apart(DECODE_CONTEXT@, TEXT_CONTEXT@),
        told_apart(DECODE_CONTEXT@, FACT_CONTEXT@),
        told_apart(LOOKUP_CONTEXT@, TEXT_CONTEXT@),
        told_apart(LOOKUP_CONTEXT@, FACT_CONTEXT@),
        told_apart(TEXT_CONTEXT@, FACT_CONTEXT@),
{
    reveal_strlit("Failed to send request: ");
    reveal_strlit("Failed to receive AI response: ");
    reveal_strlit("Failed to deserialize AI response: ");
    reveal_strlit("Failed to get AI response: ");
    reveal_strlit("Failed to read generated text: ");
    reveal_strlit("Failed to decode generated fact: ");
    lemma_told_apart_at(SEND_CONTEXT@, RECEIVE_CONTEXT@, 10);
    lemma_told_apart_at(SEND_CONTEXT@, DECODE_CONTEXT@, 10);
    lemma_told_apart_at(SEND_CONTEXT@, LOOKUP_CONTEXT@, 10);
    lemma_told_apart_at(SEND_CONTEXT@, TEXT_CONTEXT@, 10);
    lemma_told_apart_at(SEND_CONTEXT@, FACT_CONTEXT@, 10);
    lemma_told_apart_at(RECEIVE_CONTEXT@, DECODE_CONTEXT@, 10);
    lemma_told_apart_at(RECEIVE_CONTEXT@, LOOKUP_CONTEXT@, 10);
    lemma_told_apart_at(RECEIVE_CONTEXT@, TEXT_CONTEXT@, 12);
    lemma_told_apart_at(RECEIVE_CONTEXT@, FACT_CONTEXT@, 10);
    lemma_told_apart_at(DECODE_CONTEXT@, LOOKUP_CONTEXT@, 10);
    lemma_told_apart_at(DECODE_CONTEXT@, TEXT_CONTEXT@, 10);
    lemma_told_apart_at(DECODE_CONTEXT@, FACT_CONTEXT@, 12);
    lemma_told_apart_at(LOOKUP_CONTEXT@, TEXT_CONTEXT@, 10);
    lemma_told_apart_at(LOOKUP_CONTEXT@, FACT_CONTEXT@, 10);
    lemma_told_apart_at(TEXT_CONTEXT@, FACT_CONTEXT@, 10);
}

/// The two layers of decoding never fail with the same message: whatever
/// body is no JSON and whatever generated text states no fact, the message
/// for the envelope and the message for the generated text differ.
pub proof fn lemma_layers_told_apart(body: Seq<char>, text: Seq<char>)
    requires
        parsed(body) is Err,
        decoded_fact(text) is Err,
    ensures
        decoded_response(body) is Err,
        decoded_response(body)->Err_0.message != decoded_fact(text)->Err_0.message,
{
    lemma_generation_failures_told_apart();
    let outer = parsed(body)->Err_0;
    assert(decoded_response(body)->Err_0.message == DECODE_CONTEXT@ + outer);
    match parsed(text) {
        Err(inner) => {
            assert(decoded_fact(text)->Err_0.message == FACT_CONTEXT@ + inner);
        },
        Ok(document) => {
            lemma_fact_failure_led(document);
            let detail = choose|detail: Seq<char>|
                stated_fact(document)->Err_0.message == FACT_CONTEXT@ + detail;
            assert(decoded_fact(text)->Err_0.message == FACT_CONTEXT@ + detail);
        },
    }
}

/// A response that is no JSON and a response whose generated text states no
/// fact never fail with the same message.
pub proof fn lemma_responses_told_apart(body: Seq<char>, other_body: Seq<char>)
    requires
        parsed(body) is Err,
        parsed(other_body) matches Ok(envelope) && generated_text(other_body, envelope) is Ok,
        decoded_response(other_body) is Err,
    ensures
        decoded_response(body) is Err,
        decoded_response(body)->Err_0.message != decoded_response(other_body)->Err_0.message,
{
    let text = generated_text(other_body, parsed(other_body)->Ok_0)->Ok_0;
    lemma_layers_told_apart(body, text);
}

/// Every failure to find the fact in a document is led by the context of the
/// generated text.
pub proof fn lemma_fact_failure_led(document: JsonModel)
    requires
        stated_fact(document) is Err,
    ensures
        exists|detail: Seq<char>|
            stated_fact(document)->Err_0.message == FACT_CONTEXT@ + detail,
{
    if field_text(document, "title"@) is Err {
        lemma_field_failure_led(document, "title"@);
    } else if field_text(document, "category"@) is Err {
        lemma_field_failure_led(document, "category"@);
    } else {
        lemma_field_failure_led(document, "content"@);
    }
}

proof fn lemma_field_failure_led(document: JsonModel, name: Seq<char>)
    requires
        field_text(document, name) is Err,
    ensures
        exists|detail: Seq<char>|
            field_text(document, name)->Err_0.message == FACT_CONTEXT@ + detail,
{
    let message = field_text(document, name)->Err_0.message;
    if member(document, name) is None {
        assert(message == FACT_CONTEXT@ + ("missing field `"@ + name + "`"@));
    } else {
        assert(message == FACT_CONTEXT@ + ("field `"@ + name + "` is not a string"@));
    }
}

} // verus!
