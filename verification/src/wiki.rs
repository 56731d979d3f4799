//! The encyclopedia service: where random article titles are asked for and how
//! its response is read.

use crate::error::{
    agrees, failure, lemma_told_apart_at, told_apart, ErrorKind, ErrorModel, JobError,
    SEND_CONTEXT,
};
use crate::json::{
    describe_error, elements, member, models_of, parse_value, parsed, text_of, value_elements,
    value_member, value_model, value_text, JsonModel,
};
use vstd::prelude::*;

verus! {

/// The listing of 25 random articles of the main namespace, as JSON.
pub const RANDOM_ARTICLES_URL: &'static str =
    "https://en.wikipedia.org/w/api.php?action=query&format=json&list=random&rnnamespace=0&rnlimit=25";

/// The header that names the client.
pub const USER_AGENT_HEADER: &'static str = "User-Agent";

/// The name the client gives itself.
pub const USER_AGENT: &'static str =
    "daily-knowledge - https://github.com/ToBinio/daily-knowledge";

/// Leads the message when the body of the response does not arrive.
pub const READ_CONTEXT: &'static str = "Failed to read response: ";

/// Leads the message when the response is no JSON.
pub const PARSE_CONTEXT: &'static str = "Failed to parse JSON: ";

/// Leads the message when the response does not hold the listing.
pub const SHAPE_CONTEXT: &'static str = "Failed to find article titles: ";

/// One article of a listing.
#[derive(Debug, Clone, PartialEq, Eq)]
pub struct WikiPageResponse {
    pub title: String,
}

/// The listing inside a response.
#[derive(Debug, Clone, PartialEq, Eq)]
pub struct WikiRandomResponse {
    pub random: Vec<WikiPageResponse>,
}

/// The response of the service: `{ "query": { "random": [ { "title": .. }, .. ] } }`.
#[derive(Debug, Clone, PartialEq, Eq)]
pub struct WikiResponse {
    query: WikiRandomResponse,
}

impl View for WikiPageResponse {
    type V = Seq<char>;

    open spec fn view(&self) -> Seq<char> {
        self.title@
    }
}

impl View for WikiRandomResponse {
    type V = Seq<Seq<char>>;

    /// The titles, in the order of the listing.
    open spec fn view(&self) -> Seq<Seq<char>> {
        self.random@.map_values(|page: WikiPageResponse| page@)
    }
}

impl View for WikiResponse {
    type V = Seq<Seq<char>>;

    /// The titles, in the order of the listing.
    closed spec fn view(&self) -> Seq<Seq<char>> {
        self.query@
    }
}

/// A shape mismatch in the response, with what is wrong.
pub open spec fn shape_failure(detail: Seq<char>) -> ErrorModel {
    failure(ErrorKind::ShapeMismatch, SHAPE_CONTEXT@, detail)
}

/// The title of one entry of the listing: its member `title`, if that is a
/// string.
pub open spec fn entry_title(entry: JsonModel) -> Option<Seq<char>> {
    match member(entry, "title"@) {
        Some(node) => text_of(node),
        None => None,
    }
}

/// The titles of the entries in order, owed when every entry has one.
pub open spec fn listed_titles(entries: Seq<JsonModel>) -> Result<Seq<Seq<char>>, ErrorModel> {
    if forall|i: int| 0 <= i < entries.len() ==> (#[trigger] entry_title(entries[i])) is Some {
        Ok(Seq::new(entries.len(), |i: int| entry_title(entries[i])->0))
    } else {
        Err(shape_failure("an entry of `random` has no `title` string"@))
    }
}

/// The titles that a document lists under `query.random`.
pub open spec fn stated_titles(document: JsonModel) -> Result<Seq<Seq<char>>, ErrorModel> {
    match member(document, "query"@) {
        None => Err(shape_failure("missing field `query`"@)),
        Some(query) => match member(query, "random"@) {
            None => Err(shape_failure("missing field `random`"@)),
            Some(listing) => match elements(listing) {
                None => Err(shape_failure("field `random` is not a list"@)),
                Some(entries) => listed_titles(entries),
            },
        },
    }
}

/// A response body decoded into the titles it lists.
pub open spec fn decoded_titles(body: Seq<char>) -> Result<Seq<Seq<char>>, ErrorModel> {
    match parsed(body) {
        Err(detail) => Err(failure(ErrorKind::Decode, PARSE_CONTEXT@, detail)),
        Ok(document) => stated_titles(document),
    }
}

fn shape_error(detail: &str) -> (out: JobError)
    ensures
        out@ == shape_failure(detail@),
{
    JobError::new(ErrorKind::ShapeMismatch, SHAPE_CONTEXT, detail)
}

impl WikiResponse {
    /// A response that lists `query`.
    pub fn new(query: WikiRandomResponse) -> (out: WikiResponse)
        ensures
            out@ == query@,
    {
        WikiResponse { query }
    }

    /// Reads the listing that a parsed document holds under `query.random`.
    pub fn from_document(document: &serde_json::Value) -> (out: Result<WikiResponse, JobError>)
        ensures
            agrees(out, stated_titles(value_model(*document))),
    {
        let query = match value_member(document, "query") {
            Some(node) => node,
            None => {
                return Err(shape_error("missing field `query`"));
            },
        };
        let listing = match value_member(query, "random") {
            Some(node) => node,
            None => {
                return Err(shape_error("missing field `random`"));
            },
        };
        let entries = match value_elements(listing) {
            Some(items) => items,
            None => {
                return Err(shape_error("field `random` is not a list"));
            },
        };
        let ghost models = models_of(entries@);
        let mut random: Vec<WikiPageResponse> = Vec::new();
        let mut at: usize = 0;
        while at < entries.len()
            invariant
                at <= entries.len(),
                models == models_of(entries@),
                stated_titles(value_model(*document)) == listed_titles(models),
                random@.len() == at,
                forall|i: int| 0 <= i < at ==> entry_title(models[i]) == Some(random@[i]@),
            decreases entries.len() - at,
        {
            assert(models[at as int] == value_model(entries@[at as int]));
            let title = match value_member(&entries[at], "title") {
                Some(node) => value_text(node),
                None => None,
            };
            match title {
                Some(text) => random.push(WikiPageResponse { title: text.to_owned() }),
                None => {
                    assert(entry_title(models[at as int]) is None);
                    return Err(shape_error("an entry of `random` has no `title` string"));
                },
            }
            at += 1;
        }
        let out = WikiResponse { query: WikiRandomResponse { random } };
        assert(out@ =~= listed_titles(models)->Ok_0);
        Ok(out)
    }

    /// The titles, in the order in which the service listed them.
    pub fn titles(&self) -> (out: Vec<String>)
        ensures
            out@.len() == self@.len(),
            forall|i: int| 0 <= i < out@.len() ==> out@[i]@ == self@[i],
    {
        let mut out: Vec<String> = Vec::new();
        let mut at: usize = 0;
        while at < self.query.random.len()
            invariant
                at <= self.query.random.len(),
                out@.len() == at,
                forall|i: int| 0 <= i < at ==> out@[i]@ == self@[i],
            decreases self.query.random.len() - at,
        {
            out.push(self.query.random[at].title.clone());
            at += 1;
        }
        out
    }
}

/// Decodes the response of the encyclopedia service.
pub fn decode_wiki_response(body: &str) -> (out: Result<WikiResponse, JobError>)
    ensures
        agrees(out, decoded_titles(body@)),
{
    match parse_value(body) {
        Err(error) => Err(
            JobError::new(ErrorKind::Decode, PARSE_CONTEXT, describe_error(&error).as_str()),
        ),
        Ok(document) => WikiResponse::from_document(&document),
    }
}

/// A listing whose every entry has a title decodes to as many titles, each at
/// the place of its entry.
pub proof fn lemma_listing_keeps_order(entries: Seq<JsonModel>)
    requires
        forall|i: int| 0 <= i < entries.len() ==> (#[trigger] entry_title(entries[i])) is Some,
    ensures
        listed_titles(entries) is Ok,
        listed_titles(entries)->Ok_0.len() == entries.len(),
        forall|i: int|
            0 <= i < entries.len() ==> Some(#[trigger] listed_titles(entries)->Ok_0[i])
                == entry_title(entries[i]),
{
}

/// A document without `query`, or whose `query` is without `random`, is a
/// shape mismatch.
pub proof fn lemma_missing_listing_is_shape_mismatch(document: JsonModel)
    requires
        member(document, "query"@) matches Some(query) ==> member(query, "random"@) is None,
    ensures
        stated_titles(document) matches Err(error) && error.kind == ErrorKind::ShapeMismatch,
{
}

/// Each way in which fetching the titles can fail leads its message in a way
/// of its own: a request not sent, a body not received, a body that is no
/// JSON, and a document without the listing. No two of them ever give the
/// same message.
pub proof fn lemma_fetch_failures_told_apart()
    ensures
        told_apart(SEND_CONTEXT@, READ_CONTEXT@),
        told_apart(SEND_CONTEXT@, PARSE_CONTEXT@),
        told_apart(SEND_CONTEXT@, SHAPE_CONTEXT@),
        told_apart(READ_CONTEXT@, PARSE_CONTEXT@),
        told_apart(READ_CONTEXT@, SHAPE_CONTEXT@),
        told_apart(PARSE_CONTEXT@, SHAPE_CONTEXT@),
{
    reveal_strlit("Failed to send request: ");
    reveal_strlit("Failed to read response: ");
    reveal_strlit("Failed to parse JSON: ");
    reveal_strlit("Failed to find article titles: ");
    lemma_told_apart_at(SEND_CONTEXT@, READ_CONTEXT@, 10);
    lemma_told_apart_at(SEND_CONTEXT@, PARSE_CONTEXT@, 10);
    lemma_told_apart_at(SEND_CONTEXT@, SHAPE_CONTEXT@, 10);
    lemma_told_apart_at(READ_CONTEXT@, PARSE_CONTEXT@, 10);
    lemma_told_apart_at(READ_CONTEXT@, SHAPE_CONTEXT@, 10);
    lemma_told_apart_at(PARSE_CONTEXT@, SHAPE_CONTEXT@, 10);
}

} // verus!
