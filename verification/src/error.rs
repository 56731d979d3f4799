//! Why a run failed: a closed set of kinds, each with a readable message.

use crate::text::chain;
use vstd::prelude::*;

verus! {

/// The stage of a run that failed.
#[derive(Debug, Clone, Copy, PartialEq, Eq, Structural)]
pub enum ErrorKind {
    /// The settings file could not be read.
    ConfigRead,
    /// The settings file does not hold the settings.
    ConfigParse,
    /// A request was not sent or its response did not arrive.
    Network,
    /// A text that should be JSON is not.
    Decode,
    /// A JSON document lacks a member that was expected.
    ShapeMismatch,
    /// The generated text is there but is no string.
    UnresolvedType,
}

/// A failure of one run: its kind and the text shown to the operator.
#[derive(Debug, Clone, PartialEq, Eq)]
pub struct JobError {
    pub kind: ErrorKind,
    pub message: String,
}

/// A failure as mathematics sees it.
pub struct ErrorModel {
    pub kind: ErrorKind,
    pub message: Seq<char>,
}

impl View for JobError {
    type V = ErrorModel;

    open spec fn view(&self) -> ErrorModel {
        ErrorModel { kind: self.kind, message: self.message@ }
    }
}

/// The failure of kind `kind` whose message is `context` followed by `detail`.
pub open spec fn failure(kind: ErrorKind, context: Seq<char>, detail: Seq<char>) -> ErrorModel {
    ErrorModel { kind, message: context + detail }
}

/// Leads the message when a request cannot be sent, to either service.
pub const SEND_CONTEXT: &'static str = "Failed to send request: ";

/// Whether a message led by `first` and one led by `second` are never the
/// same, whatever detail follows either.
pub open spec fn told_apart(first: Seq<char>, second: Seq<char>) -> bool {
    forall|detail: Seq<char>, other: Seq<char>|
        #![trigger first + detail, second + other]
        first + detail != second + other
}

/// Two contexts that differ at one place are told apart.
pub proof fn lemma_told_apart_at(first: Seq<char>, second: Seq<char>, at: int)
    requires
        0 <= at < first.len(),
        at < second.len(),
        first[at] != second[at],
    ensures
        told_apart(first, second),
        told_apart(second, first),
{
    assert forall|detail: Seq<char>, other: Seq<char>|
        #![trigger first + detail, second + other]
        first + detail != second + other by {
        assert((first + detail)[at] == first[at]);
        assert((second + other)[at] == second[at]);
    }
    assert forall|detail: Seq<char>, other: Seq<char>|
        #![trigger second + detail, first + other]
        second + detail != first + other by {
        assert((second + detail)[at] == second[at]);
        assert((first + other)[at] == first[at]);
    }
}

/// Whether an outcome and its model say the same: the same value by its
/// view, or the same failure.
pub open spec fn agrees<T: View>(out: Result<T, JobError>, model: Result<T::V, ErrorModel>) -> bool {
    match out {
        Ok(value) => model == Ok::<T::V, ErrorModel>(value@),
        Err(error) => model == Err::<T::V, ErrorModel>(error@),
    }
}

impl JobError {
    /// A failure of kind `kind` whose message is `context` followed by
    /// `detail`.
    pub fn new(kind: ErrorKind, context: &str, detail: &str) -> (out: JobError)
        ensures
            out@ == failure(kind, context@, detail@),
    {
        JobError { kind, message: chain(context, detail) }
    }
}

} // verus!
