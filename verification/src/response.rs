//! The outcome of an invocation, in the two forms in which it travels: as the
//! orchestrator makes it, and as a caller of the binding receives it.
//!
//! A response is all or nothing. Either it reports success and carries what
//! the invoked operation produces, or it reports an error and carries the
//! error alone.

use vstd::prelude::*;
use vstd::string::*;
use crate::error::{PipelineError, PipelineErrorView};

verus! {

/// Whether an invocation succeeded.
#[derive(Clone, Copy, Debug, PartialEq, Eq, Structural)]
pub enum Status {
    Success,
    Error,
}

impl Status {
    /// The word by which the status is shown to a caller.
    pub open spec fn name(self) -> Seq<char> {
        match self {
            Status::Success => "success"@,
            Status::Error => "error"@,
        }
    }

    /// The word by which the status is shown to a caller.
    pub fn as_str(self) -> (s: &'static str)
        ensures
            s@ == self.name(),
    {
        match self {
            Status::Success => "success",
            Status::Error => "error",
        }
    }
}

/// The characters of an optional text.
pub open spec fn optional_text(text: Option<String>) -> Option<Seq<char>> {
    match text {
        Some(s) => Some(s@),
        None => None,
    }
}

/// A copy of an optional text.
pub fn copy_optional_text(text: &Option<String>) -> (copy: Option<String>)
    ensures
        optional_text(copy) == optional_text(*text),
{
    match text {
        Some(s) => Some(s.clone()),
        None => None,
    }
}

/// A `PipelineResponse` as a mathematical value.
pub struct PipelineResponseView {
    pub status: Status,
    pub schema: Option<Seq<char>>,
    pub cypher_query: Option<Seq<char>>,
    pub cypher_result: Option<Seq<char>>,
    pub answer: Option<Seq<char>>,
    pub error: Option<PipelineErrorView>,
}

impl PipelineResponseView {
    /// The response of an invocation that failed with `error`.
    pub open spec fn failed(error: PipelineErrorView) -> PipelineResponseView {
        PipelineResponseView {
            status: Status::Error,
            schema: None,
            cypher_query: None,
            cypher_result: None,
            answer: None,
            error: Some(error),
        }
    }

    /// The response of a schema discovery that found `schema`.
    pub open spec fn described(schema: Seq<char>) -> PipelineResponseView {
        PipelineResponseView {
            status: Status::Success,
            schema: Some(schema),
            cypher_query: None,
            cypher_result: None,
            answer: None,
            error: None,
        }
    }

    /// The response of a generation that produced `query` for a graph of
    /// schema `schema`.
    pub open spec fn generated(schema: Seq<char>, query: Seq<char>) -> PipelineResponseView {
        PipelineResponseView {
            status: Status::Success,
            schema: Some(schema),
            cypher_query: Some(query),
            cypher_result: None,
            answer: None,
            error: None,
        }
    }

    /// The response of a full run.
    pub open spec fn answered(
        schema: Seq<char>,
        query: Seq<char>,
        result: Seq<char>,
        answer: Seq<char>,
    ) -> PipelineResponseView {
        PipelineResponseView {
            status: Status::Success,
            schema: Some(schema),
            cypher_query: Some(query),
            cypher_result: Some(result),
            answer: Some(answer),
            error: None,
        }
    }

    /// Whether the response is all or nothing: an error with nothing beside
    /// it, or a success that carries the outputs of the stages up to some
    /// stage and of none behind it.
    pub open spec fn well_formed(self) -> bool {
        match self.status {
            Status::Error => {
                &&& self.error is Some
                &&& self.schema is None
                &&& self.cypher_query is None
                &&& self.cypher_result is None
                &&& self.answer is None
            },
            Status::Success => {
                &&& self.error is None
                &&& self.schema is Some
                &&& (self.cypher_result is Some ==> self.cypher_query is Some)
                &&& (self.answer is Some <==> self.cypher_result is Some)
            },
        }
    }
}

/// The outcome of one invocation.
#[derive(Debug, PartialEq, Eq)]
pub struct PipelineResponse {
    status: Status,
    schema: Option<String>,
    cypher_query: Option<String>,
    cypher_result: Option<String>,
    answer: Option<String>,
    error: Option<PipelineError>,
}

impl View for PipelineResponse {
    type V = PipelineResponseView;

    closed spec fn view(&self) -> PipelineResponseView {
        PipelineResponseView {
            status: self.status,
            schema: optional_text(self.schema),
            cypher_query: optional_text(self.cypher_query),
            cypher_result: optional_text(self.cypher_result),
            answer: optional_text(self.answer),
            error: match self.error {
                Some(e) => Some(e@),
                None => None,
            },
        }
    }
}

impl Clone for PipelineResponse {
    fn clone(&self) -> (copy: PipelineResponse)
        ensures
            copy@ == self@,
    {
        proof {
            use_type_invariant(self);
        }
        PipelineResponse {
            status: self.status,
            schema: copy_optional_text(&self.schema),
            cypher_query: copy_optional_text(&self.cypher_query),
            cypher_result: copy_optional_text(&self.cypher_result),
            answer: copy_optional_text(&self.answer),
            error: match &self.error {
                Some(e) => Some(PipelineError { kind: e.kind, message: e.message.clone() }),
                None => None,
            },
        }
    }
}

impl PipelineResponse {
    #[verifier::type_invariant]
    spec fn all_or_nothing(self) -> bool {
        self@.well_formed()
    }

    /// The response of an invocation that failed with `error`.
    pub fn failed(error: PipelineError) -> (response: PipelineResponse)
        ensures
            response@ == PipelineResponseView::failed(error@),
    {
        PipelineResponse {
            status: Status::Error,
            schema: None,
            cypher_query: None,
            cypher_result: None,
            answer: None,
            error: Some(error),
        }
    }

    /// The response of a schema discovery that found `schema`.
    pub fn described(schema: String) -> (response: PipelineResponse)
        ensures
            response@ == PipelineResponseView::described(schema@),
    {
        PipelineResponse {
            status: Status::Success,
            schema: Some(schema),
            cypher_query: None,
            cypher_result: None,
            answer: None,
            error: None,
        }
    }

    /// The response of a generation that produced `query`.
    pub fn generated(schema: String, query: String) -> (response: PipelineResponse)
        ensures
            response@ == PipelineResponseView::generated(schema@, query@),
    {
        PipelineResponse {
            status: Status::Success,
            schema: Some(schema),
            cypher_query: Some(query),
            cypher_result: None,
            answer: None,
            error: None,
        }
    }

    /// The response of a full run.
    pub fn answered(schema: String, query: String, result: String, answer: String) -> (response:
        PipelineResponse)
        ensures
            response@ == PipelineResponseView::answered(schema@, query@, result@, answer@),
    {
        PipelineResponse {
            status: Status::Success,
            schema: Some(schema),
            cypher_query: Some(query),
            cypher_result: Some(result),
            answer: Some(answer),
            error: None,
        }
    }

    /// Whether the invocation succeeded.
    pub fn status(&self) -> (status: Status)
        ensures
            status == self@.status,
            self@.well_formed(),
    {
        proof {
            use_type_invariant(self);
        }
        self.status
    }

    /// Whether the invocation succeeded.
    pub fn is_success(&self) -> (r: bool)
        ensures
            r == (self@.status == Status::Success),
    {
        self.status == Status::Success
    }

    /// Whether the invocation failed.
    pub fn is_error(&self) -> (r: bool)
        ensures
            r == (self@.status == Status::Error),
    {
        self.status == Status::Error
    }

    /// The schema text, where the invocation produced one.
    pub fn schema(&self) -> (schema: &Option<String>)
        ensures
            optional_text(*schema) == self@.schema,
    {
        &self.schema
    }

    /// The generated query, where the invocation produced one.
    pub fn cypher_query(&self) -> (query: &Option<String>)
        ensures
            optional_text(*query) == self@.cypher_query,
    {
        &self.cypher_query
    }

    /// The text form of the query's result, where the invocation produced
    /// one.
    pub fn cypher_result(&self) -> (result: &Option<String>)
        ensures
            optional_text(*result) == self@.cypher_result,
    {
        &self.cypher_result
    }

    /// The answer, where the invocation produced one.
    pub fn answer(&self) -> (answer: &Option<String>)
        ensures
            optional_text(*answer) == self@.answer,
    {
        &self.answer
    }

    /// The failure, where the invocation failed.
    pub fn error(&self) -> (error: &Option<PipelineError>)
        ensures
            match *error {
                Some(e) => self@.error == Some(e@),
                None => self@.error is None,
            },
    {
        &self.error
    }
}

/// A response as the caller of the binding receives it: the status as a word,
/// the failure as its message.
#[derive(Clone, Debug, PartialEq, Eq)]
pub struct TextToCypherResponse {
    /// Status of the operation: "success" or "error".
    pub status: String,
    /// The discovered graph schema, as JSON.
    pub schema: Option<String>,
    /// The generated Cypher query.
    pub cypher_query: Option<String>,
    /// The result of executing the Cypher query.
    pub cypher_result: Option<String>,
    /// The answer in natural language, made from the result.
    pub answer: Option<String>,
    /// The error message, if the status is "error".
    pub error: Option<String>,
}

/// A `TextToCypherResponse` as a mathematical value.
pub struct TextToCypherResponseView {
    pub status: Seq<char>,
    pub schema: Option<Seq<char>>,
    pub cypher_query: Option<Seq<char>>,
    pub cypher_result: Option<Seq<char>>,
    pub answer: Option<Seq<char>>,
    pub error: Option<Seq<char>>,
}

impl View for TextToCypherResponse {
    type V = TextToCypherResponseView;

    open spec fn view(&self) -> TextToCypherResponseView {
        TextToCypherResponseView {
            status: self.status@,
            schema: optional_text(self.schema),
            cypher_query: optional_text(self.cypher_query),
            cypher_result: optional_text(self.cypher_result),
            answer: optional_text(self.answer),
            error: optional_text(self.error),
        }
    }
}

/// The form in which `response` reaches the caller of the binding: every
/// field as it is, the status as its word, the failure as its message.
pub open spec fn transported(response: PipelineResponseView) -> TextToCypherResponseView {
    TextToCypherResponseView {
        status: response.status.name(),
        schema: response.schema,
        cypher_query: response.cypher_query,
        cypher_result: response.cypher_result,
        answer: response.answer,
        error: match response.error {
            Some(e) => Some(e.message),
            None => None,
        },
    }
}

impl TextToCypherResponse {
    /// Converts the orchestrator's response into the caller's form.
    pub fn from(response: PipelineResponse) -> (r: TextToCypherResponse)
        ensures
            r@ == transported(response@),
    {
        let PipelineResponse { status, schema, cypher_query, cypher_result, answer, error } =
            response;
        TextToCypherResponse {
            status: String::from_str(status.as_str()),
            schema,
            cypher_query,
            cypher_result,
            answer,
            error: match error {
                Some(e) => Some(e.message),
                None => None,
            },
        }
    }
}

} // verus!
