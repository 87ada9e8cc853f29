//! The orchestrator: one invocation as a state machine.
//!
//! An invocation passes through its stages in a line and may leave at any of
//! them: schema discovery, query generation, query execution, answer
//! synthesis, done. The machine does none of the outside work itself. It says
//! which call is due (`action`), is told how the call went (`advance`), and
//! decides what follows. Whoever runs it performs the calls.
//!
//! A stage that fails ends the invocation. What earlier stages produced is
//! then kept in the run for diagnosis, and kept out of the response.

use vstd::prelude::*;
use vstd::string::*;
use crate::conversation::{turn_views, ConversationMessage, TurnView};
use crate::error::{failure, ErrorKind, PipelineError, PipelineErrorView};
use crate::executor::{normalization, result_text, ExecutionResult, FieldView, RowSet, RowSetView};
use crate::generator::{
    build_generation_messages, extraction, generation_messages, statement_from_cleaned,
    GeneratedQuery, GeneratedQueryView,
};
use crate::outside::{clean_completion, cleaned_completion};
use crate::provider::{resolution, resolve, ProviderKind, ResolvedModel, ResolvedModelView};
use crate::response::{PipelineResponse, PipelineResponseView};
use crate::schema::{schema_json, SchemaDescriptor, SchemaView};
use crate::synthesizer::{build_synthesis_messages, synthesis_messages};

verus! {

/// What is reported when a query is asked for and no message was given.
pub const EMPTY_CONVERSATION: &'static str = "the conversation holds no message";

/// Which operation an invocation performs.
#[derive(Clone, Copy, Debug, PartialEq, Eq, Structural)]
pub enum Mode {
    /// All four stages.
    FullPipeline,
    /// Schema discovery and query generation.
    GenerationOnly,
    /// Schema discovery.
    SchemaOnly,
}

/// Where an invocation stands: the stage whose outside call is due, or done.
#[derive(Clone, Copy, Debug, PartialEq, Eq, Structural)]
pub enum Stage {
    SchemaDiscovery,
    QueryGeneration,
    QueryExecution,
    AnswerSynthesis,
    Done,
}

/// The outside call that is due, or the response where none is.
#[derive(Debug, PartialEq, Eq)]
pub enum Action {
    /// Ask the graph store for the schema of the graph.
    FetchSchema { graph_name: String },
    /// Ask the model of the provider to complete the messages.
    Complete { provider: ProviderKind, model: String, messages: Vec<ConversationMessage> },
    /// Submit the statement to the graph store, as it is.
    ExecuteQuery { graph_name: String, statement: String },
    /// Nothing is due: the invocation is over, with this response.
    Finish { response: PipelineResponse },
}

/// An `Action` as a mathematical value.
pub enum ActionView {
    FetchSchema { graph_name: Seq<char> },
    Complete { provider: ProviderKind, model: Seq<char>, messages: Seq<TurnView> },
    ExecuteQuery { graph_name: Seq<char>, statement: Seq<char> },
    Finish { response: PipelineResponseView },
}

impl View for Action {
    type V = ActionView;

    open spec fn view(&self) -> ActionView {
        match *self {
            Action::FetchSchema { graph_name } => ActionView::FetchSchema {
                graph_name: graph_name@,
            },
            Action::Complete { provider, model, messages } => ActionView::Complete {
                provider,
                model: model@,
                messages: turn_views(messages@),
            },
            Action::ExecuteQuery { graph_name, statement } => ActionView::ExecuteQuery {
                graph_name: graph_name@,
                statement: statement@,
            },
            Action::Finish { response } => ActionView::Finish { response: response@ },
        }
    }
}

/// How an outside call went. A failure carries the cause as the callee
/// reported it.
#[derive(Debug, PartialEq, Eq)]
pub enum Event {
    /// The graph store described the graph, or could not.
    SchemaFetched(Result<SchemaDescriptor, String>),
    /// The model completed the messages, or could not.
    Completed(Result<String, String>),
    /// The graph store ran the statement, or could not.
    Executed(Result<RowSet, String>),
}

/// An `Event` as a mathematical value.
pub enum EventView {
    SchemaFetched(Result<SchemaView, Seq<char>>),
    Completed(Result<Seq<char>, Seq<char>>),
    Executed(Result<RowSetView, Seq<char>>),
}

impl View for Event {
    type V = EventView;

    open spec fn view(&self) -> EventView {
        match *self {
            Event::SchemaFetched(Ok(schema)) => EventView::SchemaFetched(Ok(schema@)),
            Event::SchemaFetched(Err(cause)) => EventView::SchemaFetched(Err(cause@)),
            Event::Completed(Ok(text)) => EventView::Completed(Ok(text@)),
            Event::Completed(Err(cause)) => EventView::Completed(Err(cause@)),
            Event::Executed(Ok(rows)) => EventView::Executed(Ok(rows@)),
            Event::Executed(Err(cause)) => EventView::Executed(Err(cause@)),
        }
    }
}

/// A `Pipeline` as a mathematical value.
pub struct PipelineView {
    /// The operation that was invoked.
    pub mode: Mode,
    /// The graph that it was invoked on.
    pub graph_name: Seq<char>,
    /// The model that generates and answers; none where only the schema is
    /// asked for.
    pub model: Option<ResolvedModelView>,
    /// The conversation that the query is generated from.
    pub conversation: Seq<TurnView>,
    /// Where the invocation stands.
    pub stage: Stage,
    /// What schema discovery produced, once it has.
    pub schema: Option<SchemaView>,
    /// What query generation produced, once it has.
    pub generated: Option<GeneratedQueryView>,
    /// What query execution produced, once it has.
    pub result: Option<Seq<Seq<FieldView>>>,
    /// The response, once the invocation is over.
    pub response: Option<PipelineResponseView>,
}

impl PipelineView {
    /// Whether the run is in a state that an invocation can reach: each stage
    /// has what the stages before it produce, no stage is entered that the
    /// operation does not include, and the response is there exactly when
    /// the run is done.
    pub open spec fn well_formed(self) -> bool {
        &&& (self.stage == Stage::Done <==> self.response is Some)
        &&& (self.response matches Some(response) ==> response.well_formed())
        &&& (self.mode == Mode::SchemaOnly ==> self.stage == Stage::SchemaDiscovery || self.stage
            == Stage::Done)
        &&& (self.mode == Mode::GenerationOnly ==> self.stage != Stage::QueryExecution
            && self.stage != Stage::AnswerSynthesis)
        &&& (self.stage != Stage::Done && self.mode != Mode::SchemaOnly ==> self.model is Some
            && self.conversation.len() > 0)
        &&& (self.stage == Stage::QueryGeneration || self.stage == Stage::QueryExecution
            || self.stage == Stage::AnswerSynthesis ==> self.schema is Some)
        &&& (self.stage == Stage::QueryExecution || self.stage == Stage::AnswerSynthesis
            ==> self.generated is Some)
        &&& (self.stage == Stage::AnswerSynthesis ==> self.result is Some)
    }

    /// The run, over: done, with `response`.
    pub open spec fn ended(self, response: PipelineResponseView) -> PipelineView {
        PipelineView { stage: Stage::Done, response: Some(response), ..self }
    }

    /// The run, ended by a failure of kind `kind` with the cause `cause`.
    pub open spec fn failed(self, kind: ErrorKind, cause: Seq<char>) -> PipelineView {
        self.ended(PipelineResponseView::failed(failure(kind, cause)))
    }
}

/// The run of a schema discovery on `graph_name`, before any call.
pub open spec fn discovery(graph_name: Seq<char>) -> PipelineView {
    PipelineView {
        mode: Mode::SchemaOnly,
        graph_name,
        model: None,
        conversation: Seq::empty(),
        stage: Stage::SchemaDiscovery,
        schema: None,
        generated: None,
        result: None,
        response: None,
    }
}

/// The operation that generates a query and, if `execute`, runs it and
/// answers.
pub open spec fn generating_mode(execute: bool) -> Mode {
    if execute {
        Mode::FullPipeline
    } else {
        Mode::GenerationOnly
    }
}

/// The run of a generation on `graph_name`, before any call.
///
/// `conversion` is what the caller's messages were converted to, and
/// `model_id` names the model. The run is over at once, and no call is ever
/// due, if the conversion failed, if the conversation is empty, or if the
/// model's provider is unknown: in this order.
pub open spec fn generation(
    execute: bool,
    graph_name: Seq<char>,
    model_id: Seq<char>,
    conversion: Result<Seq<TurnView>, PipelineErrorView>,
) -> PipelineView {
    let blank = PipelineView {
        mode: generating_mode(execute),
        graph_name,
        model: None,
        conversation: Seq::empty(),
        stage: Stage::SchemaDiscovery,
        schema: None,
        generated: None,
        result: None,
        response: None,
    };
    match conversion {
        Err(e) => blank.ended(PipelineResponseView::failed(e)),
        Ok(conversation) => if conversation.len() == 0 {
            blank.failed(ErrorKind::GenerationFailed, EMPTY_CONVERSATION@)
        } else {
            match resolution(model_id) {
                Err(e) => blank.ended(PipelineResponseView::failed(e)),
                Ok(model) => PipelineView { model: Some(model), conversation, ..blank },
            }
        },
    }
}

/// The call that is due in the run `run`.
pub open spec fn action_of(run: PipelineView) -> ActionView {
    match run.stage {
        Stage::SchemaDiscovery => ActionView::FetchSchema { graph_name: run.graph_name },
        Stage::QueryGeneration => ActionView::Complete {
            provider: run.model->0.provider,
            model: run.model->0.name,
            messages: generation_messages(run.schema->0, run.conversation),
        },
        Stage::QueryExecution => ActionView::ExecuteQuery {
            graph_name: run.graph_name,
            statement: run.generated->0.statement,
        },
        Stage::AnswerSynthesis => ActionView::Complete {
            provider: run.model->0.provider,
            model: run.model->0.name,
            messages: synthesis_messages(
                run.conversation,
                run.generated->0.statement,
                run.result->0,
            ),
        },
        Stage::Done => ActionView::Finish { response: run.response->0 },
    }
}

/// The run that follows `run` when the schema was fetched.
pub open spec fn after_schema(run: PipelineView, fetched: Result<SchemaView, Seq<char>>) -> PipelineView {
    match fetched {
        Err(cause) => run.failed(ErrorKind::SchemaDiscoveryFailed, cause),
        Ok(schema) => if run.mode == Mode::SchemaOnly {
            PipelineView { schema: Some(schema), ..run }.ended(
                PipelineResponseView::described(schema_json(schema)),
            )
        } else {
            PipelineView { schema: Some(schema), stage: Stage::QueryGeneration, ..run }
        },
    }
}

/// The run that follows `run` when the model was asked for a query.
/// `cleaned` is the cleaned form of the completion.
pub open spec fn after_generation(
    run: PipelineView,
    completed: Result<Seq<char>, Seq<char>>,
    cleaned: Seq<char>,
) -> PipelineView {
    match completed {
        Err(cause) => run.failed(ErrorKind::GenerationFailed, cause),
        Ok(completion) => match extraction(cleaned, completion) {
            Err(e) => run.ended(PipelineResponseView::failed(e)),
            Ok(query) => if run.mode == Mode::GenerationOnly {
                PipelineView { generated: Some(query), ..run }.ended(
                    PipelineResponseView::generated(schema_json(run.schema->0), query.statement),
                )
            } else {
                PipelineView { generated: Some(query), stage: Stage::QueryExecution, ..run }
            },
        },
    }
}

/// The run that follows `run` when the statement was submitted.
pub open spec fn after_execution(run: PipelineView, executed: Result<RowSetView, Seq<char>>) -> PipelineView {
    match executed {
        Err(cause) => run.failed(ErrorKind::ExecutionFailed, cause),
        Ok(rows) => match normalization(rows) {
            Err(e) => run.ended(PipelineResponseView::failed(e)),
            Ok(records) => PipelineView {
                result: Some(records),
                stage: Stage::AnswerSynthesis,
                ..run
            },
        },
    }
}

/// The run that follows `run` when the model was asked for the answer.
pub open spec fn after_synthesis(run: PipelineView, completed: Result<Seq<char>, Seq<char>>) -> PipelineView {
    match completed {
        Err(cause) => run.failed(ErrorKind::SynthesisFailed, cause),
        Ok(answer) => run.ended(
            PipelineResponseView::answered(
                schema_json(run.schema->0),
                run.generated->0.statement,
                result_text(run.result->0),
                answer,
            ),
        ),
    }
}

/// Whether the run `run` awaits the event `event`: whether `event` reports
/// on the call that is due.
pub open spec fn awaits(run: PipelineView, event: EventView) -> bool {
    match run.stage {
        Stage::SchemaDiscovery => event is SchemaFetched,
        Stage::QueryGeneration => event is Completed,
        Stage::QueryExecution => event is Executed,
        Stage::AnswerSynthesis => event is Completed,
        Stage::Done => false,
    }
}

/// The run that follows `run` on `event`, where `cleaned` is the cleaned form
/// of the completion that `event` may carry.
///
/// An event that the run does not await changes nothing.
pub open spec fn next_given(run: PipelineView, event: EventView, cleaned: Seq<char>) -> PipelineView {
    match (run.stage, event) {
        (Stage::SchemaDiscovery, EventView::SchemaFetched(fetched)) => after_schema(run, fetched),
        (Stage::QueryGeneration, EventView::Completed(completed)) => after_generation(
            run,
            completed,
            cleaned,
        ),
        (Stage::QueryExecution, EventView::Executed(executed)) => after_execution(run, executed),
        (Stage::AnswerSynthesis, EventView::Completed(completed)) => after_synthesis(
            run,
            completed,
        ),
        _ => run,
    }
}

/// The completion that `event` carries, where it carries one.
pub open spec fn completion_of(event: EventView) -> Seq<char> {
    match event {
        EventView::Completed(Ok(completion)) => completion,
        _ => Seq::empty(),
    }
}

/// The run that follows `run` on `event`.
pub open spec fn next(run: PipelineView, event: EventView) -> PipelineView {
    next_given(run, event, cleaned_completion(completion_of(event)))
}

/// What a conversion of messages came to, as a mathematical value.
pub open spec fn conversion_view(conversion: Result<Vec<ConversationMessage>, PipelineError>) -> Result<
    Seq<TurnView>,
    PipelineErrorView,
> {
    match conversion {
        Ok(turns) => Ok(turn_views(turns@)),
        Err(e) => Err(e@),
    }
}

/// One invocation of the pipeline, as far as it has come.
#[derive(Debug, PartialEq, Eq)]
pub struct Pipeline {
    mode: Mode,
    graph_name: String,
    model: Option<ResolvedModel>,
    conversation: Vec<ConversationMessage>,
    stage: Stage,
    schema: Option<SchemaDescriptor>,
    generated: Option<GeneratedQuery>,
    result: Option<ExecutionResult>,
    response: Option<PipelineResponse>,
}

impl View for Pipeline {
    type V = PipelineView;

    closed spec fn view(&self) -> PipelineView {
        PipelineView {
            mode: self.mode,
            graph_name: self.graph_name@,
            model: match self.model {
                Some(model) => Some(model@),
                None => None,
            },
            conversation: turn_views(self.conversation@),
            stage: self.stage,
            schema: match self.schema {
                Some(schema) => Some(schema@),
                None => None,
            },
            generated: match self.generated {
                Some(query) => Some(query@),
                None => None,
            },
            result: match self.result {
                Some(result) => Some(result@),
                None => None,
            },
            response: match self.response {
                Some(response) => Some(response@),
                None => None,
            },
        }
    }
}

impl Pipeline {
    #[verifier::type_invariant]
    spec fn reachable(self) -> bool {
        self@.well_formed()
    }

    /// Begins a schema discovery on `graph_name`.
    pub fn discover(graph_name: String) -> (run: Pipeline)
        ensures
            run@ == discovery(graph_name@),
    {
        let run = Pipeline {
            mode: Mode::SchemaOnly,
            graph_name,
            model: None,
            conversation: Vec::new(),
            stage: Stage::SchemaDiscovery,
            schema: None,
            generated: None,
            result: None,
            response: None,
        };
        assert(run@.conversation =~= Seq::empty());
        run
    }

    /// Begins a generation on `graph_name`: of a query only, or, if
    /// `execute`, of a query that is then run and answered from.
    ///
    /// `conversion` is what the caller's messages were converted to. No call
    /// is ever due if it is a failure, if the conversation is empty, or if
    /// `model_id` names an unknown provider.
    pub fn generate(
        execute: bool,
        graph_name: String,
        model_id: &str,
        conversion: Result<Vec<ConversationMessage>, PipelineError>,
    ) -> (run: Pipeline)
        ensures
            run@ == generation(execute, graph_name@, model_id@, conversion_view(conversion)),
    {
        let mode = if execute {
            Mode::FullPipeline
        } else {
            Mode::GenerationOnly
        };
        let failure = match conversion {
            Err(e) => e,
            Ok(conversation) => {
                if conversation.len() == 0 {
                    PipelineError::new(ErrorKind::GenerationFailed, EMPTY_CONVERSATION)
                } else {
                    match resolve(model_id) {
                        Err(e) => e,
                        Ok(model) => {
                            return Pipeline {
                                mode,
                                graph_name,
                                model: Some(model),
                                conversation,
                                stage: Stage::SchemaDiscovery,
                                schema: None,
                                generated: None,
                                result: None,
                                response: None,
                            };
                        },
                    }
                }
            },
        };
        let run = Pipeline {
            mode,
            graph_name,
            model: None,
            conversation: Vec::new(),
            stage: Stage::Done,
            schema: None,
            generated: None,
            result: None,
            response: Some(PipelineResponse::failed(failure)),
        };
        assert(run@.conversation =~= Seq::empty());
        run
    }

    /// The operation that was invoked.
    pub fn mode(&self) -> (mode: Mode)
        ensures
            mode == self@.mode,
    {
        self.mode
    }

    /// Where the invocation stands.
    pub fn stage(&self) -> (stage: Stage)
        ensures
            stage == self@.stage,
            self@.well_formed(),
    {
        proof {
            use_type_invariant(self);
        }
        self.stage
    }

    /// Whether the invocation is over.
    pub fn is_done(&self) -> (done: bool)
        ensures
            done == (self@.stage == Stage::Done),
            done == self@.response is Some,
    {
        proof {
            use_type_invariant(self);
        }
        self.stage == Stage::Done
    }

    /// The descriptor that schema discovery produced, once it has.
    pub fn schema(&self) -> (schema: &Option<SchemaDescriptor>)
        ensures
            match *schema {
                Some(found) => self@.schema == Some(found@),
                None => self@.schema is None,
            },
    {
        &self.schema
    }

    /// The query that generation produced, with the completion it was taken
    /// from, once it has. It stays here when a later stage fails.
    pub fn generated(&self) -> (generated: &Option<GeneratedQuery>)
        ensures
            match *generated {
                Some(query) => self@.generated == Some(query@),
                None => self@.generated is None,
            },
    {
        &self.generated
    }

    /// The result that execution produced, once it has.
    pub fn result(&self) -> (result: &Option<ExecutionResult>)
        ensures
            match *result {
                Some(records) => self@.result == Some(records@),
                None => self@.result is None,
            },
    {
        &self.result
    }

    /// The response, once the invocation is over.
    pub fn response(&self) -> (response: &Option<PipelineResponse>)
        ensures
            match *response {
                Some(r) => self@.response == Some(r@),
                None => self@.response is None,
            },
    {
        &self.response
    }

    /// The response, once the invocation is over; the run is given up.
    pub fn into_response(self) -> (response: Option<PipelineResponse>)
        ensures
            match response {
                Some(r) => self@.response == Some(r@),
                None => self@.response is None,
            },
    {
        self.response
    }

    /// The outside call that is due, or the response if the run is over.
    pub fn action(&self) -> (action: Action)
        ensures
            action@ == action_of(self@),
    {
        proof {
            use_type_invariant(self);
        }
        match self.stage {
            Stage::SchemaDiscovery => Action::FetchSchema { graph_name: self.graph_name.clone() },
            Stage::QueryGeneration => {
                let model = self.model.as_ref().unwrap();
                let schema = self.schema.as_ref().unwrap();
                Action::Complete {
                    provider: model.provider,
                    model: model.name.clone(),
                    messages: build_generation_messages(schema, &self.conversation),
                }
            },
            Stage::QueryExecution => {
                let query = self.generated.as_ref().unwrap();
                Action::ExecuteQuery {
                    graph_name: self.graph_name.clone(),
                    statement: query.statement.clone(),
                }
            },
            Stage::AnswerSynthesis => {
                let model = self.model.as_ref().unwrap();
                let query = self.generated.as_ref().unwrap();
                let result = self.result.as_ref().unwrap();
                Action::Complete {
                    provider: model.provider,
                    model: model.name.clone(),
                    messages: build_synthesis_messages(
                        &self.conversation,
                        query.statement.as_str(),
                        result,
                    ),
                }
            },
            Stage::Done => {
                let response = self.response.as_ref().unwrap();
                Action::Finish { response: response.clone() }
            },
        }
    }

    /// Takes the run one step on, given the cleaned form of the completion
    /// that `event` may carry.
    ///
    /// An event that the run does not await changes nothing.
    pub fn advance_given(self, event: Event, cleaned: &str) -> (run: Pipeline)
        ensures
            run@ == next_given(self@, event@, cleaned@),
    {
        proof {
            use_type_invariant(&self);
        }
        let Pipeline {
            mode,
            graph_name,
            model,
            conversation,
            stage,
            schema,
            generated,
            result,
            response,
        } = self;
        match stage {
            Stage::SchemaDiscovery => match event {
                Event::SchemaFetched(Ok(found)) => {
                    if mode == Mode::SchemaOnly {
                        let text = found.to_json();
                        Pipeline {
                            mode,
                            graph_name,
                            model,
                            conversation,
                            stage: Stage::Done,
                            schema: Some(found),
                            generated,
                            result,
                            response: Some(PipelineResponse::described(text)),
                        }
                    } else {
                        Pipeline {
                            mode,
                            graph_name,
                            model,
                            conversation,
                            stage: Stage::QueryGeneration,
                            schema: Some(found),
                            generated,
                            result,
                            response,
                        }
                    }
                },
                Event::SchemaFetched(Err(cause)) => {
                    let error = PipelineError::new(
                        ErrorKind::SchemaDiscoveryFailed,
                        cause.as_str(),
                    );
                    Pipeline {
                        mode,
                        graph_name,
                        model,
                        conversation,
                        stage: Stage::Done,
                        schema,
                        generated,
                        result,
                        response: Some(PipelineResponse::failed(error)),
                    }
                },
                _ => Pipeline {
                    mode,
                    graph_name,
                    model,
                    conversation,
                    stage,
                    schema,
                    generated,
                    result,
                    response,
                },
            },
            Stage::QueryGeneration => match event {
                Event::Completed(Ok(completion)) => {
                    match statement_from_cleaned(cleaned, completion.as_str()) {
                        Ok(query) => {
                            if mode == Mode::GenerationOnly {
                                let text = schema.as_ref().unwrap().to_json();
                                let statement = query.statement.clone();
                                Pipeline {
                                    mode,
                                    graph_name,
                                    model,
                                    conversation,
                                    stage: Stage::Done,
                                    schema,
                                    generated: Some(query),
                                    result,
                                    response: Some(PipelineResponse::generated(text, statement)),
                                }
                            } else {
                                Pipeline {
                                    mode,
                                    graph_name,
                                    model,
                                    conversation,
                                    stage: Stage::QueryExecution,
                                    schema,
                                    generated: Some(query),
                                    result,
                                    response,
                                }
                            }
                        },
                        Err(error) => Pipeline {
                            mode,
                            graph_name,
                            model,
                            conversation,
                            stage: Stage::Done,
                            schema,
                            generated,
                            result,
                            response: Some(PipelineResponse::failed(error)),
                        },
                    }
                },
                Event::Completed(Err(cause)) => {
                    let error = PipelineError::new(ErrorKind::GenerationFailed, cause.as_str());
                    Pipeline {
                        mode,
                        graph_name,
                        model,
                        conversation,
                        stage: Stage::Done,
                        schema,
                        generated,
                        result,
                        response: Some(PipelineResponse::failed(error)),
                    }
                },
                _ => Pipeline {
                    mode,
                    graph_name,
                    model,
                    conversation,
                    stage,
                    schema,
                    generated,
                    result,
                    response,
                },
            },
            Stage::QueryExecution => match event {
                Event::Executed(Ok(rows)) => {
                    match ExecutionResult::from_rows(&rows) {
                        Ok(records) => Pipeline {
                            mode,
                            graph_name,
                            model,
                            conversation,
                            stage: Stage::AnswerSynthesis,
                            schema,
                            generated,
                            result: Some(records),
                            response,
                        },
                        Err(error) => Pipeline {
                            mode,
                            graph_name,
                            model,
                            conversation,
                            stage: Stage::Done,
                            schema,
                            generated,
                            result,
                            response: Some(PipelineResponse::failed(error)),
                        },
                    }
                },
                Event::Executed(Err(cause)) => {
                    let error = PipelineError::new(ErrorKind::ExecutionFailed, cause.as_str());
                    Pipeline {
                        mode,
                        graph_name,
                        model,
                        conversation,
                        stage: Stage::Done,
                        schema,
                        generated,
                        result,
                        response: Some(PipelineResponse::failed(error)),
                    }
                },
                _ => Pipeline {
                    mode,
                    graph_name,
                    model,
                    conversation,
                    stage,
                    schema,
                    generated,
                    result,
                    response,
                },
            },
            Stage::AnswerSynthesis => match event {
                Event::Completed(Ok(answer)) => {
                    let text = schema.as_ref().unwrap().to_json();
                    let statement = generated.as_ref().unwrap().statement.clone();
                    let shown = result.as_ref().unwrap().to_text();
                    Pipeline {
                        mode,
                        graph_name,
                        model,
                        conversation,
                        stage: Stage::Done,
                        schema,
                        generated,
                        result,
                        response: Some(PipelineResponse::answered(text, statement, shown, answer)),
                    }
                },
                Event::Completed(Err(cause)) => {
                    let error = PipelineError::new(ErrorKind::SynthesisFailed, cause.as_str());
                    Pipeline {
                        mode,
                        graph_name,
                        model,
                        conversation,
                        stage: Stage::Done,
                        schema,
                        generated,
                        result,
                        response: Some(PipelineResponse::failed(error)),
                    }
                },
                _ => Pipeline {
                    mode,
                    graph_name,
                    model,
                    conversation,
                    stage,
                    schema,
                    generated,
                    result,
                    response,
                },
            },
            Stage::Done => Pipeline {
                mode,
                graph_name,
                model,
                conversation,
                stage,
                schema,
                generated,
                result,
                response,
            },
        }
    }

    /// Takes the run one step on: `event` says how the call that was due
    /// went.
    ///
    /// An event that the run does not await changes nothing.
    pub fn advance(self, event: Event) -> (run: Pipeline)
        ensures
            run@ == next(self@, event@),
    {
        let cleaned = match &event {
            Event::Completed(Ok(completion)) => clean_completion(completion.as_str()),
            _ => String::new(),
        };
        self.advance_given(event, cleaned.as_str())
    }
}

} // verus!
