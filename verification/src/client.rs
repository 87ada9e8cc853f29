//! The client: the configuration an application sets once, and the four
//! operations it invokes.
//!
//! The configuration is taken as it is given and looked at only when an
//! operation first needs it, so making a client never fails. An operation
//! does not perform its outside calls: it hands back the run that says which
//! call is due.

use vstd::prelude::*;
use vstd::string::*;
use crate::conversation::{
    conversation_from_messages, conversation_from_question, conversion, message_views,
    single_question, Message, TurnView,
};
use crate::error::{PipelineError, PipelineErrorView};
use crate::pipeline::{discovery, generation, Pipeline};
use crate::provider::{list_models, listing};
use crate::text::string_views;

verus! {

/// What a client is made with.
#[derive(Clone, Debug, PartialEq, Eq)]
pub struct ClientOptions {
    /// The model to use, with or without its provider: "gpt-4o-mini",
    /// "openai:gpt-4o".
    pub model: String,
    /// The key for the model's provider.
    pub api_key: String,
    /// Where the graph store is reached: "falkor://localhost:6379".
    pub falkordb_connection: String,
}

/// `ClientOptions` as a mathematical value.
pub struct ClientOptionsView {
    pub model: Seq<char>,
    pub api_key: Seq<char>,
    pub falkordb_connection: Seq<char>,
}

impl View for ClientOptions {
    type V = ClientOptionsView;

    open spec fn view(&self) -> ClientOptionsView {
        ClientOptionsView {
            model: self.model@,
            api_key: self.api_key@,
            falkordb_connection: self.falkordb_connection@,
        }
    }
}

/// The client of the pipeline.
#[derive(Clone, Debug, PartialEq, Eq)]
pub struct TextToCypher {
    options: ClientOptions,
}

impl View for TextToCypher {
    type V = ClientOptionsView;

    closed spec fn view(&self) -> ClientOptionsView {
        self.options@
    }
}

/// What a single question is converted to: always a conversation.
pub open spec fn question_conversion(question: Seq<char>) -> Result<Seq<TurnView>, PipelineErrorView> {
    Ok(single_question(question))
}

impl TextToCypher {
    /// Makes a client. Nothing is checked here: neither the model nor the
    /// key nor the connection.
    pub fn new(options: ClientOptions) -> (client: TextToCypher)
        ensures
            client@ == options@,
    {
        TextToCypher { options }
    }

    /// What the client was made with.
    pub fn options(&self) -> (options: &ClientOptions)
        ensures
            options@ == self@,
    {
        &self.options
    }

    /// Begins the full pipeline for one question of the user.
    pub fn text_to_cypher(&self, graph_name: String, question: String) -> (run: Pipeline)
        ensures
            run@ == generation(true, graph_name@, self@.model, question_conversion(question@)),
    {
        let conversation = conversation_from_question(question);
        Pipeline::generate(true, graph_name, self.options.model.as_str(), Ok(conversation))
    }

    /// Begins the full pipeline for a conversation.
    ///
    /// A message whose role is none of user, assistant and system, in any
    /// case, ends the run at once with `InvalidRole`.
    pub fn text_to_cypher_with_messages(&self, graph_name: String, messages: Vec<Message>) -> (run:
        Pipeline)
        ensures
            run@ == generation(
                true,
                graph_name@,
                self@.model,
                conversion(message_views(messages@)),
            ),
    {
        let conversation = conversation_from_messages(&messages);
        Pipeline::generate(true, graph_name, self.options.model.as_str(), conversation)
    }

    /// Begins the generation of a query, which is not run, for one question
    /// of the user.
    pub fn cypher_only(&self, graph_name: String, question: String) -> (run: Pipeline)
        ensures
            run@ == generation(false, graph_name@, self@.model, question_conversion(question@)),
    {
        let conversation = conversation_from_question(question);
        Pipeline::generate(false, graph_name, self.options.model.as_str(), Ok(conversation))
    }

    /// Begins the generation of a query, which is not run, for a
    /// conversation.
    ///
    /// A message whose role is none of user, assistant and system, in any
    /// case, ends the run at once with `InvalidRole`.
    pub fn cypher_only_with_messages(&self, graph_name: String, messages: Vec<Message>) -> (run:
        Pipeline)
        ensures
            run@ == generation(
                false,
                graph_name@,
                self@.model,
                conversion(message_views(messages@)),
            ),
    {
        let conversation = conversation_from_messages(&messages);
        Pipeline::generate(false, graph_name, self.options.model.as_str(), conversation)
    }

    /// Begins the discovery of the schema of a graph.
    pub fn discover_schema(&self, graph_name: String) -> (run: Pipeline)
        ensures
            run@ == discovery(graph_name@),
    {
        Pipeline::discover(graph_name)
    }

    /// Lists the identifiers of the known models of the provider named by
    /// `provider`, or of every provider where none is named. No run is
    /// begun and no call is due.
    pub fn list_models(&self, provider: Option<&str>) -> (r: Result<Vec<String>, PipelineError>)
        ensures
            match r {
                Ok(ids) => listing(
                    match provider {
                        Some(text) => Some(text@),
                        None => None,
                    },
                ) == Ok::<Seq<Seq<char>>, PipelineErrorView>(string_views(ids@)),
                Err(e) => listing(
                    match provider {
                        Some(text) => Some(text@),
                        None => None,
                    },
                ) == Err::<Seq<Seq<char>>, PipelineErrorView>(e@),
            },
    {
        list_models(provider)
    }
}

} // verus!
