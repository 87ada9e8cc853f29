use text_to_cypher_node::client::{ClientOptions, TextToCypher};
use text_to_cypher_node::conversation::{ConversationMessage, Message, Role};
use text_to_cypher_node::error::ErrorKind;
use text_to_cypher_node::executor::RowSet;
use text_to_cypher_node::generator::{INSTRUCTION_HEAD, INSTRUCTION_TAIL};
use text_to_cypher_node::pipeline::{Action, Event, Mode, Pipeline, Stage};
use text_to_cypher_node::provider::ProviderKind;
use text_to_cypher_node::response::{PipelineResponse, Status, TextToCypherResponse};
use text_to_cypher_node::schema::{LabelInfo, PropertyInfo, RelationshipInfo, SchemaDescriptor};
use text_to_cypher_node::synthesizer::SYNTHESIS_INSTRUCTION;

const QUESTION: &str = "Find all actors in movies released after 2020";
const COMPLETION: &str = "```cypher\nMATCH (a:Actor)-[:ACTED_IN]->(m:Movie)\nWHERE m.released > 2020\nRETURN a.name\n```";
const STATEMENT: &str =
    "MATCH (a:Actor)-[:ACTED_IN]->(m:Movie) WHERE m.released > 2020 RETURN a.name";
const SCHEMA_JSON: &str = "{\"labels\":[{\"name\":\"Actor\",\"properties\":[{\"key\":\"name\",\"type\":\"String\"}]},{\"name\":\"Movie\",\"properties\":[{\"key\":\"released\",\"type\":\"Integer\"}]}],\"relationshipTypes\":[{\"name\":\"ACTED_IN\",\"properties\":[]}]}";
const ANSWER: &str = "Ana and Ben acted in movies released after 2020.";

fn client() -> TextToCypher {
    TextToCypher::new(ClientOptions {
        model: "gpt-4o-mini".to_string(),
        api_key: "key".to_string(),
        falkordb_connection: "falkor://localhost:6379".to_string(),
    })
}

fn movies() -> SchemaDescriptor {
    let mut schema = SchemaDescriptor::new();
    schema.add_label(LabelInfo {
        name: "Actor".to_string(),
        properties: vec![PropertyInfo {
            key: "name".to_string(),
            type_hint: "String".to_string(),
        }],
    });
    schema.add_label(LabelInfo {
        name: "Movie".to_string(),
        properties: vec![PropertyInfo {
            key: "released".to_string(),
            type_hint: "Integer".to_string(),
        }],
    });
    schema.add_relationship_type(RelationshipInfo {
        name: "ACTED_IN".to_string(),
        properties: vec![],
    });
    schema
}

fn rows() -> RowSet {
    RowSet {
        columns: vec!["a.name".to_string()],
        rows: vec![vec!["Ana".to_string()], vec!["Ben".to_string()]],
    }
}

fn message(role: &str, content: &str) -> Message {
    Message { role: role.to_string(), content: content.to_string() }
}

fn failure_of(run: &Pipeline) -> (ErrorKind, String) {
    let response = run.response().as_ref().unwrap();
    assert_eq!(response.status(), Status::Error);
    assert!(response.is_error());
    assert!(!response.is_success());
    assert_eq!(response.schema(), &None);
    assert_eq!(response.cypher_query(), &None);
    assert_eq!(response.cypher_result(), &None);
    assert_eq!(response.answer(), &None);
    let error = response.error().as_ref().unwrap();
    (error.kind, error.message.clone())
}

fn no_call_is_due(run: &Pipeline) {
    assert!(run.is_done());
    assert!(matches!(run.action(), Action::Finish { .. }));
}

#[test]
fn full_pipeline_answers_the_question() {
    let run = client().text_to_cypher("movies".to_string(), QUESTION.to_string());
    assert_eq!(run.mode(), Mode::FullPipeline);
    assert_eq!(run.stage(), Stage::SchemaDiscovery);
    assert!(!run.is_done());
    assert_eq!(run.action(), Action::FetchSchema { graph_name: "movies".to_string() });

    let run = run.advance(Event::SchemaFetched(Ok(movies())));
    assert_eq!(run.stage(), Stage::QueryGeneration);
    assert_eq!(run.schema(), &Some(movies()));
    assert_eq!(
        run.action(),
        Action::Complete {
            provider: ProviderKind::OpenAi,
            model: "gpt-4o-mini".to_string(),
            messages: vec![
                ConversationMessage {
                    role: Role::System,
                    content: format!("{}{}{}", INSTRUCTION_HEAD, SCHEMA_JSON, INSTRUCTION_TAIL),
                },
                ConversationMessage { role: Role::User, content: QUESTION.to_string() },
            ],
        }
    );

    let run = run.advance(Event::Completed(Ok(COMPLETION.to_string())));
    assert_eq!(run.stage(), Stage::QueryExecution);
    let generated = run.generated().as_ref().unwrap();
    assert_eq!(generated.statement, STATEMENT);
    assert_eq!(generated.raw_completion, COMPLETION);
    assert!(generated.statement.contains("Movie"));
    assert!(generated.statement.contains("m.released > 2020"));
    assert_eq!(
        run.action(),
        Action::ExecuteQuery {
            graph_name: "movies".to_string(),
            statement: STATEMENT.to_string(),
        }
    );

    let run = run.advance(Event::Executed(Ok(rows())));
    assert_eq!(run.stage(), Stage::AnswerSynthesis);
    assert_eq!(run.result().as_ref().unwrap().records.len(), 2);
    assert_eq!(
        run.action(),
        Action::Complete {
            provider: ProviderKind::OpenAi,
            model: "gpt-4o-mini".to_string(),
            messages: vec![
                ConversationMessage {
                    role: Role::System,
                    content: SYNTHESIS_INSTRUCTION.to_string(),
                },
                ConversationMessage {
                    role: Role::User,
                    content: format!(
                        "Question: {}\nCypher query: {}\nQuery result:\n{}",
                        QUESTION, STATEMENT, "{\"a.name\":\"Ana\"}\n{\"a.name\":\"Ben\"}"
                    ),
                },
            ],
        }
    );

    let run = run.advance(Event::Completed(Ok(ANSWER.to_string())));
    assert_eq!(run.stage(), Stage::Done);
    assert!(run.is_done());
    let expected = PipelineResponse::answered(
        SCHEMA_JSON.to_string(),
        STATEMENT.to_string(),
        "{\"a.name\":\"Ana\"}\n{\"a.name\":\"Ben\"}".to_string(),
        ANSWER.to_string(),
    );
    assert_eq!(run.response(), &Some(expected.clone()));
    assert_eq!(run.action(), Action::Finish { response: expected.clone() });
    let response = run.into_response().unwrap();
    assert_eq!(response.status(), Status::Success);
    assert!(response.is_success());
    assert_eq!(response.error(), &None);
    assert!(!response.cypher_result().as_ref().unwrap().is_empty());
    assert!(!response.answer().as_ref().unwrap().is_empty());
}

#[test]
fn generation_only_stops_behind_the_query() {
    let run = client().cypher_only("movies".to_string(), QUESTION.to_string());
    assert_eq!(run.mode(), Mode::GenerationOnly);
    let run = run.advance(Event::SchemaFetched(Ok(movies())));
    let run = run.advance(Event::Completed(Ok(COMPLETION.to_string())));
    assert!(run.is_done());
    assert_eq!(
        run.response(),
        &Some(PipelineResponse::generated(SCHEMA_JSON.to_string(), STATEMENT.to_string()))
    );
    let response = run.into_response().unwrap();
    assert_eq!(response.status(), Status::Success);
    assert_eq!(response.schema(), &Some(SCHEMA_JSON.to_string()));
    assert_eq!(response.cypher_query(), &Some(STATEMENT.to_string()));
    assert_eq!(response.cypher_result(), &None);
    assert_eq!(response.answer(), &None);
    assert_eq!(response.error(), &None);
}

#[test]
fn schema_only_returns_the_schema() {
    let run = client().discover_schema("movies".to_string());
    assert_eq!(run.mode(), Mode::SchemaOnly);
    assert_eq!(run.action(), Action::FetchSchema { graph_name: "movies".to_string() });
    let run = run.advance(Event::SchemaFetched(Ok(movies())));
    assert!(run.is_done());
    assert_eq!(run.schema(), &Some(movies()));
    assert_eq!(run.response(), &Some(PipelineResponse::described(SCHEMA_JSON.to_string())));
    let response = run.into_response().unwrap();
    assert_eq!(response.cypher_query(), &None);
    assert_eq!(response.cypher_result(), &None);
    assert_eq!(response.answer(), &None);
}

#[test]
fn empty_graph_is_described_not_refused() {
    for graph_name in ["movies", "", "a graph with spaces", "🎬"] {
        let run = client().discover_schema(graph_name.to_string());
        let run = run.advance(Event::SchemaFetched(Ok(SchemaDescriptor::new())));
        assert!(run.is_done());
        let schema = run.schema().as_ref().unwrap();
        assert!(schema.is_empty());
        assert!(schema.labels().is_empty());
        assert!(schema.relationship_types().is_empty());
        let response = run.response().as_ref().unwrap();
        assert_eq!(response.status(), Status::Success);
        assert_eq!(response.error(), &None);
        assert_eq!(
            response.schema(),
            &Some("{\"labels\":[],\"relationshipTypes\":[]}".to_string())
        );
    }
}

#[test]
fn schema_discovery_twice_gives_equal_descriptors() {
    let first = client().discover_schema("movies".to_string()).advance(Event::SchemaFetched(Ok(movies())));
    let second = client().discover_schema("movies".to_string()).advance(Event::SchemaFetched(Ok(movies())));
    assert_eq!(first.schema(), second.schema());
    assert_eq!(first.response(), second.response());
    assert_eq!(first, second);
}

#[test]
fn invalid_role_ends_the_run_before_any_call() {
    let messages = vec![message("user", "Show me actors"), message("Narrator", "Once upon a time")];
    for run in [
        client().text_to_cypher_with_messages("movies".to_string(), messages.clone()),
        client().cypher_only_with_messages("movies".to_string(), messages.clone()),
    ] {
        no_call_is_due(&run);
        assert_eq!(
            failure_of(&run),
            (
                ErrorKind::InvalidRole,
                "Invalid role: 'Narrator' is not one of: user, assistant, system".to_string()
            )
        );
        let before = run.response().clone();
        let run = run.advance(Event::SchemaFetched(Ok(movies())));
        let run = run.advance(Event::Completed(Ok(COMPLETION.to_string())));
        let run = run.advance(Event::Executed(Ok(rows())));
        no_call_is_due(&run);
        assert_eq!(run.response(), &before);
        assert_eq!(run.schema(), &None);
        assert_eq!(run.generated(), &None);
    }
}

#[test]
fn roles_are_accepted_in_any_case() {
    let messages = vec![
        message("SYSTEM", "Be brief."),
        message("User", "Show me actors"),
        message("Assistant", "Here are the actors..."),
        message("user", "Filter those who acted after 2020"),
    ];
    let run = client().text_to_cypher_with_messages("movies".to_string(), messages);
    assert_eq!(run.stage(), Stage::SchemaDiscovery);
    let run = run.advance(Event::SchemaFetched(Ok(movies())));
    match run.action() {
        Action::Complete { messages, .. } => {
            assert_eq!(messages.len(), 5);
            assert_eq!(messages[1].role, Role::System);
            assert_eq!(messages[2].role, Role::User);
            assert_eq!(messages[3].role, Role::Assistant);
            assert_eq!(messages[4].content, "Filter those who acted after 2020");
        }
        other => panic!("a completion is due, not {:?}", other),
    }
}

#[test]
fn empty_conversation_fails_generation_before_any_call() {
    let run = client().text_to_cypher_with_messages("movies".to_string(), Vec::new());
    no_call_is_due(&run);
    assert_eq!(
        failure_of(&run),
        (
            ErrorKind::GenerationFailed,
            "Cypher generation failed: the conversation holds no message".to_string()
        )
    );
}

#[test]
fn unknown_provider_is_found_at_first_use() {
    let client = TextToCypher::new(ClientOptions {
        model: "mistral:large".to_string(),
        api_key: String::new(),
        falkordb_connection: String::new(),
    });
    assert_eq!(client.options().model, "mistral:large");
    let run = client.text_to_cypher("movies".to_string(), QUESTION.to_string());
    no_call_is_due(&run);
    assert_eq!(
        failure_of(&run),
        (
            ErrorKind::UnknownProvider,
            "Unknown provider: 'mistral' is not one of: openai, anthropic, gemini, groq, deepseek, xai, cohere, ollama".to_string()
        )
    );
    let run = client.discover_schema("movies".to_string());
    assert_eq!(run.stage(), Stage::SchemaDiscovery);
}

#[test]
fn invalid_role_is_reported_before_an_unknown_provider() {
    let client = TextToCypher::new(ClientOptions {
        model: "mistral:large".to_string(),
        api_key: String::new(),
        falkordb_connection: String::new(),
    });
    let run = client.cypher_only_with_messages("g".to_string(), vec![message("bot", "hi")]);
    assert_eq!(failure_of(&run).0, ErrorKind::InvalidRole);
}

#[test]
fn schema_failure_ends_the_run() {
    let run = client().text_to_cypher("movies".to_string(), QUESTION.to_string());
    let run = run.advance(Event::SchemaFetched(Err("connection refused".to_string())));
    no_call_is_due(&run);
    assert_eq!(
        failure_of(&run),
        (
            ErrorKind::SchemaDiscoveryFailed,
            "Schema discovery failed: connection refused".to_string()
        )
    );
    assert_eq!(run.schema(), &None);
}

#[test]
fn generation_failure_ends_the_run() {
    let run = client().cypher_only("movies".to_string(), QUESTION.to_string());
    let run = run.advance(Event::SchemaFetched(Ok(movies())));
    let run = run.advance(Event::Completed(Err("rate limit".to_string())));
    no_call_is_due(&run);
    assert_eq!(
        failure_of(&run),
        (ErrorKind::GenerationFailed, "Cypher generation failed: rate limit".to_string())
    );
    assert_eq!(run.generated(), &None);
}

#[test]
fn extraction_failure_ends_the_run() {
    let run = client().text_to_cypher("movies".to_string(), QUESTION.to_string());
    let run = run.advance(Event::SchemaFetched(Ok(movies())));
    let run = run.advance(Event::Completed(Ok("I am sorry, I cannot help.".to_string())));
    no_call_is_due(&run);
    assert_eq!(
        failure_of(&run),
        (
            ErrorKind::ExtractionFailed,
            "Cypher extraction failed: the completion holds no Cypher statement".to_string()
        )
    );
    assert_eq!(run.generated(), &None);
}

#[test]
fn execution_failure_ends_the_run_and_keeps_the_query_for_diagnosis() {
    let run = client().text_to_cypher("movies".to_string(), QUESTION.to_string());
    let run = run.advance(Event::SchemaFetched(Ok(movies())));
    let run = run.advance(Event::Completed(Ok(COMPLETION.to_string())));
    let run = run.advance(Event::Executed(Err("syntax error near WHERE".to_string())));
    no_call_is_due(&run);
    assert_eq!(
        failure_of(&run),
        (
            ErrorKind::ExecutionFailed,
            "Query execution failed: syntax error near WHERE".to_string()
        )
    );
    assert_eq!(run.generated().as_ref().unwrap().statement, STATEMENT);
    assert_eq!(run.result(), &None);
}

#[test]
fn misfit_rows_fail_execution() {
    let run = client().text_to_cypher("movies".to_string(), QUESTION.to_string());
    let run = run.advance(Event::SchemaFetched(Ok(movies())));
    let run = run.advance(Event::Completed(Ok(COMPLETION.to_string())));
    let run = run.advance(Event::Executed(Ok(RowSet {
        columns: vec!["a".to_string()],
        rows: vec![vec![]],
    })));
    assert_eq!(failure_of(&run).0, ErrorKind::ExecutionFailed);
}

#[test]
fn synthesis_failure_ends_the_run() {
    let run = client().text_to_cypher("movies".to_string(), QUESTION.to_string());
    let run = run.advance(Event::SchemaFetched(Ok(movies())));
    let run = run.advance(Event::Completed(Ok(COMPLETION.to_string())));
    let run = run.advance(Event::Executed(Ok(rows())));
    let run = run.advance(Event::Completed(Err("timeout".to_string())));
    no_call_is_due(&run);
    assert_eq!(
        failure_of(&run),
        (ErrorKind::SynthesisFailed, "Answer synthesis failed: timeout".to_string())
    );
}

#[test]
fn an_event_that_is_not_awaited_changes_nothing() {
    let run = client().text_to_cypher("movies".to_string(), QUESTION.to_string());
    let run = run.advance(Event::Completed(Ok(COMPLETION.to_string())));
    assert_eq!(run.stage(), Stage::SchemaDiscovery);
    let run = run.advance(Event::Executed(Ok(rows())));
    assert_eq!(run.stage(), Stage::SchemaDiscovery);
    let run = run.advance(Event::SchemaFetched(Ok(movies())));
    let run = run.advance(Event::SchemaFetched(Ok(SchemaDescriptor::new())));
    assert_eq!(run.stage(), Stage::QueryGeneration);
    assert_eq!(run.schema(), &Some(movies()));
    let run = run.advance(Event::Executed(Err("too early".to_string())));
    assert_eq!(run.stage(), Stage::QueryGeneration);
}

#[test]
fn empty_result_is_answered_from_the_marker() {
    let run = client().text_to_cypher("movies".to_string(), QUESTION.to_string());
    let run = run.advance(Event::SchemaFetched(Ok(movies())));
    let run = run.advance(Event::Completed(Ok(COMPLETION.to_string())));
    let run = run.advance(Event::Executed(Ok(RowSet { columns: vec![], rows: vec![] })));
    assert_eq!(run.stage(), Stage::AnswerSynthesis);
    match run.action() {
        Action::Complete { messages, .. } => {
            assert!(messages[1].content.ends_with("Query result:\nNo results."));
        }
        other => panic!("a completion is due, not {:?}", other),
    }
    let run = run.advance(Event::Completed(Ok("Nobody did.".to_string())));
    let response = run.into_response().unwrap();
    assert_eq!(response.cypher_result(), &Some("No results.".to_string()));
    assert_eq!(response.answer(), &Some("Nobody did.".to_string()));
}

#[test]
fn the_cleaned_completion_decides_the_step() {
    let run = client().cypher_only("movies".to_string(), QUESTION.to_string());
    let run = run.advance(Event::SchemaFetched(Ok(movies())));
    let run = run.advance_given(Event::Completed(Ok("raw".to_string())), "RETURN 1; RETURN 2");
    let generated = run.generated().as_ref().unwrap();
    assert_eq!(generated.statement, "RETURN 1");
    assert_eq!(generated.raw_completion, "raw");
}

#[test]
fn runs_can_be_begun_directly() {
    let run = Pipeline::discover("g".to_string());
    assert_eq!(run.stage(), Stage::SchemaDiscovery);
    let run = Pipeline::generate(false, "g".to_string(), "openai:gpt-4o", Ok(vec![
        ConversationMessage { role: Role::User, content: "q".to_string() },
    ]));
    assert_eq!(run.mode(), Mode::GenerationOnly);
    assert_eq!(run.stage(), Stage::SchemaDiscovery);
}

#[test]
fn responses_travel_as_words_and_messages() {
    let run = client().text_to_cypher("movies".to_string(), QUESTION.to_string());
    let run = run.advance(Event::SchemaFetched(Err("no such graph".to_string())));
    assert_eq!(
        TextToCypherResponse::from(run.into_response().unwrap()),
        TextToCypherResponse {
            status: "error".to_string(),
            schema: None,
            cypher_query: None,
            cypher_result: None,
            answer: None,
            error: Some("Schema discovery failed: no such graph".to_string()),
        }
    );
    let response = PipelineResponse::answered(
        "s".to_string(),
        "q".to_string(),
        "r".to_string(),
        "a".to_string(),
    );
    assert_eq!(response.clone(), response);
    assert_eq!(
        TextToCypherResponse::from(response),
        TextToCypherResponse {
            status: "success".to_string(),
            schema: Some("s".to_string()),
            cypher_query: Some("q".to_string()),
            cypher_result: Some("r".to_string()),
            answer: Some("a".to_string()),
            error: None,
        }
    );
    assert_eq!(Status::Success.as_str(), "success");
    assert_eq!(Status::Error.as_str(), "error");
}

#[test]
fn models_are_listed_through_the_client() {
    let ids = client().list_models(Some("OpenAI")).unwrap();
    assert!(ids.contains(&"openai:gpt-4o-mini".to_string()));
    let error = client().list_models(Some("nobody")).unwrap_err();
    assert_eq!(error.kind, ErrorKind::UnknownProvider);
    assert!(client().list_models(None).unwrap().len() >= ids.len());
}
