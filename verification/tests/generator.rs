use text_to_cypher_node::conversation::{ConversationMessage, Role};
use text_to_cypher_node::error::ErrorKind;
use text_to_cypher_node::generator::{
    build_generation_messages, extract_statement, find_statement_end,
    statement_from_cleaned, INSTRUCTION_HEAD, INSTRUCTION_TAIL,
};
use text_to_cypher_node::schema::{LabelInfo, SchemaDescriptor};

fn turn(role: Role, content: &str) -> ConversationMessage {
    ConversationMessage { role, content: content.to_string() }
}

#[test]
fn generation_messages_open_with_the_instruction() {
    let mut schema = SchemaDescriptor::new();
    schema.add_label(LabelInfo { name: "Actor".to_string(), properties: vec![] });
    let conversation = vec![
        turn(Role::User, "Show me actors"),
        turn(Role::Assistant, "MATCH (a:Actor) RETURN a"),
        turn(Role::User, "Only the first ten"),
    ];
    let messages = build_generation_messages(&schema, &conversation);
    assert_eq!(messages.len(), 4);
    assert_eq!(messages[0].role, Role::System);
    assert_eq!(
        messages[0].content,
        format!("{}{}{}", INSTRUCTION_HEAD, schema.to_json(), INSTRUCTION_TAIL)
    );
    assert!(messages[0].content.contains("{\"name\":\"Actor\",\"properties\":[]}"));
    assert_eq!(&messages[1..], &conversation[..]);
}

#[test]
fn statement_is_taken_from_a_code_fence() {
    let completion = "Here is the query:\n```cypher\nMATCH (a:Actor)-[:ACTED_IN]->(m:Movie)\nWHERE m.released > 2020\nRETURN a.name\n```\nIt lists the actors.";
    let query = extract_statement(completion).unwrap();
    assert_eq!(
        query.statement,
        "MATCH (a:Actor)-[:ACTED_IN]->(m:Movie) WHERE m.released > 2020 RETURN a.name"
    );
    assert_eq!(query.raw_completion, completion);
}

#[test]
fn statement_is_taken_from_plain_text() {
    let query = extract_statement("MATCH (n) RETURN n").unwrap();
    assert_eq!(query.statement, "MATCH (n) RETURN n");
}

#[test]
fn leading_prose_is_tolerated() {
    let query = extract_statement("Sure! The query is match (n:Movie) return n.title").unwrap();
    assert_eq!(query.statement, "match (n:Movie) return n.title");
}

#[test]
fn a_completion_without_statement_fails_extraction() {
    for completion in ["", "   ", "I cannot answer that.", "```\n```", "SELECT * FROM movies"] {
        let error = extract_statement(completion).unwrap_err();
        assert_eq!(error.kind, ErrorKind::ExtractionFailed);
        assert_eq!(
            error.message,
            "Cypher extraction failed: the completion holds no Cypher statement"
        );
    }
}

#[test]
fn only_the_first_statement_is_taken() {
    let query = statement_from_cleaned("MATCH (n) RETURN n; MATCH (m) RETURN m", "raw").unwrap();
    assert_eq!(query.statement, "MATCH (n) RETURN n");
    assert_eq!(query.raw_completion, "raw");
    let query = statement_from_cleaned("  RETURN 1 ;", "raw").unwrap();
    assert_eq!(query.statement, "RETURN 1");
}

#[test]
fn a_semicolon_inside_quotes_ends_nothing() {
    let text = "MATCH (n) WHERE n.name = 'a;b' RETURN n; MATCH (m) RETURN m";
    let query = statement_from_cleaned(text, "").unwrap();
    assert_eq!(query.statement, "MATCH (n) WHERE n.name = 'a;b' RETURN n");
    let text = "MATCH (n) WHERE n.name = \"it\\\";s\" RETURN n;x";
    let query = statement_from_cleaned(text, "").unwrap();
    assert_eq!(query.statement, "MATCH (n) WHERE n.name = \"it\\\";s\" RETURN n");
    let text = "MATCH (n:`odd;label\\`) RETURN n; more";
    let query = statement_from_cleaned(text, "").unwrap();
    assert_eq!(query.statement, "MATCH (n:`odd;label\\`) RETURN n");
}

#[test]
fn statement_end_is_the_first_free_semicolon() {
    let chars: Vec<char> = "a;b".chars().collect();
    assert_eq!(find_statement_end(&chars), 1);
    let chars: Vec<char> = "'a;b'".chars().collect();
    assert_eq!(find_statement_end(&chars), 5);
    let chars: Vec<char> = "'a\\';b';c".chars().collect();
    assert_eq!(find_statement_end(&chars), 7);
    let chars: Vec<char> = "'open;".chars().collect();
    assert_eq!(find_statement_end(&chars), 6);
    assert_eq!(find_statement_end(&Vec::new()), 0);
}

#[test]
fn a_statement_opens_with_a_clause_keyword() {
    for text in [
        "MATCH (n) RETURN n",
        "optional match (n) return n",
        "CALL db.labels()",
        "Return 1",
        "WITH 1 AS x RETURN x",
        "UNWIND [1,2] AS x RETURN x",
        "CREATE (n:Movie)",
        "MERGE (n:Movie {title: 'x'})",
        "CYPHER year=2020 MATCH (m) WHERE m.released > $year RETURN m",
        "match",
    ] {
        assert!(statement_from_cleaned(text, "").is_ok());
    }
    for text in ["MATCHING (n)", "matches", "DELETE n", "return_1", "", ";MATCH (n) RETURN n", "(n)"] {
        let error = statement_from_cleaned(text, "").unwrap_err();
        assert_eq!(error.kind, ErrorKind::ExtractionFailed);
    }
}
