use text_to_cypher_node::conversation::{ConversationMessage, Role};
use text_to_cypher_node::executor::{ExecutionResult, RowSet};
use text_to_cypher_node::synthesizer::{
    build_synthesis_messages, question_of, truncate, RESULT_BUDGET, SYNTHESIS_INSTRUCTION,
    TRUNCATION_MARK,
};

fn turn(role: Role, content: &str) -> ConversationMessage {
    ConversationMessage { role, content: content.to_string() }
}

#[test]
fn text_within_the_budget_is_kept() {
    assert_eq!(truncate("abc", 3), "abc");
    assert_eq!(truncate("abc", 10), "abc");
    assert_eq!(truncate("", 0), "");
}

#[test]
fn text_over_the_budget_is_cut_and_marked() {
    assert_eq!(truncate("abcdef", 3), "abc\n... (truncated)");
    assert_eq!(truncate("abc", 0), "\n... (truncated)");
    assert_eq!(truncate("äöüß", 2), format!("äö{}", TRUNCATION_MARK));
}

#[test]
fn budget_counts_characters() {
    let long: String = std::iter::repeat('é').take(RESULT_BUDGET + 1).collect();
    let cut = truncate(&long, RESULT_BUDGET);
    assert_eq!(cut.chars().count(), RESULT_BUDGET + TRUNCATION_MARK.chars().count());
    let fits: String = std::iter::repeat('é').take(RESULT_BUDGET).collect();
    assert_eq!(truncate(&fits, RESULT_BUDGET), fits);
    assert_eq!(RESULT_BUDGET, 4000);
}

#[test]
fn the_question_is_the_last_user_turn() {
    let conversation = vec![
        turn(Role::User, "first"),
        turn(Role::Assistant, "reply"),
        turn(Role::User, "second"),
        turn(Role::Assistant, "another reply"),
    ];
    assert_eq!(question_of(&conversation), "second");
    assert_eq!(question_of(&vec![turn(Role::System, "only a system turn")]), "");
    assert_eq!(question_of(&Vec::new()), "");
}

#[test]
fn synthesis_messages_embed_question_query_and_result() {
    let conversation = vec![turn(Role::User, "Who acted after 2020?")];
    let rows = RowSet {
        columns: vec!["a.name".to_string()],
        rows: vec![vec!["Ana".to_string()]],
    };
    let result = ExecutionResult::from_rows(&rows).unwrap();
    let messages = build_synthesis_messages(&conversation, "MATCH (a) RETURN a.name", &result);
    assert_eq!(
        messages,
        vec![
            turn(Role::System, SYNTHESIS_INSTRUCTION),
            turn(
                Role::User,
                "Question: Who acted after 2020?\nCypher query: MATCH (a) RETURN a.name\nQuery result:\n{\"a.name\":\"Ana\"}"
            ),
        ]
    );
}

#[test]
fn a_large_result_is_sent_cut() {
    let conversation = vec![turn(Role::User, "q")];
    let value: String = std::iter::repeat('x').take(5000).collect();
    let rows = RowSet { columns: vec!["c".to_string()], rows: vec![vec![value]] };
    let result = ExecutionResult::from_rows(&rows).unwrap();
    let messages = build_synthesis_messages(&conversation, "RETURN 1", &result);
    let head = "Question: q\nCypher query: RETURN 1\nQuery result:\n";
    assert!(messages[1].content.starts_with(head));
    assert!(messages[1].content.ends_with(TRUNCATION_MARK));
    assert_eq!(
        messages[1].content.chars().count(),
        head.chars().count() + RESULT_BUDGET + TRUNCATION_MARK.chars().count()
    );
}
