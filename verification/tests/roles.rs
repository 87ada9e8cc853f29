use text_to_cypher_node::conversation::{
    conversation_from_messages, conversation_from_question, ConversationMessage, Message, Role,
};
use text_to_cypher_node::error::ErrorKind;

fn message(role: &str, content: &str) -> Message {
    Message { role: role.to_string(), content: content.to_string() }
}

#[test]
fn role_names_are_matched_in_any_case() {
    assert_eq!(Role::parse("user").unwrap(), Role::User);
    assert_eq!(Role::parse("USER").unwrap(), Role::User);
    assert_eq!(Role::parse("Assistant").unwrap(), Role::Assistant);
    assert_eq!(Role::parse("sYsTeM").unwrap(), Role::System);
}

#[test]
fn lowercase_names_are_compared_as_they_stand() {
    assert_eq!(Role::from_lowercase("user"), Some(Role::User));
    assert_eq!(Role::from_lowercase("assistant"), Some(Role::Assistant));
    assert_eq!(Role::from_lowercase("system"), Some(Role::System));
    assert_eq!(Role::from_lowercase("User"), None);
    assert_eq!(Role::from_lowercase(""), None);
}

#[test]
fn role_names_round_trip() {
    for role in [Role::User, Role::Assistant, Role::System] {
        assert_eq!(Role::parse(role.as_str()).unwrap(), role);
    }
}

#[test]
fn unknown_role_is_rejected_and_named() {
    let error = Role::parse("moderator").unwrap_err();
    assert_eq!(error.kind, ErrorKind::InvalidRole);
    assert_eq!(
        error.message,
        "Invalid role: 'moderator' is not one of: user, assistant, system"
    );
    assert_eq!(error.to_string(), error.message);
}

#[test]
fn unknown_role_is_never_taken_for_user() {
    assert!(Role::parse("").is_err());
    assert!(Role::parse(" user").is_err());
    assert!(Role::parse("users").is_err());
    assert!(Role::parse("tool").is_err());
}

#[test]
fn messages_keep_order_and_content() {
    let messages = vec![
        message("system", "Be brief."),
        message("User", "Show me actors"),
        message("ASSISTANT", "Here are the actors..."),
        message("user", "Filter those who acted after 2020"),
    ];
    let turns = conversation_from_messages(&messages).unwrap();
    assert_eq!(
        turns,
        vec![
            ConversationMessage { role: Role::System, content: "Be brief.".to_string() },
            ConversationMessage { role: Role::User, content: "Show me actors".to_string() },
            ConversationMessage {
                role: Role::Assistant,
                content: "Here are the actors...".to_string()
            },
            ConversationMessage {
                role: Role::User,
                content: "Filter those who acted after 2020".to_string()
            },
        ]
    );
}

#[test]
fn first_invalid_role_is_the_one_reported() {
    let messages = vec![
        message("user", "a"),
        message("narrator", "b"),
        message("wizard", "c"),
    ];
    let error = conversation_from_messages(&messages).unwrap_err();
    assert_eq!(error.kind, ErrorKind::InvalidRole);
    assert_eq!(
        error.message,
        "Invalid role: 'narrator' is not one of: user, assistant, system"
    );
}

#[test]
fn no_messages_make_an_empty_conversation() {
    assert_eq!(conversation_from_messages(&Vec::new()).unwrap(), Vec::new());
}

#[test]
fn a_question_is_one_user_turn() {
    assert_eq!(
        conversation_from_question("Find all actors".to_string()),
        vec![ConversationMessage { role: Role::User, content: "Find all actors".to_string() }]
    );
}
