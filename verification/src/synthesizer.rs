//! Answer synthesis: the messages that ask a model to answer the original
//! question from the result of the query.
//!
//! A large result is not sent whole. Its text form is cut at a budget of
//! characters, and a mark says that it was cut.

use vstd::prelude::*;
use vstd::string::*;
use crate::conversation::{turn_views, ConversationMessage, Role, TurnView};
use crate::executor::{result_text, ExecutionResult, FieldView};
use crate::text::{chars_of, string_of};

verus! {

/// How many characters of a result's text form are sent to the model.
pub const RESULT_BUDGET: usize = 4000;

/// What stands behind a result that was cut at the budget.
pub const TRUNCATION_MARK: &'static str = "\n... (truncated)";

/// The system instruction of the synthesis call.
pub const SYNTHESIS_INSTRUCTION: &'static str =
    "You answer a question about a graph from the result of a Cypher query that was run for it.\nAnswer in plain prose, from the result alone, and show no query.";

/// `text` within `budget` characters: itself if it fits, else its first
/// `budget` characters and the truncation mark.
pub open spec fn truncated(text: Seq<char>, budget: int) -> Seq<char> {
    if text.len() <= budget {
        text
    } else {
        text.take(budget) + TRUNCATION_MARK@
    }
}

/// The question that a conversation asks: the content of its last user turn,
/// or nothing where no user has spoken.
pub open spec fn original_question(conversation: Seq<TurnView>) -> Seq<char>
    decreases conversation.len(),
{
    if conversation.len() == 0 {
        Seq::empty()
    } else if conversation.last().role == Role::User {
        conversation.last().content
    } else {
        original_question(conversation.drop_last())
    }
}

/// The user message of the synthesis call: the question, the query that was
/// run, and the result within the budget.
pub open spec fn synthesis_prompt(
    question: Seq<char>,
    statement: Seq<char>,
    result: Seq<char>,
) -> Seq<char> {
    "Question: "@ + question + "\nCypher query: "@ + statement + "\nQuery result:\n"@ + truncated(
        result,
        RESULT_BUDGET as int,
    )
}

/// The messages sent to the model to have the answer written.
pub open spec fn synthesis_messages(
    conversation: Seq<TurnView>,
    statement: Seq<char>,
    result: Seq<Seq<FieldView>>,
) -> Seq<TurnView> {
    seq![
        TurnView { role: Role::System, content: SYNTHESIS_INSTRUCTION@ },
        TurnView {
            role: Role::User,
            content: synthesis_prompt(
                original_question(conversation),
                statement,
                result_text(result),
            ),
        },
    ]
}

/// `text` within `budget` characters.
pub fn truncate(text: &str, budget: usize) -> (s: String)
    ensures
        s@ == truncated(text@, budget as int),
{
    let chars = chars_of(text);
    if chars.len() <= budget {
        String::from_str(text)
    } else {
        let mut s = string_of(&chars, 0, budget);
        s.append(TRUNCATION_MARK);
        s
    }
}

/// The question that `conversation` asks.
pub fn question_of(conversation: &Vec<ConversationMessage>) -> (question: String)
    ensures
        question@ == original_question(turn_views(conversation@)),
{
    let ghost turns = turn_views(conversation@);
    let mut i: usize = conversation.len();
    assert(turns.take(i as int) =~= turns);
    while i > 0
        invariant
            i <= conversation.len(),
            turns == turn_views(conversation@),
            original_question(turns) == original_question(turns.take(i as int)),
        decreases i,
    {
        let turn = &conversation[i - 1];
        if turn.role == Role::User {
            return turn.content.clone();
        }
        assert(turns.take(i as int).drop_last() =~= turns.take(i - 1));
        i = i - 1;
    }
    String::new()
}

/// Assembles the messages that ask the model for the answer.
pub fn build_synthesis_messages(
    conversation: &Vec<ConversationMessage>,
    statement: &str,
    result: &ExecutionResult,
) -> (messages: Vec<ConversationMessage>)
    ensures
        turn_views(messages@) == synthesis_messages(turn_views(conversation@), statement@, result@),
{
    let question = question_of(conversation);
    let text = result.to_text();
    let shown = truncate(text.as_str(), RESULT_BUDGET);
    let mut prompt = String::from_str("Question: ");
    prompt.append(question.as_str());
    prompt.append("\nCypher query: ");
    prompt.append(statement);
    prompt.append("\nQuery result:\n");
    prompt.append(shown.as_str());
    let mut messages: Vec<ConversationMessage> = Vec::new();
    messages.push(
        ConversationMessage { role: Role::System, content: String::from_str(SYNTHESIS_INSTRUCTION) },
    );
    messages.push(ConversationMessage { role: Role::User, content: prompt });
    assert(turn_views(messages@) =~= synthesis_messages(
        turn_views(conversation@),
        statement@,
        result@,
    ));
    messages
}

} // verus!
