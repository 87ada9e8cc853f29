//! Conversations: ordered, role-tagged messages.
//!
//! A role reaches the library as free text. It is mapped onto the closed set
//! of roles by a total function that rejects what it does not recognise; no
//! unknown role is ever taken for a known one.

use vstd::prelude::*;
use vstd::string::*;
use crate::error::{failure, ErrorKind, PipelineError, PipelineErrorView};
use crate::outside::{lowercase_of, to_lowercase};
use crate::text::same_text;

verus! {

/// Who speaks in a conversation turn.
#[derive(Clone, Copy, Debug, PartialEq, Eq, Structural)]
pub enum Role {
    User,
    Assistant,
    System,
}

/// A chat message as a caller hands it in: the role is still free text.
#[derive(Clone, Debug, PartialEq, Eq)]
pub struct Message {
    /// Role of the sender: "user", "assistant" or "system", in any case.
    pub role: String,
    /// Content of the message.
    pub content: String,
}

/// A `Message` as a mathematical value.
pub struct MessageView {
    pub role: Seq<char>,
    pub content: Seq<char>,
}

impl View for Message {
    type V = MessageView;

    open spec fn view(&self) -> MessageView {
        MessageView { role: self.role@, content: self.content@ }
    }
}

/// One turn of a validated conversation.
#[derive(Clone, Debug, PartialEq, Eq)]
pub struct ConversationMessage {
    pub role: Role,
    pub content: String,
}

/// A `ConversationMessage` as a mathematical value.
pub struct TurnView {
    pub role: Role,
    pub content: Seq<char>,
}

impl View for ConversationMessage {
    type V = TurnView;

    open spec fn view(&self) -> TurnView {
        TurnView { role: self.role, content: self.content@ }
    }
}

/// The messages of `messages` as mathematical values.
pub open spec fn message_views(messages: Seq<Message>) -> Seq<MessageView> {
    Seq::new(messages.len(), |i: int| messages[i]@)
}

/// The turns of `turns` as mathematical values.
pub open spec fn turn_views(turns: Seq<ConversationMessage>) -> Seq<TurnView> {
    Seq::new(turns.len(), |i: int| turns[i]@)
}

/// The role that a lowercase name stands for, if any.
pub open spec fn role_of_lowercase(lower: Seq<char>) -> Option<Role> {
    if lower == "user"@ {
        Some(Role::User)
    } else if lower == "assistant"@ {
        Some(Role::Assistant)
    } else if lower == "system"@ {
        Some(Role::System)
    } else {
        None
    }
}

/// The role that `text` stands for, whatever its case, if any.
pub open spec fn role_of(text: Seq<char>) -> Option<Role> {
    role_of_lowercase(lowercase_of(text))
}

/// What is reported of a role text that stands for no role: the text as it
/// was given, and the roles that exist.
pub open spec fn invalid_role_cause(text: Seq<char>) -> Seq<char> {
    "'"@ + text + "' is not one of: user, assistant, system"@
}

/// The failure reported for the role text `text`.
pub open spec fn invalid_role(text: Seq<char>) -> PipelineErrorView {
    failure(ErrorKind::InvalidRole, invalid_role_cause(text))
}

/// Whether every role text in `messages` stands for a role.
pub open spec fn roles_valid(messages: Seq<MessageView>) -> bool {
    forall|i: int| 0 <= i < messages.len() ==> role_of((#[trigger] messages[i]).role) is Some
}

/// Whether `k` is the place of the first message of `messages` whose role
/// text stands for no role.
pub open spec fn is_first_invalid(messages: Seq<MessageView>, k: int) -> bool {
    &&& 0 <= k < messages.len()
    &&& role_of(messages[k].role) is None
    &&& forall|j: int| 0 <= j < k ==> role_of((#[trigger] messages[j]).role) is Some
}

/// The conversation that `messages` spell out: the same contents in the same
/// order, each under the role that its role text stands for.
pub open spec fn validated(messages: Seq<MessageView>) -> Seq<TurnView> {
    Seq::new(
        messages.len(),
        |i: int| TurnView { role: role_of(messages[i].role).unwrap(), content: messages[i].content },
    )
}

/// The place of the first message of `messages` whose role text stands for no
/// role, where there is one.
pub open spec fn first_invalid(messages: Seq<MessageView>) -> int {
    choose|k: int| is_first_invalid(messages, k)
}

/// What the messages `messages` are converted to: the conversation they
/// spell out if every role text stands for a role, and otherwise the failure
/// that names the first role text that does not.
pub open spec fn conversion(messages: Seq<MessageView>) -> Result<Seq<TurnView>, PipelineErrorView> {
    if roles_valid(messages) {
        Ok(validated(messages))
    } else {
        Err(invalid_role(messages[first_invalid(messages)].role))
    }
}

/// The conversation that consists of the single question `question`, asked by
/// the user.
pub open spec fn single_question(question: Seq<char>) -> Seq<TurnView> {
    seq![TurnView { role: Role::User, content: question }]
}

impl Role {
    /// The lowercase name of the role.
    pub open spec fn name(self) -> Seq<char> {
        match self {
            Role::User => "user"@,
            Role::Assistant => "assistant"@,
            Role::System => "system"@,
        }
    }

    /// The lowercase name of the role.
    pub fn as_str(self) -> (s: &'static str)
        ensures
            s@ == self.name(),
    {
        match self {
            Role::User => "user",
            Role::Assistant => "assistant",
            Role::System => "system",
        }
    }

    /// The role named by `lower`, which is compared as it stands.
    pub fn from_lowercase(lower: &str) -> (r: Option<Role>)
        ensures
            r == role_of_lowercase(lower@),
    {
        if same_text(lower, "user") {
            Some(Role::User)
        } else if same_text(lower, "assistant") {
            Some(Role::Assistant)
        } else if same_text(lower, "system") {
            Some(Role::System)
        } else {
            None
        }
    }

    /// The role named by `text`, compared without regard to case.
    ///
    /// Fails with `InvalidRole`, naming `text`, exactly when the lowercase of
    /// `text` is none of the three role names.
    pub fn parse(text: &str) -> (r: Result<Role, PipelineError>)
        ensures
            match r {
                Ok(role) => role_of(text@) == Some(role),
                Err(e) => role_of(text@) is None && e@ == invalid_role(text@),
            },
    {
        let lower = to_lowercase(text);
        match Role::from_lowercase(lower.as_str()) {
            Some(role) => Ok(role),
            None => {
                let mut cause = String::from_str("'");
                cause.append(text);
                cause.append("' is not one of: user, assistant, system");
                Err(PipelineError::new(ErrorKind::InvalidRole, cause.as_str()))
            },
        }
    }
}

/// Validates the roles of `messages` and keeps order and contents.
///
/// Succeeds exactly when every role text stands for a role. Otherwise the
/// failure is `InvalidRole` and names the first role text that does not.
pub fn conversation_from_messages(messages: &Vec<Message>) -> (r: Result<
    Vec<ConversationMessage>,
    PipelineError,
>)
    ensures
        match r {
            Ok(turns) => conversion(message_views(messages@)) == Ok::<
                Seq<TurnView>,
                PipelineErrorView,
            >(turn_views(turns@)),
            Err(e) => conversion(message_views(messages@)) == Err::<
                Seq<TurnView>,
                PipelineErrorView,
            >(e@),
        },
{
    let ghost views = message_views(messages@);
    let mut turns: Vec<ConversationMessage> = Vec::new();
    let mut i: usize = 0;
    while i < messages.len()
        invariant
            i <= messages.len(),
            views == message_views(messages@),
            turns.len() == i,
            forall|j: int| 0 <= j < i ==> role_of((#[trigger] views[j]).role) is Some,
            forall|j: int| 0 <= j < i ==> (#[trigger] turns[j])@ == validated(views)[j],
        decreases messages.len() - i,
    {
        let message = &messages[i];
        match Role::parse(message.role.as_str()) {
            Ok(role) => {
                turns.push(ConversationMessage { role, content: message.content.clone() });
            },
            Err(e) => {
                assert(is_first_invalid(views, i as int));
                return Err(e);
            },
        }
        i = i + 1;
    }
    assert(turn_views(turns@) =~= validated(views));
    Ok(turns)
}

/// The conversation that consists of one user message, `question`.
pub fn conversation_from_question(question: String) -> (turns: Vec<ConversationMessage>)
    ensures
        turn_views(turns@) == single_question(question@),
{
    let mut turns: Vec<ConversationMessage> = Vec::new();
    turns.push(ConversationMessage { role: Role::User, content: question });
    turns
}

} // verus!
