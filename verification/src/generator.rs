//! Query generation: the messages that ask a model for a query, and the
//! statement that is taken from its answer.
//!
//! The generator depends on nothing but the capability to complete a
//! conversation. It decides what is sent and what is made of the completion;
//! the call itself is not made here.

use vstd::prelude::*;
use vstd::string::*;
use crate::conversation::{turn_views, ConversationMessage, Role, TurnView};
use crate::error::{failure, ErrorKind, PipelineError, PipelineErrorView};
use crate::outside::{clean_completion, cleaned_completion};
use crate::schema::{schema_json, SchemaDescriptor, SchemaView};
use crate::text::{ascii_lower, ascii_lower_char, chars_of, string_of, trim_bounds, trimmed};

verus! {

/// What the system instruction says before the schema.
pub const INSTRUCTION_HEAD: &'static str =
    "You translate questions about a property graph into Cypher.\nThe graph has this schema, given as JSON:\n";

/// What the system instruction says behind the schema: the constraints on the
/// query and on the form of the answer.
pub const INSTRUCTION_TAIL: &'static str =
    "\nUse only the labels, relationship types and property keys that the schema names.\nKeep every relationship in the direction in which the question reads it.\nAnswer with exactly one Cypher statement inside a code fence, and with nothing else.";

/// What is reported when a completion holds no statement.
pub const NO_STATEMENT: &'static str = "the completion holds no Cypher statement";

/// The system instruction for a graph whose schema text is `schema_text`.
pub open spec fn generation_instruction(schema_text: Seq<char>) -> Seq<char> {
    INSTRUCTION_HEAD@ + schema_text + INSTRUCTION_TAIL@
}

/// The messages sent to the model to have a query generated: the system
/// instruction, then the conversation as the caller gave it.
pub open spec fn generation_messages(schema: SchemaView, conversation: Seq<TurnView>) -> Seq<
    TurnView,
> {
    seq![
        TurnView { role: Role::System, content: generation_instruction(schema_json(schema)) },
    ] + conversation
}

/// Assembles the messages that ask the model for a query.
pub fn build_generation_messages(
    schema: &SchemaDescriptor,
    conversation: &Vec<ConversationMessage>,
) -> (messages: Vec<ConversationMessage>)
    ensures
        turn_views(messages@) == generation_messages(schema@, turn_views(conversation@)),
{
    let mut instruction = String::from_str(INSTRUCTION_HEAD);
    let schema_text = schema.to_json();
    instruction.append(schema_text.as_str());
    instruction.append(INSTRUCTION_TAIL);
    let mut messages: Vec<ConversationMessage> = Vec::new();
    messages.push(ConversationMessage { role: Role::System, content: instruction });
    let mut i: usize = 0;
    while i < conversation.len()
        invariant
            i <= conversation.len(),
            messages.len() == i + 1,
            messages[0]@ == generation_messages(schema@, turn_views(conversation@))[0],
            forall|j: int| 0 <= j < i ==> (#[trigger] messages[j + 1])@ == conversation[j]@,
        decreases conversation.len() - i,
    {
        messages.push(
            ConversationMessage {
                role: conversation[i].role,
                content: conversation[i].content.clone(),
            },
        );
        i = i + 1;
    }
    assert(turn_views(messages@) =~= generation_messages(schema@, turn_views(conversation@))) by {
        assert forall|j: int| 0 <= j < messages.len() implies turn_views(messages@)[j]
            == generation_messages(schema@, turn_views(conversation@))[j] by {
            if j > 0 {
                assert(messages[(j - 1) + 1]@ == conversation[j - 1]@);
            }
        }
    }
    messages
}

/// A statement taken from a completion, with the completion it was taken
/// from, which is kept for diagnostics.
#[derive(Clone, Debug, PartialEq, Eq)]
pub struct GeneratedQuery {
    pub statement: String,
    pub raw_completion: String,
}

/// A `GeneratedQuery` as a mathematical value.
pub struct GeneratedQueryView {
    pub statement: Seq<char>,
    pub raw_completion: Seq<char>,
}

impl View for GeneratedQuery {
    type V = GeneratedQueryView;

    open spec fn view(&self) -> GeneratedQueryView {
        GeneratedQueryView { statement: self.statement@, raw_completion: self.raw_completion@ }
    }
}

/// Whether `c` opens or closes a quoted stretch of a statement.
pub open spec fn is_quote(c: char) -> bool {
    c == '\'' || c == '"' || c == '`'
}

/// Where the statement that is being read from place `i` of `s` ends: at the
/// first semicolon that stands outside quotes, or at the end of `s`.
///
/// `quote` is the quote that is open at `i`, if one is. Inside single or
/// double quotes a backslash takes the next character with it; inside
/// backticks it does not.
pub open spec fn scan_end(s: Seq<char>, i: int, quote: Option<char>) -> int
    decreases s.len() - i,
{
    if i < 0 || i >= s.len() {
        s.len() as int
    } else {
        match quote {
            Some(q) => if s[i] == '\\' && q != '`' && i + 1 < s.len() {
                scan_end(s, i + 2, quote)
            } else if s[i] == q {
                scan_end(s, i + 1, None)
            } else {
                scan_end(s, i + 1, quote)
            },
            None => if s[i] == ';' {
                i
            } else if is_quote(s[i]) {
                scan_end(s, i + 1, Some(s[i]))
            } else {
                scan_end(s, i + 1, None)
            },
        }
    }
}

/// Where the first statement of `s` ends.
pub open spec fn statement_end(s: Seq<char>) -> int {
    scan_end(s, 0, None)
}

/// The first statement of `s`: what stands before the first semicolon
/// outside quotes, without the blanks around it.
pub open spec fn first_statement(s: Seq<char>) -> Seq<char> {
    trimmed(s.take(statement_end(s)))
}

/// Whether `c` can stand inside a word: an ASCII letter, a digit or an
/// underscore.
pub open spec fn is_word_char(c: char) -> bool {
    ('a' <= c && c <= 'z') || ('A' <= c && c <= 'Z') || ('0' <= c && c <= '9') || c == '_'
}

/// Whether `s` opens with the word `keyword`, whatever the case of its ASCII
/// letters: the characters match and the word ends there.
pub open spec fn opens_with(s: Seq<char>, keyword: Seq<char>) -> bool {
    &&& keyword.len() <= s.len()
    &&& forall|i: int| 0 <= i < keyword.len() ==> ascii_lower(#[trigger] s[i]) == keyword[i]
    &&& (keyword.len() < s.len() ==> !is_word_char(s[keyword.len() as int]))
}

/// Whether `s` opens as a Cypher statement does: with the keyword of a clause
/// that can stand first, or with the keyword that announces parameters.
pub open spec fn opens_statement(s: Seq<char>) -> bool {
    opens_with(s, "match"@) || opens_with(s, "optional"@) || opens_with(s, "call"@) || opens_with(
        s,
        "return"@,
    ) || opens_with(s, "with"@) || opens_with(s, "unwind"@) || opens_with(s, "create"@)
        || opens_with(s, "merge"@) || opens_with(s, "cypher"@)
}

/// What is made of a completion whose cleaned form is `cleaned`.
///
/// The first statement of the cleaned form is the query if it opens as a
/// statement does. If it does not, extraction fails: nothing is put in the
/// place of a statement that is not there.
pub open spec fn extraction(cleaned: Seq<char>, completion: Seq<char>) -> Result<
    GeneratedQueryView,
    PipelineErrorView,
> {
    if opens_statement(first_statement(cleaned)) {
        Ok(GeneratedQueryView { statement: first_statement(cleaned), raw_completion: completion })
    } else {
        Err(failure(ErrorKind::ExtractionFailed, NO_STATEMENT@))
    }
}

/// Whether `c` opens or closes a quoted stretch.
fn is_quote_char(c: char) -> (r: bool)
    ensures
        r == is_quote(c),
{
    c == '\'' || c == '"' || c == '`'
}

/// Whether `c` can stand inside a word.
fn is_word(c: char) -> (r: bool)
    ensures
        r == is_word_char(c),
{
    ('a' <= c && c <= 'z') || ('A' <= c && c <= 'Z') || ('0' <= c && c <= '9') || c == '_'
}

/// Where the first statement of `s` ends.
pub fn find_statement_end(s: &Vec<char>) -> (end: usize)
    ensures
        end == statement_end(s@),
        end <= s.len(),
{
    let mut i: usize = 0;
    let mut quote: Option<char> = None;
    while i < s.len()
        invariant
            scan_end(s@, i as int, quote) == statement_end(s@),
        decreases s.len() - i,
    {
        let c = s[i];
        match quote {
            Some(q) => {
                if c == '\\' && q != '`' && i + 1 < s.len() {
                    i = i + 2;
                } else if c == q {
                    quote = None;
                    i = i + 1;
                } else {
                    i = i + 1;
                }
            },
            None => {
                if c == ';' {
                    return i;
                } else if is_quote_char(c) {
                    quote = Some(c);
                    i = i + 1;
                } else {
                    i = i + 1;
                }
            },
        }
    }
    s.len()
}

/// Whether `s[from..to]` opens with the word `keyword`, whatever the case of
/// its ASCII letters.
fn range_opens_with(s: &Vec<char>, from: usize, to: usize, keyword: &str) -> (r: bool)
    requires
        from <= to <= s.len(),
    ensures
        r == opens_with(s@.subrange(from as int, to as int), keyword@),
{
    let word = chars_of(keyword);
    let ghost part = s@.subrange(from as int, to as int);
    if word.len() > to - from {
        return false;
    }
    let mut i: usize = 0;
    while i < word.len()
        invariant
            i <= word.len() <= to - from,
            from <= to <= s.len(),
            word@ == keyword@,
            part == s@.subrange(from as int, to as int),
            forall|j: int| 0 <= j < i ==> ascii_lower(#[trigger] part[j]) == word[j],
        decreases word.len() - i,
    {
        if ascii_lower_char(s[from + i]) != word[i] {
            assert(ascii_lower(part[i as int]) != keyword@[i as int]);
            return false;
        }
        i = i + 1;
    }
    if word.len() < to - from {
        !is_word(s[from + word.len()])
    } else {
        true
    }
}

/// Whether `s[from..to]` opens as a Cypher statement does.
fn range_opens_statement(s: &Vec<char>, from: usize, to: usize) -> (r: bool)
    requires
        from <= to <= s.len(),
    ensures
        r == opens_statement(s@.subrange(from as int, to as int)),
{
    range_opens_with(s, from, to, "match") || range_opens_with(s, from, to, "optional")
        || range_opens_with(s, from, to, "call") || range_opens_with(s, from, to, "return")
        || range_opens_with(s, from, to, "with") || range_opens_with(s, from, to, "unwind")
        || range_opens_with(s, from, to, "create") || range_opens_with(s, from, to, "merge")
        || range_opens_with(s, from, to, "cypher")
}

/// Takes the query from the cleaned form of a completion.
///
/// Succeeds exactly when the first statement of `cleaned` opens as a
/// statement does; fails with `ExtractionFailed` otherwise.
pub fn statement_from_cleaned(cleaned: &str, completion: &str) -> (r: Result<
    GeneratedQuery,
    PipelineError,
>)
    ensures
        match r {
            Ok(query) => extraction(cleaned@, completion@) == Ok::<
                GeneratedQueryView,
                PipelineErrorView,
            >(query@),
            Err(e) => extraction(cleaned@, completion@) == Err::<
                GeneratedQueryView,
                PipelineErrorView,
            >(e@),
        },
{
    let chars = chars_of(cleaned);
    let end = find_statement_end(&chars);
    let (from, to) = trim_bounds(&chars, end);
    if range_opens_statement(&chars, from, to) {
        Ok(
            GeneratedQuery {
                statement: string_of(&chars, from, to),
                raw_completion: String::from_str(completion),
            },
        )
    } else {
        Err(PipelineError::new(ErrorKind::ExtractionFailed, NO_STATEMENT))
    }
}

/// Takes the query from a model's completion: what surrounds the query is
/// cleaned away, and the first statement of what is left is the query.
///
/// Succeeds exactly when that statement opens as a statement does; fails with
/// `ExtractionFailed` otherwise.
pub fn extract_statement(completion: &str) -> (r: Result<GeneratedQuery, PipelineError>)
    ensures
        match r {
            Ok(query) => extraction(cleaned_completion(completion@), completion@) == Ok::<
                GeneratedQueryView,
                PipelineErrorView,
            >(query@),
            Err(e) => extraction(cleaned_completion(completion@), completion@) == Err::<
                GeneratedQueryView,
                PipelineErrorView,
            >(e@),
        },
{
    let cleaned = clean_completion(completion);
    statement_from_cleaned(cleaned.as_str(), completion)
}

} // verus!
