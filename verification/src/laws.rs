//! What holds of the library as a whole, proved from the definitions that
//! the contracts of its functions use.

use vstd::prelude::*;
use crate::conversation::{
    conversion, first_invalid, invalid_role, is_first_invalid, roles_valid, MessageView, TurnView,
};
use crate::error::{failure, failure_text, ErrorKind, PipelineErrorView};
use crate::generator::{
    extraction, first_statement, is_quote, opens_statement, scan_end, statement_end,
};
use crate::outside::curated_catalog;
use crate::pipeline::{
    action_of, awaits, discovery, generation, next, next_given, EventView, Mode, PipelineView,
    Stage, EMPTY_CONVERSATION,
};
use crate::provider::{
    all_providers, listing, model_ids, provider_of, provider_of_lowercase, qualified, resolution,
    supported_providers, unknown_provider, ProviderKind, ResolvedModelView,
};
use crate::response::{PipelineResponseView, Status};
use crate::schema::{schema_json, SchemaView};
use crate::synthesizer::{truncated, TRUNCATION_MARK};
use crate::text::{
    distinct, is_space, leading_spaces, lemma_distinct, lemma_leading_spaces,
    lemma_trailing_spaces, lemma_trimmed, trailing_spaces,
};

verus! {

/// Whether `part` stands in `whole`, character for character, from the place
/// `at` on.
pub open spec fn stands_at(whole: Seq<char>, at: int, part: Seq<char>) -> bool {
    0 <= at && at + part.len() <= whole.len() && whole.subrange(at, at + part.len()) == part
}

/// The descriptor of an empty graph is a success, not an error: a schema
/// discovery that is told of no label and no relationship type ends with
/// status success, with the empty descriptor, and with no failure.
pub proof fn law_empty_graph_is_described(graph_name: Seq<char>)
    ensures
        ({
            let run = next(discovery(graph_name), EventView::SchemaFetched(Ok(SchemaView::empty())));
            &&& run.stage == Stage::Done
            &&& run.schema == Some(SchemaView::empty())
            &&& run.schema->0.labels.len() == 0
            &&& run.schema->0.relationship_types.len() == 0
            &&& run.response == Some(
                PipelineResponseView::described(schema_json(SchemaView::empty())),
            )
            &&& run.response->0.status == Status::Success
            &&& run.response->0.error is None
        }),
{
}

/// A message whose role is outside the three roles ends a generation before
/// it starts: the run is done at once, its response is the failure
/// `InvalidRole` that names the first such role, the only thing due is to
/// hand that response back, and no event changes this. So no model is
/// called, and no store either.
pub proof fn law_invalid_role_makes_no_call(
    execute: bool,
    graph_name: Seq<char>,
    model_id: Seq<char>,
    messages: Seq<MessageView>,
    event: EventView,
)
    requires
        !roles_valid(messages),
    ensures
        ({
            let run = generation(execute, graph_name, model_id, conversion(messages));
            &&& is_first_invalid(messages, first_invalid(messages))
            &&& run.stage == Stage::Done
            &&& run.response == Some(
                PipelineResponseView::failed(
                    invalid_role(messages[first_invalid(messages)].role),
                ),
            )
            &&& run.response->0.status == Status::Error
            &&& run.response->0.error->0.kind == ErrorKind::InvalidRole
            &&& action_of(run) is Finish
            &&& next(run, event) == run
            &&& run.well_formed()
        }),
{
    lemma_some_role_is_first_invalid(messages, messages.len() as int);
}

/// A conversation without messages ends a generation before it starts, and
/// so does a model whose provider is unknown: the run is done at once with
/// the failure, and the only thing due is to hand the response back. A run
/// that does begin has a conversation to generate from.
pub proof fn law_nothing_is_generated_from_nothing(
    execute: bool,
    graph_name: Seq<char>,
    model_id: Seq<char>,
    conversation: Seq<TurnView>,
)
    ensures
        ({
            let run = generation(execute, graph_name, model_id, Ok(conversation));
            &&& conversation.len() == 0 ==> run.stage == Stage::Done && run.response == Some(
                PipelineResponseView::failed(
                    failure(ErrorKind::GenerationFailed, EMPTY_CONVERSATION@),
                ),
            )
            &&& conversation.len() > 0 && resolution(model_id) is Err ==> run.stage == Stage::Done
                && run.response == Some(PipelineResponseView::failed(resolution(model_id)->Err_0))
            &&& run.stage == Stage::Done ==> action_of(run) is Finish
            &&& run.stage != Stage::Done ==> run.stage == Stage::SchemaDiscovery
                && run.conversation == conversation && conversation.len() > 0 && resolution(
                model_id,
            ) == Ok::<ResolvedModelView, PipelineErrorView>(run.model->0)
        }),
{
}

/// Among the first `n` messages, if one has a role outside the three roles,
/// one is the first to have it.
proof fn lemma_some_role_is_first_invalid(messages: Seq<MessageView>, n: int)
    requires
        0 <= n <= messages.len(),
        exists|i: int|
            0 <= i < n && crate::conversation::role_of((#[trigger] messages[i]).role) is None,
    ensures
        exists|k: int| is_first_invalid(messages, k),
    decreases n,
{
    let last = n - 1;
    if exists|i: int|
        0 <= i < last && crate::conversation::role_of((#[trigger] messages[i]).role) is None {
        lemma_some_role_is_first_invalid(messages, last);
    } else {
        assert(is_first_invalid(messages, last));
    }
}

/// A provider name outside the supported set is refused by the listing with
/// `UnknownProvider`, and the message holds the name as it was given and the
/// supported set, both character for character.
pub proof fn law_unknown_provider_is_named(text: Seq<char>)
    requires
        provider_of(text) is None,
    ensures
        listing(Some(text)) == Err::<Seq<Seq<char>>, PipelineErrorView>(unknown_provider(text)),
        unknown_provider(text).kind == ErrorKind::UnknownProvider,
        exists|at: int| stands_at(unknown_provider(text).message, at, text),
        exists|at: int| stands_at(unknown_provider(text).message, at, supported_providers()),
{
    let label = ErrorKind::UnknownProvider.label() + ": "@;
    let message = unknown_provider(text).message;
    let name_at: int = (label.len() + "'"@.len()) as int;
    assert(message.subrange(name_at, name_at + text.len()) =~= text);
    assert(stands_at(message, name_at, text));
    let set_at: int = message.len() - supported_providers().len();
    assert(message.subrange(set_at, set_at + supported_providers().len())
        =~= supported_providers());
    assert(stands_at(message, set_at, supported_providers()));
}

/// Discovering the schema twice gives the same: two schema discoveries on
/// one graph that the store answers alike end with equal descriptors and
/// equal responses.
pub proof fn law_discovery_repeats(
    graph_name: Seq<char>,
    first: Result<SchemaView, Seq<char>>,
    second: Result<SchemaView, Seq<char>>,
)
    requires
        first == second,
    ensures
        ({
            let one = next(discovery(graph_name), EventView::SchemaFetched(first));
            let other = next(discovery(graph_name), EventView::SchemaFetched(second));
            &&& one.schema == other.schema
            &&& one.response == other.response
            &&& (first matches Ok(schema) ==> one.schema == Some(schema))
        }),
{
}

/// A failure of the store to run the statement ends a full run: the response
/// is the failure `ExecutionFailed` with the store's cause and carries
/// neither result nor answer. The generated query stays in the run, where
/// it can be looked at.
pub proof fn law_execution_failure_ends_the_run(run: PipelineView, cause: Seq<char>)
    requires
        run.well_formed(),
        run.stage == Stage::QueryExecution,
    ensures
        ({
            let after = next(run, EventView::Executed(Err(cause)));
            &&& after.stage == Stage::Done
            &&& after.response == Some(
                PipelineResponseView::failed(failure(ErrorKind::ExecutionFailed, cause)),
            )
            &&& after.response->0.status == Status::Error
            &&& after.response->0.error->0.kind == ErrorKind::ExecutionFailed
            &&& after.response->0.cypher_result is None
            &&& after.response->0.answer is None
            &&& after.generated == run.generated
            &&& after.generated is Some
            &&& run.mode == Mode::FullPipeline
        }),
{
}

/// Every step keeps a run well formed, whatever the event and whatever the
/// cleaned completion.
pub proof fn law_steps_keep_runs_well_formed(run: PipelineView, event: EventView, cleaned: Seq<char>)
    requires
        run.well_formed(),
    ensures
        next_given(run, event, cleaned).well_formed(),
        next(run, event).well_formed(),
{
}

/// The runs that the entry points begin are well formed.
pub proof fn law_runs_begin_well_formed(
    execute: bool,
    graph_name: Seq<char>,
    model_id: Seq<char>,
    messages: Seq<MessageView>,
)
    ensures
        discovery(graph_name).well_formed(),
        generation(execute, graph_name, model_id, conversion(messages)).well_formed(),
{
}

/// A run that is done stays as it is, and only awaited events move a run.
pub proof fn law_only_awaited_events_move_a_run(run: PipelineView, event: EventView)
    requires
        !awaits(run, event),
    ensures
        next(run, event) == run,
        run.stage == Stage::Done ==> action_of(run) is Finish,
{
}

/// How far a run has come: the number of its stage in the line of stages.
pub open spec fn progress(stage: Stage) -> int {
    match stage {
        Stage::SchemaDiscovery => 0,
        Stage::QueryGeneration => 1,
        Stage::QueryExecution => 2,
        Stage::AnswerSynthesis => 3,
        Stage::Done => 4,
    }
}

/// Every awaited event takes a run forward, so an invocation makes at most
/// four outside calls. A failure takes it to the end at once.
pub proof fn law_awaited_events_take_a_run_forward(run: PipelineView, event: EventView)
    requires
        awaits(run, event),
    ensures
        progress(next(run, event).stage) > progress(run.stage),
        (event matches EventView::SchemaFetched(Err(_)) ==> next(run, event).stage == Stage::Done),
        (event matches EventView::Completed(Err(_)) ==> next(run, event).stage == Stage::Done),
        (event matches EventView::Executed(Err(_)) ==> next(run, event).stage == Stage::Done),
{
}

/// What a run that is done has to show, by operation: a failure alone, or
/// the outputs of the stages that the operation includes and of no other.
pub proof fn law_responses_fit_the_operation(run: PipelineView, event: EventView)
    requires
        run.well_formed(),
        awaits(run, event),
        next(run, event).stage == Stage::Done,
    ensures
        ({
            let response = next(run, event).response->0;
            response.status == Status::Error || match run.mode {
                Mode::SchemaOnly => {
                    &&& response.schema is Some
                    &&& response.cypher_query is None
                    &&& response.cypher_result is None
                    &&& response.answer is None
                },
                Mode::GenerationOnly => {
                    &&& response.schema is Some
                    &&& response.cypher_query is Some
                    &&& response.cypher_result is None
                    &&& response.answer is None
                },
                Mode::FullPipeline => {
                    &&& response.schema is Some
                    &&& response.cypher_query is Some
                    &&& response.cypher_result is Some
                    &&& response.answer is Some
                },
            }
        }),
{
}

/// Every provider is in the supported set, is named by its own name, and by
/// no other provider's.
pub proof fn law_providers_are_named_apart(provider: ProviderKind, other: ProviderKind)
    ensures
        all_providers().contains(provider),
        provider_of_lowercase(provider.name()) == Some(provider),
        provider.name() == other.name() ==> provider == other,
{
    reveal_strlit("openai");
    reveal_strlit("anthropic");
    reveal_strlit("gemini");
    reveal_strlit("groq");
    reveal_strlit("deepseek");
    reveal_strlit("xai");
    reveal_strlit("cohere");
    reveal_strlit("ollama");
    let all = all_providers();
    assert(all[0] == ProviderKind::OpenAi && all[1] == ProviderKind::Anthropic && all[2]
        == ProviderKind::Gemini && all[3] == ProviderKind::Groq && all[4]
        == ProviderKind::DeepSeek && all[5] == ProviderKind::Xai && all[6]
        == ProviderKind::Cohere && all[7] == ProviderKind::Ollama);
    assert("openai"@.len() == 6 && "anthropic"@.len() == 9 && "gemini"@.len() == 6);
    assert("groq"@.len() == 4 && "deepseek"@.len() == 8 && "xai"@.len() == 3);
    assert("openai"@[0] == 'o' && "openai"@[1] == 'p');
    assert("gemini"@[0] == 'g' && "cohere"@[0] == 'c');
}

/// A listing names no model twice, and every identifier in it is a model of
/// the curated catalog under the name of the provider that was asked for.
pub proof fn law_listed_models_are_distinct(provider: ProviderKind)
    ensures
        model_ids(provider).no_duplicates(),
        model_ids(provider).len() == distinct(curated_catalog(provider)).len(),
        forall|i: int|
            0 <= i < model_ids(provider).len() ==> {
                &&& #[trigger] model_ids(provider)[i] == qualified(
                    provider,
                    distinct(curated_catalog(provider))[i],
                )
                &&& curated_catalog(provider).contains(distinct(curated_catalog(provider))[i])
            },
{
    let names = distinct(curated_catalog(provider));
    let ids = model_ids(provider);
    lemma_distinct(curated_catalog(provider));
    assert forall|i: int, j: int| 0 <= i < ids.len() && 0 <= j < ids.len() && i != j implies ids[i]
        != ids[j] by {
        let head = provider.name() + ":"@;
        assert(ids[i] == head + names[i]);
        assert(ids[j] == head + names[j]);
        if ids[i] == ids[j] {
            assert(names[i] =~= (head + names[i]).skip(head.len() as int));
            assert(names[j] =~= (head + names[j]).skip(head.len() as int));
        }
    }
    assert forall|i: int| 0 <= i < ids.len() implies curated_catalog(provider).contains(
        #[trigger] names[i],
    ) by {
        assert(names.contains(names[i]));
    }
}

/// What is sent of a result never exceeds the budget by more than the mark
/// that says it was cut.
pub proof fn law_truncation_keeps_the_budget(text: Seq<char>, budget: int)
    requires
        0 <= budget,
    ensures
        truncated(text, budget).len() <= budget + TRUNCATION_MARK@.len(),
        text.len() <= budget ==> truncated(text, budget) == text,
{
}

/// A failure's message opens with the label of its kind.
pub proof fn law_failures_name_their_stage(kind: ErrorKind, cause: Seq<char>)
    ensures
        stands_at(failure_text(kind, cause), 0, kind.label()),
        stands_at(failure_text(kind, cause), failure_text(kind, cause).len() - cause.len(), cause),
{
    let text = failure_text(kind, cause);
    assert(text.subrange(0, kind.label().len() as int) =~= kind.label());
    assert(text.subrange(text.len() - cause.len(), text.len() as int) =~= cause);
}

/// A text that is read to its end without a free semicolon is read so from
/// every shorter end too.
proof fn lemma_scan_of_prefix(s: Seq<char>, n: int, i: int, quote: Option<char>)
    requires
        0 <= i <= n <= scan_end(s, i, quote),
        n <= s.len(),
    ensures
        scan_end(s.take(n), i, quote) == n,
    decreases n - i,
{
    let p = s.take(n);
    if i < n {
        assert(p[i] == s[i]);
        assert(scan_end(p, n, quote) == n && scan_end(p, n, None) == n);
        match quote {
            Some(q) => {
                if s[i] == '\\' && q != '`' && i + 1 < s.len() {
                    if i + 1 < n {
                        lemma_scan_of_prefix(s, n, i + 2, quote);
                    }
                } else if s[i] == q {
                    lemma_scan_of_prefix(s, n, i + 1, None);
                } else {
                    lemma_scan_of_prefix(s, n, i + 1, quote);
                }
            },
            None => {
                if s[i] == ';' {
                    assert(scan_end(s, i, quote) == i);
                } else if is_quote(s[i]) {
                    lemma_scan_of_prefix(s, n, i + 1, Some(s[i]));
                } else {
                    lemma_scan_of_prefix(s, n, i + 1, None);
                }
            },
        }
    }
}

/// Reading a text from a place on is reading what is left of it from its
/// start.
proof fn lemma_scan_of_rest(s: Seq<char>, from: int, i: int, quote: Option<char>)
    requires
        0 <= from <= s.len(),
        0 <= i,
    ensures
        scan_end(s.skip(from), i, quote) == scan_end(s, from + i, quote) - from,
    decreases s.len() - from - i,
{
    let rest = s.skip(from);
    if i < rest.len() {
        assert(rest[i] == s[from + i]);
        match quote {
            Some(q) => {
                if s[from + i] == '\\' && q != '`' && i + 1 < rest.len() {
                    lemma_scan_of_rest(s, from, i + 2, quote);
                } else if s[from + i] == q {
                    lemma_scan_of_rest(s, from, i + 1, None);
                } else {
                    lemma_scan_of_rest(s, from, i + 1, quote);
                }
            },
            None => {
                if s[from + i] != ';' {
                    if is_quote(s[from + i]) {
                        lemma_scan_of_rest(s, from, i + 1, Some(s[from + i]));
                    } else {
                        lemma_scan_of_rest(s, from, i + 1, None);
                    }
                }
            },
        }
    }
}

/// Blank characters outside quotes are read over one by one.
proof fn lemma_scan_over_blanks(s: Seq<char>, i: int, n: int)
    requires
        0 <= i <= n <= s.len(),
        forall|j: int| i <= j < n ==> is_space(s[j]),
    ensures
        scan_end(s, i, None) == scan_end(s, n, None),
    decreases n - i,
{
    if i < n {
        lemma_scan_over_blanks(s, i + 1, n);
    }
}

/// Where a text ends is never behind its end.
proof fn lemma_scan_end_bounds(s: Seq<char>, i: int, quote: Option<char>)
    requires
        0 <= i,
    ensures
        i <= scan_end(s, i, quote) || scan_end(s, i, quote) == s.len(),
        scan_end(s, i, quote) <= s.len(),
    decreases s.len() - i,
{
    if i < s.len() {
        match quote {
            Some(q) => {
                if s[i] == '\\' && q != '`' && i + 1 < s.len() {
                    lemma_scan_end_bounds(s, i + 2, quote);
                } else if s[i] == q {
                    lemma_scan_end_bounds(s, i + 1, None);
                } else {
                    lemma_scan_end_bounds(s, i + 1, quote);
                }
            },
            None => {
                if s[i] != ';' {
                    if is_quote(s[i]) {
                        lemma_scan_end_bounds(s, i + 1, Some(s[i]));
                    } else {
                        lemma_scan_end_bounds(s, i + 1, None);
                    }
                }
            },
        }
    }
}

/// What extraction hands on is one statement: it is not empty, it opens with
/// a keyword that opens a statement, no blank stands at either end of it,
/// and no semicolon stands in it outside quotes. And it is found whenever
/// the first statement of the cleaned completion is such a statement.
pub proof fn law_extraction_gives_one_statement(cleaned: Seq<char>, completion: Seq<char>)
    ensures
        extraction(cleaned, completion) is Ok <==> opens_statement(first_statement(cleaned)),
        extraction(cleaned, completion) matches Ok(query) ==> {
            &&& query.raw_completion == completion
            &&& query.statement.len() > 0
            &&& opens_statement(query.statement)
            &&& !is_space(query.statement[0])
            &&& !is_space(query.statement.last())
            &&& statement_end(query.statement) == query.statement.len()
        },
        extraction(cleaned, completion) matches Err(e) ==> e.kind == ErrorKind::ExtractionFailed,
{
    let statement = first_statement(cleaned);
    if opens_statement(statement) {
        lemma_opening_is_not_empty(statement);
        let end = statement_end(cleaned);
        lemma_scan_end_bounds(cleaned, 0, None);
        let part = cleaned.take(end);
        lemma_trimmed(part);
        lemma_trailing_spaces(part);
        let to = part.len() - trailing_spaces(part);
        let kept = part.take(to);
        let from = leading_spaces(kept);
        lemma_leading_spaces(kept);
        assert(kept =~= cleaned.take(to));
        lemma_scan_of_prefix(cleaned, to, 0, None);
        lemma_scan_over_blanks(kept, 0, from);
        lemma_scan_of_rest(kept, from, 0, None);
    }
}

/// A text that opens as a statement does is not empty.
proof fn lemma_opening_is_not_empty(s: Seq<char>)
    requires
        opens_statement(s),
    ensures
        s.len() > 0,
{
    reveal_strlit("match");
    reveal_strlit("optional");
    reveal_strlit("call");
    reveal_strlit("return");
    reveal_strlit("with");
    reveal_strlit("unwind");
    reveal_strlit("create");
    reveal_strlit("merge");
    reveal_strlit("cypher");
}

} // verus!
