//! The calls this library makes into code it does not verify.
//!
//! Every item here is believed, not proved: the contracts restate what the
//! called function's source or documentation says, and the rest of the
//! library is verified against them.

use vstd::prelude::*;
use crate::provider::ProviderKind;
use crate::text::string_views;

verus! {

/// The text that `str::to_lowercase` returns for `s`.
pub uninterp spec fn lowercase_of(s: Seq<char>) -> Seq<char>;

/// The text that `text_to_cypher::core::clean_generated_cypher_response`
/// returns for the model completion `completion`.
pub uninterp spec fn cleaned_completion(completion: Seq<char>) -> Seq<char>;

/// Calls `str::to_lowercase`, the Unicode lowercase mapping of std.
///
/// Claimed: the result depends on the characters of `s` alone. What the
/// result is for a given text is not claimed.
#[verifier::external_body]
pub(crate) fn to_lowercase(s: &str) -> (r: String)
    ensures
        r@ == lowercase_of(s@),
{
    s.to_lowercase()
}

/// Calls `String::push`.
///
/// Claimed: the character is appended at the end and nothing else changes.
#[verifier::external_body]
pub(crate) fn push_char(s: &mut String, c: char)
    ensures
        final(s)@ == old(s)@.push(c),
{
    s.push(c)
}

/// Calls `text_to_cypher::core::clean_generated_cypher_response`, which strips
/// what models put around a generated query (a code fence, a leading label or
/// prose, surrounding quotes, a trailing explanation), puts a parameter header
/// into the form that the graph store reads, and writes the query on one
/// line.
///
/// Claimed: the result depends on the characters of `completion` alone. What
/// the result is for a given completion is not claimed.
#[verifier::external_body]
pub(crate) fn clean_completion(completion: &str) -> (r: String)
    ensures
        r@ == cleaned_completion(completion@),
{
    text_to_cypher::core::clean_generated_cypher_response(completion)
}

/// The model names that `text_to_cypher::models_catalog::static_models`
/// lists for `provider`, in its order.
pub uninterp spec fn curated_catalog(provider: ProviderKind) -> Seq<Seq<char>>;

/// Calls `text_to_cypher::models_catalog::static_models`, the curated list of
/// well-known model names per provider. It is a constant table: no request
/// leaves the process.
///
/// Claimed: the result holds the names of that table, in its order, and so
/// depends on `provider` alone. Which names they are is not claimed.
#[verifier::external_body]
pub(crate) fn curated_models(provider: ProviderKind) -> (models: Vec<String>)
    ensures
        string_views(models@) == curated_catalog(provider),
{
    let kind = match provider {
        ProviderKind::OpenAi => text_to_cypher::AdapterKind::OpenAI,
        ProviderKind::Anthropic => text_to_cypher::AdapterKind::Anthropic,
        ProviderKind::Gemini => text_to_cypher::AdapterKind::Gemini,
        ProviderKind::Groq => text_to_cypher::AdapterKind::Groq,
        ProviderKind::DeepSeek => text_to_cypher::AdapterKind::DeepSeek,
        ProviderKind::Xai => text_to_cypher::AdapterKind::Xai,
        ProviderKind::Cohere => text_to_cypher::AdapterKind::Cohere,
        ProviderKind::Ollama => text_to_cypher::AdapterKind::Ollama,
    };
    text_to_cypher::models_catalog::static_models(kind).iter().map(|m| m.to_string()).collect()
}

} // verus!
