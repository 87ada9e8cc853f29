//! The registry of model providers: the closed set of providers, how a model
//! identifier resolves to one of them, and which models each is known to
//! offer.
//!
//! Models are listed from a curated catalog that ships with the program. No
//! provider is asked over the network, so a listing cannot fail for want of a
//! key or a connection.

use vstd::prelude::*;
use vstd::string::*;
use crate::error::{failure, ErrorKind, PipelineError, PipelineErrorView};
use crate::outside::{curated_catalog, curated_models, lowercase_of, to_lowercase};
use crate::text::{
    chars_of, contains_text, distinct, find_char, joined, position, same_text, string_of,
    string_views,
};

verus! {

/// The providers that a model identifier can name.
#[derive(Clone, Copy, Debug, PartialEq, Eq, Structural)]
pub enum ProviderKind {
    OpenAi,
    Anthropic,
    Gemini,
    Groq,
    DeepSeek,
    Xai,
    Cohere,
    Ollama,
}

/// Every provider, in the order in which the library lists them.
pub open spec fn all_providers() -> Seq<ProviderKind> {
    seq![
        ProviderKind::OpenAi,
        ProviderKind::Anthropic,
        ProviderKind::Gemini,
        ProviderKind::Groq,
        ProviderKind::DeepSeek,
        ProviderKind::Xai,
        ProviderKind::Cohere,
        ProviderKind::Ollama,
    ]
}

impl ProviderKind {
    /// The lowercase name by which the provider is written in a model
    /// identifier.
    pub open spec fn name(self) -> Seq<char> {
        match self {
            ProviderKind::OpenAi => "openai"@,
            ProviderKind::Anthropic => "anthropic"@,
            ProviderKind::Gemini => "gemini"@,
            ProviderKind::Groq => "groq"@,
            ProviderKind::DeepSeek => "deepseek"@,
            ProviderKind::Xai => "xai"@,
            ProviderKind::Cohere => "cohere"@,
            ProviderKind::Ollama => "ollama"@,
        }
    }

    /// The lowercase name by which the provider is written in a model
    /// identifier.
    pub fn as_str(self) -> (s: &'static str)
        ensures
            s@ == self.name(),
    {
        match self {
            ProviderKind::OpenAi => "openai",
            ProviderKind::Anthropic => "anthropic",
            ProviderKind::Gemini => "gemini",
            ProviderKind::Groq => "groq",
            ProviderKind::DeepSeek => "deepseek",
            ProviderKind::Xai => "xai",
            ProviderKind::Cohere => "cohere",
            ProviderKind::Ollama => "ollama",
        }
    }

    /// Every provider, in listing order.
    pub fn all() -> (v: Vec<ProviderKind>)
        ensures
            v@ == all_providers(),
    {
        let mut v: Vec<ProviderKind> = Vec::new();
        v.push(ProviderKind::OpenAi);
        v.push(ProviderKind::Anthropic);
        v.push(ProviderKind::Gemini);
        v.push(ProviderKind::Groq);
        v.push(ProviderKind::DeepSeek);
        v.push(ProviderKind::Xai);
        v.push(ProviderKind::Cohere);
        v.push(ProviderKind::Ollama);
        v
    }
}

/// The provider that a lowercase name stands for, if any.
pub open spec fn provider_of_lowercase(lower: Seq<char>) -> Option<ProviderKind> {
    if lower == "openai"@ {
        Some(ProviderKind::OpenAi)
    } else if lower == "anthropic"@ {
        Some(ProviderKind::Anthropic)
    } else if lower == "gemini"@ {
        Some(ProviderKind::Gemini)
    } else if lower == "groq"@ {
        Some(ProviderKind::Groq)
    } else if lower == "deepseek"@ {
        Some(ProviderKind::DeepSeek)
    } else if lower == "xai"@ {
        Some(ProviderKind::Xai)
    } else if lower == "cohere"@ {
        Some(ProviderKind::Cohere)
    } else if lower == "ollama"@ {
        Some(ProviderKind::Ollama)
    } else {
        None
    }
}

/// The provider that `text` stands for, whatever its case, if any.
pub open spec fn provider_of(text: Seq<char>) -> Option<ProviderKind> {
    provider_of_lowercase(lowercase_of(text))
}

/// The names of the first `n` providers, in listing order.
pub open spec fn provider_names(n: int) -> Seq<Seq<char>> {
    Seq::new(n as nat, |i: int| all_providers()[i].name())
}

/// The supported set as it is shown to a caller: every provider name, in
/// listing order, separated by a comma and a space.
pub open spec fn supported_providers() -> Seq<char> {
    joined(provider_names(all_providers().len() as int), ", "@)
}

/// What is reported of a provider name outside the supported set: the name as
/// it was given, and the supported set.
pub open spec fn unknown_provider_cause(text: Seq<char>) -> Seq<char> {
    "'"@ + text + "' is not one of: "@ + supported_providers()
}

/// The failure reported for the provider name `text`.
pub open spec fn unknown_provider(text: Seq<char>) -> PipelineErrorView {
    failure(ErrorKind::UnknownProvider, unknown_provider_cause(text))
}

/// The supported set as it is shown to a caller.
pub fn supported_providers_text() -> (s: String)
    ensures
        s@ == supported_providers(),
{
    let all = ProviderKind::all();
    let mut s = String::new();
    let mut i: usize = 0;
    while i < all.len()
        invariant
            i <= all.len(),
            all@ == all_providers(),
            s@ == joined(provider_names(i as int), ", "@),
        decreases all.len() - i,
    {
        assert(provider_names(i + 1).drop_last() =~= provider_names(i as int));
        if i > 0 {
            s.append(", ");
        }
        s.append(all[i].as_str());
        i = i + 1;
    }
    s
}

impl ProviderKind {
    /// The provider named by `lower`, which is compared as it stands.
    pub fn from_lowercase(lower: &str) -> (r: Option<ProviderKind>)
        ensures
            r == provider_of_lowercase(lower@),
    {
        if same_text(lower, "openai") {
            Some(ProviderKind::OpenAi)
        } else if same_text(lower, "anthropic") {
            Some(ProviderKind::Anthropic)
        } else if same_text(lower, "gemini") {
            Some(ProviderKind::Gemini)
        } else if same_text(lower, "groq") {
            Some(ProviderKind::Groq)
        } else if same_text(lower, "deepseek") {
            Some(ProviderKind::DeepSeek)
        } else if same_text(lower, "xai") {
            Some(ProviderKind::Xai)
        } else if same_text(lower, "cohere") {
            Some(ProviderKind::Cohere)
        } else if same_text(lower, "ollama") {
            Some(ProviderKind::Ollama)
        } else {
            None
        }
    }

    /// The provider named by `text`, compared without regard to case.
    ///
    /// Fails with `UnknownProvider`, naming `text` and the supported set,
    /// exactly when the lowercase of `text` is no provider's name.
    pub fn parse(text: &str) -> (r: Result<ProviderKind, PipelineError>)
        ensures
            match r {
                Ok(provider) => provider_of(text@) == Some(provider),
                Err(e) => provider_of(text@) is None && e@ == unknown_provider(text@),
            },
    {
        let lower = to_lowercase(text);
        match ProviderKind::from_lowercase(lower.as_str()) {
            Some(provider) => Ok(provider),
            None => {
                let mut cause = String::from_str("'");
                cause.append(text);
                cause.append("' is not one of: ");
                let supported = supported_providers_text();
                cause.append(supported.as_str());
                Err(PipelineError::new(ErrorKind::UnknownProvider, cause.as_str()))
            },
        }
    }
}

/// A model identifier, resolved: the provider that serves the model, and the
/// name by which that provider knows it.
#[derive(Clone, Debug, PartialEq, Eq)]
pub struct ResolvedModel {
    pub provider: ProviderKind,
    pub name: String,
}

/// A `ResolvedModel` as a mathematical value.
pub struct ResolvedModelView {
    pub provider: ProviderKind,
    pub name: Seq<char>,
}

impl View for ResolvedModel {
    type V = ResolvedModelView;

    open spec fn view(&self) -> ResolvedModelView {
        ResolvedModelView { provider: self.provider, name: self.name@ }
    }
}

/// Whether the identifier `id` carries a provider prefix: whether a colon
/// stands in it.
pub open spec fn is_qualified(id: Seq<char>) -> bool {
    position(id, ':') < id.len()
}

/// The provider prefix of a qualified identifier: what stands before its
/// first colon.
pub open spec fn id_prefix(id: Seq<char>) -> Seq<char> {
    id.take(position(id, ':'))
}

/// Where the model name of a qualified identifier begins: behind the first
/// colon, or behind the pair where the colon is doubled.
pub open spec fn name_start(id: Seq<char>) -> int {
    let colon = position(id, ':');
    if colon + 1 < id.len() && id[colon + 1] == ':' {
        colon + 2
    } else {
        colon + 1
    }
}

/// The model name of a qualified identifier.
pub open spec fn id_name(id: Seq<char>) -> Seq<char> {
    id.skip(name_start(id))
}

/// The curated catalogs `catalogs` as mathematical values.
pub open spec fn catalog_views(catalogs: Seq<Vec<String>>) -> Seq<Seq<Seq<char>>> {
    Seq::new(catalogs.len(), |k: int| string_views(catalogs[k]@))
}

/// The curated catalog of every provider, in listing order.
pub open spec fn curated_catalogs() -> Seq<Seq<Seq<char>>> {
    Seq::new(all_providers().len(), |k: int| curated_catalog(all_providers()[k]))
}

/// The provider that lists the model `name`, looked for from the `k`-th
/// provider on: the first whose catalog, among `catalogs` in listing order,
/// holds the name. A name that no catalog holds is taken for a local model.
pub open spec fn listed_from(catalogs: Seq<Seq<Seq<char>>>, name: Seq<char>, k: int) -> ProviderKind
    decreases catalogs.len() - k,
{
    if k < 0 || k >= catalogs.len() || k >= all_providers().len() {
        ProviderKind::Ollama
    } else if catalogs[k].contains(name) {
        all_providers()[k]
    } else {
        listed_from(catalogs, name, k + 1)
    }
}

/// The provider that serves a model whose identifier names none: the first
/// whose curated catalog lists the model.
pub open spec fn inferred_provider(name: Seq<char>) -> ProviderKind {
    listed_from(curated_catalogs(), name, 0)
}

/// What the identifier `id` resolves to.
///
/// A qualified identifier resolves to the provider that its prefix names,
/// whatever the prefix's case, and fails with `UnknownProvider` where the
/// prefix names none. An identifier without prefix resolves to the provider
/// whose catalog lists it, and is itself the model's name.
pub open spec fn resolution(id: Seq<char>) -> Result<ResolvedModelView, PipelineErrorView> {
    if is_qualified(id) {
        match provider_of(id_prefix(id)) {
            Some(provider) => Ok(ResolvedModelView { provider, name: id_name(id) }),
            None => Err(unknown_provider(id_prefix(id))),
        }
    } else {
        Ok(ResolvedModelView { provider: inferred_provider(id), name: id })
    }
}

/// The curated catalog of every provider, in listing order.
pub fn all_catalogs() -> (catalogs: Vec<Vec<String>>)
    ensures
        catalog_views(catalogs@) == curated_catalogs(),
{
    let all = ProviderKind::all();
    let mut catalogs: Vec<Vec<String>> = Vec::new();
    let mut k: usize = 0;
    while k < all.len()
        invariant
            k <= all.len(),
            all@ == all_providers(),
            catalogs.len() == k,
            forall|j: int|
                0 <= j < k ==> string_views((#[trigger] catalogs[j])@) == curated_catalog(
                    all_providers()[j],
                ),
        decreases all.len() - k,
    {
        catalogs.push(curated_models(all[k]));
        k = k + 1;
    }
    catalogs
}

/// The provider that lists the model `name` in `catalogs`, which hold one
/// catalog for each provider in listing order.
pub fn provider_listing(catalogs: &Vec<Vec<String>>, name: &str) -> (provider: ProviderKind)
    ensures
        provider == listed_from(catalog_views(catalogs@), name@, 0),
{
    let all = ProviderKind::all();
    let ghost views = catalog_views(catalogs@);
    let mut k: usize = 0;
    while k < catalogs.len() && k < all.len()
        invariant
            all@ == all_providers(),
            views == catalog_views(catalogs@),
            listed_from(views, name@, k as int) == listed_from(views, name@, 0),
        decreases catalogs.len() - k,
    {
        if contains_text(&catalogs[k], name) {
            return all[k];
        }
        k = k + 1;
    }
    ProviderKind::Ollama
}

/// The provider that serves the model `name`, whose identifier names none.
pub fn infer_provider(name: &str) -> (provider: ProviderKind)
    ensures
        provider == inferred_provider(name@),
{
    let catalogs = all_catalogs();
    provider_listing(&catalogs, name)
}

/// Resolves a model identifier to its provider and model name.
pub fn resolve(model_id: &str) -> (r: Result<ResolvedModel, PipelineError>)
    ensures
        match r {
            Ok(model) => resolution(model_id@) == Ok::<ResolvedModelView, PipelineErrorView>(
                model@,
            ),
            Err(e) => resolution(model_id@) == Err::<ResolvedModelView, PipelineErrorView>(e@),
        },
{
    let id = chars_of(model_id);
    let colon = find_char(&id, ':');
    if colon < id.len() {
        let prefix = string_of(&id, 0, colon);
        let provider = ProviderKind::parse(prefix.as_str())?;
        let start = if colon + 1 < id.len() && id[colon + 1] == ':' {
            colon + 2
        } else {
            colon + 1
        };
        let name = string_of(&id, start, id.len());
        Ok(ResolvedModel { provider, name })
    } else {
        let provider = infer_provider(model_id);
        Ok(ResolvedModel { provider, name: String::from_str(model_id) })
    }
}

/// The identifier of the model `model` of `provider`: the provider's name, a
/// colon, and the model's name.
pub open spec fn qualified(provider: ProviderKind, model: Seq<char>) -> Seq<char> {
    provider.name() + ":"@ + model
}

/// The identifiers of the models that the catalog `catalog` lists for
/// `provider`: the catalog without its repetitions, in its order, each name
/// qualified.
pub open spec fn qualified_ids(provider: ProviderKind, catalog: Seq<Seq<char>>) -> Seq<Seq<char>> {
    distinct(catalog).map_values(|model: Seq<char>| qualified(provider, model))
}

/// The identifiers of the models that `provider` is known to offer: those
/// that its curated catalog lists.
pub open spec fn model_ids(provider: ProviderKind) -> Seq<Seq<char>> {
    qualified_ids(provider, curated_catalog(provider))
}

/// The identifiers of the models of the first `n` providers, provider by
/// provider in listing order.
pub open spec fn model_ids_of_first(n: int) -> Seq<Seq<char>>
    decreases n,
{
    if n <= 0 {
        Seq::empty()
    } else {
        model_ids_of_first(n - 1) + model_ids(all_providers()[n - 1])
    }
}

/// The identifiers of all models known to the library.
pub open spec fn all_model_ids() -> Seq<Seq<char>> {
    model_ids_of_first(all_providers().len() as int)
}

/// What a listing for the optional provider name `provider` returns.
pub open spec fn listing(provider: Option<Seq<char>>) -> Result<Seq<Seq<char>>, PipelineErrorView> {
    match provider {
        None => Ok(all_model_ids()),
        Some(text) => match provider_of(text) {
            Some(kind) => Ok(model_ids(kind)),
            None => Err(unknown_provider(text)),
        },
    }
}

/// Appends to `ids` the identifiers of the models that `catalog` lists for
/// `provider`.
pub fn push_qualified(ids: &mut Vec<String>, provider: ProviderKind, catalog: &Vec<String>)
    ensures
        string_views(final(ids)@) == string_views(old(ids)@) + qualified_ids(
            provider,
            string_views(catalog@),
        ),
{
    let ghost before = string_views(ids@);
    let ghost names = string_views(catalog@);
    let mut kept: Vec<String> = Vec::new();
    let mut i: usize = 0;
    while i < catalog.len()
        invariant
            i <= catalog.len(),
            names == string_views(catalog@),
            string_views(kept@) == distinct(names.take(i as int)),
            string_views(ids@) == before + string_views(kept@).map_values(
                |model: Seq<char>| qualified(provider, model),
            ),
        decreases catalog.len() - i,
    {
        assert(names.take(i + 1).drop_last() =~= names.take(i as int));
        if !contains_text(&kept, catalog[i].as_str()) {
            let ghost ids_before = string_views(ids@);
            let mut id = String::from_str(provider.as_str());
            id.append(":");
            id.append(catalog[i].as_str());
            kept.push(catalog[i].clone());
            ids.push(id);
            assert(string_views(ids@) =~= ids_before.push(qualified(provider, catalog@[i as int]@)));
            assert(string_views(ids@) =~= before + string_views(kept@).map_values(
                |model: Seq<char>| qualified(provider, model),
            ));
        }
        i = i + 1;
    }
    assert(names.take(catalog.len() as int) =~= names);
}

/// Appends to `ids` the identifiers of the models of `provider`.
fn push_models_of(ids: &mut Vec<String>, provider: ProviderKind)
    ensures
        string_views(final(ids)@) == string_views(old(ids)@) + model_ids(provider),
{
    let catalog = curated_models(provider);
    push_qualified(ids, provider, &catalog);
}

/// The identifiers of the models that `provider` is known to offer.
pub fn models_of(provider: ProviderKind) -> (ids: Vec<String>)
    ensures
        string_views(ids@) == model_ids(provider),
{
    let mut ids: Vec<String> = Vec::new();
    push_models_of(&mut ids, provider);
    ids
}

/// Lists the identifiers of the known models: those of the provider named by
/// `provider`, whatever its case, or those of every provider where none is
/// named.
///
/// Fails with `UnknownProvider`, naming the text and the supported set,
/// exactly when a provider is named that is not in the set.
pub fn list_models(provider: Option<&str>) -> (r: Result<Vec<String>, PipelineError>)
    ensures
        match r {
            Ok(ids) => listing(
                match provider {
                    Some(text) => Some(text@),
                    None => None,
                },
            ) == Ok::<Seq<Seq<char>>, PipelineErrorView>(string_views(ids@)),
            Err(e) => listing(
                match provider {
                    Some(text) => Some(text@),
                    None => None,
                },
            ) == Err::<Seq<Seq<char>>, PipelineErrorView>(e@),
        },
{
    match provider {
        Some(text) => {
            let kind = ProviderKind::parse(text)?;
            Ok(models_of(kind))
        },
        None => {
            let all = ProviderKind::all();
            let mut ids: Vec<String> = Vec::new();
            let mut i: usize = 0;
            while i < all.len()
                invariant
                    i <= all.len(),
                    all@ == all_providers(),
                    string_views(ids@) == model_ids_of_first(i as int),
                decreases all.len() - i,
            {
                push_models_of(&mut ids, all[i]);
                i = i + 1;
            }
            Ok(ids)
        },
    }
}

} // verus!
