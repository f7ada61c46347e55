//! The records of the OpenRouter catalog.

use crate::json::{members_view, parsed, Json, JsonValue};
use crate::providers::openrouter::schema::{catalog_of, keyed_models, model_of};
use crate::snapshot::{
    collected, lemma_collected_next, lemma_map_of, lemma_mapped_inserted, lemma_position, mapped,
    position, Entries, Snapshot,
};
use crate::text::{
    ascii_lower, copy_optional_text, copy_texts, lower_case, optional_text_view, strip_leading,
    texts_view, without_prefix,
};
use vstd::prelude::*;

pub mod decode;
pub mod encode;
pub mod laws;
pub mod schema;

verus! {

/// What a model takes in and gives out, and how it tokenizes.
#[derive(Debug)]
pub struct Architecture {
    pub input_modalities: Vec<String>,
    pub output_modalities: Vec<String>,
    pub tokenizer: String,
    pub instruct_type: Option<String>,
}

/// Prices, each kept as the decimal text that the provider sent.
#[derive(Debug)]
pub struct Pricing {
    pub prompt: Option<String>,
    pub completion: Option<String>,
    pub request: Option<String>,
    pub image: Option<String>,
    pub web_search: Option<String>,
    pub internal_reasoning: Option<String>,
    pub input_cache_read: Option<String>,
    pub input_cache_write: Option<String>,
}

/// The limits of the provider that serves a model first.
#[derive(Debug, Clone, Copy, PartialEq, Eq, Structural)]
pub struct TopProvider {
    pub context_length: Option<u64>,
    pub max_completion_tokens: Option<u64>,
    pub is_moderated: Option<bool>,
}

/// One model of the catalog. Only `id` carries meaning for the catalog: it is
/// the key under which the record is stored.
#[derive(Debug)]
pub struct OpenRouterModel {
    pub id: String,
    pub canonical_slug: String,
    pub name: String,
    pub created: Option<u64>,
    pub description: String,
    pub context_length: Option<u64>,
    pub architecture: Option<Architecture>,
    pub pricing: Option<Pricing>,
    pub top_provider: Option<TopProvider>,
    pub per_request_limits: Option<Json>,
    pub supported_parameters: Vec<String>,
}

/// The mathematical value of an [`Architecture`].
pub struct ArchitectureView {
    pub input_modalities: Seq<Seq<char>>,
    pub output_modalities: Seq<Seq<char>>,
    pub tokenizer: Seq<char>,
    pub instruct_type: Option<Seq<char>>,
}

/// The mathematical value of a [`Pricing`].
pub struct PricingView {
    pub prompt: Option<Seq<char>>,
    pub completion: Option<Seq<char>>,
    pub request: Option<Seq<char>>,
    pub image: Option<Seq<char>>,
    pub web_search: Option<Seq<char>>,
    pub internal_reasoning: Option<Seq<char>>,
    pub input_cache_read: Option<Seq<char>>,
    pub input_cache_write: Option<Seq<char>>,
}

/// The mathematical value of an [`OpenRouterModel`].
pub struct ModelView {
    pub id: Seq<char>,
    pub canonical_slug: Seq<char>,
    pub name: Seq<char>,
    pub created: Option<u64>,
    pub description: Seq<char>,
    pub context_length: Option<u64>,
    pub architecture: Option<ArchitectureView>,
    pub pricing: Option<PricingView>,
    pub top_provider: Option<TopProvider>,
    pub per_request_limits: Option<JsonValue>,
    pub supported_parameters: Seq<Seq<char>>,
}

impl View for Architecture {
    type V = ArchitectureView;

    open spec fn view(&self) -> ArchitectureView {
        ArchitectureView {
            input_modalities: texts_view(self.input_modalities@),
            output_modalities: texts_view(self.output_modalities@),
            tokenizer: self.tokenizer@,
            instruct_type: optional_text_view(self.instruct_type),
        }
    }
}

impl View for Pricing {
    type V = PricingView;

    open spec fn view(&self) -> PricingView {
        PricingView {
            prompt: optional_text_view(self.prompt),
            completion: optional_text_view(self.completion),
            request: optional_text_view(self.request),
            image: optional_text_view(self.image),
            web_search: optional_text_view(self.web_search),
            internal_reasoning: optional_text_view(self.internal_reasoning),
            input_cache_read: optional_text_view(self.input_cache_read),
            input_cache_write: optional_text_view(self.input_cache_write),
        }
    }
}

impl View for OpenRouterModel {
    type V = ModelView;

    open spec fn view(&self) -> ModelView {
        ModelView {
            id: self.id@,
            canonical_slug: self.canonical_slug@,
            name: self.name@,
            created: self.created,
            description: self.description@,
            context_length: self.context_length,
            architecture: match self.architecture {
                Some(a) => Some(a@),
                None => None,
            },
            pricing: match self.pricing {
                Some(p) => Some(p@),
                None => None,
            },
            top_provider: self.top_provider,
            per_request_limits: match self.per_request_limits {
                Some(j) => Some(j@),
                None => None,
            },
            supported_parameters: texts_view(self.supported_parameters@),
        }
    }
}

impl ArchitectureView {
    /// The architecture of which nothing is known.
    pub open spec fn empty() -> ArchitectureView {
        ArchitectureView {
            input_modalities: Seq::empty(),
            output_modalities: Seq::empty(),
            tokenizer: Seq::empty(),
            instruct_type: None,
        }
    }
}

impl PricingView {
    /// The pricing of which nothing is known.
    pub open spec fn empty() -> PricingView {
        PricingView {
            prompt: None,
            completion: None,
            request: None,
            image: None,
            web_search: None,
            internal_reasoning: None,
            input_cache_read: None,
            input_cache_write: None,
        }
    }
}

impl ModelView {
    /// The record of which nothing is known: every text and list empty,
    /// every optional part absent.
    pub open spec fn empty() -> ModelView {
        ModelView {
            id: Seq::empty(),
            canonical_slug: Seq::empty(),
            name: Seq::empty(),
            created: None,
            description: Seq::empty(),
            context_length: None,
            architecture: None,
            pricing: None,
            top_provider: None,
            per_request_limits: None,
            supported_parameters: Seq::empty(),
        }
    }
}

impl Default for Architecture {
    fn default() -> (r: Self)
        ensures
            r@ == ArchitectureView::empty(),
    {
        let r = Architecture {
            input_modalities: Vec::new(),
            output_modalities: Vec::new(),
            tokenizer: String::new(),
            instruct_type: None,
        };
        assert(r@.input_modalities =~= Seq::empty());
        assert(r@.output_modalities =~= Seq::empty());
        r
    }
}

impl Default for Pricing {
    fn default() -> (r: Self)
        ensures
            r@ == PricingView::empty(),
    {
        Pricing {
            prompt: None,
            completion: None,
            request: None,
            image: None,
            web_search: None,
            internal_reasoning: None,
            input_cache_read: None,
            input_cache_write: None,
        }
    }
}

impl Default for TopProvider {
    fn default() -> (r: Self)
        ensures
            r == (TopProvider { context_length: None, max_completion_tokens: None, is_moderated: None }),
    {
        TopProvider { context_length: None, max_completion_tokens: None, is_moderated: None }
    }
}

impl Default for OpenRouterModel {
    fn default() -> (r: Self)
        ensures
            r@ == ModelView::empty(),
    {
        let r = OpenRouterModel {
            id: String::new(),
            canonical_slug: String::new(),
            name: String::new(),
            created: None,
            description: String::new(),
            context_length: None,
            architecture: None,
            pricing: None,
            top_provider: None,
            per_request_limits: None,
            supported_parameters: Vec::new(),
        };
        assert(r@.supported_parameters =~= Seq::empty());
        r
    }
}

impl Clone for Architecture {
    fn clone(&self) -> (r: Self)
        ensures
            r@ == self@,
    {
        Architecture {
            input_modalities: copy_texts(&self.input_modalities),
            output_modalities: copy_texts(&self.output_modalities),
            tokenizer: self.tokenizer.clone(),
            instruct_type: copy_optional_text(&self.instruct_type),
        }
    }
}

impl Clone for Pricing {
    fn clone(&self) -> (r: Self)
        ensures
            r@ == self@,
    {
        Pricing {
            prompt: copy_optional_text(&self.prompt),
            completion: copy_optional_text(&self.completion),
            request: copy_optional_text(&self.request),
            image: copy_optional_text(&self.image),
            web_search: copy_optional_text(&self.web_search),
            internal_reasoning: copy_optional_text(&self.internal_reasoning),
            input_cache_read: copy_optional_text(&self.input_cache_read),
            input_cache_write: copy_optional_text(&self.input_cache_write),
        }
    }
}

impl Clone for OpenRouterModel {
    fn clone(&self) -> (r: Self)
        ensures
            r@ == self@,
    {
        OpenRouterModel {
            id: self.id.clone(),
            canonical_slug: self.canonical_slug.clone(),
            name: self.name.clone(),
            created: self.created,
            description: self.description.clone(),
            context_length: self.context_length,
            architecture: match &self.architecture {
                Some(a) => Some(a.clone()),
                None => None,
            },
            pricing: match &self.pricing {
                Some(p) => Some(p.clone()),
                None => None,
            },
            top_provider: self.top_provider,
            per_request_limits: match &self.per_request_limits {
                Some(j) => Some(j.clone()),
                None => None,
            },
            supported_parameters: copy_texts(&self.supported_parameters),
        }
    }
}

/// The records of the catalog, keyed by the key under which the snapshot
/// holds each.
pub type Catalog = Snapshot<OpenRouterModel>;

/// The prefix that names this provider in front of a model id.
pub const NAMESPACE_PREFIX: &'static str = "openrouter/";

/// The function that gives a record its value.
pub open spec fn model_view() -> spec_fn(OpenRouterModel) -> ModelView {
    |m: OpenRouterModel| m@
}

/// The entries of a catalog with each record as its value.
pub open spec fn models_view(entries: Entries<OpenRouterModel>) -> Entries<ModelView> {
    mapped(entries, model_view())
}

/// The key under which a query is looked up: the query in ASCII lower case,
/// without the provider's prefix where it begins with it.
pub open spec fn query_key(id: Seq<char>) -> Seq<char> {
    without_prefix(ascii_lower(id), NAMESPACE_PREFIX@)
}

/// The catalog that a snapshot text holds, and the empty catalog where the
/// text is no JSON or the JSON is no catalog.
pub open spec fn loaded(text: Seq<char>) -> Entries<ModelView> {
    match parsed(text) {
        Some(value) => match catalog_of(value) {
            Some(entries) => entries,
            None => Seq::empty(),
        },
        None => Seq::empty(),
    }
}

/// Brings a query into the form of a key.
pub fn normalize_query(id: &str) -> (r: String)
    ensures
        r@ == query_key(id@),
{
    strip_leading(lower_case(id), NAMESPACE_PREFIX)
}

/// Reads a catalog out of a JSON value: an object whose members hold a
/// record each. Of two members of one name the later is kept.
pub fn catalog_from_json(json: &Json) -> (r: Option<Catalog>)
    ensures
        match r {
            Some(catalog) => catalog_of(json@) == Some(models_view(catalog.entries())),
            None => catalog_of(json@) is None,
        },
{
    let members = match json.as_members() {
        Some(members) => members,
        None => {
            return None;
        },
    };
    let ghost fields = members_view(members@);
    let mut catalog: Catalog = Snapshot::new();
    assert(models_view(catalog.entries()) =~= collected(keyed_models(fields).take(0)));
    let mut i: usize = 0;
    while i < members.len()
        invariant
            i <= members.len(),
            fields == members_view(members@),
            json@ == JsonValue::Object(fields),
            forall|k: int| 0 <= k < i ==> model_of(#[trigger] fields[k].1) is Some,
            models_view(catalog.entries()) == collected(keyed_models(fields).take(i as int)),
        decreases members.len() - i,
    {
        let member = &members[i];
        match OpenRouterModel::from_json(&member.value) {
            None => {
                assert(model_of(fields[i as int].1) is None);
                return None;
            },
            Some(model) => {
                proof {
                    lemma_collected_next(keyed_models(fields), i as int);
                    lemma_mapped_inserted(catalog.entries(), model_view(), member.name@, model);
                }
                catalog.insert(member.name.clone(), model);
            },
        }
        i += 1;
    }
    assert(keyed_models(fields).take(i as int) =~= keyed_models(fields));
    Some(catalog)
}

/// Loads the catalog from the text of a snapshot. A text that is no JSON, or
/// whose JSON is no catalog, gives the empty catalog.
pub fn load_catalog(text: &str) -> (r: Catalog)
    ensures
        models_view(r.entries()) == loaded(text@),
{
    let found = match Json::parse(text) {
        Ok(json) => catalog_from_json(&json),
        Err(_) => None,
    };
    match found {
        Some(catalog) => catalog,
        None => {
            let empty: Catalog = Snapshot::new();
            assert(models_view(empty.entries()) =~= Seq::empty());
            empty
        },
    }
}

/// Looks a model up by id. The query is brought into the form of a key
/// (ASCII lower case, the provider's prefix taken away once) and the record
/// stored under exactly that key is returned, if there is one.
pub fn get_model<'a>(catalog: &'a Catalog, id: &str) -> (r: Option<&'a OpenRouterModel>)
    ensures
        r == (if catalog@.dom().contains(query_key(id@)) {
            Some(&catalog@[query_key(id@)])
        } else {
            None
        }),
{
    let key = normalize_query(id);
    catalog.get(&key)
}

/// The texts of a list of ids.
pub open spec fn ids_view(ids: Seq<&str>) -> Seq<Seq<char>> {
    Seq::new(ids.len(), |i: int| ids[i]@)
}

/// Lists every key of the catalog, each once, in the order of the snapshot.
pub fn list_model_ids<'a>(catalog: &'a Catalog) -> (r: Vec<&'a str>)
    ensures
        r@.len() == catalog.entries().len(),
        forall|i: int| 0 <= i < r@.len() ==> r@[i]@ == catalog.entries()[i].0,
        forall|i: int, j: int| 0 <= i < j < r@.len() ==> r@[i]@ != r@[j]@,
        ids_view(r@).to_set() == catalog@.dom(),
{
    let mut ids: Vec<&'a str> = Vec::new();
    let count = catalog.len();
    let mut i: usize = 0;
    while i < count
        invariant
            i <= count,
            count == catalog.entries().len(),
            ids@.len() == i,
            forall|k: int| 0 <= k < i ==> ids@[k]@ == catalog.entries()[k].0,
        decreases count - i,
    {
        ids.push(catalog.key_at(i).as_str());
        i += 1;
    }
    proof {
        let entries = catalog.entries();
        assert forall|key: Seq<char>| ids_view(ids@).to_set().contains(key)
            == catalog@.dom().contains(key) by {
            lemma_position(entries, key);
            lemma_map_of(entries, key);
            if ids_view(ids@).contains(key) {
                let i = choose|i: int| 0 <= i < ids_view(ids@).len() && ids_view(ids@)[i] == key;
                assert(entries[i].0 == key);
            }
            if position(entries, key) is Some {
                let p = position(entries, key)->0;
                assert(ids_view(ids@)[p] == key);
            }
        }
        assert(ids_view(ids@).to_set() =~= catalog@.dom());
    }
    ids
}

} // verus!
