//! What holds of reading and writing records.

use crate::json::{lemma_member_at, member_of, JsonValue};
use crate::providers::openrouter::schema::{
    all_texts, architecture_fields, architecture_of_fields, is_model_field, item_texts,
    model_fields, model_of_fields, optional_architecture_json, optional_architecture_of,
    optional_pricing_json, optional_pricing_of, optional_top_provider_json,
    optional_top_provider_of, pricing_fields, pricing_of_fields, texts_json, texts_of,
    top_provider_fields, top_provider_of_fields, Fields, ARCHITECTURE, CANONICAL_SLUG,
    COMPLETION, CONTEXT_LENGTH, CREATED, DESCRIPTION, ID, IMAGE, INPUT_CACHE_READ,
    INPUT_CACHE_WRITE, INPUT_MODALITIES, INSTRUCT_TYPE, INTERNAL_REASONING, IS_MODERATED,
    MAX_COMPLETION_TOKENS, NAME, OUTPUT_MODALITIES, PER_REQUEST_LIMITS, PRICING, PROMPT,
    REQUEST, SUPPORTED_PARAMETERS, TOKENIZER, TOP_PROVIDER, WEB_SEARCH,
};
use crate::providers::openrouter::schema::{all_models, catalog_of, keyed_models};
use crate::json::parsed;
use crate::providers::openrouter::{
    loaded, query_key, ArchitectureView, ModelView, PricingView, TopProvider, NAMESPACE_PREFIX,
};
use crate::snapshot::lemma_collected_empty;
use crate::text::{
    ascii_lower, lemma_lower_ignores_case, lemma_lower_joined, lemma_lower_twice,
    lemma_prefix_removed, same_ignoring_ascii_case, starts_with,
};
use vstd::prelude::*;

verus! {

/// Members that follow and have other names do not change what a name is given.
pub proof fn lemma_member_before(front: Fields, back: Fields, name: Seq<char>)
    requires
        forall|j: int| 0 <= j < back.len() ==> back[j].0 != name,
    ensures
        member_of(front + back, name) == member_of(front, name),
    decreases back.len(),
{
    if back.len() == 0 {
        assert(front + back =~= front);
    } else {
        let shorter = back.drop_last();
        assert((front + back).drop_last() =~= front + shorter);
        lemma_member_before(front, shorter, name);
    }
}

/// The names under which a record is written differ from one another.
pub proof fn lemma_model_names_differ(m: ModelView)
    ensures
        model_fields(m).len() == 11,
        forall|i: int, j: int|
            0 <= i < j < 11 ==> (#[trigger] model_fields(m)[i]).0 != (#[trigger] model_fields(
                m,
            )[j]).0,
{
    reveal_strlit("id");
    reveal_strlit("canonical_slug");
    reveal_strlit("name");
    reveal_strlit("created");
    reveal_strlit("description");
    reveal_strlit("context_length");
    reveal_strlit("architecture");
    reveal_strlit("pricing");
    reveal_strlit("top_provider");
    reveal_strlit("per_request_limits");
    reveal_strlit("supported_parameters");
    assert(CANONICAL_SLUG@[1] == 'a' && CONTEXT_LENGTH@[1] == 'o');
    assert(CREATED@[0] == 'c' && PRICING@[0] == 'p');
    assert(ARCHITECTURE@[0] == 'a' && TOP_PROVIDER@[0] == 't');
    let f = model_fields(m);
    assert(f[0].0.len() == 2);
    assert(f[1].0.len() == 14 && f[1].0[1] == 'a');
    assert(f[2].0.len() == 4);
    assert(f[3].0.len() == 7 && f[3].0[0] == 'c');
    assert(f[4].0.len() == 11);
    assert(f[5].0.len() == 14 && f[5].0[1] == 'o');
    assert(f[6].0.len() == 12 && f[6].0[0] == 'a');
    assert(f[7].0.len() == 7 && f[7].0[0] == 'p');
    assert(f[8].0.len() == 12 && f[8].0[0] == 't');
    assert(f[9].0.len() == 18);
    assert(f[10].0.len() == 20);
}

/// The names under which an architecture is written differ from one another.
pub proof fn lemma_architecture_names_differ(a: ArchitectureView)
    ensures
        architecture_fields(a).len() == 4,
        forall|i: int, j: int|
            0 <= i < j < 4 ==> (#[trigger] architecture_fields(a)[i]).0
                != (#[trigger] architecture_fields(a)[j]).0,
{
    reveal_strlit("input_modalities");
    reveal_strlit("output_modalities");
    reveal_strlit("tokenizer");
    reveal_strlit("instruct_type");
    let f = architecture_fields(a);
    assert(f[0].0.len() == 16);
    assert(f[1].0.len() == 17);
    assert(f[2].0.len() == 9);
    assert(f[3].0.len() == 13);
}

/// The names under which a pricing is written differ from one another.
pub proof fn lemma_pricing_names_differ(p: PricingView)
    ensures
        pricing_fields(p).len() == 8,
        forall|i: int, j: int|
            0 <= i < j < 8 ==> (#[trigger] pricing_fields(p)[i]).0 != (#[trigger] pricing_fields(
                p,
            )[j]).0,
{
    reveal_strlit("prompt");
    reveal_strlit("completion");
    reveal_strlit("request");
    reveal_strlit("image");
    reveal_strlit("web_search");
    reveal_strlit("internal_reasoning");
    reveal_strlit("input_cache_read");
    reveal_strlit("input_cache_write");
    let f = pricing_fields(p);
    assert(f[0].0.len() == 6);
    assert(f[1].0.len() == 10 && f[1].0[0] == 'c');
    assert(f[2].0.len() == 7);
    assert(f[3].0.len() == 5);
    assert(f[4].0.len() == 10 && f[4].0[0] == 'w');
    assert(f[5].0.len() == 18);
    assert(f[6].0.len() == 16);
    assert(f[7].0.len() == 17);
}

/// The names under which the limits of the first provider are written differ
/// from one another.
pub proof fn lemma_top_provider_names_differ(t: TopProvider)
    ensures
        top_provider_fields(t).len() == 3,
        forall|i: int, j: int|
            0 <= i < j < 3 ==> (#[trigger] top_provider_fields(t)[i]).0
                != (#[trigger] top_provider_fields(t)[j]).0,
{
    reveal_strlit("context_length");
    reveal_strlit("max_completion_tokens");
    reveal_strlit("is_moderated");
    let f = top_provider_fields(t);
    assert(f[0].0.len() == 14);
    assert(f[1].0.len() == 21);
    assert(f[2].0.len() == 12);
}

/// A list of texts that is written and read again is the same list.
pub proof fn lemma_texts_round_trip(texts: Seq<Seq<char>>)
    ensures
        texts_of(Some(texts_json(texts))) == Some(texts),
{
    let items = texts_json(texts)->Array_0;
    assert(all_texts(items));
    assert(item_texts(items) =~= texts);
}

/// An architecture that is written and read again is the same architecture.
pub proof fn lemma_architecture_round_trip(a: ArchitectureView)
    ensures
        architecture_of_fields(architecture_fields(a)) == Some(a),
        optional_architecture_of(Some(optional_architecture_json(Some(a)))) == Some(Some(a)),
{
    let f = architecture_fields(a);
    lemma_architecture_names_differ(a);
    lemma_member_at(f, 0);
    lemma_member_at(f, 1);
    lemma_member_at(f, 2);
    lemma_member_at(f, 3);
    lemma_texts_round_trip(a.input_modalities);
    lemma_texts_round_trip(a.output_modalities);
}

/// A pricing that is written and read again is the same pricing.
pub proof fn lemma_pricing_round_trip(p: PricingView)
    ensures
        pricing_of_fields(pricing_fields(p)) == Some(p),
        optional_pricing_of(Some(optional_pricing_json(Some(p)))) == Some(Some(p)),
{
    let f = pricing_fields(p);
    lemma_pricing_names_differ(p);
    lemma_member_at(f, 0);
    lemma_member_at(f, 1);
    lemma_member_at(f, 2);
    lemma_member_at(f, 3);
    lemma_member_at(f, 4);
    lemma_member_at(f, 5);
    lemma_member_at(f, 6);
    lemma_member_at(f, 7);
}

/// Limits of the first provider that are written and read again are the same
/// limits.
pub proof fn lemma_top_provider_round_trip(t: TopProvider)
    ensures
        top_provider_of_fields(top_provider_fields(t)) == Some(t),
        optional_top_provider_of(Some(optional_top_provider_json(Some(t)))) == Some(Some(t)),
{
    let f = top_provider_fields(t);
    lemma_top_provider_names_differ(t);
    lemma_member_at(f, 0);
    lemma_member_at(f, 1);
    lemma_member_at(f, 2);
}

/// A record that is written and read again is the same record, whatever
/// members of other names are written after it. The one record of which this
/// cannot hold is left out: a JSON null kept as free-form limits is written as
/// null, which reads as no limits.
pub proof fn lemma_model_round_trip(m: ModelView, extra: Fields)
    requires
        m.per_request_limits != Some(JsonValue::Null),
        forall|j: int| 0 <= j < extra.len() ==> !is_model_field(extra[j].0),
    ensures
        model_of_fields(model_fields(m) + extra) == Some(m),
{
    let f = model_fields(m);
    lemma_model_names_differ(m);
    lemma_member_at(f, 0);
    lemma_member_at(f, 1);
    lemma_member_at(f, 2);
    lemma_member_at(f, 3);
    lemma_member_at(f, 4);
    lemma_member_at(f, 5);
    lemma_member_at(f, 6);
    lemma_member_at(f, 7);
    lemma_member_at(f, 8);
    lemma_member_at(f, 9);
    lemma_member_at(f, 10);
    lemma_member_before(f, extra, ID@);
    lemma_member_before(f, extra, CANONICAL_SLUG@);
    lemma_member_before(f, extra, NAME@);
    lemma_member_before(f, extra, CREATED@);
    lemma_member_before(f, extra, DESCRIPTION@);
    lemma_member_before(f, extra, CONTEXT_LENGTH@);
    lemma_member_before(f, extra, ARCHITECTURE@);
    lemma_member_before(f, extra, PRICING@);
    lemma_member_before(f, extra, TOP_PROVIDER@);
    lemma_member_before(f, extra, PER_REQUEST_LIMITS@);
    lemma_member_before(f, extra, SUPPORTED_PARAMETERS@);
    lemma_texts_round_trip(m.supported_parameters);
    if m.architecture is Some {
        lemma_architecture_round_trip(m.architecture->0);
    }
    if m.pricing is Some {
        lemma_pricing_round_trip(m.pricing->0);
    }
    if m.top_provider is Some {
        lemma_top_provider_round_trip(m.top_provider->0);
    }
}

/// A field of an architecture whose member is absent takes its default, and
/// reading fails only over a member that is there.
pub proof fn lemma_absent_architecture_fields(fields: Fields)
    ensures
        match architecture_of_fields(fields) {
            Some(a) => {
                &&& member_of(fields, INPUT_MODALITIES@) is None ==> a.input_modalities
                    == Seq::<Seq<char>>::empty()
                &&& member_of(fields, OUTPUT_MODALITIES@) is None ==> a.output_modalities
                    == Seq::<Seq<char>>::empty()
                &&& member_of(fields, TOKENIZER@) is None ==> a.tokenizer == Seq::<char>::empty()
                &&& member_of(fields, INSTRUCT_TYPE@) is None ==> a.instruct_type is None
            },
            None => {
                ||| member_of(fields, INPUT_MODALITIES@) is Some
                ||| member_of(fields, OUTPUT_MODALITIES@) is Some
                ||| member_of(fields, TOKENIZER@) is Some
                ||| member_of(fields, INSTRUCT_TYPE@) is Some
            },
        },
        architecture_of_fields(Seq::empty()) == Some(ArchitectureView::empty()),
{
}

/// A field of a pricing whose member is absent is absent, and reading fails
/// only over a member that is there.
pub proof fn lemma_absent_pricing_fields(fields: Fields)
    ensures
        match pricing_of_fields(fields) {
            Some(p) => {
                &&& member_of(fields, PROMPT@) is None ==> p.prompt is None
                &&& member_of(fields, COMPLETION@) is None ==> p.completion is None
                &&& member_of(fields, REQUEST@) is None ==> p.request is None
                &&& member_of(fields, IMAGE@) is None ==> p.image is None
                &&& member_of(fields, WEB_SEARCH@) is None ==> p.web_search is None
                &&& member_of(fields, INTERNAL_REASONING@) is None ==> p.internal_reasoning is None
                &&& member_of(fields, INPUT_CACHE_READ@) is None ==> p.input_cache_read is None
                &&& member_of(fields, INPUT_CACHE_WRITE@) is None ==> p.input_cache_write is None
            },
            None => {
                ||| member_of(fields, PROMPT@) is Some
                ||| member_of(fields, COMPLETION@) is Some
                ||| member_of(fields, REQUEST@) is Some
                ||| member_of(fields, IMAGE@) is Some
                ||| member_of(fields, WEB_SEARCH@) is Some
                ||| member_of(fields, INTERNAL_REASONING@) is Some
                ||| member_of(fields, INPUT_CACHE_READ@) is Some
                ||| member_of(fields, INPUT_CACHE_WRITE@) is Some
            },
        },
        pricing_of_fields(Seq::empty()) == Some(PricingView::empty()),
{
}

/// A limit of the first provider whose member is absent is absent, and
/// reading fails only over a member that is there.
pub proof fn lemma_absent_top_provider_fields(fields: Fields)
    ensures
        match top_provider_of_fields(fields) {
            Some(t) => {
                &&& member_of(fields, CONTEXT_LENGTH@) is None ==> t.context_length is None
                &&& member_of(fields, MAX_COMPLETION_TOKENS@) is None ==> t.max_completion_tokens
                    is None
                &&& member_of(fields, IS_MODERATED@) is None ==> t.is_moderated is None
            },
            None => {
                ||| member_of(fields, CONTEXT_LENGTH@) is Some
                ||| member_of(fields, MAX_COMPLETION_TOKENS@) is Some
                ||| member_of(fields, IS_MODERATED@) is Some
            },
        },
        top_provider_of_fields(Seq::empty()) == Some(
            TopProvider { context_length: None, max_completion_tokens: None, is_moderated: None },
        ),
{
}

/// A field of a record whose member is absent takes its default (the empty
/// text, the empty list, or no value), and reading fails only over a member
/// that is there: the object without members reads as the empty record.
pub proof fn lemma_absent_model_fields(fields: Fields)
    ensures
        match model_of_fields(fields) {
            Some(m) => {
                &&& member_of(fields, ID@) is None ==> m.id == Seq::<char>::empty()
                &&& member_of(fields, CANONICAL_SLUG@) is None ==> m.canonical_slug == Seq::<
                    char,
                >::empty()
                &&& member_of(fields, NAME@) is None ==> m.name == Seq::<char>::empty()
                &&& member_of(fields, CREATED@) is None ==> m.created is None
                &&& member_of(fields, DESCRIPTION@) is None ==> m.description == Seq::<
                    char,
                >::empty()
                &&& member_of(fields, CONTEXT_LENGTH@) is None ==> m.context_length is None
                &&& member_of(fields, ARCHITECTURE@) is None ==> m.architecture is None
                &&& member_of(fields, PRICING@) is None ==> m.pricing is None
                &&& member_of(fields, TOP_PROVIDER@) is None ==> m.top_provider is None
                &&& member_of(fields, PER_REQUEST_LIMITS@) is None ==> m.per_request_limits
                    is None
                &&& member_of(fields, SUPPORTED_PARAMETERS@) is None ==> m.supported_parameters
                    == Seq::<Seq<char>>::empty()
            },
            None => exists|name: Seq<char>|
                #![trigger is_model_field(name)]
                is_model_field(name) && name != PER_REQUEST_LIMITS@ && member_of(fields, name)
                    is Some,
        },
        model_of_fields(Seq::empty()) == Some(ModelView::empty()),
{
    if model_of_fields(fields) is None {
        assert(is_model_field(ID@));
        assert(is_model_field(CANONICAL_SLUG@));
        assert(is_model_field(NAME@));
        assert(is_model_field(CREATED@));
        assert(is_model_field(DESCRIPTION@));
        assert(is_model_field(CONTEXT_LENGTH@));
        assert(is_model_field(ARCHITECTURE@));
        assert(is_model_field(PRICING@));
        assert(is_model_field(TOP_PROVIDER@));
        assert(is_model_field(SUPPORTED_PARAMETERS@));
        lemma_model_names_differ(ModelView::empty());
        let f = model_fields(ModelView::empty());
        assert(f[9].0 == PER_REQUEST_LIMITS@);
        assert(f[0].0 == ID@ && f[1].0 == CANONICAL_SLUG@ && f[2].0 == NAME@ && f[3].0 == CREATED@
            && f[4].0 == DESCRIPTION@ && f[5].0 == CONTEXT_LENGTH@ && f[6].0 == ARCHITECTURE@
            && f[7].0 == PRICING@ && f[8].0 == TOP_PROVIDER@ && f[10].0
            == SUPPORTED_PARAMETERS@);
    }
}

/// A lookup does not tell the case of ASCII letters in the query: queries
/// that differ at most in it are looked up under one key.
pub proof fn lemma_query_ignores_case(a: Seq<char>, b: Seq<char>)
    requires
        same_ignoring_ascii_case(a, b),
    ensures
        query_key(a) == query_key(b),
{
    lemma_lower_ignores_case(a, b);
}

/// A query in lower case is looked up under the key of the query itself.
pub proof fn lemma_query_in_lower_case(id: Seq<char>)
    ensures
        query_key(ascii_lower(id)) == query_key(id),
{
    lemma_lower_twice(id);
}

/// A key is in lower case: no query is looked up under a key that holds an
/// ASCII capital letter, so a record stored under such a key is never found.
pub proof fn lemma_key_in_lower_case(id: Seq<char>)
    ensures
        ascii_lower(query_key(id)) == query_key(id),
{
    lemma_lower_twice(id);
    let lowered = ascii_lower(id);
    let key = query_key(id);
    assert(ascii_lower(key) =~= key) by {
        assert forall|i: int| 0 <= i < key.len() implies ascii_lower(key)[i] == key[i] by {
            if starts_with(lowered, NAMESPACE_PREFIX@) {
                assert(key[i] == lowered[i + NAMESPACE_PREFIX@.len()]);
                assert(ascii_lower(lowered)[i + NAMESPACE_PREFIX@.len()] == lowered[i
                    + NAMESPACE_PREFIX@.len()]);
            } else {
                assert(ascii_lower(lowered)[i] == lowered[i]);
            }
        }
    }
}

/// The provider's prefix is in lower case.
pub proof fn lemma_prefix_in_lower_case()
    ensures
        ascii_lower(NAMESPACE_PREFIX@) == NAMESPACE_PREFIX@,
{
    reveal_strlit("openrouter/");
    let p = NAMESPACE_PREFIX@;
    assert(p.len() == 11);
    assert(p[0] == 'o' && p[1] == 'p' && p[2] == 'e' && p[3] == 'n' && p[4] == 'r' && p[5] == 'o'
        && p[6] == 'u' && p[7] == 't' && p[8] == 'e' && p[9] == 'r' && p[10] == '/');
    assert(ascii_lower(p) =~= p);
}

/// A lookup takes the provider's prefix away once, and only from the front:
/// a query with the prefix is looked up as the query without it, a second
/// prefix stays, and a query without the prefix is looked up as it is, in
/// lower case.
pub proof fn lemma_query_strips_one_prefix(id: Seq<char>)
    ensures
        query_key(NAMESPACE_PREFIX@ + id) == ascii_lower(id),
        query_key(NAMESPACE_PREFIX@ + (NAMESPACE_PREFIX@ + id)) == NAMESPACE_PREFIX@ + ascii_lower(
            id,
        ),
        !starts_with(ascii_lower(id), NAMESPACE_PREFIX@) ==> query_key(id) == ascii_lower(id),
{
    let p = NAMESPACE_PREFIX@;
    lemma_prefix_in_lower_case();
    lemma_lower_joined(p, id);
    lemma_prefix_removed(p, ascii_lower(id));
    lemma_lower_joined(p, p + id);
    lemma_prefix_removed(p, p + ascii_lower(id));
}

/// A snapshot whose members all hold records gives a catalog without keys
/// exactly where it has no members.
pub proof fn lemma_catalog_empty(fields: Fields)
    requires
        all_models(fields),
    ensures
        catalog_of(JsonValue::Object(fields)) is Some,
        catalog_of(JsonValue::Object(fields))->0.len() == 0 <==> fields.len() == 0,
{
    lemma_collected_empty(keyed_models(fields));
}

/// The catalog that is loaded from a snapshot text has no keys where the
/// snapshot is the object without members, and has keys where the snapshot
/// is an object with members that all hold records.
pub proof fn lemma_loaded_empty(text: Seq<char>, fields: Fields)
    requires
        parsed(text) == Some(JsonValue::Object(fields)),
        all_models(fields),
    ensures
        loaded(text).len() == 0 <==> fields.len() == 0,
{
    lemma_catalog_empty(fields);
}

} // verus!
