//! The JSON shape of the catalog's records: which member of an object holds
//! which field, what stands for a field that is absent, and what is malformed.

use crate::json::{member_of, JsonValue, NumberValue};
use crate::providers::openrouter::{ArchitectureView, ModelView, PricingView, TopProvider};
use crate::snapshot::{collected, Entries};
use vstd::prelude::*;

verus! {

/// The members of a JSON object.
pub type Fields = Seq<(Seq<char>, JsonValue)>;

pub const ID: &'static str = "id";

pub const CANONICAL_SLUG: &'static str = "canonical_slug";

pub const NAME: &'static str = "name";

pub const CREATED: &'static str = "created";

pub const DESCRIPTION: &'static str = "description";

pub const CONTEXT_LENGTH: &'static str = "context_length";

pub const ARCHITECTURE: &'static str = "architecture";

pub const PRICING: &'static str = "pricing";

pub const TOP_PROVIDER: &'static str = "top_provider";

pub const PER_REQUEST_LIMITS: &'static str = "per_request_limits";

pub const SUPPORTED_PARAMETERS: &'static str = "supported_parameters";

pub const INPUT_MODALITIES: &'static str = "input_modalities";

pub const OUTPUT_MODALITIES: &'static str = "output_modalities";

pub const TOKENIZER: &'static str = "tokenizer";

pub const INSTRUCT_TYPE: &'static str = "instruct_type";

pub const PROMPT: &'static str = "prompt";

pub const COMPLETION: &'static str = "completion";

pub const REQUEST: &'static str = "request";

pub const IMAGE: &'static str = "image";

pub const WEB_SEARCH: &'static str = "web_search";

pub const INTERNAL_REASONING: &'static str = "internal_reasoning";

pub const INPUT_CACHE_READ: &'static str = "input_cache_read";

pub const INPUT_CACHE_WRITE: &'static str = "input_cache_write";

pub const MAX_COMPLETION_TOKENS: &'static str = "max_completion_tokens";

pub const IS_MODERATED: &'static str = "is_moderated";

pub const DATA: &'static str = "data";

/// A text: the empty text where the member is absent, the text of a JSON
/// string, and malformed (`None`) for anything else.
pub open spec fn text_of(member: Option<JsonValue>) -> Option<Seq<char>> {
    match member {
        None => Some(Seq::empty()),
        Some(JsonValue::Text(text)) => Some(text),
        Some(_) => None,
    }
}

/// An optional text: absent where the member is absent or null.
pub open spec fn optional_text_of(member: Option<JsonValue>) -> Option<Option<Seq<char>>> {
    match member {
        None => Some(None),
        Some(JsonValue::Null) => Some(None),
        Some(JsonValue::Text(text)) => Some(Some(text)),
        Some(_) => None,
    }
}

/// An optional unsigned integer: absent where the member is absent or null.
pub open spec fn optional_unsigned_of(member: Option<JsonValue>) -> Option<Option<u64>> {
    match member {
        None => Some(None),
        Some(JsonValue::Null) => Some(None),
        Some(JsonValue::Number(NumberValue::Unsigned(n))) => Some(Some(n)),
        Some(_) => None,
    }
}

/// An optional flag: absent where the member is absent or null.
pub open spec fn optional_flag_of(member: Option<JsonValue>) -> Option<Option<bool>> {
    match member {
        None => Some(None),
        Some(JsonValue::Null) => Some(None),
        Some(JsonValue::Bool(b)) => Some(Some(b)),
        Some(_) => None,
    }
}

/// Every item is a JSON string.
pub open spec fn all_texts(items: Seq<JsonValue>) -> bool {
    forall|i: int| 0 <= i < items.len() ==> items[i] is Text
}

/// The texts of items that are JSON strings.
pub open spec fn item_texts(items: Seq<JsonValue>) -> Seq<Seq<char>> {
    Seq::new(items.len(), |i: int| items[i]->Text_0)
}

/// A list of texts: empty where the member is absent, the texts of an array
/// of JSON strings, and malformed for anything else.
pub open spec fn texts_of(member: Option<JsonValue>) -> Option<Seq<Seq<char>>> {
    match member {
        None => Some(Seq::empty()),
        Some(JsonValue::Array(items)) => if all_texts(items) {
            Some(item_texts(items))
        } else {
            None
        },
        Some(_) => None,
    }
}

/// A value of any shape: absent where the member is absent or null.
pub open spec fn optional_value_of(member: Option<JsonValue>) -> Option<JsonValue> {
    match member {
        None => None,
        Some(JsonValue::Null) => None,
        Some(value) => Some(value),
    }
}

/// The architecture that the members of an object hold.
pub open spec fn architecture_of_fields(fields: Fields) -> Option<ArchitectureView> {
    let input_modalities = texts_of(member_of(fields, INPUT_MODALITIES@));
    let output_modalities = texts_of(member_of(fields, OUTPUT_MODALITIES@));
    let tokenizer = text_of(member_of(fields, TOKENIZER@));
    let instruct_type = optional_text_of(member_of(fields, INSTRUCT_TYPE@));
    if input_modalities is Some && output_modalities is Some && tokenizer is Some
        && instruct_type is Some {
        Some(
            ArchitectureView {
                input_modalities: input_modalities->0,
                output_modalities: output_modalities->0,
                tokenizer: tokenizer->0,
                instruct_type: instruct_type->0,
            },
        )
    } else {
        None
    }
}

/// The pricing that the members of an object hold.
pub open spec fn pricing_of_fields(fields: Fields) -> Option<PricingView> {
    let prompt = optional_text_of(member_of(fields, PROMPT@));
    let completion = optional_text_of(member_of(fields, COMPLETION@));
    let request = optional_text_of(member_of(fields, REQUEST@));
    let image = optional_text_of(member_of(fields, IMAGE@));
    let web_search = optional_text_of(member_of(fields, WEB_SEARCH@));
    let internal_reasoning = optional_text_of(member_of(fields, INTERNAL_REASONING@));
    let input_cache_read = optional_text_of(member_of(fields, INPUT_CACHE_READ@));
    let input_cache_write = optional_text_of(member_of(fields, INPUT_CACHE_WRITE@));
    if prompt is Some && completion is Some && request is Some && image is Some
        && web_search is Some && internal_reasoning is Some && input_cache_read is Some
        && input_cache_write is Some {
        Some(
            PricingView {
                prompt: prompt->0,
                completion: completion->0,
                request: request->0,
                image: image->0,
                web_search: web_search->0,
                internal_reasoning: internal_reasoning->0,
                input_cache_read: input_cache_read->0,
                input_cache_write: input_cache_write->0,
            },
        )
    } else {
        None
    }
}

/// The limits of the first provider that the members of an object hold.
pub open spec fn top_provider_of_fields(fields: Fields) -> Option<TopProvider> {
    let context_length = optional_unsigned_of(member_of(fields, CONTEXT_LENGTH@));
    let max_completion_tokens = optional_unsigned_of(member_of(fields, MAX_COMPLETION_TOKENS@));
    let is_moderated = optional_flag_of(member_of(fields, IS_MODERATED@));
    if context_length is Some && max_completion_tokens is Some && is_moderated is Some {
        Some(
            TopProvider {
                context_length: context_length->0,
                max_completion_tokens: max_completion_tokens->0,
                is_moderated: is_moderated->0,
            },
        )
    } else {
        None
    }
}

/// An optional architecture: absent where the member is absent or null, that
/// of an object, and malformed for anything else.
pub open spec fn optional_architecture_of(member: Option<JsonValue>) -> Option<
    Option<ArchitectureView>,
> {
    match member {
        None => Some(None),
        Some(JsonValue::Null) => Some(None),
        Some(JsonValue::Object(fields)) => match architecture_of_fields(fields) {
            Some(a) => Some(Some(a)),
            None => None,
        },
        Some(_) => None,
    }
}

/// An optional pricing: absent where the member is absent or null, that of an
/// object, and malformed for anything else.
pub open spec fn optional_pricing_of(member: Option<JsonValue>) -> Option<Option<PricingView>> {
    match member {
        None => Some(None),
        Some(JsonValue::Null) => Some(None),
        Some(JsonValue::Object(fields)) => match pricing_of_fields(fields) {
            Some(p) => Some(Some(p)),
            None => None,
        },
        Some(_) => None,
    }
}

/// Optional limits of the first provider: absent where the member is absent
/// or null, those of an object, and malformed for anything else.
pub open spec fn optional_top_provider_of(member: Option<JsonValue>) -> Option<
    Option<TopProvider>,
> {
    match member {
        None => Some(None),
        Some(JsonValue::Null) => Some(None),
        Some(JsonValue::Object(fields)) => match top_provider_of_fields(fields) {
            Some(t) => Some(Some(t)),
            None => None,
        },
        Some(_) => None,
    }
}

/// The record that the members of an object hold. Members of other names are
/// passed over.
pub open spec fn model_of_fields(fields: Fields) -> Option<ModelView> {
    let id = text_of(member_of(fields, ID@));
    let canonical_slug = text_of(member_of(fields, CANONICAL_SLUG@));
    let name = text_of(member_of(fields, NAME@));
    let created = optional_unsigned_of(member_of(fields, CREATED@));
    let description = text_of(member_of(fields, DESCRIPTION@));
    let context_length = optional_unsigned_of(member_of(fields, CONTEXT_LENGTH@));
    let architecture = optional_architecture_of(member_of(fields, ARCHITECTURE@));
    let pricing = optional_pricing_of(member_of(fields, PRICING@));
    let top_provider = optional_top_provider_of(member_of(fields, TOP_PROVIDER@));
    let supported_parameters = texts_of(member_of(fields, SUPPORTED_PARAMETERS@));
    if id is Some && canonical_slug is Some && name is Some && created is Some
        && description is Some && context_length is Some && architecture is Some
        && pricing is Some && top_provider is Some && supported_parameters is Some {
        Some(
            ModelView {
                id: id->0,
                canonical_slug: canonical_slug->0,
                name: name->0,
                created: created->0,
                description: description->0,
                context_length: context_length->0,
                architecture: architecture->0,
                pricing: pricing->0,
                top_provider: top_provider->0,
                per_request_limits: optional_value_of(member_of(fields, PER_REQUEST_LIMITS@)),
                supported_parameters: supported_parameters->0,
            },
        )
    } else {
        None
    }
}

/// The record that a JSON value holds: that of an object's members; any other
/// value is malformed.
pub open spec fn model_of(value: JsonValue) -> Option<ModelView> {
    match value {
        JsonValue::Object(fields) => model_of_fields(fields),
        _ => None,
    }
}

/// Every member holds a record.
pub open spec fn all_models(fields: Fields) -> bool {
    forall|i: int| 0 <= i < fields.len() ==> model_of(#[trigger] fields[i].1) is Some
}

/// The records that the members hold, each under its member's name.
pub open spec fn keyed_models(fields: Fields) -> Entries<ModelView> {
    Seq::new(fields.len(), |i: int| (fields[i].0, model_of(fields[i].1)->0))
}

/// The catalog that a JSON value holds: the records of an object's members,
/// stored one after the other under the members' names. A value that is no
/// object, or a member that holds no record, makes the whole malformed.
pub open spec fn catalog_of(value: JsonValue) -> Option<Entries<ModelView>> {
    match value {
        JsonValue::Object(fields) => if all_models(fields) {
            Some(collected(keyed_models(fields)))
        } else {
            None
        },
        _ => None,
    }
}

/// A name under which a record keeps one of its fields.
pub open spec fn is_model_field(name: Seq<char>) -> bool {
    ||| name == ID@
    ||| name == CANONICAL_SLUG@
    ||| name == NAME@
    ||| name == CREATED@
    ||| name == DESCRIPTION@
    ||| name == CONTEXT_LENGTH@
    ||| name == ARCHITECTURE@
    ||| name == PRICING@
    ||| name == TOP_PROVIDER@
    ||| name == PER_REQUEST_LIMITS@
    ||| name == SUPPORTED_PARAMETERS@
}

/// The members that hold no field of a record, in their order.
pub open spec fn extra_fields(fields: Fields) -> Fields {
    fields.filter(|member: (Seq<char>, JsonValue)| !is_model_field(member.0))
}

/// The JSON value of a text.
pub open spec fn text_json(text: Seq<char>) -> JsonValue {
    JsonValue::Text(text)
}

/// The JSON value of an optional text: null where it is absent.
pub open spec fn optional_text_json(text: Option<Seq<char>>) -> JsonValue {
    match text {
        Some(t) => JsonValue::Text(t),
        None => JsonValue::Null,
    }
}

/// The JSON value of an optional unsigned integer: null where it is absent.
pub open spec fn optional_unsigned_json(n: Option<u64>) -> JsonValue {
    match n {
        Some(n) => JsonValue::Number(NumberValue::Unsigned(n)),
        None => JsonValue::Null,
    }
}

/// The JSON value of an optional flag: null where it is absent.
pub open spec fn optional_flag_json(flag: Option<bool>) -> JsonValue {
    match flag {
        Some(b) => JsonValue::Bool(b),
        None => JsonValue::Null,
    }
}

/// The JSON value of a list of texts: an array of strings.
pub open spec fn texts_json(texts: Seq<Seq<char>>) -> JsonValue {
    JsonValue::Array(Seq::new(texts.len(), |i: int| JsonValue::Text(texts[i])))
}

/// The JSON value of an optional value of any shape: null where it is absent.
pub open spec fn optional_value_json(value: Option<JsonValue>) -> JsonValue {
    match value {
        Some(v) => v,
        None => JsonValue::Null,
    }
}

/// The members that hold an architecture.
pub open spec fn architecture_fields(a: ArchitectureView) -> Fields {
    seq![
        (INPUT_MODALITIES@, texts_json(a.input_modalities)),
        (OUTPUT_MODALITIES@, texts_json(a.output_modalities)),
        (TOKENIZER@, text_json(a.tokenizer)),
        (INSTRUCT_TYPE@, optional_text_json(a.instruct_type)),
    ]
}

/// The members that hold a pricing.
pub open spec fn pricing_fields(p: PricingView) -> Fields {
    seq![
        (PROMPT@, optional_text_json(p.prompt)),
        (COMPLETION@, optional_text_json(p.completion)),
        (REQUEST@, optional_text_json(p.request)),
        (IMAGE@, optional_text_json(p.image)),
        (WEB_SEARCH@, optional_text_json(p.web_search)),
        (INTERNAL_REASONING@, optional_text_json(p.internal_reasoning)),
        (INPUT_CACHE_READ@, optional_text_json(p.input_cache_read)),
        (INPUT_CACHE_WRITE@, optional_text_json(p.input_cache_write)),
    ]
}

/// The members that hold the limits of the first provider.
pub open spec fn top_provider_fields(t: TopProvider) -> Fields {
    seq![
        (CONTEXT_LENGTH@, optional_unsigned_json(t.context_length)),
        (MAX_COMPLETION_TOKENS@, optional_unsigned_json(t.max_completion_tokens)),
        (IS_MODERATED@, optional_flag_json(t.is_moderated)),
    ]
}

/// The JSON value of an optional architecture: null where it is absent.
pub open spec fn optional_architecture_json(a: Option<ArchitectureView>) -> JsonValue {
    match a {
        Some(a) => JsonValue::Object(architecture_fields(a)),
        None => JsonValue::Null,
    }
}

/// The JSON value of an optional pricing: null where it is absent.
pub open spec fn optional_pricing_json(p: Option<PricingView>) -> JsonValue {
    match p {
        Some(p) => JsonValue::Object(pricing_fields(p)),
        None => JsonValue::Null,
    }
}

/// The JSON value of optional limits of the first provider: null where they
/// are absent.
pub open spec fn optional_top_provider_json(t: Option<TopProvider>) -> JsonValue {
    match t {
        Some(t) => JsonValue::Object(top_provider_fields(t)),
        None => JsonValue::Null,
    }
}

/// The members that hold a record: every field is written, in the order of
/// the record's fields.
pub open spec fn model_fields(m: ModelView) -> Fields {
    seq![
        (ID@, text_json(m.id)),
        (CANONICAL_SLUG@, text_json(m.canonical_slug)),
        (NAME@, text_json(m.name)),
        (CREATED@, optional_unsigned_json(m.created)),
        (DESCRIPTION@, text_json(m.description)),
        (CONTEXT_LENGTH@, optional_unsigned_json(m.context_length)),
        (ARCHITECTURE@, optional_architecture_json(m.architecture)),
        (PRICING@, optional_pricing_json(m.pricing)),
        (TOP_PROVIDER@, optional_top_provider_json(m.top_provider)),
        (PER_REQUEST_LIMITS@, optional_value_json(m.per_request_limits)),
        (SUPPORTED_PARAMETERS@, texts_json(m.supported_parameters)),
    ]
}

/// The JSON value of a record.
pub open spec fn model_json(m: ModelView) -> JsonValue {
    JsonValue::Object(model_fields(m))
}

} // verus!
