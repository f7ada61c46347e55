//! Writing records as JSON values.

use crate::json::{members_view, Json, JsonNumber, JsonValue, Member};
use crate::providers::openrouter::schema::{
    architecture_fields, model_fields, model_json, optional_architecture_json,
    optional_flag_json, optional_pricing_json, optional_text_json, optional_top_provider_json,
    optional_unsigned_json, optional_value_json, pricing_fields, text_json, texts_json,
    top_provider_fields, ARCHITECTURE, CANONICAL_SLUG, COMPLETION, CONTEXT_LENGTH, CREATED,
    DESCRIPTION, ID, IMAGE, INPUT_CACHE_READ, INPUT_CACHE_WRITE, INPUT_MODALITIES,
    INSTRUCT_TYPE, INTERNAL_REASONING, IS_MODERATED, MAX_COMPLETION_TOKENS, NAME,
    OUTPUT_MODALITIES, PER_REQUEST_LIMITS, PRICING, PROMPT, REQUEST, SUPPORTED_PARAMETERS,
    TOKENIZER, TOP_PROVIDER, WEB_SEARCH,
};
use crate::providers::openrouter::{Architecture, OpenRouterModel, Pricing, TopProvider};
use crate::text::{optional_text_view, texts_view};
use vstd::prelude::*;

verus! {

/// The JSON string of a text.
pub fn text_value(text: &String) -> (r: Json)
    ensures
        r@ == text_json(text@),
{
    Json::Text(text.clone())
}

/// The JSON string of a text, or null.
pub fn optional_text_value(text: &Option<String>) -> (r: Json)
    ensures
        r@ == optional_text_json(optional_text_view(*text)),
{
    match text {
        Some(t) => Json::Text(t.clone()),
        None => Json::Null,
    }
}

/// The JSON number of an unsigned integer, or null.
pub fn optional_unsigned_value(n: Option<u64>) -> (r: Json)
    ensures
        r@ == optional_unsigned_json(n),
{
    match n {
        Some(n) => Json::Number(JsonNumber::Unsigned(n)),
        None => Json::Null,
    }
}

/// The JSON boolean of a flag, or null.
pub fn optional_flag_value(flag: Option<bool>) -> (r: Json)
    ensures
        r@ == optional_flag_json(flag),
{
    match flag {
        Some(b) => Json::Bool(b),
        None => Json::Null,
    }
}

/// The JSON array of a list of texts.
pub fn texts_value(texts: &Vec<String>) -> (r: Json)
    ensures
        r@ == texts_json(texts_view(texts@)),
{
    let mut items: Vec<Json> = Vec::new();
    let mut i: usize = 0;
    while i < texts.len()
        invariant
            i <= texts.len(),
            items@.len() == i,
            forall|k: int| 0 <= k < i ==> items@[k]@ == JsonValue::Text(texts@[k]@),
        decreases texts.len() - i,
    {
        items.push(Json::Text(texts[i].clone()));
        i += 1;
    }
    let r = Json::array(items);
    assert(r@->Array_0 =~= texts_json(texts_view(texts@))->Array_0);
    r
}

/// The JSON value itself, or null.
pub fn optional_value(json: &Option<Json>) -> (r: Json)
    ensures
        r@ == optional_value_json(
            match *json {
                Some(j) => Some(j@),
                None => None,
            },
        ),
{
    match json {
        Some(j) => j.clone(),
        None => Json::Null,
    }
}

impl Architecture {
    /// The members that hold the architecture.
    pub fn to_members(&self) -> (r: Vec<Member>)
        ensures
            members_view(r@) == architecture_fields(self@),
    {
        let mut members: Vec<Member> = Vec::new();
        members.push(Member::new(INPUT_MODALITIES, texts_value(&self.input_modalities)));
        members.push(Member::new(OUTPUT_MODALITIES, texts_value(&self.output_modalities)));
        members.push(Member::new(TOKENIZER, text_value(&self.tokenizer)));
        members.push(Member::new(INSTRUCT_TYPE, optional_text_value(&self.instruct_type)));
        assert(members_view(members@) =~= architecture_fields(self@));
        members
    }
}

impl Pricing {
    /// The members that hold the pricing.
    pub fn to_members(&self) -> (r: Vec<Member>)
        ensures
            members_view(r@) == pricing_fields(self@),
    {
        let mut members: Vec<Member> = Vec::new();
        members.push(Member::new(PROMPT, optional_text_value(&self.prompt)));
        members.push(Member::new(COMPLETION, optional_text_value(&self.completion)));
        members.push(Member::new(REQUEST, optional_text_value(&self.request)));
        members.push(Member::new(IMAGE, optional_text_value(&self.image)));
        members.push(Member::new(WEB_SEARCH, optional_text_value(&self.web_search)));
        members.push(Member::new(INTERNAL_REASONING, optional_text_value(&self.internal_reasoning)));
        members.push(Member::new(INPUT_CACHE_READ, optional_text_value(&self.input_cache_read)));
        members.push(Member::new(INPUT_CACHE_WRITE, optional_text_value(&self.input_cache_write)));
        assert(members_view(members@) =~= pricing_fields(self@));
        members
    }
}

impl TopProvider {
    /// The members that hold the limits.
    pub fn to_members(&self) -> (r: Vec<Member>)
        ensures
            members_view(r@) == top_provider_fields(*self),
    {
        let mut members: Vec<Member> = Vec::new();
        members.push(Member::new(CONTEXT_LENGTH, optional_unsigned_value(self.context_length)));
        members.push(
            Member::new(MAX_COMPLETION_TOKENS, optional_unsigned_value(self.max_completion_tokens)),
        );
        members.push(Member::new(IS_MODERATED, optional_flag_value(self.is_moderated)));
        assert(members_view(members@) =~= top_provider_fields(*self));
        members
    }
}

/// The JSON object of an architecture, or null.
pub fn optional_architecture_value(architecture: &Option<Architecture>) -> (r: Json)
    ensures
        r@ == optional_architecture_json(
            match *architecture {
                Some(a) => Some(a@),
                None => None,
            },
        ),
{
    match architecture {
        Some(a) => Json::object(a.to_members()),
        None => Json::Null,
    }
}

/// The JSON object of a pricing, or null.
pub fn optional_pricing_value(pricing: &Option<Pricing>) -> (r: Json)
    ensures
        r@ == optional_pricing_json(
            match *pricing {
                Some(p) => Some(p@),
                None => None,
            },
        ),
{
    match pricing {
        Some(p) => Json::object(p.to_members()),
        None => Json::Null,
    }
}

/// The JSON object of the limits of the first provider, or null.
pub fn optional_top_provider_value(top_provider: &Option<TopProvider>) -> (r: Json)
    ensures
        r@ == optional_top_provider_json(*top_provider),
{
    match top_provider {
        Some(t) => Json::object(t.to_members()),
        None => Json::Null,
    }
}

impl OpenRouterModel {
    /// The members that hold the record, every field written.
    pub fn to_members(&self) -> (r: Vec<Member>)
        ensures
            members_view(r@) == model_fields(self@),
    {
        let mut members: Vec<Member> = Vec::new();
        members.push(Member::new(ID, text_value(&self.id)));
        members.push(Member::new(CANONICAL_SLUG, text_value(&self.canonical_slug)));
        members.push(Member::new(NAME, text_value(&self.name)));
        members.push(Member::new(CREATED, optional_unsigned_value(self.created)));
        members.push(Member::new(DESCRIPTION, text_value(&self.description)));
        members.push(Member::new(CONTEXT_LENGTH, optional_unsigned_value(self.context_length)));
        members.push(Member::new(ARCHITECTURE, optional_architecture_value(&self.architecture)));
        members.push(Member::new(PRICING, optional_pricing_value(&self.pricing)));
        members.push(Member::new(TOP_PROVIDER, optional_top_provider_value(&self.top_provider)));
        members.push(Member::new(PER_REQUEST_LIMITS, optional_value(&self.per_request_limits)));
        members.push(Member::new(SUPPORTED_PARAMETERS, texts_value(&self.supported_parameters)));
        assert(members_view(members@) =~= model_fields(self@));
        members
    }

    /// The JSON object of the record.
    pub fn to_json(&self) -> (r: Json)
        ensures
            r@ == model_json(self@),
    {
        Json::object(self.to_members())
    }
}

} // verus!
