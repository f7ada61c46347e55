//! Reading records out of JSON values.

use crate::json::{
    find_member, items_view, member_of, members_view, parsed, Json, JsonNumber, JsonValue,
    Member,
};
use crate::providers::openrouter::schema::{
    all_texts, architecture_of_fields, item_texts, model_of, model_of_fields,
    optional_architecture_of, optional_flag_of, optional_pricing_of, optional_text_of,
    optional_top_provider_of, optional_unsigned_of, optional_value_of, pricing_of_fields,
    text_of, texts_of, top_provider_of_fields, ARCHITECTURE, CANONICAL_SLUG, COMPLETION,
    CONTEXT_LENGTH, CREATED, DESCRIPTION, ID, IMAGE, INPUT_CACHE_READ, INPUT_CACHE_WRITE,
    INPUT_MODALITIES, INSTRUCT_TYPE, INTERNAL_REASONING, IS_MODERATED, MAX_COMPLETION_TOKENS,
    NAME, OUTPUT_MODALITIES, PER_REQUEST_LIMITS, PRICING, PROMPT, REQUEST, SUPPORTED_PARAMETERS,
    TOKENIZER, TOP_PROVIDER, WEB_SEARCH,
};
use crate::providers::openrouter::{
    Architecture, ArchitectureView, OpenRouterModel, Pricing, PricingView, TopProvider,
};
use crate::text::{optional_text_view, texts_view};
use vstd::prelude::*;

verus! {

/// Why a text gave no record.
#[derive(Debug)]
pub enum ReadError {
    /// The text is no JSON.
    Syntax { detail: String },
    /// The JSON is no record.
    Shape,
}

/// Reads a text field.
pub fn read_text(members: &Vec<Member>, name: &str) -> (r: Option<String>)
    ensures
        match r {
            Some(text) => text_of(member_of(members_view(members@), name@)) == Some(text@),
            None => text_of(member_of(members_view(members@), name@)) is None,
        },
{
    match find_member(members, name) {
        None => Some(String::new()),
        Some(Json::Text(text)) => Some(text.clone()),
        Some(_) => None,
    }
}

/// Reads an optional text field.
pub fn read_optional_text(members: &Vec<Member>, name: &str) -> (r: Option<Option<String>>)
    ensures
        match r {
            Some(text) => optional_text_of(member_of(members_view(members@), name@)) == Some(
                optional_text_view(text),
            ),
            None => optional_text_of(member_of(members_view(members@), name@)) is None,
        },
{
    match find_member(members, name) {
        None => Some(None),
        Some(Json::Null) => Some(None),
        Some(Json::Text(text)) => Some(Some(text.clone())),
        Some(_) => None,
    }
}

/// Reads an optional unsigned integer field.
pub fn read_optional_unsigned(members: &Vec<Member>, name: &str) -> (r: Option<Option<u64>>)
    ensures
        r == optional_unsigned_of(member_of(members_view(members@), name@)),
{
    match find_member(members, name) {
        None => Some(None),
        Some(Json::Null) => Some(None),
        Some(Json::Number(JsonNumber::Unsigned(n))) => Some(Some(*n)),
        Some(_) => None,
    }
}

/// Reads an optional flag field.
pub fn read_optional_flag(members: &Vec<Member>, name: &str) -> (r: Option<Option<bool>>)
    ensures
        r == optional_flag_of(member_of(members_view(members@), name@)),
{
    match find_member(members, name) {
        None => Some(None),
        Some(Json::Null) => Some(None),
        Some(Json::Bool(b)) => Some(Some(*b)),
        Some(_) => None,
    }
}

/// Reads a field that holds a list of texts.
pub fn read_texts(members: &Vec<Member>, name: &str) -> (r: Option<Vec<String>>)
    ensures
        match r {
            Some(texts) => texts_of(member_of(members_view(members@), name@)) == Some(
                texts_view(texts@),
            ),
            None => texts_of(member_of(members_view(members@), name@)) is None,
        },
{
    match find_member(members, name) {
        None => {
            let texts: Vec<String> = Vec::new();
            assert(texts_view(texts@) =~= Seq::<Seq<char>>::empty());
            Some(texts)
        },
        Some(json) => match json.as_items() {
            Some(items) => {
                let ghost values = items_view(items@);
                let mut texts: Vec<String> = Vec::new();
                let mut i: usize = 0;
                while i < items.len()
                    invariant
                        i <= items.len(),
                        values == items_view(items@),
                        member_of(members_view(members@), name@) == Some(JsonValue::Array(values)),
                        texts@.len() == i,
                        forall|k: int|
                            0 <= k < i ==> values[k] is Text && values[k]->Text_0 == texts@[k]@,
                    decreases items.len() - i,
                {
                    match &items[i] {
                        Json::Text(text) => {
                            texts.push(text.clone());
                        },
                        _ => {
                            assert(!(values[i as int] is Text));
                            return None;
                        },
                    }
                    i += 1;
                }
                assert(all_texts(values));
                assert(texts_view(texts@) =~= item_texts(values));
                Some(texts)
            },
            None => None,
        },
    }
}

/// Reads an optional field of any shape.
pub fn read_optional_value(members: &Vec<Member>, name: &str) -> (r: Option<Json>)
    ensures
        match r {
            Some(json) => optional_value_of(member_of(members_view(members@), name@)) == Some(
                json@,
            ),
            None => optional_value_of(member_of(members_view(members@), name@)) is None,
        },
{
    match find_member(members, name) {
        None => None,
        Some(Json::Null) => None,
        Some(json) => Some(json.clone()),
    }
}

impl Architecture {
    /// Reads an architecture out of the members of an object.
    pub fn from_members(members: &Vec<Member>) -> (r: Option<Architecture>)
        ensures
            match r {
                Some(a) => architecture_of_fields(members_view(members@)) == Some(a@),
                None => architecture_of_fields(members_view(members@)) is None,
            },
    {
        let input_modalities = read_texts(members, INPUT_MODALITIES)?;
        let output_modalities = read_texts(members, OUTPUT_MODALITIES)?;
        let tokenizer = read_text(members, TOKENIZER)?;
        let instruct_type = read_optional_text(members, INSTRUCT_TYPE)?;
        Some(Architecture { input_modalities, output_modalities, tokenizer, instruct_type })
    }
}

impl Pricing {
    /// Reads a pricing out of the members of an object.
    pub fn from_members(members: &Vec<Member>) -> (r: Option<Pricing>)
        ensures
            match r {
                Some(p) => pricing_of_fields(members_view(members@)) == Some(p@),
                None => pricing_of_fields(members_view(members@)) is None,
            },
    {
        let prompt = read_optional_text(members, PROMPT)?;
        let completion = read_optional_text(members, COMPLETION)?;
        let request = read_optional_text(members, REQUEST)?;
        let image = read_optional_text(members, IMAGE)?;
        let web_search = read_optional_text(members, WEB_SEARCH)?;
        let internal_reasoning = read_optional_text(members, INTERNAL_REASONING)?;
        let input_cache_read = read_optional_text(members, INPUT_CACHE_READ)?;
        let input_cache_write = read_optional_text(members, INPUT_CACHE_WRITE)?;
        Some(
            Pricing {
                prompt,
                completion,
                request,
                image,
                web_search,
                internal_reasoning,
                input_cache_read,
                input_cache_write,
            },
        )
    }
}

impl TopProvider {
    /// Reads the limits of the first provider out of the members of an object.
    pub fn from_members(members: &Vec<Member>) -> (r: Option<TopProvider>)
        ensures
            r == top_provider_of_fields(members_view(members@)),
    {
        let context_length = read_optional_unsigned(members, CONTEXT_LENGTH)?;
        let max_completion_tokens = read_optional_unsigned(members, MAX_COMPLETION_TOKENS)?;
        let is_moderated = read_optional_flag(members, IS_MODERATED)?;
        Some(TopProvider { context_length, max_completion_tokens, is_moderated })
    }
}

/// Reads an optional architecture field.
pub fn read_optional_architecture(members: &Vec<Member>, name: &str) -> (r: Option<
    Option<Architecture>,
>)
    ensures
        match r {
            Some(Some(a)) => optional_architecture_of(member_of(members_view(members@), name@))
                == Some(Some(a@)),
            Some(None) => optional_architecture_of(member_of(members_view(members@), name@))
                == Some(None::<ArchitectureView>),
            None => optional_architecture_of(member_of(members_view(members@), name@)) is None,
        },
{
    match find_member(members, name) {
        None => Some(None),
        Some(Json::Null) => Some(None),
        Some(json) => match json.as_members() {
            Some(inner) => match Architecture::from_members(inner) {
                Some(record) => Some(Some(record)),
                None => None,
            },
            None => None,
        },
    }
}

/// Reads an optional pricing field.
pub fn read_optional_pricing(members: &Vec<Member>, name: &str) -> (r: Option<Option<Pricing>>)
    ensures
        match r {
            Some(Some(p)) => optional_pricing_of(member_of(members_view(members@), name@))
                == Some(Some(p@)),
            Some(None) => optional_pricing_of(member_of(members_view(members@), name@)) == Some(
                None::<PricingView>,
            ),
            None => optional_pricing_of(member_of(members_view(members@), name@)) is None,
        },
{
    match find_member(members, name) {
        None => Some(None),
        Some(Json::Null) => Some(None),
        Some(json) => match json.as_members() {
            Some(inner) => match Pricing::from_members(inner) {
                Some(record) => Some(Some(record)),
                None => None,
            },
            None => None,
        },
    }
}

/// Reads an optional field that holds the limits of the first provider.
pub fn read_optional_top_provider(members: &Vec<Member>, name: &str) -> (r: Option<
    Option<TopProvider>,
>)
    ensures
        r == optional_top_provider_of(member_of(members_view(members@), name@)),
{
    match find_member(members, name) {
        None => Some(None),
        Some(Json::Null) => Some(None),
        Some(json) => match json.as_members() {
            Some(inner) => match TopProvider::from_members(inner) {
                Some(record) => Some(Some(record)),
                None => None,
            },
            None => None,
        },
    }
}

impl OpenRouterModel {
    /// Reads a record out of the members of an object. A field whose member
    /// is absent takes its default; members of other names are passed over.
    pub fn from_members(members: &Vec<Member>) -> (r: Option<OpenRouterModel>)
        ensures
            match r {
                Some(m) => model_of_fields(members_view(members@)) == Some(m@),
                None => model_of_fields(members_view(members@)) is None,
            },
    {
        let id = read_text(members, ID)?;
        let canonical_slug = read_text(members, CANONICAL_SLUG)?;
        let name = read_text(members, NAME)?;
        let created = read_optional_unsigned(members, CREATED)?;
        let description = read_text(members, DESCRIPTION)?;
        let context_length = read_optional_unsigned(members, CONTEXT_LENGTH)?;
        let architecture = read_optional_architecture(members, ARCHITECTURE)?;
        let pricing = read_optional_pricing(members, PRICING)?;
        let top_provider = read_optional_top_provider(members, TOP_PROVIDER)?;
        let per_request_limits = read_optional_value(members, PER_REQUEST_LIMITS);
        let supported_parameters = read_texts(members, SUPPORTED_PARAMETERS)?;
        Some(
            OpenRouterModel {
                id,
                canonical_slug,
                name,
                created,
                description,
                context_length,
                architecture,
                pricing,
                top_provider,
                per_request_limits,
                supported_parameters,
            },
        )
    }

    /// Reads a record out of a JSON value, which has to be an object.
    pub fn from_json(json: &Json) -> (r: Option<OpenRouterModel>)
        ensures
            match r {
                Some(m) => model_of(json@) == Some(m@),
                None => model_of(json@) is None,
            },
    {
        match json.as_members() {
            Some(members) => OpenRouterModel::from_members(members),
            None => None,
        }
    }

    /// Reads a record out of a JSON text. A text that is no JSON and JSON
    /// that is no record end in their own errors.
    pub fn parse(text: &str) -> (r: Result<OpenRouterModel, ReadError>)
        ensures
            match parsed(text@) {
                None => r matches Err(ReadError::Syntax { .. }),
                Some(value) => match model_of(value) {
                    None => r matches Err(ReadError::Shape),
                    Some(model) => r matches Ok(read) && read@ == model,
                },
            },
    {
        match Json::parse(text) {
            Ok(json) => match OpenRouterModel::from_json(&json) {
                Some(model) => Ok(model),
                None => Err(ReadError::Shape),
            },
            Err(error) => Err(ReadError::Syntax { detail: error.detail }),
        }
    }
}

} // verus!
