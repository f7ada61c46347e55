//! The OpenRouter catalog at build time: from the provider's answer to the
//! text of the snapshot.

use crate::build::{is_success, success, FetchError, HttpResponse, ProviderSpec, Request};
use crate::json::{
    find_member, items_view, member_of, members_view, parsed, printed, Json, JsonValue, Member,
};
use crate::providers::Provider;
use crate::providers::openrouter::schema::{
    extra_fields, is_model_field, model_fields, model_of_fields, Fields, ARCHITECTURE,
    CANONICAL_SLUG, CONTEXT_LENGTH, CREATED, DATA, DESCRIPTION, ID, NAME, PER_REQUEST_LIMITS,
    PRICING, SUPPORTED_PARAMETERS, TOP_PROVIDER,
};
use crate::providers::openrouter::{ModelView, OpenRouterModel};
use crate::snapshot::{
    collected, distinct_keys, lemma_collected, lemma_collected_next, lemma_mapped_distinct,
    lemma_mapped_inserted, mapped, Entries, Snapshot,
};
use vstd::prelude::*;

verus! {

/// The address of the catalog.
pub const CATALOG_URL: &'static str = "https://openrouter.ai/api/v1/models";

/// The environment variable that may hold the key of the API.
pub const API_KEY_VARIABLE: &'static str = "OPENROUTER_API_KEY";

/// The name of the provider.
pub const PROVIDER_NAME: &'static str = "openrouter";

/// The file that holds the provider's snapshot.
pub const SNAPSHOT_FILE: &'static str = "models_openrouter.json";

/// A record as the provider sent it: the fields of the catalog's record, and
/// the members of other names, which are carried into the snapshot unread.
#[derive(Debug)]
pub struct FetchedModel {
    pub model: OpenRouterModel,
    pub extra: Vec<Member>,
}

/// The mathematical value of a [`FetchedModel`].
pub struct FetchedView {
    pub model: ModelView,
    pub extra: Fields,
}

impl View for FetchedModel {
    type V = FetchedView;

    open spec fn view(&self) -> FetchedView {
        FetchedView { model: self.model@, extra: members_view(self.extra@) }
    }
}

impl FetchedView {
    /// No carried member has the name of a field, and the free-form limits
    /// are not a JSON null: what reading a record establishes, and what
    /// writing one and reading it again asks for.
    pub open spec fn well_formed(self) -> bool {
        &&& forall|j: int| 0 <= j < self.extra.len() ==> !is_model_field(#[trigger] self.extra[j].0)
        &&& self.model.per_request_limits != Some(JsonValue::Null)
    }
}

/// The record that a JSON value holds, with the members that it carries
/// besides: the value has to be an object.
pub open spec fn fetched_of(value: JsonValue) -> Option<FetchedView> {
    match value {
        JsonValue::Object(fields) => match model_of_fields(fields) {
            Some(model) => Some(FetchedView { model, extra: extra_fields(fields) }),
            None => None,
        },
        _ => None,
    }
}

/// Every item holds a record.
pub open spec fn all_fetched(items: Seq<JsonValue>) -> bool {
    forall|i: int| 0 <= i < items.len() ==> fetched_of(#[trigger] items[i]) is Some
}

/// The records that the items hold, in their order.
pub open spec fn fetched_list(items: Seq<JsonValue>) -> Seq<FetchedView> {
    Seq::new(items.len(), |i: int| fetched_of(items[i])->0)
}

/// The records of a provider's answer: those of the array under `data` in an
/// object, none where the object has no such member; anything else is
/// malformed.
pub open spec fn response_records(value: JsonValue) -> Option<Seq<FetchedView>> {
    match value {
        JsonValue::Object(fields) => match member_of(fields, DATA@) {
            None => Some(Seq::empty()),
            Some(JsonValue::Array(items)) => if all_fetched(items) {
                Some(fetched_list(items))
            } else {
                None
            },
            Some(_) => None,
        },
        _ => None,
    }
}

/// The records, each under its `id` as the provider wrote it.
pub open spec fn keyed_records(records: Seq<FetchedView>) -> Entries<FetchedView> {
    Seq::new(records.len(), |i: int| (records[i].model.id, records[i]))
}

/// The JSON value of a fetched record: its fields, then what it carries.
pub open spec fn fetched_json(record: FetchedView) -> JsonValue {
    JsonValue::Object(model_fields(record.model) + record.extra)
}

/// The JSON value of a snapshot: an object with one member for each key.
pub open spec fn snapshot_json(entries: Entries<FetchedView>) -> JsonValue {
    JsonValue::Object(Seq::new(entries.len(), |i: int| (entries[i].0, fetched_json(entries[i].1))))
}

/// The names of a record's fields.
pub open spec fn model_field_names() -> Seq<Seq<char>> {
    seq![
        ID@,
        CANONICAL_SLUG@,
        NAME@,
        CREATED@,
        DESCRIPTION@,
        CONTEXT_LENGTH@,
        ARCHITECTURE@,
        PRICING@,
        TOP_PROVIDER@,
        PER_REQUEST_LIMITS@,
        SUPPORTED_PARAMETERS@,
    ]
}

/// Lists the names of a record's fields.
fn field_names() -> (r: Vec<String>)
    ensures
        r@.len() == 11,
        forall|k: int| 0 <= k < 11 ==> (#[trigger] r@[k])@ == model_field_names()[k],
{
    let mut names: Vec<String> = Vec::new();
    names.push(ID.to_owned());
    names.push(CANONICAL_SLUG.to_owned());
    names.push(NAME.to_owned());
    names.push(CREATED.to_owned());
    names.push(DESCRIPTION.to_owned());
    names.push(CONTEXT_LENGTH.to_owned());
    names.push(ARCHITECTURE.to_owned());
    names.push(PRICING.to_owned());
    names.push(TOP_PROVIDER.to_owned());
    names.push(PER_REQUEST_LIMITS.to_owned());
    names.push(SUPPORTED_PARAMETERS.to_owned());
    names
}

/// Tells whether a name is that of a field.
fn names_field(names: &Vec<String>, name: &String) -> (r: bool)
    requires
        names@.len() == 11,
        forall|k: int| 0 <= k < 11 ==> (#[trigger] names@[k])@ == model_field_names()[k],
    ensures
        r == is_model_field(name@),
{
    let mut i: usize = 0;
    while i < names.len()
        invariant
            i <= names.len(),
            names@.len() == 11,
            forall|k: int| 0 <= k < 11 ==> (#[trigger] names@[k])@ == model_field_names()[k],
            forall|k: int| 0 <= k < i ==> model_field_names()[k] != name@,
        decreases names.len() - i,
    {
        if names[i] == *name {
            assert(model_field_names()[i as int] == name@);
            return true;
        }
        i += 1;
    }
    assert(model_field_names()[0] != name@ && model_field_names()[1] != name@
        && model_field_names()[2] != name@ && model_field_names()[3] != name@
        && model_field_names()[4] != name@ && model_field_names()[5] != name@
        && model_field_names()[6] != name@ && model_field_names()[7] != name@
        && model_field_names()[8] != name@ && model_field_names()[9] != name@
        && model_field_names()[10] != name@);
    false
}

/// Copies the members that hold no field of a record.
pub fn carried_members(members: &Vec<Member>) -> (r: Vec<Member>)
    ensures
        members_view(r@) == extra_fields(members_view(members@)),
{
    let names = field_names();
    let ghost fields = members_view(members@);
    let ghost keep = |member: (Seq<char>, JsonValue)| !is_model_field(member.0);
    let mut carried: Vec<Member> = Vec::new();
    let mut i: usize = 0;
    assert(members_view(carried@) =~= fields.take(0).filter(keep));
    while i < members.len()
        invariant
            i <= members.len(),
            fields == members_view(members@),
            keep == |member: (Seq<char>, JsonValue)| !is_model_field(member.0),
            names@.len() == 11,
            forall|k: int| 0 <= k < 11 ==> (#[trigger] names@[k])@ == model_field_names()[k],
            members_view(carried@) == fields.take(i as int).filter(keep),
        decreases members.len() - i,
    {
        let member = &members[i];
        assert(fields.take(i + 1).drop_last() =~= fields.take(i as int));
        assert(fields.take(i + 1).last() == fields[i as int]);
        reveal(Seq::filter);
        if !names_field(&names, &member.name) {
            let ghost before = members_view(carried@);
            carried.push(Member { name: member.name.clone(), value: member.value.clone() });
            assert(members_view(carried@) =~= before.push(fields[i as int]));
        }
        i += 1;
    }
    assert(fields.take(i as int) =~= fields);
    carried
}

impl FetchedModel {
    /// Reads a record as the provider sent it: the value has to be an object;
    /// a field whose member is absent takes its default, and the members of
    /// other names are carried along.
    pub fn from_json(json: &Json) -> (r: Option<FetchedModel>)
        ensures
            match r {
                Some(record) => fetched_of(json@) == Some(record@),
                None => fetched_of(json@) is None,
            },
    {
        match json.as_members() {
            Some(members) => match OpenRouterModel::from_members(members) {
                Some(model) => Some(FetchedModel { model, extra: carried_members(members) }),
                None => None,
            },
            None => None,
        }
    }

    /// The JSON object of the record: its fields, then what it carries.
    pub fn to_json(&self) -> (r: Json)
        ensures
            r@ == fetched_json(self@),
    {
        let mut members = self.model.to_members();
        let ghost fields = members_view(members@);
        let mut i: usize = 0;
        while i < self.extra.len()
            invariant
                i <= self.extra.len(),
                members_view(members@) == fields + members_view(self.extra@).take(i as int),
            decreases self.extra.len() - i,
        {
            let member = &self.extra[i];
            let ghost before = members_view(members@);
            members.push(Member { name: member.name.clone(), value: member.value.clone() });
            assert(members_view(members@) =~= before.push(members_view(self.extra@)[i as int]));
            assert(before.push(members_view(self.extra@)[i as int]) =~= fields + members_view(
                self.extra@,
            ).take(i + 1));
            i += 1;
        }
        assert(members_view(self.extra@).take(i as int) =~= members_view(self.extra@));
        Json::object(members)
    }
}

/// The values of a list of fetched records.
pub open spec fn records_view(records: Seq<FetchedModel>) -> Seq<FetchedView> {
    Seq::new(records.len(), |i: int| records[i]@)
}

/// The function that gives a fetched record its value.
pub open spec fn fetched_view() -> spec_fn(FetchedModel) -> FetchedView {
    |record: FetchedModel| record@
}

/// The entries of a snapshot with each record as its value.
pub open spec fn snapshot_view(entries: Entries<FetchedModel>) -> Entries<FetchedView> {
    mapped(entries, fetched_view())
}

/// Reads the records out of a provider's answer.
pub fn decode_response(json: &Json) -> (r: Option<Vec<FetchedModel>>)
    ensures
        match r {
            Some(records) => response_records(json@) == Some(records_view(records@)),
            None => response_records(json@) is None,
        },
{
    let members = match json.as_members() {
        Some(members) => members,
        None => {
            return None;
        },
    };
    let data = match find_member(members, DATA) {
        Some(data) => data,
        None => {
            let records: Vec<FetchedModel> = Vec::new();
            assert(records_view(records@) =~= Seq::empty());
            return Some(records);
        },
    };
    let items = match data.as_items() {
        Some(items) => items,
        None => {
            return None;
        },
    };
    let ghost values = items_view(items@);
    let mut records: Vec<FetchedModel> = Vec::new();
    let mut i: usize = 0;
    while i < items.len()
        invariant
            i <= items.len(),
            values == items_view(items@),
            response_records(json@) == (if all_fetched(values) {
                Some(fetched_list(values))
            } else {
                None
            }),
            records@.len() == i,
            forall|k: int|
                0 <= k < i ==> fetched_of(#[trigger] values[k]) == Some(records@[k]@),
        decreases items.len() - i,
    {
        match FetchedModel::from_json(&items[i]) {
            Some(record) => {
                records.push(record);
            },
            None => {
                assert(fetched_of(values[i as int]) is None);
                return None;
            },
        }
        i += 1;
    }
    assert(all_fetched(values));
    assert(records_view(records@) =~= fetched_list(values));
    Some(records)
}

/// Builds the snapshot of a list of records: each is stored under its `id` as
/// it stands; of records with the same `id` the one that comes last is kept,
/// in the place of the first.
pub fn normalize(records: Vec<FetchedModel>) -> (r: Snapshot<FetchedModel>)
    ensures
        snapshot_view(r.entries()) == collected(keyed_records(records_view(records@))),
        distinct_keys(r.entries()),
{
    let ghost all = records@;
    let ghost pairs = keyed_records(records_view(all));
    let mut snapshot: Snapshot<FetchedModel> = Snapshot::new();
    assert(snapshot_view(snapshot.entries()) =~= collected(pairs.take(0)));
    for record in iter: records.into_iter()
        invariant
            iter.seq() == all,
            pairs == keyed_records(records_view(all)),
            snapshot_view(snapshot.entries()) == collected(pairs.take(iter.index() as int)),
    {
        proof {
            lemma_collected_next(pairs, iter.index() as int);
            lemma_mapped_inserted(snapshot.entries(), fetched_view(), record.model.id@, record);
        }
        let key = record.model.id.clone();
        snapshot.insert(key, record);
    }
    proof {
        assert(pairs.take(all.len() as int) =~= pairs);
        lemma_collected(pairs);
        lemma_mapped_distinct(snapshot.entries(), fetched_view());
    }
    snapshot
}

/// The JSON object of a snapshot: one member for each key, in order.
pub fn encode_snapshot(snapshot: &Snapshot<FetchedModel>) -> (r: Json)
    ensures
        r@ == snapshot_json(snapshot_view(snapshot.entries())),
{
    let count = snapshot.len();
    let ghost entries = snapshot_view(snapshot.entries());
    let mut members: Vec<Member> = Vec::new();
    let mut i: usize = 0;
    while i < count
        invariant
            i <= count,
            count == snapshot.entries().len(),
            entries == snapshot_view(snapshot.entries()),
            members@.len() == i,
            forall|k: int|
                0 <= k < i ==> (#[trigger] members@[k]).name@ == entries[k].0 && members@[k].value@
                    == fetched_json(entries[k].1),
        decreases count - i,
    {
        let value = snapshot.record_at(i).to_json();
        members.push(Member { name: snapshot.key_at(i).clone(), value });
        i += 1;
    }
    let r = Json::object(members);
    assert(r@->Object_0 =~= snapshot_json(entries)->Object_0);
    r
}

/// The descriptor of the provider.
pub fn descriptor() -> (r: ProviderSpec)
    ensures
        r.name@ == PROVIDER_NAME@,
        r.file_name@ == SNAPSHOT_FILE@,
        r.provider == Provider::OpenRouter,
{
    ProviderSpec { name: PROVIDER_NAME, file_name: SNAPSHOT_FILE, provider: Provider::OpenRouter }
}

/// What the provider is asked: the catalog's address, with the key of the
/// API as bearer credential where there is one.
pub fn request(api_key: Option<String>) -> (r: Request)
    ensures
        r.url@ == CATALOG_URL@,
        r.bearer == api_key,
{
    Request { url: CATALOG_URL.to_owned(), bearer: api_key }
}

/// The snapshot that a provider's answer leads to, as a JSON value: the
/// records of the answer, stored one after the other under their ids.
pub open spec fn snapshot_of(value: JsonValue) -> Option<JsonValue> {
    match response_records(value) {
        Some(records) => Some(snapshot_json(collected(keyed_records(records)))),
        None => None,
    }
}

/// Turns a provider's answer, read as JSON, into the snapshot: reads the
/// records, stores them under their ids, and writes the result as a JSON
/// object. An answer that does not hold a list of records gives nothing.
pub fn snapshot_from_response(json: &Json) -> (r: Option<Json>)
    ensures
        match r {
            Some(snapshot) => snapshot_of(json@) == Some(snapshot@),
            None => snapshot_of(json@) is None,
        },
{
    match decode_response(json) {
        Some(records) => {
            let snapshot = normalize(records);
            Some(encode_snapshot(&snapshot))
        },
        None => None,
    }
}

/// What an answer leads to: the text of its snapshot, or the error of the
/// first step that fails.
pub open spec fn fetch_outcome(response: HttpResponse, r: Result<String, FetchError>) -> bool {
    if !success(response.code) {
        &&& r matches Err(FetchError::Status { status, url })
        &&& status@ == response.status@
        &&& url@ == CATALOG_URL@
    } else {
        match parsed(response.body@) {
            None => r matches Err(FetchError::Syntax { .. }),
            Some(value) => match snapshot_of(value) {
                None => r matches Err(FetchError::Shape),
                Some(snapshot) => match printed(snapshot) {
                    Some(text) => r matches Ok(written) && written@ == text,
                    None => r matches Err(FetchError::Render { .. }),
                },
            },
        }
    }
}

/// Turns the provider's answer into the text of the snapshot. A status
/// outside the 2xx range, a body that is no JSON, and JSON that holds no list
/// of records each end in their own error; nothing is kept of an answer that
/// fails.
pub fn fetch_models_map_json(response: &HttpResponse) -> (r: Result<String, FetchError>)
    ensures
        fetch_outcome(*response, r),
{
    if !is_success(response.code) {
        return Err(
            FetchError::Status { status: response.status.clone(), url: CATALOG_URL.to_owned() },
        );
    }
    let json = match Json::parse(response.body.as_str()) {
        Ok(json) => json,
        Err(error) => {
            return Err(FetchError::Syntax { detail: error.detail });
        },
    };
    let snapshot = match snapshot_from_response(&json) {
        Some(snapshot) => snapshot,
        None => {
            return Err(FetchError::Shape);
        },
    };
    match snapshot.to_pretty_text() {
        Ok(text) => Ok(text),
        Err(error) => Err(FetchError::Render { detail: error.detail }),
    }
}

} // verus!
