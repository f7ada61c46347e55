//! What holds of a snapshot between the build that writes it and the program
//! that reads it.

use crate::build::providers::openrouter::{
    fetched_of, keyed_records, response_records, snapshot_json, snapshot_of, FetchedView,
};
use crate::json::{member_of, JsonValue};
use crate::providers::openrouter::laws::lemma_model_round_trip;
use crate::providers::openrouter::schema::{
    catalog_of, extra_fields, is_model_field, keyed_models, model_of, DATA,
};
use crate::providers::openrouter::ModelView;
use crate::snapshot::{
    collected, distinct_keys, lemma_collected, lemma_collected_distinct, lemma_collected_from,
    lemma_last_record_kept, lemma_map_of, lemma_mapped_collected, lemma_mapped_distinct,
    lemma_position, mapped, position, Entries,
};
use vstd::prelude::*;

verus! {

/// The function that gives a fetched record the record of the catalog in it.
pub open spec fn model_part() -> spec_fn(FetchedView) -> ModelView {
    |record: FetchedView| record.model
}

/// A record that was read out of a JSON value is well formed.
pub proof fn lemma_fetched_well_formed(value: JsonValue)
    requires
        fetched_of(value) is Some,
    ensures
        fetched_of(value)->0.well_formed(),
{
    let fields = value->Object_0;
    let extra = extra_fields(fields);
    let keep = |member: (Seq<char>, JsonValue)| !is_model_field(member.0);
    assert forall|j: int| 0 <= j < extra.len() implies !is_model_field(#[trigger] extra[j].0) by {
        fields.lemma_filter_pred(keep, j);
    }
}

/// A snapshot that is written and read again holds the same keys with the
/// same records; what a record carried besides its fields is left behind.
pub proof fn lemma_snapshot_round_trip(entries: Entries<FetchedView>)
    requires
        distinct_keys(entries),
        forall|i: int| 0 <= i < entries.len() ==> (#[trigger] entries[i]).1.well_formed(),
    ensures
        catalog_of(snapshot_json(entries)) == Some(mapped(entries, model_part())),
{
    let fields = snapshot_json(entries)->Object_0;
    assert forall|i: int| 0 <= i < fields.len() implies model_of(#[trigger] fields[i].1) == Some(
        entries[i].1.model,
    ) by {
        assert(entries[i].1.well_formed());
        lemma_model_round_trip(entries[i].1.model, entries[i].1.extra);
    }
    assert(keyed_models(fields) =~= mapped(entries, model_part()));
    lemma_mapped_distinct(entries, model_part());
    lemma_collected_distinct(mapped(entries, model_part()));
}

/// What the program reads out of the snapshot of a provider's answer is what
/// the build stored: the records of the answer under their ids, of records
/// with one id the last.
pub proof fn lemma_fetched_snapshot_reads_back(answer: JsonValue)
    requires
        response_records(answer) is Some,
    ensures
        snapshot_of(answer) is Some,
        catalog_of(snapshot_of(answer)->0) == Some(
            collected(mapped(keyed_records(response_records(answer)->0), model_part())),
        ),
{
    let records = response_records(answer)->0;
    let pairs = keyed_records(records);
    let entries = collected(pairs);
    lemma_collected(pairs);
    assert forall|i: int| 0 <= i < entries.len() implies (#[trigger] entries[i]).1.well_formed() by {
        lemma_collected_from(pairs, i);
        let j = choose|j: int| 0 <= j < pairs.len() && entries[i] == pairs[j];
        let data = member_of(answer->Object_0, DATA@);
        if data is Some {
            lemma_fetched_well_formed(data->0->Array_0[j]);
        }
    }
    lemma_snapshot_round_trip(entries);
    lemma_mapped_collected(pairs, model_part());
}

/// No record of an answer is filtered out: the id of each is a key of the
/// snapshot, and each key of the snapshot is the id of a record.
pub proof fn lemma_every_id_kept(records: Seq<FetchedView>, key: Seq<char>)
    ensures
        position(collected(keyed_records(records)), key) is Some <==> exists|i: int|
            0 <= i < records.len() && records[i].model.id == key,
{
    let pairs = keyed_records(records);
    lemma_collected(pairs);
    lemma_map_of(pairs, key);
    lemma_map_of(collected(pairs), key);
    lemma_position(pairs, key);
    if position(pairs, key) is Some {
        let i = position(pairs, key)->0;
        assert(records[i].model.id == key);
    }
    if exists|i: int| 0 <= i < records.len() && records[i].model.id == key {
        let i = choose|i: int| 0 <= i < records.len() && records[i].model.id == key;
        assert(pairs[i].0 == key);
    }
}

/// Of two records of an answer that share an id, the snapshot keeps the later
/// one: the id stands once, with the record that comes last under it.
pub proof fn lemma_later_record_wins(records: Seq<FetchedView>, earlier: int, later: int)
    requires
        0 <= earlier < later < records.len(),
        records[earlier].model.id == records[later].model.id,
        forall|k: int| later < k < records.len() ==> records[k].model.id != records[later].model.id,
    ensures
        distinct_keys(collected(keyed_records(records))),
        match position(collected(keyed_records(records)), records[later].model.id) {
            Some(p) => collected(keyed_records(records))[p].1 == records[later],
            None => false,
        },
{
    lemma_last_record_kept(keyed_records(records), later);
}

} // verus!
