//! How a merchant's routing dictionary and the reference to the algorithm
//! in use are written as JSON values and read back.

use vstd::prelude::*;

use crate::json::{
    field, items_view, lemma_array_view, lemma_member_found, lemma_object_view, members_view,
    number_of_member, optional_text_json, optional_text_of, text_of_member, Json, JsonValue,
};
use crate::names::{
    algorithm_kind_name, algorithm_kind_of, algorithm_kind_text, lemma_algorithm_kind_reads_back,
    parse_algorithm_kind,
};
use crate::routing::types::{
    records_view, AlgorithmRefView, DictionaryView, RecordView, RoutingAlgorithmRef,
    RoutingDictionary, RoutingDictionaryRecord,
};
use vstd::string::StringExecFns;

verus! {

/// A record of a dictionary as JSON.
pub open spec fn record_json(record: RecordView) -> JsonValue {
    JsonValue::Object(
        seq![
            ("id"@, JsonValue::Text(record.id)),
            ("name"@, JsonValue::Text(record.name)),
            ("kind"@, JsonValue::Text(algorithm_kind_text(record.kind))),
            ("description"@, JsonValue::Text(record.description)),
            ("created_at"@, JsonValue::Number(record.created_at as int)),
            ("modified_at"@, JsonValue::Number(record.modified_at as int)),
        ],
    )
}

/// The record that a JSON value holds.
pub open spec fn record_of(json: JsonValue) -> Option<RecordView> {
    match (
        text_of_member(field(json, "id"@)),
        text_of_member(field(json, "name"@)),
        text_of_member(field(json, "kind"@)),
        text_of_member(field(json, "description"@)),
        number_of_member(field(json, "created_at"@)),
        number_of_member(field(json, "modified_at"@)),
    ) {
        (Some(id), Some(name), Some(kind), Some(description), Some(created_at), Some(modified_at)) => {
            match algorithm_kind_of(kind) {
                Some(kind) => Some(
                    RecordView { id, name, kind, description, created_at, modified_at },
                ),
                None => None,
            }
        },
        _ => None,
    }
}

pub proof fn lemma_record_reads_back(record: RecordView)
    ensures
        record_of(record_json(record)) == Some(record),
{
    let members = record_json(record)->Object_0;
    lemma_algorithm_kind_reads_back(record.kind);
    reveal_strlit("id");
    reveal_strlit("name");
    reveal_strlit("kind");
    reveal_strlit("description");
    reveal_strlit("created_at");
    reveal_strlit("modified_at");
    assert("id"@.len() != "name"@.len());
    assert("id"@.len() != "kind"@.len());
    assert("id"@.len() != "description"@.len());
    assert("id"@.len() != "created_at"@.len());
    assert("id"@.len() != "modified_at"@.len());
    assert("name"@[0] != "kind"@[0]);
    assert("name"@.len() != "description"@.len());
    assert("name"@.len() != "created_at"@.len());
    assert("name"@.len() != "modified_at"@.len());
    assert("kind"@.len() != "description"@.len());
    assert("kind"@.len() != "created_at"@.len());
    assert("kind"@.len() != "modified_at"@.len());
    assert("description"@.len() != "created_at"@.len());
    assert("description"@[0] != "modified_at"@[0]);
    assert("created_at"@.len() != "modified_at"@.len());
    lemma_member_found(members, 0);
    lemma_member_found(members, 1);
    lemma_member_found(members, 2);
    lemma_member_found(members, 3);
    lemma_member_found(members, 4);
    lemma_member_found(members, 5);
}

/// Records as JSON.
pub open spec fn records_json(records: Seq<RecordView>) -> JsonValue {
    JsonValue::Array(Seq::new(records.len(), |i: int| record_json(records[i])))
}

/// The records that a JSON value holds.
pub open spec fn records_of(json: JsonValue) -> Option<Seq<RecordView>> {
    match json {
        JsonValue::Array(items) => if forall|i: int|
            0 <= i < items.len() ==> record_of(#[trigger] items[i]) is Some {
            Some(Seq::new(items.len(), |i: int| record_of(items[i])->Some_0))
        } else {
            None
        },
        _ => None,
    }
}

pub proof fn lemma_records_read_back(records: Seq<RecordView>)
    ensures
        records_of(records_json(records)) == Some(records),
{
    let items = records_json(records)->Array_0;
    assert forall|i: int| 0 <= i < items.len() implies record_of(#[trigger] items[i]) == Some(
        records[i],
    ) by {
        lemma_record_reads_back(records[i]);
    }
    assert(Seq::new(items.len(), |i: int| record_of(items[i])->Some_0) =~= records);
}

/// A dictionary as JSON.
pub open spec fn dictionary_json(dictionary: DictionaryView) -> JsonValue {
    JsonValue::Object(
        seq![
            ("merchant_id"@, JsonValue::Text(dictionary.merchant_id)),
            ("active_id"@, optional_text_json(dictionary.active_id)),
            ("records"@, records_json(dictionary.records)),
        ],
    )
}

/// The dictionary that a JSON value holds.
pub open spec fn dictionary_of(json: JsonValue) -> Option<DictionaryView> {
    match (
        text_of_member(field(json, "merchant_id"@)),
        optional_text_of(field(json, "active_id"@)),
        field(json, "records"@),
    ) {
        (Some(merchant_id), Some(active_id), Some(records)) => match records_of(records) {
            Some(records) => Some(DictionaryView { merchant_id, active_id, records }),
            None => None,
        },
        _ => None,
    }
}

/// Writing a dictionary and reading the result back gives the dictionary
/// again.
pub proof fn lemma_dictionary_reads_back(dictionary: DictionaryView)
    ensures
        dictionary_of(dictionary_json(dictionary)) == Some(dictionary),
{
    let members = dictionary_json(dictionary)->Object_0;
    lemma_records_read_back(dictionary.records);
    reveal_strlit("merchant_id");
    reveal_strlit("active_id");
    reveal_strlit("records");
    assert("merchant_id"@.len() != "active_id"@.len());
    assert("merchant_id"@.len() != "records"@.len());
    assert("active_id"@.len() != "records"@.len());
    lemma_member_found(members, 0);
    lemma_member_found(members, 1);
    lemma_member_found(members, 2);
}

/// A reference to an algorithm as JSON.
pub open spec fn algorithm_ref_json(reference: AlgorithmRefView) -> JsonValue {
    JsonValue::Object(
        seq![
            ("algorithm_id"@, optional_text_json(reference.algorithm_id)),
            ("timestamp"@, JsonValue::Number(reference.timestamp as int)),
            ("config_algo_id"@, optional_text_json(reference.config_algo_id)),
            ("surcharge_config_algo_id"@, optional_text_json(reference.surcharge_config_algo_id)),
        ],
    )
}

/// The reference to an algorithm that a JSON value holds.
pub open spec fn algorithm_ref_of(json: JsonValue) -> Option<AlgorithmRefView> {
    match (
        optional_text_of(field(json, "algorithm_id"@)),
        number_of_member(field(json, "timestamp"@)),
        optional_text_of(field(json, "config_algo_id"@)),
        optional_text_of(field(json, "surcharge_config_algo_id"@)),
    ) {
        (Some(algorithm_id), Some(timestamp), Some(config_algo_id), Some(surcharge_config_algo_id)) => {
            Some(
                AlgorithmRefView {
                    algorithm_id,
                    timestamp,
                    config_algo_id,
                    surcharge_config_algo_id,
                },
            )
        },
        _ => None,
    }
}

pub proof fn lemma_algorithm_ref_reads_back(reference: AlgorithmRefView)
    ensures
        algorithm_ref_of(algorithm_ref_json(reference)) == Some(reference),
{
    let members = algorithm_ref_json(reference)->Object_0;
    reveal_strlit("algorithm_id");
    reveal_strlit("timestamp");
    reveal_strlit("config_algo_id");
    reveal_strlit("surcharge_config_algo_id");
    assert("algorithm_id"@.len() != "timestamp"@.len());
    assert("algorithm_id"@.len() != "config_algo_id"@.len());
    assert("algorithm_id"@.len() != "surcharge_config_algo_id"@.len());
    assert("timestamp"@.len() != "config_algo_id"@.len());
    assert("timestamp"@.len() != "surcharge_config_algo_id"@.len());
    assert("config_algo_id"@.len() != "surcharge_config_algo_id"@.len());
    lemma_member_found(members, 0);
    lemma_member_found(members, 1);
    lemma_member_found(members, 2);
    lemma_member_found(members, 3);
}

/// Writes a record of a dictionary.
pub fn encode_record(record: &RoutingDictionaryRecord) -> (r: Json)
    ensures
        r@ == record_json(record@),
{
    let mut members: Vec<(String, Json)> = Vec::new();
    members.push((String::from_str("id"), Json::text(record.id.as_str())));
    members.push((String::from_str("name"), Json::text(record.name.as_str())));
    members.push((String::from_str("kind"), Json::text(algorithm_kind_name(record.kind))));
    members.push((String::from_str("description"), Json::text(record.description.as_str())));
    members.push((String::from_str("created_at"), Json::Number(record.created_at)));
    members.push((String::from_str("modified_at"), Json::Number(record.modified_at)));
    proof {
        lemma_object_view(members);
        assert(members_view(members@) =~= record_json(record@)->Object_0);
    }
    Json::Object(members)
}

/// Reads a record of a dictionary.
pub fn decode_record(json: &Json) -> (r: Option<RoutingDictionaryRecord>)
    ensures
        match record_of(json@) {
            Some(record) => r matches Some(found) && found@ == record,
            None => r is None,
        },
{
    match (
        json.get_text("id"),
        json.get_text("name"),
        json.get_text("kind"),
        json.get_text("description"),
        json.get_number("created_at"),
        json.get_number("modified_at"),
    ) {
        (Some(id), Some(name), Some(kind), Some(description), Some(created_at), Some(modified_at)) => {
            match parse_algorithm_kind(kind.as_str()) {
                Some(kind) => Some(
                    RoutingDictionaryRecord { id, name, kind, description, created_at, modified_at },
                ),
                None => None,
            }
        },
        _ => None,
    }
}

/// Writes records as a JSON array.
pub fn encode_records(list: &Vec<RoutingDictionaryRecord>) -> (r: Json)
    ensures
        r@ == records_json(records_view(list@)),
{
    let mut items: Vec<Json> = Vec::new();
    let mut i: usize = 0;
    while i < list.len()
        invariant
            i <= list@.len(),
            items@.len() == i,
            forall|j: int| 0 <= j < i ==> (#[trigger] items@[j])@ == record_json(list@[j]@),
        decreases list@.len() - i,
    {
        items.push(encode_record(&list[i]));
        i += 1;
    }
    let r = Json::array(items);
    assert(r@->Array_0 =~= records_json(records_view(list@))->Array_0);
    r
}

/// Reads records from a JSON array.
pub fn decode_records(json: &Json) -> (r: Option<Vec<RoutingDictionaryRecord>>)
    ensures
        match records_of(json@) {
            Some(list) => r matches Some(out) && records_view(out@) == list,
            None => r is None,
        },
{
    match json {
        Json::Array(items) => {
            proof {
                lemma_array_view(*items);
            }
            let ghost views = items_view(items@);
            let mut out: Vec<RoutingDictionaryRecord> = Vec::new();
            let mut i: usize = 0;
            while i < items.len()
                invariant
                    i <= items@.len(),
                    out@.len() == i,
                    views == items_view(items@),
                    json@ == JsonValue::Array(views),
                    forall|j: int|
                        0 <= j < i ==> record_of(#[trigger] views[j]) == Some(out@[j]@),
                decreases items@.len() - i,
            {
                assert(views[i as int] == items@[i as int]@);
                match decode_record(&items[i]) {
                    Some(item) => {
                        out.push(item);
                    },
                    None => {
                        return None;
                    },
                }
                i += 1;
            }
            assert(records_view(out@) =~= records_of(json@)->Some_0);
            Some(out)
        },
        _ => None,
    }
}

/// Writes a routing dictionary as a JSON value.
pub fn encode_dictionary(dictionary: &RoutingDictionary) -> (r: Json)
    ensures
        r@ == dictionary_json(dictionary@),
{
    Json::object3(
        "merchant_id",
        Json::text(dictionary.merchant_id.as_str()),
        "active_id",
        Json::optional_text(&dictionary.active_id),
        "records",
        encode_records(&dictionary.records),
    )
}

/// Reads a routing dictionary from a JSON value; nothing where the value
/// does not hold one.
pub fn decode_dictionary(json: &Json) -> (r: Option<RoutingDictionary>)
    ensures
        match dictionary_of(json@) {
            Some(dictionary) => r matches Some(found) && found@ == dictionary,
            None => r is None,
        },
{
    let merchant_id = match json.get_text("merchant_id") {
        Some(id) => id,
        None => {
            return None;
        },
    };
    let active_id = match json.get_optional_text("active_id") {
        Some(id) => id,
        None => {
            return None;
        },
    };
    let records = match json.get("records") {
        Some(records) => records,
        None => {
            return None;
        },
    };
    match decode_records(records) {
        Some(records) => Some(RoutingDictionary { merchant_id, active_id, records }),
        None => None,
    }
}

/// Writes a reference to an algorithm as a JSON value.
pub fn encode_algorithm_ref(reference: &RoutingAlgorithmRef) -> (r: Json)
    ensures
        r@ == algorithm_ref_json(reference@),
{
    let mut members: Vec<(String, Json)> = Vec::new();
    members.push((String::from_str("algorithm_id"), Json::optional_text(&reference.algorithm_id)));
    members.push((String::from_str("timestamp"), Json::Number(reference.timestamp)));
    members.push(
        (String::from_str("config_algo_id"), Json::optional_text(&reference.config_algo_id)),
    );
    members.push(
        (
            String::from_str("surcharge_config_algo_id"),
            Json::optional_text(&reference.surcharge_config_algo_id),
        ),
    );
    proof {
        lemma_object_view(members);
        assert(members_view(members@) =~= algorithm_ref_json(reference@)->Object_0);
    }
    Json::Object(members)
}

/// Reads a reference to an algorithm from a JSON value.
pub fn decode_algorithm_ref(json: &Json) -> (r: Option<RoutingAlgorithmRef>)
    ensures
        match algorithm_ref_of(json@) {
            Some(reference) => r matches Some(found) && found@ == reference,
            None => r is None,
        },
{
    match (
        json.get_optional_text("algorithm_id"),
        json.get_number("timestamp"),
        json.get_optional_text("config_algo_id"),
        json.get_optional_text("surcharge_config_algo_id"),
    ) {
        (Some(algorithm_id), Some(timestamp), Some(config_algo_id), Some(surcharge_config_algo_id)) => {
            Some(
                RoutingAlgorithmRef {
                    algorithm_id,
                    timestamp,
                    config_algo_id,
                    surcharge_config_algo_id,
                },
            )
        },
        _ => None,
    }
}

} // verus!
