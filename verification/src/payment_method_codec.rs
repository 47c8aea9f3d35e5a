//! How the mandates and the connector tokens of a stored payment method
//! are written as JSON values and read back. Both are objects whose member
//! names are identifiers: merchant connector account ids for the mandates,
//! connector names for the tokens.

use vstd::prelude::*;
use vstd::string::StringExecFns;

use crate::enums::{Currency, PaymentMethodType};
use crate::json::{
    field, lemma_member_found, lemma_object_view, members_view, optional_text_json,
    optional_text_of, text_of_member, Json, JsonValue,
};
use crate::names::{
    currency_name, currency_of, currency_text, lemma_currency_reads_back,
    lemma_payment_method_type_reads_back, parse_currency, parse_payment_method_type,
    payment_method_type_name, payment_method_type_of, payment_method_type_text,
};
use crate::payment_methods::{
    MandateRecord, PaymentsMandateReference, PaymentsMandateReferenceRecord,
    StoredMandateDetails, StoredMetadata,
};
use crate::text_map::{lemma_pairs_map_push, pairs_map, TextMap};

verus! {

/// An optional whole number as JSON: the number, or null.
pub open spec fn optional_number_json(number: Option<i64>) -> JsonValue {
    match number {
        Some(n) => JsonValue::Number(n as int),
        None => JsonValue::Null,
    }
}

/// The optional whole number that a member holds: outside, whether the
/// member is well formed; inside, the number.
pub open spec fn optional_number_of(value: Option<JsonValue>) -> Option<Option<i64>> {
    match value {
        None | Some(JsonValue::Null) => Some(None),
        Some(JsonValue::Number(n)) => if i64::MIN <= n <= i64::MAX {
            Some(Some(n as i64))
        } else {
            None
        },
        _ => None,
    }
}

/// The optional payment method type that a member holds.
pub open spec fn optional_type_of(value: Option<JsonValue>) -> Option<Option<PaymentMethodType>> {
    match optional_text_of(value) {
        None => None,
        Some(None) => Some(None),
        Some(Some(name)) => match payment_method_type_of(name) {
            Some(kind) => Some(Some(kind)),
            None => None,
        },
    }
}

/// The optional currency that a member holds.
pub open spec fn optional_currency_of(value: Option<JsonValue>) -> Option<Option<Currency>> {
    match optional_text_of(value) {
        None => None,
        Some(None) => Some(None),
        Some(Some(name)) => match currency_of(name) {
            Some(currency) => Some(Some(currency)),
            None => None,
        },
    }
}

/// A mandate record as JSON.
pub open spec fn mandate_record_json(record: MandateRecord) -> JsonValue {
    JsonValue::Object(
        seq![
            ("connector_mandate_id"@, JsonValue::Text(record.connector_mandate_id)),
            (
                "payment_method_type"@,
                optional_text_json(
                    match record.payment_method_type {
                        Some(kind) => Some(payment_method_type_text(kind)),
                        None => None,
                    },
                ),
            ),
            (
                "original_payment_authorized_amount"@,
                optional_number_json(record.original_payment_authorized_amount),
            ),
            (
                "original_payment_authorized_currency"@,
                optional_text_json(
                    match record.original_payment_authorized_currency {
                        Some(currency) => Some(currency_text(currency)),
                        None => None,
                    },
                ),
            ),
        ],
    )
}

/// The mandate record that a JSON value holds.
pub open spec fn mandate_record_of(json: JsonValue) -> Option<MandateRecord> {
    match (
        text_of_member(field(json, "connector_mandate_id"@)),
        optional_type_of(field(json, "payment_method_type"@)),
        optional_number_of(field(json, "original_payment_authorized_amount"@)),
        optional_currency_of(field(json, "original_payment_authorized_currency"@)),
    ) {
        (Some(connector_mandate_id), Some(payment_method_type), Some(amount), Some(currency)) => {
            Some(
                MandateRecord {
                    connector_mandate_id,
                    payment_method_type,
                    original_payment_authorized_amount: amount,
                    original_payment_authorized_currency: currency,
                },
            )
        },
        _ => None,
    }
}

pub proof fn lemma_mandate_record_reads_back(record: MandateRecord)
    ensures
        mandate_record_of(mandate_record_json(record)) == Some(record),
{
    let members = mandate_record_json(record)->Object_0;
    match record.payment_method_type {
        Some(kind) => lemma_payment_method_type_reads_back(kind),
        None => {},
    }
    match record.original_payment_authorized_currency {
        Some(currency) => lemma_currency_reads_back(currency),
        None => {},
    }
    reveal_strlit("connector_mandate_id");
    reveal_strlit("payment_method_type");
    reveal_strlit("original_payment_authorized_amount");
    reveal_strlit("original_payment_authorized_currency");
    assert("connector_mandate_id"@.len() != "payment_method_type"@.len());
    assert("connector_mandate_id"@.len() != "original_payment_authorized_amount"@.len());
    assert("connector_mandate_id"@.len() != "original_payment_authorized_currency"@.len());
    assert("payment_method_type"@.len() != "original_payment_authorized_amount"@.len());
    assert("payment_method_type"@.len() != "original_payment_authorized_currency"@.len());
    assert("original_payment_authorized_amount"@.len() != "original_payment_authorized_currency"@.len());
    lemma_member_found(members, 0);
    lemma_member_found(members, 1);
    lemma_member_found(members, 2);
    lemma_member_found(members, 3);
}

/// The mandates of a payment method as JSON: one member for each merchant
/// connector account.
pub open spec fn mandates_json(pairs: Seq<(Seq<char>, MandateRecord)>) -> JsonValue {
    JsonValue::Object(
        Seq::new(pairs.len(), |i: int| (pairs[i].0, mandate_record_json(pairs[i].1))),
    )
}

/// The accounts and mandate records that a JSON value holds, in its order.
pub open spec fn mandate_pairs_of(json: JsonValue) -> Option<Seq<(Seq<char>, MandateRecord)>> {
    match json {
        JsonValue::Object(members) => if forall|i: int|
            0 <= i < members.len() ==> mandate_record_of((#[trigger] members[i]).1) is Some {
            Some(
                Seq::new(
                    members.len(),
                    |i: int| (members[i].0, mandate_record_of(members[i].1)->Some_0),
                ),
            )
        } else {
            None
        },
        _ => None,
    }
}

/// The mandates that a JSON value holds, by merchant connector account. A
/// later member overrides an earlier one of the same name.
pub open spec fn mandates_of(json: JsonValue) -> Option<Map<Seq<char>, MandateRecord>> {
    match mandate_pairs_of(json) {
        Some(pairs) => Some(pairs_map(pairs)),
        None => None,
    }
}

/// Writing mandates and reading the result back gives the same mandates,
/// account by account.
pub proof fn lemma_mandates_read_back(pairs: Seq<(Seq<char>, MandateRecord)>)
    ensures
        mandate_pairs_of(mandates_json(pairs)) == Some(pairs),
        mandates_of(mandates_json(pairs)) == Some(pairs_map(pairs)),
{
    let members = mandates_json(pairs)->Object_0;
    assert forall|i: int| 0 <= i < members.len() implies mandate_record_of(
        (#[trigger] members[i]).1,
    ) == Some(pairs[i].1) by {
        lemma_mandate_record_reads_back(pairs[i].1);
    }
    assert(Seq::new(
        members.len(),
        |i: int| (members[i].0, mandate_record_of(members[i].1)->Some_0),
    ) =~= pairs);
}

/// The connector tokens of a payment method as JSON: one member for each
/// connector.
pub open spec fn tokens_json(pairs: Seq<(Seq<char>, Seq<char>)>) -> JsonValue {
    JsonValue::Object(Seq::new(pairs.len(), |i: int| (pairs[i].0, JsonValue::Text(pairs[i].1))))
}

/// The connectors and tokens that a JSON value holds, in its order.
pub open spec fn token_pairs_of(json: JsonValue) -> Option<Seq<(Seq<char>, Seq<char>)>> {
    match json {
        JsonValue::Object(members) => if forall|i: int|
            0 <= i < members.len() ==> (#[trigger] members[i]).1 is Text {
            Some(Seq::new(members.len(), |i: int| (members[i].0, members[i].1->Text_0)))
        } else {
            None
        },
        _ => None,
    }
}

/// The tokens that a JSON value holds, by connector.
pub open spec fn tokens_of(json: JsonValue) -> Option<Map<Seq<char>, Seq<char>>> {
    match token_pairs_of(json) {
        Some(pairs) => Some(pairs_map(pairs)),
        None => None,
    }
}

/// Writing tokens and reading the result back gives the same tokens,
/// connector by connector.
pub proof fn lemma_tokens_read_back(pairs: Seq<(Seq<char>, Seq<char>)>)
    ensures
        token_pairs_of(tokens_json(pairs)) == Some(pairs),
        tokens_of(tokens_json(pairs)) == Some(pairs_map(pairs)),
{
    let members = tokens_json(pairs)->Object_0;
    assert(Seq::new(members.len(), |i: int| (members[i].0, members[i].1->Text_0)) =~= pairs);
}

/// The mandates of a payment method, written and read back, are the
/// mandates of that payment method.
pub proof fn lemma_stored_mandates_read_back(reference: PaymentsMandateReference)
    ensures
        mandates_of(mandates_json(reference.0.pairs())) == Some(reference@),
{
    reference.0.lemma_view_of_pairs();
    lemma_mandates_read_back(reference.0.pairs());
}

/// The connector tokens of a payment method, written and read back, are
/// the tokens of that payment method.
pub proof fn lemma_stored_tokens_read_back(tokens: TextMap<String>)
    ensures
        tokens_of(tokens_json(tokens.pairs())) == Some(tokens@),
{
    tokens.lemma_view_of_pairs();
    lemma_tokens_read_back(tokens.pairs());
}

fn optional_number(number: Option<i64>) -> (r: Json)
    ensures
        r@ == optional_number_json(number),
{
    match number {
        Some(n) => Json::Number(n),
        None => Json::Null,
    }
}

/// Writes a mandate record.
pub fn encode_mandate_record(record: &PaymentsMandateReferenceRecord) -> (r: Json)
    ensures
        r@ == mandate_record_json(record@),
{
    let mut members: Vec<(String, Json)> = Vec::new();
    members.push(
        (String::from_str("connector_mandate_id"), Json::text(record.connector_mandate_id.as_str())),
    );
    members.push(
        (
            String::from_str("payment_method_type"),
            match record.payment_method_type {
                Some(kind) => Json::text(payment_method_type_name(kind)),
                None => Json::Null,
            },
        ),
    );
    members.push(
        (
            String::from_str("original_payment_authorized_amount"),
            optional_number(record.original_payment_authorized_amount),
        ),
    );
    members.push(
        (
            String::from_str("original_payment_authorized_currency"),
            match record.original_payment_authorized_currency {
                Some(currency) => Json::text(currency_name(currency)),
                None => Json::Null,
            },
        ),
    );
    proof {
        lemma_object_view(members);
        assert(members_view(members@) =~= mandate_record_json(record@)->Object_0);
    }
    Json::Object(members)
}

fn get_optional_number(json: &Json, name: &str) -> (r: Option<Option<i64>>)
    ensures
        r == optional_number_of(field(json@, name@)),
{
    match json.get(name) {
        None => Some(None),
        Some(Json::Null) => Some(None),
        Some(Json::Number(n)) => Some(Some(*n)),
        Some(_) => None,
    }
}

fn get_optional_type(json: &Json, name: &str) -> (r: Option<Option<PaymentMethodType>>)
    ensures
        r == optional_type_of(field(json@, name@)),
{
    match json.get_optional_text(name) {
        None => None,
        Some(None) => Some(None),
        Some(Some(text)) => match parse_payment_method_type(text.as_str()) {
            Some(kind) => Some(Some(kind)),
            None => None,
        },
    }
}

fn get_optional_currency(json: &Json, name: &str) -> (r: Option<Option<Currency>>)
    ensures
        r == optional_currency_of(field(json@, name@)),
{
    match json.get_optional_text(name) {
        None => None,
        Some(None) => Some(None),
        Some(Some(text)) => match parse_currency(text.as_str()) {
            Some(currency) => Some(Some(currency)),
            None => None,
        },
    }
}

/// Reads a mandate record.
pub fn decode_mandate_record(json: &Json) -> (r: Option<PaymentsMandateReferenceRecord>)
    ensures
        match mandate_record_of(json@) {
            Some(record) => r matches Some(found) && found@ == record,
            None => r is None,
        },
{
    match (
        json.get_text("connector_mandate_id"),
        get_optional_type(json, "payment_method_type"),
        get_optional_number(json, "original_payment_authorized_amount"),
        get_optional_currency(json, "original_payment_authorized_currency"),
    ) {
        (Some(connector_mandate_id), Some(payment_method_type), Some(amount), Some(currency)) => {
            Some(
                PaymentsMandateReferenceRecord {
                    connector_mandate_id,
                    payment_method_type,
                    original_payment_authorized_amount: amount,
                    original_payment_authorized_currency: currency,
                },
            )
        },
        _ => None,
    }
}

/// Writes the mandates of a payment method as a JSON value.
pub fn encode_mandates(reference: &PaymentsMandateReference) -> (r: Json)
    ensures
        r@ == mandates_json(reference.0.pairs()),
{
    let map = &reference.0;
    let mut members: Vec<(String, Json)> = Vec::new();
    let mut i: usize = 0;
    while i < map.len()
        invariant
            i <= map.pairs().len(),
            members@.len() == i,
            forall|j: int|
                0 <= j < i ==> (#[trigger] members@[j]).0@ == map.pairs()[j].0 && members@[j].1@
                    == mandate_record_json(map.pairs()[j].1),
        decreases map.pairs().len() - i,
    {
        members.push((map.key_at(i).clone(), encode_mandate_record(map.value_at(i))));
        i += 1;
    }
    proof {
        lemma_object_view(members);
        assert(members_view(members@) =~= mandates_json(map.pairs())->Object_0);
    }
    Json::Object(members)
}

/// Reads the mandates of a payment method from a JSON value; nothing where
/// the value is no object of mandate records.
pub fn decode_mandates(json: &Json) -> (r: Option<PaymentsMandateReference>)
    ensures
        match mandates_of(json@) {
            Some(mandates) => r matches Some(found) && found@ == mandates,
            None => r is None,
        },
{
    match json {
        Json::Object(members) => {
            proof {
                lemma_object_view(*members);
            }
            let ghost views = members_view(members@);
            let mut out: TextMap<PaymentsMandateReferenceRecord> = TextMap::new();
            let mut i: usize = 0;
            let ghost mut read: Seq<(Seq<char>, MandateRecord)> = Seq::empty();
            while i < members.len()
                invariant
                    i <= members@.len(),
                    views == members_view(members@),
                    json@ == JsonValue::Object(views),
                    read.len() == i,
                    forall|j: int|
                        0 <= j < i ==> mandate_record_of((#[trigger] views[j]).1) == Some(
                            read[j].1,
                        ) && read[j].0 == views[j].0,
                    out@ == pairs_map(read),
                decreases members@.len() - i,
            {
                assert(views[i as int] == (members@[i as int].0@, members@[i as int].1@));
                match decode_mandate_record(&members[i].1) {
                    Some(record) => {
                        proof {
                            lemma_pairs_map_push(read, members@[i as int].0@, record@);
                            read = read.push((members@[i as int].0@, record@));
                        }
                        out.insert(members[i].0.clone(), record);
                    },
                    None => {
                        return None;
                    },
                }
                i += 1;
            }
            assert(read =~= mandate_pairs_of(json@)->Some_0);
            Some(PaymentsMandateReference(out))
        },
        _ => None,
    }
}

/// What a stored payment method holds as its mandate details: nothing
/// where there is no value or a null, the mandates where the value holds
/// them, and something unreadable otherwise.
pub fn stored_mandate_details(json: Option<&Json>) -> (r: StoredMandateDetails)
    ensures
        match json {
            None => r is Absent,
            Some(value) => if value@ is Null {
                r is Absent
            } else {
                match mandates_of(value@) {
                    Some(mandates) => r matches StoredMandateDetails::Valid(found) && found@
                        == mandates,
                    None => r is Malformed,
                }
            },
        },
{
    match json {
        None => StoredMandateDetails::Absent,
        Some(Json::Null) => StoredMandateDetails::Absent,
        Some(value) => match decode_mandates(value) {
            Some(reference) => StoredMandateDetails::Valid(reference),
            None => StoredMandateDetails::Malformed,
        },
    }
}

/// Writes the connector tokens of a payment method as a JSON value.
pub fn encode_tokens(tokens: &TextMap<String>) -> (r: Json)
    ensures
        r@ == tokens_json(tokens.pairs()),
{
    let mut members: Vec<(String, Json)> = Vec::new();
    let mut i: usize = 0;
    while i < tokens.len()
        invariant
            i <= tokens.pairs().len(),
            members@.len() == i,
            forall|j: int|
                0 <= j < i ==> (#[trigger] members@[j]).0@ == tokens.pairs()[j].0 && members@[j].1@
                    == JsonValue::Text(tokens.pairs()[j].1),
        decreases tokens.pairs().len() - i,
    {
        members.push((tokens.key_at(i).clone(), Json::text(tokens.value_at(i).as_str())));
        i += 1;
    }
    proof {
        lemma_object_view(members);
        assert(members_view(members@) =~= tokens_json(tokens.pairs())->Object_0);
    }
    Json::Object(members)
}

/// Reads the connector tokens of a payment method from a JSON value;
/// nothing where the value is no object of texts.
pub fn decode_tokens(json: &Json) -> (r: Option<TextMap<String>>)
    ensures
        match tokens_of(json@) {
            Some(tokens) => r matches Some(found) && found@ == tokens,
            None => r is None,
        },
{
    match json {
        Json::Object(members) => {
            proof {
                lemma_object_view(*members);
            }
            let ghost views = members_view(members@);
            let mut out: TextMap<String> = TextMap::new();
            let mut i: usize = 0;
            let ghost mut read: Seq<(Seq<char>, Seq<char>)> = Seq::empty();
            while i < members.len()
                invariant
                    i <= members@.len(),
                    views == members_view(members@),
                    json@ == JsonValue::Object(views),
                    read.len() == i,
                    forall|j: int|
                        0 <= j < i ==> (#[trigger] views[j]).1 == JsonValue::Text(read[j].1)
                            && read[j].0 == views[j].0,
                    out@ == pairs_map(read),
                decreases members@.len() - i,
            {
                assert(views[i as int] == (members@[i as int].0@, members@[i as int].1@));
                match &members[i].1 {
                    Json::Text(token) => {
                        proof {
                            lemma_pairs_map_push(read, members@[i as int].0@, token@);
                            read = read.push((members@[i as int].0@, token@));
                        }
                        out.insert(members[i].0.clone(), token.clone());
                    },
                    _ => {
                        return None;
                    },
                }
                i += 1;
            }
            assert(read =~= token_pairs_of(json@)->Some_0);
            Some(out)
        },
        _ => None,
    }
}

/// What a stored payment method holds as its connector tokens: nothing
/// where there is no value or a null, the tokens where the value holds
/// them, and something unreadable otherwise.
pub fn stored_metadata(json: Option<&Json>) -> (r: StoredMetadata)
    ensures
        match json {
            None => r is Absent,
            Some(value) => if value@ is Null {
                r is Absent
            } else {
                match tokens_of(value@) {
                    Some(tokens) => r matches StoredMetadata::Valid(found) && found@ == tokens,
                    None => r is Malformed,
                }
            },
        },
{
    match json {
        None => StoredMetadata::Absent,
        Some(Json::Null) => StoredMetadata::Absent,
        Some(value) => match decode_tokens(value) {
            Some(tokens) => StoredMetadata::Valid(tokens),
            None => StoredMetadata::Malformed,
        },
    }
}

} // verus!
