//! How routing algorithms are written as JSON values and read back.
//!
//! An algorithm is an object with its kind under `type` and its content
//! under `data`; so is a selection. A connector choice is an object with
//! the connector's name and, where it is pinned, the id of the merchant
//! connector account. What is written is read back as it was.

use vstd::prelude::*;

use crate::enums::{CaptureMethod, Currency, PaymentMethod, PaymentMethodType};
use crate::json::{field, items_view, lemma_array_view, member, Json, JsonValue};
use crate::names::{
    capture_method_name, capture_method_of, capture_method_text, comparison_type_name,
    comparison_type_of, comparison_type_text, context_key_name, context_key_of,
    context_key_text, currency_name, currency_of, currency_text,
    lemma_capture_method_reads_back, lemma_comparison_type_reads_back,
    lemma_context_key_reads_back, lemma_currency_reads_back,
    lemma_payment_method_reads_back, lemma_payment_method_type_reads_back,
    parse_capture_method, parse_comparison_type, parse_context_key, parse_currency,
    parse_payment_method, parse_payment_method_type, payment_method_name, payment_method_of,
    payment_method_text, payment_method_type_name, payment_method_type_of,
    payment_method_type_text,
};
use crate::routing::types::{
    choices_view, rules_view, splits_view, AlgorithmView, ChoiceView, Comparison,
    ConnectorSelection, ConnectorVolumeSplit, ContextValue, Program, ProgramView,
    RoutableConnectorChoice, RoutingAlgorithm, Rule, RuleView, SelectionView, SplitView,
};
use crate::text::same_text;

verus! {

/// An object of two members.
pub open spec fn object2(k1: Seq<char>, v1: JsonValue, k2: Seq<char>, v2: JsonValue) -> JsonValue {
    JsonValue::Object(seq![(k1, v1), (k2, v2)])
}

/// An object of three members.
pub open spec fn object3(
    k1: Seq<char>,
    v1: JsonValue,
    k2: Seq<char>,
    v2: JsonValue,
    k3: Seq<char>,
    v3: JsonValue,
) -> JsonValue {
    JsonValue::Object(seq![(k1, v1), (k2, v2), (k3, v3)])
}

/// A value with its kind beside it.
pub open spec fn tagged(kind: Seq<char>, data: JsonValue) -> JsonValue {
    object2("type"@, JsonValue::Text(kind), "data"@, data)
}

/// The members of an object of two members with different names.
pub proof fn lemma_object2_fields(k1: Seq<char>, v1: JsonValue, k2: Seq<char>, v2: JsonValue)
    requires
        k1 != k2,
    ensures
        field(object2(k1, v1, k2, v2), k1) == Some(v1),
        field(object2(k1, v1, k2, v2), k2) == Some(v2),
{
    let members = seq![(k1, v1), (k2, v2)];
    assert(members.drop_first() =~= seq![(k2, v2)]);
    assert(member(members.drop_first(), k2) == Some(v2));
}

/// The members of an object of three members with different names.
pub proof fn lemma_object3_fields(
    k1: Seq<char>,
    v1: JsonValue,
    k2: Seq<char>,
    v2: JsonValue,
    k3: Seq<char>,
    v3: JsonValue,
)
    requires
        k1 != k2,
        k1 != k3,
        k2 != k3,
    ensures
        field(object3(k1, v1, k2, v2, k3, v3), k1) == Some(v1),
        field(object3(k1, v1, k2, v2, k3, v3), k2) == Some(v2),
        field(object3(k1, v1, k2, v2, k3, v3), k3) == Some(v3),
{
    let members = seq![(k1, v1), (k2, v2), (k3, v3)];
    let tail = seq![(k2, v2), (k3, v3)];
    assert(members.drop_first() =~= tail);
    assert(tail.drop_first() =~= seq![(k3, v3)]);
    assert(member(tail.drop_first(), k3) == Some(v3));
    assert(member(tail, k2) == Some(v2));
    assert(member(tail, k3) == Some(v3));
}

/// The names of the members of one object differ from each other, and so
/// do the kinds of one family.
pub proof fn lemma_names_differ()
    ensures
        "type"@ != "data"@,
        "type"@ != "value"@,
        "connector"@ != "merchant_connector_id"@,
        "connector"@ != "split"@,
        "lhs"@ != "comparison"@,
        "lhs"@ != "value"@,
        "comparison"@ != "value"@,
        "name"@ != "predicate"@,
        "name"@ != "connector_selection"@,
        "predicate"@ != "connector_selection"@,
        "default_selection"@ != "rules"@,
        "single"@ != "priority"@,
        "single"@ != "volume_split"@,
        "single"@ != "advanced"@,
        "priority"@ != "volume_split"@,
        "priority"@ != "advanced"@,
        "volume_split"@ != "advanced"@,
        "number"@ != "currency"@,
        "number"@ != "payment_method"@,
        "number"@ != "payment_method_type"@,
        "number"@ != "capture_method"@,
        "currency"@ != "payment_method"@,
        "currency"@ != "payment_method_type"@,
        "currency"@ != "capture_method"@,
        "payment_method"@ != "payment_method_type"@,
        "payment_method"@ != "capture_method"@,
        "payment_method_type"@ != "capture_method"@,
{
    reveal_strlit("type");
    reveal_strlit("data");
    reveal_strlit("value");
    reveal_strlit("connector");
    reveal_strlit("merchant_connector_id");
    reveal_strlit("split");
    reveal_strlit("lhs");
    reveal_strlit("comparison");
    reveal_strlit("name");
    reveal_strlit("predicate");
    reveal_strlit("connector_selection");
    reveal_strlit("default_selection");
    reveal_strlit("rules");
    reveal_strlit("single");
    reveal_strlit("priority");
    reveal_strlit("volume_split");
    reveal_strlit("advanced");
    reveal_strlit("number");
    reveal_strlit("currency");
    reveal_strlit("payment_method");
    reveal_strlit("payment_method_type");
    reveal_strlit("capture_method");
    assert("type"@[0] != "data"@[0]);
    assert("type"@.len() != "value"@.len());
    assert("connector"@.len() != "merchant_connector_id"@.len());
    assert("connector"@.len() != "split"@.len());
    assert("lhs"@.len() != "comparison"@.len());
    assert("lhs"@.len() != "value"@.len());
    assert("comparison"@.len() != "value"@.len());
    assert("name"@.len() != "predicate"@.len());
    assert("name"@.len() != "connector_selection"@.len());
    assert("predicate"@.len() != "connector_selection"@.len());
    assert("default_selection"@.len() != "rules"@.len());
    assert("single"@.len() != "priority"@.len());
    assert("single"@.len() != "volume_split"@.len());
    assert("single"@.len() != "advanced"@.len());
    assert("priority"@.len() != "volume_split"@.len());
    assert("priority"@[0] != "advanced"@[0]);
    assert("volume_split"@.len() != "advanced"@.len());
    assert("number"@.len() != "currency"@.len());
    assert("number"@.len() != "payment_method"@.len());
    assert("number"@.len() != "payment_method_type"@.len());
    assert("number"@.len() != "capture_method"@.len());
    assert("currency"@.len() != "payment_method"@.len());
    assert("currency"@.len() != "payment_method_type"@.len());
    assert("currency"@.len() != "capture_method"@.len());
    assert("payment_method"@.len() != "payment_method_type"@.len());
    assert("payment_method"@[0] != "capture_method"@[0]);
    assert("payment_method_type"@.len() != "capture_method"@.len());
}

/// A connector choice as JSON.
pub open spec fn choice_json(choice: ChoiceView) -> JsonValue {
    object2(
        "connector"@,
        JsonValue::Text(choice.connector),
        "merchant_connector_id"@,
        match choice.merchant_connector_id {
            Some(id) => JsonValue::Text(id),
            None => JsonValue::Null,
        },
    )
}

/// The connector choice that a JSON value holds. The account id may be left
/// out or null.
pub open spec fn choice_of(json: JsonValue) -> Option<ChoiceView> {
    match field(json, "connector"@) {
        Some(JsonValue::Text(connector)) => match field(json, "merchant_connector_id"@) {
            None | Some(JsonValue::Null) => Some(
                ChoiceView { connector, merchant_connector_id: None },
            ),
            Some(JsonValue::Text(id)) => Some(
                ChoiceView { connector, merchant_connector_id: Some(id) },
            ),
            _ => None,
        },
        _ => None,
    }
}

pub proof fn lemma_choice_reads_back(choice: ChoiceView)
    ensures
        choice_of(choice_json(choice)) == Some(choice),
{
    lemma_names_differ();
    lemma_object2_fields(
        "connector"@,
        JsonValue::Text(choice.connector),
        "merchant_connector_id"@,
        match choice.merchant_connector_id {
            Some(id) => JsonValue::Text(id),
            None => JsonValue::Null,
        },
    );
}

/// Connector choices as JSON.
pub open spec fn choices_json(list: Seq<ChoiceView>) -> JsonValue {
    JsonValue::Array(Seq::new(list.len(), |i: int| choice_json(list[i])))
}

/// The connector choices that a JSON value holds: it has to be an array of
/// them.
pub open spec fn choices_of(json: JsonValue) -> Option<Seq<ChoiceView>> {
    match json {
        JsonValue::Array(items) => if forall|i: int|
            0 <= i < items.len() ==> choice_of(#[trigger] items[i]) is Some {
            Some(Seq::new(items.len(), |i: int| choice_of(items[i])->Some_0))
        } else {
            None
        },
        _ => None,
    }
}

pub proof fn lemma_choices_read_back(list: Seq<ChoiceView>)
    ensures
        choices_of(choices_json(list)) == Some(list),
{
    let items = choices_json(list)->Array_0;
    assert forall|i: int| 0 <= i < items.len() implies choice_of(#[trigger] items[i]) == Some(
        list[i],
    ) by {
        lemma_choice_reads_back(list[i]);
    }
    assert(Seq::new(items.len(), |i: int| choice_of(items[i])->Some_0) =~= list);
}

/// An entry of a volume split as JSON.
pub open spec fn split_json(split: SplitView) -> JsonValue {
    object2(
        "connector"@,
        choice_json(split.connector),
        "split"@,
        JsonValue::Number(split.split as int),
    )
}

/// The entry of a volume split that a JSON value holds. The weight is a
/// whole number from 0 to 255.
pub open spec fn split_of(json: JsonValue) -> Option<SplitView> {
    match (field(json, "connector"@), field(json, "split"@)) {
        (Some(connector), Some(JsonValue::Number(weight))) => if choice_of(connector) is Some
            && 0 <= weight <= 255 {
            Some(SplitView { connector: choice_of(connector)->Some_0, split: weight as u8 })
        } else {
            None
        },
        _ => None,
    }
}

pub proof fn lemma_split_reads_back(split: SplitView)
    ensures
        split_of(split_json(split)) == Some(split),
{
    lemma_names_differ();
    lemma_choice_reads_back(split.connector);
    lemma_object2_fields(
        "connector"@,
        choice_json(split.connector),
        "split"@,
        JsonValue::Number(split.split as int),
    );
}

/// The entries of a volume split as JSON.
pub open spec fn splits_json(splits: Seq<SplitView>) -> JsonValue {
    JsonValue::Array(Seq::new(splits.len(), |i: int| split_json(splits[i])))
}

/// The entries of a volume split that a JSON value holds.
pub open spec fn splits_of(json: JsonValue) -> Option<Seq<SplitView>> {
    match json {
        JsonValue::Array(items) => if forall|i: int|
            0 <= i < items.len() ==> split_of(#[trigger] items[i]) is Some {
            Some(Seq::new(items.len(), |i: int| split_of(items[i])->Some_0))
        } else {
            None
        },
        _ => None,
    }
}

pub proof fn lemma_splits_read_back(splits: Seq<SplitView>)
    ensures
        splits_of(splits_json(splits)) == Some(splits),
{
    let items = splits_json(splits)->Array_0;
    assert forall|i: int| 0 <= i < items.len() implies split_of(#[trigger] items[i]) == Some(
        splits[i],
    ) by {
        lemma_split_reads_back(splits[i]);
    }
    assert(Seq::new(items.len(), |i: int| split_of(items[i])->Some_0) =~= splits);
}

/// A selection as JSON.
pub open spec fn selection_json(selection: SelectionView) -> JsonValue {
    match selection {
        SelectionView::Priority(list) => tagged("priority"@, choices_json(list)),
        SelectionView::VolumeSplit(splits) => tagged("volume_split"@, splits_json(splits)),
    }
}

/// The selection that a JSON value holds.
pub open spec fn selection_of(json: JsonValue) -> Option<SelectionView> {
    match (field(json, "type"@), field(json, "data"@)) {
        (Some(JsonValue::Text(kind)), Some(data)) => if kind == "priority"@ {
            match choices_of(data) {
                Some(list) => Some(SelectionView::Priority(list)),
                None => None,
            }
        } else if kind == "volume_split"@ {
            match splits_of(data) {
                Some(splits) => Some(SelectionView::VolumeSplit(splits)),
                None => None,
            }
        } else {
            None
        },
        _ => None,
    }
}

pub proof fn lemma_selection_reads_back(selection: SelectionView)
    ensures
        selection_of(selection_json(selection)) == Some(selection),
{
    lemma_names_differ();
    match selection {
        SelectionView::Priority(list) => {
            lemma_choices_read_back(list);
            lemma_object2_fields(
                "type"@,
                JsonValue::Text("priority"@),
                "data"@,
                choices_json(list),
            );
        },
        SelectionView::VolumeSplit(splits) => {
            lemma_splits_read_back(splits);
            lemma_object2_fields(
                "type"@,
                JsonValue::Text("volume_split"@),
                "data"@,
                splits_json(splits),
            );
        },
    }
}

/// The kind of a value that a rule compares with.
pub open spec fn value_kind(value: ContextValue) -> Seq<char> {
    match value {
        ContextValue::Number(_) => "number"@,
        ContextValue::Currency(_) => "currency"@,
        ContextValue::PaymentMethod(_) => "payment_method"@,
        ContextValue::PaymentMethodType(_) => "payment_method_type"@,
        ContextValue::CaptureMethod(_) => "capture_method"@,
    }
}

/// A value that a rule compares with, as JSON: its kind, and the number or
/// the name.
pub open spec fn value_json(value: ContextValue) -> JsonValue {
    object2(
        "type"@,
        JsonValue::Text(value_kind(value)),
        "value"@,
        match value {
            ContextValue::Number(n) => JsonValue::Number(n as int),
            ContextValue::Currency(v) => JsonValue::Text(currency_text(v)),
            ContextValue::PaymentMethod(v) => JsonValue::Text(payment_method_text(v)),
            ContextValue::PaymentMethodType(v) => JsonValue::Text(payment_method_type_text(v)),
            ContextValue::CaptureMethod(v) => JsonValue::Text(capture_method_text(v)),
        },
    )
}

/// The value that a JSON value holds for a rule to compare with.
pub open spec fn value_of(json: JsonValue) -> Option<ContextValue> {
    match (field(json, "type"@), field(json, "value"@)) {
        (Some(JsonValue::Text(kind)), Some(JsonValue::Number(n))) => if kind == "number"@
            && i64::MIN <= n <= i64::MAX {
            Some(ContextValue::Number(n as i64))
        } else {
            None
        },
        (Some(JsonValue::Text(kind)), Some(JsonValue::Text(name))) => if kind == "currency"@ {
            match currency_of(name) {
                Some(v) => Some(ContextValue::Currency(v)),
                None => None,
            }
        } else if kind == "payment_method"@ {
            match payment_method_of(name) {
                Some(v) => Some(ContextValue::PaymentMethod(v)),
                None => None,
            }
        } else if kind == "payment_method_type"@ {
            match payment_method_type_of(name) {
                Some(v) => Some(ContextValue::PaymentMethodType(v)),
                None => None,
            }
        } else if kind == "capture_method"@ {
            match capture_method_of(name) {
                Some(v) => Some(ContextValue::CaptureMethod(v)),
                None => None,
            }
        } else {
            None
        },
        _ => None,
    }
}

pub proof fn lemma_value_reads_back(value: ContextValue)
    ensures
        value_of(value_json(value)) == Some(value),
{
    lemma_names_differ();
    let data = value_json(value)->Object_0[1].1;
    lemma_object2_fields("type"@, JsonValue::Text(value_kind(value)), "value"@, data);
    match value {
        ContextValue::Number(_) => {},
        ContextValue::Currency(v) => lemma_currency_reads_back(v),
        ContextValue::PaymentMethod(v) => lemma_payment_method_reads_back(v),
        ContextValue::PaymentMethodType(v) => lemma_payment_method_type_reads_back(v),
        ContextValue::CaptureMethod(v) => lemma_capture_method_reads_back(v),
    }
}

/// A comparison as JSON.
pub open spec fn comparison_json(comparison: Comparison) -> JsonValue {
    object3(
        "lhs"@,
        JsonValue::Text(context_key_text(comparison.lhs)),
        "comparison"@,
        JsonValue::Text(comparison_type_text(comparison.comparison)),
        "value"@,
        value_json(comparison.value),
    )
}

/// The comparison that a JSON value holds.
pub open spec fn comparison_of(json: JsonValue) -> Option<Comparison> {
    match (field(json, "lhs"@), field(json, "comparison"@), field(json, "value"@)) {
        (Some(JsonValue::Text(lhs)), Some(JsonValue::Text(comparison)), Some(value)) => {
            match (context_key_of(lhs), comparison_type_of(comparison), value_of(value)) {
                (Some(lhs), Some(comparison), Some(value)) => Some(
                    Comparison { lhs, comparison, value },
                ),
                _ => None,
            }
        },
        _ => None,
    }
}

pub proof fn lemma_comparison_reads_back(comparison: Comparison)
    ensures
        comparison_of(comparison_json(comparison)) == Some(comparison),
{
    lemma_names_differ();
    lemma_context_key_reads_back(comparison.lhs);
    lemma_comparison_type_reads_back(comparison.comparison);
    lemma_value_reads_back(comparison.value);
    lemma_object3_fields(
        "lhs"@,
        JsonValue::Text(context_key_text(comparison.lhs)),
        "comparison"@,
        JsonValue::Text(comparison_type_text(comparison.comparison)),
        "value"@,
        value_json(comparison.value),
    );
}

/// A predicate as JSON.
pub open spec fn predicate_json(predicate: Seq<Comparison>) -> JsonValue {
    JsonValue::Array(Seq::new(predicate.len(), |i: int| comparison_json(predicate[i])))
}

/// The predicate that a JSON value holds.
pub open spec fn predicate_of(json: JsonValue) -> Option<Seq<Comparison>> {
    match json {
        JsonValue::Array(items) => if forall|i: int|
            0 <= i < items.len() ==> comparison_of(#[trigger] items[i]) is Some {
            Some(Seq::new(items.len(), |i: int| comparison_of(items[i])->Some_0))
        } else {
            None
        },
        _ => None,
    }
}

pub proof fn lemma_predicate_reads_back(predicate: Seq<Comparison>)
    ensures
        predicate_of(predicate_json(predicate)) == Some(predicate),
{
    let items = predicate_json(predicate)->Array_0;
    assert forall|i: int| 0 <= i < items.len() implies comparison_of(#[trigger] items[i])
        == Some(predicate[i]) by {
        lemma_comparison_reads_back(predicate[i]);
    }
    assert(Seq::new(items.len(), |i: int| comparison_of(items[i])->Some_0) =~= predicate);
}

/// A rule as JSON.
pub open spec fn rule_json(rule: RuleView) -> JsonValue {
    object3(
        "name"@,
        JsonValue::Text(rule.name),
        "predicate"@,
        predicate_json(rule.predicate),
        "connector_selection"@,
        selection_json(rule.connector_selection),
    )
}

/// The rule that a JSON value holds.
pub open spec fn rule_of(json: JsonValue) -> Option<RuleView> {
    match (field(json, "name"@), field(json, "predicate"@), field(json, "connector_selection"@)) {
        (Some(JsonValue::Text(name)), Some(predicate), Some(selection)) => {
            match (predicate_of(predicate), selection_of(selection)) {
                (Some(predicate), Some(connector_selection)) => Some(
                    RuleView { name, predicate, connector_selection },
                ),
                _ => None,
            }
        },
        _ => None,
    }
}

pub proof fn lemma_rule_reads_back(rule: RuleView)
    ensures
        rule_of(rule_json(rule)) == Some(rule),
{
    lemma_names_differ();
    lemma_predicate_reads_back(rule.predicate);
    lemma_selection_reads_back(rule.connector_selection);
    lemma_object3_fields(
        "name"@,
        JsonValue::Text(rule.name),
        "predicate"@,
        predicate_json(rule.predicate),
        "connector_selection"@,
        selection_json(rule.connector_selection),
    );
}

/// Rules as JSON.
pub open spec fn rules_json(rules: Seq<RuleView>) -> JsonValue {
    JsonValue::Array(Seq::new(rules.len(), |i: int| rule_json(rules[i])))
}

/// The rules that a JSON value holds.
pub open spec fn rules_of(json: JsonValue) -> Option<Seq<RuleView>> {
    match json {
        JsonValue::Array(items) => if forall|i: int|
            0 <= i < items.len() ==> rule_of(#[trigger] items[i]) is Some {
            Some(Seq::new(items.len(), |i: int| rule_of(items[i])->Some_0))
        } else {
            None
        },
        _ => None,
    }
}

pub proof fn lemma_rules_read_back(rules: Seq<RuleView>)
    ensures
        rules_of(rules_json(rules)) == Some(rules),
{
    let items = rules_json(rules)->Array_0;
    assert forall|i: int| 0 <= i < items.len() implies rule_of(#[trigger] items[i]) == Some(
        rules[i],
    ) by {
        lemma_rule_reads_back(rules[i]);
    }
    assert(Seq::new(items.len(), |i: int| rule_of(items[i])->Some_0) =~= rules);
}

/// A program as JSON.
pub open spec fn program_json(program: ProgramView) -> JsonValue {
    object2(
        "default_selection"@,
        selection_json(program.default_selection),
        "rules"@,
        rules_json(program.rules),
    )
}

/// The program that a JSON value holds.
pub open spec fn program_of(json: JsonValue) -> Option<ProgramView> {
    match (field(json, "default_selection"@), field(json, "rules"@)) {
        (Some(selection), Some(rules)) => match (selection_of(selection), rules_of(rules)) {
            (Some(default_selection), Some(rules)) => Some(
                ProgramView { default_selection, rules },
            ),
            _ => None,
        },
        _ => None,
    }
}

pub proof fn lemma_program_reads_back(program: ProgramView)
    ensures
        program_of(program_json(program)) == Some(program),
{
    lemma_names_differ();
    lemma_selection_reads_back(program.default_selection);
    lemma_rules_read_back(program.rules);
    lemma_object2_fields(
        "default_selection"@,
        selection_json(program.default_selection),
        "rules"@,
        rules_json(program.rules),
    );
}

/// A routing algorithm as JSON.
pub open spec fn algorithm_json(algorithm: AlgorithmView) -> JsonValue {
    match algorithm {
        AlgorithmView::Single(choice) => tagged("single"@, choice_json(choice)),
        AlgorithmView::Priority(list) => tagged("priority"@, choices_json(list)),
        AlgorithmView::VolumeSplit(splits) => tagged("volume_split"@, splits_json(splits)),
        AlgorithmView::Advanced(program) => tagged("advanced"@, program_json(program)),
    }
}

/// The routing algorithm that a JSON value holds.
pub open spec fn algorithm_of(json: JsonValue) -> Option<AlgorithmView> {
    match (field(json, "type"@), field(json, "data"@)) {
        (Some(JsonValue::Text(kind)), Some(data)) => if kind == "single"@ {
            match choice_of(data) {
                Some(choice) => Some(AlgorithmView::Single(choice)),
                None => None,
            }
        } else if kind == "priority"@ {
            match choices_of(data) {
                Some(list) => Some(AlgorithmView::Priority(list)),
                None => None,
            }
        } else if kind == "volume_split"@ {
            match splits_of(data) {
                Some(splits) => Some(AlgorithmView::VolumeSplit(splits)),
                None => None,
            }
        } else if kind == "advanced"@ {
            match program_of(data) {
                Some(program) => Some(AlgorithmView::Advanced(program)),
                None => None,
            }
        } else {
            None
        },
        _ => None,
    }
}

/// Writing a routing algorithm and reading the result back gives the
/// algorithm again, whichever of the four kinds it is.
pub proof fn lemma_algorithm_reads_back(algorithm: AlgorithmView)
    ensures
        algorithm_of(algorithm_json(algorithm)) == Some(algorithm),
{
    lemma_names_differ();
    match algorithm {
        AlgorithmView::Single(choice) => {
            lemma_choice_reads_back(choice);
            lemma_object2_fields("type"@, JsonValue::Text("single"@), "data"@, choice_json(choice));
        },
        AlgorithmView::Priority(list) => {
            lemma_choices_read_back(list);
            lemma_object2_fields(
                "type"@,
                JsonValue::Text("priority"@),
                "data"@,
                choices_json(list),
            );
        },
        AlgorithmView::VolumeSplit(splits) => {
            lemma_splits_read_back(splits);
            lemma_object2_fields(
                "type"@,
                JsonValue::Text("volume_split"@),
                "data"@,
                splits_json(splits),
            );
        },
        AlgorithmView::Advanced(program) => {
            lemma_program_reads_back(program);
            lemma_object2_fields(
                "type"@,
                JsonValue::Text("advanced"@),
                "data"@,
                program_json(program),
            );
        },
    }
}

/// Writes a connector choice.
pub fn encode_choice(choice: &RoutableConnectorChoice) -> (r: Json)
    ensures
        r@ == choice_json(choice@),
{
    Json::object2(
        "connector",
        Json::text(choice.connector.as_str()),
        "merchant_connector_id",
        match &choice.merchant_connector_id {
            Some(id) => Json::text(id.as_str()),
            None => Json::Null,
        },
    )
}

fn text_in(json: &Json) -> (r: Option<String>)
    ensures
        match json@ {
            JsonValue::Text(text) => r matches Some(found) && found@ == text,
            _ => r is None,
        },
{
    match json {
        Json::Text(text) => Some(text.clone()),
        _ => None,
    }
}

/// Reads a connector choice.
pub fn decode_choice(json: &Json) -> (r: Option<RoutableConnectorChoice>)
    ensures
        match choice_of(json@) {
            Some(choice) => r matches Some(found) && found@ == choice,
            None => r is None,
        },
{
    let connector = match json.get("connector") {
        Some(value) => match text_in(value) {
            Some(text) => text,
            None => {
                return None;
            },
        },
        None => {
            return None;
        },
    };
    let merchant_connector_id = match json.get("merchant_connector_id") {
        None => None,
        Some(Json::Null) => None,
        Some(Json::Text(id)) => Some(id.clone()),
        Some(_) => {
            return None;
        },
    };
    Some(RoutableConnectorChoice { connector, merchant_connector_id })
}

/// Writes choices as a JSON array.
pub fn encode_choices(list: &Vec<RoutableConnectorChoice>) -> (r: Json)
    ensures
        r@ == choices_json(choices_view(list@)),
{
    let mut items: Vec<Json> = Vec::new();
    let mut i: usize = 0;
    while i < list.len()
        invariant
            i <= list@.len(),
            items@.len() == i,
            forall|j: int| 0 <= j < i ==> (#[trigger] items@[j])@ == choice_json(list@[j]@),
        decreases list@.len() - i,
    {
        items.push(encode_choice(&list[i]));
        i += 1;
    }
    let r = Json::array(items);
    assert(r@->Array_0 =~= choices_json(choices_view(list@))->Array_0);
    r
}

/// Reads choices from a JSON array; nothing where the value is no array or
/// an item cannot be read.
pub fn decode_choices(json: &Json) -> (r: Option<Vec<RoutableConnectorChoice>>)
    ensures
        match choices_of(json@) {
            Some(list) => r matches Some(out) && choices_view(out@) == list,
            None => r is None,
        },
{
    match json {
        Json::Array(items) => {
            proof {
                lemma_array_view(*items);
            }
            let ghost views = items_view(items@);
            let mut out: Vec<RoutableConnectorChoice> = Vec::new();
            let mut i: usize = 0;
            while i < items.len()
                invariant
                    i <= items@.len(),
                    out@.len() == i,
                    views == items_view(items@),
                    json@ == JsonValue::Array(views),
                    forall|j: int|
                        0 <= j < i ==> choice_of(#[trigger] views[j]) == Some(out@[j]@),
                decreases items@.len() - i,
            {
                assert(views[i as int] == items@[i as int]@);
                match decode_choice(&items[i]) {
                    Some(item) => {
                        out.push(item);
                    },
                    None => {
                        return None;
                    },
                }
                i += 1;
            }
            assert(choices_view(out@) =~= choices_of(json@)->Some_0);
            Some(out)
        },
        _ => None,
    }
}

/// Writes an entry of a volume split.
pub fn encode_split(split: &ConnectorVolumeSplit) -> (r: Json)
    ensures
        r@ == split_json(split@),
{
    Json::object2(
        "connector",
        encode_choice(&split.connector),
        "split",
        Json::Number(split.split as i64),
    )
}

/// Reads an entry of a volume split.
pub fn decode_split(json: &Json) -> (r: Option<ConnectorVolumeSplit>)
    ensures
        match split_of(json@) {
            Some(split) => r matches Some(found) && found@ == split,
            None => r is None,
        },
{
    let connector = match json.get("connector") {
        Some(value) => value,
        None => {
            return None;
        },
    };
    let weight = match json.get("split") {
        Some(Json::Number(n)) => *n,
        _ => {
            return None;
        },
    };
    let connector = match decode_choice(connector) {
        Some(choice) => choice,
        None => {
            return None;
        },
    };
    if 0 <= weight && weight <= 255 {
        Some(ConnectorVolumeSplit { connector, split: weight as u8 })
    } else {
        None
    }
}

/// Writes splits as a JSON array.
pub fn encode_splits(list: &Vec<ConnectorVolumeSplit>) -> (r: Json)
    ensures
        r@ == splits_json(splits_view(list@)),
{
    let mut items: Vec<Json> = Vec::new();
    let mut i: usize = 0;
    while i < list.len()
        invariant
            i <= list@.len(),
            items@.len() == i,
            forall|j: int| 0 <= j < i ==> (#[trigger] items@[j])@ == split_json(list@[j]@),
        decreases list@.len() - i,
    {
        items.push(encode_split(&list[i]));
        i += 1;
    }
    let r = Json::array(items);
    assert(r@->Array_0 =~= splits_json(splits_view(list@))->Array_0);
    r
}

/// Reads splits from a JSON array; nothing where the value is no array or
/// an item cannot be read.
pub fn decode_splits(json: &Json) -> (r: Option<Vec<ConnectorVolumeSplit>>)
    ensures
        match splits_of(json@) {
            Some(list) => r matches Some(out) && splits_view(out@) == list,
            None => r is None,
        },
{
    match json {
        Json::Array(items) => {
            proof {
                lemma_array_view(*items);
            }
            let ghost views = items_view(items@);
            let mut out: Vec<ConnectorVolumeSplit> = Vec::new();
            let mut i: usize = 0;
            while i < items.len()
                invariant
                    i <= items@.len(),
                    out@.len() == i,
                    views == items_view(items@),
                    json@ == JsonValue::Array(views),
                    forall|j: int|
                        0 <= j < i ==> split_of(#[trigger] views[j]) == Some(out@[j]@),
                decreases items@.len() - i,
            {
                assert(views[i as int] == items@[i as int]@);
                match decode_split(&items[i]) {
                    Some(item) => {
                        out.push(item);
                    },
                    None => {
                        return None;
                    },
                }
                i += 1;
            }
            assert(splits_view(out@) =~= splits_of(json@)->Some_0);
            Some(out)
        },
        _ => None,
    }
}

/// Writes a selection.
pub fn encode_selection(selection: &ConnectorSelection) -> (r: Json)
    ensures
        r@ == selection_json(selection@),
{
    match selection {
        ConnectorSelection::Priority(list) => Json::object2(
            "type",
            Json::text("priority"),
            "data",
            encode_choices(list),
        ),
        ConnectorSelection::VolumeSplit(splits) => Json::object2(
            "type",
            Json::text("volume_split"),
            "data",
            encode_splits(splits),
        ),
    }
}

fn kind_and_data(json: &Json) -> (r: Option<(&String, &Json)>)
    ensures
        match (field(json@, "type"@), field(json@, "data"@)) {
            (Some(JsonValue::Text(kind)), Some(data)) => r matches Some(found) && found.0@ == kind
                && found.1@ == data,
            _ => r is None,
        },
{
    let kind = match json.get("type") {
        Some(Json::Text(kind)) => kind,
        _ => {
            return None;
        },
    };
    match json.get("data") {
        Some(data) => Some((kind, data)),
        None => None,
    }
}

/// Reads a selection.
pub fn decode_selection(json: &Json) -> (r: Option<ConnectorSelection>)
    ensures
        match selection_of(json@) {
            Some(selection) => r matches Some(found) && found@ == selection,
            None => r is None,
        },
{
    let (kind, data) = match kind_and_data(json) {
        Some(found) => found,
        None => {
            return None;
        },
    };
    if same_text(kind.as_str(), "priority") {
        match decode_choices(data) {
            Some(list) => Some(ConnectorSelection::Priority(list)),
            None => None,
        }
    } else if same_text(kind.as_str(), "volume_split") {
        match decode_splits(data) {
            Some(splits) => Some(ConnectorSelection::VolumeSplit(splits)),
            None => None,
        }
    } else {
        None
    }
}

/// Writes a value that a rule compares with.
pub fn encode_value(value: &ContextValue) -> (r: Json)
    ensures
        r@ == value_json(*value),
{
    match value {
        ContextValue::Number(n) => Json::object2(
            "type",
            Json::text("number"),
            "value",
            Json::Number(*n),
        ),
        ContextValue::Currency(v) => Json::object2(
            "type",
            Json::text("currency"),
            "value",
            Json::text(currency_name(*v)),
        ),
        ContextValue::PaymentMethod(v) => Json::object2(
            "type",
            Json::text("payment_method"),
            "value",
            Json::text(payment_method_name(*v)),
        ),
        ContextValue::PaymentMethodType(v) => Json::object2(
            "type",
            Json::text("payment_method_type"),
            "value",
            Json::text(payment_method_type_name(*v)),
        ),
        ContextValue::CaptureMethod(v) => Json::object2(
            "type",
            Json::text("capture_method"),
            "value",
            Json::text(capture_method_name(*v)),
        ),
    }
}

/// Reads a value that a rule compares with.
pub fn decode_value(json: &Json) -> (r: Option<ContextValue>)
    ensures
        r == value_of(json@),
{
    let kind = match json.get("type") {
        Some(Json::Text(kind)) => kind,
        _ => {
            return None;
        },
    };
    match json.get("value") {
        Some(Json::Number(n)) => {
            if same_text(kind.as_str(), "number") {
                Some(ContextValue::Number(*n))
            } else {
                None
            }
        },
        Some(Json::Text(name)) => {
            if same_text(kind.as_str(), "currency") {
                match parse_currency(name.as_str()) {
                    Some(v) => Some(ContextValue::Currency(v)),
                    None => None,
                }
            } else if same_text(kind.as_str(), "payment_method") {
                match parse_payment_method(name.as_str()) {
                    Some(v) => Some(ContextValue::PaymentMethod(v)),
                    None => None,
                }
            } else if same_text(kind.as_str(), "payment_method_type") {
                match parse_payment_method_type(name.as_str()) {
                    Some(v) => Some(ContextValue::PaymentMethodType(v)),
                    None => None,
                }
            } else if same_text(kind.as_str(), "capture_method") {
                match parse_capture_method(name.as_str()) {
                    Some(v) => Some(ContextValue::CaptureMethod(v)),
                    None => None,
                }
            } else {
                None
            }
        },
        _ => None,
    }
}

/// Writes a comparison.
pub fn encode_comparison(comparison: &Comparison) -> (r: Json)
    ensures
        r@ == comparison_json(*comparison),
{
    Json::object3(
        "lhs",
        Json::text(context_key_name(comparison.lhs)),
        "comparison",
        Json::text(comparison_type_name(comparison.comparison)),
        "value",
        encode_value(&comparison.value),
    )
}

/// Reads a comparison.
pub fn decode_comparison(json: &Json) -> (r: Option<Comparison>)
    ensures
        r == comparison_of(json@),
{
    let lhs = match json.get("lhs") {
        Some(Json::Text(name)) => name,
        _ => {
            return None;
        },
    };
    let comparison = match json.get("comparison") {
        Some(Json::Text(name)) => name,
        _ => {
            return None;
        },
    };
    let value = match json.get("value") {
        Some(value) => value,
        None => {
            return None;
        },
    };
    match (
        parse_context_key(lhs.as_str()),
        parse_comparison_type(comparison.as_str()),
        decode_value(value),
    ) {
        (Some(lhs), Some(comparison), Some(value)) => Some(Comparison { lhs, comparison, value }),
        _ => None,
    }
}

/// Writes a predicate as a JSON array of its comparisons.
pub fn encode_predicate(list: &Vec<Comparison>) -> (r: Json)
    ensures
        r@ == predicate_json(list@),
{
    let mut items: Vec<Json> = Vec::new();
    let mut i: usize = 0;
    while i < list.len()
        invariant
            i <= list@.len(),
            items@.len() == i,
            forall|j: int| 0 <= j < i ==> (#[trigger] items@[j])@ == comparison_json(list@[j]),
        decreases list@.len() - i,
    {
        items.push(encode_comparison(&list[i]));
        i += 1;
    }
    let r = Json::array(items);
    assert(r@->Array_0 =~= predicate_json(list@)->Array_0);
    r
}

/// Reads a predicate from a JSON array of comparisons.
pub fn decode_predicate(json: &Json) -> (r: Option<Vec<Comparison>>)
    ensures
        match predicate_of(json@) {
            Some(list) => r matches Some(out) && out@ == list,
            None => r is None,
        },
{
    match json {
        Json::Array(items) => {
            proof {
                lemma_array_view(*items);
            }
            let ghost views = items_view(items@);
            let mut out: Vec<Comparison> = Vec::new();
            let mut i: usize = 0;
            while i < items.len()
                invariant
                    i <= items@.len(),
                    out@.len() == i,
                    views == items_view(items@),
                    json@ == JsonValue::Array(views),
                    forall|j: int|
                        0 <= j < i ==> comparison_of(#[trigger] views[j]) == Some(out@[j]),
                decreases items@.len() - i,
            {
                assert(views[i as int] == items@[i as int]@);
                match decode_comparison(&items[i]) {
                    Some(item) => {
                        out.push(item);
                    },
                    None => {
                        return None;
                    },
                }
                i += 1;
            }
            assert(out@ =~= predicate_of(json@)->Some_0);
            Some(out)
        },
        _ => None,
    }
}

/// Writes a rule.
pub fn encode_rule(rule: &Rule) -> (r: Json)
    ensures
        r@ == rule_json(rule@),
{
    Json::object3(
        "name",
        Json::text(rule.name.as_str()),
        "predicate",
        encode_predicate(&rule.predicate),
        "connector_selection",
        encode_selection(&rule.connector_selection),
    )
}

/// Reads a rule.
pub fn decode_rule(json: &Json) -> (r: Option<Rule>)
    ensures
        match rule_of(json@) {
            Some(rule) => r matches Some(found) && found@ == rule,
            None => r is None,
        },
{
    let name = match json.get("name") {
        Some(Json::Text(name)) => name.clone(),
        _ => {
            return None;
        },
    };
    let predicate = match json.get("predicate") {
        Some(value) => value,
        None => {
            return None;
        },
    };
    let selection = match json.get("connector_selection") {
        Some(value) => value,
        None => {
            return None;
        },
    };
    match (decode_predicate(predicate), decode_selection(selection)) {
        (Some(predicate), Some(connector_selection)) => Some(
            Rule { name, predicate, connector_selection },
        ),
        _ => None,
    }
}

/// Writes rules as a JSON array.
pub fn encode_rules(list: &Vec<Rule>) -> (r: Json)
    ensures
        r@ == rules_json(rules_view(list@)),
{
    let mut items: Vec<Json> = Vec::new();
    let mut i: usize = 0;
    while i < list.len()
        invariant
            i <= list@.len(),
            items@.len() == i,
            forall|j: int| 0 <= j < i ==> (#[trigger] items@[j])@ == rule_json(list@[j]@),
        decreases list@.len() - i,
    {
        items.push(encode_rule(&list[i]));
        i += 1;
    }
    let r = Json::array(items);
    assert(r@->Array_0 =~= rules_json(rules_view(list@))->Array_0);
    r
}

/// Reads rules from a JSON array; nothing where the value is no array or
/// an item cannot be read.
pub fn decode_rules(json: &Json) -> (r: Option<Vec<Rule>>)
    ensures
        match rules_of(json@) {
            Some(list) => r matches Some(out) && rules_view(out@) == list,
            None => r is None,
        },
{
    match json {
        Json::Array(items) => {
            proof {
                lemma_array_view(*items);
            }
            let ghost views = items_view(items@);
            let mut out: Vec<Rule> = Vec::new();
            let mut i: usize = 0;
            while i < items.len()
                invariant
                    i <= items@.len(),
                    out@.len() == i,
                    views == items_view(items@),
                    json@ == JsonValue::Array(views),
                    forall|j: int|
                        0 <= j < i ==> rule_of(#[trigger] views[j]) == Some(out@[j]@),
                decreases items@.len() - i,
            {
                assert(views[i as int] == items@[i as int]@);
                match decode_rule(&items[i]) {
                    Some(item) => {
                        out.push(item);
                    },
                    None => {
                        return None;
                    },
                }
                i += 1;
            }
            assert(rules_view(out@) =~= rules_of(json@)->Some_0);
            Some(out)
        },
        _ => None,
    }
}

/// Writes a program.
pub fn encode_program(program: &Program) -> (r: Json)
    ensures
        r@ == program_json(program@),
{
    Json::object2(
        "default_selection",
        encode_selection(&program.default_selection),
        "rules",
        encode_rules(&program.rules),
    )
}

/// Reads a program.
pub fn decode_program(json: &Json) -> (r: Option<Program>)
    ensures
        match program_of(json@) {
            Some(program) => r matches Some(found) && found@ == program,
            None => r is None,
        },
{
    let selection = match json.get("default_selection") {
        Some(value) => value,
        None => {
            return None;
        },
    };
    let rules = match json.get("rules") {
        Some(value) => value,
        None => {
            return None;
        },
    };
    match (decode_selection(selection), decode_rules(rules)) {
        (Some(default_selection), Some(rules)) => Some(Program { default_selection, rules }),
        _ => None,
    }
}

/// Writes a routing algorithm as a JSON value.
pub fn encode_algorithm(algorithm: &RoutingAlgorithm) -> (r: Json)
    ensures
        r@ == algorithm_json(algorithm@),
{
    match algorithm {
        RoutingAlgorithm::Single(choice) => Json::object2(
            "type",
            Json::text("single"),
            "data",
            encode_choice(choice),
        ),
        RoutingAlgorithm::Priority(list) => Json::object2(
            "type",
            Json::text("priority"),
            "data",
            encode_choices(list),
        ),
        RoutingAlgorithm::VolumeSplit(splits) => Json::object2(
            "type",
            Json::text("volume_split"),
            "data",
            encode_splits(splits),
        ),
        RoutingAlgorithm::Advanced(program) => Json::object2(
            "type",
            Json::text("advanced"),
            "data",
            encode_program(program),
        ),
    }
}

/// Reads a routing algorithm from a JSON value; nothing where the value
/// does not hold one.
pub fn decode_algorithm(json: &Json) -> (r: Option<RoutingAlgorithm>)
    ensures
        match algorithm_of(json@) {
            Some(algorithm) => r matches Some(found) && found@ == algorithm,
            None => r is None,
        },
{
    let (kind, data) = match kind_and_data(json) {
        Some(found) => found,
        None => {
            return None;
        },
    };
    if same_text(kind.as_str(), "single") {
        match decode_choice(data) {
            Some(choice) => Some(RoutingAlgorithm::Single(choice)),
            None => None,
        }
    } else if same_text(kind.as_str(), "priority") {
        match decode_choices(data) {
            Some(list) => Some(RoutingAlgorithm::Priority(list)),
            None => None,
        }
    } else if same_text(kind.as_str(), "volume_split") {
        match decode_splits(data) {
            Some(splits) => Some(RoutingAlgorithm::VolumeSplit(splits)),
            None => None,
        }
    } else if same_text(kind.as_str(), "advanced") {
        match decode_program(data) {
            Some(program) => Some(RoutingAlgorithm::Advanced(program)),
            None => None,
        }
    } else {
        None
    }
}

} // verus!
