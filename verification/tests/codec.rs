use payment_core::enums::{CaptureMethod, Currency, PaymentMethod, PaymentMethodType};
use payment_core::json::Json;
use payment_core::names::{
    capture_method_name, comparison_type_name, context_key_name, currency_name,
    parse_capture_method, parse_comparison_type, parse_context_key, parse_currency,
    parse_payment_method, parse_payment_method_type, payment_method_name,
    payment_method_type_name,
};
use payment_core::routing::codec::{
    decode_algorithm, decode_choice, decode_choices, decode_comparison, decode_selection,
    decode_split, decode_value, encode_algorithm, encode_choice, encode_choices,
    encode_comparison, encode_selection, encode_split, encode_value,
};
use payment_core::routing::types::{
    Comparison, ComparisonType, ConnectorSelection, ConnectorVolumeSplit, ContextKey,
    ContextValue, Program, RoutableConnectorChoice, RoutingAlgorithm, Rule,
};

fn to_value(json: &Json) -> serde_json::Value {
    match json {
        Json::Null => serde_json::Value::Null,
        Json::Bool(b) => serde_json::Value::Bool(*b),
        Json::Number(n) => serde_json::Value::from(*n),
        Json::Text(t) => serde_json::Value::String(t.clone()),
        Json::Array(items) => serde_json::Value::Array(items.iter().map(to_value).collect()),
        Json::Object(members) => serde_json::Value::Object(
            members.iter().map(|(name, value)| (name.clone(), to_value(value))).collect(),
        ),
    }
}

fn from_value(value: &serde_json::Value) -> Json {
    match value {
        serde_json::Value::Null => Json::Null,
        serde_json::Value::Bool(b) => Json::Bool(*b),
        serde_json::Value::Number(n) => match n.as_i64() {
            Some(n) => Json::Number(n),
            None => Json::Null,
        },
        serde_json::Value::String(t) => Json::Text(t.clone()),
        serde_json::Value::Array(items) => Json::Array(items.iter().map(from_value).collect()),
        serde_json::Value::Object(members) => Json::Object(
            members.iter().map(|(name, value)| (name.clone(), from_value(value))).collect(),
        ),
    }
}

fn parse(text: &str) -> Json {
    from_value(&serde_json::from_str::<serde_json::Value>(text).unwrap())
}

fn choice(name: &str) -> RoutableConnectorChoice {
    RoutableConnectorChoice { connector: name.to_string(), merchant_connector_id: None }
}

fn pinned(name: &str, id: &str) -> RoutableConnectorChoice {
    RoutableConnectorChoice {
        connector: name.to_string(),
        merchant_connector_id: Some(id.to_string()),
    }
}

fn split(name: &str, weight: u8) -> ConnectorVolumeSplit {
    ConnectorVolumeSplit { connector: choice(name), split: weight }
}

fn comparison(lhs: ContextKey, comparison: ComparisonType, value: ContextValue) -> Comparison {
    Comparison { lhs, comparison, value }
}

fn program() -> Program {
    Program {
        default_selection: ConnectorSelection::Priority(vec![choice("stripe"), pinned("adyen", "mca_1")]),
        rules: vec![
            Rule {
                name: "large card payments".to_string(),
                predicate: vec![
                    comparison(
                        ContextKey::Amount,
                        ComparisonType::GreaterThanEqual,
                        ContextValue::Number(10_000),
                    ),
                    comparison(
                        ContextKey::PaymentMethod,
                        ComparisonType::Equal,
                        ContextValue::PaymentMethod(PaymentMethod::Card),
                    ),
                    comparison(
                        ContextKey::Currency,
                        ComparisonType::NotEqual,
                        ContextValue::Currency(Currency::Jpy),
                    ),
                ],
                connector_selection: ConnectorSelection::VolumeSplit(vec![
                    split("stripe", 30),
                    split("nuvei", 70),
                ]),
            },
            Rule {
                name: "".to_string(),
                predicate: vec![],
                connector_selection: ConnectorSelection::Priority(vec![]),
            },
        ],
    }
}

fn algorithms() -> Vec<RoutingAlgorithm> {
    vec![
        RoutingAlgorithm::Single(choice("stripe")),
        RoutingAlgorithm::Single(pinned("stripe", "mca_9")),
        RoutingAlgorithm::Priority(vec![choice("a"), pinned("b", "mca_b"), choice("c")]),
        RoutingAlgorithm::Priority(vec![]),
        RoutingAlgorithm::VolumeSplit(vec![split("a", 30), split("b", 70), split("c", 0)]),
        RoutingAlgorithm::VolumeSplit(vec![split("a", 255)]),
        RoutingAlgorithm::Advanced(program()),
        RoutingAlgorithm::Advanced(Program {
            default_selection: ConnectorSelection::VolumeSplit(vec![]),
            rules: vec![],
        }),
    ]
}

#[test]
fn every_kind_of_algorithm_is_read_back_as_it_was_written() {
    for algorithm in algorithms() {
        assert_eq!(decode_algorithm(&encode_algorithm(&algorithm)), Some(algorithm));
    }
}

#[test]
fn algorithms_survive_the_way_through_text() {
    for algorithm in algorithms() {
        let text = serde_json::to_string(&to_value(&encode_algorithm(&algorithm))).unwrap();
        assert_eq!(decode_algorithm(&parse(&text)), Some(algorithm));
    }
}

#[test]
fn a_single_algorithm_has_its_type_and_data() {
    assert_eq!(
        to_value(&encode_algorithm(&RoutingAlgorithm::Single(pinned("stripe", "mca_9")))),
        serde_json::from_str::<serde_json::Value>(
            "{\"type\":\"single\",\"data\":{\"connector\":\"stripe\",\"merchant_connector_id\":\"mca_9\"}}"
        )
        .unwrap()
    );
}

#[test]
fn a_volume_split_is_written_with_its_weights() {
    assert_eq!(
        to_value(&encode_algorithm(&RoutingAlgorithm::VolumeSplit(vec![split("a", 30), split("b", 70)]))),
        serde_json::from_str::<serde_json::Value>(
            "{\"type\":\"volume_split\",\"data\":[{\"connector\":{\"connector\":\"a\",\"merchant_connector_id\":null},\"split\":30},{\"connector\":{\"connector\":\"b\",\"merchant_connector_id\":null},\"split\":70}]}"
        )
        .unwrap()
    );
}

#[test]
fn algorithms_are_read_from_text() {
    assert_eq!(
        decode_algorithm(&parse("{\"data\":[{\"connector\":\"a\"},{\"merchant_connector_id\":\"m\",\"connector\":\"b\",\"extra\":1}],\"type\":\"priority\"}")),
        Some(RoutingAlgorithm::Priority(vec![choice("a"), pinned("b", "m")]))
    );
    assert_eq!(
        decode_algorithm(&parse(
            "{\"type\":\"advanced\",\"data\":{\"default_selection\":{\"type\":\"priority\",\"data\":[]},\"rules\":[{\"name\":\"r\",\"predicate\":[{\"lhs\":\"amount\",\"comparison\":\"less_than\",\"value\":{\"type\":\"number\",\"value\":5}}],\"connector_selection\":{\"type\":\"volume_split\",\"data\":[]}}]}}"
        )),
        Some(RoutingAlgorithm::Advanced(Program {
            default_selection: ConnectorSelection::Priority(vec![]),
            rules: vec![Rule {
                name: "r".to_string(),
                predicate: vec![comparison(
                    ContextKey::Amount,
                    ComparisonType::LessThan,
                    ContextValue::Number(5)
                )],
                connector_selection: ConnectorSelection::VolumeSplit(vec![]),
            }],
        }))
    );
}

#[test]
fn what_is_no_algorithm_is_not_read() {
    for text in [
        "null",
        "[]",
        "{}",
        "{\"type\":\"single\"}",
        "{\"type\":\"unknown\",\"data\":{\"connector\":\"a\"}}",
        "{\"type\":5,\"data\":{\"connector\":\"a\"}}",
        "{\"type\":\"single\",\"data\":{\"connector\":5}}",
        "{\"type\":\"single\",\"data\":{\"connector\":\"a\",\"merchant_connector_id\":5}}",
        "{\"type\":\"single\",\"data\":[]}",
        "{\"type\":\"priority\",\"data\":{\"connector\":\"a\"}}",
        "{\"type\":\"priority\",\"data\":[{\"connector\":\"a\"},{}]}",
        "{\"type\":\"volume_split\",\"data\":[{\"connector\":{\"connector\":\"a\"},\"split\":256}]}",
        "{\"type\":\"volume_split\",\"data\":[{\"connector\":{\"connector\":\"a\"},\"split\":-1}]}",
        "{\"type\":\"volume_split\",\"data\":[{\"connector\":{\"connector\":\"a\"},\"split\":\"3\"}]}",
        "{\"type\":\"volume_split\",\"data\":[{\"connector\":{},\"split\":3}]}",
        "{\"type\":\"advanced\",\"data\":{\"rules\":[]}}",
        "{\"type\":\"advanced\",\"data\":{\"default_selection\":{\"type\":\"priority\",\"data\":[]}}}",
        "{\"type\":\"advanced\",\"data\":{\"default_selection\":{\"type\":\"priority\",\"data\":[]},\"rules\":[{}]}}",
    ] {
        assert_eq!(decode_algorithm(&parse(text)), None, "{}", text);
    }
}

#[test]
fn the_parts_of_an_algorithm_are_read_back() {
    assert_eq!(decode_choice(&encode_choice(&pinned("a", "m"))), Some(pinned("a", "m")));
    assert_eq!(decode_choice(&encode_choice(&choice(""))), Some(choice("")));
    assert_eq!(decode_choices(&encode_choices(&vec![choice("a")])), Some(vec![choice("a")]));
    assert_eq!(decode_choices(&Json::Null), None);
    assert_eq!(decode_split(&encode_split(&split("a", 7))), Some(split("a", 7)));
    let selection = ConnectorSelection::VolumeSplit(vec![split("a", 1)]);
    assert_eq!(decode_selection(&encode_selection(&selection)), Some(selection));
    assert_eq!(decode_selection(&parse("{\"type\":\"single\",\"data\":[]}")), None);
}

#[test]
fn values_and_comparisons_are_read_back() {
    let values = [
        ContextValue::Number(i64::MIN),
        ContextValue::Number(i64::MAX),
        ContextValue::Number(0),
        ContextValue::Currency(Currency::Usd),
        ContextValue::PaymentMethod(PaymentMethod::BankRedirect),
        ContextValue::PaymentMethodType(PaymentMethodType::GooglePay),
        ContextValue::CaptureMethod(CaptureMethod::ManualMultiple),
    ];
    for value in values {
        assert_eq!(decode_value(&encode_value(&value)), Some(value));
        let compared = comparison(ContextKey::Amount, ComparisonType::Equal, value);
        assert_eq!(decode_comparison(&encode_comparison(&compared)), Some(compared));
    }
    assert_eq!(
        to_value(&encode_value(&ContextValue::Currency(Currency::Eur))),
        serde_json::from_str::<serde_json::Value>("{\"type\":\"currency\",\"value\":\"EUR\"}").unwrap()
    );
    assert_eq!(decode_value(&parse("{\"type\":\"currency\",\"value\":\"ZZZ\"}")), None);
    assert_eq!(decode_value(&parse("{\"type\":\"currency\",\"value\":5}")), None);
    assert_eq!(decode_value(&parse("{\"type\":\"number\",\"value\":\"5\"}")), None);
    assert_eq!(decode_value(&parse("{\"type\":\"payment_method\",\"value\":\"credit\"}")), None);
    assert_eq!(
        decode_comparison(&parse("{\"lhs\":\"amount\",\"comparison\":\"about\",\"value\":{\"type\":\"number\",\"value\":5}}")),
        None
    );
    assert_eq!(
        decode_comparison(&parse("{\"lhs\":\"weather\",\"comparison\":\"equal\",\"value\":{\"type\":\"number\",\"value\":5}}")),
        None
    );
}

#[test]
fn names_are_read_back() {
    for value in [
        Currency::Aud,
        Currency::Cad,
        Currency::Chf,
        Currency::Eur,
        Currency::Gbp,
        Currency::Inr,
        Currency::Jpy,
        Currency::Sgd,
        Currency::Usd,
    ] {
        assert_eq!(parse_currency(currency_name(value)), Some(value));
    }
    for value in [
        PaymentMethod::Card,
        PaymentMethod::Wallet,
        PaymentMethod::BankRedirect,
        PaymentMethod::BankTransfer,
        PaymentMethod::PayLater,
    ] {
        assert_eq!(parse_payment_method(payment_method_name(value)), Some(value));
    }
    for value in [
        PaymentMethodType::Credit,
        PaymentMethodType::Debit,
        PaymentMethodType::ApplePay,
        PaymentMethodType::GooglePay,
        PaymentMethodType::Paypal,
        PaymentMethodType::Klarna,
        PaymentMethodType::Ach,
        PaymentMethodType::Sepa,
    ] {
        assert_eq!(parse_payment_method_type(payment_method_type_name(value)), Some(value));
    }
    for value in [
        CaptureMethod::Automatic,
        CaptureMethod::Manual,
        CaptureMethod::ManualMultiple,
        CaptureMethod::Scheduled,
    ] {
        assert_eq!(parse_capture_method(capture_method_name(value)), Some(value));
    }
    for value in [
        ContextKey::Amount,
        ContextKey::Currency,
        ContextKey::PaymentMethod,
        ContextKey::PaymentMethodType,
        ContextKey::CaptureMethod,
    ] {
        assert_eq!(parse_context_key(context_key_name(value)), Some(value));
    }
    for value in [
        ComparisonType::Equal,
        ComparisonType::NotEqual,
        ComparisonType::LessThan,
        ComparisonType::LessThanEqual,
        ComparisonType::GreaterThan,
        ComparisonType::GreaterThanEqual,
    ] {
        assert_eq!(parse_comparison_type(comparison_type_name(value)), Some(value));
    }
    assert_eq!(currency_name(Currency::Usd), "USD");
    assert_eq!(payment_method_type_name(PaymentMethodType::ApplePay), "apple_pay");
    assert_eq!(parse_currency("usd"), None);
    assert_eq!(parse_payment_method(""), None);
}

#[test]
fn json_members_are_found_by_name() {
    let json = parse("{\"a\":1,\"b\":\"x\",\"c\":[true,null]}");
    assert_eq!(json.get("a"), Some(&Json::Number(1)));
    assert_eq!(json.get("b"), Some(&Json::Text("x".to_string())));
    assert_eq!(json.get("c"), Some(&Json::Array(vec![Json::Bool(true), Json::Null])));
    assert_eq!(json.get("d"), None);
    assert_eq!(Json::Null.get("a"), None);
    assert_eq!(Json::Array(vec![]).get("a"), None);
    let repeated = Json::Object(vec![
        ("k".to_string(), Json::Number(1)),
        ("k".to_string(), Json::Number(2)),
    ]);
    assert_eq!(repeated.get("k"), Some(&Json::Number(1)));
    assert_eq!(Json::text("t"), Json::Text("t".to_string()));
    assert_eq!(Json::array(vec![Json::Null]), Json::Array(vec![Json::Null]));
    assert_eq!(
        Json::object2("a", Json::Null, "b", Json::Bool(false)),
        Json::Object(vec![("a".to_string(), Json::Null), ("b".to_string(), Json::Bool(false))])
    );
    assert_eq!(
        Json::object3("a", Json::Null, "b", Json::Null, "c", Json::Null),
        Json::Object(vec![
            ("a".to_string(), Json::Null),
            ("b".to_string(), Json::Null),
            ("c".to_string(), Json::Null)
        ])
    );
}
