use payment_core::enums::{CaptureMethod, Currency, PaymentMethod, PaymentMethodType, TransactionType};
use payment_core::errors::{ApiErrorResponse, Subject};
use payment_core::json::Json;
use payment_core::routing::codec::{encode_algorithm, encode_choices};
use payment_core::routing::dictionary::{
    decode_algorithm_ref, encode_algorithm_ref, encode_dictionary,
};
use payment_core::routing::evaluate::{
    compare, evaluate, perform_volume_split, route, rule_applies, select_by_draw,
};
use payment_core::routing::helpers::{
    get_default_config_key, get_merchant_default_config, get_merchant_routing_dictionary,
    get_payment_config_routing_id, get_payment_method_surcharge_routing_id,
    get_routing_dictionary_key, update_business_profile_active_algorithm_ref,
    update_merchant_active_algorithm_ref, update_merchant_default_config,
    update_merchant_routing_dictionary, update_routing_algorithm, ConfigEvent, ConfigLookup,
    ConfigState, ConfigStep,
};
use payment_core::routing::types::{
    Comparison, ComparisonType, ConnectorSelection, ConnectorVolumeSplit, ContextKey,
    ContextValue, MerchantConnectorAccount, Program, RoutableConnectorChoice, RoutingAlgorithm,
    RoutingAlgorithmRef, RoutingContext, RoutingDictionary, Rule,
};
use payment_core::routing::validate::validate_connectors_in_routing_config;

fn choice(name: &str) -> RoutableConnectorChoice {
    RoutableConnectorChoice { connector: name.to_string(), merchant_connector_id: None }
}

fn pinned(name: &str, id: &str) -> RoutableConnectorChoice {
    RoutableConnectorChoice {
        connector: name.to_string(),
        merchant_connector_id: Some(id.to_string()),
    }
}

fn split(name: &str, weight: u8) -> ConnectorVolumeSplit {
    ConnectorVolumeSplit { connector: choice(name), split: weight }
}

fn account(name: &str, id: &str, profile: &str) -> MerchantConnectorAccount {
    MerchantConnectorAccount {
        connector_name: name.to_string(),
        merchant_connector_id: id.to_string(),
        profile_id: Some(profile.to_string()),
        disabled: None,
    }
}

fn context(amount: i64) -> RoutingContext {
    RoutingContext {
        amount,
        currency: Some(Currency::Usd),
        payment_method: Some(PaymentMethod::Card),
        payment_method_type: None,
        capture_method: Some(CaptureMethod::Automatic),
    }
}

fn not_found(name: &str, id: Option<&str>) -> ApiErrorResponse {
    ApiErrorResponse::NotFound {
        subject: Subject::Connector {
            name: name.to_string(),
            merchant_connector_id: id.map(|i| i.to_string()),
        },
    }
}

#[test]
fn routing_keys_have_their_prefixes() {
    assert_eq!(get_routing_dictionary_key("m1"), "routing_dict_m1");
    assert_eq!(get_default_config_key("m1", &TransactionType::Payment), "routing_default_m1");
    assert_eq!(get_default_config_key("m1", &TransactionType::Payout), "routing_default_po_m1");
    assert_eq!(get_payment_config_routing_id("m1"), "payment_config_id_m1");
    assert_eq!(get_payment_method_surcharge_routing_id("m1"), "payment_method_surcharge_id_m1");
    assert_eq!(get_routing_dictionary_key(""), "routing_dict_");
}

#[test]
fn keys_of_different_merchants_differ() {
    assert_ne!(get_routing_dictionary_key("m1"), get_routing_dictionary_key("m2"));
    assert_ne!(
        get_default_config_key("m1", &TransactionType::Payment),
        get_default_config_key("m1", &TransactionType::Payout)
    );
    assert_ne!(
        get_routing_dictionary_key("m1"),
        get_default_config_key("m1", &TransactionType::Payment)
    );
}

#[test]
fn a_payment_merchant_named_like_a_payout_has_a_key_of_its_own() {
    assert_eq!(
        get_default_config_key("po_m1", &TransactionType::Payment),
        "routing_payment_default_po_m1"
    );
    assert_ne!(
        get_default_config_key("po_m1", &TransactionType::Payment),
        get_default_config_key("m1", &TransactionType::Payout)
    );
    assert_eq!(
        get_default_config_key("po_m1", &TransactionType::Payout),
        "routing_default_po_po_m1"
    );
    assert_eq!(get_default_config_key("po_", &TransactionType::Payment), "routing_payment_default_po_");
    assert_eq!(get_default_config_key("po", &TransactionType::Payment), "routing_default_po");
    assert_eq!(get_default_config_key("pox_m1", &TransactionType::Payment), "routing_default_pox_m1");
    assert_eq!(get_default_config_key("Po_m1", &TransactionType::Payment), "routing_default_Po_m1");
    assert_eq!(get_default_config_key("", &TransactionType::Payment), "routing_default_");
    assert_eq!(get_default_config_key("merchant_1", &TransactionType::Payment), "routing_default_merchant_1");
    assert_eq!(
        get_default_config_key("merchant_1", &TransactionType::Payout),
        "routing_default_po_merchant_1"
    );
}

#[test]
fn default_keys_of_a_handful_of_merchants_never_meet() {
    let merchants = ["", "m1", "po_", "po_m1", "po_po_m1", "payment_default_po_m1", "x"];
    let kinds = [TransactionType::Payment, TransactionType::Payout];
    for (i, first) in merchants.iter().enumerate() {
        for (j, second) in merchants.iter().enumerate() {
            for first_kind in kinds {
                for second_kind in kinds {
                    let same = i == j && first_kind == second_kind;
                    assert_eq!(
                        get_default_config_key(first, &first_kind)
                            == get_default_config_key(second, &second_kind),
                        same,
                        "{:?} {:?} against {:?} {:?}",
                        first,
                        first_kind,
                        second,
                        second_kind
                    );
                }
            }
        }
    }
}

#[test]
fn priority_against_partly_configured_profile_names_the_missing_connector() {
    let algorithm = RoutingAlgorithm::Priority(vec![choice("A"), choice("B"), choice("C")]);
    let accounts = vec![account("B", "mca_b", "pro_1"), account("C", "mca_c", "pro_1")];
    assert_eq!(
        validate_connectors_in_routing_config(Some(&accounts), "m1", "pro_1", &algorithm),
        Err(not_found("A", None))
    );
}

#[test]
fn priority_against_fully_configured_profile_passes() {
    let algorithm = RoutingAlgorithm::Priority(vec![choice("A"), choice("B"), choice("C")]);
    let accounts = vec![
        account("A", "mca_a", "pro_1"),
        account("B", "mca_b", "pro_1"),
        account("C", "mca_c", "pro_1"),
    ];
    assert_eq!(
        validate_connectors_in_routing_config(Some(&accounts), "m1", "pro_1", &algorithm),
        Ok(())
    );
}

#[test]
fn validation_reports_the_first_missing_connector() {
    let algorithm = RoutingAlgorithm::Priority(vec![choice("A"), choice("X"), choice("Y")]);
    let accounts = vec![account("A", "mca_a", "pro_1")];
    assert_eq!(
        validate_connectors_in_routing_config(Some(&accounts), "m1", "pro_1", &algorithm),
        Err(not_found("X", None))
    );
}

#[test]
fn accounts_of_other_profiles_and_disabled_accounts_do_not_count() {
    let algorithm = RoutingAlgorithm::Single(choice("A"));
    let other_profile = vec![account("A", "mca_a", "pro_2")];
    assert_eq!(
        validate_connectors_in_routing_config(Some(&other_profile), "m1", "pro_1", &algorithm),
        Err(not_found("A", None))
    );
    let mut disabled = account("A", "mca_a", "pro_1");
    disabled.disabled = Some(true);
    assert_eq!(
        validate_connectors_in_routing_config(Some(&vec![disabled]), "m1", "pro_1", &algorithm),
        Err(not_found("A", None))
    );
    let mut enabled = account("A", "mca_a", "pro_1");
    enabled.disabled = Some(false);
    assert_eq!(
        validate_connectors_in_routing_config(Some(&vec![enabled]), "m1", "pro_1", &algorithm),
        Ok(())
    );
    let mut no_profile = account("A", "mca_a", "pro_1");
    no_profile.profile_id = None;
    assert_eq!(
        validate_connectors_in_routing_config(Some(&vec![no_profile]), "m1", "pro_1", &algorithm),
        Err(not_found("A", None))
    );
}

#[test]
fn a_pinned_choice_needs_its_own_account() {
    let accounts = vec![account("A", "mca_a", "pro_1")];
    assert_eq!(
        validate_connectors_in_routing_config(
            Some(&accounts),
            "m1",
            "pro_1",
            &RoutingAlgorithm::Single(pinned("A", "mca_a"))
        ),
        Ok(())
    );
    assert_eq!(
        validate_connectors_in_routing_config(
            Some(&accounts),
            "m1",
            "pro_1",
            &RoutingAlgorithm::Single(pinned("A", "mca_other"))
        ),
        Err(not_found("A", Some("mca_other")))
    );
}

#[test]
fn validation_without_accounts_reports_the_merchant() {
    assert_eq!(
        validate_connectors_in_routing_config(
            None,
            "m1",
            "pro_1",
            &RoutingAlgorithm::Single(choice("A"))
        ),
        Err(ApiErrorResponse::NotFound {
            subject: Subject::MerchantConnectorAccount { merchant_id: "m1".to_string() }
        })
    );
}

#[test]
fn volume_split_and_advanced_algorithms_are_validated_in_order() {
    let accounts = vec![account("A", "mca_a", "pro_1"), account("B", "mca_b", "pro_1")];
    let splits = RoutingAlgorithm::VolumeSplit(vec![split("A", 50), split("Z", 50)]);
    assert_eq!(
        validate_connectors_in_routing_config(Some(&accounts), "m1", "pro_1", &splits),
        Err(not_found("Z", None))
    );
    let program = RoutingAlgorithm::Advanced(Program {
        default_selection: ConnectorSelection::Priority(vec![choice("A")]),
        rules: vec![
            Rule {
                name: "first".to_string(),
                predicate: vec![],
                connector_selection: ConnectorSelection::VolumeSplit(vec![split("B", 1)]),
            },
            Rule {
                name: "second".to_string(),
                predicate: vec![],
                connector_selection: ConnectorSelection::Priority(vec![choice("B"), choice("Q")]),
            },
            Rule {
                name: "third".to_string(),
                predicate: vec![],
                connector_selection: ConnectorSelection::Priority(vec![choice("R")]),
            },
        ],
    });
    assert_eq!(
        validate_connectors_in_routing_config(Some(&accounts), "m1", "pro_1", &program),
        Err(not_found("Q", None))
    );
    let default_first = RoutingAlgorithm::Advanced(Program {
        default_selection: ConnectorSelection::Priority(vec![choice("D")]),
        rules: vec![Rule {
            name: "first".to_string(),
            predicate: vec![],
            connector_selection: ConnectorSelection::Priority(vec![choice("E")]),
        }],
    });
    assert_eq!(
        validate_connectors_in_routing_config(Some(&accounts), "m1", "pro_1", &default_first),
        Err(not_found("D", None))
    );
    let empty = RoutingAlgorithm::Priority(vec![]);
    assert_eq!(
        validate_connectors_in_routing_config(Some(&vec![]), "m1", "pro_1", &empty),
        Ok(())
    );
}

#[test]
fn single_and_priority_keep_their_order() {
    let ctx = context(100);
    assert_eq!(evaluate(&RoutingAlgorithm::Single(choice("A")), &ctx, 7), Ok(vec![choice("A")]));
    assert_eq!(
        evaluate(
            &RoutingAlgorithm::Priority(vec![choice("C"), choice("A"), choice("B")]),
            &ctx,
            7
        ),
        Ok(vec![choice("C"), choice("A"), choice("B")])
    );
}

#[test]
fn a_draw_falls_on_the_entry_of_its_stretch() {
    let splits = vec![split("A", 30), split("B", 70)];
    assert_eq!(select_by_draw(&splits, 0), Some(vec![choice("A"), choice("B")]));
    assert_eq!(select_by_draw(&splits, 29), Some(vec![choice("A"), choice("B")]));
    assert_eq!(select_by_draw(&splits, 30), Some(vec![choice("B"), choice("A")]));
    assert_eq!(select_by_draw(&splits, 99), Some(vec![choice("B"), choice("A")]));
    assert_eq!(select_by_draw(&splits, 100), Some(vec![choice("A"), choice("B")]));
    assert_eq!(select_by_draw(&splits, 130), Some(vec![choice("B"), choice("A")]));
}

#[test]
fn weights_need_not_add_up_to_a_hundred() {
    let splits = vec![split("A", 1), split("B", 0), split("C", 3)];
    assert_eq!(select_by_draw(&splits, 0), Some(vec![choice("A"), choice("B"), choice("C")]));
    assert_eq!(select_by_draw(&splits, 1), Some(vec![choice("C"), choice("A"), choice("B")]));
    assert_eq!(select_by_draw(&splits, 3), Some(vec![choice("C"), choice("A"), choice("B")]));
    assert_eq!(select_by_draw(&splits, 4), Some(vec![choice("A"), choice("B"), choice("C")]));
}

#[test]
fn a_split_without_weight_selects_nothing() {
    assert_eq!(select_by_draw(&vec![], 5), None);
    assert_eq!(select_by_draw(&vec![split("A", 0), split("B", 0)], 5), None);
    assert_eq!(perform_volume_split(&vec![split("A", 0)]), None);
    assert_eq!(
        evaluate(&RoutingAlgorithm::VolumeSplit(vec![]), &context(1), 0),
        Err(ApiErrorResponse::InternalServerError)
    );
}

#[test]
fn volume_split_frequency_follows_the_weights() {
    let splits = vec![split("A", 30), split("B", 70)];
    let mut second: u64 = 0;
    let mut state: u64 = 0x9e3779b97f4a7c15;
    let trials: u64 = 100_000;
    for _ in 0..trials {
        state ^= state << 13;
        state ^= state >> 7;
        state ^= state << 17;
        let order = select_by_draw(&splits, state).unwrap();
        if order[0] == choice("B") {
            second += 1;
        }
    }
    assert!(second > 69_000 && second < 71_000, "second entry selected {} times", second);
}

#[test]
fn volume_split_frequency_is_exact_over_all_points() {
    let splits = vec![split("A", 30), split("B", 70)];
    let mut second: u64 = 0;
    for draw in 0..100_000u64 {
        if select_by_draw(&splits, draw).unwrap()[0] == choice("B") {
            second += 1;
        }
    }
    assert_eq!(second, 70_000);
}

#[test]
fn random_volume_split_frequency_follows_the_weights() {
    let splits = vec![split("A", 30), split("B", 70)];
    let mut second: u64 = 0;
    for _ in 0..100_000 {
        let order = perform_volume_split(&splits).unwrap();
        assert_eq!(order.len(), 2);
        if order[0] == choice("B") {
            assert_eq!(order[1], choice("A"));
            second += 1;
        } else {
            assert_eq!(order, vec![choice("A"), choice("B")]);
        }
    }
    assert!(second > 69_000 && second < 71_000, "second entry selected {} times", second);
}

fn amount_above(limit: i64) -> Comparison {
    Comparison {
        lhs: ContextKey::Amount,
        comparison: ComparisonType::GreaterThan,
        value: ContextValue::Number(limit),
    }
}

#[test]
fn comparisons_evaluate_or_fail() {
    let ctx = context(100);
    assert_eq!(compare(&amount_above(50), &ctx), Some(true));
    assert_eq!(compare(&amount_above(100), &ctx), Some(false));
    let at_least = Comparison {
        lhs: ContextKey::Amount,
        comparison: ComparisonType::GreaterThanEqual,
        value: ContextValue::Number(100),
    };
    assert_eq!(compare(&at_least, &ctx), Some(true));
    let below = Comparison {
        lhs: ContextKey::Amount,
        comparison: ComparisonType::LessThan,
        value: ContextValue::Number(100),
    };
    assert_eq!(compare(&below, &ctx), Some(false));
    let at_most = Comparison {
        lhs: ContextKey::Amount,
        comparison: ComparisonType::LessThanEqual,
        value: ContextValue::Number(100),
    };
    assert_eq!(compare(&at_most, &ctx), Some(true));
    let usd = Comparison {
        lhs: ContextKey::Currency,
        comparison: ComparisonType::Equal,
        value: ContextValue::Currency(Currency::Usd),
    };
    assert_eq!(compare(&usd, &ctx), Some(true));
    let not_eur = Comparison {
        lhs: ContextKey::Currency,
        comparison: ComparisonType::NotEqual,
        value: ContextValue::Currency(Currency::Eur),
    };
    assert_eq!(compare(&not_eur, &ctx), Some(true));
    let ordered_currency = Comparison {
        lhs: ContextKey::Currency,
        comparison: ComparisonType::LessThan,
        value: ContextValue::Currency(Currency::Eur),
    };
    assert_eq!(compare(&ordered_currency, &ctx), None);
    let mismatched = Comparison {
        lhs: ContextKey::Currency,
        comparison: ComparisonType::Equal,
        value: ContextValue::PaymentMethod(PaymentMethod::Card),
    };
    assert_eq!(compare(&mismatched, &ctx), None);
    let number_against_currency = Comparison {
        lhs: ContextKey::Amount,
        comparison: ComparisonType::Equal,
        value: ContextValue::Currency(Currency::Usd),
    };
    assert_eq!(compare(&number_against_currency, &ctx), None);
    let absent = Comparison {
        lhs: ContextKey::PaymentMethodType,
        comparison: ComparisonType::Equal,
        value: ContextValue::PaymentMethodType(PaymentMethodType::Credit),
    };
    assert_eq!(compare(&absent, &ctx), None);
    let capture = Comparison {
        lhs: ContextKey::CaptureMethod,
        comparison: ComparisonType::Equal,
        value: ContextValue::CaptureMethod(CaptureMethod::Manual),
    };
    assert_eq!(compare(&capture, &ctx), Some(false));
}

#[test]
fn a_predicate_holds_where_all_comparisons_hold() {
    let ctx = context(100);
    assert!(rule_applies(&vec![], &ctx));
    assert!(rule_applies(&vec![amount_above(50), amount_above(99)], &ctx));
    assert!(!rule_applies(&vec![amount_above(50), amount_above(100)], &ctx));
}

fn program() -> RoutingAlgorithm {
    RoutingAlgorithm::Advanced(Program {
        default_selection: ConnectorSelection::Priority(vec![choice("default")]),
        rules: vec![
            Rule {
                name: "cannot be evaluated".to_string(),
                predicate: vec![Comparison {
                    lhs: ContextKey::PaymentMethodType,
                    comparison: ComparisonType::Equal,
                    value: ContextValue::PaymentMethodType(PaymentMethodType::Credit),
                }],
                connector_selection: ConnectorSelection::Priority(vec![choice("never")]),
            },
            Rule {
                name: "large".to_string(),
                predicate: vec![amount_above(1000)],
                connector_selection: ConnectorSelection::Priority(vec![choice("large")]),
            },
            Rule {
                name: "medium".to_string(),
                predicate: vec![amount_above(100)],
                connector_selection: ConnectorSelection::VolumeSplit(vec![
                    split("m1", 1),
                    split("m2", 1),
                ]),
            },
        ],
    })
}

#[test]
fn the_first_rule_that_applies_decides() {
    assert_eq!(evaluate(&program(), &context(5000), 0), Ok(vec![choice("large")]));
    assert_eq!(evaluate(&program(), &context(500), 0), Ok(vec![choice("m1"), choice("m2")]));
    assert_eq!(evaluate(&program(), &context(500), 1), Ok(vec![choice("m2"), choice("m1")]));
}

#[test]
fn the_default_applies_where_no_rule_does() {
    assert_eq!(evaluate(&program(), &context(50), 0), Ok(vec![choice("default")]));
}

#[test]
fn a_rule_that_fails_to_evaluate_does_not_stop_the_later_rules() {
    let mut ctx = context(5000);
    ctx.payment_method_type = None;
    assert_eq!(evaluate(&program(), &ctx, 0), Ok(vec![choice("large")]));
    ctx.payment_method_type = Some(PaymentMethodType::Credit);
    assert_eq!(evaluate(&program(), &ctx, 0), Ok(vec![choice("never")]));
}

#[test]
fn route_agrees_with_evaluation_where_no_draw_is_needed() {
    assert_eq!(route(&program(), &context(5000)), Ok(vec![choice("large")]));
    let routed = route(&program(), &context(500)).unwrap();
    assert!(routed == vec![choice("m1"), choice("m2")] || routed == vec![choice("m2"), choice("m1")]);
}

fn empty_dictionary(merchant_id: &str) -> RoutingDictionary {
    RoutingDictionary { merchant_id: merchant_id.to_string(), active_id: None, records: vec![] }
}

#[test]
fn first_read_creates_an_empty_dictionary() {
    let (state, step) =
        get_merchant_routing_dictionary("m1", ConfigState::Start, ConfigEvent::Begin);
    assert_eq!(state, ConfigState::AwaitingLookup);
    assert_eq!(step, ConfigStep::Find { key: "routing_dict_m1".to_string() });
    let (state, step) = get_merchant_routing_dictionary(
        "m1",
        state,
        ConfigEvent::Looked(ConfigLookup::NotFound),
    );
    assert_eq!(state, ConfigState::AwaitingInsert { value: empty_dictionary("m1") });
    assert_eq!(
        step,
        ConfigStep::Insert {
            key: "routing_dict_m1".to_string(),
            config: encode_dictionary(&empty_dictionary("m1")),
        }
    );
    let (state, first) = get_merchant_routing_dictionary("m1", state, ConfigEvent::Inserted);
    assert_eq!(state, ConfigState::Finished);
    assert_eq!(first, ConfigStep::Finish(Ok(empty_dictionary("m1"))));
    let stored = match step {
        ConfigStep::Insert { config, .. } => config,
        other => panic!("unexpected: {:?}", other),
    };
    let (state, later) = get_merchant_routing_dictionary(
        "m1",
        ConfigState::AwaitingLookup,
        ConfigEvent::Looked(ConfigLookup::Found(stored)),
    );
    assert_eq!(state, ConfigState::Finished);
    assert_eq!(later, first);
}

#[test]
fn later_reads_return_what_is_stored() {
    let stored = RoutingDictionary {
        merchant_id: "m1".to_string(),
        active_id: Some("algo_1".to_string()),
        records: vec![],
    };
    let (state, step) = get_merchant_routing_dictionary(
        "m1",
        ConfigState::AwaitingLookup,
        ConfigEvent::Looked(ConfigLookup::Found(encode_dictionary(&stored))),
    );
    assert_eq!(state, ConfigState::Finished);
    assert_eq!(step, ConfigStep::Finish(Ok(stored)));
}

#[test]
fn a_dictionary_that_cannot_be_read_or_stored_is_an_internal_error() {
    let failed = ConfigStep::Finish(Err(ApiErrorResponse::InternalServerError));
    for lookup in [
        ConfigLookup::Malformed,
        ConfigLookup::Failed,
        ConfigLookup::Found(Json::Null),
        ConfigLookup::Found(Json::Array(vec![])),
    ] {
        let (state, step) = get_merchant_routing_dictionary(
            "m1",
            ConfigState::AwaitingLookup,
            ConfigEvent::Looked(lookup),
        );
        assert_eq!(state, ConfigState::Finished);
        assert_eq!(step, failed);
    }
    let (state, step) = get_merchant_routing_dictionary(
        "m1",
        ConfigState::AwaitingInsert { value: empty_dictionary("m1") },
        ConfigEvent::InsertFailed,
    );
    assert_eq!(state, ConfigState::Finished);
    assert_eq!(step, failed);
    let (state, step) =
        get_merchant_routing_dictionary("m1", ConfigState::Finished, ConfigEvent::Begin);
    assert_eq!(state, ConfigState::Finished);
    assert_eq!(step, failed);
}

#[test]
fn first_read_creates_an_empty_default_config() {
    let payout = TransactionType::Payout;
    let (state, step) =
        get_merchant_default_config("m1", &payout, ConfigState::Start, ConfigEvent::Begin);
    assert_eq!(step, ConfigStep::Find { key: "routing_default_po_m1".to_string() });
    let (state, step) = get_merchant_default_config(
        "m1",
        &payout,
        state,
        ConfigEvent::Looked(ConfigLookup::NotFound),
    );
    assert_eq!(
        step,
        ConfigStep::Insert { key: "routing_default_po_m1".to_string(), config: Json::Array(vec![]) }
    );
    let (_, step) = get_merchant_default_config("m1", &payout, state, ConfigEvent::Inserted);
    assert_eq!(step, ConfigStep::Finish(Ok(vec![])));
    let (_, step) = get_merchant_default_config(
        "m1",
        &payout,
        ConfigState::AwaitingLookup,
        ConfigEvent::Looked(ConfigLookup::Found(encode_choices(&vec![choice("A")]))),
    );
    assert_eq!(step, ConfigStep::Finish(Ok(vec![choice("A")])));
    let (_, step) = get_merchant_default_config(
        "m1",
        &payout,
        ConfigState::AwaitingLookup,
        ConfigEvent::Looked(ConfigLookup::Found(Json::Text("x".to_string()))),
    );
    assert_eq!(step, ConfigStep::Finish(Err(ApiErrorResponse::InternalServerError)));
}

#[test]
fn config_updates_go_under_their_keys() {
    let update = update_merchant_default_config("m1", vec![choice("A")], &TransactionType::Payment);
    assert_eq!(update.key, "routing_default_m1");
    assert_eq!(update.config, encode_choices(&vec![choice("A")]));
    let update = update_merchant_routing_dictionary("m1", empty_dictionary("m1"));
    assert_eq!(update.key, "routing_dict_m1");
    assert_eq!(update.config, encode_dictionary(&empty_dictionary("m1")));
    let update =
        update_routing_algorithm("algo_1".to_string(), RoutingAlgorithm::Single(choice("A")));
    assert_eq!(update.key, "algo_1");
    assert_eq!(update.config, encode_algorithm(&RoutingAlgorithm::Single(choice("A"))));
}

fn algorithm_ref() -> RoutingAlgorithmRef {
    RoutingAlgorithmRef {
        algorithm_id: Some("algo_1".to_string()),
        timestamp: 1_700_000_000,
        config_algo_id: None,
        surcharge_config_algo_id: None,
    }
}

#[test]
fn active_algorithm_updates_set_one_field() {
    let written = Some(encode_algorithm_ref(&algorithm_ref()));
    let update = update_merchant_active_algorithm_ref(algorithm_ref());
    assert_eq!(update.routing_algorithm, written);
    assert_eq!(update.payout_routing_algorithm, None);
    assert_eq!(update.frm_routing_algorithm, None);
    assert_eq!(update.merchant_name, None);
    assert_eq!(update.default_profile, None);
    let update =
        update_business_profile_active_algorithm_ref(algorithm_ref(), &TransactionType::Payment);
    assert_eq!(update.routing_algorithm, written);
    assert_eq!(update.payout_routing_algorithm, None);
    let update =
        update_business_profile_active_algorithm_ref(algorithm_ref(), &TransactionType::Payout);
    assert_eq!(update.routing_algorithm, None);
    assert_eq!(update.payout_routing_algorithm, written);
    assert_eq!(
        decode_algorithm_ref(update.payout_routing_algorithm.as_ref().unwrap()),
        Some(algorithm_ref())
    );
    assert_eq!(update.profile_name, None);
}
