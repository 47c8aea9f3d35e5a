use payment_core::enums::{
    AttemptStatus, CaptureMethod, CountryAlpha2, Currency, FutureUsage, IntentStatus,
    MerchantStorageScheme, NextOperation, PaymentExperience, PaymentMethod, PaymentMethodType,
    RetryAction, Verb,
};
use payment_core::errors::{
    ApiErrorResponse, ExpectedFormat, Field, MandateFailure, Subject, Unsupported,
};
use payment_core::payment_methods::{AcceptanceType, CustomerAcceptance};
use payment_core::payment_update::{PaymentUpdate, TrackerInputs, TrackerWrite};
use payment_core::payments::{PaymentAttemptUpdate, PaymentIntentUpdate};
use payment_core::payments::{
    AddressAction, AuthFlow, ConfigInsert, Mandate, MandateIds, MandateReferenceId,
    MandateTransactionType, MerchantAccount, MerchantConnectorDetailsWrap, PaymentAttempt,
    PaymentData, PaymentIntent, PaymentsRequest, RecurringDetails, RequestCard,
    RequestSurchargeDetails, StoredConnectorMandate, SurchargeDetails, ValidateResult, YearMonth,
};
use payment_core::router_data::MandateData;

fn request() -> PaymentsRequest {
    PaymentsRequest {
        payment_id: Some("pay_1".to_string()),
        merchant_id: None,
        amount: None,
        currency: None,
        amount_to_capture: None,
        capture_method: None,
        confirm: None,
        customer_id: None,
        customer_details_id: None,
        off_session: None,
        description: None,
        return_url: None,
        setup_future_usage: None,
        has_payment_method_data: false,
        card: None,
        has_payment_method_billing: false,
        payment_method: None,
        payment_method_type: None,
        payment_experience: None,
        payment_token: None,
        has_shipping: false,
        has_billing: false,
        statement_descriptor_name: None,
        statement_descriptor_suffix: None,
        client_secret: None,
        mandate_data: None,
        customer_acceptance: None,
        mandate_id: None,
        recurring_details: None,
        metadata: None,
        business_country: None,
        business_label: None,
        business_sub_label: None,
        retry_action: None,
        surcharge_details: None,
        session_expiry: None,
        request_external_three_ds_authentication: None,
        merchant_connector_details: None,
    }
}

fn merchant() -> MerchantAccount {
    MerchantAccount {
        merchant_id: "m1".to_string(),
        storage_scheme: MerchantStorageScheme::PostgresOnly,
    }
}

fn intent(status: IntentStatus) -> PaymentIntent {
    PaymentIntent {
        payment_id: "pay_1".to_string(),
        merchant_id: "m1".to_string(),
        status,
        amount: 1000,
        currency: Some(Currency::Usd),
        customer_id: Some("cus_1".to_string()),
        description: Some("old description".to_string()),
        return_url: None,
        metadata: Some("{\"k\":1}".to_string()),
        statement_descriptor_name: None,
        statement_descriptor_suffix: None,
        setup_future_usage: None,
        client_secret: Some("secret_1".to_string()),
        active_attempt_id: "att_1".to_string(),
        business_country: Some(CountryAlpha2::Us),
        business_label: Some("default".to_string()),
        shipping_address_id: Some("add_ship".to_string()),
        billing_address_id: None,
        profile_id: Some("pro_1".to_string()),
        created_at: 1_700_000_000,
        session_expiry: Some(1_700_000_900),
        request_external_three_ds_authentication: None,
    }
}

fn attempt() -> PaymentAttempt {
    PaymentAttempt {
        attempt_id: "att_1".to_string(),
        payment_id: "pay_1".to_string(),
        merchant_id: "m1".to_string(),
        status: AttemptStatus::PaymentMethodAwaited,
        amount: 1000,
        currency: Some(Currency::Usd),
        connector: None,
        payment_method_id: None,
        payment_method: None,
        payment_method_type: None,
        payment_experience: None,
        capture_method: Some(CaptureMethod::Manual),
        amount_to_capture: None,
        business_sub_label: None,
        payment_token: None,
        mandate_details: None,
        surcharge_amount: None,
        tax_amount: None,
        payment_method_billing_address_id: None,
    }
}

fn inputs(status: IntentStatus) -> TrackerInputs {
    TrackerInputs {
        auth_flow: AuthFlow::Merchant,
        now: 1_700_000_100,
        today: YearMonth { year: 2023, month: 11 },
        payment_intent: Some(intent(status)),
        payment_attempt: Some(attempt()),
        mandate: None,
        business_profile_found: true,
        generated_address_ids: (
            "add_new_ship".to_string(),
            "add_new_bill".to_string(),
            "add_new_pm".to_string(),
        ),
    }
}

fn invalid(field_name: Field, expected_format: ExpectedFormat) -> ApiErrorResponse {
    ApiErrorResponse::InvalidDataFormat { field_name, expected_format }
}

#[test]
fn a_plain_request_is_valid() {
    assert_eq!(
        PaymentUpdate.validate_request(&request(), &merchant()),
        Ok(ValidateResult {
            merchant_id: "m1".to_string(),
            payment_id: "pay_1".to_string(),
            storage_scheme: MerchantStorageScheme::PostgresOnly,
            requeue: false,
        })
    );
}

#[test]
fn requeue_is_taken_from_the_retry_action() {
    let mut req = request();
    req.retry_action = Some(RetryAction::Requeue);
    assert!(PaymentUpdate.validate_request(&req, &merchant()).unwrap().requeue);
    req.retry_action = Some(RetryAction::ManualRetry);
    assert!(!PaymentUpdate.validate_request(&req, &merchant()).unwrap().requeue);
}

#[test]
fn customer_ids_have_to_agree() {
    let mut req = request();
    req.customer_id = Some("cus_1".to_string());
    req.customer_details_id = Some("cus_2".to_string());
    assert_eq!(
        PaymentUpdate.validate_request(&req, &merchant()),
        Err(invalid(Field::CustomerId, ExpectedFormat::SameCustomerIdInBothPlaces))
    );
    req.customer_details_id = Some("cus_1".to_string());
    assert!(PaymentUpdate.validate_request(&req, &merchant()).is_ok());
}

#[test]
fn session_expiry_has_its_range() {
    let mut req = request();
    for (expiry, ok) in [(59, false), (60, true), (7_890_000, true), (7_890_001, false), (0, false)]
    {
        req.session_expiry = Some(expiry);
        let result = PaymentUpdate.validate_request(&req, &merchant());
        if ok {
            assert!(result.is_ok());
        } else {
            assert_eq!(
                result,
                Err(invalid(Field::SessionExpiry, ExpectedFormat::SessionExpiryInRange))
            );
        }
    }
}

#[test]
fn a_request_without_payment_id_finds_no_payment() {
    let mut req = request();
    req.payment_id = None;
    assert_eq!(
        PaymentUpdate.validate_request(&req, &merchant()),
        Err(ApiErrorResponse::NotFound { subject: Subject::Payment })
    );
}

#[test]
fn the_merchant_id_has_to_be_that_of_the_account() {
    let mut req = request();
    req.merchant_id = Some("m2".to_string());
    assert_eq!(
        PaymentUpdate.validate_request(&req, &merchant()),
        Err(invalid(Field::MerchantId, ExpectedFormat::MerchantIdOfMerchantAccount))
    );
    req.merchant_id = Some("m1".to_string());
    assert!(PaymentUpdate.validate_request(&req, &merchant()).is_ok());
}

#[test]
fn amount_to_capture_is_at_most_amount_and_surcharge() {
    let too_much = Err(invalid(Field::AmountToCapture, ExpectedFormat::AmountToCaptureAtMostAmount));
    let mut req = request();
    req.amount = Some(1000);
    req.amount_to_capture = Some(1000);
    assert!(PaymentUpdate.validate_request(&req, &merchant()).is_ok());
    req.amount_to_capture = Some(1001);
    assert_eq!(PaymentUpdate.validate_request(&req, &merchant()), too_much);
    req.surcharge_details =
        Some(RequestSurchargeDetails { surcharge_amount: 10, tax_amount: Some(5) });
    req.amount_to_capture = Some(1015);
    assert!(PaymentUpdate.validate_request(&req, &merchant()).is_ok());
    req.amount_to_capture = Some(1016);
    assert_eq!(PaymentUpdate.validate_request(&req, &merchant()), too_much);
    req.amount = Some(0);
    req.amount_to_capture = Some(15);
    assert!(PaymentUpdate.validate_request(&req, &merchant()).is_ok());
    req.amount_to_capture = Some(16);
    assert_eq!(PaymentUpdate.validate_request(&req, &merchant()), too_much);
    req.amount = None;
    req.amount_to_capture = Some(5000);
    assert!(PaymentUpdate.validate_request(&req, &merchant()).is_ok());
    req.amount = Some(i64::MAX);
    req.amount_to_capture = Some(i64::MAX);
    req.surcharge_details =
        Some(RequestSurchargeDetails { surcharge_amount: i64::MAX, tax_amount: Some(i64::MAX) });
    assert!(PaymentUpdate.validate_request(&req, &merchant()).is_ok());
}

#[test]
fn payment_method_and_its_data_go_together() {
    let mut req = request();
    req.has_payment_method_data = true;
    assert_eq!(
        PaymentUpdate.validate_request(&req, &merchant()),
        Err(invalid(Field::PaymentMethod, ExpectedFormat::Present))
    );
    req.payment_method = Some(PaymentMethod::Card);
    assert!(PaymentUpdate.validate_request(&req, &merchant()).is_ok());
    req.has_payment_method_data = false;
    assert_eq!(
        PaymentUpdate.validate_request(&req, &merchant()),
        Err(invalid(Field::PaymentMethodData, ExpectedFormat::Present))
    );
    req.payment_token = Some("tok".to_string());
    assert!(PaymentUpdate.validate_request(&req, &merchant()).is_ok());
}

fn acceptance() -> CustomerAcceptance {
    CustomerAcceptance { acceptance_type: AcceptanceType::Online, accepted_at: None }
}

#[test]
fn mandate_requests_are_validated() {
    let mut req = request();
    req.mandate_data = Some(MandateData { customer_acceptance: Some(acceptance()) });
    req.recurring_details = Some(RecurringDetails::MandateId("man_1".to_string()));
    assert_eq!(
        PaymentUpdate.validate_request(&req, &merchant()),
        Err(ApiErrorResponse::MandateValidationFailed {
            reason: MandateFailure::BothRecurringDetailsAndMandateData
        })
    );
    req.recurring_details = None;
    assert_eq!(
        PaymentUpdate.validate_request(&req, &merchant()),
        Err(invalid(Field::CustomerId, ExpectedFormat::Present))
    );
    req.customer_id = Some("cus_1".to_string());
    assert!(PaymentUpdate.validate_request(&req, &merchant()).is_ok());
    req.mandate_data = Some(MandateData { customer_acceptance: None });
    assert_eq!(
        PaymentUpdate.validate_request(&req, &merchant()),
        Err(ApiErrorResponse::MandateValidationFailed {
            reason: MandateFailure::MissingCustomerAcceptance
        })
    );
    req.customer_acceptance = Some(acceptance());
    assert!(PaymentUpdate.validate_request(&req, &merchant()).is_ok());
}

#[test]
fn recurring_details_exclude_token_and_mandate_id() {
    let both = Err(invalid(Field::RecurringDetails, ExpectedFormat::AtMostOneOfAlternatives));
    let mut req = request();
    req.customer_id = Some("cus_1".to_string());
    req.recurring_details = Some(RecurringDetails::PaymentMethodId("pm_1".to_string()));
    assert!(PaymentUpdate.validate_request(&req, &merchant()).is_ok());
    req.payment_token = Some("tok".to_string());
    assert_eq!(PaymentUpdate.validate_request(&req, &merchant()), both);
    req.payment_token = None;
    req.mandate_id = Some("man_1".to_string());
    assert_eq!(PaymentUpdate.validate_request(&req, &merchant()), both);
}

#[test]
fn payment_ids_hold_up_to_sixty_four_characters() {
    let mut req = request();
    req.payment_id = Some("p".repeat(64));
    assert!(PaymentUpdate.validate_request(&req, &merchant()).is_ok());
    req.payment_id = Some("p".repeat(65));
    assert_eq!(
        PaymentUpdate.validate_request(&req, &merchant()),
        Err(invalid(Field::PaymentId, ExpectedFormat::Identifier))
    );
}

fn rejected(status: IntentStatus) -> Result<payment_core::payments::GetTrackerResponse, ApiErrorResponse>
{
    Err(ApiErrorResponse::NotSupported { message: Unsupported::UpdateInStatus(status) })
}

#[test]
fn update_of_a_failed_payment_is_rejected() {
    assert_eq!(
        PaymentUpdate.get_trackers(&request(), inputs(IntentStatus::Failed)),
        rejected(IntentStatus::Failed)
    );
}

#[test]
fn update_of_a_succeeded_payment_is_rejected() {
    assert_eq!(
        PaymentUpdate.get_trackers(&request(), inputs(IntentStatus::Succeeded)),
        rejected(IntentStatus::Succeeded)
    );
}

#[test]
fn update_of_a_partially_captured_payment_is_rejected() {
    assert_eq!(
        PaymentUpdate.get_trackers(&request(), inputs(IntentStatus::PartiallyCaptured)),
        rejected(IntentStatus::PartiallyCaptured)
    );
}

#[test]
fn update_of_a_payment_that_waits_for_capture_is_rejected() {
    let mut req = request();
    req.amount = Some(5);
    req.confirm = Some(true);
    assert_eq!(
        PaymentUpdate.get_trackers(&req, inputs(IntentStatus::RequiresCapture)),
        rejected(IntentStatus::RequiresCapture)
    );
}

#[test]
fn a_closed_status_is_rejected_before_anything_else_is_looked_at() {
    let mut ins = inputs(IntentStatus::Succeeded);
    ins.payment_attempt = None;
    ins.business_profile_found = false;
    assert_eq!(PaymentUpdate.get_trackers(&request(), ins), rejected(IntentStatus::Succeeded));
}

#[test]
fn missing_records_are_not_found() {
    let missing = Err(ApiErrorResponse::NotFound { subject: Subject::Payment });
    let mut ins = inputs(IntentStatus::RequiresPaymentMethod);
    ins.payment_intent = None;
    assert_eq!(PaymentUpdate.get_trackers(&request(), ins), missing);
    let mut ins = inputs(IntentStatus::RequiresPaymentMethod);
    ins.payment_attempt = None;
    assert_eq!(PaymentUpdate.get_trackers(&request(), ins), missing);
    let mut ins = inputs(IntentStatus::RequiresPaymentMethod);
    ins.business_profile_found = false;
    assert_eq!(
        PaymentUpdate.get_trackers(&request(), ins),
        Err(ApiErrorResponse::NotFound {
            subject: Subject::BusinessProfile { id: "pro_1".to_string() }
        })
    );
    let mut ins = inputs(IntentStatus::RequiresPaymentMethod);
    ins.payment_intent.as_mut().unwrap().profile_id = None;
    assert_eq!(
        PaymentUpdate.get_trackers(&request(), ins),
        Err(ApiErrorResponse::InternalServerError)
    );
}

#[test]
fn an_update_merges_the_request_into_the_records() {
    let mut req = request();
    req.amount = Some(2000);
    req.description = Some("new description".to_string());
    req.business_label = None;
    req.business_country = Some(CountryAlpha2::De);
    req.has_payment_method_data = true;
    req.payment_method = Some(PaymentMethod::Card);
    req.payment_method_type = Some(PaymentMethodType::Credit);
    req.payment_experience = Some(PaymentExperience::RedirectToUrl);
    req.has_shipping = true;
    req.has_billing = true;
    req.metadata = Some("{\"k\":2}".to_string());
    req.setup_future_usage = Some(FutureUsage::OnSession);
    req.merchant_connector_details = Some(MerchantConnectorDetailsWrap {
        creds_identifier: "creds_1".to_string(),
        encoded_data: Some("encoded".to_string()),
    });
    let response =
        PaymentUpdate.get_trackers(&req, inputs(IntentStatus::RequiresPaymentMethod)).unwrap();
    assert_eq!(response.operation, NextOperation::Continue);
    assert_eq!(response.mandate_type, None);
    assert_eq!(
        response.shipping_address,
        AddressAction::Update { address_id: "add_ship".to_string() }
    );
    assert_eq!(
        response.billing_address,
        AddressAction::Create { address_id: "add_new_bill".to_string() }
    );
    assert_eq!(response.payment_method_billing_address, AddressAction::Nothing);
    assert_eq!(
        response.merchant_connector_creds,
        Some(ConfigInsert { key: "mcd_m1_creds_1".to_string(), config: "encoded".to_string() })
    );
    let data = response.payment_data;
    assert_eq!(data.amount, 2000);
    assert_eq!(data.currency, Currency::Usd);
    assert_eq!(data.confirm, None);
    assert_eq!(data.creds_identifier, Some("creds_1".to_string()));
    assert_eq!(data.payment_intent.amount, 1000);
    assert_eq!(data.payment_attempt.amount, 1000);
    assert_eq!(data.payment_intent.status, IntentStatus::RequiresConfirmation);
    assert_eq!(data.payment_intent.description, Some("new description".to_string()));
    assert_eq!(data.payment_intent.business_label, None);
    assert_eq!(data.payment_intent.business_country, Some(CountryAlpha2::De));
    assert_eq!(data.payment_intent.metadata, Some("{\"k\":2}".to_string()));
    assert_eq!(data.payment_intent.client_secret, Some("secret_1".to_string()));
    assert_eq!(data.payment_intent.setup_future_usage, Some(FutureUsage::OnSession));
    assert_eq!(data.payment_intent.shipping_address_id, Some("add_ship".to_string()));
    assert_eq!(data.payment_intent.billing_address_id, Some("add_new_bill".to_string()));
    assert_eq!(data.payment_attempt.payment_method, Some(PaymentMethod::Card));
    assert_eq!(data.payment_attempt.payment_method_type, Some(PaymentMethodType::Credit));
    assert_eq!(data.payment_attempt.payment_experience, Some(PaymentExperience::RedirectToUrl));
    assert_eq!(data.payment_attempt.capture_method, Some(CaptureMethod::Manual));
}

#[test]
fn an_update_without_payment_method_data_waits_for_one() {
    let response =
        PaymentUpdate.get_trackers(&request(), inputs(IntentStatus::RequiresConfirmation)).unwrap();
    assert_eq!(response.payment_data.payment_intent.status, IntentStatus::RequiresPaymentMethod);
    assert_eq!(
        response.shipping_address,
        AddressAction::Keep { address_id: "add_ship".to_string() }
    );
    assert_eq!(response.billing_address, AddressAction::Nothing);
    assert_eq!(response.payment_data.amount, 1000);
    assert_eq!(response.payment_data.payment_intent.metadata, Some("{\"k\":1}".to_string()));
}

#[test]
fn a_confirming_update_hands_over_to_the_confirmation() {
    let mut req = request();
    req.confirm = Some(true);
    req.amount = Some(2000);
    req.has_payment_method_data = true;
    req.payment_method = Some(PaymentMethod::Card);
    req.surcharge_details = Some(RequestSurchargeDetails { surcharge_amount: 30, tax_amount: Some(3) });
    let response =
        PaymentUpdate.get_trackers(&req, inputs(IntentStatus::RequiresCustomerAction)).unwrap();
    assert_eq!(response.operation, NextOperation::Advance(Verb::Confirm));
    let data = response.payment_data;
    assert_eq!(data.amount, 2033);
    assert_eq!(data.payment_intent.amount, 2000);
    assert_eq!(data.payment_attempt.amount, 2000);
    assert_eq!(data.payment_intent.status, IntentStatus::RequiresCustomerAction);
    assert_eq!(
        data.surcharge_details,
        Some(SurchargeDetails {
            original_amount: 2000,
            surcharge_amount: 30,
            tax_on_surcharge_amount: 3
        })
    );
}

#[test]
fn a_confirming_update_adds_the_stored_surcharge() {
    let mut req = request();
    req.confirm = Some(true);
    req.payment_token = Some("tok".to_string());
    let mut ins = inputs(IntentStatus::RequiresConfirmation);
    ins.payment_attempt.as_mut().unwrap().surcharge_amount = Some(7);
    ins.payment_attempt.as_mut().unwrap().tax_amount = Some(1);
    let response = PaymentUpdate.get_trackers(&req, ins).unwrap();
    assert_eq!(response.payment_data.amount, 1008);
    assert_eq!(response.payment_data.surcharge_details, None);
    assert_eq!(
        response.mandate_type,
        Some(MandateTransactionType::RecurringMandateTransaction)
    );
}

#[test]
fn an_amount_that_cannot_be_represented_is_rejected() {
    let mut req = request();
    req.confirm = Some(true);
    req.payment_token = Some("tok".to_string());
    req.amount = Some(i64::MAX);
    req.surcharge_details = Some(RequestSurchargeDetails { surcharge_amount: 1, tax_amount: None });
    assert_eq!(
        PaymentUpdate.get_trackers(&req, inputs(IntentStatus::RequiresConfirmation)),
        Err(invalid(Field::Amount, ExpectedFormat::AmountWithinRange))
    );
}

#[test]
fn amount_to_capture_is_checked_again_against_the_stored_attempt() {
    let mut req = request();
    req.amount = Some(1000);
    req.amount_to_capture = Some(1010);
    let mut ins = inputs(IntentStatus::RequiresConfirmation);
    ins.payment_attempt.as_mut().unwrap().surcharge_amount = Some(10);
    assert!(PaymentUpdate.get_trackers(&req, ins).is_ok());
    req.amount_to_capture = Some(1011);
    let mut ins = inputs(IntentStatus::RequiresConfirmation);
    ins.payment_attempt.as_mut().unwrap().surcharge_amount = Some(10);
    assert_eq!(
        PaymentUpdate.get_trackers(&req, ins),
        Err(invalid(Field::AmountToCapture, ExpectedFormat::AmountToCaptureAtMostAmount))
    );
}

#[test]
fn automatic_capture_takes_the_whole_amount() {
    let mut req = request();
    req.capture_method = Some(CaptureMethod::Automatic);
    req.amount = Some(1000);
    req.amount_to_capture = Some(900);
    assert_eq!(
        PaymentUpdate.get_trackers(&req, inputs(IntentStatus::RequiresConfirmation)),
        Err(invalid(Field::AmountToCapture, ExpectedFormat::AmountToCaptureEqualToAmount))
    );
    req.amount_to_capture = Some(1000);
    assert!(PaymentUpdate.get_trackers(&req, inputs(IntentStatus::RequiresConfirmation)).is_ok());
}

#[test]
fn a_currency_is_needed() {
    let mut ins = inputs(IntentStatus::RequiresConfirmation);
    ins.payment_attempt.as_mut().unwrap().currency = None;
    assert_eq!(
        PaymentUpdate.get_trackers(&request(), ins),
        Err(invalid(Field::Currency, ExpectedFormat::Present))
    );
    let mut req = request();
    req.currency = Some(Currency::Eur);
    let mut ins = inputs(IntentStatus::RequiresConfirmation);
    ins.payment_attempt.as_mut().unwrap().currency = None;
    assert_eq!(PaymentUpdate.get_trackers(&req, ins).unwrap().payment_data.currency, Currency::Eur);
}

#[test]
fn confirming_needs_a_payment_method_or_a_token() {
    let mut req = request();
    req.confirm = Some(true);
    assert_eq!(
        PaymentUpdate.get_trackers(&req, inputs(IntentStatus::RequiresConfirmation)),
        Err(invalid(Field::PaymentMethodData, ExpectedFormat::Present))
    );
    req.payment_method_type = Some(PaymentMethodType::Paypal);
    assert!(PaymentUpdate.get_trackers(&req, inputs(IntentStatus::RequiresConfirmation)).is_ok());
    req.payment_method_type = None;
    let mut ins = inputs(IntentStatus::RequiresConfirmation);
    ins.payment_attempt.as_mut().unwrap().payment_token = Some("tok_stored".to_string());
    let response = PaymentUpdate.get_trackers(&req, ins).unwrap();
    assert_eq!(response.payment_data.token, Some("tok_stored".to_string()));
}

#[test]
fn confirming_for_future_usage_needs_a_customer() {
    let mut req = request();
    req.confirm = Some(true);
    req.payment_token = Some("tok".to_string());
    req.setup_future_usage = Some(FutureUsage::OnSession);
    let mut ins = inputs(IntentStatus::RequiresConfirmation);
    ins.payment_intent.as_mut().unwrap().customer_id = None;
    assert_eq!(
        PaymentUpdate.get_trackers(&req, ins),
        Err(invalid(Field::CustomerId, ExpectedFormat::Present))
    );
    req.customer_id = Some("cus_9".to_string());
    let mut ins = inputs(IntentStatus::RequiresConfirmation);
    ins.payment_intent.as_mut().unwrap().customer_id = None;
    assert!(PaymentUpdate.get_trackers(&req, ins).is_ok());
}

fn mandate(network: Option<&str>, connector: StoredConnectorMandate) -> Mandate {
    Mandate {
        mandate_id: "man_1".to_string(),
        customer_id: "cus_1".to_string(),
        network_transaction_id: network.map(|n| n.to_string()),
        connector_mandate_ids: connector,
    }
}

#[test]
fn the_mandate_id_comes_before_the_recurring_details() {
    let mut req = request();
    req.mandate_id = Some("man_1".to_string());
    let mut ins = inputs(IntentStatus::RequiresConfirmation);
    ins.mandate = Some(mandate(Some("ntid"), StoredConnectorMandate::Absent));
    assert_eq!(
        PaymentUpdate.get_trackers(&req, ins).unwrap().payment_data.mandate_id,
        Some(MandateIds {
            mandate_id: Some("man_1".to_string()),
            mandate_reference_id: Some(MandateReferenceId::NetworkMandateId("ntid".to_string())),
        })
    );
    let mut req = request();
    req.recurring_details = Some(RecurringDetails::MandateId("man_1".to_string()));
    let mut ins = inputs(IntentStatus::RequiresConfirmation);
    ins.mandate = Some(mandate(
        None,
        StoredConnectorMandate::Valid {
            connector_mandate_id: Some("cm_1".to_string()),
            payment_method_id: Some("pm_1".to_string()),
        },
    ));
    assert_eq!(
        PaymentUpdate.get_trackers(&req, ins).unwrap().payment_data.mandate_id,
        Some(MandateIds {
            mandate_id: Some("man_1".to_string()),
            mandate_reference_id: Some(MandateReferenceId::ConnectorMandateId {
                connector_mandate_id: Some("cm_1".to_string()),
                payment_method_id: Some("pm_1".to_string()),
            }),
        })
    );
    let mut ins = inputs(IntentStatus::RequiresConfirmation);
    ins.mandate = Some(mandate(None, StoredConnectorMandate::Absent));
    assert_eq!(
        PaymentUpdate.get_trackers(&req, ins).unwrap().payment_data.mandate_id,
        Some(MandateIds { mandate_id: Some("man_1".to_string()), mandate_reference_id: None })
    );
}

#[test]
fn a_mandate_that_does_not_resolve_is_an_error_unless_none_was_asked_for() {
    let missing = Err(ApiErrorResponse::NotFound { subject: Subject::Mandate });
    let mut req = request();
    req.mandate_id = Some("man_1".to_string());
    assert_eq!(PaymentUpdate.get_trackers(&req, inputs(IntentStatus::RequiresConfirmation)), missing);
    let mut ins = inputs(IntentStatus::RequiresConfirmation);
    ins.mandate = Some(mandate(None, StoredConnectorMandate::Malformed));
    assert_eq!(PaymentUpdate.get_trackers(&req, ins), missing);
    let mut req = request();
    req.recurring_details = Some(RecurringDetails::PaymentMethodId("pm_1".to_string()));
    assert_eq!(
        PaymentUpdate
            .get_trackers(&req, inputs(IntentStatus::RequiresConfirmation))
            .unwrap()
            .payment_data
            .mandate_id,
        None
    );
    let mut ins = inputs(IntentStatus::RequiresConfirmation);
    ins.mandate = Some(mandate(Some("ntid"), StoredConnectorMandate::Absent));
    assert_eq!(PaymentUpdate.get_trackers(&request(), ins).unwrap().payment_data.mandate_id, None);
}

#[test]
fn mandate_type_follows_usage_acceptance_and_token() {
    let mut req = request();
    req.setup_future_usage = Some(FutureUsage::OffSession);
    req.customer_acceptance = Some(acceptance());
    req.mandate_data = Some(MandateData { customer_acceptance: None });
    let response =
        PaymentUpdate.get_trackers(&req, inputs(IntentStatus::RequiresConfirmation)).unwrap();
    assert_eq!(response.mandate_type, Some(MandateTransactionType::NewMandateTransaction));
    assert_eq!(
        response.payment_data.setup_mandate,
        Some(MandateData { customer_acceptance: None })
    );
    req.mandate_data = None;
    assert_eq!(
        PaymentUpdate.get_trackers(&req, inputs(IntentStatus::RequiresConfirmation)),
        Err(invalid(Field::MandateData, ExpectedFormat::Present))
    );
    req.mandate_data = Some(MandateData { customer_acceptance: None });
    req.off_session = Some(true);
    req.payment_token = Some("tok".to_string());
    assert_eq!(
        PaymentUpdate.get_trackers(&req, inputs(IntentStatus::RequiresConfirmation)),
        Err(ApiErrorResponse::MandateValidationFailed {
            reason: MandateFailure::BothRecurringDetailsAndMandateData
        })
    );
    let mut req = request();
    req.setup_future_usage = Some(FutureUsage::OnSession);
    req.mandate_data = Some(MandateData { customer_acceptance: None });
    assert_eq!(
        PaymentUpdate.get_trackers(&req, inputs(IntentStatus::RequiresConfirmation)),
        Err(ApiErrorResponse::MandateValidationFailed {
            reason: MandateFailure::OnSessionWithMandateDetails
        })
    );
}

#[test]
fn populate_attempt_takes_what_the_request_gives() {
    let mut req = request();
    req.business_sub_label = Some("sub".to_string());
    req.amount_to_capture = Some(500);
    req.capture_method = Some(CaptureMethod::Automatic);
    let mut att = attempt();
    att.payment_method_type = Some(PaymentMethodType::Debit);
    PaymentUpdate::populate_payment_attempt_with_request(&mut att, &req);
    let mut expected = attempt();
    expected.business_sub_label = Some("sub".to_string());
    expected.payment_method_type = Some(PaymentMethodType::Debit);
    expected.amount_to_capture = Some(500);
    expected.capture_method = Some(CaptureMethod::Automatic);
    assert_eq!(att, expected);
    let mut untouched = attempt();
    PaymentUpdate::populate_payment_attempt_with_request(&mut untouched, &request());
    assert_eq!(untouched, attempt());
}

#[test]
fn populate_intent_overwrites_country_and_label_only() {
    let mut int = intent(IntentStatus::RequiresConfirmation);
    PaymentUpdate::populate_payment_intent_with_request(&mut int, &request());
    let mut expected = intent(IntentStatus::RequiresConfirmation);
    expected.business_country = None;
    expected.business_label = None;
    assert_eq!(int, expected);
    let mut req = request();
    req.return_url = Some("https://example.com/".to_string());
    req.statement_descriptor_name = Some("name".to_string());
    req.statement_descriptor_suffix = Some("suffix".to_string());
    req.client_secret = Some("secret_2".to_string());
    req.business_label = Some("label".to_string());
    let mut int = intent(IntentStatus::RequiresConfirmation);
    PaymentUpdate::populate_payment_intent_with_request(&mut int, &req);
    expected.return_url = Some("https://example.com/".to_string());
    expected.statement_descriptor_name = Some("name".to_string());
    expected.statement_descriptor_suffix = Some("suffix".to_string());
    expected.client_secret = Some("secret_2".to_string());
    expected.business_label = Some("label".to_string());
    assert_eq!(int, expected);
}

fn payment_data(status: IntentStatus, confirm: Option<bool>) -> PaymentData {
    PaymentData {
        payment_intent: intent(status),
        payment_attempt: attempt(),
        currency: Currency::Usd,
        amount: 1234,
        mandate_id: None,
        token: Some("tok".to_string()),
        setup_mandate: None,
        customer_acceptance: None,
        confirm,
        has_payment_method_data: false,
        surcharge_details: Some(SurchargeDetails {
            original_amount: 1200,
            surcharge_amount: 30,
            tax_on_surcharge_amount: 4,
        }),
        creds_identifier: None,
    }
}

struct Plan {
    attempt_update: PaymentAttemptUpdate,
    intent_update: PaymentIntentUpdate,
    operation: NextOperation,
}

fn plan(data: &PaymentData) -> Plan {
    let plan = PaymentUpdate
        .update_trackers(data, Some("cus_1".to_string()), MerchantStorageScheme::RedisKv)
        .unwrap();
    let operation = plan.operation;
    let mut writes = plan.writes.into_iter();
    match (writes.next(), writes.next(), writes.next()) {
        (Some(TrackerWrite::Attempt(attempt_update)), Some(TrackerWrite::Intent(intent_update)), None) => {
            Plan { attempt_update, intent_update, operation }
        }
        other => panic!("the attempt is written first, then the intent: {:?}", other),
    }
}

#[test]
fn an_update_persists_attempt_and_intent() {
    let data = payment_data(IntentStatus::RequiresPaymentMethod, None);
    let plan = plan(&data);
    assert_eq!(plan.operation, NextOperation::Continue);
    assert_eq!(plan.attempt_update.amount, 1234);
    assert_eq!(plan.attempt_update.currency, Currency::Usd);
    assert_eq!(plan.attempt_update.status, AttemptStatus::PaymentMethodAwaited);
    assert_eq!(plan.attempt_update.payment_token, Some("tok".to_string()));
    assert_eq!(plan.attempt_update.surcharge_amount, Some(30));
    assert_eq!(plan.attempt_update.tax_amount, Some(4));
    assert_eq!(plan.attempt_update.capture_method, Some(CaptureMethod::Manual));
    assert_eq!(plan.attempt_update.updated_by, MerchantStorageScheme::RedisKv);
    assert_eq!(plan.intent_update.amount, 1234);
    assert_eq!(plan.intent_update.status, IntentStatus::RequiresPaymentMethod);
    assert_eq!(plan.intent_update.customer_id, Some("cus_1".to_string()));
    assert_eq!(plan.intent_update.shipping_address_id, Some("add_ship".to_string()));
    assert_eq!(plan.intent_update.description, Some("old description".to_string()));
    assert_eq!(plan.intent_update.business_country, Some(CountryAlpha2::Us));
    assert_eq!(plan.intent_update.session_expiry, Some(1_700_000_900));
    assert_eq!(plan.intent_update.updated_by, MerchantStorageScheme::RedisKv);
}

#[test]
fn statuses_after_an_update() {
    let mut data = payment_data(IntentStatus::RequiresPaymentMethod, None);
    data.payment_attempt.payment_method_id = Some("pm_1".to_string());
    let p = plan(&data);
    assert_eq!(p.attempt_update.status, AttemptStatus::ConfirmationAwaited);
    assert_eq!(p.intent_update.status, IntentStatus::RequiresPaymentMethod);
    let p = plan(&payment_data(IntentStatus::RequiresCustomerAction, None));
    assert_eq!(p.attempt_update.status, AttemptStatus::ConfirmationAwaited);
    assert_eq!(p.intent_update.status, IntentStatus::RequiresConfirmation);
    let p = plan(&payment_data(IntentStatus::RequiresConfirmation, Some(false)));
    assert_eq!(p.intent_update.status, IntentStatus::RequiresConfirmation);
    assert_eq!(p.operation, NextOperation::Continue);
    let p = plan(&payment_data(IntentStatus::RequiresConfirmation, Some(true)));
    assert_eq!(p.intent_update.status, IntentStatus::RequiresConfirmation);
    assert_eq!(p.operation, NextOperation::Advance(Verb::Confirm));
}

#[test]
fn an_update_needs_the_profile_of_the_intent() {
    let mut data = payment_data(IntentStatus::RequiresConfirmation, None);
    data.payment_intent.profile_id = None;
    assert_eq!(
        PaymentUpdate.update_trackers(&data, None, MerchantStorageScheme::PostgresOnly),
        Err(ApiErrorResponse::InternalServerError)
    );
}

#[test]
fn an_update_blocks_and_schedules_nothing() {
    let data = payment_data(IntentStatus::RequiresConfirmation, None);
    assert_eq!(PaymentUpdate.guard_payment_against_blocklist(&data), Ok(false));
    assert_eq!(PaymentUpdate.add_task_to_process_tracker(&attempt(), true, Some(5)), Ok(()));
    assert_eq!(PaymentUpdate.add_task_to_process_tracker(&attempt(), false, None), Ok(()));
}

#[test]
fn credentials_without_data_are_not_stored() {
    let mut req = request();
    req.merchant_connector_details = Some(MerchantConnectorDetailsWrap {
        creds_identifier: "creds_1".to_string(),
        encoded_data: None,
    });
    let response =
        PaymentUpdate.get_trackers(&req, inputs(IntentStatus::RequiresConfirmation)).unwrap();
    assert_eq!(response.merchant_connector_creds, None);
    assert_eq!(response.payment_data.creds_identifier, Some("creds_1".to_string()));
    let response =
        PaymentUpdate.get_trackers(&request(), inputs(IntentStatus::RequiresConfirmation)).unwrap();
    assert_eq!(response.merchant_connector_creds, None);
    assert_eq!(response.payment_data.creds_identifier, None);
}

#[test]
fn a_customer_may_only_update_the_own_payment() {
    let turned_down = Err(invalid(Field::CustomerId, ExpectedFormat::CustomerOfThePayment));
    let mut req = request();
    req.customer_id = Some("cus_2".to_string());
    let mut ins = inputs(IntentStatus::RequiresConfirmation);
    ins.auth_flow = AuthFlow::Client;
    assert_eq!(PaymentUpdate.get_trackers(&req, ins), turned_down);
    assert!(PaymentUpdate.get_trackers(&req, inputs(IntentStatus::RequiresConfirmation)).is_ok());
    req.customer_id = Some("cus_1".to_string());
    let mut ins = inputs(IntentStatus::RequiresConfirmation);
    ins.auth_flow = AuthFlow::Client;
    assert!(PaymentUpdate.get_trackers(&req, ins).is_ok());
    let mut ins = inputs(IntentStatus::RequiresConfirmation);
    ins.auth_flow = AuthFlow::Client;
    ins.payment_intent.as_mut().unwrap().customer_id = None;
    assert_eq!(PaymentUpdate.get_trackers(&req, ins), turned_down);
    let mut ins = inputs(IntentStatus::RequiresConfirmation);
    ins.auth_flow = AuthFlow::Client;
    assert!(PaymentUpdate.get_trackers(&request(), ins).is_ok());
}

fn card(cvc: &str, month: u8, year: u16) -> Option<RequestCard> {
    Some(RequestCard { card_cvc: cvc.to_string(), card_exp_month: month, card_exp_year: year })
}

#[test]
fn the_card_of_a_request_is_checked() {
    let check = |card: Option<RequestCard>| {
        let mut req = request();
        req.card = card;
        PaymentUpdate.get_trackers(&req, inputs(IntentStatus::RequiresConfirmation)).map(|_| ())
    };
    let cvc = Err(invalid(Field::CardCvc, ExpectedFormat::ThreeOrFourDigits));
    let month = Err(invalid(Field::CardExpMonth, ExpectedFormat::MonthOfTheYear));
    let expired = Err(invalid(Field::CardExpYear, ExpectedFormat::ExpiryNotInThePast));
    assert_eq!(check(card("123", 12, 2030)), Ok(()));
    assert_eq!(check(card("1234", 1, 30)), Ok(()));
    assert_eq!(check(card("12", 12, 2030)), cvc);
    assert_eq!(check(card("12345", 12, 2030)), cvc);
    assert_eq!(check(card("12a", 12, 2030)), cvc);
    assert_eq!(check(card("+12", 12, 2030)), cvc);
    assert_eq!(check(card("", 12, 2030)), cvc);
    assert_eq!(check(card("123", 0, 2030)), month);
    assert_eq!(check(card("123", 13, 2030)), month);
    assert_eq!(check(card("123", 11, 2023)), Ok(()));
    assert_eq!(check(card("123", 11, 23)), Ok(()));
    assert_eq!(check(card("123", 10, 2023)), expired);
    assert_eq!(check(card("123", 12, 2022)), expired);
    assert_eq!(check(card("123", 12, 22)), expired);
    assert_eq!(check(card("123", 1, 2024)), Ok(()));
    assert_eq!(check(card("12", 13, 2000)), cvc);
}

#[test]
fn a_client_secret_has_to_be_that_of_the_payment_and_in_time() {
    let wrong = Err(invalid(Field::ClientSecret, ExpectedFormat::ClientSecretOfThePayment));
    let late = Err(invalid(Field::ClientSecret, ExpectedFormat::ClientSecretNotExpired));
    let mut req = request();
    req.client_secret = Some("secret_2".to_string());
    assert_eq!(PaymentUpdate.get_trackers(&req, inputs(IntentStatus::RequiresConfirmation)), wrong);
    req.client_secret = Some("secret_1".to_string());
    assert!(PaymentUpdate.get_trackers(&req, inputs(IntentStatus::RequiresConfirmation)).is_ok());
    let mut ins = inputs(IntentStatus::RequiresConfirmation);
    ins.now = 1_700_000_900;
    assert!(PaymentUpdate.get_trackers(&req, ins).is_ok());
    let mut ins = inputs(IntentStatus::RequiresConfirmation);
    ins.now = 1_700_000_901;
    assert_eq!(PaymentUpdate.get_trackers(&req, ins), late);
    let mut ins = inputs(IntentStatus::RequiresConfirmation);
    ins.payment_intent.as_mut().unwrap().session_expiry = None;
    ins.now = 1_700_000_900;
    assert!(PaymentUpdate.get_trackers(&req, ins).is_ok());
    let mut ins = inputs(IntentStatus::RequiresConfirmation);
    ins.payment_intent.as_mut().unwrap().session_expiry = None;
    ins.now = 1_700_000_901;
    assert_eq!(PaymentUpdate.get_trackers(&req, ins), late);
    let mut ins = inputs(IntentStatus::RequiresConfirmation);
    ins.payment_intent.as_mut().unwrap().session_expiry = None;
    ins.payment_intent.as_mut().unwrap().created_at = i64::MAX - 5;
    ins.now = i64::MAX;
    assert!(PaymentUpdate.get_trackers(&req, ins).is_ok());
    let mut ins = inputs(IntentStatus::RequiresConfirmation);
    ins.payment_intent.as_mut().unwrap().client_secret = None;
    assert_eq!(PaymentUpdate.get_trackers(&req, ins), late);
    let mut ins = inputs(IntentStatus::RequiresConfirmation);
    ins.now = i64::MAX;
    assert!(PaymentUpdate.get_trackers(&request(), ins).is_ok());
}

#[test]
fn the_checks_before_the_status_come_first_and_the_client_secret_after_it() {
    let mut req = request();
    req.card = card("1", 1, 2030);
    req.client_secret = Some("wrong".to_string());
    assert_eq!(
        PaymentUpdate.get_trackers(&req, inputs(IntentStatus::Succeeded)),
        Err(invalid(Field::CardCvc, ExpectedFormat::ThreeOrFourDigits))
    );
    req.customer_id = Some("cus_2".to_string());
    let mut ins = inputs(IntentStatus::Succeeded);
    ins.auth_flow = AuthFlow::Client;
    assert_eq!(
        PaymentUpdate.get_trackers(&req, ins),
        Err(invalid(Field::CustomerId, ExpectedFormat::CustomerOfThePayment))
    );
    req.customer_id = None;
    req.card = None;
    assert_eq!(
        PaymentUpdate.get_trackers(&req, inputs(IntentStatus::Succeeded)),
        rejected(IntentStatus::Succeeded)
    );
    let mut ins = inputs(IntentStatus::RequiresConfirmation);
    ins.payment_attempt = None;
    assert_eq!(
        PaymentUpdate.get_trackers(&req, ins),
        Err(invalid(Field::ClientSecret, ExpectedFormat::ClientSecretOfThePayment))
    );
}
