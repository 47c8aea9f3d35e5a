use base64::Engine;
use payment_core::codec::JsonMember;
use payment_core::connector::nuvei::{
    flow_after_challenge, parse_status, signed_message_of, webhook_details, Nuvei,
    NuveiPaymentsResponse, NuveiTransactionStatus, NuveiTransactionType, NuveiWebhookDetails,
    NuveiWebhookStatus, PretaskEvent, PretaskState, PretaskStep,
};
use payment_core::connector::types::{
    CallConnectorAction, ConnectorAuthType, ConnectorEvent, ConnectorParams,
    ConnectorWebhookSecrets, Connectors, Flow, IncomingWebhookEvent,
    IncomingWebhookRequestDetails, Method, ObjectReferenceId, PaymentAction, PaymentIdType,
    Request, SignatureAlgorithm,
};
use payment_core::connector::webhooks::{find_field, get_header_key_value, Occurrence};
use payment_core::enums::{AttemptStatus, AuthenticationType, CaptureMethod, PaymentMethod};
use payment_core::errors::{Capability, ConnectorError};
use payment_core::router_data::{
    ErrorResponse, PaymentsAuthorizeData, PaymentsResponseData, RouterData,
};
use sha2::Digest;

fn connectors() -> Connectors {
    Connectors { nuvei: ConnectorParams { base_url: "https://ppp-test.nuvei.com/".to_string() } }
}

fn content_type() -> Vec<(String, String)> {
    vec![("Content-Type".to_string(), "application/json".to_string())]
}

#[test]
fn nuvei_names_itself() {
    assert_eq!(Nuvei.id(), "nuvei");
    assert_eq!(Nuvei.common_get_content_type(), "application/json");
    assert_eq!(Nuvei.get_content_type(), "application/json");
    assert_eq!(Nuvei.base_url(&connectors()), "https://ppp-test.nuvei.com/");
    assert_eq!(Nuvei.get_auth_header(&ConnectorAuthType::NoKey), Ok(vec![]));
    assert_eq!(Nuvei.build_headers(), content_type());
    assert_eq!(Nuvei.get_headers(), content_type());
}

#[test]
fn capture_methods_that_nuvei_offers() {
    assert_eq!(Nuvei.validate_capture_method(None), Ok(()));
    assert_eq!(Nuvei.validate_capture_method(Some(CaptureMethod::Automatic)), Ok(()));
    assert_eq!(Nuvei.validate_capture_method(Some(CaptureMethod::Manual)), Ok(()));
    assert_eq!(
        Nuvei.validate_capture_method(Some(CaptureMethod::ManualMultiple)),
        Err(ConnectorError::NotImplemented {
            flow: Capability::CaptureMethod(CaptureMethod::ManualMultiple)
        })
    );
    assert_eq!(
        Nuvei.validate_capture_method(Some(CaptureMethod::Scheduled)),
        Err(ConnectorError::NotImplemented {
            flow: Capability::CaptureMethod(CaptureMethod::Scheduled)
        })
    );
}

#[test]
fn every_flow_has_its_endpoint() {
    let url = |flow| Nuvei.get_url(flow, &connectors());
    let at = |path: &str| Some(format!("https://ppp-test.nuvei.com/ppp/api/v1/{}", path));
    assert_eq!(url(Flow::Authorize), at("payment.do"));
    assert_eq!(url(Flow::CompleteAuthorize), at("payment.do"));
    assert_eq!(url(Flow::Void), at("voidTransaction.do"));
    assert_eq!(url(Flow::PSync), at("getPaymentStatus.do"));
    assert_eq!(url(Flow::Capture), at("settleTransaction.do"));
    assert_eq!(url(Flow::AuthorizeSessionToken), at("getSessionToken.do"));
    assert_eq!(url(Flow::InitPayment), at("initPayment.do"));
    assert_eq!(url(Flow::Execute), at("refundTransaction.do"));
    for flow in
        [Flow::Session, Flow::SetupMandate, Flow::PaymentMethodToken, Flow::AccessTokenAuth, Flow::RSync]
    {
        assert_eq!(url(flow), None);
    }
}

#[test]
fn requests_are_posted_with_their_body() {
    assert_eq!(
        Nuvei.build_request(Flow::Capture, &connectors(), "{\"amount\":\"1\"}".to_string()),
        Ok(Some(Request {
            method: Method::Post,
            url: "https://ppp-test.nuvei.com/ppp/api/v1/settleTransaction.do".to_string(),
            headers: content_type(),
            body: Some("{\"amount\":\"1\"}".to_string()),
        }))
    );
}

#[test]
fn flows_without_call_need_no_request_and_mandate_setup_is_not_implemented() {
    for flow in [Flow::Session, Flow::PaymentMethodToken, Flow::AccessTokenAuth, Flow::RSync] {
        assert_eq!(Nuvei.build_request(flow, &connectors(), String::new()), Ok(None));
    }
    assert_eq!(
        Nuvei.build_request(Flow::SetupMandate, &connectors(), String::new()),
        Err(ConnectorError::NotImplemented { flow: Capability::SetupMandate })
    );
}

fn event() -> ConnectorEvent {
    ConnectorEvent { flow: Flow::Authorize, response_body: None, status_code: None }
}

fn answer(
    status: Option<NuveiTransactionStatus>,
    kind: Option<NuveiTransactionType>,
) -> NuveiPaymentsResponse {
    NuveiPaymentsResponse {
        transaction_status: status,
        transaction_type: kind,
        transaction_id: Some("t1".to_string()),
        session_token: None,
    }
}

#[test]
fn the_raw_response_is_recorded_whether_it_could_be_read_or_not() {
    let before = router_data(AuthenticationType::NoThreeDs, PaymentMethod::Card);
    let mut recorded = event();
    let after = Nuvei
        .handle_response(
            &before,
            &mut recorded,
            "{\"ok\":1}".to_string(),
            200,
            Some(answer(Some(NuveiTransactionStatus::Approved), Some(NuveiTransactionType::Sale))),
        )
        .unwrap();
    assert_eq!(
        recorded,
        ConnectorEvent {
            flow: Flow::Authorize,
            response_body: Some("{\"ok\":1}".to_string()),
            status_code: Some(200)
        }
    );
    let mut expected = router_data(AuthenticationType::NoThreeDs, PaymentMethod::Card);
    expected.status = AttemptStatus::Charged;
    expected.response = Ok(PaymentsResponseData::TransactionResponse {
        resource_id: "t1".to_string(),
        network_txn_id: None,
        mandate_reference: None,
    });
    assert_eq!(after, expected);
    let mut recorded = event();
    assert_eq!(
        Nuvei.handle_response(&before, &mut recorded, "<html>".to_string(), 200, None),
        Err(ConnectorError::ResponseHandlingFailed)
    );
    assert_eq!(recorded.response_body, Some("<html>".to_string()));
    assert_eq!(recorded.status_code, Some(200));
}

#[test]
fn the_status_of_the_attempt_follows_the_answer() {
    let before = router_data(AuthenticationType::NoThreeDs, PaymentMethod::Card);
    let status = |status, kind| {
        Nuvei
            .handle_response(&before, &mut event(), String::new(), 200, Some(answer(status, kind)))
            .unwrap()
            .status
    };
    let approved = Some(NuveiTransactionStatus::Approved);
    let declined = Some(NuveiTransactionStatus::Declined);
    let error = Some(NuveiTransactionStatus::Error);
    assert_eq!(status(approved, Some(NuveiTransactionType::Auth)), AttemptStatus::Authorized);
    assert_eq!(status(approved, Some(NuveiTransactionType::Sale)), AttemptStatus::Charged);
    assert_eq!(status(approved, Some(NuveiTransactionType::Settle)), AttemptStatus::Charged);
    assert_eq!(status(approved, Some(NuveiTransactionType::Void)), AttemptStatus::Voided);
    assert_eq!(status(approved, Some(NuveiTransactionType::Credit)), AttemptStatus::Pending);
    assert_eq!(status(approved, None), AttemptStatus::Pending);
    assert_eq!(status(declined, Some(NuveiTransactionType::Auth)), AttemptStatus::AuthorizationFailed);
    assert_eq!(status(declined, Some(NuveiTransactionType::Void)), AttemptStatus::VoidFailed);
    assert_eq!(status(error, Some(NuveiTransactionType::Auth3D)), AttemptStatus::AuthenticationFailed);
    assert_eq!(status(error, Some(NuveiTransactionType::Sale)), AttemptStatus::Failure);
    assert_eq!(status(declined, None), AttemptStatus::Failure);
    assert_eq!(status(Some(NuveiTransactionStatus::Pending), None), AttemptStatus::Pending);
    assert_eq!(
        status(Some(NuveiTransactionStatus::Redirect), None),
        AttemptStatus::AuthenticationPending
    );
    assert_eq!(status(None, Some(NuveiTransactionType::Sale)), AttemptStatus::Started);
}

#[test]
fn a_refusal_is_a_structured_error_and_a_session_token_is_handed_on() {
    let before = router_data(AuthenticationType::NoThreeDs, PaymentMethod::Card);
    let refused = Nuvei
        .handle_response(
            &before,
            &mut event(),
            String::new(),
            402,
            Some(answer(Some(NuveiTransactionStatus::Declined), Some(NuveiTransactionType::Sale))),
        )
        .unwrap();
    assert_eq!(
        refused.response,
        Err(ErrorResponse {
            code: "No error code".to_string(),
            message: "No error message".to_string(),
            reason: Some("t1".to_string()),
            status_code: 402,
        })
    );
    assert_eq!(refused.session_token, None);
    let session = Nuvei
        .handle_response(
            &before,
            &mut event(),
            String::new(),
            200,
            Some(NuveiPaymentsResponse {
                transaction_status: None,
                transaction_type: None,
                transaction_id: None,
                session_token: Some("sess_1".to_string()),
            }),
        )
        .unwrap();
    assert_eq!(
        session.response,
        Ok(PaymentsResponseData::SessionTokenResponse { session_token: "sess_1".to_string() })
    );
    assert_eq!(session.session_token, Some("sess_1".to_string()));
    assert_eq!(session.status, AttemptStatus::Started);
    let bare = Nuvei
        .handle_response(
            &before,
            &mut event(),
            String::new(),
            200,
            Some(NuveiPaymentsResponse {
                transaction_status: None,
                transaction_type: None,
                transaction_id: None,
                session_token: None,
            }),
        )
        .unwrap();
    assert_eq!(
        bare.response,
        Ok(PaymentsResponseData::TransactionResponse {
            resource_id: String::new(),
            network_txn_id: None,
            mandate_reference: None,
        })
    );
}

#[test]
fn an_error_response_keeps_the_body_as_its_reason() {
    let mut recorded = event();
    assert_eq!(
        Nuvei.get_error_response(&mut recorded, "bad gateway".to_string(), 502),
        ErrorResponse {
            code: "No error code".to_string(),
            message: "No error message".to_string(),
            reason: Some("bad gateway".to_string()),
            status_code: 502,
        }
    );
    assert_eq!(recorded.response_body, Some("bad gateway".to_string()));
    assert_eq!(recorded.status_code, Some(502));
}

fn router_data(auth_type: AuthenticationType, payment_method: PaymentMethod) -> RouterData {
    RouterData {
        request: PaymentsAuthorizeData {
            setup_future_usage: None,
            setup_mandate_details: None,
            customer_acceptance: None,
            card: None,
            enrolled_for_3ds: true,
            related_transaction_id: Some("stale".to_string()),
            session_token: None,
        },
        response: Err(ErrorResponse {
            code: String::new(),
            message: String::new(),
            reason: None,
            status_code: 0,
        }),
        payment_method_token: None,
        payment_method,
        status: AttemptStatus::Started,
        session_token: None,
        auth_type,
    }
}

#[test]
fn pretasks_of_a_card_with_three_ds_come_one_after_the_other() {
    let mut data = router_data(AuthenticationType::ThreeDs, PaymentMethod::Card);
    assert_eq!(
        Nuvei.execute_pretasks(&mut data, PretaskState::Start, PretaskEvent::Begin),
        (PretaskState::AwaitingSessionToken, PretaskStep::RequestSessionToken)
    );
    assert_eq!(data, router_data(AuthenticationType::ThreeDs, PaymentMethod::Card));
    assert_eq!(
        Nuvei.execute_pretasks(
            &mut data,
            PretaskState::AwaitingSessionToken,
            PretaskEvent::SessionToken { session_token: Some("sess_1".to_string()) }
        ),
        (PretaskState::AwaitingEnrollment, PretaskStep::InitPayment)
    );
    assert_eq!(data.session_token, Some("sess_1".to_string()));
    assert_eq!(
        Nuvei.execute_pretasks(
            &mut data,
            PretaskState::AwaitingEnrollment,
            PretaskEvent::Enrollment(Ok(PaymentsResponseData::ThreeDSEnrollmentResponse {
                enrolled_v2: true,
                related_transaction_id: Some("rel_1".to_string()),
            }))
        ),
        (PretaskState::Finished, PretaskStep::Finish(Ok(())))
    );
    assert!(data.request.enrolled_for_3ds);
    assert_eq!(data.request.related_transaction_id, Some("rel_1".to_string()));
    assert_eq!(data.session_token, Some("sess_1".to_string()));
}

#[test]
fn an_enrollment_answer_of_another_kind_means_not_enrolled() {
    let mut data = router_data(AuthenticationType::ThreeDs, PaymentMethod::Card);
    assert_eq!(
        Nuvei.execute_pretasks(
            &mut data,
            PretaskState::AwaitingEnrollment,
            PretaskEvent::Enrollment(Ok(PaymentsResponseData::SessionTokenResponse {
                session_token: "s".to_string()
            }))
        ),
        (PretaskState::Finished, PretaskStep::Finish(Ok(())))
    );
    assert!(!data.request.enrolled_for_3ds);
    assert_eq!(data.request.related_transaction_id, None);
}

#[test]
fn without_three_ds_or_card_no_enrollment_is_checked() {
    for (auth, method) in [
        (AuthenticationType::NoThreeDs, PaymentMethod::Card),
        (AuthenticationType::ThreeDs, PaymentMethod::Wallet),
    ] {
        let mut data = router_data(auth, method);
        assert_eq!(
            Nuvei.execute_pretasks(
                &mut data,
                PretaskState::AwaitingSessionToken,
                PretaskEvent::SessionToken { session_token: Some("sess_1".to_string()) }
            ),
            (PretaskState::Finished, PretaskStep::Finish(Ok(())))
        );
        assert_eq!(data.session_token, Some("sess_1".to_string()));
        assert!(!data.request.enrolled_for_3ds);
        assert_eq!(data.request.related_transaction_id, None);
    }
}

#[test]
fn a_failing_pretask_aborts_and_changes_nothing() {
    for state in [PretaskState::AwaitingSessionToken, PretaskState::AwaitingEnrollment] {
        let mut data = router_data(AuthenticationType::ThreeDs, PaymentMethod::Card);
        assert_eq!(
            Nuvei.execute_pretasks(
                &mut data,
                state,
                PretaskEvent::CallFailed(ConnectorError::ResponseHandlingFailed)
            ),
            (
                PretaskState::Finished,
                PretaskStep::Finish(Err(ConnectorError::ResponseHandlingFailed))
            )
        );
        assert_eq!(data, router_data(AuthenticationType::ThreeDs, PaymentMethod::Card));
    }
    let mut data = router_data(AuthenticationType::ThreeDs, PaymentMethod::Card);
    assert_eq!(
        Nuvei.execute_pretasks(&mut data, PretaskState::Finished, PretaskEvent::Begin),
        (PretaskState::Finished, PretaskStep::Finish(Err(ConnectorError::ResponseHandlingFailed)))
    );
}

const TIME: &str = "2024-05-01.10:20:30";

fn query(amount: &str, currency: &str, time: &str, id: &str, status: &str, product: &str) -> String {
    format!(
        "totalAmount={}&currency={}&responseTimeStamp={}&ppp_TransactionID={}&Status={}&productId={}&TransactionID=88",
        amount,
        currency,
        time.replace(':', "%3A"),
        id,
        status,
        product
    )
}

fn webhook(query_params: String, signature: &str) -> IncomingWebhookRequestDetails {
    IncomingWebhookRequestDetails {
        headers: vec![
            ("content-type".to_string(), "text/plain".to_string()),
            ("advanceresponsechecksum".to_string(), signature.to_string()),
        ],
        body: vec![],
        query_params,
    }
}

fn secrets(secret: &str) -> ConnectorWebhookSecrets {
    ConnectorWebhookSecrets { secret: secret.as_bytes().to_vec(), additional_secret: None }
}

fn sign(text: &str) -> String {
    hex::encode(sha2::Sha256::digest(text.as_bytes()))
}

#[test]
fn the_signed_message_has_the_documented_order() {
    let request = webhook(query("100", "USD", TIME, "abc", "APPROVED", "1"), "");
    assert_eq!(
        Nuvei.get_webhook_source_verification_message(&request, "m1", &secrets("s")),
        Ok(format!("s100USD{}abcAPPROVED1", TIME).into_bytes())
    );
}

#[test]
fn the_status_is_signed_in_its_normal_form() {
    let request = webhook(query("100", "USD", TIME, "abc", "whatever", "1"), "");
    assert_eq!(
        Nuvei.get_webhook_source_verification_message(&request, "m1", &secrets("s")),
        Ok(format!("s100USD{}abcUNKNOWN1", TIME).into_bytes())
    );
}

#[test]
fn a_webhook_with_the_right_signature_is_verified() {
    let signature = sign(&format!("s100USD{}abcAPPROVED1", TIME));
    let request = webhook(query("100", "USD", TIME, "abc", "APPROVED", "1"), &signature);
    assert_eq!(Nuvei.verify_webhook_source(&request, "m1", &secrets("s")), Ok(true));
    let upper = webhook(
        query("100", "USD", TIME, "abc", "APPROVED", "1"),
        &signature.to_uppercase(),
    );
    assert_eq!(Nuvei.verify_webhook_source(&upper, "m1", &secrets("s")), Ok(true));
}

#[test]
fn altering_any_one_field_fails_verification() {
    let signature = sign(&format!("s100USD{}abcAPPROVED1", TIME));
    let altered = [
        query("101", "USD", TIME, "abc", "APPROVED", "1"),
        query("100", "EUR", TIME, "abc", "APPROVED", "1"),
        query("100", "USD", "2024-05-01.10:20:31", "abc", "APPROVED", "1"),
        query("100", "USD", TIME, "abd", "APPROVED", "1"),
        query("100", "USD", TIME, "abc", "DECLINED", "1"),
        query("100", "USD", TIME, "abc", "APPROVED", "2"),
    ];
    for query_params in altered {
        let request = webhook(query_params, &signature);
        assert_eq!(Nuvei.verify_webhook_source(&request, "m1", &secrets("s")), Ok(false));
    }
    let request = webhook(query("100", "USD", TIME, "abc", "APPROVED", "1"), &signature);
    assert_eq!(Nuvei.verify_webhook_source(&request, "m1", &secrets("t")), Ok(false));
}

#[test]
fn a_signature_that_is_missing_or_malformed_is_an_error() {
    let mut request = webhook(query("100", "USD", TIME, "abc", "APPROVED", "1"), "00");
    request.headers.pop();
    assert_eq!(
        Nuvei.get_webhook_source_verification_signature(&request),
        Err(ConnectorError::WebhookSourceVerificationFailed)
    );
    assert_eq!(
        Nuvei.verify_webhook_source(&request, "m1", &secrets("s")),
        Err(ConnectorError::WebhookSourceVerificationFailed)
    );
    for bad in ["abc", "zz", "0g"] {
        let request = webhook(query("100", "USD", TIME, "abc", "APPROVED", "1"), bad);
        assert_eq!(
            Nuvei.get_webhook_source_verification_signature(&request),
            Err(ConnectorError::WebhookResponseEncodingFailed)
        );
    }
}

#[test]
fn signatures_are_read_as_hexadecimal_of_either_case() {
    let request = webhook(String::new(), "00ff1aB2");
    assert_eq!(
        Nuvei.get_webhook_source_verification_signature(&request),
        Ok(vec![0x00, 0xff, 0x1a, 0xb2])
    );
    let empty = webhook(String::new(), "");
    assert_eq!(Nuvei.get_webhook_source_verification_signature(&empty), Ok(vec![]));
}

#[test]
fn signature_and_digest() {
    let digest = sha2::Sha256::digest(b"abc").to_vec();
    assert!(Nuvei.verify_signature(&digest, b"abc"));
    assert!(!Nuvei.verify_signature(&digest, b"abd"));
    assert!(!Nuvei.verify_signature(b"abc", b"abc"));
    assert_eq!(
        hex::encode(&digest),
        "ba7816bf8f01cfea414140de5dae2223b00361a396177a9cb410ff61f20015ad"
    );
    assert_eq!(
        Nuvei.get_webhook_source_verification_algorithm(&webhook(String::new(), "")),
        SignatureAlgorithm::Sha256
    );
}

#[test]
fn fields_that_are_missing_or_repeated_fail_the_decoding() {
    let failed = Err(ConnectorError::WebhookBodyDecodingFailed);
    let missing = "totalAmount=100&currency=USD&ppp_TransactionID=abc&Status=APPROVED&productId=1";
    assert_eq!(
        Nuvei.get_webhook_source_verification_message(
            &webhook(missing.to_string(), ""),
            "m1",
            &secrets("s")
        ),
        failed
    );
    let repeated = format!("{}&totalAmount=1", query("100", "USD", TIME, "abc", "APPROVED", "1"));
    assert_eq!(
        Nuvei.get_webhook_source_verification_message(&webhook(repeated, ""), "m1", &secrets("s")),
        failed
    );
    let repeated_optional =
        format!("{}&TransactionID=1", query("100", "USD", TIME, "abc", "APPROVED", "1"));
    assert_eq!(
        Nuvei.get_webhook_source_verification_message(
            &webhook(repeated_optional, ""),
            "m1",
            &secrets("s")
        ),
        failed
    );
    let not_text = ConnectorWebhookSecrets { secret: vec![0xff, 0xfe], additional_secret: None };
    assert_eq!(
        Nuvei.get_webhook_source_verification_message(
            &webhook(query("100", "USD", TIME, "abc", "APPROVED", "1"), ""),
            "m1",
            &not_text
        ),
        failed
    );
}

#[test]
fn webhook_details_are_read_from_pairs() {
    let pairs: Vec<(String, String)> = [
        ("ppp_TransactionID", "abc"),
        ("productId", "1"),
        ("totalAmount", "100"),
        ("currency", "USD"),
        ("responseTimeStamp", "T"),
        ("Status", "DECLINED"),
        ("ppp_status", "FAIL"),
        ("ignored", "x"),
    ]
    .iter()
    .map(|(n, v)| (n.to_string(), v.to_string()))
    .collect();
    assert_eq!(
        webhook_details(&pairs),
        Ok(NuveiWebhookDetails {
            ppp_transaction_id: "abc".to_string(),
            product_id: "1".to_string(),
            total_amount: "100".to_string(),
            currency: "USD".to_string(),
            response_time_stamp: "T".to_string(),
            status: NuveiWebhookStatus::Declined,
            transaction_id: None,
            ppp_status: Some("FAIL".to_string()),
        })
    );
    assert_eq!(signed_message_of(&pairs, b"secret"), Ok(b"secret100USDTabcDECLINED1".to_vec()));
    assert_eq!(signed_message_of(&pairs, b""), Ok(b"100USDTabcDECLINED1".to_vec()));
    assert_eq!(find_field(&pairs, "currency"), Occurrence::Once(&"USD".to_string()));
    assert_eq!(find_field(&pairs, "Currency"), Occurrence::Never);
    assert_eq!(webhook_details(&vec![]), Err(ConnectorError::WebhookBodyDecodingFailed));
}

#[test]
fn statuses_are_parsed_exactly() {
    assert_eq!(parse_status("APPROVED"), NuveiWebhookStatus::Approved);
    assert_eq!(parse_status("DECLINED"), NuveiWebhookStatus::Declined);
    assert_eq!(parse_status("PENDING"), NuveiWebhookStatus::Pending);
    assert_eq!(parse_status("UPDATE"), NuveiWebhookStatus::Update);
    assert_eq!(parse_status("approved"), NuveiWebhookStatus::Unknown);
    assert_eq!(parse_status(""), NuveiWebhookStatus::Unknown);
}

#[test]
fn headers_are_found_whatever_their_case() {
    let headers = vec![
        ("X-First".to_string(), "1".to_string()),
        ("AdvanceResponseChecksum".to_string(), "aa".to_string()),
        ("advanceresponsechecksum".to_string(), "bb".to_string()),
    ];
    assert_eq!(get_header_key_value("advanceResponseChecksum", &headers), Some(&"aa".to_string()));
    assert_eq!(get_header_key_value("x-first", &headers), Some(&"1".to_string()));
    assert_eq!(get_header_key_value("x-firs", &headers), None);
    assert_eq!(get_header_key_value("x-first", &vec![]), None);
}

#[test]
fn the_object_of_a_webhook_is_its_transaction() {
    let request = webhook(query("100", "USD", TIME, "abc", "APPROVED", "1"), "");
    assert_eq!(
        Nuvei.get_webhook_object_reference_id(&request),
        Ok(ObjectReferenceId::PaymentId(PaymentIdType::ConnectorTransactionId("abc".to_string())))
    );
    assert_eq!(
        Nuvei.get_webhook_object_reference_id(&webhook("Status=APPROVED".to_string(), "")),
        Err(ConnectorError::WebhookBodyDecodingFailed)
    );
}

#[test]
fn webhook_events_follow_the_status() {
    let event = |status: &str| {
        Nuvei.get_webhook_event_type(&webhook(format!("Status={}&x=y", status), ""))
    };
    assert_eq!(event("APPROVED"), Ok(IncomingWebhookEvent::PaymentIntentSuccess));
    assert_eq!(event("DECLINED"), Ok(IncomingWebhookEvent::PaymentIntentFailure));
    assert_eq!(event("PENDING"), Ok(IncomingWebhookEvent::EventNotSupported));
    assert_eq!(event("UPDATE"), Ok(IncomingWebhookEvent::EventNotSupported));
    assert_eq!(event("else"), Ok(IncomingWebhookEvent::EventNotSupported));
    assert_eq!(
        Nuvei.get_webhook_event_type(&webhook("x=y".to_string(), "")),
        Err(ConnectorError::WebhookBodyDecodingFailed)
    );
}

#[test]
fn the_resource_of_a_webhook_is_a_payment_response() {
    let request = webhook(query("100", "USD", TIME, "abc", "APPROVED", "1"), "");
    assert_eq!(
        Nuvei.get_webhook_resource_object(&request),
        Ok(NuveiPaymentsResponse {
            transaction_status: Some(NuveiTransactionStatus::Approved),
            transaction_type: None,
            transaction_id: Some("88".to_string()),
            session_token: None,
        })
    );
    let pending = webhook(query("100", "USD", TIME, "abc", "PENDING", "1"), "");
    assert_eq!(
        Nuvei.get_webhook_resource_object(&pending).unwrap().transaction_status,
        None
    );
    assert_eq!(
        Nuvei.get_webhook_resource_object(&webhook(String::new(), "")),
        Err(ConnectorError::WebhookBodyDecodingFailed)
    );
}

fn failed_authentication() -> CallConnectorAction {
    CallConnectorAction::StatusUpdate {
        status: AttemptStatus::AuthenticationFailed,
        error_code: None,
        error_message: None,
    }
}

fn acs(trans_status: &str) -> String {
    format!(
        "{{\"threeDSServerTransID\":\"a\",\"acsTransID\":\"b\",\"messageType\":\"CRes\",\"messageVersion\":\"2.1.0\"{}}}",
        trans_status
    )
}

fn payload(challenge_response: &str) -> String {
    format!(
        "{{\"cres\":\"{}\"}}",
        base64::engine::general_purpose::STANDARD.encode(challenge_response)
    )
}

#[test]
fn sync_and_authentication_ask_the_connector() {
    assert_eq!(
        Nuvei.get_flow_type("", Some("not even json"), PaymentAction::PSync),
        Ok(CallConnectorAction::Trigger)
    );
    assert_eq!(
        Nuvei.get_flow_type("", None, PaymentAction::PaymentAuthenticateCompleteAuthorize),
        Ok(CallConnectorAction::Trigger)
    );
    assert_eq!(
        Nuvei.get_flow_type("", None, PaymentAction::CompleteAuthorize),
        Ok(CallConnectorAction::Trigger)
    );
}

#[test]
fn a_failed_challenge_ends_the_attempt_without_a_call() {
    for status in [",\"transStatus\":\"N\"", ",\"transStatus\":\"0\"", "", ",\"transStatus\":null"] {
        assert_eq!(
            Nuvei.get_flow_type("", Some(&payload(&acs(status))), PaymentAction::CompleteAuthorize),
            Ok(failed_authentication())
        );
    }
}

#[test]
fn a_successful_challenge_asks_the_connector() {
    for status in [",\"transStatus\":\"Y\"", ",\"transStatus\":\"1\""] {
        assert_eq!(
            Nuvei.get_flow_type("", Some(&payload(&acs(status))), PaymentAction::CompleteAuthorize),
            Ok(CallConnectorAction::Trigger)
        );
    }
}

#[test]
fn a_payload_that_cannot_be_read_fails_the_handling() {
    let failed = Err(ConnectorError::ResponseHandlingFailed);
    let flow = |p: &str| Nuvei.get_flow_type("", Some(p), PaymentAction::CompleteAuthorize);
    assert_eq!(flow("not json"), failed);
    assert_eq!(flow("[1,2]"), failed);
    assert_eq!(flow("{\"other\":\"x\"}"), failed);
    assert_eq!(flow("{\"cres\":5}"), failed);
    assert_eq!(flow("{\"cres\":\"***\"}"), failed);
    assert_eq!(flow(&payload("not json")), failed);
    assert_eq!(flow(&payload(&acs(",\"transStatus\":\"U\""))), failed);
    assert_eq!(flow(&payload(&acs(",\"transStatus\":7"))), failed);
    assert_eq!(flow(&payload("{\"transStatus\":\"Y\"}")), failed);
}

#[test]
fn the_challenge_outcome_is_decided_from_the_members() {
    let text = |name: &str, value: &str| (name.to_string(), JsonMember::Text(value.to_string()));
    let mut members = vec![
        text("threeDSServerTransID", "a"),
        text("acsTransID", "b"),
        text("messageType", "CRes"),
        text("messageVersion", "2.1.0"),
    ];
    assert_eq!(flow_after_challenge(&members), Ok(failed_authentication()));
    members.push(text("transStatus", "Y"));
    assert_eq!(flow_after_challenge(&members), Ok(CallConnectorAction::Trigger));
    members[4] = text("transStatus", "N");
    assert_eq!(flow_after_challenge(&members), Ok(failed_authentication()));
    members[4] = ("transStatus".to_string(), JsonMember::Null);
    assert_eq!(flow_after_challenge(&members), Ok(failed_authentication()));
    members[4] = ("transStatus".to_string(), JsonMember::Other);
    assert_eq!(flow_after_challenge(&members), Err(ConnectorError::ResponseHandlingFailed));
    members[4] = text("transStatus", "Y");
    members[1] = ("acsTransID".to_string(), JsonMember::Other);
    assert_eq!(flow_after_challenge(&members), Err(ConnectorError::ResponseHandlingFailed));
    assert_eq!(flow_after_challenge(&vec![]), Err(ConnectorError::ResponseHandlingFailed));
}
