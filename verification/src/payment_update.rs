//! The update operation of the payment pipeline: validate the request, load
//! and merge the trackers, and lay out what is persisted. Each stage is a
//! function of what it is given; whatever is written to storage is written
//! by the caller, from what the stage returns, so a stage that rejects has
//! changed nothing.
//!
//! Merging the trackers checks, in this order: that the payment is there,
//! that a customer who asks is the customer of the payment, the card of the
//! request, the status of the payment, the client secret, and then what the
//! request says against the stored attempt. The order lines of a request
//! are not held against the amount by an update, and the data behind a
//! payment token is fetched by the caller once the trackers are merged.

use vstd::prelude::*;
use vstd::string::{StrSliceExecFns, StringExecFns};

use crate::enums::{
    AttemptStatus, CaptureMethod, FutureUsage, IntentStatus, MerchantStorageScheme, NextOperation,
    PaymentMethodType, RetryAction, Verb,
};
use crate::errors::{
    ApiErrorResponse, ExpectedFormat, Field, MandateFailure, Subject, Unsupported,
};
use crate::payment_methods::CustomerAcceptance;
use crate::payments::{
    first_of, AddressAction, AuthFlow, ConfigInsert, GetTrackerResponse, Mandate, MandateIds,
    MandateReferenceId, MandateTransactionType, MerchantAccount, MerchantConnectorDetailsWrap,
    PaymentAttempt, PaymentAttemptUpdate, PaymentData, PaymentIntent, PaymentIntentUpdate,
    PaymentsRequest, RecurringDetails, RequestCard, RequestSurchargeDetails,
    StoredConnectorMandate, SurchargeDetails, ValidateResult, YearMonth,
};
use crate::text::same_text;

verus! {

/// The update operation.
#[derive(Clone, Copy, Debug, PartialEq, Eq, Structural)]
pub struct PaymentUpdate;

/// The longest identifier that is accepted, in characters.
pub const MAX_ID_LENGTH: usize = 64;

/// The shortest session expiry that is accepted, in seconds: one minute.
pub const MIN_SESSION_EXPIRY: u32 = 60;

/// The longest session expiry that is accepted, in seconds: three months.
pub const MAX_SESSION_EXPIRY: u32 = 7890000;

pub open spec fn invalid(field_name: Field, expected_format: ExpectedFormat) -> ApiErrorResponse {
    ApiErrorResponse::InvalidDataFormat { field_name, expected_format }
}

fn invalid_format(field_name: Field, expected_format: ExpectedFormat) -> (e: ApiErrorResponse)
    ensures
        e == invalid(field_name, expected_format),
{
    ApiErrorResponse::InvalidDataFormat { field_name, expected_format }
}

/// The statuses in which a payment can no longer be updated.
pub open spec fn update_is_closed(status: IntentStatus) -> bool {
    status.is_terminal() || status == IntentStatus::RequiresCapture
}

/// What is asked to be captured is covered by the amount and its surcharge.
/// Without an amount or without an amount to capture there is nothing to
/// check.
pub open spec fn capture_is_covered(
    amount: Option<i64>,
    amount_to_capture: Option<i64>,
    surcharge: Option<RequestSurchargeDetails>,
) -> bool {
    match (amount, amount_to_capture) {
        (Some(total), Some(capture)) => capture <= total + match surcharge {
            Some(details) => details.total(),
            None => 0,
        },
        _ => true,
    }
}

fn check_capture_is_covered(
    amount: Option<i64>,
    amount_to_capture: Option<i64>,
    surcharge: Option<RequestSurchargeDetails>,
) -> (r: bool)
    ensures
        r == capture_is_covered(amount, amount_to_capture, surcharge),
{
    match (amount, amount_to_capture) {
        (Some(total), Some(capture)) => {
            let extra: i128 = match surcharge {
                Some(details) => details.surcharge_amount as i128 + match details.tax_amount {
                    Some(tax) => tax as i128,
                    None => 0,
                },
                None => 0,
            };
            capture as i128 <= total as i128 + extra
        },
        _ => true,
    }
}

/// The amount, or zero where there is none.
pub open spec fn or_zero(amount: Option<i64>) -> int {
    match amount {
        Some(value) => value as int,
        None => 0,
    }
}

fn wide_or_zero(amount: Option<i64>) -> (r: i128)
    ensures
        r == or_zero(amount),
{
    match amount {
        Some(value) => value as i128,
        None => 0,
    }
}

/// The surcharge that an attempt carries, in the shape of a request's.
pub open spec fn surcharge_of(attempt: PaymentAttempt) -> Option<RequestSurchargeDetails> {
    match attempt.surcharge_amount {
        Some(surcharge_amount) => Some(
            RequestSurchargeDetails { surcharge_amount, tax_amount: attempt.tax_amount },
        ),
        None => None,
    }
}

/// With automatic capture, which is the default, an amount to capture has to
/// be the whole amount with its surcharge. The request's values come first,
/// the attempt's stand in for what it leaves out.
pub open spec fn automatic_capture_takes_all(request: PaymentsRequest, attempt: PaymentAttempt)
    -> bool {
    let capture_method = match first_of(request.capture_method, attempt.capture_method) {
        Some(method) => method,
        None => CaptureMethod::Automatic,
    };
    let amount = match request.amount {
        Some(amount) => amount,
        None => attempt.amount,
    };
    let surcharge = match request.surcharge_details {
        Some(details) => details.total(),
        None => or_zero(attempt.surcharge_amount) + or_zero(attempt.tax_amount),
    };
    capture_method == CaptureMethod::Automatic ==> match request.amount_to_capture {
        Some(capture) => capture == amount + surcharge,
        None => true,
    }
}

fn check_automatic_capture_takes_all(request: &PaymentsRequest, attempt: &PaymentAttempt) -> (r:
    bool)
    ensures
        r == automatic_capture_takes_all(*request, *attempt),
{
    let capture_method = match request.capture_method {
        Some(method) => method,
        None => match attempt.capture_method {
            Some(method) => method,
            None => CaptureMethod::Automatic,
        },
    };
    let amount: i128 = match request.amount {
        Some(amount) => amount as i128,
        None => attempt.amount as i128,
    };
    let surcharge: i128 = match request.surcharge_details {
        Some(details) => details.surcharge_amount as i128 + match details.tax_amount {
            Some(tax) => tax as i128,
            None => 0,
        },
        None => wide_or_zero(attempt.surcharge_amount) + wide_or_zero(attempt.tax_amount),
    };
    match capture_method {
        CaptureMethod::Automatic => match request.amount_to_capture {
            Some(capture) => capture as i128 == amount + surcharge,
            None => true,
        },
        _ => true,
    }
}

/// Whether a request sets up a mandate or pays with one, as its mandate
/// data and recurring details say; to give both is an error.
pub open spec fn requested_mandate_type(request: PaymentsRequest) -> Result<
    Option<MandateTransactionType>,
    ApiErrorResponse,
> {
    match (request.mandate_data, request.recurring_details) {
        (None, None) => Ok(None),
        (Some(_), Some(_)) => Err(
            ApiErrorResponse::MandateValidationFailed {
                reason: MandateFailure::BothRecurringDetailsAndMandateData,
            },
        ),
        (None, Some(_)) => Ok(Some(MandateTransactionType::RecurringMandateTransaction)),
        (Some(_), None) => Ok(Some(MandateTransactionType::NewMandateTransaction)),
    }
}

/// The customer acceptance of a request: its own, else that of its mandate
/// data.
pub open spec fn acceptance_of(request: PaymentsRequest) -> Option<CustomerAcceptance> {
    match request.customer_acceptance {
        Some(acceptance) => Some(acceptance),
        None => match request.mandate_data {
            Some(mandate) => mandate.customer_acceptance,
            None => None,
        },
    }
}

/// The first thing that is wrong with a request to update a payment on
/// behalf of `merchant`, if anything is.
pub open spec fn request_fault(request: PaymentsRequest, merchant: MerchantAccount) -> Option<
    ApiErrorResponse,
> {
    if request.customer_id matches Some(outer) && request.customer_details_id matches Some(inner)
        && outer@ != inner@ {
        Some(invalid(Field::CustomerId, ExpectedFormat::SameCustomerIdInBothPlaces))
    } else if request.session_expiry matches Some(expiry) && !(MIN_SESSION_EXPIRY <= expiry
        <= MAX_SESSION_EXPIRY) {
        Some(invalid(Field::SessionExpiry, ExpectedFormat::SessionExpiryInRange))
    } else if request.payment_id is None {
        Some(ApiErrorResponse::NotFound { subject: Subject::Payment })
    } else if request.merchant_id matches Some(id) && id@ != merchant.merchant_id@ {
        Some(invalid(Field::MerchantId, ExpectedFormat::MerchantIdOfMerchantAccount))
    } else if !capture_is_covered(
        request.amount,
        request.amount_to_capture,
        request.surcharge_details,
    ) {
        Some(invalid(Field::AmountToCapture, ExpectedFormat::AmountToCaptureAtMostAmount))
    } else if request.payment_method is None && request.has_payment_method_data {
        Some(invalid(Field::PaymentMethod, ExpectedFormat::Present))
    } else if request.payment_method is Some && !request.has_payment_method_data
        && request.payment_token is None && request.recurring_details is None {
        Some(invalid(Field::PaymentMethodData, ExpectedFormat::Present))
    } else if requested_mandate_type(request) is Err {
        Some(requested_mandate_type(request)->Err_0)
    } else if requested_mandate_type(request) matches Ok(Some(_)) && request.customer_id is None {
        Some(invalid(Field::CustomerId, ExpectedFormat::Present))
    } else if requested_mandate_type(request) matches Ok(
        Some(MandateTransactionType::NewMandateTransaction),
    ) && acceptance_of(request) is None {
        Some(
            ApiErrorResponse::MandateValidationFailed {
                reason: MandateFailure::MissingCustomerAcceptance,
            },
        )
    } else if request.recurring_details is Some && (request.payment_token is Some
        || request.mandate_id is Some) {
        Some(invalid(Field::RecurringDetails, ExpectedFormat::AtMostOneOfAlternatives))
    } else if request.payment_id matches Some(id) && id@.len() > MAX_ID_LENGTH {
        Some(invalid(Field::PaymentId, ExpectedFormat::Identifier))
    } else {
        None
    }
}

/// What validating a request comes to: the first fault, or what the next
/// stage needs.
pub open spec fn validated(request: PaymentsRequest, merchant: MerchantAccount) -> Result<
    ValidateResult,
    ApiErrorResponse,
> {
    match request_fault(request, merchant) {
        Some(e) => Err(e),
        None => Ok(
            ValidateResult {
                merchant_id: merchant.merchant_id,
                payment_id: request.payment_id->Some_0,
                storage_scheme: merchant.storage_scheme,
                requeue: request.retry_action == Some(RetryAction::Requeue),
            },
        ),
    }
}

/// Which mandate a payment is about, decided from what the request and the
/// intent say. A payment for off-session use with the customer's acceptance
/// sets up a new mandate; a payment token otherwise makes it a recurring
/// payment. Mandate data together with off-session, acceptance and a token
/// is contradictory.
pub open spec fn mandate_type_of(
    has_mandate_data: bool,
    has_off_session: bool,
    setup_future_usage: Option<FutureUsage>,
    has_acceptance: bool,
    has_token: bool,
) -> Result<Option<MandateTransactionType>, ApiErrorResponse> {
    let off_session = setup_future_usage == Some(FutureUsage::OffSession);
    if has_mandate_data && has_off_session && off_session && has_acceptance && has_token {
        Err(
            ApiErrorResponse::MandateValidationFailed {
                reason: MandateFailure::BothRecurringDetailsAndMandateData,
            },
        )
    } else if off_session && (has_acceptance || has_mandate_data) {
        Ok(Some(MandateTransactionType::NewMandateTransaction))
    } else if has_token {
        Ok(Some(MandateTransactionType::RecurringMandateTransaction))
    } else {
        Ok(None)
    }
}

fn get_mandate_type(
    has_mandate_data: bool,
    has_off_session: bool,
    setup_future_usage: Option<FutureUsage>,
    has_acceptance: bool,
    has_token: bool,
) -> (r: Result<Option<MandateTransactionType>, ApiErrorResponse>)
    ensures
        r == mandate_type_of(
            has_mandate_data,
            has_off_session,
            setup_future_usage,
            has_acceptance,
            has_token,
        ),
{
    let off_session = match setup_future_usage {
        Some(FutureUsage::OffSession) => true,
        _ => false,
    };
    if has_mandate_data && has_off_session && off_session && has_acceptance && has_token {
        Err(
            ApiErrorResponse::MandateValidationFailed {
                reason: MandateFailure::BothRecurringDetailsAndMandateData,
            },
        )
    } else if off_session && (has_acceptance || has_mandate_data) {
        Ok(Some(MandateTransactionType::NewMandateTransaction))
    } else if has_token {
        Ok(Some(MandateTransactionType::RecurringMandateTransaction))
    } else {
        Ok(None)
    }
}

/// The mandate that a request names: its mandate id first, then the mandate
/// of its recurring details.
pub open spec fn requested_mandate_id(request: PaymentsRequest) -> Option<String> {
    match request.mandate_id {
        Some(id) => Some(id),
        None => match request.recurring_details {
            Some(RecurringDetails::MandateId(id)) => Some(id),
            _ => None,
        },
    }
}

/// How a stored mandate is referred to: by its network transaction id
/// where it has one, else by the connector's reference, which has to be
/// readable.
pub open spec fn mandate_ids_of(mandate: Mandate) -> Result<MandateIds, ApiErrorResponse> {
    match mandate.network_transaction_id {
        Some(network_transaction_id) => Ok(
            MandateIds {
                mandate_id: Some(mandate.mandate_id),
                mandate_reference_id: Some(
                    MandateReferenceId::NetworkMandateId(network_transaction_id),
                ),
            },
        ),
        None => match mandate.connector_mandate_ids {
            StoredConnectorMandate::Valid { connector_mandate_id, payment_method_id } => Ok(
                MandateIds {
                    mandate_id: Some(mandate.mandate_id),
                    mandate_reference_id: Some(
                        MandateReferenceId::ConnectorMandateId {
                            connector_mandate_id,
                            payment_method_id,
                        },
                    ),
                },
            ),
            StoredConnectorMandate::Malformed => Err(
                ApiErrorResponse::NotFound { subject: Subject::Mandate },
            ),
            StoredConnectorMandate::Absent => Ok(
                MandateIds { mandate_id: Some(mandate.mandate_id), mandate_reference_id: None },
            ),
        },
    }
}

/// The mandate of a payment. A request that names no mandate has none; one
/// that names a mandate needs storage to hold it.
pub open spec fn resolved_mandate(request: PaymentsRequest, stored: Option<Mandate>) -> Result<
    Option<MandateIds>,
    ApiErrorResponse,
> {
    match requested_mandate_id(request) {
        None => Ok(None),
        Some(_) => match stored {
            None => Err(ApiErrorResponse::NotFound { subject: Subject::Mandate }),
            Some(mandate) => match mandate_ids_of(mandate) {
                Ok(ids) => Ok(Some(ids)),
                Err(e) => Err(e),
            },
        },
    }
}

fn resolve_mandate(request: &PaymentsRequest, stored: Option<Mandate>) -> (r: Result<
    Option<MandateIds>,
    ApiErrorResponse,
>)
    ensures
        r == resolved_mandate(*request, stored),
{
    let requested = match &request.mandate_id {
        Some(_) => true,
        None => match &request.recurring_details {
            Some(RecurringDetails::MandateId(_)) => true,
            _ => false,
        },
    };
    if !requested {
        return Ok(None);
    }
    let mandate = match stored {
        Some(mandate) => mandate,
        None => {
            return Err(ApiErrorResponse::NotFound { subject: Subject::Mandate });
        },
    };
    let Mandate { mandate_id, customer_id: _, network_transaction_id, connector_mandate_ids } =
        mandate;
    match network_transaction_id {
        Some(network_transaction_id) => Ok(
            Some(
                MandateIds {
                    mandate_id: Some(mandate_id),
                    mandate_reference_id: Some(
                        MandateReferenceId::NetworkMandateId(network_transaction_id),
                    ),
                },
            ),
        ),
        None => match connector_mandate_ids {
            StoredConnectorMandate::Valid { connector_mandate_id, payment_method_id } => Ok(
                Some(
                    MandateIds {
                        mandate_id: Some(mandate_id),
                        mandate_reference_id: Some(
                            MandateReferenceId::ConnectorMandateId {
                                connector_mandate_id,
                                payment_method_id,
                            },
                        ),
                    },
                ),
            ),
            StoredConnectorMandate::Malformed => Err(
                ApiErrorResponse::NotFound { subject: Subject::Mandate },
            ),
            StoredConnectorMandate::Absent => Ok(
                Some(MandateIds { mandate_id: Some(mandate_id), mandate_reference_id: None }),
            ),
        },
    }
}

/// What happens to an address of a payment: an address in the request
/// replaces the stored one or is stored anew under `generated`; without one
/// the stored address stays.
pub open spec fn address_action_for(requested: bool, existing: Option<String>, generated: String)
    -> AddressAction {
    match (existing, requested) {
        (Some(address_id), true) => AddressAction::Update { address_id },
        (Some(address_id), false) => AddressAction::Keep { address_id },
        (None, true) => AddressAction::Create { address_id: generated },
        (None, false) => AddressAction::Nothing,
    }
}

fn address_action(requested: bool, existing: Option<String>, generated: String) -> (r:
    AddressAction)
    ensures
        r == address_action_for(requested, existing, generated),
{
    match (existing, requested) {
        (Some(address_id), true) => AddressAction::Update { address_id },
        (Some(address_id), false) => AddressAction::Keep { address_id },
        (None, true) => AddressAction::Create { address_id: generated },
        (None, false) => AddressAction::Nothing,
    }
}

/// An attempt with what the request says of its method and capture.
pub open spec fn populated_attempt(attempt: PaymentAttempt, request: PaymentsRequest)
    -> PaymentAttempt {
    PaymentAttempt {
        business_sub_label: first_of(request.business_sub_label, attempt.business_sub_label),
        payment_method_type: first_of(request.payment_method_type, attempt.payment_method_type),
        payment_experience: first_of(request.payment_experience, attempt.payment_experience),
        amount_to_capture: first_of(request.amount_to_capture, attempt.amount_to_capture),
        capture_method: first_of(request.capture_method, attempt.capture_method),
        ..attempt
    }
}

/// An intent with what the request says of the business and its texts. The
/// business country and label are taken as the request has them, given or
/// not; everything else only where the request gives it.
pub open spec fn populated_intent(intent: PaymentIntent, request: PaymentsRequest)
    -> PaymentIntent {
    PaymentIntent {
        return_url: first_of(request.return_url, intent.return_url),
        business_country: request.business_country,
        business_label: request.business_label,
        description: first_of(request.description, intent.description),
        statement_descriptor_name: first_of(
            request.statement_descriptor_name,
            intent.statement_descriptor_name,
        ),
        statement_descriptor_suffix: first_of(
            request.statement_descriptor_suffix,
            intent.statement_descriptor_suffix,
        ),
        client_secret: first_of(request.client_secret, intent.client_secret),
        ..intent
    }
}

fn first_text(preferred: &Option<String>, fallback: Option<String>) -> (r: Option<String>)
    ensures
        r == first_of(*preferred, fallback),
{
    match preferred {
        Some(text) => Some(text.clone()),
        None => fallback,
    }
}

/// What a request is merged with: what was loaded for the payment, who
/// sent the request, and when.
#[derive(Debug, PartialEq, Eq)]
pub struct TrackerInputs {
    /// Who sent the request.
    pub auth_flow: AuthFlow,
    /// The time, in seconds since the epoch.
    pub now: i64,
    /// The month of the calendar that `now` lies in.
    pub today: YearMonth,
    /// The intent, where storage holds it.
    pub payment_intent: Option<PaymentIntent>,
    /// The active attempt of the intent, where storage holds it.
    pub payment_attempt: Option<PaymentAttempt>,
    /// The mandate that the request names, where storage holds it.
    pub mandate: Option<Mandate>,
    /// Whether storage holds the business profile of the intent.
    pub business_profile_found: bool,
    /// Fresh ids for a shipping, a billing and a payment method billing
    /// address.
    pub generated_address_ids: (String, String, String),
}

/// The status of an intent after an update: without payment method data it
/// waits for a payment method; with it, it waits for confirmation unless the
/// request confirms, in which case the status is left to the confirmation.
pub open spec fn status_after_update(request: PaymentsRequest, status: IntentStatus)
    -> IntentStatus {
    if request.has_payment_method_data {
        if request.confirm == Some(true) {
            status
        } else {
            IntentStatus::RequiresConfirmation
        }
    } else {
        IntentStatus::RequiresPaymentMethod
    }
}

/// The amount that the payment data carries: the request's, else the
/// attempt's; on a confirming request with the surcharge added.
pub open spec fn amount_to_charge(request: PaymentsRequest, attempt: PaymentAttempt) -> int {
    let base = match request.amount {
        Some(amount) => amount,
        None => attempt.amount,
    };
    if request.confirm == Some(true) {
        base + match request.surcharge_details {
            Some(details) => details.total(),
            None => match attempt.surcharge_amount {
                Some(surcharge) => surcharge + match attempt.tax_amount {
                    Some(tax) => tax as int,
                    None => 0,
                },
                None => 0,
            },
        }
    } else {
        base as int
    }
}

/// How long the session of a payment lasts where the payment says nothing
/// of it, in seconds: a quarter of an hour.
pub const DEFAULT_SESSION_EXPIRY: i64 = 900;

/// Whether the one who asks may update the payment: the merchant may; a
/// customer who names a customer has to name the customer of the payment.
pub open spec fn may_update(request: PaymentsRequest, intent: PaymentIntent, auth_flow: AuthFlow)
    -> bool {
    auth_flow == AuthFlow::Client && request.customer_id is Some ==> (intent.customer_id
        matches Some(stored) && stored@ == request.customer_id->Some_0@)
}

/// Whether a text is three or four decimal digits.
pub open spec fn is_cvc(text: Seq<char>) -> bool {
    3 <= text.len() <= 4 && forall|i: int|
        0 <= i < text.len() ==> 0x30 <= (#[trigger] text[i]) as u32 <= 0x39
}

/// The year that a card names: a year below 100 stands for that year of
/// this century.
pub open spec fn full_year(year: u16) -> int {
    if year < 100 {
        2000 + year
    } else {
        year as int
    }
}

/// What is wrong with the card of a request, if anything: the code is
/// three or four digits, the month one of the twelve, and the card is good
/// until the end of the month in which it expires.
pub open spec fn card_fault(card: RequestCard, today: YearMonth) -> Option<ApiErrorResponse> {
    if !is_cvc(card.card_cvc@) {
        Some(invalid(Field::CardCvc, ExpectedFormat::ThreeOrFourDigits))
    } else if !(1 <= card.card_exp_month <= 12) {
        Some(invalid(Field::CardExpMonth, ExpectedFormat::MonthOfTheYear))
    } else if full_year(card.card_exp_year) < today.year || (full_year(card.card_exp_year)
        == today.year && card.card_exp_month < today.month) {
        Some(invalid(Field::CardExpYear, ExpectedFormat::ExpiryNotInThePast))
    } else {
        None
    }
}

/// When the session of a payment ends: when the payment says, or a quarter
/// of an hour after it was created.
pub open spec fn session_end(intent: PaymentIntent) -> int {
    match intent.session_expiry {
        Some(end) => end as int,
        None => if intent.created_at + DEFAULT_SESSION_EXPIRY > i64::MAX {
            i64::MAX as int
        } else {
            intent.created_at + DEFAULT_SESSION_EXPIRY
        },
    }
}

/// What is wrong with the client secret of a request, if anything. A
/// request without one is not held to it. One that gives a secret has to
/// give that of the payment, before the session of the payment has ended; a
/// payment without secret has none that could still be good.
pub open spec fn client_secret_fault(request: PaymentsRequest, intent: PaymentIntent, now: i64)
    -> Option<ApiErrorResponse> {
    match (request.client_secret, intent.client_secret) {
        (Some(given), Some(stored)) => if given@ != stored@ {
            Some(invalid(Field::ClientSecret, ExpectedFormat::ClientSecretOfThePayment))
        } else if now > session_end(intent) {
            Some(invalid(Field::ClientSecret, ExpectedFormat::ClientSecretNotExpired))
        } else {
            None
        },
        (Some(_), None) => Some(
            invalid(Field::ClientSecret, ExpectedFormat::ClientSecretNotExpired),
        ),
        _ => None,
    }
}

/// The first reason for which a payment that was found cannot be updated
/// by the one who asks, if there is one: the customer, the card, the status
/// of the payment and the client secret, in this order.
pub open spec fn intent_fault(request: PaymentsRequest, intent: PaymentIntent, inputs: TrackerInputs)
    -> Option<ApiErrorResponse> {
    if !may_update(request, intent, inputs.auth_flow) {
        Some(invalid(Field::CustomerId, ExpectedFormat::CustomerOfThePayment))
    } else if request.card is Some && card_fault(request.card->Some_0, inputs.today) is Some {
        card_fault(request.card->Some_0, inputs.today)
    } else if update_is_closed(intent.status) {
        Some(ApiErrorResponse::NotSupported { message: Unsupported::UpdateInStatus(intent.status) })
    } else {
        client_secret_fault(request, intent, inputs.now)
    }
}

/// The key under which credentials that a request brought along are kept.
pub open spec fn connector_creds_key(merchant_id: Seq<char>, creds_identifier: Seq<char>) -> Seq<
    char,
> {
    "mcd_"@ + merchant_id + "_"@ + creds_identifier
}

/// Whether `insert` is the write of the credentials that a request brought
/// along: there is one exactly if the request holds credentials with data,
/// and it puts that data under the key of the merchant and the identifier.
pub open spec fn is_creds_insert(
    insert: Option<ConfigInsert>,
    details: Option<MerchantConnectorDetailsWrap>,
    merchant_id: Seq<char>,
) -> bool {
    match details {
        Some(MerchantConnectorDetailsWrap { creds_identifier, encoded_data: Some(data) }) => {
            &&& insert matches Some(write)
            &&& write.key@ == connector_creds_key(merchant_id, creds_identifier@)
            &&& write.config == data
        },
        _ => insert is None,
    }
}

/// The identifier of the credentials that a request brought along.
pub open spec fn creds_identifier_of(details: Option<MerchantConnectorDetailsWrap>) -> Option<
    String,
> {
    match details {
        Some(wrap) => Some(wrap.creds_identifier),
        None => None,
    }
}

/// The first reason for which the trackers of a payment cannot be merged
/// with a request, if there is one. The checks come in this order.
pub open spec fn tracker_fault(request: PaymentsRequest, inputs: TrackerInputs) -> Option<
    ApiErrorResponse,
> {
    if inputs.payment_intent is None {
        Some(ApiErrorResponse::NotFound { subject: Subject::Payment })
    } else {
        let intent = inputs.payment_intent->Some_0;
        if intent_fault(request, intent, inputs) is Some {
            intent_fault(request, intent, inputs)
        } else if inputs.payment_attempt is None {
            Some(ApiErrorResponse::NotFound { subject: Subject::Payment })
        } else {
            let attempt = inputs.payment_attempt->Some_0;
            let setup_future_usage = first_of(request.setup_future_usage, intent.setup_future_usage);
            let mandate_type = mandate_type_for(request, intent);
            let customer_id = first_of(intent.customer_id, request.customer_id);
            let token = first_of(request.payment_token, attempt.payment_token);
            if mandate_type is Err {
                Some(mandate_type->Err_0)
            } else if mandate_type matches Ok(Some(MandateTransactionType::NewMandateTransaction))
                && request.mandate_data is None {
                Some(invalid(Field::MandateData, ExpectedFormat::Present))
            } else if !automatic_capture_takes_all(request, attempt) {
                Some(invalid(Field::AmountToCapture, ExpectedFormat::AmountToCaptureEqualToAmount))
            } else if !capture_is_covered(
                request.amount,
                request.amount_to_capture,
                first_of(request.surcharge_details, surcharge_of(attempt)),
            ) {
                Some(invalid(Field::AmountToCapture, ExpectedFormat::AmountToCaptureAtMostAmount))
            } else if first_of(request.currency, attempt.currency) is None {
                Some(invalid(Field::Currency, ExpectedFormat::Present))
            } else if request.confirm == Some(true) && request.setup_future_usage is Some
                && customer_id is None {
                Some(invalid(Field::CustomerId, ExpectedFormat::Present))
            } else if request.confirm == Some(true) && request.payment_method_type != Some(
                PaymentMethodType::Paypal,
            ) && mandate_type != Ok::<Option<MandateTransactionType>, ApiErrorResponse>(
                Some(MandateTransactionType::RecurringMandateTransaction),
            ) && token is None && (!request.has_payment_method_data || request.payment_method
                is None) {
                Some(invalid(Field::PaymentMethodData, ExpectedFormat::Present))
            } else if resolved_mandate(request, inputs.mandate) is Err {
                Some(resolved_mandate(request, inputs.mandate)->Err_0)
            } else if !(i64::MIN <= amount_to_charge(request, attempt) <= i64::MAX) {
                Some(invalid(Field::Amount, ExpectedFormat::AmountWithinRange))
            } else if setup_future_usage == Some(FutureUsage::OnSession) && (
            attempt.mandate_details is Some || request.mandate_data is Some) {
                Some(
                    ApiErrorResponse::MandateValidationFailed {
                        reason: MandateFailure::OnSessionWithMandateDetails,
                    },
                )
            } else if intent.profile_id is None {
                Some(ApiErrorResponse::InternalServerError)
            } else if !inputs.business_profile_found {
                Some(
                    ApiErrorResponse::NotFound {
                        subject: Subject::BusinessProfile { id: intent.profile_id->Some_0 },
                    },
                )
            } else {
                None
            }
        }
    }
}

/// The intent of a payment merged with a request, once its addresses are
/// settled.
pub open spec fn merged_intent(
    request: PaymentsRequest,
    intent: PaymentIntent,
    shipping_address_id: Option<String>,
    billing_address_id: Option<String>,
) -> PaymentIntent {
    PaymentIntent {
        setup_future_usage: first_of(request.setup_future_usage, intent.setup_future_usage),
        shipping_address_id,
        billing_address_id,
        metadata: first_of(request.metadata, intent.metadata),
        status: status_after_update(request, intent.status),
        request_external_three_ds_authentication: first_of(
            request.request_external_three_ds_authentication,
            intent.request_external_three_ds_authentication,
        ),
        ..populated_intent(intent, request)
    }
}

/// The attempt of a payment merged with a request.
pub open spec fn merged_attempt(request: PaymentsRequest, attempt: PaymentAttempt)
    -> PaymentAttempt {
    populated_attempt(
        PaymentAttempt {
            payment_method: first_of(request.payment_method, attempt.payment_method),
            ..attempt
        },
        request,
    )
}

/// The amount of the records after the merge: a confirming request sets it,
/// any other leaves it.
pub open spec fn recorded_amount(request: PaymentsRequest, attempt: PaymentAttempt, stored: i64)
    -> i64 {
    if request.confirm == Some(true) {
        match request.amount {
            Some(amount) => amount,
            None => attempt.amount,
        }
    } else {
        stored
    }
}

/// The mandate type of a payment, from the request and the stored intent.
pub open spec fn mandate_type_for(request: PaymentsRequest, intent: PaymentIntent) -> Result<
    Option<MandateTransactionType>,
    ApiErrorResponse,
> {
    mandate_type_of(
        request.mandate_data is Some,
        request.off_session is Some,
        first_of(request.setup_future_usage, intent.setup_future_usage),
        acceptance_of(request) is Some,
        request.payment_token is Some,
    )
}

/// The surcharge that the payment data carries: that of the request, on
/// the amount of the attempt.
pub open spec fn surcharge_for(request: PaymentsRequest, original_amount: i64) -> Option<
    SurchargeDetails,
> {
    match request.surcharge_details {
        Some(details) => Some(
            SurchargeDetails {
                original_amount,
                surcharge_amount: details.surcharge_amount,
                tax_on_surcharge_amount: match details.tax_amount {
                    Some(tax) => tax,
                    None => 0,
                },
            },
        ),
        None => None,
    }
}

/// What merging relies on: the records are there, and what is read of them
/// and of the request can be had.
pub open spec fn can_merge(request: PaymentsRequest, inputs: TrackerInputs) -> bool {
    &&& inputs.payment_intent is Some
    &&& inputs.payment_attempt is Some
    &&& mandate_type_for(request, inputs.payment_intent->Some_0) is Ok
    &&& first_of(request.currency, inputs.payment_attempt->Some_0.currency) is Some
    &&& i64::MIN <= amount_to_charge(request, inputs.payment_attempt->Some_0) <= i64::MAX
    &&& resolved_mandate(request, inputs.mandate) is Ok
}

/// A request without fault can be merged.
pub proof fn lemma_no_fault_can_merge(request: PaymentsRequest, inputs: TrackerInputs)
    requires
        tracker_fault(request, inputs) is None,
    ensures
        can_merge(request, inputs),
{
}

/// The intent after the merge, with its amount.
pub open spec fn recorded_intent(
    request: PaymentsRequest,
    intent: PaymentIntent,
    attempt: PaymentAttempt,
    shipping_address_id: Option<String>,
    billing_address_id: Option<String>,
) -> PaymentIntent {
    PaymentIntent {
        amount: recorded_amount(request, attempt, intent.amount),
        ..merged_intent(request, intent, shipping_address_id, billing_address_id)
    }
}

/// The attempt after the merge, with its amount.
pub open spec fn recorded_attempt(request: PaymentsRequest, attempt: PaymentAttempt)
    -> PaymentAttempt {
    PaymentAttempt {
        amount: recorded_amount(request, attempt, attempt.amount),
        ..merged_attempt(request, attempt)
    }
}

/// The mandate that the payment sets up: the mandate data of the request,
/// where the payment is one that sets up a mandate.
pub open spec fn mandate_to_set_up(
    request: PaymentsRequest,
    mandate_type: Option<MandateTransactionType>,
) -> Option<crate::router_data::MandateData> {
    if mandate_type == Some(MandateTransactionType::NewMandateTransaction) {
        request.mandate_data
    } else {
        None
    }
}

/// What the pipeline carries on after the merge.
pub open spec fn merged_payment_data(
    request: PaymentsRequest,
    intent: PaymentIntent,
    attempt: PaymentAttempt,
    mandate: Option<Mandate>,
    shipping_address_id: Option<String>,
    billing_address_id: Option<String>,
) -> PaymentData {
    PaymentData {
        payment_intent: recorded_intent(
            request,
            intent,
            attempt,
            shipping_address_id,
            billing_address_id,
        ),
        payment_attempt: recorded_attempt(request, attempt),
        currency: first_of(request.currency, attempt.currency)->Some_0,
        amount: amount_to_charge(request, attempt) as i64,
        mandate_id: resolved_mandate(request, mandate)->Ok_0,
        token: first_of(request.payment_token, attempt.payment_token),
        setup_mandate: mandate_to_set_up(request, mandate_type_for(request, intent)->Ok_0),
        customer_acceptance: request.customer_acceptance,
        confirm: request.confirm,
        has_payment_method_data: request.has_payment_method_data,
        surcharge_details: surcharge_for(request, recorded_amount(request, attempt, attempt.amount)),
        creds_identifier: creds_identifier_of(request.merchant_connector_details),
    }
}

/// The trackers of a payment merged with a request that has no fault,
/// with `creds` as the write of the credentials that the request brought
/// along.
pub open spec fn merged_trackers(
    request: PaymentsRequest,
    inputs: TrackerInputs,
    creds: Option<ConfigInsert>,
) -> GetTrackerResponse {
    let intent = inputs.payment_intent->Some_0;
    let attempt = inputs.payment_attempt->Some_0;
    let shipping_address = address_action_for(
        request.has_shipping,
        intent.shipping_address_id,
        inputs.generated_address_ids.0,
    );
    let billing_address = address_action_for(
        request.has_billing,
        intent.billing_address_id,
        inputs.generated_address_ids.1,
    );
    GetTrackerResponse {
        operation: verb_after(request.confirm),
        payment_data: merged_payment_data(
            request,
            intent,
            attempt,
            inputs.mandate,
            shipping_address.spec_address_id(),
            billing_address.spec_address_id(),
        ),
        shipping_address,
        billing_address,
        payment_method_billing_address: address_action_for(
            request.has_payment_method_billing,
            attempt.payment_method_billing_address_id,
            inputs.generated_address_ids.2,
        ),
        merchant_connector_creds: creds,
        mandate_type: mandate_type_for(request, intent)->Ok_0,
    }
}

/// Whether `outcome` is what loading the trackers comes to: the first
/// fault, or the merged trackers with the write of the credentials that the
/// request brought along.
pub open spec fn is_trackers_for(
    outcome: Result<GetTrackerResponse, ApiErrorResponse>,
    request: PaymentsRequest,
    inputs: TrackerInputs,
) -> bool {
    match tracker_fault(request, inputs) {
        Some(e) => outcome == Err::<GetTrackerResponse, ApiErrorResponse>(e),
        None => {
            &&& outcome matches Ok(response)
            &&& response == merged_trackers(request, inputs, response.merchant_connector_creds)
            &&& is_creds_insert(
                response.merchant_connector_creds,
                request.merchant_connector_details,
                inputs.payment_intent->Some_0.merchant_id@,
            )
        },
    }
}

/// The status that an attempt is given by an update.
pub open spec fn attempt_status_after_update(data: PaymentData) -> AttemptStatus {
    if data.payment_attempt.payment_method_id is None && data.payment_intent.status
        == IntentStatus::RequiresPaymentMethod {
        AttemptStatus::PaymentMethodAwaited
    } else {
        AttemptStatus::ConfirmationAwaited
    }
}

/// The status that an intent is given by an update: it waits for a payment
/// method where there is none; it goes back to waiting for confirmation
/// where the update does not confirm or the customer's action was pending;
/// else it stays.
pub open spec fn intent_status_after_update(data: PaymentData) -> IntentStatus {
    if data.payment_attempt.payment_method_id is None && data.payment_intent.status
        == IntentStatus::RequiresPaymentMethod {
        IntentStatus::RequiresPaymentMethod
    } else if data.confirm == Some(false) || data.payment_intent.status
        == IntentStatus::RequiresCustomerAction {
        IntentStatus::RequiresConfirmation
    } else {
        data.payment_intent.status
    }
}

/// The changes to the attempt that an update persists.
pub open spec fn attempt_update_of(data: PaymentData, storage_scheme: MerchantStorageScheme)
    -> PaymentAttemptUpdate {
    PaymentAttemptUpdate {
        amount: data.amount,
        currency: data.currency,
        status: attempt_status_after_update(data),
        payment_method: data.payment_attempt.payment_method,
        payment_token: data.token,
        payment_experience: data.payment_attempt.payment_experience,
        payment_method_type: data.payment_attempt.payment_method_type,
        business_sub_label: data.payment_attempt.business_sub_label,
        amount_to_capture: data.payment_attempt.amount_to_capture,
        capture_method: data.payment_attempt.capture_method,
        surcharge_amount: match data.surcharge_details {
            Some(details) => Some(details.surcharge_amount),
            None => None,
        },
        tax_amount: match data.surcharge_details {
            Some(details) => Some(details.tax_on_surcharge_amount),
            None => None,
        },
        updated_by: storage_scheme,
    }
}

/// The changes to the intent that an update persists.
pub open spec fn intent_update_of(
    data: PaymentData,
    customer_id: Option<String>,
    storage_scheme: MerchantStorageScheme,
) -> PaymentIntentUpdate {
    PaymentIntentUpdate {
        amount: data.amount,
        currency: data.currency,
        setup_future_usage: data.payment_intent.setup_future_usage,
        status: intent_status_after_update(data),
        customer_id,
        shipping_address_id: data.payment_intent.shipping_address_id,
        billing_address_id: data.payment_intent.billing_address_id,
        return_url: data.payment_intent.return_url,
        business_country: data.payment_intent.business_country,
        business_label: data.payment_intent.business_label,
        description: data.payment_intent.description,
        statement_descriptor_name: data.payment_intent.statement_descriptor_name,
        statement_descriptor_suffix: data.payment_intent.statement_descriptor_suffix,
        metadata: data.payment_intent.metadata,
        session_expiry: data.payment_intent.session_expiry,
        request_external_three_ds_authentication: data.payment_intent.request_external_three_ds_authentication,
        updated_by: storage_scheme,
    }
}

/// One write of an update.
#[derive(Debug, PartialEq, Eq)]
pub enum TrackerWrite {
    Attempt(PaymentAttemptUpdate),
    Intent(PaymentIntentUpdate),
}

/// What an update persists. The writes are separate and are made in their
/// order; a crash between them leaves storage with the first one only.
#[derive(Debug, PartialEq, Eq)]
pub struct UpdateTrackerPlan {
    pub writes: Vec<TrackerWrite>,
    /// The verb that runs once all is written.
    pub operation: NextOperation,
}

/// The verb after an update: the confirmation where the request confirms,
/// else the update itself.
pub open spec fn verb_after(confirm: Option<bool>) -> NextOperation {
    if confirm == Some(true) {
        NextOperation::Advance(Verb::Confirm)
    } else {
        NextOperation::Continue
    }
}

fn mandate_type_in(request: &PaymentsRequest, intent: &PaymentIntent) -> (r: Result<
    Option<MandateTransactionType>,
    ApiErrorResponse,
>)
    ensures
        r == mandate_type_for(*request, *intent),
{
    let setup_future_usage = match request.setup_future_usage {
        Some(usage) => Some(usage),
        None => intent.setup_future_usage,
    };
    let has_acceptance = match request.customer_acceptance {
        Some(_) => true,
        None => match request.mandate_data {
            Some(mandate_data) => mandate_data.customer_acceptance.is_some(),
            None => false,
        },
    };
    get_mandate_type(
        request.mandate_data.is_some(),
        request.off_session.is_some(),
        setup_future_usage,
        has_acceptance,
        request.payment_token.is_some(),
    )
}

fn mandate_fault(request: &PaymentsRequest, stored: &Option<Mandate>) -> (r: Option<
    ApiErrorResponse,
>)
    ensures
        match resolved_mandate(*request, *stored) {
            Ok(_) => r is None,
            Err(e) => r == Some(e),
        },
{
    let requested = match &request.mandate_id {
        Some(_) => true,
        None => match &request.recurring_details {
            Some(RecurringDetails::MandateId(_)) => true,
            _ => false,
        },
    };
    if !requested {
        return None;
    }
    match stored {
        None => Some(ApiErrorResponse::NotFound { subject: Subject::Mandate }),
        Some(mandate) => match (&mandate.network_transaction_id, &mandate.connector_mandate_ids) {
            (None, StoredConnectorMandate::Malformed) => Some(
                ApiErrorResponse::NotFound { subject: Subject::Mandate },
            ),
            _ => None,
        },
    }
}

fn charge_amount(request: &PaymentsRequest, attempt: &PaymentAttempt) -> (r: Option<i64>)
    ensures
        match r {
            Some(amount) => amount == amount_to_charge(*request, *attempt),
            None => !(i64::MIN <= amount_to_charge(*request, *attempt) <= i64::MAX),
        },
{
    let base_amount = match request.amount {
        Some(amount) => amount,
        None => attempt.amount,
    };
    let confirm = match request.confirm {
        Some(flag) => flag,
        None => false,
    };
    if confirm {
        let extra: i128 = match request.surcharge_details {
            Some(details) => details.surcharge_amount as i128 + wide_or_zero(details.tax_amount),
            None => match attempt.surcharge_amount {
                Some(s) => s as i128 + wide_or_zero(attempt.tax_amount),
                None => 0,
            },
        };
        let total: i128 = base_amount as i128 + extra;
        if total < i64::MIN as i128 || total > i64::MAX as i128 {
            None
        } else {
            Some(total as i64)
        }
    } else {
        Some(base_amount)
    }
}

fn check_cvc(text: &str) -> (r: bool)
    ensures
        r == is_cvc(text@),
{
    let n = text.unicode_len();
    if n < 3 || n > 4 {
        return false;
    }
    let mut i: usize = 0;
    while i < n
        invariant
            n == text@.len(),
            i <= n,
            forall|j: int| 0 <= j < i ==> 0x30 <= (#[trigger] text@[j]) as u32 <= 0x39,
        decreases n - i,
    {
        let c = text.get_char(i) as u32;
        if c < 0x30 || c > 0x39 {
            return false;
        }
        i += 1;
    }
    true
}

fn find_card_fault(card: &RequestCard, today: YearMonth) -> (r: Option<ApiErrorResponse>)
    ensures
        r == card_fault(*card, today),
{
    if !check_cvc(card.card_cvc.as_str()) {
        return Some(invalid_format(Field::CardCvc, ExpectedFormat::ThreeOrFourDigits));
    }
    if card.card_exp_month < 1 || card.card_exp_month > 12 {
        return Some(invalid_format(Field::CardExpMonth, ExpectedFormat::MonthOfTheYear));
    }
    let year: u32 = if card.card_exp_year < 100 {
        2000 + card.card_exp_year as u32
    } else {
        card.card_exp_year as u32
    };
    if year < today.year as u32 || (year == today.year as u32 && card.card_exp_month < today.month) {
        return Some(invalid_format(Field::CardExpYear, ExpectedFormat::ExpiryNotInThePast));
    }
    None
}

fn find_client_secret_fault(request: &PaymentsRequest, intent: &PaymentIntent, now: i64) -> (r:
    Option<ApiErrorResponse>)
    ensures
        r == client_secret_fault(*request, *intent, now),
{
    match (&request.client_secret, &intent.client_secret) {
        (Some(given), Some(stored)) => {
            if !same_text(given.as_str(), stored.as_str()) {
                return Some(
                    invalid_format(Field::ClientSecret, ExpectedFormat::ClientSecretOfThePayment),
                );
            }
            let end = match intent.session_expiry {
                Some(end) => end,
                None => if intent.created_at > i64::MAX - DEFAULT_SESSION_EXPIRY {
                    i64::MAX
                } else {
                    intent.created_at + DEFAULT_SESSION_EXPIRY
                },
            };
            if now > end {
                Some(invalid_format(Field::ClientSecret, ExpectedFormat::ClientSecretNotExpired))
            } else {
                None
            }
        },
        (Some(_), None) => Some(
            invalid_format(Field::ClientSecret, ExpectedFormat::ClientSecretNotExpired),
        ),
        _ => None,
    }
}

fn find_intent_fault(request: &PaymentsRequest, intent: &PaymentIntent, inputs: &TrackerInputs)
    -> (r: Option<ApiErrorResponse>)
    ensures
        r == intent_fault(*request, *intent, *inputs),
{
    let asked_by_customer = match inputs.auth_flow {
        AuthFlow::Client => true,
        AuthFlow::Merchant => false,
    };
    match &request.customer_id {
        Some(given) => {
            if asked_by_customer {
                let same = match &intent.customer_id {
                    Some(stored) => same_text(stored.as_str(), given.as_str()),
                    None => false,
                };
                if !same {
                    return Some(
                        invalid_format(Field::CustomerId, ExpectedFormat::CustomerOfThePayment),
                    );
                }
            }
        },
        None => {},
    }
    match &request.card {
        Some(card) => match find_card_fault(card, inputs.today) {
            Some(e) => {
                return Some(e);
            },
            None => {},
        },
        None => {},
    }
    match intent.status {
        IntentStatus::Failed
        | IntentStatus::Succeeded
        | IntentStatus::PartiallyCaptured
        | IntentStatus::RequiresCapture => {
            return Some(
                ApiErrorResponse::NotSupported {
                    message: Unsupported::UpdateInStatus(intent.status),
                },
            );
        },
        _ => {},
    }
    find_client_secret_fault(request, intent, inputs.now)
}

fn creds_insert(details: &Option<MerchantConnectorDetailsWrap>, merchant_id: &str) -> (r: Option<
    ConfigInsert,
>)
    ensures
        is_creds_insert(r, *details, merchant_id@),
{
    match details {
        Some(wrap) => match &wrap.encoded_data {
            Some(data) => Some(
                ConfigInsert {
                    key: String::from_str("mcd_").concat(merchant_id).concat("_").concat(
                        wrap.creds_identifier.as_str(),
                    ),
                    config: data.clone(),
                },
            ),
            None => None,
        },
        None => None,
    }
}

fn creds_identifier(details: &Option<MerchantConnectorDetailsWrap>) -> (r: Option<String>)
    ensures
        r == creds_identifier_of(*details),
{
    match details {
        Some(wrap) => Some(wrap.creds_identifier.clone()),
        None => None,
    }
}

fn find_tracker_fault(request: &PaymentsRequest, inputs: &TrackerInputs) -> (r: Option<
    ApiErrorResponse,
>)
    ensures
        r == tracker_fault(*request, *inputs),
{
    let intent = match &inputs.payment_intent {
        Some(intent) => intent,
        None => {
            return Some(ApiErrorResponse::NotFound { subject: Subject::Payment });
        },
    };
    match find_intent_fault(request, intent, inputs) {
        Some(e) => {
            return Some(e);
        },
        None => {},
    }
    let attempt = match &inputs.payment_attempt {
        Some(attempt) => attempt,
        None => {
            return Some(ApiErrorResponse::NotFound { subject: Subject::Payment });
        },
    };
    let confirm = match request.confirm {
        Some(flag) => flag,
        None => false,
    };
    let mandate_type = match mandate_type_in(request, intent) {
        Ok(kind) => kind,
        Err(e) => {
            return Some(e);
        },
    };
    let new_mandate = match mandate_type {
        Some(MandateTransactionType::NewMandateTransaction) => true,
        _ => false,
    };
    if new_mandate && request.mandate_data.is_none() {
        return Some(invalid_format(Field::MandateData, ExpectedFormat::Present));
    }
    if !check_automatic_capture_takes_all(request, attempt) {
        return Some(
            invalid_format(Field::AmountToCapture, ExpectedFormat::AmountToCaptureEqualToAmount),
        );
    }
    let attempt_surcharge = match attempt.surcharge_amount {
        Some(surcharge_amount) => Some(
            RequestSurchargeDetails { surcharge_amount, tax_amount: attempt.tax_amount },
        ),
        None => None,
    };
    let surcharge = match request.surcharge_details {
        Some(details) => Some(details),
        None => attempt_surcharge,
    };
    if !check_capture_is_covered(request.amount, request.amount_to_capture, surcharge) {
        return Some(
            invalid_format(Field::AmountToCapture, ExpectedFormat::AmountToCaptureAtMostAmount),
        );
    }
    if request.currency.is_none() && attempt.currency.is_none() {
        return Some(invalid_format(Field::Currency, ExpectedFormat::Present));
    }
    if confirm && request.setup_future_usage.is_some() && intent.customer_id.is_none()
        && request.customer_id.is_none() {
        return Some(invalid_format(Field::CustomerId, ExpectedFormat::Present));
    }
    if confirm {
        let paypal = match request.payment_method_type {
            Some(PaymentMethodType::Paypal) => true,
            _ => false,
        };
        let recurring = match mandate_type {
            Some(MandateTransactionType::RecurringMandateTransaction) => true,
            _ => false,
        };
        let has_token = request.payment_token.is_some() || attempt.payment_token.is_some();
        if !paypal && !recurring && !has_token && (!request.has_payment_method_data
            || request.payment_method.is_none()) {
            return Some(invalid_format(Field::PaymentMethodData, ExpectedFormat::Present));
        }
    }
    match mandate_fault(request, &inputs.mandate) {
        Some(e) => {
            return Some(e);
        },
        None => {},
    }
    if charge_amount(request, attempt).is_none() {
        return Some(invalid_format(Field::Amount, ExpectedFormat::AmountWithinRange));
    }
    let on_session = match (request.setup_future_usage, intent.setup_future_usage) {
        (Some(FutureUsage::OnSession), _) => true,
        (None, Some(FutureUsage::OnSession)) => true,
        _ => false,
    };
    if on_session && (attempt.mandate_details.is_some() || request.mandate_data.is_some()) {
        return Some(
            ApiErrorResponse::MandateValidationFailed {
                reason: MandateFailure::OnSessionWithMandateDetails,
            },
        );
    }
    match &intent.profile_id {
        Some(id) => {
            if !inputs.business_profile_found {
                return Some(
                    ApiErrorResponse::NotFound {
                        subject: Subject::BusinessProfile { id: id.clone() },
                    },
                );
            }
        },
        None => {
            return Some(ApiErrorResponse::InternalServerError);
        },
    }
    None
}

fn merge_intent(
    request: &PaymentsRequest,
    intent: PaymentIntent,
    shipping_address_id: Option<String>,
    billing_address_id: Option<String>,
) -> (r: PaymentIntent)
    ensures
        r == merged_intent(*request, intent, shipping_address_id, billing_address_id),
{
    let mut payment_intent = intent;
    PaymentUpdate::populate_payment_intent_with_request(&mut payment_intent, request);
    match request.setup_future_usage {
        Some(usage) => {
            payment_intent.setup_future_usage = Some(usage);
        },
        None => {},
    }
    payment_intent.shipping_address_id = shipping_address_id;
    payment_intent.billing_address_id = billing_address_id;
    match &request.metadata {
        Some(text) => {
            payment_intent.metadata = Some(text.clone());
        },
        None => {},
    }
    let confirm = match request.confirm {
        Some(flag) => flag,
        None => false,
    };
    payment_intent.status = if request.has_payment_method_data {
        if confirm {
            payment_intent.status
        } else {
            IntentStatus::RequiresConfirmation
        }
    } else {
        IntentStatus::RequiresPaymentMethod
    };
    match request.request_external_three_ds_authentication {
        Some(flag) => {
            payment_intent.request_external_three_ds_authentication = Some(flag);
        },
        None => {},
    }
    payment_intent
}

fn merge_attempt(request: &PaymentsRequest, attempt: PaymentAttempt) -> (r: PaymentAttempt)
    ensures
        r == merged_attempt(*request, attempt),
{
    let mut payment_attempt = attempt;
    match request.payment_method {
        Some(method) => {
            payment_attempt.payment_method = Some(method);
        },
        None => {},
    }
    PaymentUpdate::populate_payment_attempt_with_request(&mut payment_attempt, request);
    payment_attempt
}

fn record_intent(
    request: &PaymentsRequest,
    intent: PaymentIntent,
    attempt: &PaymentAttempt,
    shipping_address_id: Option<String>,
    billing_address_id: Option<String>,
) -> (r: PaymentIntent)
    ensures
        r == recorded_intent(*request, intent, *attempt, shipping_address_id, billing_address_id),
{
    let stored = intent.amount;
    let mut payment_intent = merge_intent(request, intent, shipping_address_id, billing_address_id);
    payment_intent.amount = record_amount(request, attempt, stored);
    payment_intent
}

fn record_attempt(request: &PaymentsRequest, attempt: PaymentAttempt) -> (r: PaymentAttempt)
    ensures
        r == recorded_attempt(*request, attempt),
{
    let amount = record_amount(request, &attempt, attempt.amount);
    let mut payment_attempt = merge_attempt(request, attempt);
    payment_attempt.amount = amount;
    payment_attempt
}

fn record_amount(request: &PaymentsRequest, attempt: &PaymentAttempt, stored: i64) -> (r: i64)
    ensures
        r == recorded_amount(*request, *attempt, stored),
{
    match request.confirm {
        Some(true) => match request.amount {
            Some(amount) => amount,
            None => attempt.amount,
        },
        _ => stored,
    }
}

fn surcharge_in(request: &PaymentsRequest, original_amount: i64) -> (r: Option<SurchargeDetails>)
    ensures
        r == surcharge_for(*request, original_amount),
{
    match request.surcharge_details {
        Some(details) => Some(
            SurchargeDetails {
                original_amount,
                surcharge_amount: details.surcharge_amount,
                tax_on_surcharge_amount: match details.tax_amount {
                    Some(tax) => tax,
                    None => 0,
                },
            },
        ),
        None => None,
    }
}

fn merge_payment_data(
    request: &PaymentsRequest,
    intent: PaymentIntent,
    attempt: PaymentAttempt,
    mandate: Option<Mandate>,
    shipping_address_id: Option<String>,
    billing_address_id: Option<String>,
) -> (r: PaymentData)
    requires
        mandate_type_for(*request, intent) is Ok,
        first_of(request.currency, attempt.currency) is Some,
        i64::MIN <= amount_to_charge(*request, attempt) <= i64::MAX,
        resolved_mandate(*request, mandate) is Ok,
    ensures
        r == merged_payment_data(
            *request,
            intent,
            attempt,
            mandate,
            shipping_address_id,
            billing_address_id,
        ),
{
    let mandate_type = match mandate_type_in(request, &intent) {
        Ok(kind) => kind,
        Err(_) => None,
    };
    let setup_mandate = match mandate_type {
        Some(MandateTransactionType::NewMandateTransaction) => request.mandate_data,
        _ => None,
    };
    let currency = match request.currency {
        Some(currency) => currency,
        None => attempt.currency.unwrap(),
    };
    let amount = charge_amount(request, &attempt).unwrap();
    let token = first_text(&request.payment_token, attempt.payment_token.clone());
    let mandate_id = match resolve_mandate(request, mandate) {
        Ok(ids) => ids,
        Err(_) => None,
    };
    let payment_intent = record_intent(
        request,
        intent,
        &attempt,
        shipping_address_id,
        billing_address_id,
    );
    let payment_attempt = record_attempt(request, attempt);
    let surcharge_details = surcharge_in(request, payment_attempt.amount);
    PaymentData {
        payment_intent,
        payment_attempt,
        currency,
        amount,
        mandate_id,
        token,
        setup_mandate,
        customer_acceptance: request.customer_acceptance,
        confirm: request.confirm,
        has_payment_method_data: request.has_payment_method_data,
        surcharge_details,
        creds_identifier: creds_identifier(&request.merchant_connector_details),
    }
}

fn merge_trackers(request: &PaymentsRequest, inputs: TrackerInputs) -> (r: GetTrackerResponse)
    requires
        can_merge(*request, inputs),
    ensures
        r == merged_trackers(*request, inputs, r.merchant_connector_creds),
        is_creds_insert(
            r.merchant_connector_creds,
            request.merchant_connector_details,
            inputs.payment_intent->Some_0.merchant_id@,
        ),
{
    let TrackerInputs {
        auth_flow: _,
        now: _,
        today: _,
        payment_intent,
        payment_attempt,
        mandate,
        business_profile_found: _,
        generated_address_ids,
    } = inputs;
    let intent = payment_intent.unwrap();
    let attempt = payment_attempt.unwrap();
    let merchant_connector_creds = creds_insert(
        &request.merchant_connector_details,
        intent.merchant_id.as_str(),
    );
    let mandate_type = match mandate_type_in(request, &intent) {
        Ok(kind) => kind,
        Err(_) => None,
    };
    let shipping_address = address_action(
        request.has_shipping,
        intent.shipping_address_id.clone(),
        generated_address_ids.0,
    );
    let billing_address = address_action(
        request.has_billing,
        intent.billing_address_id.clone(),
        generated_address_ids.1,
    );
    let payment_method_billing_address = address_action(
        request.has_payment_method_billing,
        attempt.payment_method_billing_address_id.clone(),
        generated_address_ids.2,
    );
    let payment_data = merge_payment_data(
        request,
        intent,
        attempt,
        mandate,
        shipping_address.address_id(),
        billing_address.address_id(),
    );
    let operation = match request.confirm {
        Some(true) => NextOperation::Advance(Verb::Confirm),
        _ => NextOperation::Continue,
    };
    GetTrackerResponse {
        operation,
        payment_data,
        shipping_address,
        billing_address,
        payment_method_billing_address,
        merchant_connector_creds,
        mandate_type,
    }
}

impl PaymentUpdate {
    /// Validates a request to update a payment before anything is loaded or
    /// written.
    pub fn validate_request(&self, request: &PaymentsRequest, merchant_account: &MerchantAccount)
        -> (r: Result<ValidateResult, ApiErrorResponse>)
        ensures
            r == validated(*request, *merchant_account),
    {
        match (&request.customer_id, &request.customer_details_id) {
            (Some(outer), Some(inner)) => {
                if !same_text(outer.as_str(), inner.as_str()) {
                    return Err(
                        invalid_format(
                            Field::CustomerId,
                            ExpectedFormat::SameCustomerIdInBothPlaces,
                        ),
                    );
                }
            },
            _ => {},
        }
        match request.session_expiry {
            Some(expiry) => {
                if expiry < MIN_SESSION_EXPIRY || expiry > MAX_SESSION_EXPIRY {
                    return Err(
                        invalid_format(Field::SessionExpiry, ExpectedFormat::SessionExpiryInRange),
                    );
                }
            },
            None => {},
        }
        let payment_id = match &request.payment_id {
            Some(id) => id,
            None => {
                return Err(ApiErrorResponse::NotFound { subject: Subject::Payment });
            },
        };
        match &request.merchant_id {
            Some(id) => {
                if !same_text(id.as_str(), merchant_account.merchant_id.as_str()) {
                    return Err(
                        invalid_format(
                            Field::MerchantId,
                            ExpectedFormat::MerchantIdOfMerchantAccount,
                        ),
                    );
                }
            },
            None => {},
        }
        if !check_capture_is_covered(
            request.amount,
            request.amount_to_capture,
            request.surcharge_details,
        ) {
            return Err(
                invalid_format(Field::AmountToCapture, ExpectedFormat::AmountToCaptureAtMostAmount),
            );
        }
        if request.payment_method.is_none() && request.has_payment_method_data {
            return Err(invalid_format(Field::PaymentMethod, ExpectedFormat::Present));
        }
        if request.payment_method.is_some() && !request.has_payment_method_data
            && request.payment_token.is_none() && request.recurring_details.is_none() {
            return Err(invalid_format(Field::PaymentMethodData, ExpectedFormat::Present));
        }
        let mandate_type = match (&request.mandate_data, &request.recurring_details) {
            (None, None) => None,
            (Some(_), Some(_)) => {
                return Err(
                    ApiErrorResponse::MandateValidationFailed {
                        reason: MandateFailure::BothRecurringDetailsAndMandateData,
                    },
                );
            },
            (None, Some(_)) => Some(MandateTransactionType::RecurringMandateTransaction),
            (Some(_), None) => Some(MandateTransactionType::NewMandateTransaction),
        };
        match mandate_type {
            Some(kind) => {
                if request.customer_id.is_none() {
                    return Err(invalid_format(Field::CustomerId, ExpectedFormat::Present));
                }
                let accepted = match request.customer_acceptance {
                    Some(_) => true,
                    None => match request.mandate_data {
                        Some(mandate) => mandate.customer_acceptance.is_some(),
                        None => false,
                    },
                };
                match kind {
                    MandateTransactionType::NewMandateTransaction => {
                        if !accepted {
                            return Err(
                                ApiErrorResponse::MandateValidationFailed {
                                    reason: MandateFailure::MissingCustomerAcceptance,
                                },
                            );
                        }
                    },
                    MandateTransactionType::RecurringMandateTransaction => {},
                }
            },
            None => {},
        }
        if request.recurring_details.is_some() && (request.payment_token.is_some()
            || request.mandate_id.is_some()) {
            return Err(
                invalid_format(Field::RecurringDetails, ExpectedFormat::AtMostOneOfAlternatives),
            );
        }
        if payment_id.as_str().unicode_len() > MAX_ID_LENGTH {
            return Err(invalid_format(Field::PaymentId, ExpectedFormat::Identifier));
        }
        let requeue = match request.retry_action {
            Some(RetryAction::Requeue) => true,
            _ => false,
        };
        Ok(
            ValidateResult {
                merchant_id: merchant_account.merchant_id.clone(),
                payment_id: payment_id.clone(),
                storage_scheme: merchant_account.storage_scheme,
                requeue,
            },
        )
    }

    /// Takes over from the request what it says of the attempt's method and
    /// capture.
    pub fn populate_payment_attempt_with_request(
        payment_attempt: &mut PaymentAttempt,
        request: &PaymentsRequest,
    )
        ensures
            *final(payment_attempt) == populated_attempt(*old(payment_attempt), *request),
    {
        match &request.business_sub_label {
            Some(label) => {
                payment_attempt.business_sub_label = Some(label.clone());
            },
            None => {},
        }
        match request.payment_method_type {
            Some(kind) => {
                payment_attempt.payment_method_type = Some(kind);
            },
            None => {},
        }
        match request.payment_experience {
            Some(experience) => {
                payment_attempt.payment_experience = Some(experience);
            },
            None => {},
        }
        match request.amount_to_capture {
            Some(amount) => {
                payment_attempt.amount_to_capture = Some(amount);
            },
            None => {},
        }
        match request.capture_method {
            Some(method) => {
                payment_attempt.capture_method = Some(method);
            },
            None => {},
        }
    }

    /// Takes over from the request what it says of the business and the
    /// texts of the intent.
    pub fn populate_payment_intent_with_request(
        payment_intent: &mut PaymentIntent,
        request: &PaymentsRequest,
    )
        ensures
            *final(payment_intent) == populated_intent(*old(payment_intent), *request),
    {
        match &request.return_url {
            Some(url) => {
                payment_intent.return_url = Some(url.clone());
            },
            None => {},
        }
        payment_intent.business_country = request.business_country;
        payment_intent.business_label = request.business_label.clone();
        match &request.description {
            Some(text) => {
                payment_intent.description = Some(text.clone());
            },
            None => {},
        }
        match &request.statement_descriptor_name {
            Some(text) => {
                payment_intent.statement_descriptor_name = Some(text.clone());
            },
            None => {},
        }
        match &request.statement_descriptor_suffix {
            Some(text) => {
                payment_intent.statement_descriptor_suffix = Some(text.clone());
            },
            None => {},
        }
        match &request.client_secret {
            Some(text) => {
                payment_intent.client_secret = Some(text.clone());
            },
            None => {},
        }
    }

    /// Merges the stored trackers of a payment with the request.
    ///
    /// Every check comes before anything that the caller would write: a
    /// rejection returns an error and nothing else. An intent in one of the
    /// closed statuses is rejected whatever the request says.
    pub fn get_trackers(&self, request: &PaymentsRequest, inputs: TrackerInputs) -> (r: Result<
        GetTrackerResponse,
        ApiErrorResponse,
    >)
        ensures
            is_trackers_for(r, *request, inputs),
            inputs.payment_intent matches Some(intent) && update_is_closed(intent.status) ==> r
                is Err,
    {
        match find_tracker_fault(request, &inputs) {
            Some(e) => Err(e),
            None => {
                proof {
                    lemma_no_fault_can_merge(*request, inputs);
                }
                Ok(merge_trackers(request, inputs))
            },
        }
    }

    /// The guard against blocked payment methods: an update blocks nothing.
    pub fn guard_payment_against_blocklist(&self, _payment_data: &PaymentData) -> (r: Result<
        bool,
        ApiErrorResponse,
    >)
        ensures
            r == Ok::<bool, ApiErrorResponse>(false),
    {
        Ok(false)
    }

    /// The scheduling of a later sync: an update schedules none, whether a
    /// requeue was asked for or not.
    pub fn add_task_to_process_tracker(
        &self,
        _payment_attempt: &PaymentAttempt,
        _requeue: bool,
        _schedule_time: Option<i64>,
    ) -> (r: Result<(), ApiErrorResponse>)
        ensures
            r == Ok::<(), ApiErrorResponse>(()),
    {
        Ok(())
    }

    /// Lays out what an update persists, the attempt first and then the
    /// intent, and the verb that follows. An intent without a profile cannot be
    /// updated.
    pub fn update_trackers(
        &self,
        payment_data: &PaymentData,
        customer_id: Option<String>,
        storage_scheme: MerchantStorageScheme,
    ) -> (r: Result<UpdateTrackerPlan, ApiErrorResponse>)
        ensures
            payment_data.payment_intent.profile_id is None ==> r == Err::<
                UpdateTrackerPlan,
                ApiErrorResponse,
            >(ApiErrorResponse::InternalServerError),
            payment_data.payment_intent.profile_id is Some ==> {
                &&& r matches Ok(plan)
                &&& plan.writes@ == seq![
                    TrackerWrite::Attempt(attempt_update_of(*payment_data, storage_scheme)),
                    TrackerWrite::Intent(intent_update_of(*payment_data, customer_id, storage_scheme)),
                ]
                &&& plan.operation == verb_after(payment_data.confirm)
            },
    {
        let is_payment_method_unavailable = payment_data.payment_attempt.payment_method_id.is_none()
            && payment_data.payment_intent.status == IntentStatus::RequiresPaymentMethod;
        if payment_data.payment_intent.profile_id.is_none() {
            return Err(ApiErrorResponse::InternalServerError);
        }
        let attempt_status = if is_payment_method_unavailable {
            AttemptStatus::PaymentMethodAwaited
        } else {
            AttemptStatus::ConfirmationAwaited
        };
        let (surcharge_amount, tax_amount) = match payment_data.surcharge_details {
            Some(details) => (Some(details.surcharge_amount), Some(details.tax_on_surcharge_amount)),
            None => (None, None),
        };
        let attempt_update = PaymentAttemptUpdate {
            amount: payment_data.amount,
            currency: payment_data.currency,
            status: attempt_status,
            payment_method: payment_data.payment_attempt.payment_method,
            payment_token: payment_data.token.clone(),
            payment_experience: payment_data.payment_attempt.payment_experience,
            payment_method_type: payment_data.payment_attempt.payment_method_type,
            business_sub_label: payment_data.payment_attempt.business_sub_label.clone(),
            amount_to_capture: payment_data.payment_attempt.amount_to_capture,
            capture_method: payment_data.payment_attempt.capture_method,
            surcharge_amount,
            tax_amount,
            updated_by: storage_scheme,
        };
        let not_confirming = match payment_data.confirm {
            Some(flag) => !flag,
            None => false,
        };
        let intent_status = if is_payment_method_unavailable {
            IntentStatus::RequiresPaymentMethod
        } else if not_confirming || payment_data.payment_intent.status
            == IntentStatus::RequiresCustomerAction {
            IntentStatus::RequiresConfirmation
        } else {
            payment_data.payment_intent.status
        };
        let intent = &payment_data.payment_intent;
        let intent_update = PaymentIntentUpdate {
            amount: payment_data.amount,
            currency: payment_data.currency,
            setup_future_usage: intent.setup_future_usage,
            status: intent_status,
            customer_id,
            shipping_address_id: intent.shipping_address_id.clone(),
            billing_address_id: intent.billing_address_id.clone(),
            return_url: intent.return_url.clone(),
            business_country: intent.business_country,
            business_label: intent.business_label.clone(),
            description: intent.description.clone(),
            statement_descriptor_name: intent.statement_descriptor_name.clone(),
            statement_descriptor_suffix: intent.statement_descriptor_suffix.clone(),
            metadata: intent.metadata.clone(),
            session_expiry: intent.session_expiry,
            request_external_three_ds_authentication: intent.request_external_three_ds_authentication,
            updated_by: storage_scheme,
        };
        let operation = match payment_data.confirm {
            Some(true) => NextOperation::Advance(Verb::Confirm),
            _ => NextOperation::Continue,
        };
        let mut writes: Vec<TrackerWrite> = Vec::new();
        writes.push(TrackerWrite::Attempt(attempt_update));
        writes.push(TrackerWrite::Intent(intent_update));
        assert(writes@ =~= seq![
            TrackerWrite::Attempt(attempt_update),
            TrackerWrite::Intent(intent_update),
        ]);
        Ok(UpdateTrackerPlan { writes, operation })
    }
}

/// A payment that failed, succeeded, was partially captured or waits for
/// capture cannot be updated: whatever the request holds and whatever else
/// was loaded, loading the trackers is rejected. Nothing is handed on, so
/// neither record is written. The status is the reason given, unless the
/// one who asks or the card of the request was turned down before the
/// status was looked at.
pub proof fn lemma_update_rejected_in_closed_status(
    outcome: Result<GetTrackerResponse, ApiErrorResponse>,
    request: PaymentsRequest,
    inputs: TrackerInputs,
)
    requires
        inputs.payment_intent matches Some(intent) && update_is_closed(intent.status),
        is_trackers_for(outcome, request, inputs),
    ensures
        outcome is Err,
        may_update(request, inputs.payment_intent->Some_0, inputs.auth_flow) && (request.card
            is Some ==> card_fault(request.card->Some_0, inputs.today) is None) ==> outcome
            == Err::<GetTrackerResponse, ApiErrorResponse>(
            ApiErrorResponse::NotSupported {
                message: Unsupported::UpdateInStatus(inputs.payment_intent->Some_0.status),
            },
        ),
{
}

/// An update never leaves a payment in a closed status, and it changes the
/// recorded amounts only when it confirms.
pub proof fn lemma_update_keeps_payment_open(
    outcome: Result<GetTrackerResponse, ApiErrorResponse>,
    request: PaymentsRequest,
    inputs: TrackerInputs,
)
    requires
        is_trackers_for(outcome, request, inputs),
        outcome is Ok,
    ensures
        ({
            let merged = outcome->Ok_0.payment_data;
            &&& !update_is_closed(merged.payment_intent.status)
            &&& !update_is_closed(intent_status_after_update(merged))
            &&& request.confirm != Some(true) ==> merged.payment_intent.amount
                == inputs.payment_intent->Some_0.amount && merged.payment_attempt.amount
                == inputs.payment_attempt->Some_0.amount
        }),
{
}

/// Only a confirming update hands the payment on to the confirmation; any
/// other stays with the update.
pub proof fn lemma_handoff_only_on_confirm(
    outcome: Result<GetTrackerResponse, ApiErrorResponse>,
    request: PaymentsRequest,
    inputs: TrackerInputs,
)
    requires
        is_trackers_for(outcome, request, inputs),
        outcome is Ok,
    ensures
        outcome->Ok_0.operation == NextOperation::Advance(Verb::Confirm) <==> request.confirm
            == Some(true),
{
}

/// A mandate that a request names and storage does not hold is an error,
/// whichever way the request names it; the mandate id of the request comes
/// before that of its recurring details.
pub proof fn lemma_named_mandate_has_to_resolve(request: PaymentsRequest)
    ensures
        requested_mandate_id(request) is Some ==> resolved_mandate(request, None) == Err::<
            Option<MandateIds>,
            ApiErrorResponse,
        >(ApiErrorResponse::NotFound { subject: Subject::Mandate }),
        requested_mandate_id(request) is None ==> resolved_mandate(request, None) == Ok::<
            Option<MandateIds>,
            ApiErrorResponse,
        >(None),
        request.mandate_id is Some ==> requested_mandate_id(request) == request.mandate_id,
{
}

} // verus!
