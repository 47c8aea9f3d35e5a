//! The records and requests of the payment pipeline, as far as the update
//! operation reads and writes them.

use vstd::prelude::*;

use crate::enums::{
    AttemptStatus, CaptureMethod, CountryAlpha2, Currency, FutureUsage, IntentStatus,
    MerchantStorageScheme, NextOperation, PaymentExperience, PaymentMethod, PaymentMethodType,
    RetryAction,
};
use crate::payment_methods::CustomerAcceptance;
use crate::router_data::MandateData;

verus! {

/// The first of two optional values that is there.
pub open spec fn first_of<T>(preferred: Option<T>, fallback: Option<T>) -> Option<T> {
    match preferred {
        Some(_) => preferred,
        None => fallback,
    }
}

/// A merchant-scoped logical transaction.
#[derive(Debug, PartialEq, Eq)]
pub struct PaymentIntent {
    pub payment_id: String,
    pub merchant_id: String,
    pub status: IntentStatus,
    pub amount: i64,
    pub currency: Option<Currency>,
    pub customer_id: Option<String>,
    pub description: Option<String>,
    pub return_url: Option<String>,
    pub metadata: Option<String>,
    pub statement_descriptor_name: Option<String>,
    pub statement_descriptor_suffix: Option<String>,
    pub setup_future_usage: Option<FutureUsage>,
    pub client_secret: Option<String>,
    pub active_attempt_id: String,
    pub business_country: Option<CountryAlpha2>,
    pub business_label: Option<String>,
    pub shipping_address_id: Option<String>,
    pub billing_address_id: Option<String>,
    pub profile_id: Option<String>,
    /// Seconds since the epoch.
    pub created_at: i64,
    /// Seconds since the epoch.
    pub session_expiry: Option<i64>,
    pub request_external_three_ds_authentication: Option<bool>,
}

/// One execution of an intent against one connector.
#[derive(Debug, PartialEq, Eq)]
pub struct PaymentAttempt {
    pub attempt_id: String,
    pub payment_id: String,
    pub merchant_id: String,
    pub status: AttemptStatus,
    pub amount: i64,
    pub currency: Option<Currency>,
    pub connector: Option<String>,
    pub payment_method_id: Option<String>,
    pub payment_method: Option<PaymentMethod>,
    pub payment_method_type: Option<PaymentMethodType>,
    pub payment_experience: Option<PaymentExperience>,
    pub capture_method: Option<CaptureMethod>,
    pub amount_to_capture: Option<i64>,
    pub business_sub_label: Option<String>,
    pub payment_token: Option<String>,
    pub mandate_details: Option<MandateData>,
    pub surcharge_amount: Option<i64>,
    pub tax_amount: Option<i64>,
    pub payment_method_billing_address_id: Option<String>,
}

/// A surcharge as a request states it.
#[derive(Clone, Copy, Debug, PartialEq, Eq, Structural)]
pub struct RequestSurchargeDetails {
    pub surcharge_amount: i64,
    pub tax_amount: Option<i64>,
}

impl RequestSurchargeDetails {
    /// Surcharge and the tax on it, together.
    pub open spec fn total(self) -> int {
        self.surcharge_amount + match self.tax_amount {
            Some(tax) => tax as int,
            None => 0,
        }
    }
}

/// The surcharge that a payment carries.
#[derive(Clone, Copy, Debug, PartialEq, Eq, Structural)]
pub struct SurchargeDetails {
    pub original_amount: i64,
    pub surcharge_amount: i64,
    pub tax_on_surcharge_amount: i64,
}

/// What a request says of a card, as far as an update checks it.
#[derive(Debug, PartialEq, Eq)]
pub struct RequestCard {
    pub card_cvc: String,
    pub card_exp_month: u8,
    /// The year in full, or its last two digits.
    pub card_exp_year: u16,
}

/// Credentials of a connector that a request brings along, to be kept
/// under an identifier of the request's choosing.
#[derive(Debug, PartialEq, Eq)]
pub struct MerchantConnectorDetailsWrap {
    pub creds_identifier: String,
    pub encoded_data: Option<String>,
}

/// A configuration to store under a key that holds none yet.
#[derive(Debug, PartialEq, Eq)]
pub struct ConfigInsert {
    pub key: String,
    pub config: String,
}

/// A month of the calendar.
#[derive(Clone, Copy, Debug, PartialEq, Eq, Structural)]
pub struct YearMonth {
    pub year: u16,
    pub month: u8,
}

/// A stored mandate or payment method that a request pays with.
#[derive(Debug, PartialEq, Eq)]
pub enum RecurringDetails {
    MandateId(String),
    PaymentMethodId(String),
}

/// Who sent the request.
#[derive(Clone, Copy, Debug, PartialEq, Eq, Structural)]
pub enum AuthFlow {
    Merchant,
    Client,
}

/// Whether a payment sets up a mandate or uses one.
#[derive(Clone, Copy, Debug, PartialEq, Eq, Structural)]
pub enum MandateTransactionType {
    NewMandateTransaction,
    RecurringMandateTransaction,
}

/// A request to create, update or confirm a payment, as far as the update
/// operation reads it. Of the payment method data only the card is read;
/// of the addresses only their presence counts.
#[derive(Debug, PartialEq, Eq)]
pub struct PaymentsRequest {
    pub payment_id: Option<String>,
    pub merchant_id: Option<String>,
    pub amount: Option<i64>,
    pub currency: Option<Currency>,
    pub amount_to_capture: Option<i64>,
    pub capture_method: Option<CaptureMethod>,
    pub confirm: Option<bool>,
    pub customer_id: Option<String>,
    /// The id inside the customer details of the request.
    pub customer_details_id: Option<String>,
    pub off_session: Option<bool>,
    pub description: Option<String>,
    pub return_url: Option<String>,
    pub setup_future_usage: Option<FutureUsage>,
    pub has_payment_method_data: bool,
    /// The card, where the payment method data is one.
    pub card: Option<RequestCard>,
    pub has_payment_method_billing: bool,
    pub payment_method: Option<PaymentMethod>,
    pub payment_method_type: Option<PaymentMethodType>,
    pub payment_experience: Option<PaymentExperience>,
    pub payment_token: Option<String>,
    pub has_shipping: bool,
    pub has_billing: bool,
    pub statement_descriptor_name: Option<String>,
    pub statement_descriptor_suffix: Option<String>,
    pub client_secret: Option<String>,
    pub mandate_data: Option<MandateData>,
    pub customer_acceptance: Option<CustomerAcceptance>,
    pub mandate_id: Option<String>,
    pub recurring_details: Option<RecurringDetails>,
    pub metadata: Option<String>,
    pub business_country: Option<CountryAlpha2>,
    pub business_label: Option<String>,
    pub business_sub_label: Option<String>,
    pub retry_action: Option<RetryAction>,
    pub surcharge_details: Option<RequestSurchargeDetails>,
    /// Seconds from now.
    pub session_expiry: Option<u32>,
    pub request_external_three_ds_authentication: Option<bool>,
    pub merchant_connector_details: Option<MerchantConnectorDetailsWrap>,
}

/// The merchant on whose behalf the pipeline runs.
#[derive(Debug, PartialEq, Eq)]
pub struct MerchantAccount {
    pub merchant_id: String,
    pub storage_scheme: MerchantStorageScheme,
}

/// A stored mandate.
#[derive(Debug, PartialEq, Eq)]
pub struct Mandate {
    pub mandate_id: String,
    pub customer_id: String,
    pub network_transaction_id: Option<String>,
    pub connector_mandate_ids: StoredConnectorMandate,
}

/// The connector's reference of a stored mandate, as far as it could be
/// read.
#[derive(Debug, PartialEq, Eq)]
pub enum StoredConnectorMandate {
    Absent,
    Valid { connector_mandate_id: Option<String>, payment_method_id: Option<String> },
    Malformed,
}

/// How a mandate is referred to at the connector.
#[derive(Debug, PartialEq, Eq)]
pub enum MandateReferenceId {
    ConnectorMandateId { connector_mandate_id: Option<String>, payment_method_id: Option<String> },
    NetworkMandateId(String),
}

/// The mandate that a payment uses.
#[derive(Debug, PartialEq, Eq)]
pub struct MandateIds {
    pub mandate_id: Option<String>,
    pub mandate_reference_id: Option<MandateReferenceId>,
}

/// What has to happen to one address of a payment.
#[derive(Debug, PartialEq, Eq)]
pub enum AddressAction {
    /// There is no address and none was given.
    Nothing,
    /// The stored address stays as it is.
    Keep { address_id: String },
    /// The stored address takes the values of the request.
    Update { address_id: String },
    /// The address of the request is stored under a new id.
    Create { address_id: String },
}

impl AddressAction {
    /// The id of the address afterwards.
    pub open spec fn spec_address_id(&self) -> Option<String> {
        match self {
            AddressAction::Nothing => None,
            AddressAction::Keep { address_id } => Some(*address_id),
            AddressAction::Update { address_id } => Some(*address_id),
            AddressAction::Create { address_id } => Some(*address_id),
        }
    }

    pub fn address_id(&self) -> (r: Option<String>)
        ensures
            r == self.spec_address_id(),
    {
        match self {
            AddressAction::Nothing => None,
            AddressAction::Keep { address_id } => Some(address_id.clone()),
            AddressAction::Update { address_id } => Some(address_id.clone()),
            AddressAction::Create { address_id } => Some(address_id.clone()),
        }
    }
}

/// What the pipeline carries from stage to stage.
#[derive(Debug, PartialEq, Eq)]
pub struct PaymentData {
    pub payment_intent: PaymentIntent,
    pub payment_attempt: PaymentAttempt,
    pub currency: Currency,
    pub amount: i64,
    pub mandate_id: Option<MandateIds>,
    pub token: Option<String>,
    pub setup_mandate: Option<MandateData>,
    pub customer_acceptance: Option<CustomerAcceptance>,
    pub confirm: Option<bool>,
    pub has_payment_method_data: bool,
    pub surcharge_details: Option<SurchargeDetails>,
    pub creds_identifier: Option<String>,
}

/// What validating a request hands to the next stage.
#[derive(Debug, PartialEq, Eq)]
pub struct ValidateResult {
    pub merchant_id: String,
    pub payment_id: String,
    pub storage_scheme: MerchantStorageScheme,
    /// The caller asked for a retry that goes back into the queue.
    pub requeue: bool,
}

/// What loading the trackers of a payment hands to the next stage: the data
/// to work on, the addresses and the connector credentials to write, and
/// the verb that goes on.
#[derive(Debug, PartialEq, Eq)]
pub struct GetTrackerResponse {
    pub operation: NextOperation,
    pub payment_data: PaymentData,
    pub shipping_address: AddressAction,
    pub billing_address: AddressAction,
    pub payment_method_billing_address: AddressAction,
    /// The credentials that the request brought along, to be stored unless
    /// the key holds some already.
    pub merchant_connector_creds: Option<ConfigInsert>,
    pub mandate_type: Option<MandateTransactionType>,
}

/// The changes to an attempt that the update operation persists.
#[derive(Debug, PartialEq, Eq)]
pub struct PaymentAttemptUpdate {
    pub amount: i64,
    pub currency: Currency,
    pub status: AttemptStatus,
    pub payment_method: Option<PaymentMethod>,
    pub payment_token: Option<String>,
    pub payment_experience: Option<PaymentExperience>,
    pub payment_method_type: Option<PaymentMethodType>,
    pub business_sub_label: Option<String>,
    pub amount_to_capture: Option<i64>,
    pub capture_method: Option<CaptureMethod>,
    pub surcharge_amount: Option<i64>,
    pub tax_amount: Option<i64>,
    pub updated_by: MerchantStorageScheme,
}

/// The changes to an intent that the update operation persists.
#[derive(Debug, PartialEq, Eq)]
pub struct PaymentIntentUpdate {
    pub amount: i64,
    pub currency: Currency,
    pub setup_future_usage: Option<FutureUsage>,
    pub status: IntentStatus,
    pub customer_id: Option<String>,
    pub shipping_address_id: Option<String>,
    pub billing_address_id: Option<String>,
    pub return_url: Option<String>,
    pub business_country: Option<CountryAlpha2>,
    pub business_label: Option<String>,
    pub description: Option<String>,
    pub statement_descriptor_name: Option<String>,
    pub statement_descriptor_suffix: Option<String>,
    pub metadata: Option<String>,
    pub session_expiry: Option<i64>,
    pub request_external_three_ds_authentication: Option<bool>,
    pub updated_by: MerchantStorageScheme,
}

} // verus!
