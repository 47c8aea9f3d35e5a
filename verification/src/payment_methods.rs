//! What is stored of a customer's payment instrument: the record itself, the
//! mandates that connectors granted on it, and the tokens they issued for it.

use vstd::prelude::*;

use crate::enums::{Currency, PaymentExperience, PaymentMethod, PaymentMethodType};
use crate::text_map::TextMap;

verus! {

/// The mandate that one merchant connector account holds on an instrument.
#[derive(Debug, PartialEq, Eq)]
pub struct PaymentsMandateReferenceRecord {
    pub connector_mandate_id: String,
    pub payment_method_type: Option<PaymentMethodType>,
    pub original_payment_authorized_amount: Option<i64>,
    pub original_payment_authorized_currency: Option<Currency>,
}

/// A mandate record as plain values.
pub struct MandateRecord {
    pub connector_mandate_id: Seq<char>,
    pub payment_method_type: Option<PaymentMethodType>,
    pub original_payment_authorized_amount: Option<i64>,
    pub original_payment_authorized_currency: Option<Currency>,
}

impl View for PaymentsMandateReferenceRecord {
    type V = MandateRecord;

    open spec fn view(&self) -> MandateRecord {
        MandateRecord {
            connector_mandate_id: self.connector_mandate_id@,
            payment_method_type: self.payment_method_type,
            original_payment_authorized_amount: self.original_payment_authorized_amount,
            original_payment_authorized_currency: self.original_payment_authorized_currency,
        }
    }
}

/// The mandates on one instrument, by merchant connector account id.
#[derive(Debug, PartialEq, Eq)]
pub struct PaymentsMandateReference(pub TextMap<PaymentsMandateReferenceRecord>);

impl View for PaymentsMandateReference {
    type V = Map<Seq<char>, MandateRecord>;

    open spec fn view(&self) -> Map<Seq<char>, MandateRecord> {
        self.0@
    }
}

/// The mandate details of a stored record, as far as they could be read.
#[derive(Debug, PartialEq, Eq)]
pub enum StoredMandateDetails {
    /// The record holds none.
    Absent,
    Valid(PaymentsMandateReference),
    /// The record holds something that is no mandate map.
    Malformed,
}

/// The connector tokens of a stored record, by connector name, as far as
/// they could be read.
#[derive(Debug, PartialEq, Eq)]
pub enum StoredMetadata {
    Absent,
    Valid(TextMap<String>),
    Malformed,
}

/// A stored payment method.
#[derive(Debug, PartialEq, Eq)]
pub struct StoredPaymentMethod {
    pub payment_method_id: String,
    /// The id under which the vault holds the instrument, where it differs
    /// from `payment_method_id`.
    pub locker_id: Option<String>,
    pub customer_id: String,
    pub merchant_id: String,
    pub metadata: StoredMetadata,
    pub connector_mandate_details: StoredMandateDetails,
}

/// Card details as a request carries them.
#[derive(Debug, PartialEq, Eq)]
pub struct CardDetail {
    pub card_number: String,
    pub card_exp_month: String,
    pub card_exp_year: String,
    pub card_holder_name: Option<String>,
    pub nick_name: Option<String>,
    pub card_issuing_country: Option<String>,
    pub card_network: Option<String>,
    pub card_issuer: Option<String>,
    pub card_type: Option<String>,
}

impl Clone for CardDetail {
    fn clone(&self) -> (r: Self)
        ensures
            r == *self,
    {
        CardDetail {
            card_number: self.card_number.clone(),
            card_exp_month: self.card_exp_month.clone(),
            card_exp_year: self.card_exp_year.clone(),
            card_holder_name: self.card_holder_name.clone(),
            nick_name: self.nick_name.clone(),
            card_issuing_country: self.card_issuing_country.clone(),
            card_network: self.card_network.clone(),
            card_issuer: self.card_issuer.clone(),
            card_type: self.card_type.clone(),
        }
    }
}

/// Card details as they are shown and stored: never the whole number unless
/// the vault holds the card.
#[derive(Debug, PartialEq, Eq)]
pub struct CardDetailFromLocker {
    pub scheme: Option<String>,
    pub issuer_country: Option<String>,
    pub last4_digits: Option<String>,
    pub card_number: Option<String>,
    pub expiry_month: Option<String>,
    pub expiry_year: Option<String>,
    pub card_token: Option<String>,
    pub card_holder_name: Option<String>,
    pub card_fingerprint: Option<String>,
    pub nick_name: Option<String>,
    pub card_network: Option<String>,
    pub card_isin: Option<String>,
    pub card_issuer: Option<String>,
    pub card_type: Option<String>,
    pub saved_to_locker: bool,
}

/// A request to store a payment method.
#[derive(Debug, PartialEq, Eq)]
pub struct PaymentMethodCreate {
    pub payment_method: Option<PaymentMethod>,
    pub payment_method_type: Option<PaymentMethodType>,
    pub card: Option<CardDetail>,
    pub customer_id: Option<String>,
}

/// What storing a payment method answered.
#[derive(Debug, PartialEq, Eq)]
pub struct PaymentMethodResponse {
    pub merchant_id: String,
    pub customer_id: Option<String>,
    pub payment_method_id: String,
    pub payment_method: Option<PaymentMethod>,
    pub payment_method_type: Option<PaymentMethodType>,
    pub card: Option<CardDetailFromLocker>,
    pub recurring_enabled: bool,
    pub installment_payment_enabled: bool,
    pub payment_experience: Option<Vec<PaymentExperience>>,
    /// Seconds since the epoch.
    pub created: Option<i64>,
    pub last_used_at: Option<i64>,
}

/// The vault's verdict on an instrument that it was asked to store.
#[derive(Clone, Copy, Debug, PartialEq, Eq, Structural)]
pub enum DataDuplicationCheck {
    /// The vault holds this very instrument already.
    Duplicated,
    /// The vault holds the instrument with other details.
    MetaDataChanged,
}

/// How the customer consented.
#[derive(Clone, Copy, Debug, PartialEq, Eq, Structural)]
pub enum AcceptanceType {
    Online,
    Offline,
}

/// The customer's consent to later charges.
#[derive(Clone, Copy, Debug, PartialEq, Eq, Structural)]
pub struct CustomerAcceptance {
    pub acceptance_type: AcceptanceType,
    /// Seconds since the epoch.
    pub accepted_at: Option<i64>,
}

/// The last four characters of a card number, or all of a shorter one.
pub open spec fn last4_of(number: Seq<char>) -> Seq<char> {
    if number.len() <= 4 {
        number
    } else {
        number.subrange(number.len() - 4, number.len() as int)
    }
}

/// The first six characters of a card number, or all of a shorter one.
pub open spec fn isin_of(number: Seq<char>) -> Seq<char> {
    if number.len() <= 6 {
        number
    } else {
        number.subrange(0, 6)
    }
}

} // verus!
