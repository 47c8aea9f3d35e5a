//! Reconciliation of the customer's payment instrument after a charge that
//! captured consent: whether and how the instrument is stored, and how the
//! mandates and connector tokens on it are merged.

use vstd::prelude::*;
use vstd::string::StrSliceExecFns;

use crate::enums::{
    AttemptStatus, Currency, FutureUsage, PaymentExperience, PaymentMethod, PaymentMethodStatus,
    PaymentMethodType,
};
use crate::errors::{ApiErrorResponse, ExpectedFormat, Field, Unsupported};
use crate::payment_methods::{
    isin_of, last4_of, CardDetail, CardDetailFromLocker, CustomerAcceptance,
    DataDuplicationCheck, MandateRecord, PaymentMethodCreate, PaymentMethodResponse,
    PaymentsMandateReference, PaymentsMandateReferenceRecord, StoredMandateDetails,
    StoredMetadata,
};
use crate::router_data::{
    clone_response, clone_token, ErrorResponse, PaymentMethodToken, PaymentsAuthorizeData,
    PaymentsResponseData, RouterData,
};
use crate::text_map::TextMap;

verus! {

/// The mandate record that a charge of the given type, amount and currency
/// leaves behind.
pub open spec fn mandate_record(
    connector_mandate_id: Seq<char>,
    payment_method_type: Option<PaymentMethodType>,
    authorized_amount: Option<i64>,
    authorized_currency: Option<Currency>,
) -> MandateRecord {
    MandateRecord {
        connector_mandate_id,
        payment_method_type,
        original_payment_authorized_amount: authorized_amount,
        original_payment_authorized_currency: authorized_currency,
    }
}

/// The mandate map of an instrument after a charge through the merchant
/// connector account `mca_id`: what was stored, with the entry of that
/// account set to `record`.
pub open spec fn mandates_after_charge(
    stored: Option<Map<Seq<char>, MandateRecord>>,
    mca_id: Seq<char>,
    record: MandateRecord,
) -> Map<Seq<char>, MandateRecord> {
    match stored {
        Some(mandates) => mandates.insert(mca_id, record),
        None => Map::<Seq<char>, MandateRecord>::empty().insert(mca_id, record),
    }
}

/// Charges through two merchant connector accounts leave both mandates on
/// the instrument, neither overwriting the other, and touch no third one.
pub proof fn lemma_mandates_of_two_accounts_coexist(
    stored: Option<Map<Seq<char>, MandateRecord>>,
    first: Seq<char>,
    first_record: MandateRecord,
    second: Seq<char>,
    second_record: MandateRecord,
)
    requires
        first != second,
    ensures
        ({
            let after = mandates_after_charge(
                Some(mandates_after_charge(stored, first, first_record)),
                second,
                second_record,
            );
            &&& after.contains_key(first) && after[first] == first_record
            &&& after.contains_key(second) && after[second] == second_record
            &&& forall|other: Seq<char>|
                other != first && other != second ==> (after.contains_key(other) <==> (stored
                    matches Some(mandates) && mandates.contains_key(other)))
            &&& forall|other: Seq<char>|
                other != first && other != second && after.contains_key(other) ==> after[other]
                    == stored->Some_0[other]
        }),
{
}

/// A later charge through the same merchant connector account replaces that
/// account's mandate.
pub proof fn lemma_later_mandate_replaces_earlier(
    stored: Option<Map<Seq<char>, MandateRecord>>,
    mca_id: Seq<char>,
    earlier: MandateRecord,
    later: MandateRecord,
)
    ensures
        mandates_after_charge(Some(mandates_after_charge(stored, mca_id, earlier)), mca_id, later)
            == mandates_after_charge(stored, mca_id, later),
{
    assert(mandates_after_charge(
        Some(mandates_after_charge(stored, mca_id, earlier)),
        mca_id,
        later,
    ) =~= mandates_after_charge(stored, mca_id, later));
}

/// The mandate map of an instrument that had none: one entry for the
/// merchant connector account, where both its id and the connector's mandate
/// id are known, and nothing otherwise.
pub fn add_connector_mandate_details_in_payment_method(
    payment_method_type: Option<PaymentMethodType>,
    authorized_amount: Option<i64>,
    authorized_currency: Option<Currency>,
    merchant_connector_id: Option<String>,
    connector_mandate_id: Option<String>,
) -> (r: Option<PaymentsMandateReference>)
    ensures
        match (merchant_connector_id, connector_mandate_id) {
            (Some(mca_id), Some(mandate_id)) => r matches Some(reference) && reference@
                == mandates_after_charge(
                None,
                mca_id@,
                mandate_record(
                    mandate_id@,
                    payment_method_type,
                    authorized_amount,
                    authorized_currency,
                ),
            ),
            _ => r is None,
        },
{
    match (merchant_connector_id, connector_mandate_id) {
        (Some(mca_id), Some(mandate_id)) => {
            let mut mandate_details: TextMap<PaymentsMandateReferenceRecord> = TextMap::new();
            mandate_details.insert(
                mca_id,
                PaymentsMandateReferenceRecord {
                    connector_mandate_id: mandate_id,
                    payment_method_type,
                    original_payment_authorized_amount: authorized_amount,
                    original_payment_authorized_currency: authorized_currency,
                },
            );
            Some(PaymentsMandateReference(mandate_details))
        },
        _ => None,
    }
}

/// The mandate map of an instrument after a charge through one merchant
/// connector account.
///
/// A stored map keeps every entry but that of this account, which is set to
/// the new record; without a stored map the result is that of
/// [`add_connector_mandate_details_in_payment_method`]. A stored value that
/// is no mandate map is an internal error.
pub fn update_connector_mandate_details_in_payment_method(
    stored: StoredMandateDetails,
    payment_method_type: Option<PaymentMethodType>,
    authorized_amount: Option<i64>,
    authorized_currency: Option<Currency>,
    merchant_connector_id: Option<String>,
    connector_mandate_id: Option<String>,
) -> (r: Result<Option<PaymentsMandateReference>, ApiErrorResponse>)
    ensures
        match stored {
            StoredMandateDetails::Malformed => r == Err::<
                Option<PaymentsMandateReference>,
                ApiErrorResponse,
            >(ApiErrorResponse::InternalServerError),
            StoredMandateDetails::Absent => match (merchant_connector_id, connector_mandate_id) {
                (Some(mca_id), Some(mandate_id)) => r matches Ok(Some(reference)) && reference@
                    == mandates_after_charge(
                    None,
                    mca_id@,
                    mandate_record(
                        mandate_id@,
                        payment_method_type,
                        authorized_amount,
                        authorized_currency,
                    ),
                ),
                _ => r matches Ok(None),
            },
            StoredMandateDetails::Valid(old_reference) => match (
                merchant_connector_id,
                connector_mandate_id,
            ) {
                (Some(mca_id), Some(mandate_id)) => r matches Ok(Some(reference)) && reference@
                    == mandates_after_charge(
                    Some(old_reference@),
                    mca_id@,
                    mandate_record(
                        mandate_id@,
                        payment_method_type,
                        authorized_amount,
                        authorized_currency,
                    ),
                ),
                _ => r matches Ok(None),
            },
        },
{
    match stored {
        StoredMandateDetails::Malformed => Err(ApiErrorResponse::InternalServerError),
        StoredMandateDetails::Absent => Ok(
            add_connector_mandate_details_in_payment_method(
                payment_method_type,
                authorized_amount,
                authorized_currency,
                merchant_connector_id,
                connector_mandate_id,
            ),
        ),
        StoredMandateDetails::Valid(reference) => {
            match (merchant_connector_id, connector_mandate_id) {
                (Some(mca_id), Some(mandate_id)) => {
                    let mut mandate_details = reference.0;
                    mandate_details.insert(
                        mca_id,
                        PaymentsMandateReferenceRecord {
                            connector_mandate_id: mandate_id,
                            payment_method_type,
                            original_payment_authorized_amount: authorized_amount,
                            original_payment_authorized_currency: authorized_currency,
                        },
                    );
                    Ok(Some(PaymentsMandateReference(mandate_details)))
                },
                _ => Ok(None),
            }
        },
    }
}

/// Whether the stored tokens already hold `token` for `connector`.
pub open spec fn token_is_current(
    tokens: Map<Seq<char>, Seq<char>>,
    connector: Seq<char>,
    token: Seq<char>,
) -> bool {
    tokens.contains_key(connector) && tokens[connector] == token
}

/// The connector tokens to store after a charge, if they have to change.
///
/// With a token from the connector that the stored tokens do not hold yet
/// for it, the result is the stored tokens with that one set, every other
/// connector's token kept. Without a token, or with the token that is stored
/// already, nothing has to change. Stored metadata that is no token map is an
/// internal error.
pub fn create_payment_method_metadata(
    metadata: StoredMetadata,
    connector_token: Option<(String, String)>,
) -> (r: Result<Option<TextMap<String>>, ApiErrorResponse>)
    ensures
        match metadata {
            StoredMetadata::Malformed => r == Err::<Option<TextMap<String>>, ApiErrorResponse>(
                ApiErrorResponse::InternalServerError,
            ),
            StoredMetadata::Absent => match connector_token {
                Some(pair) => r matches Ok(Some(tokens)) && tokens@ == Map::<
                    Seq<char>,
                    Seq<char>,
                >::empty().insert(pair.0@, pair.1@),
                None => r matches Ok(None),
            },
            StoredMetadata::Valid(stored) => match connector_token {
                Some(pair) => if token_is_current(stored@, pair.0@, pair.1@) {
                    r matches Ok(None)
                } else {
                    r matches Ok(Some(tokens)) && tokens@ == stored@.insert(pair.0@, pair.1@)
                },
                None => r matches Ok(None),
            },
        },
{
    let mut meta = match metadata {
        StoredMetadata::Malformed => {
            return Err(ApiErrorResponse::InternalServerError);
        },
        StoredMetadata::Absent => TextMap::new(),
        StoredMetadata::Valid(stored) => stored,
    };
    match connector_token {
        None => Ok(None),
        Some(pair) => {
            let (connector, token) = pair;
            let current = match meta.get(connector.as_str()) {
                Some(stored_token) => crate::text::same_text(stored_token.as_str(), token.as_str()),
                None => false,
            };
            if current {
                Ok(None)
            } else {
                meta.insert(connector, token);
                Ok(Some(meta))
            }
        },
    }
}

/// The last four characters of a card number.
pub fn get_last4(card_number: &str) -> (r: String)
    ensures
        r@ == last4_of(card_number@),
{
    let n = card_number.unicode_len();
    if n <= 4 {
        card_number.to_owned()
    } else {
        card_number.substring_char(n - 4, n).to_owned()
    }
}

/// The issuer identification number of a card: its first six characters.
pub fn get_card_isin(card_number: &str) -> (r: String)
    ensures
        r@ == isin_of(card_number@),
{
    let n = card_number.unicode_len();
    if n <= 6 {
        card_number.to_owned()
    } else {
        card_number.substring_char(0, 6).to_owned()
    }
}

/// The response for a payment method that is recorded without the vault,
/// under `payment_method_id` and as of `now`.
pub open spec fn local_response_matches(
    response: PaymentMethodResponse,
    merchant_id: Seq<char>,
    request: PaymentMethodCreate,
    customer_id: String,
    payment_method_id: String,
    now: i64,
) -> bool {
    &&& response.merchant_id@ == merchant_id
    &&& response.customer_id == Some(customer_id)
    &&& response.payment_method_id == payment_method_id
    &&& response.payment_method == request.payment_method
    &&& response.payment_method_type == request.payment_method_type
    &&& response.recurring_enabled == false
    &&& response.installment_payment_enabled == false
    &&& response.payment_experience matches Some(experience) && experience@
        == seq![PaymentExperience::RedirectToUrl]
    &&& response.created == Some(now)
    &&& response.last_used_at == Some(now)
}

/// The card of a payment method that is recorded without the vault: the
/// number itself is left out, only its last four characters and its issuer
/// identification number are kept.
pub open spec fn local_card_matches(shown: CardDetailFromLocker, card: CardDetail) -> bool {
    &&& shown.scheme is None
    &&& shown.issuer_country == card.card_issuing_country
    &&& shown.last4_digits matches Some(digits) && digits@ == last4_of(card.card_number@)
    &&& shown.card_number is None
    &&& shown.expiry_month == Some(card.card_exp_month)
    &&& shown.expiry_year == Some(card.card_exp_year)
    &&& shown.card_token is None
    &&& shown.card_holder_name == card.card_holder_name
    &&& shown.card_fingerprint is None
    &&& shown.nick_name is None
    &&& shown.card_isin matches Some(isin) && isin@ == isin_of(card.card_number@)
    &&& shown.card_issuer == card.card_issuer
    &&& shown.card_network == card.card_network
    &&& shown.card_type == card.card_type
    &&& shown.saved_to_locker == false
}

fn redirect_only() -> (r: Vec<PaymentExperience>)
    ensures
        r@ == seq![PaymentExperience::RedirectToUrl],
{
    let mut experience: Vec<PaymentExperience> = Vec::new();
    experience.push(PaymentExperience::RedirectToUrl);
    assert(experience@ =~= seq![PaymentExperience::RedirectToUrl]);
    experience
}

/// Records a payment method without calling the vault.
///
/// The request must name the customer. The answer holds what the request
/// says of the method; of a card it keeps what [`local_card_matches`] says,
/// and it is never a duplicate of anything.
pub fn skip_saving_card_in_locker(
    merchant_id: &str,
    payment_method_request: PaymentMethodCreate,
    payment_method_id: String,
    now: i64,
) -> (r: Result<(PaymentMethodResponse, Option<DataDuplicationCheck>), ApiErrorResponse>)
    ensures
        match payment_method_request.customer_id {
            None => r == Err::<
                (PaymentMethodResponse, Option<DataDuplicationCheck>),
                ApiErrorResponse,
            >(
                ApiErrorResponse::InvalidDataFormat {
                    field_name: Field::CustomerId,
                    expected_format: ExpectedFormat::Present,
                },
            ),
            Some(customer_id) => r matches Ok(answer) && answer.1 is None
                && local_response_matches(
                answer.0,
                merchant_id@,
                payment_method_request,
                customer_id,
                payment_method_id,
                now,
            ) && match payment_method_request.card {
                Some(card) => answer.0.card matches Some(shown) && local_card_matches(shown, card),
                None => answer.0.card is None,
            },
        },
{
    let PaymentMethodCreate { payment_method, payment_method_type, card, customer_id } =
        payment_method_request;
    let customer_id = match customer_id {
        Some(id) => id,
        None => {
            return Err(
                ApiErrorResponse::InvalidDataFormat {
                    field_name: Field::CustomerId,
                    expected_format: ExpectedFormat::Present,
                },
            );
        },
    };
    let card_detail = match card {
        Some(card) => {
            let last4_digits = get_last4(card.card_number.as_str());
            let card_isin = get_card_isin(card.card_number.as_str());
            Some(
                CardDetailFromLocker {
                    scheme: None,
                    issuer_country: card.card_issuing_country,
                    last4_digits: Some(last4_digits),
                    card_number: None,
                    expiry_month: Some(card.card_exp_month),
                    expiry_year: Some(card.card_exp_year),
                    card_token: None,
                    card_holder_name: card.card_holder_name,
                    card_fingerprint: None,
                    nick_name: None,
                    card_isin: Some(card_isin),
                    card_issuer: card.card_issuer,
                    card_network: card.card_network,
                    card_type: card.card_type,
                    saved_to_locker: false,
                },
            )
        },
        None => None,
    };
    let pm_resp = PaymentMethodResponse {
        merchant_id: merchant_id.to_owned(),
        customer_id: Some(customer_id),
        payment_method_id,
        payment_method,
        payment_method_type,
        card: card_detail,
        recurring_enabled: false,
        installment_payment_enabled: false,
        payment_experience: Some(redirect_only()),
        created: Some(now),
        last_used_at: Some(now),
    };
    Ok((pm_resp, None))
}

/// What a connector call left behind for the reconciliation.
#[derive(Debug, PartialEq, Eq)]
pub struct SavePaymentMethodData {
    pub request: PaymentsAuthorizeData,
    pub response: Result<PaymentsResponseData, ErrorResponse>,
    pub payment_method_token: Option<PaymentMethodToken>,
    pub payment_method: PaymentMethod,
    pub attempt_status: AttemptStatus,
}

impl SavePaymentMethodData {
    /// Takes over from a finished connector call what the reconciliation
    /// reads of it.
    pub fn from(router_data: &RouterData) -> (r: Self)
        ensures
            r.request == router_data.request,
            r.response == router_data.response,
            r.payment_method_token == router_data.payment_method_token,
            r.payment_method == router_data.payment_method,
            r.attempt_status == router_data.status,
    {
        SavePaymentMethodData {
            request: router_data.request.clone(),
            response: clone_response(&router_data.response),
            payment_method_token: clone_token(&router_data.payment_method_token),
            payment_method: router_data.payment_method,
            attempt_status: router_data.status,
        }
    }
}

/// Everything that one reconciliation is given: the finished call, the
/// merchant's settings as a snapshot, and the identifiers that were drawn for
/// it beforehand.
#[derive(Debug, PartialEq, Eq)]
pub struct SaveContext {
    pub connector_name: String,
    pub merchant_connector_id: Option<String>,
    pub data: SavePaymentMethodData,
    pub customer_id: Option<String>,
    pub merchant_id: String,
    pub payment_method_type: Option<PaymentMethodType>,
    pub amount: Option<i64>,
    pub currency: Option<Currency>,
    pub billing_name: Option<String>,
    pub is_connector_agnostic_mit_enabled: Option<bool>,
    /// Whether the connector's tokens are long lived and so worth storing.
    pub long_lived_token: bool,
    /// Whether instruments go to the vault.
    pub locker_enabled: bool,
    /// A fresh id for an instrument that is recorded without the vault.
    pub generated_locker_id: String,
    /// A fresh id for a record that has to be created.
    pub generated_payment_method_id: String,
    /// Seconds since the epoch.
    pub now: i64,
}

impl SaveContext {
    /// The network transaction id to store: the one of the answer, where the
    /// profile opted into connector-agnostic merchant-initiated transactions
    /// and the payment was set up for off-session use.
    pub open spec fn spec_network_transaction_id(&self) -> Option<String> {
        match self.data.response {
            Ok(PaymentsResponseData::TransactionResponse { network_txn_id: Some(id), .. }) => {
                if self.is_connector_agnostic_mit_enabled == Some(true)
                    && self.data.request.setup_future_usage == Some(FutureUsage::OffSession) {
                    Some(id)
                } else {
                    None
                }
            },
            _ => None,
        }
    }

    pub fn network_transaction_id(&self) -> (r: Option<String>)
        ensures
            r == self.spec_network_transaction_id(),
    {
        match &self.data.response {
            Ok(PaymentsResponseData::TransactionResponse { network_txn_id: Some(id), .. }) => {
                let opted_in = match self.is_connector_agnostic_mit_enabled {
                    Some(flag) => flag,
                    None => false,
                };
                let off_session = match self.data.request.setup_future_usage {
                    Some(FutureUsage::OffSession) => true,
                    _ => false,
                };
                if opted_in && off_session {
                    Some(id.clone())
                } else {
                    None
                }
            },
            _ => None,
        }
    }

    /// The connector's token to store with the instrument. Only a long-lived
    /// token is stored; then there has to be one, and it cannot be an Apple
    /// Pay decrypt token.
    pub open spec fn spec_connector_token(&self) -> Result<
        Option<(String, String)>,
        ApiErrorResponse,
    > {
        if self.long_lived_token {
            match self.data.payment_method_token {
                None => Err(
                    ApiErrorResponse::InvalidDataFormat {
                        field_name: Field::PaymentToken,
                        expected_format: ExpectedFormat::Present,
                    },
                ),
                Some(PaymentMethodToken::Token(token)) => Ok(Some((self.connector_name, token))),
                Some(PaymentMethodToken::ApplePayDecrypt) => Err(
                    ApiErrorResponse::NotSupported { message: Unsupported::ApplePayDecryptToken },
                ),
            }
        } else {
            Ok(None)
        }
    }

    pub fn connector_token(&self) -> (r: Result<Option<(String, String)>, ApiErrorResponse>)
        ensures
            r == self.spec_connector_token(),
    {
        if self.long_lived_token {
            match &self.data.payment_method_token {
                None => Err(
                    ApiErrorResponse::InvalidDataFormat {
                        field_name: Field::PaymentToken,
                        expected_format: ExpectedFormat::Present,
                    },
                ),
                Some(PaymentMethodToken::Token(token)) => Ok(
                    Some((self.connector_name.clone(), token.clone())),
                ),
                Some(PaymentMethodToken::ApplePayDecrypt) => Err(
                    ApiErrorResponse::NotSupported { message: Unsupported::ApplePayDecryptToken },
                ),
            }
        } else {
            Ok(None)
        }
    }

    /// The customer's consent: that of the request, else that of the mandate
    /// that the request sets up.
    pub open spec fn spec_customer_acceptance(&self) -> Option<CustomerAcceptance> {
        match self.data.request.customer_acceptance {
            Some(acceptance) => Some(acceptance),
            None => match self.data.request.setup_mandate_details {
                Some(mandate) => mandate.customer_acceptance,
                None => None,
            },
        }
    }

    pub fn customer_acceptance(&self) -> (r: Option<CustomerAcceptance>)
        ensures
            r == self.spec_customer_acceptance(),
    {
        match self.data.request.customer_acceptance {
            Some(acceptance) => Some(acceptance),
            None => match self.data.request.setup_mandate_details {
                Some(mandate) => mandate.customer_acceptance,
                None => None,
            },
        }
    }

    /// The mandate id that the connector issued with its answer.
    pub open spec fn spec_connector_mandate_id(&self) -> Option<String> {
        match self.data.response {
            Ok(
                PaymentsResponseData::TransactionResponse {
                    mandate_reference: Some(reference),
                    ..
                },
            ) => reference.connector_mandate_id,
            _ => None,
        }
    }

    pub fn connector_mandate_id(&self) -> (r: Option<String>)
        ensures
            r == self.spec_connector_mandate_id(),
    {
        match &self.data.response {
            Ok(
                PaymentsResponseData::TransactionResponse {
                    mandate_reference: Some(reference),
                    ..
                },
            ) => reference.connector_mandate_id.clone(),
            _ => None,
        }
    }

    /// Whether this is an off-session payment that sets up no mandate of its
    /// own: a merchant-initiated transaction on a stored mandate.
    pub open spec fn spec_check_for_mit_mandates(&self) -> bool {
        self.data.request.setup_mandate_details is None && self.data.request.setup_future_usage
            == Some(FutureUsage::OffSession)
    }

    pub fn check_for_mit_mandates(&self) -> (r: bool)
        ensures
            r == self.spec_check_for_mit_mandates(),
    {
        let no_mandate_setup = match self.data.request.setup_mandate_details {
            None => true,
            Some(_) => false,
        };
        let off_session = match self.data.request.setup_future_usage {
            Some(FutureUsage::OffSession) => true,
            _ => false,
        };
        no_mandate_setup && off_session
    }

    /// The status reported for the saved payment method: known only where
    /// the vault is in use.
    pub open spec fn spec_payment_method_status(&self) -> Option<PaymentMethodStatus> {
        if self.locker_enabled {
            Some(crate::enums::payment_method_status_of(self.data.attempt_status))
        } else {
            None
        }
    }

    pub fn payment_method_status(&self) -> (r: Option<PaymentMethodStatus>)
        ensures
            r == self.spec_payment_method_status(),
    {
        if self.locker_enabled {
            Some(PaymentMethodStatus::from_attempt_status(self.data.attempt_status))
        } else {
            None
        }
    }

    /// The mandate of this charge, where it is a merchant-initiated
    /// transaction, as plain values.
    pub open spec fn spec_mit_mandate(&self) -> Option<(Seq<char>, MandateRecord)> {
        if self.spec_check_for_mit_mandates() {
            match (self.merchant_connector_id, self.spec_connector_mandate_id()) {
                (Some(mca_id), Some(mandate_id)) => Some(
                    (
                        mca_id@,
                        mandate_record(
                            mandate_id@,
                            self.payment_method_type,
                            self.amount,
                            self.currency,
                        ),
                    ),
                ),
                _ => None,
            }
        } else {
            None
        }
    }

    /// The request to store the payment method of this charge: the card of
    /// the request, where there is one, under the billing name.
    pub open spec fn spec_create_request(&self) -> PaymentMethodCreate {
        PaymentMethodCreate {
            payment_method: Some(self.data.payment_method),
            payment_method_type: self.payment_method_type,
            card: match self.data.request.card {
                Some(card) => Some(CardDetail { card_holder_name: self.billing_name, ..card }),
                None => None,
            },
            customer_id: self.customer_id,
        }
    }

    pub fn create_request(&self) -> (r: PaymentMethodCreate)
        ensures
            r == self.spec_create_request(),
    {
        PaymentMethodCreate {
            payment_method: Some(self.data.payment_method),
            payment_method_type: self.payment_method_type,
            card: match &self.data.request.card {
                Some(card) => {
                    let mut detail = card.clone();
                    detail.card_holder_name = self.billing_name.clone();
                    Some(detail)
                },
                None => None,
            },
            customer_id: self.customer_id.clone(),
        }
    }
}

/// Whether a payment method type belongs to a payment method.
pub open spec fn type_goes_with(method: PaymentMethod, kind: PaymentMethodType) -> bool {
    match method {
        PaymentMethod::Card => kind == PaymentMethodType::Credit || kind
            == PaymentMethodType::Debit,
        PaymentMethod::Wallet => kind == PaymentMethodType::ApplePay || kind
            == PaymentMethodType::GooglePay || kind == PaymentMethodType::Paypal,
        PaymentMethod::PayLater => kind == PaymentMethodType::Klarna,
        PaymentMethod::BankTransfer => kind == PaymentMethodType::Ach || kind
            == PaymentMethodType::Sepa,
        PaymentMethod::BankRedirect => false,
    }
}

/// Whether a request to store a payment method is consistent: a method and
/// a type that are both given go together.
pub open spec fn create_request_is_valid(request: PaymentMethodCreate) -> bool {
    match (request.payment_method, request.payment_method_type) {
        (Some(method), Some(kind)) => type_goes_with(method, kind),
        _ => true,
    }
}

fn check_type_goes_with(method: PaymentMethod, kind: PaymentMethodType) -> (r: bool)
    ensures
        r == type_goes_with(method, kind),
{
    match method {
        PaymentMethod::Card => kind == PaymentMethodType::Credit || kind
            == PaymentMethodType::Debit,
        PaymentMethod::Wallet => kind == PaymentMethodType::ApplePay || kind
            == PaymentMethodType::GooglePay || kind == PaymentMethodType::Paypal,
        PaymentMethod::PayLater => kind == PaymentMethodType::Klarna,
        PaymentMethod::BankTransfer => kind == PaymentMethodType::Ach || kind
            == PaymentMethodType::Sepa,
        PaymentMethod::BankRedirect => false,
    }
}

/// What storing a payment method with the vault in use comes to.
#[derive(Debug, PartialEq, Eq)]
pub enum LockerDecision {
    /// The card goes to the vault, which answers with its verdict.
    StoreInVault { request: PaymentMethodCreate, card: CardDetail, customer_id: String },
    /// There is no card to store: the answer is made up here.
    Recorded(PaymentMethodResponse),
}

/// Decides how a payment method is stored where the vault is in use.
///
/// An inconsistent request and a request without customer are rejected. A
/// card goes to the vault; anything else is recorded under
/// `payment_method_id` without a card.
pub fn save_in_locker(
    merchant_id: &str,
    payment_method_request: PaymentMethodCreate,
    payment_method_id: String,
    now: i64,
) -> (r: Result<LockerDecision, ApiErrorResponse>)
    ensures
        !create_request_is_valid(payment_method_request) ==> r == Err::<
            LockerDecision,
            ApiErrorResponse,
        >(
            ApiErrorResponse::InvalidDataFormat {
                field_name: Field::PaymentMethodType,
                expected_format: ExpectedFormat::TypeOfThePaymentMethod,
            },
        ),
        create_request_is_valid(payment_method_request) ==> match (
            payment_method_request.customer_id,
            payment_method_request.card,
        ) {
            (None, _) => r == Err::<LockerDecision, ApiErrorResponse>(
                ApiErrorResponse::InvalidDataFormat {
                    field_name: Field::CustomerId,
                    expected_format: ExpectedFormat::Present,
                },
            ),
            (Some(customer_id), Some(card)) => r == Ok::<LockerDecision, ApiErrorResponse>(
                LockerDecision::StoreInVault {
                    request: payment_method_request,
                    card,
                    customer_id,
                },
            ),
            (Some(customer_id), None) => r matches Ok(LockerDecision::Recorded(response))
                && response.card is None && local_response_matches(
                response,
                merchant_id@,
                payment_method_request,
                customer_id,
                payment_method_id,
                now,
            ),
        },
{
    let valid = match (payment_method_request.payment_method, payment_method_request.payment_method_type) {
        (Some(method), Some(kind)) => check_type_goes_with(method, kind),
        _ => true,
    };
    if !valid {
        return Err(
            ApiErrorResponse::InvalidDataFormat {
                field_name: Field::PaymentMethodType,
                expected_format: ExpectedFormat::TypeOfThePaymentMethod,
            },
        );
    }
    let customer_id = match &payment_method_request.customer_id {
        Some(id) => id.clone(),
        None => {
            return Err(
                ApiErrorResponse::InvalidDataFormat {
                    field_name: Field::CustomerId,
                    expected_format: ExpectedFormat::Present,
                },
            );
        },
    };
    let card = match &payment_method_request.card {
        Some(card) => Some(card.clone()),
        None => None,
    };
    match card {
        Some(card) => Ok(
            LockerDecision::StoreInVault { request: payment_method_request, card, customer_id },
        ),
        None => {
            let response = PaymentMethodResponse {
                merchant_id: merchant_id.to_owned(),
                customer_id: Some(customer_id),
                payment_method_id,
                payment_method: payment_method_request.payment_method,
                payment_method_type: payment_method_request.payment_method_type,
                card: None,
                recurring_enabled: false,
                installment_payment_enabled: false,
                payment_experience: Some(redirect_only()),
                created: Some(now),
                last_used_at: Some(now),
            };
            Ok(LockerDecision::Recorded(response))
        },
    }
}

/// How the payment method of a payment is to be tokenized.
#[derive(Debug, PartialEq, Eq)]
pub enum TokenizationAction {
    TokenizeInRouter,
    TokenizeInConnector,
    TokenizeInConnectorAndRouter,
    ConnectorToken(String),
    SkipConnectorTokenization,
    DecryptApplePayToken,
    TokenizeInConnectorAndApplepayPreDecrypt,
}

impl TokenizationAction {
    /// Whether the connector is asked for a token.
    pub open spec fn asks_connector(&self) -> bool {
        self is TokenizeInConnector || self is TokenizeInConnectorAndApplepayPreDecrypt
    }
}

/// Where the tokenization of a payment method at the connector stands.
#[derive(Clone, Copy, Debug, PartialEq, Eq, Structural)]
pub enum TokenizationState {
    Start,
    /// The connector's preparatory calls are running.
    AwaitingPretasks,
    /// The connector was asked for the token.
    AwaitingToken,
    Finished,
}

/// What the caller reports of the connector.
#[derive(Debug, PartialEq, Eq)]
pub enum TokenizationEvent {
    Begin,
    /// The preparatory calls went through and left this session token.
    PretasksDone { session_token: Option<String> },
    /// The connector answered the request for a token.
    Answered(Result<PaymentsResponseData, ErrorResponse>),
    /// The call could not be made or its answer not be read.
    CallFailed(crate::errors::ConnectorError),
}

/// What the caller has to do next.
#[derive(Debug, PartialEq, Eq)]
pub enum TokenizationStep {
    RunPretasks,
    RequestToken,
    Finish(Result<Option<String>, ApiErrorResponse>),
}

/// The token in a connector's answer, if it is one to a tokenization.
pub open spec fn token_in(answer: Result<PaymentsResponseData, ErrorResponse>) -> Option<String> {
    match answer {
        Ok(PaymentsResponseData::TokenizationResponse { token }) => Some(token),
        _ => None,
    }
}

/// One step of obtaining a token for the payment method from the connector.
///
/// Only the two actions that tokenize in the connector ask it; every other
/// action ends at once without a token. The preparatory calls come first, and
/// the session token that they leave is written into the outer request
/// before the token is asked for. A call that fails ends the tokenization
/// with the translated error; an answer that is no token ends it without one.
pub fn add_payment_method_token(
    tokenization_action: &TokenizationAction,
    router_data: &mut RouterData,
    state: TokenizationState,
    event: TokenizationEvent,
) -> (r: (TokenizationState, TokenizationStep))
    ensures
        match (state, event) {
            (TokenizationState::Start, TokenizationEvent::Begin) => {
                &&& *final(router_data) == *old(router_data)
                &&& if tokenization_action.asks_connector() {
                    r == (TokenizationState::AwaitingPretasks, TokenizationStep::RunPretasks)
                } else {
                    r == (TokenizationState::Finished, TokenizationStep::Finish(Ok(None)))
                }
            },
            (
                TokenizationState::AwaitingPretasks,
                TokenizationEvent::PretasksDone { session_token },
            ) => {
                &&& *final(router_data) == RouterData {
                    request: PaymentsAuthorizeData { session_token, ..old(router_data).request },
                    ..*old(router_data)
                }
                &&& r == (TokenizationState::AwaitingToken, TokenizationStep::RequestToken)
            },
            (TokenizationState::AwaitingToken, TokenizationEvent::Answered(answer)) => {
                &&& *final(router_data) == *old(router_data)
                &&& r == (TokenizationState::Finished, TokenizationStep::Finish(Ok(token_in(answer))))
            },
            (TokenizationState::AwaitingPretasks, TokenizationEvent::CallFailed(e)) | (
                TokenizationState::AwaitingToken,
                TokenizationEvent::CallFailed(e),
            ) => {
                &&& *final(router_data) == *old(router_data)
                &&& r == (
                    TokenizationState::Finished,
                    TokenizationStep::Finish(Err(crate::errors::translated(e))),
                )
            },
            _ => {
                &&& *final(router_data) == *old(router_data)
                &&& r == (
                    TokenizationState::Finished,
                    TokenizationStep::Finish(Err(ApiErrorResponse::InternalServerError)),
                )
            },
        },
{
    match (state, event) {
        (TokenizationState::Start, TokenizationEvent::Begin) => match tokenization_action {
            TokenizationAction::TokenizeInConnector
            | TokenizationAction::TokenizeInConnectorAndApplepayPreDecrypt => (
                TokenizationState::AwaitingPretasks,
                TokenizationStep::RunPretasks,
            ),
            _ => (TokenizationState::Finished, TokenizationStep::Finish(Ok(None))),
        },
        (TokenizationState::AwaitingPretasks, TokenizationEvent::PretasksDone { session_token }) => {
            router_data.request.session_token = session_token;
            (TokenizationState::AwaitingToken, TokenizationStep::RequestToken)
        },
        (TokenizationState::AwaitingToken, TokenizationEvent::Answered(answer)) => {
            let pm_token = match answer {
                Ok(PaymentsResponseData::TokenizationResponse { token }) => Some(token),
                _ => None,
            };
            (TokenizationState::Finished, TokenizationStep::Finish(Ok(pm_token)))
        },
        (TokenizationState::AwaitingPretasks, TokenizationEvent::CallFailed(e)) => (
            TokenizationState::Finished,
            TokenizationStep::Finish(Err(ApiErrorResponse::from_connector_error(e))),
        ),
        (TokenizationState::AwaitingToken, TokenizationEvent::CallFailed(e)) => (
            TokenizationState::Finished,
            TokenizationStep::Finish(Err(ApiErrorResponse::from_connector_error(e))),
        ),
        _ => (
            TokenizationState::Finished,
            TokenizationStep::Finish(Err(ApiErrorResponse::InternalServerError)),
        ),
    }
}

/// What a payment reports of its instrument once the charge went through.
#[derive(Debug, PartialEq, Eq)]
pub struct SavedInstrument {
    pub payment_method_id: Option<String>,
    pub payment_method_status: Option<PaymentMethodStatus>,
    /// The reconciliation failed; the charge stands all the same.
    pub save_failed: bool,
}

/// Folds the outcome of a reconciliation into the report of a payment whose
/// charge succeeded. A failed reconciliation never undoes the charge: it is
/// only flagged, and the payment then carries no payment method.
pub fn instrument_after_charge(
    outcome: Result<(Option<String>, Option<PaymentMethodStatus>), ApiErrorResponse>,
) -> (r: SavedInstrument)
    ensures
        match outcome {
            Ok(saved) => r == SavedInstrument {
                payment_method_id: saved.0,
                payment_method_status: saved.1,
                save_failed: false,
            },
            Err(_) => r == SavedInstrument {
                payment_method_id: None,
                payment_method_status: None,
                save_failed: true,
            },
        },
{
    match outcome {
        Ok(saved) => SavedInstrument {
            payment_method_id: saved.0,
            payment_method_status: saved.1,
            save_failed: false,
        },
        Err(_) => SavedInstrument {
            payment_method_id: None,
            payment_method_status: None,
            save_failed: true,
        },
    }
}

} // verus!
