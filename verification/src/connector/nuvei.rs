//! The adapter for Nuvei: where its endpoints are, how its requests are
//! assembled, which calls precede an authorization, how its webhooks are
//! verified and read, and how a return from its 3-D Secure challenge is
//! resolved.
//!
//! The names on the wire are fixed in this module. A webhook carries its
//! fields as query parameters: `ppp_TransactionID`, `productId`,
//! `totalAmount`, `currency`, `responseTimeStamp` and `Status`, and where
//! they are known `TransactionID` and `ppp_status`; its signature comes in
//! the header `advanceResponseChecksum`. A customer who returns from a
//! challenge brings a JSON object whose member `cres` is the challenge
//! response in base64: a JSON object with the text members
//! `threeDSServerTransID`, `acsTransID`, `messageType` and
//! `messageVersion`, and the outcome under `transStatus`.

use vstd::prelude::*;
use vstd::string::{StrSliceExecFns, StringExecFns, StringSliceAdditionalSpecFns};
use vstd::utf8::{decode_utf8, encode_utf8, valid_utf8};

use crate::codec::{
    base64_decode, base64_decoded, hex_decode, hex_decoded, json_members, members_of,
    pairs_of, parse_json_object, parse_urlencoded, sha256, sha256_digest, urlencoded_pairs,
    JsonMember, JsonScalar,
};
use crate::connector::types::{
    CallConnectorAction, ConnectorAuthType, ConnectorEvent, ConnectorWebhookSecrets, Connectors,
    Flow, IncomingWebhookEvent, IncomingWebhookRequestDetails, Method, ObjectReferenceId,
    PaymentAction, PaymentIdType, Request, SignatureAlgorithm,
};
use crate::connector::webhooks::{
    find_field, get_header_key_value, header_value, optional_value, required_value, Occurrence,
};
use crate::enums::{AttemptStatus, AuthenticationType, CaptureMethod, PaymentMethod};
use crate::errors::{Capability, ConnectorError};
use crate::router_data::{
    ErrorResponse, PaymentsAuthorizeData, PaymentsResponseData, RouterData,
};
use crate::text::{same_bytes, same_text, utf8_text};

verus! {

/// The Nuvei adapter.
#[derive(Clone, Copy, Debug, PartialEq, Eq, Structural)]
pub struct Nuvei;

/// The path of a flow's endpoint below the base URL; nothing for a flow
/// that Nuvei has no call for.
pub open spec fn endpoint(flow: Flow) -> Option<Seq<char>> {
    match flow {
        Flow::Authorize | Flow::CompleteAuthorize => Some("ppp/api/v1/payment.do"@),
        Flow::Void => Some("ppp/api/v1/voidTransaction.do"@),
        Flow::PSync => Some("ppp/api/v1/getPaymentStatus.do"@),
        Flow::Capture => Some("ppp/api/v1/settleTransaction.do"@),
        Flow::AuthorizeSessionToken => Some("ppp/api/v1/getSessionToken.do"@),
        Flow::InitPayment => Some("ppp/api/v1/initPayment.do"@),
        Flow::Execute => Some("ppp/api/v1/refundTransaction.do"@),
        Flow::Session
        | Flow::SetupMandate
        | Flow::PaymentMethodToken
        | Flow::AccessTokenAuth
        | Flow::RSync => None,
    }
}

/// The headers of every request to Nuvei.
pub open spec fn common_headers() -> Seq<(Seq<char>, Seq<char>)> {
    seq![("Content-Type"@, "application/json"@)]
}

/// A response of Nuvei's payment endpoints, as far as the pipeline reads
/// it.
#[derive(Debug, PartialEq, Eq)]
pub struct NuveiPaymentsResponse {
    pub transaction_status: Option<NuveiTransactionStatus>,
    pub transaction_type: Option<NuveiTransactionType>,
    pub transaction_id: Option<String>,
    pub session_token: Option<String>,
}

#[derive(Clone, Copy, Debug, PartialEq, Eq, Structural)]
pub enum NuveiTransactionType {
    Auth,
    Sale,
    Credit,
    Auth3D,
    InitAuth3D,
    Settle,
    Void,
}

/// The status of an attempt after an answer of Nuvei. An approved
/// transaction is authorized, charged or voided by its type; a declined or
/// failed one fails in the way of its type; a redirect waits for the
/// customer's authentication. An answer without transaction status leaves
/// the status as it was.
pub open spec fn attempt_status_after(response: NuveiPaymentsResponse, before: AttemptStatus)
    -> AttemptStatus {
    match response.transaction_status {
        Some(NuveiTransactionStatus::Approved) => match response.transaction_type {
            Some(NuveiTransactionType::Auth) => AttemptStatus::Authorized,
            Some(NuveiTransactionType::Sale) | Some(NuveiTransactionType::Settle) =>
                AttemptStatus::Charged,
            Some(NuveiTransactionType::Void) => AttemptStatus::Voided,
            _ => AttemptStatus::Pending,
        },
        Some(NuveiTransactionStatus::Declined) | Some(NuveiTransactionStatus::Error) => {
            match response.transaction_type {
                Some(NuveiTransactionType::Auth) => AttemptStatus::AuthorizationFailed,
                Some(NuveiTransactionType::Void) => AttemptStatus::VoidFailed,
                Some(NuveiTransactionType::Auth3D) => AttemptStatus::AuthenticationFailed,
                _ => AttemptStatus::Failure,
            }
        },
        Some(NuveiTransactionStatus::Pending) => AttemptStatus::Pending,
        Some(NuveiTransactionStatus::Redirect) => AttemptStatus::AuthenticationPending,
        None => before,
    }
}

/// Whether an answer reports a refusal.
pub open spec fn is_refusal(response: NuveiPaymentsResponse) -> bool {
    response.transaction_status == Some(NuveiTransactionStatus::Declined)
        || response.transaction_status == Some(NuveiTransactionStatus::Error)
}

/// Whether `outcome` is what an answer of Nuvei comes to in the pipeline's
/// terms: a refusal is a structured error with the status code of the
/// answer; an answer that only carries a session token hands that on;
/// every other answer is a transaction under the id that Nuvei gave it.
pub open spec fn is_outcome_of(
    outcome: Result<PaymentsResponseData, ErrorResponse>,
    response: NuveiPaymentsResponse,
    status_code: u16,
) -> bool {
    if is_refusal(response) {
        &&& outcome matches Err(error)
        &&& error.status_code == status_code
        &&& error.code@ == "No error code"@
        &&& error.message@ == "No error message"@
        &&& error.reason == response.transaction_id
    } else if response.transaction_status is None && response.session_token is Some {
        outcome == Ok::<PaymentsResponseData, ErrorResponse>(
            PaymentsResponseData::SessionTokenResponse {
                session_token: response.session_token->Some_0,
            },
        )
    } else {
        &&& outcome matches Ok(
            PaymentsResponseData::TransactionResponse {
                resource_id,
                network_txn_id,
                mandate_reference,
            },
        )
        &&& resource_id@ == match response.transaction_id {
            Some(id) => id@,
            None => Seq::<char>::empty(),
        }
        &&& network_txn_id is None
        &&& mandate_reference is None
    }
}

#[derive(Clone, Copy, Debug, PartialEq, Eq, Structural)]
pub enum NuveiTransactionStatus {
    Approved,
    Declined,
    Error,
    Redirect,
    Pending,
}

/// The status that a webhook of Nuvei reports.
#[derive(Clone, Copy, Debug, PartialEq, Eq, Structural)]
pub enum NuveiWebhookStatus {
    Approved,
    Declined,
    Pending,
    Update,
    Unknown,
}

/// The status that a text stands for; any text that is none of the known
/// ones stands for an unknown status.
pub open spec fn status_of(text: Seq<char>) -> NuveiWebhookStatus {
    if text == "APPROVED"@ {
        NuveiWebhookStatus::Approved
    } else if text == "DECLINED"@ {
        NuveiWebhookStatus::Declined
    } else if text == "PENDING"@ {
        NuveiWebhookStatus::Pending
    } else if text == "UPDATE"@ {
        NuveiWebhookStatus::Update
    } else {
        NuveiWebhookStatus::Unknown
    }
}

/// The text of a status as it goes into the signed message.
pub open spec fn status_text(status: NuveiWebhookStatus) -> Seq<char> {
    match status {
        NuveiWebhookStatus::Approved => "APPROVED"@,
        NuveiWebhookStatus::Declined => "DECLINED"@,
        NuveiWebhookStatus::Pending => "PENDING"@,
        NuveiWebhookStatus::Update => "UPDATE"@,
        NuveiWebhookStatus::Unknown => "UNKNOWN"@,
    }
}

/// What a webhook of Nuvei carries in its query parameters.
#[derive(Debug, PartialEq, Eq)]
pub struct NuveiWebhookDetails {
    pub ppp_transaction_id: String,
    pub product_id: String,
    pub total_amount: String,
    pub currency: String,
    pub response_time_stamp: String,
    pub status: NuveiWebhookStatus,
    pub transaction_id: Option<String>,
    pub ppp_status: Option<String>,
}

/// The details of a webhook as plain values.
pub struct WebhookDetails {
    pub ppp_transaction_id: Seq<char>,
    pub product_id: Seq<char>,
    pub total_amount: Seq<char>,
    pub currency: Seq<char>,
    pub response_time_stamp: Seq<char>,
    pub status: NuveiWebhookStatus,
    pub transaction_id: Option<Seq<char>>,
    pub ppp_status: Option<Seq<char>>,
}

impl View for NuveiWebhookDetails {
    type V = WebhookDetails;

    open spec fn view(&self) -> WebhookDetails {
        WebhookDetails {
            ppp_transaction_id: self.ppp_transaction_id@,
            product_id: self.product_id@,
            total_amount: self.total_amount@,
            currency: self.currency@,
            response_time_stamp: self.response_time_stamp@,
            status: self.status,
            transaction_id: match self.transaction_id {
                Some(id) => Some(id@),
                None => None,
            },
            ppp_status: match self.ppp_status {
                Some(status) => Some(status@),
                None => None,
            },
        }
    }
}

/// The details that the query parameters of a webhook hold. Six fields
/// have to be there, each once; two more may be there, once.
pub open spec fn details_in(pairs: Seq<(Seq<char>, Seq<char>)>) -> Option<WebhookDetails> {
    match (
        required_value(pairs, "ppp_TransactionID"@),
        required_value(pairs, "productId"@),
        required_value(pairs, "totalAmount"@),
        required_value(pairs, "currency"@),
        required_value(pairs, "responseTimeStamp"@),
        required_value(pairs, "Status"@),
        optional_value(pairs, "TransactionID"@),
        optional_value(pairs, "ppp_status"@),
    ) {
        (
            Some(ppp_transaction_id),
            Some(product_id),
            Some(total_amount),
            Some(currency),
            Some(response_time_stamp),
            Some(status),
            Some(transaction_id),
            Some(ppp_status),
        ) => Some(
            WebhookDetails {
                ppp_transaction_id,
                product_id,
                total_amount,
                currency,
                response_time_stamp,
                status: status_of(status),
                transaction_id,
                ppp_status,
            },
        ),
        _ => None,
    }
}

/// The text that Nuvei signs: the shared secret, then the total amount, the
/// currency, the time stamp of the response, the transaction id, the status
/// in capitals and the product id, one after the other with nothing in
/// between.
pub open spec fn signed_text(secret: Seq<char>, details: WebhookDetails) -> Seq<char> {
    secret + details.total_amount + details.currency + details.response_time_stamp
        + details.ppp_transaction_id + status_text(details.status) + details.product_id
}

/// The message to verify for a webhook with these query parameters and this
/// secret.
pub open spec fn message_for(pairs: Seq<(Seq<char>, Seq<char>)>, secret: Seq<u8>) -> Result<
    Seq<u8>,
    ConnectorError,
> {
    match details_in(pairs) {
        None => Err(ConnectorError::WebhookBodyDecodingFailed),
        Some(details) => if valid_utf8(secret) {
            Ok(encode_utf8(signed_text(decode_utf8(secret), details)))
        } else {
            Err(ConnectorError::WebhookBodyDecodingFailed)
        },
    }
}

/// The signature that a webhook carries in its headers.
pub open spec fn signature_in(headers: Seq<(String, String)>) -> Result<Seq<u8>, ConnectorError> {
    match header_value(headers, encode_utf8("advanceResponseChecksum"@)) {
        None => Err(ConnectorError::WebhookSourceVerificationFailed),
        Some(value) => match hex_decoded(encode_utf8(value@)) {
            Some(signature) => Ok(signature),
            None => Err(ConnectorError::WebhookResponseEncodingFailed),
        },
    }
}

/// What a webhook means: an approved payment succeeded, a declined one
/// failed, anything else is nothing that the pipeline acts on.
pub open spec fn event_of(status: NuveiWebhookStatus) -> IncomingWebhookEvent {
    match status {
        NuveiWebhookStatus::Approved => IncomingWebhookEvent::PaymentIntentSuccess,
        NuveiWebhookStatus::Declined => IncomingWebhookEvent::PaymentIntentFailure,
        _ => IncomingWebhookEvent::EventNotSupported,
    }
}

fn required_field<'a>(pairs: &'a Vec<(String, String)>, name: &str) -> (r: Option<&'a String>)
    ensures
        match required_value(pairs_of(pairs@), name@) {
            Some(value) => r matches Some(found) && found@ == value,
            None => r is None,
        },
{
    match find_field(pairs, name) {
        Occurrence::Once(value) => Some(value),
        _ => None,
    }
}

fn optional_field(pairs: &Vec<(String, String)>, name: &str) -> (r: Option<Option<String>>)
    ensures
        match optional_value(pairs_of(pairs@), name@) {
            Some(Some(value)) => r matches Some(Some(found)) && found@ == value,
            Some(None) => r matches Some(None),
            None => r is None,
        },
{
    match find_field(pairs, name) {
        Occurrence::Never => Some(None),
        Occurrence::Once(value) => Some(Some(value.clone())),
        Occurrence::Repeated => None,
    }
}

/// The status that a text stands for.
pub fn parse_status(text: &str) -> (r: NuveiWebhookStatus)
    ensures
        r == status_of(text@),
{
    if same_text(text, "APPROVED") {
        NuveiWebhookStatus::Approved
    } else if same_text(text, "DECLINED") {
        NuveiWebhookStatus::Declined
    } else if same_text(text, "PENDING") {
        NuveiWebhookStatus::Pending
    } else if same_text(text, "UPDATE") {
        NuveiWebhookStatus::Update
    } else {
        NuveiWebhookStatus::Unknown
    }
}

fn status_name(status: NuveiWebhookStatus) -> (r: &'static str)
    ensures
        r@ == status_text(status),
{
    match status {
        NuveiWebhookStatus::Approved => "APPROVED",
        NuveiWebhookStatus::Declined => "DECLINED",
        NuveiWebhookStatus::Pending => "PENDING",
        NuveiWebhookStatus::Update => "UPDATE",
        NuveiWebhookStatus::Unknown => "UNKNOWN",
    }
}

/// Reads the details of a webhook from its query parameters.
pub fn webhook_details(pairs: &Vec<(String, String)>) -> (r: Result<
    NuveiWebhookDetails,
    ConnectorError,
>)
    ensures
        match details_in(pairs_of(pairs@)) {
            Some(details) => r matches Ok(found) && found@ == details,
            None => r == Err::<NuveiWebhookDetails, ConnectorError>(
                ConnectorError::WebhookBodyDecodingFailed,
            ),
        },
{
    let ppp_transaction_id = required_field(pairs, "ppp_TransactionID");
    let product_id = required_field(pairs, "productId");
    let total_amount = required_field(pairs, "totalAmount");
    let currency = required_field(pairs, "currency");
    let response_time_stamp = required_field(pairs, "responseTimeStamp");
    let status = required_field(pairs, "Status");
    let transaction_id = optional_field(pairs, "TransactionID");
    let ppp_status = optional_field(pairs, "ppp_status");
    match (
        ppp_transaction_id,
        product_id,
        total_amount,
        currency,
        response_time_stamp,
        status,
        transaction_id,
        ppp_status,
    ) {
        (
            Some(ppp_transaction_id),
            Some(product_id),
            Some(total_amount),
            Some(currency),
            Some(response_time_stamp),
            Some(status),
            Some(transaction_id),
            Some(ppp_status),
        ) => Ok(
            NuveiWebhookDetails {
                ppp_transaction_id: ppp_transaction_id.clone(),
                product_id: product_id.clone(),
                total_amount: total_amount.clone(),
                currency: currency.clone(),
                response_time_stamp: response_time_stamp.clone(),
                status: parse_status(status.as_str()),
                transaction_id,
                ppp_status,
            },
        ),
        _ => Err(ConnectorError::WebhookBodyDecodingFailed),
    }
}

/// Reconstructs the message that Nuvei signed from the query parameters of
/// a webhook and the shared secret, which has to be text.
pub fn signed_message_of(pairs: &Vec<(String, String)>, secret: &[u8]) -> (r: Result<
    Vec<u8>,
    ConnectorError,
>)
    ensures
        match message_for(pairs_of(pairs@), secret@) {
            Ok(message) => r matches Ok(bytes) && bytes@ == message,
            Err(e) => r == Err::<Vec<u8>, ConnectorError>(e),
        },
{
    let details = webhook_details(pairs)?;
    let secret_text = match utf8_text(secret) {
        Some(text) => text,
        None => {
            return Err(ConnectorError::WebhookBodyDecodingFailed);
        },
    };
    let to_sign = secret_text.concat(details.total_amount.as_str()).concat(
        details.currency.as_str(),
    ).concat(details.response_time_stamp.as_str()).concat(
        details.ppp_transaction_id.as_str(),
    ).concat(status_name(details.status)).concat(details.product_id.as_str());
    Ok(to_sign.as_str().as_bytes_vec())
}

/// The status of the liability shift that a challenge came to.
#[derive(Clone, Copy, Debug, PartialEq, Eq, Structural)]
pub enum LiabilityShift {
    Success,
    Failed,
}

/// The member of a JSON object with the given name.
pub open spec fn member_named(members: Seq<(Seq<char>, JsonScalar)>, name: Seq<char>) -> Option<
    JsonScalar,
>
    decreases members.len(),
{
    if members.len() == 0 {
        None
    } else if members[0].0 == name {
        Some(members[0].1)
    } else {
        member_named(members.drop_first(), name)
    }
}

/// Whether an object holds text under a name.
pub open spec fn has_text(members: Seq<(Seq<char>, JsonScalar)>, name: Seq<char>) -> bool {
    member_named(members, name) matches Some(JsonScalar::Text(_))
}

/// The outcome of the challenge that a challenge response reports: outside,
/// whether the response is well formed; inside, the liability shift, if it
/// names one. The four identifying members have to be text; the status may
/// be left out or null, and is else `Y` or `1` for success and `N` or `0`
/// for failure.
pub open spec fn challenge_status(members: Seq<(Seq<char>, JsonScalar)>) -> Option<
    Option<LiabilityShift>,
> {
    if !has_text(members, "threeDSServerTransID"@) || !has_text(members, "acsTransID"@)
        || !has_text(members, "messageType"@) || !has_text(members, "messageVersion"@) {
        None
    } else {
        match member_named(members, "transStatus"@) {
            None => Some(None),
            Some(JsonScalar::Null) => Some(None),
            Some(JsonScalar::Text(text)) => if text == "Y"@ || text == "1"@ {
                Some(Some(LiabilityShift::Success))
            } else if text == "N"@ || text == "0"@ {
                Some(Some(LiabilityShift::Failed))
            } else {
                None
            },
            Some(JsonScalar::Other) => None,
        }
    }
}

/// How the pipeline goes on after a challenge: a challenge that failed, or
/// that reports no status, ends the attempt without asking the connector;
/// one that succeeded asks it.
pub open spec fn flow_after(members: Seq<(Seq<char>, JsonScalar)>) -> Result<
    CallConnectorAction,
    ConnectorError,
> {
    match challenge_status(members) {
        None => Err(ConnectorError::ResponseHandlingFailed),
        Some(Some(LiabilityShift::Success)) => Ok(CallConnectorAction::Trigger),
        Some(_) => Ok(
            CallConnectorAction::StatusUpdate {
                status: AttemptStatus::AuthenticationFailed,
                error_code: None,
                error_message: None,
            },
        ),
    }
}

/// How the pipeline goes on when the customer comes back with this
/// payload: the payload holds the challenge response in base64 under
/// `cres`.
pub open spec fn flow_for_payload(payload: Seq<char>) -> Result<
    CallConnectorAction,
    ConnectorError,
> {
    match json_members(encode_utf8(payload)) {
        None => Err(ConnectorError::ResponseHandlingFailed),
        Some(members) => match member_named(members, "cres"@) {
            Some(JsonScalar::Text(cres)) => match base64_decoded(encode_utf8(cres)) {
                None => Err(ConnectorError::ResponseHandlingFailed),
                Some(decoded) => match json_members(decoded) {
                    None => Err(ConnectorError::ResponseHandlingFailed),
                    Some(response) => flow_after(response),
                },
            },
            _ => Err(ConnectorError::ResponseHandlingFailed),
        },
    }
}

fn find_member<'a>(members: &'a Vec<(String, JsonMember)>, name: &str) -> (r: Option<
    &'a JsonMember,
>)
    ensures
        match member_named(members_of(members@), name@) {
            Some(scalar) => r matches Some(found) && found@ == scalar,
            None => r is None,
        },
{
    let ghost all = members_of(members@);
    let mut i: usize = 0;
    assert(all.skip(0) =~= all);
    while i < members.len()
        invariant
            i <= members@.len(),
            all == members_of(members@),
            member_named(all, name@) == member_named(all.skip(i as int), name@),
        decreases members@.len() - i,
    {
        proof {
            assert(all.skip(i as int)[0] == all[i as int]);
            assert(all[i as int] == (members@[i as int].0@, members@[i as int].1@));
            assert(all.skip(i as int).drop_first() =~= all.skip(i + 1));
        }
        if same_text(members[i].0.as_str(), name) {
            return Some(&members[i].1);
        }
        i += 1;
    }
    None
}

fn holds_text(members: &Vec<(String, JsonMember)>, name: &str) -> (r: bool)
    ensures
        r == has_text(members_of(members@), name@),
{
    match find_member(members, name) {
        Some(JsonMember::Text(_)) => true,
        _ => false,
    }
}

/// Resolves the return from a challenge, from the members of the challenge
/// response.
pub fn flow_after_challenge(members: &Vec<(String, JsonMember)>) -> (r: Result<
    CallConnectorAction,
    ConnectorError,
>)
    ensures
        r == flow_after(members_of(members@)),
{
    if !holds_text(members, "threeDSServerTransID") || !holds_text(members, "acsTransID")
        || !holds_text(members, "messageType") || !holds_text(members, "messageVersion") {
        return Err(ConnectorError::ResponseHandlingFailed);
    }
    let failed = CallConnectorAction::StatusUpdate {
        status: AttemptStatus::AuthenticationFailed,
        error_code: None,
        error_message: None,
    };
    match find_member(members, "transStatus") {
        None => Ok(failed),
        Some(JsonMember::Null) => Ok(failed),
        Some(JsonMember::Text(text)) => {
            if same_text(text.as_str(), "Y") || same_text(text.as_str(), "1") {
                Ok(CallConnectorAction::Trigger)
            } else if same_text(text.as_str(), "N") || same_text(text.as_str(), "0") {
                Ok(failed)
            } else {
                Err(ConnectorError::ResponseHandlingFailed)
            }
        },
        Some(JsonMember::Other) => Err(ConnectorError::ResponseHandlingFailed),
    }
}

/// Where the calls that precede an authorization stand.
#[derive(Clone, Copy, Debug, PartialEq, Eq, Structural)]
pub enum PretaskState {
    Start,
    /// The session token was asked for.
    AwaitingSessionToken,
    /// The enrollment for 3-D Secure is being checked.
    AwaitingEnrollment,
    Finished,
}

/// What the caller reports of a preceding call.
#[derive(Debug, PartialEq, Eq)]
pub enum PretaskEvent {
    Begin,
    /// The call for the session token went through and left this token.
    SessionToken { session_token: Option<String> },
    /// The enrollment check was answered.
    Enrollment(Result<PaymentsResponseData, ErrorResponse>),
    /// The call could not be made or its answer not be read.
    CallFailed(ConnectorError),
}

/// What the caller has to do next.
#[derive(Clone, Copy, Debug, PartialEq, Eq)]
pub enum PretaskStep {
    RequestSessionToken,
    InitPayment,
    Finish(Result<(), ConnectorError>),
}

/// Whether the enrollment for 3-D Secure has to be checked: for a card
/// that is to be authenticated.
pub open spec fn needs_enrollment_check(router_data: RouterData) -> bool {
    router_data.auth_type == AuthenticationType::ThreeDs && router_data.payment_method
        == PaymentMethod::Card
}

/// What an answer to the enrollment check says: whether the card is
/// enrolled, and the transaction that the authorization relates to.
pub open spec fn enrollment_in(answer: Result<PaymentsResponseData, ErrorResponse>) -> (
    bool,
    Option<String>,
) {
    match answer {
        Ok(PaymentsResponseData::ThreeDSEnrollmentResponse { enrolled_v2, related_transaction_id }) => (
            enrolled_v2,
            related_transaction_id,
        ),
        _ => (false, None),
    }
}

/// The context with the outcome of the enrollment check written into its
/// request.
pub open spec fn with_enrollment(router_data: RouterData, outcome: (bool, Option<String>))
    -> RouterData {
    RouterData {
        request: PaymentsAuthorizeData {
            enrolled_for_3ds: outcome.0,
            related_transaction_id: outcome.1,
            ..router_data.request
        },
        ..router_data
    }
}

/// The transition relation of the calls that precede an authorization.
pub open spec fn pretask_transition(
    before: RouterData,
    state: PretaskState,
    event: PretaskEvent,
    after: RouterData,
    next: PretaskState,
    step: PretaskStep,
) -> bool {
    match (state, event) {
        (PretaskState::Start, PretaskEvent::Begin) => {
            &&& after == before
            &&& next == PretaskState::AwaitingSessionToken
            &&& step == PretaskStep::RequestSessionToken
        },
        (PretaskState::AwaitingSessionToken, PretaskEvent::SessionToken { session_token }) => {
            let with_token = RouterData { session_token, ..before };
            if needs_enrollment_check(before) {
                &&& after == with_token
                &&& next == PretaskState::AwaitingEnrollment
                &&& step == PretaskStep::InitPayment
            } else {
                &&& after == with_enrollment(with_token, (false, None))
                &&& next == PretaskState::Finished
                &&& step == PretaskStep::Finish(Ok(()))
            }
        },
        (PretaskState::AwaitingEnrollment, PretaskEvent::Enrollment(answer)) => {
            &&& after == with_enrollment(before, enrollment_in(answer))
            &&& next == PretaskState::Finished
            &&& step == PretaskStep::Finish(Ok(()))
        },
        (PretaskState::AwaitingSessionToken, PretaskEvent::CallFailed(e)) | (
            PretaskState::AwaitingEnrollment,
            PretaskEvent::CallFailed(e),
        ) => {
            &&& after == before
            &&& next == PretaskState::Finished
            &&& step == PretaskStep::Finish(Err(e))
        },
        _ => {
            &&& after == before
            &&& next == PretaskState::Finished
            &&& step == PretaskStep::Finish(Err(ConnectorError::ResponseHandlingFailed))
        },
    }
}

/// The calls that precede an authorization come one after the other, and a
/// call that fails ends them: the enrollment is checked only once the
/// session token is there, and after a failure nothing more is asked of the
/// connector and the context is left as it was.
pub proof fn lemma_pretasks_are_sequential(
    before: RouterData,
    state: PretaskState,
    event: PretaskEvent,
    after: RouterData,
    next: PretaskState,
    step: PretaskStep,
)
    requires
        pretask_transition(before, state, event, after, next, step),
    ensures
        step == PretaskStep::InitPayment ==> state == PretaskState::AwaitingSessionToken && event
            is SessionToken,
        step == PretaskStep::RequestSessionToken ==> state == PretaskState::Start,
        event is CallFailed ==> step is Finish && step != PretaskStep::Finish(Ok(())) && after
            == before,
{
}

impl Nuvei {
    pub fn id(&self) -> (r: &'static str)
        ensures
            r@ == "nuvei"@,
    {
        "nuvei"
    }

    pub fn common_get_content_type(&self) -> (r: &'static str)
        ensures
            r@ == "application/json"@,
    {
        "application/json"
    }

    pub fn get_content_type(&self) -> (r: &'static str)
        ensures
            r@ == "application/json"@,
    {
        self.common_get_content_type()
    }

    pub fn base_url<'a>(&self, connectors: &'a Connectors) -> (r: &'a str)
        ensures
            r@ == connectors.nuvei.base_url@,
    {
        connectors.nuvei.base_url.as_str()
    }

    /// Nuvei authenticates in the body of its requests: there is no header
    /// for it.
    pub fn get_auth_header(&self, _auth_type: &ConnectorAuthType) -> (r: Result<
        Vec<(String, String)>,
        ConnectorError,
    >)
        ensures
            r matches Ok(headers) && headers@.len() == 0,
    {
        Ok(Vec::new())
    }

    /// The headers of a request: the content type.
    pub fn build_headers(&self) -> (r: Vec<(String, String)>)
        ensures
            pairs_of(r@) == common_headers(),
    {
        let mut headers: Vec<(String, String)> = Vec::new();
        headers.push(
            (String::from_str("Content-Type"), String::from_str(self.get_content_type())),
        );
        assert(pairs_of(headers@) =~= common_headers());
        headers
    }

    pub fn get_headers(&self) -> (r: Vec<(String, String)>)
        ensures
            pairs_of(r@) == common_headers(),
    {
        self.build_headers()
    }

    /// Nuvei captures at once or on demand; it neither captures in parts
    /// nor on a schedule.
    pub fn validate_capture_method(&self, capture_method: Option<CaptureMethod>) -> (r: Result<
        (),
        ConnectorError,
    >)
        ensures
            r == match capture_method {
                None | Some(CaptureMethod::Automatic) | Some(CaptureMethod::Manual) => Ok::<
                    (),
                    ConnectorError,
                >(()),
                Some(method) => Err::<(), ConnectorError>(
                    ConnectorError::NotImplemented { flow: Capability::CaptureMethod(method) },
                ),
            },
    {
        let capture_method = match capture_method {
            Some(method) => method,
            None => CaptureMethod::Automatic,
        };
        match capture_method {
            CaptureMethod::Automatic | CaptureMethod::Manual => Ok(()),
            CaptureMethod::ManualMultiple | CaptureMethod::Scheduled => Err(
                ConnectorError::NotImplemented { flow: Capability::CaptureMethod(capture_method) },
            ),
        }
    }

    /// The URL of a flow's endpoint.
    pub fn get_url(&self, flow: Flow, connectors: &Connectors) -> (r: Option<String>)
        ensures
            match endpoint(flow) {
                Some(path) => r matches Some(url) && url@ == connectors.nuvei.base_url@ + path,
                None => r is None,
            },
    {
        let path = match flow {
            Flow::Authorize | Flow::CompleteAuthorize => "ppp/api/v1/payment.do",
            Flow::Void => "ppp/api/v1/voidTransaction.do",
            Flow::PSync => "ppp/api/v1/getPaymentStatus.do",
            Flow::Capture => "ppp/api/v1/settleTransaction.do",
            Flow::AuthorizeSessionToken => "ppp/api/v1/getSessionToken.do",
            Flow::InitPayment => "ppp/api/v1/initPayment.do",
            Flow::Execute => "ppp/api/v1/refundTransaction.do",
            _ => {
                return None;
            },
        };
        Some(String::from_str(self.base_url(connectors)).concat(path))
    }

    /// Assembles the request of a flow around its body.
    ///
    /// Setting up a mandate is not implemented. A flow that Nuvei has no
    /// call for needs no request. Every other flow posts the body to its
    /// endpoint with the common headers.
    pub fn build_request(&self, flow: Flow, connectors: &Connectors, body: String) -> (r: Result<
        Option<Request>,
        ConnectorError,
    >)
        ensures
            flow == Flow::SetupMandate ==> r == Err::<Option<Request>, ConnectorError>(
                ConnectorError::NotImplemented { flow: Capability::SetupMandate },
            ),
            flow != Flow::SetupMandate ==> match endpoint(flow) {
                None => r matches Ok(None),
                Some(path) => {
                    &&& r matches Ok(Some(request))
                    &&& request.method == Method::Post
                    &&& request.url@ == connectors.nuvei.base_url@ + path
                    &&& pairs_of(request.headers@) == common_headers()
                    &&& request.body == Some(body)
                },
            },
    {
        match flow {
            Flow::SetupMandate => {
                return Err(ConnectorError::NotImplemented { flow: Capability::SetupMandate });
            },
            _ => {},
        }
        match self.get_url(flow, connectors) {
            None => Ok(None),
            Some(url) => Ok(
                Some(
                    Request {
                        method: Method::Post,
                        url,
                        headers: self.get_headers(),
                        body: Some(body),
                    },
                ),
            ),
        }
    }

    /// Takes the answer of a call into the context of the call.
    ///
    /// What came over the wire is recorded for observation whether it
    /// could be read or not. An answer that could not be read fails the
    /// handling. One that could be read sets the pending outcome and the
    /// status of the attempt, and hands on the session token where it
    /// carries one; the rest of the context stays as it was.
    pub fn handle_response(
        &self,
        data: &RouterData,
        event_builder: &mut ConnectorEvent,
        raw: String,
        status_code: u16,
        parsed: Option<NuveiPaymentsResponse>,
    ) -> (r: Result<RouterData, ConnectorError>)
        ensures
            *final(event_builder) == (ConnectorEvent {
                flow: old(event_builder).flow,
                response_body: Some(raw),
                status_code: Some(status_code),
            }),
            match parsed {
                None => r == Err::<RouterData, ConnectorError>(
                    ConnectorError::ResponseHandlingFailed,
                ),
                Some(response) => {
                    &&& r matches Ok(after)
                    &&& is_outcome_of(after.response, response, status_code)
                    &&& after == (RouterData {
                        response: after.response,
                        status: attempt_status_after(response, data.status),
                        session_token: match response.session_token {
                            Some(token) => Some(token),
                            None => data.session_token,
                        },
                        ..*data
                    })
                },
            },
    {
        event_builder.response_body = Some(raw);
        event_builder.status_code = Some(status_code);
        let response = match parsed {
            Some(response) => response,
            None => {
                return Err(ConnectorError::ResponseHandlingFailed);
            },
        };
        let status = match response.transaction_status {
            Some(NuveiTransactionStatus::Approved) => match response.transaction_type {
                Some(NuveiTransactionType::Auth) => AttemptStatus::Authorized,
                Some(NuveiTransactionType::Sale) | Some(NuveiTransactionType::Settle) => {
                    AttemptStatus::Charged
                },
                Some(NuveiTransactionType::Void) => AttemptStatus::Voided,
                _ => AttemptStatus::Pending,
            },
            Some(NuveiTransactionStatus::Declined) | Some(NuveiTransactionStatus::Error) => {
                match response.transaction_type {
                    Some(NuveiTransactionType::Auth) => AttemptStatus::AuthorizationFailed,
                    Some(NuveiTransactionType::Void) => AttemptStatus::VoidFailed,
                    Some(NuveiTransactionType::Auth3D) => AttemptStatus::AuthenticationFailed,
                    _ => AttemptStatus::Failure,
                }
            },
            Some(NuveiTransactionStatus::Pending) => AttemptStatus::Pending,
            Some(NuveiTransactionStatus::Redirect) => AttemptStatus::AuthenticationPending,
            None => data.status,
        };
        let refusal = match response.transaction_status {
            Some(NuveiTransactionStatus::Declined) | Some(NuveiTransactionStatus::Error) => true,
            _ => false,
        };
        let session_token = match &response.session_token {
            Some(token) => Some(token.clone()),
            None => data.session_token.clone(),
        };
        let NuveiPaymentsResponse {
            transaction_status,
            transaction_type: _,
            transaction_id,
            session_token: answered_token,
        } = response;
        let outcome = if refusal {
            Err(
                ErrorResponse {
                    code: String::from_str("No error code"),
                    message: String::from_str("No error message"),
                    reason: transaction_id,
                    status_code,
                },
            )
        } else {
            match (transaction_status, answered_token) {
                (None, Some(token)) => Ok(
                    PaymentsResponseData::SessionTokenResponse { session_token: token },
                ),
                _ => Ok(
                    PaymentsResponseData::TransactionResponse {
                        resource_id: match transaction_id {
                            Some(id) => id,
                            None => String::new(),
                        },
                        network_txn_id: None,
                        mandate_reference: None,
                    },
                ),
            }
        };
        let mut after = data.clone();
        after.response = outcome;
        after.status = status;
        after.session_token = session_token;
        Ok(after)
    }

    /// Takes the body of an answer that reports an error, and records it.
    pub fn get_error_response(
        &self,
        event_builder: &mut ConnectorEvent,
        raw: String,
        status_code: u16,
    ) -> (r: ErrorResponse)
        ensures
            *final(event_builder) == (ConnectorEvent {
                flow: old(event_builder).flow,
                response_body: Some(raw),
                status_code: Some(status_code),
            }),
            r.status_code == status_code,
            r.code@ == "No error code"@,
            r.message@ == "No error message"@,
            r.reason == Some(raw),
    {
        event_builder.response_body = Some(raw.clone());
        event_builder.status_code = Some(status_code);
        ErrorResponse {
            code: String::from_str("No error code"),
            message: String::from_str("No error message"),
            reason: Some(raw),
            status_code,
        }
    }

    /// One step of the calls that precede an authorization: the session
    /// token first, then, for a card that is to be authenticated, the check
    /// of its enrollment, whose outcome is written into the request before
    /// the authorization itself goes out.
    pub fn execute_pretasks(
        &self,
        router_data: &mut RouterData,
        state: PretaskState,
        event: PretaskEvent,
    ) -> (r: (PretaskState, PretaskStep))
        ensures
            pretask_transition(*old(router_data), state, event, *final(router_data), r.0, r.1),
    {
        match (state, event) {
            (PretaskState::Start, PretaskEvent::Begin) => (
                PretaskState::AwaitingSessionToken,
                PretaskStep::RequestSessionToken,
            ),
            (PretaskState::AwaitingSessionToken, PretaskEvent::SessionToken { session_token }) => {
                router_data.session_token = session_token;
                match (router_data.auth_type, router_data.payment_method) {
                    (AuthenticationType::ThreeDs, PaymentMethod::Card) => (
                        PretaskState::AwaitingEnrollment,
                        PretaskStep::InitPayment,
                    ),
                    _ => {
                        router_data.request.enrolled_for_3ds = false;
                        router_data.request.related_transaction_id = None;
                        (PretaskState::Finished, PretaskStep::Finish(Ok(())))
                    },
                }
            },
            (PretaskState::AwaitingEnrollment, PretaskEvent::Enrollment(answer)) => {
                let (enrolled_for_3ds, related_transaction_id) = match answer {
                    Ok(
                        PaymentsResponseData::ThreeDSEnrollmentResponse {
                            enrolled_v2,
                            related_transaction_id,
                        },
                    ) => (enrolled_v2, related_transaction_id),
                    _ => (false, None),
                };
                router_data.request.enrolled_for_3ds = enrolled_for_3ds;
                router_data.request.related_transaction_id = related_transaction_id;
                (PretaskState::Finished, PretaskStep::Finish(Ok(())))
            },
            (PretaskState::AwaitingSessionToken, PretaskEvent::CallFailed(e)) => (
                PretaskState::Finished,
                PretaskStep::Finish(Err(e)),
            ),
            (PretaskState::AwaitingEnrollment, PretaskEvent::CallFailed(e)) => (
                PretaskState::Finished,
                PretaskStep::Finish(Err(e)),
            ),
            _ => (
                PretaskState::Finished,
                PretaskStep::Finish(Err(ConnectorError::ResponseHandlingFailed)),
            ),
        }
    }

    /// Webhooks of Nuvei are signed with SHA-256.
    pub fn get_webhook_source_verification_algorithm(
        &self,
        _request: &IncomingWebhookRequestDetails,
    ) -> (r: SignatureAlgorithm)
        ensures
            r == SignatureAlgorithm::Sha256,
    {
        SignatureAlgorithm::Sha256
    }

    /// The signature of a webhook: the header `advanceResponseChecksum`, in
    /// hexadecimal.
    pub fn get_webhook_source_verification_signature(
        &self,
        request: &IncomingWebhookRequestDetails,
    ) -> (r: Result<Vec<u8>, ConnectorError>)
        ensures
            match signature_in(request.headers@) {
                Ok(signature) => r matches Ok(bytes) && bytes@ == signature,
                Err(e) => r == Err::<Vec<u8>, ConnectorError>(e),
            },
    {
        let value = match get_header_key_value("advanceResponseChecksum", &request.headers) {
            Some(value) => value,
            None => {
                return Err(ConnectorError::WebhookSourceVerificationFailed);
            },
        };
        match hex_decode(value.as_str().as_bytes()) {
            Some(signature) => Ok(signature),
            None => Err(ConnectorError::WebhookResponseEncodingFailed),
        }
    }

    /// The message that the signature of a webhook is taken over,
    /// reconstructed from its query parameters and the shared secret.
    pub fn get_webhook_source_verification_message(
        &self,
        request: &IncomingWebhookRequestDetails,
        _merchant_id: &str,
        connector_webhook_secrets: &ConnectorWebhookSecrets,
    ) -> (r: Result<Vec<u8>, ConnectorError>)
        ensures
            match urlencoded_pairs(request.query_params@) {
                None => r == Err::<Vec<u8>, ConnectorError>(
                    ConnectorError::WebhookBodyDecodingFailed,
                ),
                Some(pairs) => match message_for(pairs, connector_webhook_secrets.secret@) {
                    Ok(message) => r matches Ok(bytes) && bytes@ == message,
                    Err(e) => r == Err::<Vec<u8>, ConnectorError>(e),
                },
            },
    {
        let body = match parse_urlencoded(request.query_params.as_str()) {
            Some(pairs) => pairs,
            None => {
                return Err(ConnectorError::WebhookBodyDecodingFailed);
            },
        };
        signed_message_of(&body, connector_webhook_secrets.secret.as_slice())
    }

    /// Whether a signature is that of a message: it is, exactly if it is
    /// the SHA-256 digest of the message.
    pub fn verify_signature(&self, signature: &[u8], message: &[u8]) -> (r: bool)
        ensures
            r == (sha256_digest(message@) == signature@),
    {
        let digest = sha256(message);
        same_bytes(digest.as_slice(), signature)
    }

    /// Verifies the source of a webhook: the signature in its headers has
    /// to be the digest of the message reconstructed from its query
    /// parameters and the secret. Whatever cannot be read is an error, and
    /// the signature is read first.
    pub fn verify_webhook_source(
        &self,
        request: &IncomingWebhookRequestDetails,
        merchant_id: &str,
        connector_webhook_secrets: &ConnectorWebhookSecrets,
    ) -> (r: Result<bool, ConnectorError>)
        ensures
            r == match signature_in(request.headers@) {
                Err(e) => Err::<bool, ConnectorError>(e),
                Ok(signature) => match urlencoded_pairs(request.query_params@) {
                    None => Err(ConnectorError::WebhookBodyDecodingFailed),
                    Some(pairs) => match message_for(pairs, connector_webhook_secrets.secret@) {
                        Err(e) => Err(e),
                        Ok(message) => Ok(sha256_digest(message) == signature),
                    },
                },
            },
    {
        let signature = self.get_webhook_source_verification_signature(request)?;
        let message = self.get_webhook_source_verification_message(
            request,
            merchant_id,
            connector_webhook_secrets,
        )?;
        Ok(self.verify_signature(signature.as_slice(), message.as_slice()))
    }

    /// The payment that a webhook is about: the transaction id in its query
    /// parameters, as the connector's id of the transaction.
    pub fn get_webhook_object_reference_id(&self, request: &IncomingWebhookRequestDetails) -> (r:
        Result<ObjectReferenceId, ConnectorError>)
        ensures
            match urlencoded_pairs(request.query_params@) {
                Some(pairs) => match required_value(pairs, "ppp_TransactionID"@) {
                    Some(id) => r matches Ok(
                        ObjectReferenceId::PaymentId(PaymentIdType::ConnectorTransactionId(found)),
                    ) && found@ == id,
                    None => r == Err::<ObjectReferenceId, ConnectorError>(
                        ConnectorError::WebhookBodyDecodingFailed,
                    ),
                },
                None => r == Err::<ObjectReferenceId, ConnectorError>(
                    ConnectorError::WebhookBodyDecodingFailed,
                ),
            },
    {
        let body = match parse_urlencoded(request.query_params.as_str()) {
            Some(pairs) => pairs,
            None => {
                return Err(ConnectorError::WebhookBodyDecodingFailed);
            },
        };
        match required_field(&body, "ppp_TransactionID") {
            Some(id) => Ok(
                ObjectReferenceId::PaymentId(PaymentIdType::ConnectorTransactionId(id.clone())),
            ),
            None => Err(ConnectorError::WebhookBodyDecodingFailed),
        }
    }

    /// What a webhook means for the pipeline, from the status in its query
    /// parameters.
    pub fn get_webhook_event_type(&self, request: &IncomingWebhookRequestDetails) -> (r: Result<
        IncomingWebhookEvent,
        ConnectorError,
    >)
        ensures
            r == match urlencoded_pairs(request.query_params@) {
                Some(pairs) => match required_value(pairs, "Status"@) {
                    Some(status) => Ok::<IncomingWebhookEvent, ConnectorError>(
                        event_of(status_of(status)),
                    ),
                    None => Err(ConnectorError::WebhookBodyDecodingFailed),
                },
                None => Err(ConnectorError::WebhookBodyDecodingFailed),
            },
    {
        let body = match parse_urlencoded(request.query_params.as_str()) {
            Some(pairs) => pairs,
            None => {
                return Err(ConnectorError::WebhookBodyDecodingFailed);
            },
        };
        match required_field(&body, "Status") {
            Some(status) => Ok(
                match parse_status(status.as_str()) {
                    NuveiWebhookStatus::Approved => IncomingWebhookEvent::PaymentIntentSuccess,
                    NuveiWebhookStatus::Declined => IncomingWebhookEvent::PaymentIntentFailure,
                    NuveiWebhookStatus::Unknown
                    | NuveiWebhookStatus::Pending
                    | NuveiWebhookStatus::Update => IncomingWebhookEvent::EventNotSupported,
                },
            ),
            None => Err(ConnectorError::WebhookBodyDecodingFailed),
        }
    }

    /// The payment response that a webhook amounts to: approved or declined
    /// as the webhook says, with the transaction id that it names.
    pub fn get_webhook_resource_object(&self, request: &IncomingWebhookRequestDetails) -> (r:
        Result<NuveiPaymentsResponse, ConnectorError>)
        ensures
            match urlencoded_pairs(request.query_params@) {
                Some(pairs) => match details_in(pairs) {
                    Some(details) => {
                        &&& r matches Ok(response)
                        &&& response.transaction_status == match details.status {
                            NuveiWebhookStatus::Approved => Some(NuveiTransactionStatus::Approved),
                            NuveiWebhookStatus::Declined => Some(NuveiTransactionStatus::Declined),
                            _ => None,
                        }
                        &&& response.transaction_type is None
                        &&& crate::json::text_view(response.transaction_id)
                            == details.transaction_id
                        &&& response.session_token is None
                    },
                    None => r == Err::<NuveiPaymentsResponse, ConnectorError>(
                        ConnectorError::WebhookBodyDecodingFailed,
                    ),
                },
                None => r == Err::<NuveiPaymentsResponse, ConnectorError>(
                    ConnectorError::WebhookBodyDecodingFailed,
                ),
            },
    {
        let body = match parse_urlencoded(request.query_params.as_str()) {
            Some(pairs) => pairs,
            None => {
                return Err(ConnectorError::WebhookBodyDecodingFailed);
            },
        };
        let details = webhook_details(&body)?;
        Ok(
            NuveiPaymentsResponse {
                transaction_status: match details.status {
                    NuveiWebhookStatus::Approved => Some(NuveiTransactionStatus::Approved),
                    NuveiWebhookStatus::Declined => Some(NuveiTransactionStatus::Declined),
                    _ => None,
                },
                transaction_type: None,
                transaction_id: details.transaction_id,
                session_token: None,
            },
        )
    }

    /// Decides how the pipeline goes on when the customer comes back from
    /// a redirect.
    ///
    /// A sync, and an authentication that completes the authorization, ask
    /// the connector. So does a completed authorization without payload.
    /// With a payload the challenge response in it decides.
    pub fn get_flow_type(
        &self,
        _query_params: &str,
        json_payload: Option<&str>,
        action: PaymentAction,
    ) -> (r: Result<CallConnectorAction, ConnectorError>)
        ensures
            r == match action {
                PaymentAction::PSync | PaymentAction::PaymentAuthenticateCompleteAuthorize => Ok::<
                    CallConnectorAction,
                    ConnectorError,
                >(CallConnectorAction::Trigger),
                PaymentAction::CompleteAuthorize => match json_payload {
                    Some(payload) => flow_for_payload(payload@),
                    None => Ok(CallConnectorAction::Trigger),
                },
            },
    {
        match action {
            PaymentAction::PSync | PaymentAction::PaymentAuthenticateCompleteAuthorize => Ok(
                CallConnectorAction::Trigger,
            ),
            PaymentAction::CompleteAuthorize => {
                let payload = match json_payload {
                    Some(payload) => payload,
                    None => {
                        return Ok(CallConnectorAction::Trigger);
                    },
                };
                let redirect_response = match parse_json_object(payload.as_bytes()) {
                    Some(members) => members,
                    None => {
                        return Err(ConnectorError::ResponseHandlingFailed);
                    },
                };
                let cres = match find_member(&redirect_response, "cres") {
                    Some(JsonMember::Text(cres)) => cres,
                    _ => {
                        return Err(ConnectorError::ResponseHandlingFailed);
                    },
                };
                let decoded = match base64_decode(cres.as_str().as_bytes()) {
                    Some(decoded) => decoded,
                    None => {
                        return Err(ConnectorError::ResponseHandlingFailed);
                    },
                };
                let acs_response = match parse_json_object(decoded.as_slice()) {
                    Some(members) => members,
                    None => {
                        return Err(ConnectorError::ResponseHandlingFailed);
                    },
                };
                flow_after_challenge(&acs_response)
            },
        }
    }
}

/// One for a difference, zero for none.
pub open spec fn one(differs: bool) -> int {
    if differs {
        1
    } else {
        0
    }
}

/// In how many of the seven signed fields two webhooks differ.
pub open spec fn differing_fields(
    secret: Seq<char>,
    details: WebhookDetails,
    other_secret: Seq<char>,
    other: WebhookDetails,
) -> int {
    one(secret != other_secret) + one(details.total_amount != other.total_amount) + one(
        details.currency != other.currency,
    ) + one(details.response_time_stamp != other.response_time_stamp) + one(
        details.ppp_transaction_id != other.ppp_transaction_id,
    ) + one(details.status != other.status) + one(details.product_id != other.product_id)
}

/// Between the same beginning and the same end, two texts are equal only
/// if their middles are.
pub proof fn lemma_middle_decides(
    before: Seq<char>,
    x: Seq<char>,
    y: Seq<char>,
    after: Seq<char>,
)
    ensures
        before + x + after == before + y + after <==> x == y,
{
    let a = before + x + after;
    let b = before + y + after;
    if a == b {
        assert(a.len() == b.len());
        assert(x.len() == y.len());
        assert(a.subrange(before.len() as int, (before.len() + x.len()) as int) =~= x);
        assert(b.subrange(before.len() as int, (before.len() + y.len()) as int) =~= y);
    }
}

/// Different statuses are written differently.
pub proof fn lemma_status_text_tells_apart(a: NuveiWebhookStatus, b: NuveiWebhookStatus)
    ensures
        status_text(a) == status_text(b) <==> a == b,
{
    reveal_strlit("APPROVED");
    reveal_strlit("DECLINED");
    reveal_strlit("PENDING");
    reveal_strlit("UPDATE");
    reveal_strlit("UNKNOWN");
    if a != b && status_text(a) == status_text(b) {
        assert(status_text(a)[0] == status_text(b)[0]);
        assert(status_text(a)[1] == status_text(b)[1]);
    }
}

/// A status that is written out reads back as itself, but for the unknown
/// status, which stands for every other text.
pub proof fn lemma_status_reads_back(status: NuveiWebhookStatus)
    ensures
        status_of(status_text(status)) == status,
{
    reveal_strlit("APPROVED");
    reveal_strlit("DECLINED");
    reveal_strlit("PENDING");
    reveal_strlit("UPDATE");
    reveal_strlit("UNKNOWN");
    let text = status_text(status);
    if status != NuveiWebhookStatus::Approved {
        assert(text[0] != "APPROVED"@[0]);
    }
    if status != NuveiWebhookStatus::Declined {
        assert(text[0] != "DECLINED"@[0]);
    }
    if status != NuveiWebhookStatus::Pending {
        assert(text[0] != "PENDING"@[0]);
    }
    if status != NuveiWebhookStatus::Update {
        assert(text[0] != "UPDATE"@[0] || text[1] != "UPDATE"@[1]);
    }
}

/// Altering any one of the signed fields, the secret among them, alters
/// the message that is verified: the signed text is another, and so are its
/// bytes. The digest that a signature is compared with is then taken over
/// another message.
pub proof fn lemma_altering_one_field_alters_message(
    secret: Seq<char>,
    details: WebhookDetails,
    other_secret: Seq<char>,
    other: WebhookDetails,
)
    requires
        differing_fields(secret, details, other_secret, other) == 1,
    ensures
        signed_text(secret, details) != signed_text(other_secret, other),
        encode_utf8(signed_text(secret, details)) != encode_utf8(
            signed_text(other_secret, other),
        ),
{
    let a = signed_text(secret, details);
    let b = signed_text(other_secret, other);
    let none = Seq::<char>::empty();
    lemma_status_text_tells_apart(details.status, other.status);
    let st = status_text(details.status);
    let st2 = status_text(other.status);
    if secret != other_secret {
        let after = details.total_amount + details.currency + details.response_time_stamp
            + details.ppp_transaction_id + st + details.product_id;
        assert(a =~= none + secret + after);
        assert(b =~= none + other_secret + after);
        lemma_middle_decides(none, secret, other_secret, after);
    } else if details.total_amount != other.total_amount {
        let after = details.currency + details.response_time_stamp + details.ppp_transaction_id
            + st + details.product_id;
        assert(a =~= secret + details.total_amount + after);
        assert(b =~= secret + other.total_amount + after);
        lemma_middle_decides(secret, details.total_amount, other.total_amount, after);
    } else if details.currency != other.currency {
        let before = secret + details.total_amount;
        let after = details.response_time_stamp + details.ppp_transaction_id + st
            + details.product_id;
        assert(a =~= before + details.currency + after);
        assert(b =~= before + other.currency + after);
        lemma_middle_decides(before, details.currency, other.currency, after);
    } else if details.response_time_stamp != other.response_time_stamp {
        let before = secret + details.total_amount + details.currency;
        let after = details.ppp_transaction_id + st + details.product_id;
        assert(a =~= before + details.response_time_stamp + after);
        assert(b =~= before + other.response_time_stamp + after);
        lemma_middle_decides(
            before,
            details.response_time_stamp,
            other.response_time_stamp,
            after,
        );
    } else if details.ppp_transaction_id != other.ppp_transaction_id {
        let before = secret + details.total_amount + details.currency
            + details.response_time_stamp;
        let after = st + details.product_id;
        assert(a =~= before + details.ppp_transaction_id + after);
        assert(b =~= before + other.ppp_transaction_id + after);
        lemma_middle_decides(before, details.ppp_transaction_id, other.ppp_transaction_id, after);
    } else if details.status != other.status {
        let before = secret + details.total_amount + details.currency
            + details.response_time_stamp + details.ppp_transaction_id;
        assert(a =~= before + st + details.product_id);
        assert(b =~= before + st2 + details.product_id);
        lemma_middle_decides(before, st, st2, details.product_id);
    } else {
        let before = secret + details.total_amount + details.currency
            + details.response_time_stamp + details.ppp_transaction_id + st;
        assert(a =~= before + details.product_id + none);
        assert(b =~= before + other.product_id + none);
        lemma_middle_decides(before, details.product_id, other.product_id, none);
    }
    assert(a != b);
    vstd::utf8::encode_utf8_decode_utf8(a);
    vstd::utf8::encode_utf8_decode_utf8(b);
}

} // verus!
