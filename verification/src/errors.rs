//! The two error taxonomies: what a caller of the pipeline is told, and what
//! a connector adapter reports. Adapter errors never reach the caller as they
//! are: [`ApiErrorResponse::from_connector_error`] translates them at the
//! pipeline boundary.

use vstd::prelude::*;

use crate::enums::{CaptureMethod, IntentStatus};

verus! {

/// What a lookup was for.
#[derive(Clone, Debug, PartialEq, Eq)]
pub enum Subject {
    Payment,
    Mandate,
    PaymentMethod,
    BusinessProfile { id: String },
    MerchantConnectorAccount { merchant_id: String },
    /// A connector that a routing algorithm refers to but the profile does
    /// not hold.
    Connector { name: String, merchant_connector_id: Option<String> },
}

/// A field of a request.
#[derive(Clone, Copy, Debug, PartialEq, Eq, Structural)]
pub enum Field {
    Amount,
    AmountToCapture,
    CaptureMethod,
    CardCvc,
    CardExpMonth,
    CardExpYear,
    ClientSecret,
    Currency,
    CustomerId,
    MandateData,
    MandateId,
    MerchantId,
    PaymentId,
    PaymentMethod,
    PaymentMethodData,
    PaymentMethodType,
    PaymentToken,
    ProfileId,
    RecurringDetails,
    SessionExpiry,
}

/// What a field should have looked like.
#[derive(Clone, Copy, Debug, PartialEq, Eq, Structural)]
pub enum ExpectedFormat {
    /// The field has to be there.
    Present,
    /// `amount_to_capture` lesser than or equal to amount.
    AmountToCaptureAtMostAmount,
    /// `merchant_id` from merchant account.
    MerchantIdOfMerchantAccount,
    /// The customer id given twice in one request has to agree.
    SameCustomerIdInBothPlaces,
    /// With automatic capture the whole amount is captured.
    AmountToCaptureEqualToAmount,
    /// An amount whose sum with the surcharge can be represented.
    AmountWithinRange,
    /// A type that belongs to the payment method.
    TypeOfThePaymentMethod,
    /// At most one of the alternatives may be given.
    AtMostOneOfAlternatives,
    /// Identifiers hold up to 64 characters.
    Identifier,
    /// A request sent by the customer names the customer of the payment.
    CustomerOfThePayment,
    /// A card verification code is three or four digits.
    ThreeOrFourDigits,
    /// A month is a number from 1 to 12.
    MonthOfTheYear,
    /// A card is good until the end of the month in which it expires.
    ExpiryNotInThePast,
    /// The client secret given is that of the payment.
    ClientSecretOfThePayment,
    /// The client secret is good until the session of the payment expires.
    ClientSecretNotExpired,
    /// A session expiry between one minute and three months.
    SessionExpiryInRange,
}

/// Why a mandate could not be set up or used.
#[derive(Clone, Copy, Debug, PartialEq, Eq, Structural)]
pub enum MandateFailure {
    /// Expected one out of recurring details and mandate data but got both.
    BothRecurringDetailsAndMandateData,
    /// Future usage is on session, yet mandate details were given.
    OnSessionWithMandateDetails,
    /// Mandate data needs a customer acceptance.
    MissingCustomerAcceptance,
}

/// What was asked for and is not offered.
#[derive(Clone, Copy, Debug, PartialEq, Eq, Structural)]
pub enum Unsupported {
    /// The operation cannot run on a payment in this status.
    UpdateInStatus(IntentStatus),
    /// Apple Pay decrypt tokens cannot be stored as connector tokens.
    ApplePayDecryptToken,
    /// The connector does not implement what was asked of it.
    ConnectorCapability,
}

/// Errors that the caller of the pipeline sees.
#[derive(Clone, Debug, PartialEq, Eq)]
pub enum ApiErrorResponse {
    NotFound { subject: Subject },
    InvalidDataFormat { field_name: Field, expected_format: ExpectedFormat },
    MandateValidationFailed { reason: MandateFailure },
    NotSupported { message: Unsupported },
    InternalServerError,
}

/// A flow or capability that a connector was asked for.
#[derive(Clone, Copy, Debug, PartialEq, Eq, Structural)]
pub enum Capability {
    SetupMandate,
    CaptureMethod(CaptureMethod),
}

/// Errors that a connector adapter reports.
#[derive(Clone, Copy, Debug, PartialEq, Eq, Structural)]
pub enum ConnectorError {
    NotImplemented { flow: Capability },
    ResponseHandlingFailed,
    WebhookBodyDecodingFailed,
    WebhookResponseEncodingFailed,
    WebhookSourceVerificationFailed,
}

/// The user-facing error that stands for an adapter error: a missing
/// capability is reported as not supported, everything else as an internal
/// error, so that nothing of the transport leaks.
pub open spec fn translated(e: ConnectorError) -> ApiErrorResponse {
    match e {
        ConnectorError::NotImplemented { .. } => ApiErrorResponse::NotSupported {
            message: Unsupported::ConnectorCapability,
        },
        _ => ApiErrorResponse::InternalServerError,
    }
}

impl ApiErrorResponse {
    pub fn from_connector_error(e: ConnectorError) -> (r: ApiErrorResponse)
        ensures
            r == translated(e),
    {
        match e {
            ConnectorError::NotImplemented { .. } => ApiErrorResponse::NotSupported {
                message: Unsupported::ConnectorCapability,
            },
            _ => ApiErrorResponse::InternalServerError,
        }
    }
}

} // verus!
