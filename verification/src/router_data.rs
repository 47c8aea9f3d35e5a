//! The per-call context of a connector call: what is asked of the connector
//! and the slot for what it answered. A context is a value of its own for
//! each call and is never shared between calls.

use vstd::prelude::*;

use crate::enums::{AttemptStatus, AuthenticationType, FutureUsage, PaymentMethod};
use crate::payment_methods::{CardDetail, CustomerAcceptance};

verus! {

/// What a connector says about a mandate that it set up.
#[derive(Debug, PartialEq, Eq)]
pub struct MandateReference {
    pub connector_mandate_id: Option<String>,
    pub payment_method_id: Option<String>,
}

impl Clone for MandateReference {
    fn clone(&self) -> (r: Self)
        ensures
            r == *self,
    {
        MandateReference {
            connector_mandate_id: self.connector_mandate_id.clone(),
            payment_method_id: self.payment_method_id.clone(),
        }
    }
}

/// A connector's answer, normalised.
#[derive(Debug, PartialEq, Eq)]
pub enum PaymentsResponseData {
    TransactionResponse {
        resource_id: String,
        network_txn_id: Option<String>,
        mandate_reference: Option<MandateReference>,
    },
    SessionTokenResponse { session_token: String },
    TokenizationResponse { token: String },
    ThreeDSEnrollmentResponse { enrolled_v2: bool, related_transaction_id: Option<String> },
}

impl Clone for PaymentsResponseData {
    fn clone(&self) -> (r: Self)
        ensures
            r == *self,
    {
        match self {
            PaymentsResponseData::TransactionResponse {
                resource_id,
                network_txn_id,
                mandate_reference,
            } => PaymentsResponseData::TransactionResponse {
                resource_id: resource_id.clone(),
                network_txn_id: network_txn_id.clone(),
                mandate_reference: match mandate_reference {
                    Some(reference) => Some(reference.clone()),
                    None => None,
                },
            },
            PaymentsResponseData::SessionTokenResponse { session_token } => {
                PaymentsResponseData::SessionTokenResponse { session_token: session_token.clone() }
            },
            PaymentsResponseData::TokenizationResponse { token } => {
                PaymentsResponseData::TokenizationResponse { token: token.clone() }
            },
            PaymentsResponseData::ThreeDSEnrollmentResponse {
                enrolled_v2,
                related_transaction_id,
            } => PaymentsResponseData::ThreeDSEnrollmentResponse {
                enrolled_v2: *enrolled_v2,
                related_transaction_id: related_transaction_id.clone(),
            },
        }
    }
}

/// A connector's refusal, normalised.
#[derive(Debug, PartialEq, Eq)]
pub struct ErrorResponse {
    pub code: String,
    pub message: String,
    pub reason: Option<String>,
    pub status_code: u16,
}

impl Clone for ErrorResponse {
    fn clone(&self) -> (r: Self)
        ensures
            r == *self,
    {
        ErrorResponse {
            code: self.code.clone(),
            message: self.message.clone(),
            reason: self.reason.clone(),
            status_code: self.status_code,
        }
    }
}

/// A token that stands for the payment method at the connector.
#[derive(Debug, PartialEq, Eq)]
pub enum PaymentMethodToken {
    Token(String),
    ApplePayDecrypt,
}

impl Clone for PaymentMethodToken {
    fn clone(&self) -> (r: Self)
        ensures
            r == *self,
    {
        match self {
            PaymentMethodToken::Token(token) => PaymentMethodToken::Token(token.clone()),
            PaymentMethodToken::ApplePayDecrypt => PaymentMethodToken::ApplePayDecrypt,
        }
    }
}

/// A mandate that the request asks to set up.
#[derive(Clone, Copy, Debug, PartialEq, Eq, Structural)]
pub struct MandateData {
    pub customer_acceptance: Option<CustomerAcceptance>,
}

/// The request payload of an authorization.
#[derive(Debug, PartialEq, Eq)]
pub struct PaymentsAuthorizeData {
    pub setup_future_usage: Option<FutureUsage>,
    pub setup_mandate_details: Option<MandateData>,
    pub customer_acceptance: Option<CustomerAcceptance>,
    /// The card, where the payment method is one.
    pub card: Option<CardDetail>,
    pub enrolled_for_3ds: bool,
    pub related_transaction_id: Option<String>,
    pub session_token: Option<String>,
}

impl Clone for PaymentsAuthorizeData {
    fn clone(&self) -> (r: Self)
        ensures
            r == *self,
    {
        PaymentsAuthorizeData {
            setup_future_usage: self.setup_future_usage,
            setup_mandate_details: self.setup_mandate_details,
            customer_acceptance: self.customer_acceptance,
            card: match &self.card {
                Some(card) => Some(card.clone()),
                None => None,
            },
            enrolled_for_3ds: self.enrolled_for_3ds,
            related_transaction_id: self.related_transaction_id.clone(),
            session_token: self.session_token.clone(),
        }
    }
}

/// The context of one connector call.
#[derive(Debug, PartialEq, Eq)]
pub struct RouterData {
    pub request: PaymentsAuthorizeData,
    /// The pending outcome: a success value or a structured error.
    pub response: Result<PaymentsResponseData, ErrorResponse>,
    pub payment_method_token: Option<PaymentMethodToken>,
    pub payment_method: PaymentMethod,
    pub status: AttemptStatus,
    pub session_token: Option<String>,
    pub auth_type: AuthenticationType,
}

impl Clone for RouterData {
    fn clone(&self) -> (r: Self)
        ensures
            r == *self,
    {
        RouterData {
            request: self.request.clone(),
            response: clone_response(&self.response),
            payment_method_token: clone_token(&self.payment_method_token),
            payment_method: self.payment_method,
            status: self.status,
            session_token: self.session_token.clone(),
            auth_type: self.auth_type,
        }
    }
}

/// A copy of a pending outcome.
pub fn clone_response(response: &Result<PaymentsResponseData, ErrorResponse>) -> (r: Result<
    PaymentsResponseData,
    ErrorResponse,
>)
    ensures
        r == *response,
{
    match response {
        Ok(data) => Ok(data.clone()),
        Err(error) => Err(error.clone()),
    }
}

/// A copy of an optional token.
pub fn clone_token(token: &Option<PaymentMethodToken>) -> (r: Option<PaymentMethodToken>)
    ensures
        r == *token,
{
    match token {
        Some(token) => Some(token.clone()),
        None => None,
    }
}

} // verus!
