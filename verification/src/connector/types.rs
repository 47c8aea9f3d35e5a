//! What every connector adapter works with: the connector settings, the
//! requests it assembles, and what it makes of webhooks and redirects.

use vstd::prelude::*;

use crate::enums::AttemptStatus;

verus! {

/// The settings of one connector.
#[derive(Debug, PartialEq, Eq)]
pub struct ConnectorParams {
    pub base_url: String,
}

/// The settings of the connectors, passed as a snapshot.
#[derive(Debug, PartialEq, Eq)]
pub struct Connectors {
    pub nuvei: ConnectorParams,
}

/// How a merchant authenticates at a connector.
#[derive(Debug, PartialEq, Eq)]
pub enum ConnectorAuthType {
    HeaderKey { api_key: String },
    BodyKey { api_key: String, key1: String },
    SignatureKey { api_key: String, key1: String, api_secret: String },
    NoKey,
}

/// The flows that the pipeline can ask of a connector.
#[derive(Clone, Copy, Debug, PartialEq, Eq, Structural)]
pub enum Flow {
    Authorize,
    AuthorizeSessionToken,
    InitPayment,
    CompleteAuthorize,
    Capture,
    Void,
    PSync,
    Session,
    SetupMandate,
    PaymentMethodToken,
    AccessTokenAuth,
    Execute,
    RSync,
}

#[derive(Clone, Copy, Debug, PartialEq, Eq, Structural)]
pub enum Method {
    Get,
    Post,
    Put,
    Delete,
}

/// A request to a connector, ready to be sent.
#[derive(Debug, PartialEq, Eq)]
pub struct Request {
    pub method: Method,
    pub url: String,
    pub headers: Vec<(String, String)>,
    pub body: Option<String>,
}

/// What is recorded of a connector call for observation.
#[derive(Debug, PartialEq, Eq)]
pub struct ConnectorEvent {
    pub flow: Flow,
    pub response_body: Option<String>,
    pub status_code: Option<u16>,
}

/// An incoming webhook as the transport delivers it.
#[derive(Debug, PartialEq, Eq)]
pub struct IncomingWebhookRequestDetails {
    pub headers: Vec<(String, String)>,
    pub body: Vec<u8>,
    pub query_params: String,
}

/// The secrets that a merchant shares with a connector for webhooks.
#[derive(Debug, PartialEq, Eq)]
pub struct ConnectorWebhookSecrets {
    pub secret: Vec<u8>,
    pub additional_secret: Option<String>,
}

/// How the signature of a webhook is computed.
#[derive(Clone, Copy, Debug, PartialEq, Eq, Structural)]
pub enum SignatureAlgorithm {
    Sha256,
}

/// What a webhook means for the pipeline.
#[derive(Clone, Copy, Debug, PartialEq, Eq, Structural)]
pub enum IncomingWebhookEvent {
    PaymentIntentSuccess,
    PaymentIntentFailure,
    EventNotSupported,
}

/// How a webhook names the payment that it is about.
#[derive(Debug, PartialEq, Eq)]
pub enum PaymentIdType {
    PaymentIntentId(String),
    ConnectorTransactionId(String),
    PaymentAttemptId(String),
}

/// What a webhook is about.
#[derive(Debug, PartialEq, Eq)]
pub enum ObjectReferenceId {
    PaymentId(PaymentIdType),
}

/// What the customer comes back from.
#[derive(Clone, Copy, Debug, PartialEq, Eq, Structural)]
pub enum PaymentAction {
    PSync,
    CompleteAuthorize,
    PaymentAuthenticateCompleteAuthorize,
}

/// How the pipeline goes on after a redirect.
#[derive(Debug, PartialEq, Eq)]
pub enum CallConnectorAction {
    /// Ask the connector.
    Trigger,
    /// Take this status without asking the connector.
    StatusUpdate { status: AttemptStatus, error_code: Option<String>, error_message: Option<String> },
}

} // verus!
