//! Closed vocabularies shared by the pipeline, the router and the adapters.

use vstd::prelude::*;

verus! {

/// Lifecycle status of a payment intent.
#[derive(Clone, Copy, Debug, PartialEq, Eq, Structural)]
pub enum IntentStatus {
    RequiresPaymentMethod,
    RequiresConfirmation,
    RequiresCustomerAction,
    RequiresCapture,
    Succeeded,
    PartiallyCaptured,
    Failed,
}

impl IntentStatus {
    /// After a terminal status no transition follows.
    pub open spec fn is_terminal(self) -> bool {
        self == IntentStatus::Succeeded || self == IntentStatus::PartiallyCaptured || self
            == IntentStatus::Failed
    }
}

/// Status of one attempt of an intent against a connector.
#[derive(Clone, Copy, Debug, PartialEq, Eq, Structural)]
pub enum AttemptStatus {
    Started,
    PaymentMethodAwaited,
    ConfirmationAwaited,
    AuthenticationPending,
    AuthenticationFailed,
    Authorized,
    AuthorizationFailed,
    Charged,
    Pending,
    Voided,
    VoidFailed,
    Failure,
}

/// Whether a stored payment method may be used.
#[derive(Clone, Copy, Debug, PartialEq, Eq, Structural)]
pub enum PaymentMethodStatus {
    Active,
    Inactive,
    Processing,
}

#[derive(Clone, Copy, Debug, PartialEq, Eq, Structural)]
pub enum CaptureMethod {
    Automatic,
    Manual,
    ManualMultiple,
    Scheduled,
}

#[derive(Clone, Copy, Debug, PartialEq, Eq, Structural)]
pub enum FutureUsage {
    OffSession,
    OnSession,
}

#[derive(Clone, Copy, Debug, PartialEq, Eq, Structural)]
pub enum AuthenticationType {
    ThreeDs,
    NoThreeDs,
}

#[derive(Clone, Copy, Debug, PartialEq, Eq, Structural)]
pub enum PaymentMethod {
    Card,
    Wallet,
    BankRedirect,
    BankTransfer,
    PayLater,
}

#[derive(Clone, Copy, Debug, PartialEq, Eq, Structural)]
pub enum PaymentMethodType {
    Credit,
    Debit,
    ApplePay,
    GooglePay,
    Paypal,
    Klarna,
    Ach,
    Sepa,
}

#[derive(Clone, Copy, Debug, PartialEq, Eq, Structural)]
pub enum PaymentExperience {
    RedirectToUrl,
    InvokeSdkClient,
    DisplayQrCode,
}

#[derive(Clone, Copy, Debug, PartialEq, Eq, Structural)]
pub enum Currency {
    Aud,
    Cad,
    Chf,
    Eur,
    Gbp,
    Inr,
    Jpy,
    Sgd,
    Usd,
}

#[derive(Clone, Copy, Debug, PartialEq, Eq, Structural)]
pub enum CountryAlpha2 {
    Au,
    Ca,
    De,
    Fr,
    Gb,
    In,
    Jp,
    Sg,
    Us,
}

/// What a routing configuration applies to.
#[derive(Clone, Copy, Debug, PartialEq, Eq, Structural)]
pub enum TransactionType {
    Payment,
    Payout,
}

/// Which backing store is authoritative for a merchant's rows.
#[derive(Clone, Copy, Debug, PartialEq, Eq, Structural)]
pub enum MerchantStorageScheme {
    PostgresOnly,
    RedisKv,
}

/// A retry that the caller asked for explicitly.
#[derive(Clone, Copy, Debug, PartialEq, Eq, Structural)]
pub enum RetryAction {
    ManualRetry,
    Requeue,
}

/// The lifecycle verbs of the operation pipeline.
#[derive(Clone, Copy, Debug, PartialEq, Eq, Structural)]
pub enum Verb {
    Create,
    Update,
    Confirm,
    Capture,
    Void,
    Sync,
}

/// Which verb runs after the current one.
#[derive(Clone, Copy, Debug, PartialEq, Eq, Structural)]
pub enum NextOperation {
    /// The same verb goes on.
    Continue,
    /// Control passes to another verb.
    Advance(Verb),
}

/// How the status of an attempt decides the status of the payment method
/// saved from it: a charged or authorized attempt makes it usable, a failed
/// or voided one makes it unusable, anything else leaves it in processing.
pub open spec fn payment_method_status_of(status: AttemptStatus) -> PaymentMethodStatus {
    match status {
        AttemptStatus::Charged | AttemptStatus::Authorized => PaymentMethodStatus::Active,
        AttemptStatus::Failure
        | AttemptStatus::Voided
        | AttemptStatus::VoidFailed
        | AttemptStatus::AuthenticationFailed
        | AttemptStatus::AuthorizationFailed => PaymentMethodStatus::Inactive,
        _ => PaymentMethodStatus::Processing,
    }
}

impl PaymentMethodStatus {
    pub fn from_attempt_status(status: AttemptStatus) -> (r: PaymentMethodStatus)
        ensures
            r == payment_method_status_of(status),
    {
        match status {
            AttemptStatus::Charged | AttemptStatus::Authorized => PaymentMethodStatus::Active,
            AttemptStatus::Failure
        | AttemptStatus::Voided
        | AttemptStatus::VoidFailed
        | AttemptStatus::AuthenticationFailed
        | AttemptStatus::AuthorizationFailed => PaymentMethodStatus::Inactive,
            _ => PaymentMethodStatus::Processing,
        }
    }
}

} // verus!
