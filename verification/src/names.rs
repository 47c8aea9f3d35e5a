//! The names under which the closed vocabularies are written, and how they
//! are read back.

use vstd::prelude::*;

use crate::enums::{CaptureMethod, Currency, PaymentMethod, PaymentMethodType};
use crate::routing::types::{ComparisonType, ContextKey, RoutingAlgorithmKind};
use crate::text::same_text;

verus! {

/// The ISO 4217 code of a currency.
pub open spec fn currency_text(value: Currency) -> Seq<char> {
    match value {
        Currency::Aud => "AUD"@,
        Currency::Cad => "CAD"@,
        Currency::Chf => "CHF"@,
        Currency::Eur => "EUR"@,
        Currency::Gbp => "GBP"@,
        Currency::Inr => "INR"@,
        Currency::Jpy => "JPY"@,
        Currency::Sgd => "SGD"@,
        Currency::Usd => "USD"@,
    }
}

/// What a name stands for, if it is one.
pub open spec fn currency_of(text: Seq<char>) -> Option<Currency> {
    if text == "AUD"@ {
        Some(Currency::Aud)
    } else if text == "CAD"@ {
        Some(Currency::Cad)
    } else if text == "CHF"@ {
        Some(Currency::Chf)
    } else if text == "EUR"@ {
        Some(Currency::Eur)
    } else if text == "GBP"@ {
        Some(Currency::Gbp)
    } else if text == "INR"@ {
        Some(Currency::Inr)
    } else if text == "JPY"@ {
        Some(Currency::Jpy)
    } else if text == "SGD"@ {
        Some(Currency::Sgd)
    } else if text == "USD"@ {
        Some(Currency::Usd)
    } else {
        None
    }
}

pub fn currency_name(value: Currency) -> (r: &'static str)
    ensures
        r@ == currency_text(value),
{
    match value {
        Currency::Aud => "AUD",
        Currency::Cad => "CAD",
        Currency::Chf => "CHF",
        Currency::Eur => "EUR",
        Currency::Gbp => "GBP",
        Currency::Inr => "INR",
        Currency::Jpy => "JPY",
        Currency::Sgd => "SGD",
        Currency::Usd => "USD",
    }
}

pub fn parse_currency(text: &str) -> (r: Option<Currency>)
    ensures
        r == currency_of(text@),
{
    if same_text(text, "AUD") {
        Some(Currency::Aud)
    } else if same_text(text, "CAD") {
        Some(Currency::Cad)
    } else if same_text(text, "CHF") {
        Some(Currency::Chf)
    } else if same_text(text, "EUR") {
        Some(Currency::Eur)
    } else if same_text(text, "GBP") {
        Some(Currency::Gbp)
    } else if same_text(text, "INR") {
        Some(Currency::Inr)
    } else if same_text(text, "JPY") {
        Some(Currency::Jpy)
    } else if same_text(text, "SGD") {
        Some(Currency::Sgd)
    } else if same_text(text, "USD") {
        Some(Currency::Usd)
    } else {
        None
    }
}

/// A name that is written is read back as what it stands for.
pub proof fn lemma_currency_reads_back(value: Currency)
    ensures
        currency_of(currency_text(value)) == Some(value),
{
    reveal_strlit("AUD");
    reveal_strlit("CAD");
    reveal_strlit("CHF");
    reveal_strlit("EUR");
    reveal_strlit("GBP");
    reveal_strlit("INR");
    reveal_strlit("JPY");
    reveal_strlit("SGD");
    reveal_strlit("USD");
    assert("AUD"@[0] != "CAD"@[0]);
    assert("AUD"@[0] != "CHF"@[0]);
    assert("AUD"@[0] != "EUR"@[0]);
    assert("AUD"@[0] != "GBP"@[0]);
    assert("AUD"@[0] != "INR"@[0]);
    assert("AUD"@[0] != "JPY"@[0]);
    assert("AUD"@[0] != "SGD"@[0]);
    assert("AUD"@[0] != "USD"@[0]);
    assert("CAD"@[1] != "CHF"@[1]);
    assert("CAD"@[0] != "EUR"@[0]);
    assert("CAD"@[0] != "GBP"@[0]);
    assert("CAD"@[0] != "INR"@[0]);
    assert("CAD"@[0] != "JPY"@[0]);
    assert("CAD"@[0] != "SGD"@[0]);
    assert("CAD"@[0] != "USD"@[0]);
    assert("CHF"@[0] != "EUR"@[0]);
    assert("CHF"@[0] != "GBP"@[0]);
    assert("CHF"@[0] != "INR"@[0]);
    assert("CHF"@[0] != "JPY"@[0]);
    assert("CHF"@[0] != "SGD"@[0]);
    assert("CHF"@[0] != "USD"@[0]);
    assert("EUR"@[0] != "GBP"@[0]);
    assert("EUR"@[0] != "INR"@[0]);
    assert("EUR"@[0] != "JPY"@[0]);
    assert("EUR"@[0] != "SGD"@[0]);
    assert("EUR"@[0] != "USD"@[0]);
    assert("GBP"@[0] != "INR"@[0]);
    assert("GBP"@[0] != "JPY"@[0]);
    assert("GBP"@[0] != "SGD"@[0]);
    assert("GBP"@[0] != "USD"@[0]);
    assert("INR"@[0] != "JPY"@[0]);
    assert("INR"@[0] != "SGD"@[0]);
    assert("INR"@[0] != "USD"@[0]);
    assert("JPY"@[0] != "SGD"@[0]);
    assert("JPY"@[0] != "USD"@[0]);
    assert("SGD"@[0] != "USD"@[0]);
}

/// The name of a payment method.
pub open spec fn payment_method_text(value: PaymentMethod) -> Seq<char> {
    match value {
        PaymentMethod::Card => "card"@,
        PaymentMethod::Wallet => "wallet"@,
        PaymentMethod::BankRedirect => "bank_redirect"@,
        PaymentMethod::BankTransfer => "bank_transfer"@,
        PaymentMethod::PayLater => "pay_later"@,
    }
}

/// What a name stands for, if it is one.
pub open spec fn payment_method_of(text: Seq<char>) -> Option<PaymentMethod> {
    if text == "card"@ {
        Some(PaymentMethod::Card)
    } else if text == "wallet"@ {
        Some(PaymentMethod::Wallet)
    } else if text == "bank_redirect"@ {
        Some(PaymentMethod::BankRedirect)
    } else if text == "bank_transfer"@ {
        Some(PaymentMethod::BankTransfer)
    } else if text == "pay_later"@ {
        Some(PaymentMethod::PayLater)
    } else {
        None
    }
}

pub fn payment_method_name(value: PaymentMethod) -> (r: &'static str)
    ensures
        r@ == payment_method_text(value),
{
    match value {
        PaymentMethod::Card => "card",
        PaymentMethod::Wallet => "wallet",
        PaymentMethod::BankRedirect => "bank_redirect",
        PaymentMethod::BankTransfer => "bank_transfer",
        PaymentMethod::PayLater => "pay_later",
    }
}

pub fn parse_payment_method(text: &str) -> (r: Option<PaymentMethod>)
    ensures
        r == payment_method_of(text@),
{
    if same_text(text, "card") {
        Some(PaymentMethod::Card)
    } else if same_text(text, "wallet") {
        Some(PaymentMethod::Wallet)
    } else if same_text(text, "bank_redirect") {
        Some(PaymentMethod::BankRedirect)
    } else if same_text(text, "bank_transfer") {
        Some(PaymentMethod::BankTransfer)
    } else if same_text(text, "pay_later") {
        Some(PaymentMethod::PayLater)
    } else {
        None
    }
}

/// A name that is written is read back as what it stands for.
pub proof fn lemma_payment_method_reads_back(value: PaymentMethod)
    ensures
        payment_method_of(payment_method_text(value)) == Some(value),
{
    reveal_strlit("card");
    reveal_strlit("wallet");
    reveal_strlit("bank_redirect");
    reveal_strlit("bank_transfer");
    reveal_strlit("pay_later");
    assert("card"@.len() != "wallet"@.len());
    assert("card"@.len() != "bank_redirect"@.len());
    assert("card"@.len() != "bank_transfer"@.len());
    assert("card"@.len() != "pay_later"@.len());
    assert("wallet"@.len() != "bank_redirect"@.len());
    assert("wallet"@.len() != "bank_transfer"@.len());
    assert("wallet"@.len() != "pay_later"@.len());
    assert("bank_redirect"@[5] != "bank_transfer"@[5]);
    assert("bank_redirect"@.len() != "pay_later"@.len());
    assert("bank_transfer"@.len() != "pay_later"@.len());
}

/// The name of a payment method type.
pub open spec fn payment_method_type_text(value: PaymentMethodType) -> Seq<char> {
    match value {
        PaymentMethodType::Credit => "credit"@,
        PaymentMethodType::Debit => "debit"@,
        PaymentMethodType::ApplePay => "apple_pay"@,
        PaymentMethodType::GooglePay => "google_pay"@,
        PaymentMethodType::Paypal => "paypal"@,
        PaymentMethodType::Klarna => "klarna"@,
        PaymentMethodType::Ach => "ach"@,
        PaymentMethodType::Sepa => "sepa"@,
    }
}

/// What a name stands for, if it is one.
pub open spec fn payment_method_type_of(text: Seq<char>) -> Option<PaymentMethodType> {
    if text == "credit"@ {
        Some(PaymentMethodType::Credit)
    } else if text == "debit"@ {
        Some(PaymentMethodType::Debit)
    } else if text == "apple_pay"@ {
        Some(PaymentMethodType::ApplePay)
    } else if text == "google_pay"@ {
        Some(PaymentMethodType::GooglePay)
    } else if text == "paypal"@ {
        Some(PaymentMethodType::Paypal)
    } else if text == "klarna"@ {
        Some(PaymentMethodType::Klarna)
    } else if text == "ach"@ {
        Some(PaymentMethodType::Ach)
    } else if text == "sepa"@ {
        Some(PaymentMethodType::Sepa)
    } else {
        None
    }
}

pub fn payment_method_type_name(value: PaymentMethodType) -> (r: &'static str)
    ensures
        r@ == payment_method_type_text(value),
{
    match value {
        PaymentMethodType::Credit => "credit",
        PaymentMethodType::Debit => "debit",
        PaymentMethodType::ApplePay => "apple_pay",
        PaymentMethodType::GooglePay => "google_pay",
        PaymentMethodType::Paypal => "paypal",
        PaymentMethodType::Klarna => "klarna",
        PaymentMethodType::Ach => "ach",
        PaymentMethodType::Sepa => "sepa",
    }
}

pub fn parse_payment_method_type(text: &str) -> (r: Option<PaymentMethodType>)
    ensures
        r == payment_method_type_of(text@),
{
    if same_text(text, "credit") {
        Some(PaymentMethodType::Credit)
    } else if same_text(text, "debit") {
        Some(PaymentMethodType::Debit)
    } else if same_text(text, "apple_pay") {
        Some(PaymentMethodType::ApplePay)
    } else if same_text(text, "google_pay") {
        Some(PaymentMethodType::GooglePay)
    } else if same_text(text, "paypal") {
        Some(PaymentMethodType::Paypal)
    } else if same_text(text, "klarna") {
        Some(PaymentMethodType::Klarna)
    } else if same_text(text, "ach") {
        Some(PaymentMethodType::Ach)
    } else if same_text(text, "sepa") {
        Some(PaymentMethodType::Sepa)
    } else {
        None
    }
}

/// A name that is written is read back as what it stands for.
pub proof fn lemma_payment_method_type_reads_back(value: PaymentMethodType)
    ensures
        payment_method_type_of(payment_method_type_text(value)) == Some(value),
{
    reveal_strlit("credit");
    reveal_strlit("debit");
    reveal_strlit("apple_pay");
    reveal_strlit("google_pay");
    reveal_strlit("paypal");
    reveal_strlit("klarna");
    reveal_strlit("ach");
    reveal_strlit("sepa");
    assert("credit"@.len() != "debit"@.len());
    assert("credit"@.len() != "apple_pay"@.len());
    assert("credit"@.len() != "google_pay"@.len());
    assert("credit"@[0] != "paypal"@[0]);
    assert("credit"@[0] != "klarna"@[0]);
    assert("credit"@.len() != "ach"@.len());
    assert("credit"@.len() != "sepa"@.len());
    assert("debit"@.len() != "apple_pay"@.len());
    assert("debit"@.len() != "google_pay"@.len());
    assert("debit"@.len() != "paypal"@.len());
    assert("debit"@.len() != "klarna"@.len());
    assert("debit"@.len() != "ach"@.len());
    assert("debit"@.len() != "sepa"@.len());
    assert("apple_pay"@.len() != "google_pay"@.len());
    assert("apple_pay"@.len() != "paypal"@.len());
    assert("apple_pay"@.len() != "klarna"@.len());
    assert("apple_pay"@.len() != "ach"@.len());
    assert("apple_pay"@.len() != "sepa"@.len());
    assert("google_pay"@.len() != "paypal"@.len());
    assert("google_pay"@.len() != "klarna"@.len());
    assert("google_pay"@.len() != "ach"@.len());
    assert("google_pay"@.len() != "sepa"@.len());
    assert("paypal"@[0] != "klarna"@[0]);
    assert("paypal"@.len() != "ach"@.len());
    assert("paypal"@.len() != "sepa"@.len());
    assert("klarna"@.len() != "ach"@.len());
    assert("klarna"@.len() != "sepa"@.len());
    assert("ach"@.len() != "sepa"@.len());
}

/// The name of a capture method.
pub open spec fn capture_method_text(value: CaptureMethod) -> Seq<char> {
    match value {
        CaptureMethod::Automatic => "automatic"@,
        CaptureMethod::Manual => "manual"@,
        CaptureMethod::ManualMultiple => "manual_multiple"@,
        CaptureMethod::Scheduled => "scheduled"@,
    }
}

/// What a name stands for, if it is one.
pub open spec fn capture_method_of(text: Seq<char>) -> Option<CaptureMethod> {
    if text == "automatic"@ {
        Some(CaptureMethod::Automatic)
    } else if text == "manual"@ {
        Some(CaptureMethod::Manual)
    } else if text == "manual_multiple"@ {
        Some(CaptureMethod::ManualMultiple)
    } else if text == "scheduled"@ {
        Some(CaptureMethod::Scheduled)
    } else {
        None
    }
}

pub fn capture_method_name(value: CaptureMethod) -> (r: &'static str)
    ensures
        r@ == capture_method_text(value),
{
    match value {
        CaptureMethod::Automatic => "automatic",
        CaptureMethod::Manual => "manual",
        CaptureMethod::ManualMultiple => "manual_multiple",
        CaptureMethod::Scheduled => "scheduled",
    }
}

pub fn parse_capture_method(text: &str) -> (r: Option<CaptureMethod>)
    ensures
        r == capture_method_of(text@),
{
    if same_text(text, "automatic") {
        Some(CaptureMethod::Automatic)
    } else if same_text(text, "manual") {
        Some(CaptureMethod::Manual)
    } else if same_text(text, "manual_multiple") {
        Some(CaptureMethod::ManualMultiple)
    } else if same_text(text, "scheduled") {
        Some(CaptureMethod::Scheduled)
    } else {
        None
    }
}

/// A name that is written is read back as what it stands for.
pub proof fn lemma_capture_method_reads_back(value: CaptureMethod)
    ensures
        capture_method_of(capture_method_text(value)) == Some(value),
{
    reveal_strlit("automatic");
    reveal_strlit("manual");
    reveal_strlit("manual_multiple");
    reveal_strlit("scheduled");
    assert("automatic"@.len() != "manual"@.len());
    assert("automatic"@.len() != "manual_multiple"@.len());
    assert("automatic"@[0] != "scheduled"@[0]);
    assert("manual"@.len() != "manual_multiple"@.len());
    assert("manual"@.len() != "scheduled"@.len());
    assert("manual_multiple"@.len() != "scheduled"@.len());
}

/// The name of what a rule asks about.
pub open spec fn context_key_text(value: ContextKey) -> Seq<char> {
    match value {
        ContextKey::Amount => "amount"@,
        ContextKey::Currency => "currency"@,
        ContextKey::PaymentMethod => "payment_method"@,
        ContextKey::PaymentMethodType => "payment_method_type"@,
        ContextKey::CaptureMethod => "capture_method"@,
    }
}

/// What a name stands for, if it is one.
pub open spec fn context_key_of(text: Seq<char>) -> Option<ContextKey> {
    if text == "amount"@ {
        Some(ContextKey::Amount)
    } else if text == "currency"@ {
        Some(ContextKey::Currency)
    } else if text == "payment_method"@ {
        Some(ContextKey::PaymentMethod)
    } else if text == "payment_method_type"@ {
        Some(ContextKey::PaymentMethodType)
    } else if text == "capture_method"@ {
        Some(ContextKey::CaptureMethod)
    } else {
        None
    }
}

pub fn context_key_name(value: ContextKey) -> (r: &'static str)
    ensures
        r@ == context_key_text(value),
{
    match value {
        ContextKey::Amount => "amount",
        ContextKey::Currency => "currency",
        ContextKey::PaymentMethod => "payment_method",
        ContextKey::PaymentMethodType => "payment_method_type",
        ContextKey::CaptureMethod => "capture_method",
    }
}

pub fn parse_context_key(text: &str) -> (r: Option<ContextKey>)
    ensures
        r == context_key_of(text@),
{
    if same_text(text, "amount") {
        Some(ContextKey::Amount)
    } else if same_text(text, "currency") {
        Some(ContextKey::Currency)
    } else if same_text(text, "payment_method") {
        Some(ContextKey::PaymentMethod)
    } else if same_text(text, "payment_method_type") {
        Some(ContextKey::PaymentMethodType)
    } else if same_text(text, "capture_method") {
        Some(ContextKey::CaptureMethod)
    } else {
        None
    }
}

/// A name that is written is read back as what it stands for.
pub proof fn lemma_context_key_reads_back(value: ContextKey)
    ensures
        context_key_of(context_key_text(value)) == Some(value),
{
    reveal_strlit("amount");
    reveal_strlit("currency");
    reveal_strlit("payment_method");
    reveal_strlit("payment_method_type");
    reveal_strlit("capture_method");
    assert("amount"@.len() != "currency"@.len());
    assert("amount"@.len() != "payment_method"@.len());
    assert("amount"@.len() != "payment_method_type"@.len());
    assert("amount"@.len() != "capture_method"@.len());
    assert("currency"@.len() != "payment_method"@.len());
    assert("currency"@.len() != "payment_method_type"@.len());
    assert("currency"@.len() != "capture_method"@.len());
    assert("payment_method"@.len() != "payment_method_type"@.len());
    assert("payment_method"@[0] != "capture_method"@[0]);
    assert("payment_method_type"@.len() != "capture_method"@.len());
}

/// The name of a comparison.
pub open spec fn comparison_type_text(value: ComparisonType) -> Seq<char> {
    match value {
        ComparisonType::Equal => "equal"@,
        ComparisonType::NotEqual => "not_equal"@,
        ComparisonType::LessThan => "less_than"@,
        ComparisonType::LessThanEqual => "less_than_equal"@,
        ComparisonType::GreaterThan => "greater_than"@,
        ComparisonType::GreaterThanEqual => "greater_than_equal"@,
    }
}

/// What a name stands for, if it is one.
pub open spec fn comparison_type_of(text: Seq<char>) -> Option<ComparisonType> {
    if text == "equal"@ {
        Some(ComparisonType::Equal)
    } else if text == "not_equal"@ {
        Some(ComparisonType::NotEqual)
    } else if text == "less_than"@ {
        Some(ComparisonType::LessThan)
    } else if text == "less_than_equal"@ {
        Some(ComparisonType::LessThanEqual)
    } else if text == "greater_than"@ {
        Some(ComparisonType::GreaterThan)
    } else if text == "greater_than_equal"@ {
        Some(ComparisonType::GreaterThanEqual)
    } else {
        None
    }
}

pub fn comparison_type_name(value: ComparisonType) -> (r: &'static str)
    ensures
        r@ == comparison_type_text(value),
{
    match value {
        ComparisonType::Equal => "equal",
        ComparisonType::NotEqual => "not_equal",
        ComparisonType::LessThan => "less_than",
        ComparisonType::LessThanEqual => "less_than_equal",
        ComparisonType::GreaterThan => "greater_than",
        ComparisonType::GreaterThanEqual => "greater_than_equal",
    }
}

pub fn parse_comparison_type(text: &str) -> (r: Option<ComparisonType>)
    ensures
        r == comparison_type_of(text@),
{
    if same_text(text, "equal") {
        Some(ComparisonType::Equal)
    } else if same_text(text, "not_equal") {
        Some(ComparisonType::NotEqual)
    } else if same_text(text, "less_than") {
        Some(ComparisonType::LessThan)
    } else if same_text(text, "less_than_equal") {
        Some(ComparisonType::LessThanEqual)
    } else if same_text(text, "greater_than") {
        Some(ComparisonType::GreaterThan)
    } else if same_text(text, "greater_than_equal") {
        Some(ComparisonType::GreaterThanEqual)
    } else {
        None
    }
}

/// A name that is written is read back as what it stands for.
pub proof fn lemma_comparison_type_reads_back(value: ComparisonType)
    ensures
        comparison_type_of(comparison_type_text(value)) == Some(value),
{
    reveal_strlit("equal");
    reveal_strlit("not_equal");
    reveal_strlit("less_than");
    reveal_strlit("less_than_equal");
    reveal_strlit("greater_than");
    reveal_strlit("greater_than_equal");
    assert("equal"@.len() != "not_equal"@.len());
    assert("equal"@.len() != "less_than"@.len());
    assert("equal"@.len() != "less_than_equal"@.len());
    assert("equal"@.len() != "greater_than"@.len());
    assert("equal"@.len() != "greater_than_equal"@.len());
    assert("not_equal"@[0] != "less_than"@[0]);
    assert("not_equal"@.len() != "less_than_equal"@.len());
    assert("not_equal"@.len() != "greater_than"@.len());
    assert("not_equal"@.len() != "greater_than_equal"@.len());
    assert("less_than"@.len() != "less_than_equal"@.len());
    assert("less_than"@.len() != "greater_than"@.len());
    assert("less_than"@.len() != "greater_than_equal"@.len());
    assert("less_than_equal"@.len() != "greater_than"@.len());
    assert("less_than_equal"@.len() != "greater_than_equal"@.len());
    assert("greater_than"@.len() != "greater_than_equal"@.len());
}

/// The name of a kind of routing algorithm.
pub open spec fn algorithm_kind_text(value: RoutingAlgorithmKind) -> Seq<char> {
    match value {
        RoutingAlgorithmKind::Single => "single"@,
        RoutingAlgorithmKind::Priority => "priority"@,
        RoutingAlgorithmKind::VolumeSplit => "volume_split"@,
        RoutingAlgorithmKind::Advanced => "advanced"@,
    }
}

/// What a name stands for, if it is one.
pub open spec fn algorithm_kind_of(text: Seq<char>) -> Option<RoutingAlgorithmKind> {
    if text == "single"@ {
        Some(RoutingAlgorithmKind::Single)
    } else if text == "priority"@ {
        Some(RoutingAlgorithmKind::Priority)
    } else if text == "volume_split"@ {
        Some(RoutingAlgorithmKind::VolumeSplit)
    } else if text == "advanced"@ {
        Some(RoutingAlgorithmKind::Advanced)
    } else {
        None
    }
}

pub fn algorithm_kind_name(value: RoutingAlgorithmKind) -> (r: &'static str)
    ensures
        r@ == algorithm_kind_text(value),
{
    match value {
        RoutingAlgorithmKind::Single => "single",
        RoutingAlgorithmKind::Priority => "priority",
        RoutingAlgorithmKind::VolumeSplit => "volume_split",
        RoutingAlgorithmKind::Advanced => "advanced",
    }
}

pub fn parse_algorithm_kind(text: &str) -> (r: Option<RoutingAlgorithmKind>)
    ensures
        r == algorithm_kind_of(text@),
{
    if same_text(text, "single") {
        Some(RoutingAlgorithmKind::Single)
    } else if same_text(text, "priority") {
        Some(RoutingAlgorithmKind::Priority)
    } else if same_text(text, "volume_split") {
        Some(RoutingAlgorithmKind::VolumeSplit)
    } else if same_text(text, "advanced") {
        Some(RoutingAlgorithmKind::Advanced)
    } else {
        None
    }
}

/// A name that is written is read back as what it stands for.
pub proof fn lemma_algorithm_kind_reads_back(value: RoutingAlgorithmKind)
    ensures
        algorithm_kind_of(algorithm_kind_text(value)) == Some(value),
{
    reveal_strlit("single");
    reveal_strlit("priority");
    reveal_strlit("volume_split");
    reveal_strlit("advanced");
    assert("single"@.len() != "priority"@.len());
    assert("single"@.len() != "volume_split"@.len());
    assert("single"@.len() != "advanced"@.len());
    assert("priority"@.len() != "volume_split"@.len());
    assert("priority"@[0] != "advanced"@[0]);
    assert("volume_split"@.len() != "advanced"@.len());
}

} // verus!
