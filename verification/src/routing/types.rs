//! Routing algorithms and the records that hold them.

use vstd::prelude::*;

use crate::enums::{CaptureMethod, Currency, PaymentMethod, PaymentMethodType};

verus! {

/// A connector that a payment can be routed to, optionally pinned to one
/// merchant connector account.
#[derive(Debug, PartialEq, Eq)]
pub struct RoutableConnectorChoice {
    pub connector: String,
    pub merchant_connector_id: Option<String>,
}

impl Clone for RoutableConnectorChoice {
    fn clone(&self) -> (r: Self)
        ensures
            r == *self,
    {
        RoutableConnectorChoice {
            connector: self.connector.clone(),
            merchant_connector_id: self.merchant_connector_id.clone(),
        }
    }
}

/// A connector with its weight in a volume split.
#[derive(Debug, PartialEq, Eq)]
pub struct ConnectorVolumeSplit {
    pub connector: RoutableConnectorChoice,
    pub split: u8,
}

/// What a rule, or the default of a program, selects.
#[derive(Debug, PartialEq, Eq)]
pub enum ConnectorSelection {
    Priority(Vec<RoutableConnectorChoice>),
    VolumeSplit(Vec<ConnectorVolumeSplit>),
}

/// What a rule can ask about a payment.
#[derive(Clone, Copy, Debug, PartialEq, Eq, Structural)]
pub enum ContextKey {
    Amount,
    Currency,
    PaymentMethod,
    PaymentMethodType,
    CaptureMethod,
}

/// How a rule compares.
#[derive(Clone, Copy, Debug, PartialEq, Eq, Structural)]
pub enum ComparisonType {
    Equal,
    NotEqual,
    LessThan,
    LessThanEqual,
    GreaterThan,
    GreaterThanEqual,
}

/// What a rule compares with.
#[derive(Clone, Copy, Debug, PartialEq, Eq, Structural)]
pub enum ContextValue {
    Number(i64),
    Currency(Currency),
    PaymentMethod(PaymentMethod),
    PaymentMethodType(PaymentMethodType),
    CaptureMethod(CaptureMethod),
}

/// One comparison of something about the payment with a value.
#[derive(Clone, Copy, Debug, PartialEq, Eq, Structural)]
pub struct Comparison {
    pub lhs: ContextKey,
    pub comparison: ComparisonType,
    pub value: ContextValue,
}

/// A rule of an advanced algorithm: where every comparison of the predicate
/// holds, the rule's selection applies.
#[derive(Debug, PartialEq, Eq)]
pub struct Rule {
    pub name: String,
    pub predicate: Vec<Comparison>,
    pub connector_selection: ConnectorSelection,
}

/// An advanced algorithm: rules in order, and a default.
#[derive(Debug, PartialEq, Eq)]
pub struct Program {
    pub default_selection: ConnectorSelection,
    pub rules: Vec<Rule>,
}

/// A routing algorithm.
#[derive(Debug, PartialEq, Eq)]
pub enum RoutingAlgorithm {
    Single(RoutableConnectorChoice),
    Priority(Vec<RoutableConnectorChoice>),
    VolumeSplit(Vec<ConnectorVolumeSplit>),
    Advanced(Program),
}

/// The kind of a routing algorithm.
#[derive(Clone, Copy, Debug, PartialEq, Eq, Structural)]
pub enum RoutingAlgorithmKind {
    Single,
    Priority,
    VolumeSplit,
    Advanced,
}

/// One named algorithm of a merchant's dictionary.
#[derive(Debug, PartialEq, Eq)]
pub struct RoutingDictionaryRecord {
    pub id: String,
    pub name: String,
    pub kind: RoutingAlgorithmKind,
    pub description: String,
    /// Seconds since the epoch.
    pub created_at: i64,
    pub modified_at: i64,
}

/// All the algorithms that a merchant configured, and the one in use.
#[derive(Debug, PartialEq, Eq)]
pub struct RoutingDictionary {
    pub merchant_id: String,
    pub active_id: Option<String>,
    pub records: Vec<RoutingDictionaryRecord>,
}

/// A reference to the algorithm that is in use.
#[derive(Debug, PartialEq, Eq)]
pub struct RoutingAlgorithmRef {
    pub algorithm_id: Option<String>,
    /// Seconds since the epoch.
    pub timestamp: i64,
    pub config_algo_id: Option<String>,
    pub surcharge_config_algo_id: Option<String>,
}

/// A connector account of a merchant, as far as routing reads it.
#[derive(Debug, PartialEq, Eq)]
pub struct MerchantConnectorAccount {
    pub connector_name: String,
    pub merchant_connector_id: String,
    pub profile_id: Option<String>,
    pub disabled: Option<bool>,
}

/// What routing knows about the payment at hand.
#[derive(Clone, Copy, Debug, PartialEq, Eq, Structural)]
pub struct RoutingContext {
    pub amount: i64,
    pub currency: Option<Currency>,
    pub payment_method: Option<PaymentMethod>,
    pub payment_method_type: Option<PaymentMethodType>,
    pub capture_method: Option<CaptureMethod>,
}

/// A connector choice as plain values.
pub struct ChoiceView {
    pub connector: Seq<char>,
    pub merchant_connector_id: Option<Seq<char>>,
}

impl View for RoutableConnectorChoice {
    type V = ChoiceView;

    open spec fn view(&self) -> ChoiceView {
        ChoiceView {
            connector: self.connector@,
            merchant_connector_id: match self.merchant_connector_id {
                Some(id) => Some(id@),
                None => None,
            },
        }
    }
}

/// An entry of a volume split as plain values.
pub struct SplitView {
    pub connector: ChoiceView,
    pub split: u8,
}

impl View for ConnectorVolumeSplit {
    type V = SplitView;

    open spec fn view(&self) -> SplitView {
        SplitView { connector: self.connector@, split: self.split }
    }
}

/// Connector choices as plain values.
pub open spec fn choices_view(list: Seq<RoutableConnectorChoice>) -> Seq<ChoiceView> {
    list.map_values(|choice: RoutableConnectorChoice| choice@)
}

/// The entries of a volume split as plain values.
pub open spec fn splits_view(splits: Seq<ConnectorVolumeSplit>) -> Seq<SplitView> {
    splits.map_values(|split: ConnectorVolumeSplit| split@)
}

/// A selection as plain values.
pub enum SelectionView {
    Priority(Seq<ChoiceView>),
    VolumeSplit(Seq<SplitView>),
}

impl View for ConnectorSelection {
    type V = SelectionView;

    open spec fn view(&self) -> SelectionView {
        match self {
            ConnectorSelection::Priority(list) => SelectionView::Priority(choices_view(list@)),
            ConnectorSelection::VolumeSplit(splits) => SelectionView::VolumeSplit(
                splits_view(splits@),
            ),
        }
    }
}

/// A rule as plain values.
pub struct RuleView {
    pub name: Seq<char>,
    pub predicate: Seq<Comparison>,
    pub connector_selection: SelectionView,
}

impl View for Rule {
    type V = RuleView;

    open spec fn view(&self) -> RuleView {
        RuleView {
            name: self.name@,
            predicate: self.predicate@,
            connector_selection: self.connector_selection@,
        }
    }
}

/// Rules as plain values.
pub open spec fn rules_view(rules: Seq<Rule>) -> Seq<RuleView> {
    rules.map_values(|rule: Rule| rule@)
}

/// A program as plain values.
pub struct ProgramView {
    pub default_selection: SelectionView,
    pub rules: Seq<RuleView>,
}

impl View for Program {
    type V = ProgramView;

    open spec fn view(&self) -> ProgramView {
        ProgramView {
            default_selection: self.default_selection@,
            rules: rules_view(self.rules@),
        }
    }
}

/// A routing algorithm as plain values.
pub enum AlgorithmView {
    Single(ChoiceView),
    Priority(Seq<ChoiceView>),
    VolumeSplit(Seq<SplitView>),
    Advanced(ProgramView),
}

impl View for RoutingAlgorithm {
    type V = AlgorithmView;

    open spec fn view(&self) -> AlgorithmView {
        match self {
            RoutingAlgorithm::Single(choice) => AlgorithmView::Single(choice@),
            RoutingAlgorithm::Priority(list) => AlgorithmView::Priority(choices_view(list@)),
            RoutingAlgorithm::VolumeSplit(splits) => AlgorithmView::VolumeSplit(
                splits_view(splits@),
            ),
            RoutingAlgorithm::Advanced(program) => AlgorithmView::Advanced(program@),
        }
    }
}

/// A record of a dictionary as plain values.
pub struct RecordView {
    pub id: Seq<char>,
    pub name: Seq<char>,
    pub kind: RoutingAlgorithmKind,
    pub description: Seq<char>,
    pub created_at: i64,
    pub modified_at: i64,
}

impl View for RoutingDictionaryRecord {
    type V = RecordView;

    open spec fn view(&self) -> RecordView {
        RecordView {
            id: self.id@,
            name: self.name@,
            kind: self.kind,
            description: self.description@,
            created_at: self.created_at,
            modified_at: self.modified_at,
        }
    }
}

/// Records as plain values.
pub open spec fn records_view(records: Seq<RoutingDictionaryRecord>) -> Seq<RecordView> {
    records.map_values(|record: RoutingDictionaryRecord| record@)
}

/// A dictionary as plain values.
pub struct DictionaryView {
    pub merchant_id: Seq<char>,
    pub active_id: Option<Seq<char>>,
    pub records: Seq<RecordView>,
}

impl View for RoutingDictionary {
    type V = DictionaryView;

    open spec fn view(&self) -> DictionaryView {
        DictionaryView {
            merchant_id: self.merchant_id@,
            active_id: match self.active_id {
                Some(id) => Some(id@),
                None => None,
            },
            records: records_view(self.records@),
        }
    }
}

/// A reference to an algorithm as plain values.
pub struct AlgorithmRefView {
    pub algorithm_id: Option<Seq<char>>,
    pub timestamp: i64,
    pub config_algo_id: Option<Seq<char>>,
    pub surcharge_config_algo_id: Option<Seq<char>>,
}

impl View for RoutingAlgorithmRef {
    type V = AlgorithmRefView;

    open spec fn view(&self) -> AlgorithmRefView {
        AlgorithmRefView {
            algorithm_id: match self.algorithm_id {
                Some(id) => Some(id@),
                None => None,
            },
            timestamp: self.timestamp,
            config_algo_id: match self.config_algo_id {
                Some(id) => Some(id@),
                None => None,
            },
            surcharge_config_algo_id: match self.surcharge_config_algo_id {
                Some(id) => Some(id@),
                None => None,
            },
        }
    }
}

} // verus!
