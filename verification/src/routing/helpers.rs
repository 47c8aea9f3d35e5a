//! The keys of routing configuration in storage, and the reading and writing
//! of a merchant's routing dictionary and default connectors.

use vstd::prelude::*;
use vstd::string::{StrSliceExecFns, StringExecFns};

use crate::enums::TransactionType;
use crate::errors::ApiErrorResponse;
use crate::json::{Json, JsonValue};
use crate::routing::codec::{
    algorithm_json, choices_json, choices_of, decode_choices, encode_algorithm, encode_choices,
};
use crate::routing::dictionary::{
    algorithm_ref_json, decode_dictionary, dictionary_json, dictionary_of, encode_algorithm_ref,
    encode_dictionary, lemma_dictionary_reads_back,
};
use crate::routing::types::{
    choices_view, RoutableConnectorChoice, RoutingAlgorithm, RoutingAlgorithmRef,
    RoutingDictionary,
};

verus! {

/// The key of a merchant's routing dictionary.
pub open spec fn routing_dictionary_key(merchant_id: Seq<char>) -> Seq<char> {
    "routing_dict_"@ + merchant_id
}

/// Whether a merchant id begins with the mark of the payout keys.
pub open spec fn begins_like_a_payout(merchant_id: Seq<char>) -> bool {
    "po_"@.is_prefix_of(merchant_id)
}

/// The key of a merchant's default connectors for a transaction type.
///
/// Payouts have `routing_default_po_` before the merchant id, payments
/// `routing_default_`. A payment key so made for a merchant id that begins
/// with `po_` would be the payout key of another merchant; such an id gets
/// `routing_payment_default_` before it instead.
pub open spec fn default_config_key(merchant_id: Seq<char>, transaction_type: TransactionType)
    -> Seq<char> {
    match transaction_type {
        TransactionType::Payment => if begins_like_a_payout(merchant_id) {
            "routing_payment_default_"@ + merchant_id
        } else {
            "routing_default_"@ + merchant_id
        },
        TransactionType::Payout => "routing_default_po_"@ + merchant_id,
    }
}

/// The key of a merchant's payment configuration for routing.
pub open spec fn payment_config_routing_id(merchant_id: Seq<char>) -> Seq<char> {
    "payment_config_id_"@ + merchant_id
}

/// The key of a merchant's surcharge configuration.
pub open spec fn payment_method_surcharge_routing_id(merchant_id: Seq<char>) -> Seq<char> {
    "payment_method_surcharge_id_"@ + merchant_id
}

/// Provides the identifier for the specific merchant's routing dictionary.
pub fn get_routing_dictionary_key(merchant_id: &str) -> (key: String)
    ensures
        key@ == routing_dictionary_key(merchant_id@),
{
    String::from_str("routing_dict_").concat(merchant_id)
}

/// Provides the identifier for the specific merchant's default connectors.
pub fn get_default_config_key(merchant_id: &str, transaction_type: &TransactionType) -> (key:
    String)
    ensures
        key@ == default_config_key(merchant_id@, *transaction_type),
{
    match transaction_type {
        TransactionType::Payment => {
            if begins_with_po(merchant_id) {
                String::from_str("routing_payment_default_").concat(merchant_id)
            } else {
                String::from_str("routing_default_").concat(merchant_id)
            }
        },
        TransactionType::Payout => String::from_str("routing_default_po_").concat(merchant_id),
    }
}

fn begins_with_po(merchant_id: &str) -> (r: bool)
    ensures
        r == begins_like_a_payout(merchant_id@),
{
    proof {
        reveal_strlit("po_");
    }
    if merchant_id.unicode_len() < 3 {
        return false;
    }
    let r = merchant_id.get_char(0) == 'p' && merchant_id.get_char(1) == 'o'
        && merchant_id.get_char(2) == '_';
    proof {
        let head = merchant_id@.subrange(0, 3);
        if r {
            assert(head =~= "po_"@);
        } else {
            assert(head[0] == merchant_id@[0]);
            assert(head[1] == merchant_id@[1]);
            assert(head[2] == merchant_id@[2]);
        }
    }
    r
}

pub fn get_payment_config_routing_id(merchant_id: &str) -> (key: String)
    ensures
        key@ == payment_config_routing_id(merchant_id@),
{
    String::from_str("payment_config_id_").concat(merchant_id)
}

pub fn get_payment_method_surcharge_routing_id(merchant_id: &str) -> (key: String)
    ensures
        key@ == payment_method_surcharge_routing_id(merchant_id@),
{
    String::from_str("payment_method_surcharge_id_").concat(merchant_id)
}

/// What follows a common prefix decides whether two texts are equal.
pub proof fn lemma_prefix_cancels(prefix: Seq<char>, a: Seq<char>, b: Seq<char>)
    ensures
        (prefix + a == prefix + b) <==> a == b,
{
    if prefix + a == prefix + b {
        assert((prefix + a).subrange(prefix.len() as int, (prefix + a).len() as int) =~= a);
        assert((prefix + b).subrange(prefix.len() as int, (prefix + b).len() as int) =~= b);
    }
}

/// No two merchants share a key of one kind.
pub proof fn lemma_keys_tell_merchants_apart(
    first: Seq<char>,
    second: Seq<char>,
    transaction_type: TransactionType,
)
    ensures
        routing_dictionary_key(first) == routing_dictionary_key(second) <==> first == second,
        default_config_key(first, transaction_type) == default_config_key(second, transaction_type)
            <==> first == second,
        payment_config_routing_id(first) == payment_config_routing_id(second) <==> first
            == second,
        payment_method_surcharge_routing_id(first) == payment_method_surcharge_routing_id(second)
            <==> first == second,
{
    lemma_prefix_cancels("routing_dict_"@, first, second);
    lemma_prefix_cancels("payment_config_id_"@, first, second);
    lemma_prefix_cancels("payment_method_surcharge_id_"@, first, second);
    lemma_default_keys_never_collide(first, transaction_type, second, transaction_type);
}

/// The four kinds of key never meet: whatever the merchants, a dictionary
/// key is no default key, and neither is a key of the payment or surcharge
/// configuration.
pub proof fn lemma_kinds_of_key_never_collide(
    first: Seq<char>,
    second: Seq<char>,
    transaction_type: TransactionType,
)
    ensures
        routing_dictionary_key(first) != default_config_key(second, transaction_type),
        routing_dictionary_key(first) != payment_config_routing_id(second),
        routing_dictionary_key(first) != payment_method_surcharge_routing_id(second),
        payment_config_routing_id(first) != default_config_key(second, transaction_type),
        payment_config_routing_id(first) != payment_method_surcharge_routing_id(second),
        payment_method_surcharge_routing_id(first) != default_config_key(second, transaction_type),
{
    reveal_strlit("routing_dict_");
    reveal_strlit("routing_default_");
    reveal_strlit("routing_default_po_");
    reveal_strlit("routing_payment_default_");
    reveal_strlit("payment_config_id_");
    reveal_strlit("payment_method_surcharge_id_");
    let dict = routing_dictionary_key(first);
    let default = default_config_key(second, transaction_type);
    let config_first = payment_config_routing_id(first);
    let config_second = payment_config_routing_id(second);
    let surcharge_first = payment_method_surcharge_routing_id(first);
    let surcharge_second = payment_method_surcharge_routing_id(second);
    assert(dict[8] == 'd');
    assert(dict[9] == 'i');
    assert(default[8] == 'p' || default[9] == 'e');
    assert(dict[0] == 'r');
    assert(default[0] == 'r');
    assert(config_first[0] == 'p');
    assert(config_second[0] == 'p');
    assert(surcharge_first[0] == 'p');
    assert(surcharge_second[0] == 'p');
    assert(config_first[8] == 'c');
    assert(surcharge_second[8] == 'm');
}

/// No two merchants, and no two transaction types, share a key of default
/// connectors: two such keys are the same only for the same merchant and
/// the same transaction type.
pub proof fn lemma_default_keys_never_collide(
    first: Seq<char>,
    first_type: TransactionType,
    second: Seq<char>,
    second_type: TransactionType,
)
    ensures
        default_config_key(first, first_type) == default_config_key(second, second_type) <==> (
        first == second && first_type == second_type),
{
    reveal_strlit("routing_default_");
    reveal_strlit("routing_default_po_");
    reveal_strlit("routing_payment_default_");
    reveal_strlit("po_");
    lemma_prefix_cancels("routing_default_"@, first, second);
    lemma_prefix_cancels("routing_default_po_"@, first, second);
    lemma_prefix_cancels("routing_payment_default_"@, first, second);
    let a = default_config_key(first, first_type);
    let b = default_config_key(second, second_type);
    assert("routing_default_po_"@ =~= "routing_default_"@ + "po_"@);
    if a == b && (first_type != second_type || begins_like_a_payout(first)
        != begins_like_a_payout(second)) {
        // The keys of payments named like payouts differ from all others in their ninth
        // character; an ordinary payment key that were a payout key would name a merchant
        // that begins like a payout.
        assert(a[8] == b[8]);
        if first_type == TransactionType::Payment && second_type == TransactionType::Payout {
            lemma_payout_key_begins_like_a_payout(first, second);
        }
        if first_type == TransactionType::Payout && second_type == TransactionType::Payment {
            lemma_payout_key_begins_like_a_payout(second, first);
        }
    }
}

/// A merchant whose ordinary payment key is the payout key of another has
/// an id that begins with `po_`.
proof fn lemma_payout_key_begins_like_a_payout(payment_merchant: Seq<char>, payout_merchant: Seq<char>)
    requires
        "routing_default_"@ + payment_merchant == "routing_default_po_"@ + payout_merchant,
    ensures
        begins_like_a_payout(payment_merchant),
{
    reveal_strlit("routing_default_");
    reveal_strlit("routing_default_po_");
    reveal_strlit("po_");
    assert("routing_default_po_"@ =~= "routing_default_"@ + "po_"@);
    assert("routing_default_po_"@ + payout_merchant =~= "routing_default_"@ + ("po_"@
        + payout_merchant));
    lemma_prefix_cancels("routing_default_"@, payment_merchant, "po_"@ + payout_merchant);
    assert(("po_"@ + payout_merchant).subrange(0, "po_"@.len() as int) =~= "po_"@);
}

/// What a search for a configuration came to.
#[derive(Debug, PartialEq, Eq)]
pub enum ConfigLookup {
    /// Storage holds this JSON value under the key.
    Found(Json),
    /// Storage holds something under the key that is no JSON.
    Malformed,
    NotFound,
    /// Storage failed otherwise.
    Failed,
}

/// Where the reading of a configuration stands.
#[derive(Debug, PartialEq, Eq)]
pub enum ConfigState<T> {
    Start,
    AwaitingLookup,
    /// Nothing was stored: `value` is being stored as the first value.
    AwaitingInsert { value: T },
    Finished,
}

/// What the caller reports of storage.
#[derive(Debug, PartialEq, Eq)]
pub enum ConfigEvent {
    Begin,
    Looked(ConfigLookup),
    Inserted,
    InsertFailed,
}

/// What the caller has to do next.
#[derive(Debug, PartialEq, Eq)]
pub enum ConfigStep<T> {
    /// Look up what is stored under `key`.
    Find { key: String },
    /// Store `config` under `key`.
    Insert { key: String, config: Json },
    Finish(Result<T, ApiErrorResponse>),
}

/// One step of reading a configuration that is created on its first read.
///
/// What is stored is read and returned as it is. Where nothing is stored,
/// the initial value is stored and then returned. Whatever else happens,
/// and a stored value that cannot be read, is an internal error.
///
/// `reads` says whether a value is what a JSON value holds, `readable`
/// whether a JSON value holds any, and `writes` whether a JSON value is how
/// a value is written.
pub open spec fn config_step_matches<T>(
    key: Seq<char>,
    is_initial: spec_fn(T) -> bool,
    readable: spec_fn(JsonValue) -> bool,
    reads: spec_fn(JsonValue, T) -> bool,
    writes: spec_fn(T, JsonValue) -> bool,
    state: ConfigState<T>,
    event: ConfigEvent,
    next: ConfigState<T>,
    step: ConfigStep<T>,
) -> bool {
    match (state, event) {
        (ConfigState::Start, ConfigEvent::Begin) => {
            &&& next is AwaitingLookup
            &&& step matches ConfigStep::Find { key: k }
            &&& k@ == key
        },
        (ConfigState::AwaitingLookup, ConfigEvent::Looked(ConfigLookup::Found(config))) => {
            if readable(config@) {
                &&& next is Finished
                &&& step matches ConfigStep::Finish(Ok(value))
                &&& reads(config@, value)
            } else {
                &&& next is Finished
                &&& step == ConfigStep::<T>::Finish(Err(ApiErrorResponse::InternalServerError))
            }
        },
        (ConfigState::AwaitingLookup, ConfigEvent::Looked(ConfigLookup::NotFound)) => {
            &&& next matches ConfigState::AwaitingInsert { value }
            &&& is_initial(value)
            &&& step matches ConfigStep::Insert { key: k, config }
            &&& k@ == key
            &&& writes(value, config@)
        },
        (ConfigState::AwaitingInsert { value }, ConfigEvent::Inserted) => {
            &&& next is Finished
            &&& step == ConfigStep::Finish(Ok(value))
        },
        _ => {
            &&& next is Finished
            &&& step == ConfigStep::<T>::Finish(Err(ApiErrorResponse::InternalServerError))
        },
    }
}

/// The dictionary of a merchant that has configured nothing.
pub open spec fn is_new_dictionary(dictionary: RoutingDictionary, merchant_id: Seq<char>) -> bool {
    &&& dictionary.merchant_id@ == merchant_id
    &&& dictionary.active_id is None
    &&& dictionary.records@.len() == 0
}

/// One step of reading a merchant's routing dictionary.
pub open spec fn dictionary_step_matches(
    merchant_id: Seq<char>,
    state: ConfigState<RoutingDictionary>,
    event: ConfigEvent,
    next: ConfigState<RoutingDictionary>,
    step: ConfigStep<RoutingDictionary>,
) -> bool {
    config_step_matches(
        routing_dictionary_key(merchant_id),
        |dictionary: RoutingDictionary| is_new_dictionary(dictionary, merchant_id),
        |config: JsonValue| dictionary_of(config) is Some,
        |config: JsonValue, dictionary: RoutingDictionary|
            dictionary_of(config) == Some(dictionary@),
        |dictionary: RoutingDictionary, config: JsonValue| config == dictionary_json(dictionary@),
        state,
        event,
        next,
        step,
    )
}

/// One step of reading a merchant's default connectors.
pub open spec fn default_config_step_matches(
    merchant_id: Seq<char>,
    transaction_type: TransactionType,
    state: ConfigState<Vec<RoutableConnectorChoice>>,
    event: ConfigEvent,
    next: ConfigState<Vec<RoutableConnectorChoice>>,
    step: ConfigStep<Vec<RoutableConnectorChoice>>,
) -> bool {
    config_step_matches(
        default_config_key(merchant_id, transaction_type),
        |connectors: Vec<RoutableConnectorChoice>| connectors@.len() == 0,
        |config: JsonValue| choices_of(config) is Some,
        |config: JsonValue, connectors: Vec<RoutableConnectorChoice>|
            choices_of(config) == Some(choices_view(connectors@)),
        |connectors: Vec<RoutableConnectorChoice>, config: JsonValue|
            config == choices_json(choices_view(connectors@)),
        state,
        event,
        next,
        step,
    )
}

/// The first read of a merchant's dictionary creates it once and for all:
/// what it stores is the empty dictionary of the merchant, under the
/// merchant's key, and is what it returns; a later read that finds what was
/// stored returns the same dictionary and stores nothing.
pub proof fn lemma_first_read_initializes_once(
    merchant_id: Seq<char>,
    storing: ConfigState<RoutingDictionary>,
    insert: ConfigStep<RoutingDictionary>,
    after_first: ConfigState<RoutingDictionary>,
    first: ConfigStep<RoutingDictionary>,
    stored: Json,
    after_later: ConfigState<RoutingDictionary>,
    later: ConfigStep<RoutingDictionary>,
)
    requires
        dictionary_step_matches(
            merchant_id,
            ConfigState::AwaitingLookup,
            ConfigEvent::Looked(ConfigLookup::NotFound),
            storing,
            insert,
        ),
        dictionary_step_matches(merchant_id, storing, ConfigEvent::Inserted, after_first, first),
        insert matches ConfigStep::Insert { config, .. } && stored@ == config@,
        dictionary_step_matches(
            merchant_id,
            ConfigState::AwaitingLookup,
            ConfigEvent::Looked(ConfigLookup::Found(stored)),
            after_later,
            later,
        ),
    ensures
        insert matches ConfigStep::Insert { key, .. } && key@ == routing_dictionary_key(
            merchant_id,
        ),
        first matches ConfigStep::Finish(Ok(dictionary)) && is_new_dictionary(
            dictionary,
            merchant_id,
        ),
        later matches ConfigStep::Finish(Ok(again)) && first matches ConfigStep::Finish(
            Ok(dictionary),
        ) && again@ == dictionary@,
{
    let value = storing->AwaitingInsert_value;
    lemma_dictionary_reads_back(value@);
}

/// One step of providing a merchant's routing dictionary: the list of all
/// the routing algorithms that the merchant configured, with the id of the
/// one in use. The first read for a merchant creates an empty dictionary.
pub fn get_merchant_routing_dictionary(
    merchant_id: &str,
    state: ConfigState<RoutingDictionary>,
    event: ConfigEvent,
) -> (r: (ConfigState<RoutingDictionary>, ConfigStep<RoutingDictionary>))
    ensures
        dictionary_step_matches(merchant_id@, state, event, r.0, r.1),
{
    match (state, event) {
        (ConfigState::Start, ConfigEvent::Begin) => (
            ConfigState::AwaitingLookup,
            ConfigStep::Find { key: get_routing_dictionary_key(merchant_id) },
        ),
        (ConfigState::AwaitingLookup, ConfigEvent::Looked(ConfigLookup::Found(config))) => {
            match decode_dictionary(&config) {
                Some(dictionary) => (ConfigState::Finished, ConfigStep::Finish(Ok(dictionary))),
                None => (
                    ConfigState::Finished,
                    ConfigStep::Finish(Err(ApiErrorResponse::InternalServerError)),
                ),
            }
        },
        (ConfigState::AwaitingLookup, ConfigEvent::Looked(ConfigLookup::NotFound)) => {
            let new_dictionary = RoutingDictionary {
                merchant_id: merchant_id.to_owned(),
                active_id: None,
                records: Vec::new(),
            };
            let config = encode_dictionary(&new_dictionary);
            (
                ConfigState::AwaitingInsert { value: new_dictionary },
                ConfigStep::Insert { key: get_routing_dictionary_key(merchant_id), config },
            )
        },
        (ConfigState::AwaitingInsert { value }, ConfigEvent::Inserted) => (
            ConfigState::Finished,
            ConfigStep::Finish(Ok(value)),
        ),
        _ => (
            ConfigState::Finished,
            ConfigStep::Finish(Err(ApiErrorResponse::InternalServerError)),
        ),
    }
}

/// One step of providing a merchant's default connectors for a transaction
/// type. The first read creates an empty list.
pub fn get_merchant_default_config(
    merchant_id: &str,
    transaction_type: &TransactionType,
    state: ConfigState<Vec<RoutableConnectorChoice>>,
    event: ConfigEvent,
) -> (r: (ConfigState<Vec<RoutableConnectorChoice>>, ConfigStep<Vec<RoutableConnectorChoice>>))
    ensures
        default_config_step_matches(merchant_id@, *transaction_type, state, event, r.0, r.1),
{
    match (state, event) {
        (ConfigState::Start, ConfigEvent::Begin) => (
            ConfigState::AwaitingLookup,
            ConfigStep::Find { key: get_default_config_key(merchant_id, transaction_type) },
        ),
        (ConfigState::AwaitingLookup, ConfigEvent::Looked(ConfigLookup::Found(config))) => {
            match decode_choices(&config) {
                Some(connectors) => (ConfigState::Finished, ConfigStep::Finish(Ok(connectors))),
                None => (
                    ConfigState::Finished,
                    ConfigStep::Finish(Err(ApiErrorResponse::InternalServerError)),
                ),
            }
        },
        (ConfigState::AwaitingLookup, ConfigEvent::Looked(ConfigLookup::NotFound)) => {
            let new_config_conns: Vec<RoutableConnectorChoice> = Vec::new();
            let config = encode_choices(&new_config_conns);
            (
                ConfigState::AwaitingInsert { value: new_config_conns },
                ConfigStep::Insert {
                    key: get_default_config_key(merchant_id, transaction_type),
                    config,
                },
            )
        },
        (ConfigState::AwaitingInsert { value }, ConfigEvent::Inserted) => (
            ConfigState::Finished,
            ConfigStep::Finish(Ok(value)),
        ),
        _ => (
            ConfigState::Finished,
            ConfigStep::Finish(Err(ApiErrorResponse::InternalServerError)),
        ),
    }
}

/// A configuration to store in place of what is stored under its key.
#[derive(Debug, PartialEq, Eq)]
pub struct ConfigUpdate {
    pub key: String,
    pub config: Json,
}

/// The write that replaces a merchant's default connectors for a
/// transaction type.
pub fn update_merchant_default_config(
    merchant_id: &str,
    connectors: Vec<RoutableConnectorChoice>,
    transaction_type: &TransactionType,
) -> (r: ConfigUpdate)
    ensures
        r.key@ == default_config_key(merchant_id@, *transaction_type),
        r.config@ == choices_json(choices_view(connectors@)),
{
    ConfigUpdate {
        key: get_default_config_key(merchant_id, transaction_type),
        config: encode_choices(&connectors),
    }
}

/// The write that replaces a merchant's routing dictionary.
pub fn update_merchant_routing_dictionary(merchant_id: &str, dictionary: RoutingDictionary) -> (r:
    ConfigUpdate)
    ensures
        r.key@ == routing_dictionary_key(merchant_id@),
        r.config@ == dictionary_json(dictionary@),
{
    ConfigUpdate {
        key: get_routing_dictionary_key(merchant_id),
        config: encode_dictionary(&dictionary),
    }
}

/// The write that replaces a routing algorithm, which is stored under its
/// own id.
pub fn update_routing_algorithm(algorithm_id: String, algorithm: RoutingAlgorithm) -> (r:
    ConfigUpdate)
    ensures
        r.key == algorithm_id,
        r.config@ == algorithm_json(algorithm@),
{
    ConfigUpdate { key: algorithm_id, config: encode_algorithm(&algorithm) }
}

/// The fields of a merchant account that an update can set; what is left
/// out stays as it is.
#[derive(Debug, PartialEq, Eq)]
pub struct MerchantAccountUpdate {
    pub merchant_name: Option<String>,
    pub return_url: Option<String>,
    pub publishable_key: Option<String>,
    pub locker_id: Option<String>,
    pub metadata: Option<Json>,
    pub routing_algorithm: Option<Json>,
    pub frm_routing_algorithm: Option<Json>,
    pub payout_routing_algorithm: Option<Json>,
    pub default_profile: Option<String>,
}

/// The fields of a business profile that an update can set; what is left
/// out stays as it is.
#[derive(Debug, PartialEq, Eq)]
pub struct BusinessProfileUpdate {
    pub profile_name: Option<String>,
    pub return_url: Option<String>,
    pub metadata: Option<Json>,
    pub routing_algorithm: Option<Json>,
    pub frm_routing_algorithm: Option<Json>,
    pub payout_routing_algorithm: Option<Json>,
    pub is_recon_enabled: Option<bool>,
}

/// The update that puts one of the configured algorithms in use for a
/// merchant: it sets the algorithm for payments, written as JSON, and
/// nothing else.
pub fn update_merchant_active_algorithm_ref(algorithm_id: RoutingAlgorithmRef) -> (r:
    MerchantAccountUpdate)
    ensures
        r.routing_algorithm matches Some(reference) && reference@ == algorithm_ref_json(
            algorithm_id@,
        ),
        r == (MerchantAccountUpdate {
            merchant_name: None,
            return_url: None,
            publishable_key: None,
            locker_id: None,
            metadata: None,
            routing_algorithm: r.routing_algorithm,
            frm_routing_algorithm: None,
            payout_routing_algorithm: None,
            default_profile: None,
        }),
{
    MerchantAccountUpdate {
        merchant_name: None,
        return_url: None,
        publishable_key: None,
        locker_id: None,
        metadata: None,
        routing_algorithm: Some(encode_algorithm_ref(&algorithm_id)),
        frm_routing_algorithm: None,
        payout_routing_algorithm: None,
        default_profile: None,
    }
}

/// The update that puts an algorithm in use for a business profile: it sets
/// the algorithm of the transaction type, written as JSON, and nothing
/// else.
pub fn update_business_profile_active_algorithm_ref(
    algorithm_id: RoutingAlgorithmRef,
    transaction_type: &TransactionType,
) -> (r: BusinessProfileUpdate)
    ensures
        match *transaction_type {
            TransactionType::Payment => r.routing_algorithm matches Some(reference)
                && reference@ == algorithm_ref_json(algorithm_id@) && r.payout_routing_algorithm
                is None,
            TransactionType::Payout => r.payout_routing_algorithm matches Some(reference)
                && reference@ == algorithm_ref_json(algorithm_id@) && r.routing_algorithm
                is None,
        },
        r == (BusinessProfileUpdate {
            profile_name: None,
            return_url: None,
            metadata: None,
            routing_algorithm: r.routing_algorithm,
            frm_routing_algorithm: None,
            payout_routing_algorithm: r.payout_routing_algorithm,
            is_recon_enabled: None,
        }),
{
    let ref_val = encode_algorithm_ref(&algorithm_id);
    let (routing_algorithm, payout_routing_algorithm) = match transaction_type {
        TransactionType::Payment => (Some(ref_val), None),
        TransactionType::Payout => (None, Some(ref_val)),
    };
    BusinessProfileUpdate {
        profile_name: None,
        return_url: None,
        metadata: None,
        routing_algorithm,
        frm_routing_algorithm: None,
        payout_routing_algorithm,
        is_recon_enabled: None,
    }
}

} // verus!
