//! Validation of a routing algorithm against the connectors that a business
//! profile holds: every connector that the algorithm refers to has to be
//! configured for the profile and not disabled.

use rustc_hash::FxHashSet;
use vstd::prelude::*;

use crate::errors::{ApiErrorResponse, Subject};
use crate::routing::types::{
    ConnectorSelection, ConnectorVolumeSplit, MerchantConnectorAccount,
    RoutableConnectorChoice, RoutingAlgorithm, Rule,
};
use crate::text::same_text;

verus! {

/// Trusted: `rustc_hash::FxHasher`, the hasher of the sets below. Nothing
/// is read of it.
#[verifier::external_type_specification]
#[verifier::external_body]
pub struct ExFxHasher(rustc_hash::FxHasher);

/// Trusted: `std::hash::BuildHasherDefault`, through which a set obtains
/// its hasher. Nothing is read of it.
#[verifier::external_type_specification]
#[verifier::external_body]
#[verifier::reject_recursive_types(H)]
pub struct ExBuildHasherDefault<H>(std::hash::BuildHasherDefault<H>);

/// An optional text as plain values.
pub open spec fn text_of(text: Option<String>) -> Option<Seq<char>> {
    match text {
        Some(t) => Some(t@),
        None => None,
    }
}

/// What a set of connector references holds: pairs of a connector's name
/// and, optionally, the id of a merchant connector account.
pub uninterp spec fn held_references(set: FxHashSet<(String, Option<String>)>) -> Set<
    (Seq<char>, Option<Seq<char>>),
>;

/// Trusted: makes an empty `rustc_hash::FxHashSet`, through `Default`.
#[verifier::external_body]
fn new_reference_set() -> (set: FxHashSet<(String, Option<String>)>)
    ensures
        held_references(set) == Set::<(Seq<char>, Option<Seq<char>>)>::empty(),
{
    FxHashSet::default()
}

/// Trusted: calls `HashSet::insert` on a `rustc_hash::FxHashSet`, which adds
/// the pair to what the set holds; a pair with the same characters that is
/// there already stays, and nothing else changes.
#[verifier::external_body]
fn insert_reference(
    set: &mut FxHashSet<(String, Option<String>)>,
    name: String,
    merchant_connector_id: Option<String>,
)
    ensures
        held_references(*final(set)) == held_references(*old(set)).insert(
            (name@, text_of(merchant_connector_id)),
        ),
{
    set.insert((name, merchant_connector_id));
}

/// Trusted: calls `HashSet::contains` on a `rustc_hash::FxHashSet`, which
/// says whether the set holds a pair with the same characters.
#[verifier::external_body]
fn holds_reference(
    set: &FxHashSet<(String, Option<String>)>,
    name: &String,
    merchant_connector_id: &Option<String>,
) -> (r: bool)
    ensures
        r == held_references(*set).contains((name@, text_of(*merchant_connector_id))),
{
    set.contains(&(name.clone(), merchant_connector_id.clone()))
}

/// Whether a connector account counts for a profile: it belongs to it and
/// is not disabled.
pub open spec fn account_counts(account: MerchantConnectorAccount, profile_id: Seq<char>) -> bool {
    account.profile_id matches Some(id) && id@ == profile_id && account.disabled != Some(true)
}

/// Whether an account answers a reference: the names agree, and the
/// reference is to the connector as such or to this very account.
pub open spec fn account_answers(
    account: MerchantConnectorAccount,
    reference: (Seq<char>, Option<Seq<char>>),
) -> bool {
    account.connector_name@ == reference.0 && (reference.1 is None || reference.1 == Some(
        account.merchant_connector_id@,
    ))
}

/// The references that the accounts of a profile answer.
pub open spec fn configured_connectors(
    accounts: Seq<MerchantConnectorAccount>,
    profile_id: Seq<char>,
) -> Set<(Seq<char>, Option<Seq<char>>)> {
    Set::new(
        |reference: (Seq<char>, Option<Seq<char>>)|
            exists|i: int|
                0 <= i < accounts.len() && account_counts(#[trigger] accounts[i], profile_id)
                    && account_answers(accounts[i], reference),
    )
}

/// The reference that a choice makes.
pub open spec fn reference_of(choice: RoutableConnectorChoice) -> (Seq<char>, Option<Seq<char>>) {
    (choice.connector@, text_of(choice.merchant_connector_id))
}

/// The first of the choices that `configured` does not hold.
pub open spec fn first_unconfigured(
    choices: Seq<RoutableConnectorChoice>,
    configured: Set<(Seq<char>, Option<Seq<char>>)>,
) -> Option<RoutableConnectorChoice>
    decreases choices.len(),
{
    if choices.len() == 0 {
        None
    } else if !configured.contains(reference_of(choices[0])) {
        Some(choices[0])
    } else {
        first_unconfigured(choices.drop_first(), configured)
    }
}

/// The connectors of a volume split, in its order.
pub open spec fn choices_of_splits(splits: Seq<ConnectorVolumeSplit>) -> Seq<
    RoutableConnectorChoice,
> {
    splits.map_values(|split: ConnectorVolumeSplit| split.connector)
}

/// The connectors of a selection, in its order.
pub open spec fn choices_of_selection(selection: ConnectorSelection) -> Seq<
    RoutableConnectorChoice,
> {
    match selection {
        ConnectorSelection::Priority(list) => list@,
        ConnectorSelection::VolumeSplit(splits) => choices_of_splits(splits@),
    }
}

/// The connectors of the rules, rule by rule.
pub open spec fn choices_of_rules(rules: Seq<Rule>) -> Seq<RoutableConnectorChoice>
    decreases rules.len(),
{
    if rules.len() == 0 {
        Seq::empty()
    } else {
        choices_of_rules(rules.drop_last()) + choices_of_selection(
            rules.last().connector_selection,
        )
    }
}

/// Every connector that an algorithm refers to, in the order in which it is
/// checked: for an advanced algorithm the default selection first, then the
/// rules in their order.
pub open spec fn referenced(algorithm: RoutingAlgorithm) -> Seq<RoutableConnectorChoice> {
    match algorithm {
        RoutingAlgorithm::Single(choice) => seq![choice],
        RoutingAlgorithm::Priority(list) => list@,
        RoutingAlgorithm::VolumeSplit(splits) => choices_of_splits(splits@),
        RoutingAlgorithm::Advanced(program) => choices_of_selection(program.default_selection)
            + choices_of_rules(program.rules@),
    }
}

/// The first unconfigured choice of two lists in a row is that of the
/// first list, or else that of the second.
pub proof fn lemma_first_unconfigured_concat(
    a: Seq<RoutableConnectorChoice>,
    b: Seq<RoutableConnectorChoice>,
    configured: Set<(Seq<char>, Option<Seq<char>>)>,
)
    ensures
        first_unconfigured(a + b, configured) == match first_unconfigured(a, configured) {
            Some(choice) => Some(choice),
            None => first_unconfigured(b, configured),
        },
    decreases a.len(),
{
    if a.len() == 0 {
        assert(a + b =~= b);
    } else {
        assert((a + b)[0] == a[0]);
        assert((a + b).drop_first() =~= a.drop_first() + b);
        lemma_first_unconfigured_concat(a.drop_first(), b, configured);
    }
}

/// One more choice after a prefix in which every choice is configured: if
/// it is not configured, it is the first such choice of the whole list;
/// if it is, the prefix with it is configured throughout.
pub proof fn lemma_first_unconfigured_step(
    choices: Seq<RoutableConnectorChoice>,
    i: int,
    configured: Set<(Seq<char>, Option<Seq<char>>)>,
)
    requires
        0 <= i < choices.len(),
        first_unconfigured(choices.take(i), configured) is None,
    ensures
        !configured.contains(reference_of(choices[i])) ==> first_unconfigured(choices, configured)
            == Some(choices[i]),
        configured.contains(reference_of(choices[i])) ==> first_unconfigured(
            choices.take(i + 1),
            configured,
        ) is None,
{
    let done = choices.take(i);
    let rest = choices.skip(i);
    let one = seq![choices[i]];
    assert(choices =~= done + rest);
    assert(choices.take(i + 1) =~= done + one);
    lemma_first_unconfigured_concat(done, rest, configured);
    lemma_first_unconfigured_concat(done, one, configured);
    assert(rest[0] == choices[i]);
    assert(one.drop_first() =~= Seq::empty());
    assert(first_unconfigured(one.drop_first(), configured) is None);
}

/// Validation passes exactly if every choice is configured; what it
/// reports otherwise is a choice of the list that is not configured, and
/// every choice before it is.
pub proof fn lemma_first_unconfigured_is_first(
    choices: Seq<RoutableConnectorChoice>,
    configured: Set<(Seq<char>, Option<Seq<char>>)>,
)
    ensures
        first_unconfigured(choices, configured) is None <==> forall|i: int|
            0 <= i < choices.len() ==> configured.contains(reference_of(#[trigger] choices[i])),
        first_unconfigured(choices, configured) matches Some(choice) ==> exists|i: int|
            0 <= i < choices.len() && #[trigger] choices[i] == choice && !configured.contains(
                reference_of(choice),
            ) && forall|j: int|
                0 <= j < i ==> configured.contains(reference_of(#[trigger] choices[j])),
    decreases choices.len(),
{
    if choices.len() > 0 {
        let rest = choices.drop_first();
        lemma_first_unconfigured_is_first(rest, configured);
        if configured.contains(reference_of(choices[0])) {
            if first_unconfigured(rest, configured) is None {
                assert forall|i: int| 0 <= i < choices.len() implies configured.contains(
                    reference_of(#[trigger] choices[i]),
                ) by {
                    if i > 0 {
                        assert(choices[i] == rest[i - 1]);
                    }
                }
            } else {
                let choice = first_unconfigured(rest, configured)->Some_0;
                let k = choose|i: int|
                    0 <= i < rest.len() && #[trigger] rest[i] == choice && !configured.contains(
                        reference_of(choice),
                    ) && forall|j: int|
                        0 <= j < i ==> configured.contains(reference_of(#[trigger] rest[j]));
                assert(choices[k + 1] == choice);
                assert forall|j: int| 0 <= j < k + 1 implies configured.contains(
                    reference_of(#[trigger] choices[j]),
                ) by {
                    if j > 0 {
                        assert(choices[j] == rest[j - 1]);
                    }
                }
            }
        } else {
            assert(choices[0] == choices[0]);
        }
    }
}

/// The accounts up to and including the one at `i` answer what the
/// accounts before it answer, and what that account answers if it counts.
proof fn lemma_configured_step(
    accounts: Seq<MerchantConnectorAccount>,
    i: int,
    profile_id: Seq<char>,
)
    requires
        0 <= i < accounts.len(),
    ensures
        configured_connectors(accounts.take(i + 1), profile_id) == if account_counts(
            accounts[i],
            profile_id,
        ) {
            configured_connectors(accounts.take(i), profile_id).insert(
                (accounts[i].connector_name@, None),
            ).insert((accounts[i].connector_name@, Some(accounts[i].merchant_connector_id@)))
        } else {
            configured_connectors(accounts.take(i), profile_id)
        },
{
    let before = accounts.take(i);
    let upto = accounts.take(i + 1);
    let account = accounts[i];
    let expected = if account_counts(account, profile_id) {
        configured_connectors(before, profile_id).insert((account.connector_name@, None)).insert(
            (account.connector_name@, Some(account.merchant_connector_id@)),
        )
    } else {
        configured_connectors(before, profile_id)
    };
    assert forall|reference: (Seq<char>, Option<Seq<char>>)|
        configured_connectors(upto, profile_id).contains(reference) == expected.contains(
            reference,
        ) by {
        if configured_connectors(upto, profile_id).contains(reference) {
            let j = choose|j: int|
                0 <= j < upto.len() && account_counts(#[trigger] upto[j], profile_id)
                    && account_answers(upto[j], reference);
            if j < i {
                assert(before[j] == upto[j]);
            }
        }
        if expected.contains(reference) {
            if configured_connectors(before, profile_id).contains(reference) {
                let j = choose|j: int|
                    0 <= j < before.len() && account_counts(#[trigger] before[j], profile_id)
                        && account_answers(before[j], reference);
                assert(upto[j] == before[j]);
            } else {
                assert(upto[i] == account);
            }
        }
    }
    assert(configured_connectors(upto, profile_id) =~= expected);
}

fn same_profile(profile_id: &Option<String>, wanted: &str) -> (r: bool)
    ensures
        r == (profile_id matches Some(id) && id@ == wanted@),
{
    match profile_id {
        Some(id) => same_text(id.as_str(), wanted),
        None => false,
    }
}

fn collect_configured(accounts: &Vec<MerchantConnectorAccount>, profile_id: &str) -> (set:
    FxHashSet<(String, Option<String>)>)
    ensures
        held_references(set) == configured_connectors(accounts@, profile_id@),
{
    let mut set = new_reference_set();
    let mut i: usize = 0;
    assert(configured_connectors(accounts@.take(0), profile_id@) =~= Set::empty());
    while i < accounts.len()
        invariant
            i <= accounts@.len(),
            held_references(set) == configured_connectors(accounts@.take(i as int), profile_id@),
        decreases accounts@.len() - i,
    {
        let account = &accounts[i];
        let disabled = match account.disabled {
            Some(flag) => flag,
            None => false,
        };
        proof {
            lemma_configured_step(accounts@, i as int, profile_id@);
        }
        if same_profile(&account.profile_id, profile_id) && !disabled {
            insert_reference(&mut set, account.connector_name.clone(), None);
            insert_reference(
                &mut set,
                account.connector_name.clone(),
                Some(account.merchant_connector_id.clone()),
            );
        }
        i += 1;
    }
    assert(accounts@.take(accounts@.len() as int) =~= accounts@);
    set
}

fn check_choices(set: &FxHashSet<(String, Option<String>)>, list: &Vec<RoutableConnectorChoice>)
    -> (r: Option<RoutableConnectorChoice>)
    ensures
        r == first_unconfigured(list@, held_references(*set)),
{
    let mut i: usize = 0;
    assert(list@.take(0) =~= Seq::empty());
    while i < list.len()
        invariant
            i <= list@.len(),
            first_unconfigured(list@.take(i as int), held_references(*set)) is None,
        decreases list@.len() - i,
    {
        let choice = &list[i];
        proof {
            lemma_first_unconfigured_step(list@, i as int, held_references(*set));
        }
        if !holds_reference(set, &choice.connector, &choice.merchant_connector_id) {
            return Some(choice.clone());
        }
        i += 1;
    }
    assert(list@.take(list@.len() as int) =~= list@);
    None
}

fn check_splits(set: &FxHashSet<(String, Option<String>)>, splits: &Vec<ConnectorVolumeSplit>)
    -> (r: Option<RoutableConnectorChoice>)
    ensures
        r == first_unconfigured(choices_of_splits(splits@), held_references(*set)),
{
    let ghost choices = choices_of_splits(splits@);
    let mut i: usize = 0;
    assert(choices.take(0) =~= Seq::empty());
    while i < splits.len()
        invariant
            i <= splits@.len(),
            choices == choices_of_splits(splits@),
            first_unconfigured(choices.take(i as int), held_references(*set)) is None,
        decreases splits@.len() - i,
    {
        let choice = &splits[i].connector;
        proof {
            lemma_first_unconfigured_step(choices, i as int, held_references(*set));
        }
        if !holds_reference(set, &choice.connector, &choice.merchant_connector_id) {
            return Some(choice.clone());
        }
        i += 1;
    }
    assert(choices.take(choices.len() as int) =~= choices);
    None
}

fn check_selection(set: &FxHashSet<(String, Option<String>)>, selection: &ConnectorSelection)
    -> (r: Option<RoutableConnectorChoice>)
    ensures
        r == first_unconfigured(choices_of_selection(*selection), held_references(*set)),
{
    match selection {
        ConnectorSelection::Priority(list) => check_choices(set, list),
        ConnectorSelection::VolumeSplit(splits) => check_splits(set, splits),
    }
}

fn check_rules(set: &FxHashSet<(String, Option<String>)>, rules: &Vec<Rule>) -> (r: Option<
    RoutableConnectorChoice,
>)
    ensures
        r == first_unconfigured(choices_of_rules(rules@), held_references(*set)),
{
    let mut i: usize = 0;
    assert(rules@.take(0) =~= Seq::empty());
    while i < rules.len()
        invariant
            i <= rules@.len(),
            first_unconfigured(choices_of_rules(rules@.take(i as int)), held_references(*set))
                is None,
        decreases rules@.len() - i,
    {
        let found = check_selection(set, &rules[i].connector_selection);
        proof {
            let upto = rules@.take(i + 1);
            assert(upto.drop_last() =~= rules@.take(i as int));
            assert(upto.last() == rules@[i as int]);
            lemma_first_unconfigured_concat(
                choices_of_rules(rules@.take(i as int)),
                choices_of_selection(rules@[i as int].connector_selection),
                held_references(*set),
            );
        }
        if found.is_some() {
            proof {
                lemma_rules_prefix(rules@, i + 1, held_references(*set));
            }
            return found;
        }
        i += 1;
    }
    assert(rules@.take(rules@.len() as int) =~= rules@);
    None
}

/// An unconfigured choice among the first `n` rules is the first
/// unconfigured choice of all the rules.
proof fn lemma_rules_prefix(
    rules: Seq<Rule>,
    n: int,
    configured: Set<(Seq<char>, Option<Seq<char>>)>,
)
    requires
        0 <= n <= rules.len(),
        first_unconfigured(choices_of_rules(rules.take(n)), configured) is Some,
    ensures
        first_unconfigured(choices_of_rules(rules), configured) == first_unconfigured(
            choices_of_rules(rules.take(n)),
            configured,
        ),
    decreases rules.len() - n,
{
    if n == rules.len() {
        assert(rules.take(n) =~= rules);
    } else {
        let upto = rules.take(n + 1);
        assert(upto.drop_last() =~= rules.take(n));
        assert(upto.last() == rules[n]);
        lemma_first_unconfigured_concat(
            choices_of_rules(rules.take(n)),
            choices_of_selection(rules[n].connector_selection),
            configured,
        );
        lemma_rules_prefix(rules, n + 1, configured);
    }
}

fn unconfigured(choice: RoutableConnectorChoice) -> (e: ApiErrorResponse)
    ensures
        e == not_configured(choice),
{
    ApiErrorResponse::NotFound {
        subject: Subject::Connector {
            name: choice.connector,
            merchant_connector_id: choice.merchant_connector_id,
        },
    }
}

/// The error that names a connector which the profile does not hold.
pub open spec fn not_configured(choice: RoutableConnectorChoice) -> ApiErrorResponse {
    ApiErrorResponse::NotFound {
        subject: Subject::Connector {
            name: choice.connector,
            merchant_connector_id: choice.merchant_connector_id,
        },
    }
}

/// Checks that every connector of a routing algorithm is configured, and
/// not disabled, for the business profile.
///
/// `all_mcas` are the merchant's connector accounts, or nothing where
/// storage could not list them. The check stops at the first connector that
/// the profile does not hold and names it.
pub fn validate_connectors_in_routing_config(
    all_mcas: Option<&Vec<MerchantConnectorAccount>>,
    merchant_id: &str,
    profile_id: &str,
    routing_algorithm: &RoutingAlgorithm,
) -> (r: Result<(), ApiErrorResponse>)
    ensures
        match all_mcas {
            None => r matches Err(
                ApiErrorResponse::NotFound { subject: Subject::MerchantConnectorAccount { merchant_id: id } },
            ) && id@ == merchant_id@,
            Some(accounts) => match first_unconfigured(
                referenced(*routing_algorithm),
                configured_connectors(accounts@, profile_id@),
            ) {
                None => r == Ok::<(), ApiErrorResponse>(()),
                Some(choice) => r == Err::<(), ApiErrorResponse>(not_configured(choice)),
            },
        },
{
    let accounts = match all_mcas {
        Some(accounts) => accounts,
        None => {
            return Err(
                ApiErrorResponse::NotFound {
                    subject: Subject::MerchantConnectorAccount {
                        merchant_id: merchant_id.to_owned(),
                    },
                },
            );
        },
    };
    let set = collect_configured(accounts, profile_id);
    let found = match routing_algorithm {
        RoutingAlgorithm::Single(choice) => {
            proof {
                assert(seq![*choice].drop_first() =~= Seq::empty());
                assert(first_unconfigured(seq![*choice].drop_first(), held_references(set))
                    is None);
            }
            if holds_reference(&set, &choice.connector, &choice.merchant_connector_id) {
                None
            } else {
                Some(choice.clone())
            }
        },
        RoutingAlgorithm::Priority(list) => check_choices(&set, list),
        RoutingAlgorithm::VolumeSplit(splits) => check_splits(&set, splits),
        RoutingAlgorithm::Advanced(program) => {
            proof {
                lemma_first_unconfigured_concat(
                    choices_of_selection(program.default_selection),
                    choices_of_rules(program.rules@),
                    held_references(set),
                );
            }
            match check_selection(&set, &program.default_selection) {
                Some(choice) => Some(choice),
                None => check_rules(&set, &program.rules),
            }
        },
    };
    match found {
        Some(choice) => Err(unconfigured(choice)),
        None => Ok(()),
    }
}

} // verus!
