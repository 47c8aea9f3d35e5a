//! Evaluation of a routing algorithm for one payment: a single connector, a
//! priority list kept in its order, a volume split decided by a draw, or the
//! first rule of a program whose predicate holds.

use vstd::prelude::*;

use crate::errors::ApiErrorResponse;
use crate::routing::types::{
    Comparison, ComparisonType, ConnectorSelection, ConnectorVolumeSplit, ContextKey,
    ContextValue, RoutableConnectorChoice, RoutingAlgorithm, RoutingContext, Rule,
};
use crate::routing::validate::choices_of_splits;

verus! {

/// The sum of the weights of a volume split.
pub open spec fn total_weight(splits: Seq<ConnectorVolumeSplit>) -> nat
    decreases splits.len(),
{
    if splits.len() == 0 {
        0
    } else {
        total_weight(splits.drop_last()) + splits.last().split as nat
    }
}

/// The entry that a point between zero and the total weight falls on, when
/// the entries are laid side by side, each as wide as its weight.
pub open spec fn picked(splits: Seq<ConnectorVolumeSplit>, point: int) -> int
    decreases splits.len(),
{
    if splits.len() == 0 {
        0
    } else if point < total_weight(splits.drop_last()) {
        picked(splits.drop_last(), point)
    } else {
        splits.len() - 1
    }
}

/// The weight of the entries before the one at `i`.
pub open spec fn weight_before(splits: Seq<ConnectorVolumeSplit>, i: int) -> nat {
    total_weight(splits.take(i))
}

/// Weights add up along the list.
pub proof fn lemma_weight_grows(splits: Seq<ConnectorVolumeSplit>, i: int)
    requires
        0 <= i < splits.len(),
    ensures
        weight_before(splits, i + 1) == weight_before(splits, i) + splits[i].split,
        weight_before(splits, i + 1) <= total_weight(splits),
        weight_before(splits, splits.len() as int) == total_weight(splits),
    decreases splits.len() - i,
{
    assert(splits.take(i + 1).drop_last() =~= splits.take(i));
    assert(splits.take(splits.len() as int) =~= splits);
    if i + 1 < splits.len() {
        lemma_weight_grows(splits, i + 1);
    }
}

/// An entry is picked exactly for the points of its own stretch: those from
/// the weight before it up to, and without, that weight plus its own. So of
/// the points below the total weight, as many pick an entry as its weight
/// says, and a uniform draw selects it with probability weight over total.
pub proof fn lemma_picked_is_weighted(splits: Seq<ConnectorVolumeSplit>, point: int, i: int)
    requires
        0 <= point < total_weight(splits),
        0 <= i < splits.len(),
    ensures
        0 <= picked(splits, point) < splits.len(),
        picked(splits, point) == i <==> weight_before(splits, i) <= point < weight_before(
            splits,
            i,
        ) + splits[i].split,
    decreases splits.len(),
{
    let rest = splits.drop_last();
    let last = splits.len() - 1;
    assert(splits.take(last as int) =~= rest);
    if point < total_weight(rest) {
        if i < last {
            lemma_picked_is_weighted(rest, point, i);
            assert(rest.take(i) =~= splits.take(i));
            assert(rest[i] == splits[i]);
        } else {
            lemma_picked_is_weighted(rest, point, 0);
        }
    } else {
        if i < last {
            lemma_weight_grows(rest, i);
            assert(rest.take(i) =~= splits.take(i));
            assert(rest.take(i + 1) =~= splits.take(i + 1));
            assert(rest[i] == splits[i]);
        }
    }
}

/// The outcome of a volume split for a draw: the entry that the draw falls
/// on, followed by the other entries in their order as fallbacks. A split
/// without weight selects nothing.
pub open spec fn volume_split(splits: Seq<ConnectorVolumeSplit>, draw: u64) -> Option<
    Seq<RoutableConnectorChoice>,
> {
    if total_weight(splits) == 0 {
        None
    } else {
        let k = picked(splits, draw as int % total_weight(splits) as int);
        Some(seq![splits[k].connector] + choices_of_splits(splits.remove(k)))
    }
}

/// What a selection comes to for a draw.
pub open spec fn selected(selection: ConnectorSelection, draw: u64) -> Option<
    Seq<RoutableConnectorChoice>,
> {
    match selection {
        ConnectorSelection::Priority(list) => Some(list@),
        ConnectorSelection::VolumeSplit(splits) => volume_split(splits@, draw),
    }
}

/// What the context says about a key, if it says anything.
pub open spec fn context_value(ctx: RoutingContext, key: ContextKey) -> Option<ContextValue> {
    match key {
        ContextKey::Amount => Some(ContextValue::Number(ctx.amount)),
        ContextKey::Currency => match ctx.currency {
            Some(v) => Some(ContextValue::Currency(v)),
            None => None,
        },
        ContextKey::PaymentMethod => match ctx.payment_method {
            Some(v) => Some(ContextValue::PaymentMethod(v)),
            None => None,
        },
        ContextKey::PaymentMethodType => match ctx.payment_method_type {
            Some(v) => Some(ContextValue::PaymentMethodType(v)),
            None => None,
        },
        ContextKey::CaptureMethod => match ctx.capture_method {
            Some(v) => Some(ContextValue::CaptureMethod(v)),
            None => None,
        },
    }
}

/// Whether a comparison holds. It fails to evaluate where the context says
/// nothing about the key, where the two sides are of different kinds, and
/// where an order is asked of values that have none.
pub open spec fn compared(comparison: Comparison, ctx: RoutingContext) -> Option<bool> {
    match context_value(ctx, comparison.lhs) {
        None => None,
        Some(actual) => match (actual, comparison.value) {
            (ContextValue::Number(a), ContextValue::Number(b)) => Some(
                match comparison.comparison {
                    ComparisonType::Equal => a == b,
                    ComparisonType::NotEqual => a != b,
                    ComparisonType::LessThan => a < b,
                    ComparisonType::LessThanEqual => a <= b,
                    ComparisonType::GreaterThan => a > b,
                    ComparisonType::GreaterThanEqual => a >= b,
                },
            ),
            (ContextValue::Number(_), _) | (_, ContextValue::Number(_)) => None,
            (a, b) => match comparison.comparison {
                ComparisonType::Equal => if same_kind(a, b) {
                    Some(a == b)
                } else {
                    None
                },
                ComparisonType::NotEqual => if same_kind(a, b) {
                    Some(a != b)
                } else {
                    None
                },
                _ => None,
            },
        },
    }
}

/// Whether two values are of one kind.
pub open spec fn same_kind(a: ContextValue, b: ContextValue) -> bool {
    match (a, b) {
        (ContextValue::Number(_), ContextValue::Number(_)) => true,
        (ContextValue::Currency(_), ContextValue::Currency(_)) => true,
        (ContextValue::PaymentMethod(_), ContextValue::PaymentMethod(_)) => true,
        (ContextValue::PaymentMethodType(_), ContextValue::PaymentMethodType(_)) => true,
        (ContextValue::CaptureMethod(_), ContextValue::CaptureMethod(_)) => true,
        _ => false,
    }
}

/// A predicate holds where every one of its comparisons evaluates and
/// holds.
pub open spec fn predicate_holds(predicate: Seq<Comparison>, ctx: RoutingContext) -> bool {
    forall|i: int| 0 <= i < predicate.len() ==> compared(#[trigger] predicate[i], ctx) == Some(true)
}

/// The index of the first rule whose predicate holds.
pub open spec fn first_applicable(rules: Seq<Rule>, ctx: RoutingContext) -> Option<int>
    decreases rules.len(),
{
    if rules.len() == 0 {
        None
    } else {
        match first_applicable(rules.drop_last(), ctx) {
            Some(i) => Some(i),
            None => if predicate_holds(rules.last().predicate@, ctx) {
                Some(rules.len() - 1)
            } else {
                None
            },
        }
    }
}

/// What the first applicable rule is: its predicate holds, and that of no
/// rule before it does. A rule whose predicate fails to evaluate is passed
/// over like one whose predicate is false; the rules after it are still
/// tried.
pub proof fn lemma_first_applicable(rules: Seq<Rule>, ctx: RoutingContext)
    ensures
        match first_applicable(rules, ctx) {
            Some(i) => 0 <= i < rules.len() && predicate_holds(rules[i].predicate@, ctx)
                && forall|j: int|
                0 <= j < i ==> !predicate_holds((#[trigger] rules[j]).predicate@, ctx),
            None => forall|j: int|
                0 <= j < rules.len() ==> !predicate_holds((#[trigger] rules[j]).predicate@, ctx),
        },
    decreases rules.len(),
{
    if rules.len() > 0 {
        let rest = rules.drop_last();
        lemma_first_applicable(rest, ctx);
        match first_applicable(rest, ctx) {
            Some(i) => {
                assert(rest[i] == rules[i]);
                assert forall|j: int| 0 <= j < i implies !predicate_holds(
                    (#[trigger] rules[j]).predicate@,
                    ctx,
                ) by {
                    assert(rest[j] == rules[j]);
                }
            },
            None => {
                assert forall|j: int| 0 <= j < rules.len() - 1 implies !predicate_holds(
                    (#[trigger] rules[j]).predicate@,
                    ctx,
                ) by {
                    assert(rest[j] == rules[j]);
                }
            },
        }
    }
}

/// A rule that applies among the first `n` rules is the first applicable
/// rule of all.
proof fn lemma_applicable_prefix(rules: Seq<Rule>, n: int, ctx: RoutingContext)
    requires
        0 <= n <= rules.len(),
        first_applicable(rules.take(n), ctx) is Some,
    ensures
        first_applicable(rules, ctx) == first_applicable(rules.take(n), ctx),
    decreases rules.len() - n,
{
    if n == rules.len() {
        assert(rules.take(n) =~= rules);
    } else {
        assert(rules.take(n + 1).drop_last() =~= rules.take(n));
        lemma_applicable_prefix(rules, n + 1, ctx);
    }
}

/// The connectors to try for a payment, in order, for a draw that decides
/// the volume splits.
pub open spec fn evaluated(algorithm: RoutingAlgorithm, ctx: RoutingContext, draw: u64) -> Option<
    Seq<RoutableConnectorChoice>,
> {
    match algorithm {
        RoutingAlgorithm::Single(choice) => Some(seq![choice]),
        RoutingAlgorithm::Priority(list) => Some(list@),
        RoutingAlgorithm::VolumeSplit(splits) => volume_split(splits@, draw),
        RoutingAlgorithm::Advanced(program) => match first_applicable(program.rules@, ctx) {
            Some(i) => selected(program.rules@[i].connector_selection, draw),
            None => selected(program.default_selection, draw),
        },
    }
}

fn sum_weights(splits: &Vec<ConnectorVolumeSplit>) -> (total: u128)
    ensures
        total == total_weight(splits@),
{
    let mut total: u128 = 0;
    let mut i: usize = 0;
    assert(splits@.take(0) =~= Seq::empty());
    while i < splits.len()
        invariant
            i <= splits@.len(),
            total == weight_before(splits@, i as int),
            total <= 255 * i,
        decreases splits@.len() - i,
    {
        proof {
            lemma_weight_grows(splits@, i as int);
        }
        total = total + splits[i].split as u128;
        i += 1;
    }
    assert(splits@.take(splits@.len() as int) =~= splits@);
    total
}

fn pick(splits: &Vec<ConnectorVolumeSplit>, point: u128) -> (k: usize)
    requires
        point < total_weight(splits@),
    ensures
        k == picked(splits@, point as int),
        k < splits@.len(),
{
    let mut before: u128 = 0;
    let mut i: usize = 0;
    assert(splits@.take(0) =~= Seq::empty());
    while i < splits.len()
        invariant
            i <= splits@.len(),
            before == weight_before(splits@, i as int),
            before <= 255 * i,
            before <= point,
            point < total_weight(splits@),
        decreases splits@.len() - i,
    {
        proof {
            lemma_weight_grows(splits@, i as int);
            lemma_picked_is_weighted(splits@, point as int, i as int);
        }
        let next = before + splits[i].split as u128;
        if point < next {
            return i;
        }
        before = next;
        i += 1;
    }
    proof {
        assert(splits@.take(splits@.len() as int) =~= splits@);
        assert(false);
    }
    0
}

fn clone_choices(list: &Vec<RoutableConnectorChoice>) -> (r: Vec<RoutableConnectorChoice>)
    ensures
        r@ == list@,
{
    let mut out: Vec<RoutableConnectorChoice> = Vec::new();
    let mut i: usize = 0;
    while i < list.len()
        invariant
            i <= list@.len(),
            out@ == list@.take(i as int),
        decreases list@.len() - i,
    {
        out.push(list[i].clone());
        assert(out@ =~= list@.take(i + 1));
        i += 1;
    }
    assert(list@.take(list@.len() as int) =~= list@);
    out
}

/// Decides a volume split by a draw: the entry that the draw falls on comes
/// first, the others follow in their order.
pub fn select_by_draw(splits: &Vec<ConnectorVolumeSplit>, draw: u64) -> (r: Option<
    Vec<RoutableConnectorChoice>,
>)
    ensures
        match volume_split(splits@, draw) {
            Some(order) => r matches Some(out) && out@ == order,
            None => r is None,
        },
{
    let total = sum_weights(splits);
    if total == 0 {
        return None;
    }
    let point = draw as u128 % total;
    let k = pick(splits, point);
    let mut out: Vec<RoutableConnectorChoice> = Vec::new();
    out.push(splits[k].connector.clone());
    let ghost others = choices_of_splits(splits@.remove(k as int));
    let mut i: usize = 0;
    while i < splits.len()
        invariant
            i <= splits@.len(),
            k < splits@.len(),
            others == choices_of_splits(splits@.remove(k as int)),
            out@ == seq![splits@[k as int].connector] + others.take(
                if i <= k {
                    i as int
                } else {
                    i - 1
                },
            ),
        decreases splits@.len() - i,
    {
        if i != k {
            out.push(splits[i].connector.clone());
            proof {
                let j: int = if i < k {
                    i as int
                } else {
                    i - 1
                };
                assert(others[j] == splits@[i as int].connector);
                assert(others.take(j + 1) =~= others.take(j).push(others[j]));
                assert(out@ =~= seq![splits@[k as int].connector] + others.take(j + 1));
            }
        }
        i += 1;
    }
    assert(others.take(others.len() as int) =~= others);
    Some(out)
}

/// A number that nobody can foretell.
///
/// Trusted: calls `rand::random::<u64>()`, of whose result nothing is
/// claimed.
#[verifier::external_body]
fn random_draw() -> u64 {
    rand::random::<u64>()
}

/// Performs a volume split at random: each entry is selected with the
/// probability that its weight has in the sum of the weights, as long as
/// the draw is uniform.
pub fn perform_volume_split(splits: &Vec<ConnectorVolumeSplit>) -> (r: Option<
    Vec<RoutableConnectorChoice>,
>)
    ensures
        total_weight(splits@) == 0 ==> r is None,
        total_weight(splits@) > 0 ==> (r matches Some(out) && exists|draw: u64|
            #[trigger] volume_split(splits@, draw) == Some(out@)),
{
    let draw = random_draw();
    let r = select_by_draw(splits, draw);
    proof {
        if total_weight(splits@) > 0 {
            assert(volume_split(splits@, draw) == Some(r->Some_0@));
        }
    }
    r
}

fn select(selection: &ConnectorSelection, draw: u64) -> (r: Option<Vec<RoutableConnectorChoice>>)
    ensures
        match selected(*selection, draw) {
            Some(order) => r matches Some(out) && out@ == order,
            None => r is None,
        },
{
    match selection {
        ConnectorSelection::Priority(list) => Some(clone_choices(list)),
        ConnectorSelection::VolumeSplit(splits) => select_by_draw(splits, draw),
    }
}

fn value_in(ctx: &RoutingContext, key: ContextKey) -> (r: Option<ContextValue>)
    ensures
        r == context_value(*ctx, key),
{
    match key {
        ContextKey::Amount => Some(ContextValue::Number(ctx.amount)),
        ContextKey::Currency => match ctx.currency {
            Some(v) => Some(ContextValue::Currency(v)),
            None => None,
        },
        ContextKey::PaymentMethod => match ctx.payment_method {
            Some(v) => Some(ContextValue::PaymentMethod(v)),
            None => None,
        },
        ContextKey::PaymentMethodType => match ctx.payment_method_type {
            Some(v) => Some(ContextValue::PaymentMethodType(v)),
            None => None,
        },
        ContextKey::CaptureMethod => match ctx.capture_method {
            Some(v) => Some(ContextValue::CaptureMethod(v)),
            None => None,
        },
    }
}

fn equal_values(a: ContextValue, b: ContextValue) -> (r: Option<bool>)
    ensures
        r == if same_kind(a, b) {
            Some(a == b)
        } else {
            None::<bool>
        },
{
    match (a, b) {
        (ContextValue::Number(x), ContextValue::Number(y)) => Some(x == y),
        (ContextValue::Currency(x), ContextValue::Currency(y)) => Some(x == y),
        (ContextValue::PaymentMethod(x), ContextValue::PaymentMethod(y)) => Some(x == y),
        (ContextValue::PaymentMethodType(x), ContextValue::PaymentMethodType(y)) => Some(x == y),
        (ContextValue::CaptureMethod(x), ContextValue::CaptureMethod(y)) => Some(x == y),
        _ => None,
    }
}

/// Evaluates one comparison against the context.
pub fn compare(comparison: &Comparison, ctx: &RoutingContext) -> (r: Option<bool>)
    ensures
        r == compared(*comparison, *ctx),
{
    let actual = match value_in(ctx, comparison.lhs) {
        Some(actual) => actual,
        None => {
            return None;
        },
    };
    match (actual, comparison.value) {
        (ContextValue::Number(a), ContextValue::Number(b)) => Some(
            match comparison.comparison {
                ComparisonType::Equal => a == b,
                ComparisonType::NotEqual => a != b,
                ComparisonType::LessThan => a < b,
                ComparisonType::LessThanEqual => a <= b,
                ComparisonType::GreaterThan => a > b,
                ComparisonType::GreaterThanEqual => a >= b,
            },
        ),
        (ContextValue::Number(_), _) => None,
        (_, ContextValue::Number(_)) => None,
        (a, b) => match comparison.comparison {
            ComparisonType::Equal => equal_values(a, b),
            ComparisonType::NotEqual => match equal_values(a, b) {
                Some(same) => Some(!same),
                None => None,
            },
            _ => None,
        },
    }
}

/// Whether a rule's predicate holds for the context.
pub fn rule_applies(predicate: &Vec<Comparison>, ctx: &RoutingContext) -> (r: bool)
    ensures
        r == predicate_holds(predicate@, *ctx),
{
    let mut i: usize = 0;
    while i < predicate.len()
        invariant
            i <= predicate@.len(),
            forall|j: int| 0 <= j < i ==> compared(#[trigger] predicate@[j], *ctx) == Some(true),
        decreases predicate@.len() - i,
    {
        match compare(&predicate[i], ctx) {
            Some(true) => {},
            _ => {
                return false;
            },
        }
        i += 1;
    }
    true
}

fn find_applicable(rules: &Vec<Rule>, ctx: &RoutingContext) -> (r: Option<usize>)
    ensures
        match r {
            Some(i) => first_applicable(rules@, *ctx) == Some(i as int) && i < rules@.len(),
            None => first_applicable(rules@, *ctx) is None,
        },
{
    let mut i: usize = 0;
    assert(rules@.take(0) =~= Seq::empty());
    while i < rules.len()
        invariant
            i <= rules@.len(),
            first_applicable(rules@.take(i as int), *ctx) is None,
        decreases rules@.len() - i,
    {
        proof {
            assert(rules@.take(i + 1).drop_last() =~= rules@.take(i as int));
            assert(rules@.take(i + 1).last() == rules@[i as int]);
        }
        if rule_applies(&rules[i].predicate, ctx) {
            proof {
                lemma_applicable_prefix(rules@, i + 1, *ctx);
            }
            return Some(i);
        }
        i += 1;
    }
    assert(rules@.take(rules@.len() as int) =~= rules@);
    None
}

/// The connectors to try for a payment, in order.
///
/// A single connector is returned as it is, a priority list in its declared
/// order. A volume split is decided by `draw`. Of a program the first rule
/// whose predicate holds decides, and the default selection where none
/// does. A volume split without weight is an internal error.
pub fn evaluate(algorithm: &RoutingAlgorithm, ctx: &RoutingContext, draw: u64) -> (r: Result<
    Vec<RoutableConnectorChoice>,
    ApiErrorResponse,
>)
    ensures
        match evaluated(*algorithm, *ctx, draw) {
            Some(order) => r matches Ok(out) && out@ == order,
            None => r == Err::<Vec<RoutableConnectorChoice>, ApiErrorResponse>(
                ApiErrorResponse::InternalServerError,
            ),
        },
{
    let outcome = match algorithm {
        RoutingAlgorithm::Single(choice) => {
            let mut out: Vec<RoutableConnectorChoice> = Vec::new();
            out.push(choice.clone());
            assert(out@ =~= seq![*choice]);
            Some(out)
        },
        RoutingAlgorithm::Priority(list) => Some(clone_choices(list)),
        RoutingAlgorithm::VolumeSplit(splits) => select_by_draw(splits, draw),
        RoutingAlgorithm::Advanced(program) => match find_applicable(&program.rules, ctx) {
            Some(i) => select(&program.rules[i].connector_selection, draw),
            None => select(&program.default_selection, draw),
        },
    };
    match outcome {
        Some(out) => Ok(out),
        None => Err(ApiErrorResponse::InternalServerError),
    }
}

/// The connectors to try for a payment, with volume splits decided at
/// random.
pub fn route(algorithm: &RoutingAlgorithm, ctx: &RoutingContext) -> (r: Result<
    Vec<RoutableConnectorChoice>,
    ApiErrorResponse,
>)
    ensures
        exists|draw: u64|
            match #[trigger] evaluated(*algorithm, *ctx, draw) {
                Some(order) => r matches Ok(out) && out@ == order,
                None => r == Err::<Vec<RoutableConnectorChoice>, ApiErrorResponse>(
                    ApiErrorResponse::InternalServerError,
                ),
            },
{
    let draw = random_draw();
    let r = evaluate(algorithm, ctx, draw);
    proof {
        let witness = evaluated(*algorithm, *ctx, draw);
        assert(match witness {
            Some(order) => r matches Ok(out) && out@ == order,
            None => r == Err::<Vec<RoutableConnectorChoice>, ApiErrorResponse>(
                ApiErrorResponse::InternalServerError,
            ),
        });
    }
    r
}

} // verus!
