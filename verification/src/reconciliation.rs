//! The reconciliation of a payment instrument as a saga: a step function
//! from where the reconciliation stands and what just happened to where it
//! stands next and what has to be done. The caller talks to the vault and to
//! storage and reports back; nothing here waits or writes.

use vstd::prelude::*;

use crate::enums::{PaymentMethod, PaymentMethodStatus, PaymentMethodType};
use crate::errors::{ApiErrorResponse, ExpectedFormat, Field, Subject};
use crate::payment_methods::{
    last4_of, CardDetail, CardDetailFromLocker, CustomerAcceptance, DataDuplicationCheck,
    MandateRecord, PaymentMethodCreate, PaymentMethodResponse, PaymentsMandateReference,
    StoredMandateDetails, StoredMetadata, StoredPaymentMethod,
};
use crate::text_map::TextMap;
use crate::tokenization::{
    add_connector_mandate_details_in_payment_method, create_payment_method_metadata,
    create_request_is_valid, get_last4, local_card_matches, save_in_locker,
    skip_saving_card_in_locker, token_is_current,
    update_connector_mandate_details_in_payment_method, LockerDecision, SaveContext,
};

verus! {

/// A record to create.
#[derive(Debug, PartialEq, Eq)]
pub struct NewPaymentMethod {
    pub payment_method_id: String,
    pub locker_id: Option<String>,
    pub customer_id: String,
    pub merchant_id: String,
    pub payment_method: Option<PaymentMethod>,
    pub payment_method_type: Option<PaymentMethodType>,
    pub metadata: Option<TextMap<String>>,
    pub customer_acceptance: Option<CustomerAcceptance>,
    pub connector_mandate_details: Option<PaymentsMandateReference>,
    pub network_transaction_id: Option<String>,
    pub card: Option<CardDetailFromLocker>,
}

/// The kinds of work that a reconciliation hands out.
#[derive(Clone, Copy, Debug, PartialEq, Eq, Structural)]
pub enum StepKind {
    UpdateMetadata,
    UpdateMandateDetails,
    Insert,
    DeleteFromVault,
    ResaveInVault,
    UpdateCardData,
}

/// One piece of work on storage or on the vault.
#[derive(Debug, PartialEq, Eq)]
pub enum Step {
    /// Replace the connector tokens of a record.
    UpdateMetadata { payment_method_id: String, metadata: TextMap<String> },
    /// Replace the mandate map of a record.
    UpdateMandateDetails { payment_method_id: String, details: Option<PaymentsMandateReference> },
    /// Create a record.
    Insert { record: NewPaymentMethod },
    /// Remove the stale instrument from the vault.
    DeleteFromVault { locker_reference: String },
    /// Store the instrument in the vault again, with its new details.
    ResaveInVault { locker_reference: String, card: CardDetail },
    /// Replace the card data of a record.
    UpdateCardData { payment_method_id: String, shown: CardDetailFromLocker },
}

impl Step {
    pub open spec fn spec_kind(&self) -> StepKind {
        match self {
            Step::UpdateMetadata { .. } => StepKind::UpdateMetadata,
            Step::UpdateMandateDetails { .. } => StepKind::UpdateMandateDetails,
            Step::Insert { .. } => StepKind::Insert,
            Step::DeleteFromVault { .. } => StepKind::DeleteFromVault,
            Step::ResaveInVault { .. } => StepKind::ResaveInVault,
            Step::UpdateCardData { .. } => StepKind::UpdateCardData,
        }
    }

    pub fn kind(&self) -> (r: StepKind)
        ensures
            r == self.spec_kind(),
    {
        match self {
            Step::UpdateMetadata { .. } => StepKind::UpdateMetadata,
            Step::UpdateMandateDetails { .. } => StepKind::UpdateMandateDetails,
            Step::Insert { .. } => StepKind::Insert,
            Step::DeleteFromVault { .. } => StepKind::DeleteFromVault,
            Step::ResaveInVault { .. } => StepKind::ResaveInVault,
            Step::UpdateCardData { .. } => StepKind::UpdateCardData,
        }
    }
}

/// What a search for a stored payment method came to.
#[derive(Debug, PartialEq, Eq)]
pub enum PaymentMethodLookup {
    Found(StoredPaymentMethod),
    NotFound,
    /// Storage failed otherwise.
    Failed,
}

/// Which record a reconciliation settles on.
#[derive(Debug, PartialEq, Eq)]
pub struct Resolution {
    /// The id that the reconciliation reports.
    pub payment_method_id: String,
    /// The vault's id, where the record was not found under it directly.
    pub locker_id: Option<String>,
    pub existing: PaymentMethodLookup,
}

/// The connector tokens as plain values.
pub open spec fn tokens_of(tokens: Option<TextMap<String>>) -> Option<Map<Seq<char>, Seq<char>>> {
    match tokens {
        Some(map) => Some(map@),
        None => None,
    }
}

/// The mandate map as plain values.
pub open spec fn mandates_of(reference: Option<PaymentsMandateReference>) -> Option<
    Map<Seq<char>, MandateRecord>,
> {
    match reference {
        Some(map) => Some(map@),
        None => None,
    }
}

/// The connector tokens of a record that is created with `token`.
pub open spec fn first_tokens(token: Option<(String, String)>) -> Option<
    Map<Seq<char>, Seq<char>>,
> {
    match token {
        Some(pair) => Some(Map::<Seq<char>, Seq<char>>::empty().insert(pair.0@, pair.1@)),
        None => None,
    }
}

/// The mandate map of a record that is created by this charge.
pub open spec fn first_mandates(ctx: SaveContext) -> Option<Map<Seq<char>, MandateRecord>> {
    match ctx.spec_mit_mandate() {
        Some(entry) => Some(crate::tokenization::mandates_after_charge(None, entry.0, entry.1)),
        None => None,
    }
}

/// The mandate map of an existing record after this charge.
pub open spec fn merged_mandates(ctx: SaveContext, stored: StoredMandateDetails) -> Option<
    Map<Seq<char>, MandateRecord>,
> {
    match (ctx.merchant_connector_id, ctx.spec_connector_mandate_id()) {
        (Some(mca_id), Some(mandate_id)) => {
            let record = crate::tokenization::mandate_record(
                mandate_id@,
                ctx.payment_method_type,
                ctx.amount,
                ctx.currency,
            );
            match stored {
                StoredMandateDetails::Valid(reference) => Some(
                    crate::tokenization::mandates_after_charge(Some(reference@), mca_id@, record),
                ),
                _ => Some(crate::tokenization::mandates_after_charge(None, mca_id@, record)),
            }
        },
        _ => None,
    }
}

/// Whether `step` creates the record of this reconciliation.
pub open spec fn is_insert(
    step: Step,
    ctx: SaveContext,
    customer_id: String,
    payment_method_id: String,
    locker_id: Option<String>,
    tokens: Option<Map<Seq<char>, Seq<char>>>,
    card: Option<CardDetailFromLocker>,
) -> bool {
    &&& step matches Step::Insert { record }
    &&& record.payment_method_id == payment_method_id
    &&& record.locker_id == locker_id
    &&& record.customer_id == customer_id
    &&& record.merchant_id == ctx.merchant_id
    &&& record.payment_method == Some(ctx.data.payment_method)
    &&& record.payment_method_type == ctx.payment_method_type
    &&& tokens_of(record.metadata) == tokens
    &&& record.customer_acceptance == ctx.spec_customer_acceptance()
    &&& mandates_of(record.connector_mandate_details) == first_mandates(ctx)
    &&& record.network_transaction_id == ctx.spec_network_transaction_id()
    &&& record.card == card
}

/// The card data of a record whose card was stored in the vault again: the
/// whole number, its last four characters, the expiry and the names.
pub open spec fn refreshed_card_matches(shown: CardDetailFromLocker, card: CardDetail) -> bool {
    &&& shown.scheme is None
    &&& shown.issuer_country is None
    &&& shown.last4_digits matches Some(digits) && digits@ == last4_of(card.card_number@)
    &&& shown.card_number == Some(card.card_number)
    &&& shown.expiry_month == Some(card.card_exp_month)
    &&& shown.expiry_year == Some(card.card_exp_year)
    &&& shown.card_token is None
    &&& shown.card_holder_name == card.card_holder_name
    &&& shown.card_fingerprint is None
    &&& shown.nick_name == card.nick_name
    &&& shown.card_network is None
    &&& shown.card_isin is None
    &&& shown.card_issuer is None
    &&& shown.card_type is None
    &&& shown.saved_to_locker == true
}

/// The id under which the vault holds a stored record.
pub open spec fn locker_reference_of(locker_id: Option<String>, payment_method_id: String)
    -> String {
    match locker_id {
        Some(id) => id,
        None => payment_method_id,
    }
}

/// Whether `steps`, from `at` on, are the three steps that bring the vault
/// and the record up to date with the card of the request: delete the stale
/// instrument, store it again, replace the record's card data.
pub open spec fn is_vault_refresh(
    steps: Seq<Step>,
    at: int,
    locker_reference: String,
    payment_method_id: String,
    card: CardDetail,
) -> bool {
    &&& steps.len() == at + 3
    &&& steps[at] == (Step::DeleteFromVault { locker_reference })
    &&& steps[at + 1] == (Step::ResaveInVault { locker_reference, card })
    &&& steps[at + 2] matches Step::UpdateCardData { payment_method_id: id, shown }
    &&& id == payment_method_id
    &&& refreshed_card_matches(shown, card)
}

/// Whether `steps` are the work that the vault's verdict and the record
/// found call for.
///
/// - Not seen before, by the vault or by storage: create the record.
/// - A duplicate of a stored record: replace its connector tokens where the
///   connector's token changed, then, for a merchant-initiated transaction,
///   its mandate map, merged for this connector only.
/// - Details changed: for a merchant-initiated transaction replace the
///   mandate map of the stored record, or create the record where there is
///   none; then refresh the vault.
pub open spec fn plan_matches(
    steps: Seq<Step>,
    ctx: SaveContext,
    customer_id: String,
    token: Option<(String, String)>,
    response_card: Option<CardDetailFromLocker>,
    verdict: Option<DataDuplicationCheck>,
    resolution: Resolution,
) -> bool {
    match (verdict, resolution.existing) {
        (None, _) | (Some(DataDuplicationCheck::Duplicated), PaymentMethodLookup::NotFound) => {
            &&& steps.len() == 1
            &&& is_insert(
                steps[0],
                ctx,
                customer_id,
                resolution.payment_method_id,
                resolution.locker_id,
                first_tokens(token),
                response_card,
            )
        },
        (Some(DataDuplicationCheck::Duplicated), PaymentMethodLookup::Found(stored)) => {
            let patch_tokens = match (stored.metadata, token) {
                (StoredMetadata::Valid(tokens), Some(pair)) => !token_is_current(
                    tokens@,
                    pair.0@,
                    pair.1@,
                ),
                (_, Some(_)) => true,
                (_, None) => false,
            };
            let mit = ctx.spec_check_for_mit_mandates();
            let first: int = if patch_tokens {
                1
            } else {
                0
            };
            &&& steps.len() == first + if mit {
                1int
            } else {
                0int
            }
            &&& patch_tokens ==> {
                &&& steps[0] matches Step::UpdateMetadata { payment_method_id, metadata }
                &&& payment_method_id == stored.payment_method_id
                &&& token matches Some(pair)
                &&& metadata@ == match stored.metadata {
                    StoredMetadata::Valid(tokens) => tokens@.insert(pair.0@, pair.1@),
                    _ => Map::<Seq<char>, Seq<char>>::empty().insert(pair.0@, pair.1@),
                }
            }
            &&& mit ==> {
                &&& steps[first] matches Step::UpdateMandateDetails { payment_method_id, details }
                &&& payment_method_id == stored.payment_method_id
                &&& mandates_of(details) == merged_mandates(ctx, stored.connector_mandate_details)
            }
        },
        (Some(DataDuplicationCheck::MetaDataChanged), PaymentMethodLookup::Found(stored)) => {
            match ctx.data.request.card {
                None => steps.len() == 0,
                Some(card) => {
                    let mit = ctx.spec_check_for_mit_mandates();
                    let first: int = if mit {
                        1
                    } else {
                        0
                    };
                    &&& mit ==> {
                        &&& steps.len() > 0
                        &&& steps[0] matches Step::UpdateMandateDetails {
                            payment_method_id,
                            details,
                        }
                        &&& payment_method_id == stored.payment_method_id
                        &&& mandates_of(details) == merged_mandates(
                            ctx,
                            stored.connector_mandate_details,
                        )
                    }
                    &&& is_vault_refresh(
                        steps,
                        first,
                        locker_reference_of(stored.locker_id, stored.payment_method_id),
                        stored.payment_method_id,
                        card,
                    )
                },
            }
        },
        (Some(DataDuplicationCheck::MetaDataChanged), PaymentMethodLookup::NotFound) => {
            match ctx.data.request.card {
                None => steps.len() == 0,
                Some(card) => {
                    &&& steps.len() > 0
                    &&& is_insert(
                        steps[0],
                        ctx,
                        customer_id,
                        resolution.payment_method_id,
                        resolution.locker_id,
                        None,
                        response_card,
                    )
                    &&& is_vault_refresh(
                        steps,
                        1,
                        locker_reference_of(resolution.locker_id, resolution.payment_method_id),
                        resolution.payment_method_id,
                        card,
                    )
                },
            }
        },
        (Some(_), PaymentMethodLookup::Failed) => false,
    }
}

/// Whether the work for the verdict and the record found cannot be laid
/// out: storage failed, or what the stored record holds cannot be read.
pub open spec fn plan_fails(
    ctx: SaveContext,
    token: Option<(String, String)>,
    verdict: Option<DataDuplicationCheck>,
    resolution: Resolution,
) -> bool {
    match (verdict, resolution.existing) {
        (Some(_), PaymentMethodLookup::Failed) => true,
        (Some(DataDuplicationCheck::Duplicated), PaymentMethodLookup::Found(stored)) => {
            ||| stored.metadata is Malformed
            ||| ctx.spec_check_for_mit_mandates() && stored.connector_mandate_details is Malformed
        },
        (Some(DataDuplicationCheck::MetaDataChanged), PaymentMethodLookup::Found(stored)) => {
            ctx.data.request.card is Some && ctx.spec_check_for_mit_mandates()
                && stored.connector_mandate_details is Malformed
        },
        _ => false,
    }
}

fn new_record(
    ctx: &SaveContext,
    customer_id: String,
    payment_method_id: String,
    locker_id: Option<String>,
    token: Option<(String, String)>,
    card: Option<CardDetailFromLocker>,
) -> (step: Step)
    ensures
        is_insert(
            step,
            *ctx,
            customer_id,
            payment_method_id,
            locker_id,
            first_tokens(token),
            card,
        ),
{
    let metadata = match create_payment_method_metadata(StoredMetadata::Absent, token) {
        Ok(tokens) => tokens,
        Err(_) => None,
    };
    let connector_mandate_details = if ctx.check_for_mit_mandates() {
        add_connector_mandate_details_in_payment_method(
            ctx.payment_method_type,
            ctx.amount,
            ctx.currency,
            ctx.merchant_connector_id.clone(),
            ctx.connector_mandate_id(),
        )
    } else {
        None
    };
    Step::Insert {
        record: NewPaymentMethod {
            payment_method_id,
            locker_id,
            customer_id,
            merchant_id: ctx.merchant_id.clone(),
            payment_method: Some(ctx.data.payment_method),
            payment_method_type: ctx.payment_method_type,
            metadata,
            customer_acceptance: ctx.customer_acceptance(),
            connector_mandate_details,
            network_transaction_id: ctx.network_transaction_id(),
            card,
        },
    }
}

fn mandate_update(ctx: &SaveContext, payment_method_id: String, stored: StoredMandateDetails) -> (r:
    Result<Step, ApiErrorResponse>)
    ensures
        stored is Malformed ==> r == Err::<Step, ApiErrorResponse>(
            ApiErrorResponse::InternalServerError,
        ),
        !(stored is Malformed) ==> (r matches Ok(Step::UpdateMandateDetails {
            payment_method_id: id,
            details,
        }) && id == payment_method_id && mandates_of(details) == merged_mandates(*ctx, stored)),
{
    let details = update_connector_mandate_details_in_payment_method(
        stored,
        ctx.payment_method_type,
        ctx.amount,
        ctx.currency,
        ctx.merchant_connector_id.clone(),
        ctx.connector_mandate_id(),
    )?;
    Ok(Step::UpdateMandateDetails { payment_method_id, details })
}

/// The card data of a record whose card was stored in the vault again.
pub fn refreshed_card(card: &CardDetail) -> (shown: CardDetailFromLocker)
    ensures
        refreshed_card_matches(shown, *card),
{
    CardDetailFromLocker {
        scheme: None,
        issuer_country: None,
        last4_digits: Some(get_last4(card.card_number.as_str())),
        card_number: Some(card.card_number.clone()),
        expiry_month: Some(card.card_exp_month.clone()),
        expiry_year: Some(card.card_exp_year.clone()),
        card_token: None,
        card_holder_name: card.card_holder_name.clone(),
        card_fingerprint: None,
        nick_name: card.nick_name.clone(),
        card_network: None,
        card_isin: None,
        card_issuer: None,
        card_type: None,
        saved_to_locker: true,
    }
}

fn push_vault_refresh(
    steps: &mut Vec<Step>,
    locker_reference: String,
    payment_method_id: String,
    card: &CardDetail,
)
    ensures
        final(steps)@.len() == old(steps)@.len() + 3,
        forall|i: int| 0 <= i < old(steps)@.len() ==> final(steps)@[i] == old(steps)@[i],
        is_vault_refresh(
            final(steps)@,
            old(steps)@.len() as int,
            locker_reference,
            payment_method_id,
            *card,
        ),
{
    steps.push(Step::DeleteFromVault { locker_reference: locker_reference.clone() });
    steps.push(Step::ResaveInVault { locker_reference, card: card.clone() });
    steps.push(Step::UpdateCardData { payment_method_id, shown: refreshed_card(card) });
}

/// Lays out the work that the vault's verdict and the record found call for.
pub fn reconciliation_steps(
    ctx: &SaveContext,
    customer_id: String,
    token: Option<(String, String)>,
    response_card: Option<CardDetailFromLocker>,
    verdict: Option<DataDuplicationCheck>,
    resolution: Resolution,
) -> (r: Result<Vec<Step>, ApiErrorResponse>)
    ensures
        plan_fails(*ctx, token, verdict, resolution) ==> r == Err::<Vec<Step>, ApiErrorResponse>(
            ApiErrorResponse::InternalServerError,
        ),
        !plan_fails(*ctx, token, verdict, resolution) ==> (r matches Ok(steps) && plan_matches(
            steps@,
            *ctx,
            customer_id,
            token,
            response_card,
            verdict,
            resolution,
        )),
{
    let Resolution { payment_method_id, locker_id, existing } = resolution;
    let mut steps: Vec<Step> = Vec::new();
    match verdict {
        None => {
            steps.push(
                new_record(ctx, customer_id, payment_method_id, locker_id, token, response_card),
            );
            Ok(steps)
        },
        Some(DataDuplicationCheck::Duplicated) => match existing {
            PaymentMethodLookup::Failed => Err(ApiErrorResponse::InternalServerError),
            PaymentMethodLookup::NotFound => {
                steps.push(
                    new_record(
                        ctx,
                        customer_id,
                        payment_method_id,
                        locker_id,
                        token,
                        response_card,
                    ),
                );
                Ok(steps)
            },
            PaymentMethodLookup::Found(stored) => {
                let StoredPaymentMethod {
                    payment_method_id: stored_id,
                    locker_id: _,
                    customer_id: _,
                    merchant_id: _,
                    metadata,
                    connector_mandate_details,
                } = stored;
                let patch = create_payment_method_metadata(metadata, token)?;
                match patch {
                    Some(tokens) => {
                        steps.push(
                            Step::UpdateMetadata {
                                payment_method_id: stored_id.clone(),
                                metadata: tokens,
                            },
                        );
                    },
                    None => {},
                }
                if ctx.check_for_mit_mandates() {
                    let step = mandate_update(ctx, stored_id, connector_mandate_details)?;
                    steps.push(step);
                }
                Ok(steps)
            },
        },
        Some(DataDuplicationCheck::MetaDataChanged) => {
            let card = match &ctx.data.request.card {
                Some(card) => card,
                None => {
                    return match existing {
                        PaymentMethodLookup::Failed => Err(ApiErrorResponse::InternalServerError),
                        _ => Ok(steps),
                    };
                },
            };
            match existing {
                PaymentMethodLookup::Failed => Err(ApiErrorResponse::InternalServerError),
                PaymentMethodLookup::NotFound => {
                    let locker_reference = match &locker_id {
                        Some(id) => id.clone(),
                        None => payment_method_id.clone(),
                    };
                    let record_id = payment_method_id.clone();
                    steps.push(
                        new_record(ctx, customer_id, payment_method_id, locker_id, None, response_card),
                    );
                    push_vault_refresh(&mut steps, locker_reference, record_id, card);
                    Ok(steps)
                },
                PaymentMethodLookup::Found(stored) => {
                    let StoredPaymentMethod {
                        payment_method_id: stored_id,
                        locker_id: stored_locker_id,
                        customer_id: _,
                        merchant_id: _,
                        metadata: _,
                        connector_mandate_details,
                    } = stored;
                    if ctx.check_for_mit_mandates() {
                        let step = mandate_update(ctx, stored_id.clone(), connector_mandate_details)?;
                        steps.push(step);
                    }
                    let locker_reference = match stored_locker_id {
                        Some(id) => id,
                        None => stored_id.clone(),
                    };
                    push_vault_refresh(&mut steps, locker_reference, stored_id, card);
                    Ok(steps)
                },
            }
        },
    }
}

/// What a reconciliation comes to: the id of the payment method, where one
/// was saved, and its status, where the vault is in use.
pub type SaveOutcome = Result<(Option<String>, Option<PaymentMethodStatus>), ApiErrorResponse>;

/// Where a reconciliation stands.
#[derive(Debug, PartialEq, Eq)]
pub enum SaveState {
    /// Nothing has happened yet.
    Start,
    /// The vault was asked to store the card.
    AwaitingVault,
    /// Storage was asked for the record under the id that the vault gave.
    AwaitingLookupById { response: PaymentMethodResponse, verdict: DataDuplicationCheck },
    /// Storage was asked for the record whose vault id is the one given.
    AwaitingLookupByLockerId { response: PaymentMethodResponse, verdict: DataDuplicationCheck },
    /// A step was handed out; `remaining` are those that follow it.
    Running { payment_method_id: String, current: StepKind, remaining: Vec<Step> },
    /// The vault could not store the card again: the local record is being
    /// removed.
    Compensating,
    /// The outcome was handed out.
    Finished,
}

/// What the caller reports.
#[derive(Debug, PartialEq, Eq)]
pub enum SaveEvent {
    Begin,
    /// The vault stored the card and gave its verdict.
    VaultAnswered { response: PaymentMethodResponse, verdict: Option<DataDuplicationCheck> },
    /// A search in storage ended.
    Looked(PaymentMethodLookup),
    /// What was last handed out is done.
    Completed,
    /// What was last handed out failed.
    Failed,
}

/// What the caller has to do next.
#[derive(Debug, PartialEq, Eq)]
pub enum SaveAction {
    StoreInVault { request: PaymentMethodCreate, card: CardDetail, customer_id: String },
    FindById { payment_method_id: String },
    FindByLockerId { locker_id: String },
    Perform(Step),
    /// Remove the local record of this reconciliation.
    DeleteLocal { merchant_id: String, payment_method_id: String },
    /// Nothing: this is the outcome.
    Finish(SaveOutcome),
}

/// The reconciliation ends with `outcome`.
pub open spec fn finishes(next: SaveState, action: SaveAction, outcome: SaveOutcome) -> bool {
    next is Finished && action == SaveAction::Finish(outcome)
}

/// The steps that are laid out at a transition: the one handed out and those
/// kept for later.
pub open spec fn planned_steps(next: SaveState, action: SaveAction) -> Seq<Step> {
    match (next, action) {
        (SaveState::Running { remaining, .. }, SaveAction::Perform(step)) => seq![step]
            + remaining@,
        _ => Seq::empty(),
    }
}

/// The transition hands out the first step of a plan for the payment method
/// `id`, or ends well where the plan is empty.
pub open spec fn runs(ctx: SaveContext, id: String, next: SaveState, action: SaveAction) -> bool {
    match action {
        SaveAction::Perform(step) => {
            &&& next matches SaveState::Running { payment_method_id, current, .. }
            &&& payment_method_id == id
            &&& current == step.spec_kind()
        },
        SaveAction::Finish(outcome) => {
            &&& next is Finished
            &&& outcome == Ok::<(Option<String>, Option<PaymentMethodStatus>), ApiErrorResponse>(
                (Some(id), ctx.spec_payment_method_status()),
            )
        },
        _ => false,
    }
}

pub open spec fn missing_customer() -> ApiErrorResponse {
    ApiErrorResponse::InvalidDataFormat {
        field_name: Field::CustomerId,
        expected_format: ExpectedFormat::Present,
    }
}

/// The transition lays out and starts the work for a verdict and the record
/// found, or ends with the error that stands in the way.
pub open spec fn settles(
    ctx: SaveContext,
    response_card: Option<CardDetailFromLocker>,
    verdict: Option<DataDuplicationCheck>,
    resolution: Resolution,
    next: SaveState,
    action: SaveAction,
) -> bool {
    match ctx.spec_connector_token() {
        Err(e) => finishes(next, action, Err(e)),
        Ok(token) => match ctx.customer_id {
            None => finishes(next, action, Err(missing_customer())),
            Some(customer_id) => if plan_fails(ctx, token, verdict, resolution) {
                finishes(next, action, Err(ApiErrorResponse::InternalServerError))
            } else {
                &&& runs(ctx, resolution.payment_method_id, next, action)
                &&& plan_matches(
                    planned_steps(next, action),
                    ctx,
                    customer_id,
                    token,
                    response_card,
                    verdict,
                    resolution,
                )
            },
        },
    }
}

/// The vault's id of a new record: the id that the response carries, where
/// the payment method is a card.
pub open spec fn locker_id_of_new(method: Option<PaymentMethod>, response_id: String) -> Option<
    String,
> {
    if method == Some(PaymentMethod::Card) {
        Some(response_id)
    } else {
        None
    }
}

/// The card that the first step stores, where that step creates a record.
pub open spec fn first_inserted_card(steps: Seq<Step>) -> Option<CardDetailFromLocker> {
    if steps.len() > 0 {
        match steps[0] {
            Step::Insert { record } => record.card,
            _ => None,
        }
    } else {
        None
    }
}

/// The transition records the payment method without the vault: it creates
/// a record under a fresh id, with the card details cut down as
/// [`local_card_matches`] says.
pub open spec fn records_locally(
    ctx: SaveContext,
    with_card: bool,
    next: SaveState,
    action: SaveAction,
) -> bool {
    let shown = first_inserted_card(planned_steps(next, action));
    &&& settles(
        ctx,
        shown,
        None,
        Resolution {
            payment_method_id: ctx.generated_payment_method_id,
            locker_id: locker_id_of_new(Some(ctx.data.payment_method), ctx.generated_locker_id),
            existing: PaymentMethodLookup::NotFound,
        },
        next,
        action,
    )
    &&& match ctx.spec_create_request().card {
        Some(card) if with_card => shown matches Some(details) && local_card_matches(
            details,
            card,
        ),
        _ => shown is None,
    }
}

/// What the first transition of a reconciliation is.
pub open spec fn starts(ctx: SaveContext, next: SaveState, action: SaveAction) -> bool {
    if ctx.data.response is Err {
        finishes(next, action, Ok((None, None)))
    } else {
        match ctx.spec_connector_token() {
            Err(e) => finishes(next, action, Err(e)),
            Ok(_) => if ctx.spec_customer_acceptance() is None {
                finishes(next, action, Ok((None, None)))
            } else {
                match ctx.customer_id {
                    None => finishes(next, action, Err(missing_customer())),
                    Some(customer_id) => if !ctx.locker_enabled {
                        records_locally(ctx, true, next, action)
                    } else if !create_request_is_valid(ctx.spec_create_request()) {
                        finishes(
                            next,
                            action,
                            Err(
                                ApiErrorResponse::InvalidDataFormat {
                                    field_name: Field::PaymentMethodType,
                                    expected_format: ExpectedFormat::TypeOfThePaymentMethod,
                                },
                            ),
                        )
                    } else {
                        match ctx.spec_create_request().card {
                            Some(card) => next is AwaitingVault && action
                                == (SaveAction::StoreInVault {
                                request: ctx.spec_create_request(),
                                card,
                                customer_id,
                            }),
                            None => records_locally(ctx, false, next, action),
                        }
                    },
                }
            },
        }
    }
}

/// The transition relation of a reconciliation: what follows from `state`
/// on `event`.
pub open spec fn save_transition(
    ctx: SaveContext,
    state: SaveState,
    event: SaveEvent,
    next: SaveState,
    action: SaveAction,
) -> bool {
    match (state, event) {
        (SaveState::Start, SaveEvent::Begin) => starts(ctx, next, action),
        (SaveState::AwaitingVault, SaveEvent::VaultAnswered { response, verdict }) => match verdict {
            None => settles(
                ctx,
                response.card,
                None,
                Resolution {
                    payment_method_id: ctx.generated_payment_method_id,
                    locker_id: locker_id_of_new(response.payment_method, response.payment_method_id),
                    existing: PaymentMethodLookup::NotFound,
                },
                next,
                action,
            ),
            Some(verdict) => if verdict == DataDuplicationCheck::MetaDataChanged
                && ctx.data.request.card is None {
                finishes(
                    next,
                    action,
                    Ok((Some(response.payment_method_id), ctx.spec_payment_method_status())),
                )
            } else {
                &&& next == (SaveState::AwaitingLookupById { response, verdict })
                &&& action == (SaveAction::FindById {
                    payment_method_id: response.payment_method_id,
                })
            },
        },
        (SaveState::AwaitingLookupById { response, verdict }, SaveEvent::Looked(lookup)) => {
            match lookup {
                PaymentMethodLookup::Found(stored) => settles(
                    ctx,
                    response.card,
                    Some(verdict),
                    Resolution {
                        payment_method_id: response.payment_method_id,
                        locker_id: None,
                        existing: PaymentMethodLookup::Found(stored),
                    },
                    next,
                    action,
                ),
                PaymentMethodLookup::NotFound => {
                    &&& next == (SaveState::AwaitingLookupByLockerId { response, verdict })
                    &&& action == (SaveAction::FindByLockerId {
                        locker_id: response.payment_method_id,
                    })
                },
                PaymentMethodLookup::Failed => finishes(
                    next,
                    action,
                    Err(ApiErrorResponse::InternalServerError),
                ),
            }
        },
        (SaveState::AwaitingLookupByLockerId { response, verdict }, SaveEvent::Looked(lookup)) => {
            match lookup {
                PaymentMethodLookup::Found(stored) => settles(
                    ctx,
                    response.card,
                    Some(verdict),
                    Resolution {
                        payment_method_id: stored.payment_method_id,
                        locker_id: Some(response.payment_method_id),
                        existing: PaymentMethodLookup::Found(stored),
                    },
                    next,
                    action,
                ),
                PaymentMethodLookup::NotFound => settles(
                    ctx,
                    response.card,
                    Some(verdict),
                    Resolution {
                        payment_method_id: ctx.generated_payment_method_id,
                        locker_id: Some(response.payment_method_id),
                        existing: PaymentMethodLookup::NotFound,
                    },
                    next,
                    action,
                ),
                PaymentMethodLookup::Failed => finishes(
                    next,
                    action,
                    Err(ApiErrorResponse::InternalServerError),
                ),
            }
        },
        (SaveState::Running { payment_method_id, current, remaining }, SaveEvent::Completed) => {
            if remaining@.len() == 0 {
                finishes(
                    next,
                    action,
                    Ok((Some(payment_method_id), ctx.spec_payment_method_status())),
                )
            } else {
                &&& next matches SaveState::Running {
                    payment_method_id: id,
                    current: kind,
                    remaining: rest,
                }
                &&& id == payment_method_id
                &&& kind == remaining@[0].spec_kind()
                &&& rest@ == remaining@.subrange(1, remaining@.len() as int)
                &&& action == SaveAction::Perform(remaining@[0])
            }
        },
        (SaveState::Running { payment_method_id, current, remaining }, SaveEvent::Failed) => {
            if current == StepKind::ResaveInVault {
                &&& next is Compensating
                &&& action == (SaveAction::DeleteLocal {
                    merchant_id: ctx.merchant_id,
                    payment_method_id,
                })
            } else {
                finishes(next, action, Err(ApiErrorResponse::InternalServerError))
            }
        },
        (SaveState::Compensating, SaveEvent::Completed) => finishes(
            next,
            action,
            Err(ApiErrorResponse::InternalServerError),
        ),
        (SaveState::Compensating, SaveEvent::Failed) => finishes(
            next,
            action,
            Err(ApiErrorResponse::NotFound { subject: Subject::PaymentMethod }),
        ),
        _ => finishes(next, action, Err(ApiErrorResponse::InternalServerError)),
    }
}

fn finish(outcome: SaveOutcome) -> (r: (SaveState, SaveAction))
    ensures
        finishes(r.0, r.1, outcome),
{
    (SaveState::Finished, SaveAction::Finish(outcome))
}

fn run(ctx: &SaveContext, payment_method_id: String, steps: Vec<Step>) -> (r: (
    SaveState,
    SaveAction,
))
    ensures
        runs(*ctx, payment_method_id, r.0, r.1),
        planned_steps(r.0, r.1) == steps@,
        steps@.len() > 0 ==> {
            &&& r.0 matches SaveState::Running { remaining, .. }
            &&& remaining@ == steps@.subrange(1, steps@.len() as int)
            &&& r.1 == SaveAction::Perform(steps@[0])
        },
{
    let mut remaining = steps;
    if remaining.len() == 0 {
        let r = finish(Ok((Some(payment_method_id), ctx.payment_method_status())));
        assert(planned_steps(r.0, r.1) =~= steps@);
        r
    } else {
        let step = remaining.remove(0);
        let current = step.kind();
        let r = (
            SaveState::Running { payment_method_id, current, remaining },
            SaveAction::Perform(step),
        );
        assert(planned_steps(r.0, r.1) =~= steps@);
        assert(remaining@ =~= steps@.subrange(1, steps@.len() as int));
        r
    }
}

fn settle(
    ctx: &SaveContext,
    response_card: Option<CardDetailFromLocker>,
    verdict: Option<DataDuplicationCheck>,
    resolution: Resolution,
) -> (r: (SaveState, SaveAction))
    ensures
        settles(*ctx, response_card, verdict, resolution, r.0, r.1),
{
    let token = match ctx.connector_token() {
        Ok(token) => token,
        Err(e) => {
            return finish(Err(e));
        },
    };
    let customer_id = match &ctx.customer_id {
        Some(id) => id.clone(),
        None => {
            return finish(Err(missing_customer_error()));
        },
    };
    let payment_method_id = resolution.payment_method_id.clone();
    match reconciliation_steps(ctx, customer_id, token, response_card, verdict, resolution) {
        Ok(steps) => run(ctx, payment_method_id, steps),
        Err(e) => finish(Err(e)),
    }
}

fn missing_customer_error() -> (e: ApiErrorResponse)
    ensures
        e == missing_customer(),
{
    ApiErrorResponse::InvalidDataFormat {
        field_name: Field::CustomerId,
        expected_format: ExpectedFormat::Present,
    }
}

fn new_locker_id(method: Option<PaymentMethod>, response_id: String) -> (r: Option<String>)
    ensures
        r == locker_id_of_new(method, response_id),
{
    match method {
        Some(PaymentMethod::Card) => Some(response_id),
        _ => None,
    }
}

fn record_locally(ctx: &SaveContext, response: PaymentMethodResponse) -> (r: (
    SaveState,
    SaveAction,
))
    requires
        response.payment_method == Some(ctx.data.payment_method),
        response.payment_method_id == ctx.generated_locker_id,
    ensures
        settles(
            *ctx,
            response.card,
            None,
            Resolution {
                payment_method_id: ctx.generated_payment_method_id,
                locker_id: locker_id_of_new(Some(ctx.data.payment_method), ctx.generated_locker_id),
                existing: PaymentMethodLookup::NotFound,
            },
            r.0,
            r.1,
        ),
        first_inserted_card(planned_steps(r.0, r.1)) == response.card || (planned_steps(
            r.0,
            r.1,
        ).len() == 0 && r.1 matches SaveAction::Finish(Err(_))),
{
    let PaymentMethodResponse { payment_method, payment_method_id, card, .. } = response;
    let resolution = Resolution {
        payment_method_id: ctx.generated_payment_method_id.clone(),
        locker_id: new_locker_id(payment_method, payment_method_id),
        existing: PaymentMethodLookup::NotFound,
    };
    settle(ctx, card, None, resolution)
}

fn start(ctx: &SaveContext) -> (r: (SaveState, SaveAction))
    ensures
        starts(*ctx, r.0, r.1),
{
    if ctx.data.response.is_err() {
        return finish(Ok((None, None)));
    }
    match ctx.connector_token() {
        Ok(_) => {},
        Err(e) => {
            return finish(Err(e));
        },
    }
    if ctx.customer_acceptance().is_none() {
        return finish(Ok((None, None)));
    }
    if ctx.customer_id.is_none() {
        return finish(Err(missing_customer_error()));
    }
    let request = ctx.create_request();
    if !ctx.locker_enabled {
        match skip_saving_card_in_locker(
            ctx.merchant_id.as_str(),
            request,
            ctx.generated_locker_id.clone(),
            ctx.now,
        ) {
            Ok(answer) => record_locally(ctx, answer.0),
            Err(e) => finish(Err(e)),
        }
    } else {
        match save_in_locker(
            ctx.merchant_id.as_str(),
            request,
            ctx.generated_locker_id.clone(),
            ctx.now,
        ) {
            Ok(LockerDecision::StoreInVault { request, card, customer_id }) => (
                SaveState::AwaitingVault,
                SaveAction::StoreInVault { request, card, customer_id },
            ),
            Ok(LockerDecision::Recorded(response)) => record_locally(ctx, response),
            Err(e) => finish(Err(e)),
        }
    }
}

/// One step of the reconciliation of a payment instrument after a charge.
///
/// Begin with [`SaveState::Start`] and [`SaveEvent::Begin`]; do what the
/// action says, report what happened, and go on until the action is
/// [`SaveAction::Finish`]. The context stays the same throughout.
pub fn save_payment_method(ctx: &SaveContext, state: SaveState, event: SaveEvent) -> (r: (
    SaveState,
    SaveAction,
))
    ensures
        save_transition(*ctx, state, event, r.0, r.1),
{
    match (state, event) {
        (SaveState::Start, SaveEvent::Begin) => start(ctx),
        (SaveState::AwaitingVault, SaveEvent::VaultAnswered { response, verdict }) => match verdict {
            None => {
                let PaymentMethodResponse { payment_method, payment_method_id, card, .. } =
                    response;
                let resolution = Resolution {
                    payment_method_id: ctx.generated_payment_method_id.clone(),
                    locker_id: new_locker_id(payment_method, payment_method_id),
                    existing: PaymentMethodLookup::NotFound,
                };
                settle(ctx, card, None, resolution)
            },
            Some(verdict) => {
                let nothing_to_refresh = match verdict {
                    DataDuplicationCheck::MetaDataChanged => ctx.data.request.card.is_none(),
                    DataDuplicationCheck::Duplicated => false,
                };
                if nothing_to_refresh {
                    finish(Ok((Some(response.payment_method_id), ctx.payment_method_status())))
                } else {
                    let payment_method_id = response.payment_method_id.clone();
                    (
                        SaveState::AwaitingLookupById { response, verdict },
                        SaveAction::FindById { payment_method_id },
                    )
                }
            },
        },
        (SaveState::AwaitingLookupById { response, verdict }, SaveEvent::Looked(lookup)) => {
            match lookup {
                PaymentMethodLookup::Found(stored) => {
                    let PaymentMethodResponse { payment_method_id, card, .. } = response;
                    let resolution = Resolution {
                        payment_method_id,
                        locker_id: None,
                        existing: PaymentMethodLookup::Found(stored),
                    };
                    settle(ctx, card, Some(verdict), resolution)
                },
                PaymentMethodLookup::NotFound => {
                    let locker_id = response.payment_method_id.clone();
                    (
                        SaveState::AwaitingLookupByLockerId { response, verdict },
                        SaveAction::FindByLockerId { locker_id },
                    )
                },
                PaymentMethodLookup::Failed => finish(Err(ApiErrorResponse::InternalServerError)),
            }
        },
        (SaveState::AwaitingLookupByLockerId { response, verdict }, SaveEvent::Looked(lookup)) => {
            let PaymentMethodResponse { payment_method_id: locker_id, card, .. } = response;
            match lookup {
                PaymentMethodLookup::Found(stored) => {
                    let resolution = Resolution {
                        payment_method_id: stored.payment_method_id.clone(),
                        locker_id: Some(locker_id),
                        existing: PaymentMethodLookup::Found(stored),
                    };
                    settle(ctx, card, Some(verdict), resolution)
                },
                PaymentMethodLookup::NotFound => {
                    let resolution = Resolution {
                        payment_method_id: ctx.generated_payment_method_id.clone(),
                        locker_id: Some(locker_id),
                        existing: PaymentMethodLookup::NotFound,
                    };
                    settle(ctx, card, Some(verdict), resolution)
                },
                PaymentMethodLookup::Failed => finish(Err(ApiErrorResponse::InternalServerError)),
            }
        },
        (SaveState::Running { payment_method_id, current, remaining }, SaveEvent::Completed) => {
            let r = run(ctx, payment_method_id, remaining);
            r
        },
        (SaveState::Running { payment_method_id, current, remaining }, SaveEvent::Failed) => {
            match current {
                StepKind::ResaveInVault => (
                    SaveState::Compensating,
                    SaveAction::DeleteLocal { merchant_id: ctx.merchant_id.clone(), payment_method_id },
                ),
                _ => finish(Err(ApiErrorResponse::InternalServerError)),
            }
        },
        (SaveState::Compensating, SaveEvent::Completed) => finish(
            Err(ApiErrorResponse::InternalServerError),
        ),
        (SaveState::Compensating, SaveEvent::Failed) => finish(
            Err(ApiErrorResponse::NotFound { subject: Subject::PaymentMethod }),
        ),
        _ => finish(Err(ApiErrorResponse::InternalServerError)),
    }
}

/// The ids of the local records after the caller has done what `action`
/// says, where they were `records` before.
pub open spec fn records_after(records: Set<Seq<char>>, action: SaveAction) -> Set<Seq<char>> {
    match action {
        SaveAction::Perform(Step::Insert { record }) => records.insert(record.payment_method_id@),
        SaveAction::DeleteLocal { payment_method_id, .. } => records.remove(payment_method_id@),
        _ => records,
    }
}

/// Where the vault's verdict is that details changed and storage holds no
/// record, the record is created under the very id that the reconciliation
/// keeps, so that a later removal finds it.
pub proof fn lemma_refresh_creates_under_kept_id(
    ctx: SaveContext,
    response_card: Option<CardDetailFromLocker>,
    resolution: Resolution,
    next: SaveState,
    action: SaveAction,
)
    requires
        resolution.existing is NotFound,
        settles(
            ctx,
            response_card,
            Some(DataDuplicationCheck::MetaDataChanged),
            resolution,
            next,
            action,
        ),
        action is Perform,
    ensures
        action matches SaveAction::Perform(Step::Insert { record }) && next matches SaveState::Running {
            payment_method_id,
            ..
        } && record.payment_method_id == payment_method_id,
{
    let steps = planned_steps(next, action);
    assert(steps[0] == action->Perform_0);
}

/// While steps are handed out, the reconciliation keeps its payment method
/// id.
pub proof fn lemma_running_keeps_id(
    ctx: SaveContext,
    state: SaveState,
    next: SaveState,
    action: SaveAction,
)
    requires
        state is Running,
        save_transition(ctx, state, SaveEvent::Completed, next, action),
        next is Running,
    ensures
        next->Running_payment_method_id == state->Running_payment_method_id,
{
}

/// No orphan is left behind: where the vault fails to store the card again,
/// the local record of the reconciliation is removed, and the
/// reconciliation then ends with an error, whatever the removal came to.
pub proof fn lemma_failed_resave_leaves_no_orphan(
    ctx: SaveContext,
    state: SaveState,
    records: Set<Seq<char>>,
    next: SaveState,
    action: SaveAction,
    removal: SaveEvent,
    last: SaveState,
    outcome: SaveAction,
)
    requires
        state matches SaveState::Running { current, .. } && current == StepKind::ResaveInVault,
        save_transition(ctx, state, SaveEvent::Failed, next, action),
        save_transition(ctx, next, removal, last, outcome),
    ensures
        action == (SaveAction::DeleteLocal {
            merchant_id: ctx.merchant_id,
            payment_method_id: state->Running_payment_method_id,
        }),
        !records_after(records, action).contains(state->Running_payment_method_id@),
        last is Finished,
        outcome matches SaveAction::Finish(Err(_)),
{
}

/// The vault is never asked where it is switched off.
pub proof fn lemma_no_vault_call_when_disabled(
    ctx: SaveContext,
    next: SaveState,
    action: SaveAction,
)
    requires
        !ctx.locker_enabled,
        save_transition(ctx, SaveState::Start, SaveEvent::Begin, next, action),
    ensures
        !(action is StoreInVault),
        !(next is AwaitingVault),
{
}

/// An instrument that the vault has not seen before is recorded by creating
/// one record, and by nothing else.
pub proof fn lemma_new_instrument_is_inserted(
    ctx: SaveContext,
    response: PaymentMethodResponse,
    next: SaveState,
    action: SaveAction,
)
    requires
        save_transition(
            ctx,
            SaveState::AwaitingVault,
            SaveEvent::VaultAnswered { response, verdict: None },
            next,
            action,
        ),
        !(action is Finish),
    ensures
        action matches SaveAction::Perform(Step::Insert { record }) && record.payment_method_id
            == ctx.generated_payment_method_id,
        next matches SaveState::Running { remaining, .. } && remaining@.len() == 0,
{
    let steps = planned_steps(next, action);
    assert(steps[0] == action->Perform_0);
    assert(steps.len() == 1);
    assert(next->Running_remaining@.len() == 0);
}

/// A merchant-initiated transaction on an instrument that storage knows
/// changes the mandate of its own merchant connector account and of no
/// other.
pub proof fn lemma_merge_keeps_other_connectors(
    ctx: SaveContext,
    stored: PaymentsMandateReference,
    other: Seq<char>,
)
    requires
        ctx.merchant_connector_id matches Some(own) && own@ != other,
        merged_mandates(ctx, StoredMandateDetails::Valid(stored)) is Some,
    ensures
        ({
            let merged = merged_mandates(ctx, StoredMandateDetails::Valid(stored))->Some_0;
            &&& merged.contains_key(other) == stored@.contains_key(other)
            &&& stored@.contains_key(other) ==> merged[other] == stored@[other]
            &&& merged.contains_key(ctx.merchant_connector_id->Some_0@)
        }),
{
}

/// The whole course of a refresh whose second store in the vault fails,
/// for an instrument that storage did not hold: the record is created, the
/// stale instrument is removed from the vault, the vault refuses the card,
/// the record that was created is removed again, and the reconciliation
/// ends with an error. Whatever records there were before, the record of
/// this reconciliation is not among them afterwards.
pub proof fn lemma_failed_refresh_runs_to_a_clean_end(
    ctx: SaveContext,
    response: PaymentMethodResponse,
    records: Set<Seq<char>>,
    s1: SaveState,
    a1: SaveAction,
    s2: SaveState,
    a2: SaveAction,
    s3: SaveState,
    a3: SaveAction,
    s4: SaveState,
    a4: SaveAction,
    removal: SaveEvent,
    s5: SaveState,
    a5: SaveAction,
)
    requires
        ctx.data.request.card is Some,
        ctx.spec_connector_token() is Ok,
        ctx.customer_id is Some,
        save_transition(
            ctx,
            SaveState::AwaitingLookupByLockerId {
                response,
                verdict: DataDuplicationCheck::MetaDataChanged,
            },
            SaveEvent::Looked(PaymentMethodLookup::NotFound),
            s1,
            a1,
        ),
        save_transition(ctx, s1, SaveEvent::Completed, s2, a2),
        save_transition(ctx, s2, SaveEvent::Completed, s3, a3),
        save_transition(ctx, s3, SaveEvent::Failed, s4, a4),
        save_transition(ctx, s4, removal, s5, a5),
    ensures
        a1 matches SaveAction::Perform(Step::Insert { record }) && record.payment_method_id
            == ctx.generated_payment_method_id,
        a2 is Perform && a2->Perform_0 is DeleteFromVault,
        a3 is Perform && a3->Perform_0 is ResaveInVault,
        a4 == (SaveAction::DeleteLocal {
            merchant_id: ctx.merchant_id,
            payment_method_id: ctx.generated_payment_method_id,
        }),
        a5 matches SaveAction::Finish(Err(_)),
        !records_after(
            records_after(records_after(records_after(records, a1), a2), a3),
            a4,
        ).contains(ctx.generated_payment_method_id@),
{
    let steps = planned_steps(s1, a1);
    assert(steps.len() == 4);
    assert(steps[0] == a1->Perform_0);
    let rest = s1->Running_remaining@;
    assert(rest.len() == 3);
    assert(rest[0] == steps[1]);
    assert(rest[1] == steps[2]);
    assert(rest[2] == steps[3]);
    let rest2 = s2->Running_remaining@;
    assert(rest2[0] == rest[1]);
}

} // verus!
