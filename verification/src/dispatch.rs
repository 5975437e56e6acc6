//! The dispatcher: from a classified call to the event it stands for.
//!
//! Two methods need to hear from the chain before their event can be built.
//! The dispatcher therefore works in steps: `dispatch` either settles a call
//! or names the view call to make, and `resume` settles the call once the
//! answer is in.

use crate::chain::{
    answer_view, token_query, token_query_for, QueryError, TokenContent, TokenQuery,
    TokenQueryView, TokenView,
};
use crate::codec::{json_text, parse_text, render_json, text_document};
use crate::event::{method_named, DomainEvent, DomainEventView, Method, SkipReason};
use crate::handlers::{
    listing_created, listing_created_of, listing_removed, listing_removed_of, mint_payout_sale,
    mint_payout_sale_of, minted, minted_of, offer_accepted, offer_accepted_of, outcome_view,
    price_updated, price_updated_of, revoked, revoked_of,
};
use crate::json::{JsonTree, JsonValue};
use crate::receipt::{ExecutionDetail, ExecutionDetailView, WatchConfig};
use crate::text::{
    decimal, parse_decimal, same_text, strip_quotes, text_view, without_quotes,
};
use vstd::prelude::*;

verus! {

/// What the dispatcher does next with a call.
#[derive(Clone, Debug, PartialEq, Eq)]
pub enum Step {
    /// The call stands for this event.
    Emit(DomainEvent),
    /// The chain must be asked first; `resume` goes on with the answer.
    Ask(TokenQuery),
    /// The call stands for no event.
    Skip(SkipReason),
}

/// The content of a step.
pub enum StepView {
    Emit(DomainEventView),
    Ask(TokenQueryView),
    Skip(SkipReason),
}

impl Step {
    /// The content of the step.
    pub open spec fn view(&self) -> StepView {
        match self {
            Step::Emit(event) => StepView::Emit(event@),
            Step::Ask(query) => StepView::Ask(query@),
            Step::Skip(reason) => StepView::Skip(*reason),
        }
    }
}

/// The plain text of a JSON value: its JSON text without any double quote.
pub open spec fn cleaned(value: JsonTree) -> Seq<char> {
    without_quotes(json_text(value))
}

/// The plain text of a member of the arguments.
pub open spec fn field_text(args: JsonTree, key: Seq<char>) -> Option<Seq<char>> {
    match args.member(key) {
        Some(value) => Some(cleaned(value)),
        None => None,
    }
}

/// The plain text of a member that is given: neither missing nor `null`.
pub open spec fn given_text(obj: JsonTree, key: Seq<char>) -> Option<Seq<char>> {
    match obj.member(key) {
        None => None,
        Some(JsonTree::Null) => None,
        Some(value) => Some(cleaned(value)),
    }
}

/// The count that the plain text of a given member writes, where it is a
/// whole number below 2^64.
pub open spec fn given_count(obj: JsonTree, key: Seq<char>) -> Option<u64> {
    match given_text(obj, key) {
        Some(text) => match decimal(text) {
            Some(v) => if v <= u64::MAX {
                Some(v as u64)
            } else {
                None
            },
            None => None,
        },
        None => None,
    }
}

/// The plain text of a JSON value.
pub fn clean_text(value: &JsonValue) -> (r: String)
    ensures
        r@ == cleaned(value@),
{
    let text = render_json(value);
    strip_quotes(text.as_str())
}

/// Reads the plain text of a member of the arguments.
pub fn read_field(args: &JsonValue, key: &str) -> (r: Option<String>)
    ensures
        text_view(r) == field_text(args@, key@),
{
    match args.get(key) {
        Some(value) => Some(clean_text(value)),
        None => None,
    }
}

/// Reads the plain text of a member that is given.
pub fn read_given(obj: &JsonValue, key: &str) -> (r: Option<String>)
    ensures
        text_view(r) == given_text(obj@, key@),
{
    match obj.get(key) {
        None => None,
        Some(JsonValue::Null) => None,
        Some(value) => Some(clean_text(value)),
    }
}

/// Reads the count that a given member writes.
pub fn read_count(obj: &JsonValue, key: &str) -> (r: Option<u64>)
    ensures
        r == given_count(obj@, key@),
{
    match read_given(obj, key) {
        Some(text) => match parse_decimal(text.as_str()) {
            Some(v) => if v <= u64::MAX as u128 {
                Some(v as u64)
            } else {
                None
            },
            None => None,
        },
        None => None,
    }
}

/// `nft_mint`: the token is minted in the receiver, owned by the signer.
pub open spec fn mint_event(d: ExecutionDetailView) -> Result<DomainEventView, SkipReason> {
    match (field_text(d.args, "token_id"@), d.args.member("metadata"@)) {
        (Some(token), Some(metadata)) => minted_of(
            token,
            d.receiver_id,
            d.signer_id,
            given_text(metadata, "media"@),
            given_text(metadata, "artist_account_id"@),
            given_text(metadata, "charity_account_id"@),
            given_text(metadata, "title"@),
            given_text(metadata, "description"@),
            given_count(metadata, "copies"@),
        ),
        _ => Err(SkipReason::MissingField),
    }
}

/// `nft_mint_payout`: an edition of a template is sold to `receiver_id`.
pub open spec fn mint_payout_event(d: ExecutionDetailView) -> Result<
    DomainEventView,
    SkipReason,
> {
    match (
        field_text(d.args, "base_token_id"@),
        field_text(d.args, "edition_number"@),
        field_text(d.args, "balance"@),
        field_text(d.args, "receiver_id"@),
    ) {
        (
            Some(base_token_id),
            Some(edition_number),
            Some(balance),
            Some(buyer),
        ) => mint_payout_sale_of(
            base_token_id,
            edition_number,
            balance,
            buyer,
            d.receiver_id,
            d.outcome_id,
        ),
        _ => Err(SkipReason::MissingField),
    }
}

/// `update_price`: the token of the named contract gets a new price.
pub open spec fn update_price_event(d: ExecutionDetailView) -> Result<
    DomainEventView,
    SkipReason,
> {
    match (
        field_text(d.args, "token_id"@),
        field_text(d.args, "nft_contract_id"@),
        field_text(d.args, "price"@),
    ) {
        (Some(token), Some(contract), Some(price)) => price_updated_of(token, contract, price),
        _ => Err(SkipReason::MissingField),
    }
}

/// `remove_sale`: the token of the named contract is taken off sale.
pub open spec fn remove_sale_event(d: ExecutionDetailView) -> Result<
    DomainEventView,
    SkipReason,
> {
    match (field_text(d.args, "token_id"@), field_text(d.args, "nft_contract_id"@)) {
        (Some(token), Some(contract)) => listing_removed_of(token, contract),
        _ => Err(SkipReason::MissingField),
    }
}

/// `nft_revoke`: the approval of one account for a token of the caller is
/// revoked.
pub open spec fn revoke_event(d: ExecutionDetailView, config: &WatchConfig) -> Result<
    DomainEventView,
    SkipReason,
> {
    match (field_text(d.args, "token_id"@), field_text(d.args, "account_id"@)) {
        (Some(token), Some(account)) => revoked_of(
            token,
            d.predecessor_id,
            account,
            config.market_contract@,
        ),
        _ => Err(SkipReason::MissingField),
    }
}

/// `nft_revoke_all`: with all approvals gone the token is off sale.
pub open spec fn revoke_all_event(d: ExecutionDetailView) -> Result<DomainEventView, SkipReason> {
    match field_text(d.args, "token_id"@) {
        Some(token) => listing_removed_of(token, d.predecessor_id),
        None => Err(SkipReason::MissingField),
    }
}

/// `nft_on_approve`: the chain is asked about the token in the contract
/// that sent the approval.
pub open spec fn approve_query(d: ExecutionDetailView) -> Result<TokenQueryView, SkipReason> {
    match d.args.member("token_id"@) {
        Some(token_id) => Ok(token_query_for(d.predecessor_id, token_id)),
        None => Err(SkipReason::MissingField),
    }
}

/// `offer`: unless it is a lazy purchase, the chain is asked about the
/// token in the watched NFT contract.
pub open spec fn offer_query(d: ExecutionDetailView, config: &WatchConfig) -> Result<
    TokenQueryView,
    SkipReason,
> {
    if d.args.member("lazy_purchase"@) is Some {
        Err(SkipReason::LazyPurchase)
    } else {
        match d.args.member("token_id"@) {
            Some(token_id) => Ok(token_query_for(config.nft_contract@, token_id)),
            None => Err(SkipReason::MissingField),
        }
    }
}

/// The listing that the sale conditions of an approval stand for: the one
/// at the price in the native token. Prices in other tokens are ignored.
pub open spec fn listing_of_conditions(
    token: Seq<char>,
    contract: Seq<char>,
    message: JsonTree,
) -> Result<DomainEventView, SkipReason> {
    match message.member("sale_conditions"@) {
        None => Err(SkipReason::BadMessage),
        Some(conditions) => match conditions.member("near"@) {
            None => Err(SkipReason::NoNativePrice),
            Some(price) => match price.text() {
                None => Err(SkipReason::BadAmount),
                Some(raw) => listing_created_of(token, contract, raw),
            },
        },
    }
}

/// The listing that an approval message stands for, given the outcome of
/// parsing its text.
pub open spec fn listing_of_message(
    token: Seq<char>,
    contract: Seq<char>,
    message: Option<JsonTree>,
) -> Result<DomainEventView, SkipReason> {
    match message {
        Some(doc) => listing_of_conditions(token, contract, doc),
        None => Err(SkipReason::BadMessage),
    }
}

/// `nft_on_approve`, once the chain has answered: a token with media is
/// listed at the native price that the message names.
pub open spec fn approve_event(d: ExecutionDetailView, token: TokenContent) -> Result<
    DomainEventView,
    SkipReason,
> {
    if token.media is None {
        Err(SkipReason::NoMedia)
    } else {
        match (field_text(d.args, "token_id"@), d.args.member("msg"@)) {
            (Some(token_id), Some(JsonTree::Text(msg))) => listing_of_message(
                token_id,
                d.predecessor_id,
                text_document(msg),
            ),
            _ => Err(SkipReason::MissingField),
        }
    }
}

/// `offer`, once the chain has answered: the signer bought the token if
/// the chain reports the signer as its owner.
pub open spec fn offer_event(d: ExecutionDetailView, token: TokenContent) -> Result<
    DomainEventView,
    SkipReason,
> {
    if token.owner_id != d.signer_id {
        Err(SkipReason::NotOwner)
    } else {
        match (field_text(d.args, "token_id"@), field_text(d.args, "nft_contract_id"@)) {
            (Some(token_id), Some(contract)) => offer_accepted_of(
                token_id,
                contract,
                token.owner_id,
                d.signer_id,
                d.deposit,
                d.outcome_id,
            ),
            _ => Err(SkipReason::MissingField),
        }
    }
}

/// The step that settles a call at once.
pub open spec fn settled(outcome: Result<DomainEventView, SkipReason>) -> StepView {
    match outcome {
        Ok(event) => StepView::Emit(event),
        Err(reason) => StepView::Skip(reason),
    }
}

/// The step that asks the chain.
pub open spec fn asked(query: Result<TokenQueryView, SkipReason>) -> StepView {
    match query {
        Ok(q) => StepView::Ask(q),
        Err(reason) => StepView::Skip(reason),
    }
}

/// The first step for a call: nothing for a failed execution, else what
/// the method, matched by its exact name, asks for.
pub open spec fn first_step(d: ExecutionDetailView, config: &WatchConfig) -> StepView {
    if !d.success {
        StepView::Skip(SkipReason::Failed)
    } else {
        match method_named(d.method_name) {
            Method::NftMint => settled(mint_event(d)),
            Method::NftMintPayout => settled(mint_payout_event(d)),
            Method::NftOnApprove => asked(approve_query(d)),
            Method::UpdatePrice => settled(update_price_event(d)),
            Method::Offer => asked(offer_query(d, config)),
            Method::RemoveSale => settled(remove_sale_event(d)),
            Method::PlaceBid => StepView::Skip(SkipReason::Unhandled),
            Method::AcceptOffer => StepView::Skip(SkipReason::Unhandled),
            Method::NftRevoke => settled(revoke_event(d, config)),
            Method::NftRevokeAll => settled(revoke_all_event(d)),
            Method::Unrecognized => StepView::Skip(SkipReason::Unrecognized),
        }
    }
}

/// The outcome of a call whose first step asked the chain, given the
/// answer. A call that asked nothing has no second step.
pub open spec fn second_step(
    d: ExecutionDetailView,
    config: &WatchConfig,
    answer: Result<TokenContent, QueryError>,
) -> Result<DomainEventView, SkipReason> {
    match first_step(d, config) {
        StepView::Ask(_) => match answer {
            Err(_) => Err(SkipReason::QueryFailed),
            Ok(token) => match method_named(d.method_name) {
                Method::NftOnApprove => approve_event(d, token),
                Method::Offer => offer_event(d, token),
                _ => Err(SkipReason::NothingAsked),
            },
        },
        _ => Err(SkipReason::NothingAsked),
    }
}

/// The event a call stands for, if any, given what the chain answers
/// where it is asked.
pub open spec fn dispatched(
    d: ExecutionDetailView,
    config: &WatchConfig,
    answer: Result<TokenContent, QueryError>,
) -> Option<DomainEventView> {
    match first_step(d, config) {
        StepView::Emit(event) => Some(event),
        StepView::Skip(_) => None,
        StepView::Ask(_) => match second_step(d, config, answer) {
            Ok(event) => Some(event),
            Err(_) => None,
        },
    }
}

/// A call whose execution did not succeed stands for no event, whatever
/// its method and arguments.
pub proof fn lemma_failed_call_gives_nothing(
    d: ExecutionDetailView,
    config: &WatchConfig,
    answer: Result<TokenContent, QueryError>,
)
    requires
        !d.success,
    ensures
        dispatched(d, config, answer) is None,
{
}

/// Every event that dispatching gives names a token and a contract:
/// neither is empty.
pub proof fn lemma_events_are_named(
    d: ExecutionDetailView,
    config: &WatchConfig,
    answer: Result<TokenContent, QueryError>,
)
    ensures
        dispatched(d, config, answer) matches Some(event) ==> event.well_formed(),
{
}

/// The names of the two asking methods are those of no other method.
proof fn lemma_asking_methods()
    ensures
        method_named("nft_on_approve"@) == Method::NftOnApprove,
        method_named("offer"@) == Method::Offer,
{
    reveal_strlit("nft_mint");
    reveal_strlit("nft_mint_payout");
    reveal_strlit("nft_on_approve");
    reveal_strlit("update_price");
    reveal_strlit("offer");
    assert("nft_on_approve"@.len() != "nft_mint"@.len());
    assert("nft_on_approve"@.len() != "nft_mint_payout"@.len());
    assert("offer"@.len() != "nft_mint"@.len());
    assert("offer"@.len() != "nft_mint_payout"@.len());
    assert("offer"@.len() != "nft_on_approve"@.len());
    assert("offer"@.len() != "update_price"@.len());
}

/// An approval for a token whose metadata on the chain lacks media stands
/// for no event, whatever sale conditions its message names.
pub proof fn lemma_approve_without_media_gives_nothing(
    d: ExecutionDetailView,
    config: &WatchConfig,
    token: TokenContent,
)
    requires
        d.method_name == "nft_on_approve"@,
        token.media is None,
    ensures
        dispatched(d, config, Ok(token)) is None,
{
    lemma_asking_methods();
}

/// An offer whose signer is not the owner that the chain reports stands
/// for no event.
pub proof fn lemma_offer_by_non_owner_gives_nothing(
    d: ExecutionDetailView,
    config: &WatchConfig,
    token: TokenContent,
)
    requires
        d.method_name == "offer"@,
        token.owner_id != d.signer_id,
    ensures
        dispatched(d, config, Ok(token)) is None,
{
    lemma_asking_methods();
}

/// A lazy purchase is never asked about and stands for no event.
pub proof fn lemma_lazy_purchase_gives_nothing(
    d: ExecutionDetailView,
    config: &WatchConfig,
    answer: Result<TokenContent, QueryError>,
)
    requires
        d.method_name == "offer"@,
        d.args.member("lazy_purchase"@) is Some,
    ensures
        dispatched(d, config, answer) is None,
{
    lemma_asking_methods();
}

/// A failed chain query settles the call with no event.
pub proof fn lemma_failed_query_gives_nothing(
    d: ExecutionDetailView,
    config: &WatchConfig,
    error: QueryError,
)
    ensures
        second_step(d, config, Err(error)) is Err,
        first_step(d, config) is Ask ==> dispatched(d, config, Err(error)) is None,
{
}

fn settle(outcome: Result<DomainEvent, SkipReason>) -> (r: Step)
    ensures
        r@ == settled(outcome_view(outcome)),
{
    match outcome {
        Ok(event) => Step::Emit(event),
        Err(reason) => Step::Skip(reason),
    }
}

fn handle_mint(detail: &ExecutionDetail) -> (r: Result<DomainEvent, SkipReason>)
    ensures
        outcome_view(r) == mint_event(detail@),
        r matches Ok(event) ==> event@.well_formed(),
{
    let token = match read_field(&detail.args, "token_id") {
        Some(t) => t,
        None => {
            return Err(SkipReason::MissingField);
        },
    };
    let metadata = match detail.args.get("metadata") {
        Some(m) => m,
        None => {
            return Err(SkipReason::MissingField);
        },
    };
    let media = read_given(metadata, "media");
    let artist = read_given(metadata, "artist_account_id");
    let charity = read_given(metadata, "charity_account_id");
    let title = read_given(metadata, "title");
    let description = read_given(metadata, "description");
    let copies = read_count(metadata, "copies");
    minted(
        token.as_str(),
        detail.receiver_id.as_str(),
        detail.signer_id.as_str(),
        &media,
        &artist,
        &charity,
        &title,
        &description,
        copies,
    )
}

fn handle_mint_payout(detail: &ExecutionDetail) -> (r: Result<DomainEvent, SkipReason>)
    ensures
        outcome_view(r) == mint_payout_event(detail@),
        r matches Ok(event) ==> event@.well_formed(),
{
    let base_token_id = match read_field(&detail.args, "base_token_id") {
        Some(t) => t,
        None => {
            return Err(SkipReason::MissingField);
        },
    };
    let edition_number = match read_field(&detail.args, "edition_number") {
        Some(t) => t,
        None => {
            return Err(SkipReason::MissingField);
        },
    };
    let balance = match read_field(&detail.args, "balance") {
        Some(t) => t,
        None => {
            return Err(SkipReason::MissingField);
        },
    };
    let buyer = match read_field(&detail.args, "receiver_id") {
        Some(t) => t,
        None => {
            return Err(SkipReason::MissingField);
        },
    };
    mint_payout_sale(
        base_token_id.as_str(),
        edition_number.as_str(),
        balance.as_str(),
        buyer.as_str(),
        detail.receiver_id.as_str(),
        detail.outcome_id.as_str(),
    )
}

fn handle_update_price(detail: &ExecutionDetail) -> (r: Result<DomainEvent, SkipReason>)
    ensures
        outcome_view(r) == update_price_event(detail@),
        r matches Ok(event) ==> event@.well_formed(),
{
    let token = match read_field(&detail.args, "token_id") {
        Some(t) => t,
        None => {
            return Err(SkipReason::MissingField);
        },
    };
    let contract = match read_field(&detail.args, "nft_contract_id") {
        Some(t) => t,
        None => {
            return Err(SkipReason::MissingField);
        },
    };
    let price = match read_field(&detail.args, "price") {
        Some(t) => t,
        None => {
            return Err(SkipReason::MissingField);
        },
    };
    price_updated(token.as_str(), contract.as_str(), price.as_str())
}

fn handle_remove_sale(detail: &ExecutionDetail) -> (r: Result<DomainEvent, SkipReason>)
    ensures
        outcome_view(r) == remove_sale_event(detail@),
        r matches Ok(event) ==> event@.well_formed(),
{
    let token = match read_field(&detail.args, "token_id") {
        Some(t) => t,
        None => {
            return Err(SkipReason::MissingField);
        },
    };
    let contract = match read_field(&detail.args, "nft_contract_id") {
        Some(t) => t,
        None => {
            return Err(SkipReason::MissingField);
        },
    };
    listing_removed(token.as_str(), contract.as_str())
}

fn handle_revoke(detail: &ExecutionDetail, config: &WatchConfig) -> (r: Result<
    DomainEvent,
    SkipReason,
>)
    ensures
        outcome_view(r) == revoke_event(detail@, config),
        r matches Ok(event) ==> event@.well_formed(),
{
    let token = match read_field(&detail.args, "token_id") {
        Some(t) => t,
        None => {
            return Err(SkipReason::MissingField);
        },
    };
    let account = match read_field(&detail.args, "account_id") {
        Some(t) => t,
        None => {
            return Err(SkipReason::MissingField);
        },
    };
    revoked(
        token.as_str(),
        detail.predecessor_id.as_str(),
        account.as_str(),
        config.market_contract.as_str(),
    )
}

fn handle_revoke_all(detail: &ExecutionDetail) -> (r: Result<DomainEvent, SkipReason>)
    ensures
        outcome_view(r) == revoke_all_event(detail@),
        r matches Ok(event) ==> event@.well_formed(),
{
    match read_field(&detail.args, "token_id") {
        Some(token) => listing_removed(token.as_str(), detail.predecessor_id.as_str()),
        None => Err(SkipReason::MissingField),
    }
}

fn ask_for_approve(detail: &ExecutionDetail) -> (r: Step)
    ensures
        r@ == asked(approve_query(detail@)),
{
    match detail.args.get("token_id") {
        Some(token_id) => Step::Ask(token_query(detail.predecessor_id.as_str(), token_id)),
        None => Step::Skip(SkipReason::MissingField),
    }
}

fn ask_for_offer(detail: &ExecutionDetail, config: &WatchConfig) -> (r: Step)
    ensures
        r@ == asked(offer_query(detail@, config)),
{
    if detail.args.get("lazy_purchase").is_some() {
        return Step::Skip(SkipReason::LazyPurchase);
    }
    match detail.args.get("token_id") {
        Some(token_id) => Step::Ask(token_query(config.nft_contract.as_str(), token_id)),
        None => Step::Skip(SkipReason::MissingField),
    }
}

/// Builds the listing that the sale conditions of a parsed approval
/// message stand for.
///
/// The message must hold `sale_conditions`, and those a price under `near`
/// that is a string of decimal digits; prices in other tokens are ignored.
pub fn listing_from_conditions(token: &str, contract: &str, message: &JsonValue) -> (r: Result<
    DomainEvent,
    SkipReason,
>)
    ensures
        outcome_view(r) == listing_of_conditions(token@, contract@, message@),
        r matches Ok(event) ==> event@.well_formed(),
{
    let conditions = match message.get("sale_conditions") {
        Some(c) => c,
        None => {
            return Err(SkipReason::BadMessage);
        },
    };
    let price = match conditions.get("near") {
        Some(p) => p,
        None => {
            return Err(SkipReason::NoNativePrice);
        },
    };
    match price.as_text() {
        Some(raw) => listing_created(token, contract, raw),
        None => Err(SkipReason::BadAmount),
    }
}

/// Builds the listing that an approval message stands for, given the
/// outcome of parsing its text: no document, no listing.
pub fn listing_from_message(token: &str, contract: &str, message: &Option<JsonValue>) -> (r:
    Result<DomainEvent, SkipReason>)
    ensures
        outcome_view(r) == listing_of_message(
            token@,
            contract@,
            match *message {
                Some(doc) => Some(doc@),
                None => None,
            },
        ),
        r matches Ok(event) ==> event@.well_formed(),
{
    match message {
        Some(doc) => listing_from_conditions(token, contract, doc),
        None => Err(SkipReason::BadMessage),
    }
}

fn finish_approve(detail: &ExecutionDetail, token: &TokenView) -> (r: Result<
    DomainEvent,
    SkipReason,
>)
    ensures
        outcome_view(r) == approve_event(detail@, token@),
        r matches Ok(event) ==> event@.well_formed(),
{
    if token.media.is_none() {
        return Err(SkipReason::NoMedia);
    }
    let token_id = match read_field(&detail.args, "token_id") {
        Some(t) => t,
        None => {
            return Err(SkipReason::MissingField);
        },
    };
    let msg = match detail.args.get("msg") {
        Some(JsonValue::Text(msg)) => msg,
        _ => {
            return Err(SkipReason::MissingField);
        },
    };
    let message = parse_text(msg.as_str());
    listing_from_message(token_id.as_str(), detail.predecessor_id.as_str(), &message)
}

fn finish_offer(detail: &ExecutionDetail, token: &TokenView) -> (r: Result<
    DomainEvent,
    SkipReason,
>)
    ensures
        outcome_view(r) == offer_event(detail@, token@),
        r matches Ok(event) ==> event@.well_formed(),
{
    if !same_text(token.owner_id.as_str(), detail.signer_id.as_str()) {
        return Err(SkipReason::NotOwner);
    }
    let token_id = match read_field(&detail.args, "token_id") {
        Some(t) => t,
        None => {
            return Err(SkipReason::MissingField);
        },
    };
    let contract = match read_field(&detail.args, "nft_contract_id") {
        Some(t) => t,
        None => {
            return Err(SkipReason::MissingField);
        },
    };
    offer_accepted(
        token_id.as_str(),
        contract.as_str(),
        token.owner_id.as_str(),
        detail.signer_id.as_str(),
        detail.deposit,
        detail.outcome_id.as_str(),
    )
}

/// Takes the first step for a classified call.
///
/// A call whose execution failed is skipped. Otherwise the method is matched
/// by its exact name: it either settles the call, with an event or with the
/// reason why there is none, or names the view call whose answer `resume`
/// needs. A missing argument skips this call only. Every event that comes
/// out names a token and a contract.
pub fn dispatch(detail: &ExecutionDetail, config: &WatchConfig) -> (r: Step)
    ensures
        r@ == first_step(detail@, config),
        r matches Step::Emit(event) ==> event@.well_formed(),
        !detail.success ==> r@ == StepView::Skip(SkipReason::Failed),
{
    if !detail.success {
        return Step::Skip(SkipReason::Failed);
    }
    match Method::from_name(detail.method_name.as_str()) {
        Method::NftMint => settle(handle_mint(detail)),
        Method::NftMintPayout => settle(handle_mint_payout(detail)),
        Method::NftOnApprove => ask_for_approve(detail),
        Method::UpdatePrice => settle(handle_update_price(detail)),
        Method::Offer => ask_for_offer(detail, config),
        Method::RemoveSale => settle(handle_remove_sale(detail)),
        Method::PlaceBid => Step::Skip(SkipReason::Unhandled),
        Method::AcceptOffer => Step::Skip(SkipReason::Unhandled),
        Method::NftRevoke => settle(handle_revoke(detail, config)),
        Method::NftRevokeAll => settle(handle_revoke_all(detail)),
        Method::Unrecognized => Step::Skip(SkipReason::Unrecognized),
    }
}

/// Settles a call whose first step asked the chain, with the answer.
///
/// A failed query skips the call. For a call whose first step asked
/// nothing there is nothing to resume.
pub fn resume(
    detail: &ExecutionDetail,
    config: &WatchConfig,
    answer: &Result<TokenView, QueryError>,
) -> (r: Result<DomainEvent, SkipReason>)
    ensures
        outcome_view(r) == second_step(detail@, config, answer_view(*answer)),
        r matches Ok(event) ==> event@.well_formed(),
{
    match dispatch(detail, config) {
        Step::Ask(_) => match answer {
            Err(_) => Err(SkipReason::QueryFailed),
            Ok(token) => match Method::from_name(detail.method_name.as_str()) {
                Method::NftOnApprove => finish_approve(detail, token),
                Method::Offer => finish_offer(detail, token),
                _ => Err(SkipReason::NothingAsked),
            },
        },
        _ => Err(SkipReason::NothingAsked),
    }
}

/// The content of an optional event.
pub open spec fn event_view(event: Option<DomainEvent>) -> Option<DomainEventView> {
    match event {
        Some(e) => Some(e@),
        None => None,
    }
}

/// Dispatches a call when the chain's answer is already at hand: the event
/// the call stands for, if any.
///
/// The answer is looked at only where the call asks the chain.
pub fn dispatch_with_answer(
    detail: &ExecutionDetail,
    config: &WatchConfig,
    answer: &Result<TokenView, QueryError>,
) -> (r: Option<DomainEvent>)
    ensures
        event_view(r) == dispatched(detail@, config, answer_view(*answer)),
        r matches Some(event) ==> event@.well_formed(),
{
    match dispatch(detail, config) {
        Step::Emit(event) => Some(event),
        Step::Skip(_) => None,
        Step::Ask(_) => match resume(detail, config, answer) {
            Ok(event) => Some(event),
            Err(_) => None,
        },
    }
}

} // verus!
