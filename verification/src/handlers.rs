//! The rules by which each method builds its event, stated over the plain
//! values that a call carries.

use crate::event::{DomainEvent, DomainEventView, SkipReason};
use crate::price::{rescale, rescaled};
use crate::text::{
    amount, clone_text, edition_base, parse_amount, same_text, template_base, text_view,
};
use vstd::prelude::*;

verus! {

/// The content of the outcome of a handler.
pub open spec fn outcome_view(r: Result<DomainEvent, SkipReason>) -> Result<
    DomainEventView,
    SkipReason,
> {
    match r {
        Ok(event) => Ok(event@),
        Err(reason) => Err(reason),
    }
}

/// An event is let through only if it names a token and a contract.
pub open spec fn named_event(event: DomainEventView) -> Result<DomainEventView, SkipReason> {
    if event.well_formed() {
        Ok(event)
    } else {
        Err(SkipReason::MissingField)
    }
}

/// Whether both a token and a contract are named.
fn both_named(token: &str, contract: &str) -> (r: bool)
    ensures
        r == (token@.len() > 0 && contract@.len() > 0),
{
    !token.is_empty() && !contract.is_empty()
}

/// The mint of `token` in `contract` by `owner`.
pub open spec fn minted_of(
    token: Seq<char>,
    contract: Seq<char>,
    owner: Seq<char>,
    media: Option<Seq<char>>,
    artist: Option<Seq<char>>,
    charity: Option<Seq<char>>,
    title: Option<Seq<char>>,
    description: Option<Seq<char>>,
    copies: Option<u64>,
) -> Result<DomainEventView, SkipReason> {
    named_event(
        DomainEventView::Mint {
            token,
            contract,
            owner,
            media,
            artist,
            charity,
            title,
            description,
            copies,
        },
    )
}

/// Builds the event of a mint. Metadata that was not given stays unset.
pub fn minted(
    token: &str,
    contract: &str,
    owner: &str,
    media: &Option<String>,
    artist: &Option<String>,
    charity: &Option<String>,
    title: &Option<String>,
    description: &Option<String>,
    copies: Option<u64>,
) -> (r: Result<DomainEvent, SkipReason>)
    ensures
        outcome_view(r) == minted_of(
            token@,
            contract@,
            owner@,
            text_view(*media),
            text_view(*artist),
            text_view(*charity),
            text_view(*title),
            text_view(*description),
            copies,
        ),
        r matches Ok(event) ==> event@.well_formed(),
{
    if !both_named(token, contract) {
        return Err(SkipReason::MissingField);
    }
    Ok(
        DomainEvent::Mint {
            token: String::from_str(token),
            contract: String::from_str(contract),
            owner: String::from_str(owner),
            media: clone_text(media),
            artist: clone_text(artist),
            charity: clone_text(charity),
            title: clone_text(title),
            description: clone_text(description),
            copies,
        },
    )
}

/// The token id of an edition: what precedes the last `_0` of the template
/// id, an underscore, and the edition number.
pub open spec fn edition_token(base_token_id: Seq<char>, edition_number: Seq<char>) -> Option<
    Seq<char>,
> {
    match edition_base(base_token_id) {
        Some(base) => Some(base + "_"@ + edition_number),
        None => None,
    }
}

/// The sale of a lazily minted edition: the balance must be an amount and
/// the base token id an edition template.
pub open spec fn mint_payout_sale_of(
    base_token_id: Seq<char>,
    edition_number: Seq<char>,
    balance: Seq<char>,
    buyer: Seq<char>,
    contract: Seq<char>,
    receipt_id: Seq<char>,
) -> Result<DomainEventView, SkipReason> {
    match amount(balance) {
        None => Err(SkipReason::BadAmount),
        Some(raw) => match edition_token(base_token_id, edition_number) {
            None => Err(SkipReason::NotTemplate),
            Some(token) => named_event(
                DomainEventView::MintPayoutSale {
                    token,
                    contract,
                    buyer,
                    price: rescaled(raw),
                    receipt_id,
                },
            ),
        },
    }
}

/// Builds the event of a mint payout.
///
/// The token sold is the edition `edition_number` of the template
/// `base_token_id`; a base token id without `_0` gives no event.
pub fn mint_payout_sale(
    base_token_id: &str,
    edition_number: &str,
    balance: &str,
    buyer: &str,
    contract: &str,
    receipt_id: &str,
) -> (r: Result<DomainEvent, SkipReason>)
    ensures
        outcome_view(r) == mint_payout_sale_of(
            base_token_id@,
            edition_number@,
            balance@,
            buyer@,
            contract@,
            receipt_id@,
        ),
        r matches Ok(event) ==> event@.well_formed(),
        edition_base(base_token_id@) is None ==> r is Err,
{
    let raw = match parse_amount(balance) {
        Some(raw) => raw,
        None => {
            return Err(SkipReason::BadAmount);
        },
    };
    let mut token = match template_base(base_token_id) {
        Some(base) => base,
        None => {
            return Err(SkipReason::NotTemplate);
        },
    };
    token.append("_");
    token.append(edition_number);
    if !both_named(token.as_str(), contract) {
        return Err(SkipReason::MissingField);
    }
    Ok(
        DomainEvent::MintPayoutSale {
            token,
            contract: String::from_str(contract),
            buyer: String::from_str(buyer),
            price: rescale(raw),
            receipt_id: String::from_str(receipt_id),
        },
    )
}

/// The listing of `token` at the price that `price` writes.
pub open spec fn listing_created_of(
    token: Seq<char>,
    contract: Seq<char>,
    price: Seq<char>,
) -> Result<DomainEventView, SkipReason> {
    match amount(price) {
        None => Err(SkipReason::BadAmount),
        Some(raw) => named_event(
            DomainEventView::ListingCreated { token, contract, price: rescaled(raw) },
        ),
    }
}

/// Builds the event of a token put up for sale at a raw price in the
/// native token.
pub fn listing_created(token: &str, contract: &str, price: &str) -> (r: Result<
    DomainEvent,
    SkipReason,
>)
    ensures
        outcome_view(r) == listing_created_of(token@, contract@, price@),
        r matches Ok(event) ==> event@.well_formed(),
{
    let raw = match parse_amount(price) {
        Some(raw) => raw,
        None => {
            return Err(SkipReason::BadAmount);
        },
    };
    if !both_named(token, contract) {
        return Err(SkipReason::MissingField);
    }
    Ok(
        DomainEvent::ListingCreated {
            token: String::from_str(token),
            contract: String::from_str(contract),
            price: rescale(raw),
        },
    )
}

/// The change of the price of `token` to what `price` writes.
pub open spec fn price_updated_of(
    token: Seq<char>,
    contract: Seq<char>,
    price: Seq<char>,
) -> Result<DomainEventView, SkipReason> {
    match amount(price) {
        None => Err(SkipReason::BadAmount),
        Some(raw) => named_event(
            DomainEventView::PriceUpdated { token, contract, price: rescaled(raw) },
        ),
    }
}

/// Builds the event of a price update.
pub fn price_updated(token: &str, contract: &str, price: &str) -> (r: Result<
    DomainEvent,
    SkipReason,
>)
    ensures
        outcome_view(r) == price_updated_of(token@, contract@, price@),
        r matches Ok(event) ==> event@.well_formed(),
{
    let raw = match parse_amount(price) {
        Some(raw) => raw,
        None => {
            return Err(SkipReason::BadAmount);
        },
    };
    if !both_named(token, contract) {
        return Err(SkipReason::MissingField);
    }
    Ok(
        DomainEvent::PriceUpdated {
            token: String::from_str(token),
            contract: String::from_str(contract),
            price: rescale(raw),
        },
    )
}

/// The removal of `token` from sale.
pub open spec fn listing_removed_of(token: Seq<char>, contract: Seq<char>) -> Result<
    DomainEventView,
    SkipReason,
> {
    named_event(DomainEventView::ListingRemoved { token, contract })
}

/// Builds the event of a token taken off sale.
pub fn listing_removed(token: &str, contract: &str) -> (r: Result<DomainEvent, SkipReason>)
    ensures
        outcome_view(r) == listing_removed_of(token@, contract@),
        r matches Ok(event) ==> event@.well_formed(),
{
    if !both_named(token, contract) {
        return Err(SkipReason::MissingField);
    }
    Ok(
        DomainEvent::ListingRemoved {
            token: String::from_str(token),
            contract: String::from_str(contract),
        },
    )
}

/// The purchase of `token` by the signer of an offer, who must be the
/// owner the chain reports.
pub open spec fn offer_accepted_of(
    token: Seq<char>,
    contract: Seq<char>,
    owner: Seq<char>,
    signer: Seq<char>,
    deposit: u128,
    receipt_id: Seq<char>,
) -> Result<DomainEventView, SkipReason> {
    if owner != signer {
        Err(SkipReason::NotOwner)
    } else {
        named_event(
            DomainEventView::OfferAccepted {
                token,
                contract,
                buyer: signer,
                price: rescaled(deposit),
                receipt_id,
            },
        )
    }
}

/// Builds the event of an accepted offer. The price is the deposit that
/// was attached to the offer.
pub fn offer_accepted(
    token: &str,
    contract: &str,
    owner: &str,
    signer: &str,
    deposit: u128,
    receipt_id: &str,
) -> (r: Result<DomainEvent, SkipReason>)
    ensures
        outcome_view(r) == offer_accepted_of(
            token@,
            contract@,
            owner@,
            signer@,
            deposit,
            receipt_id@,
        ),
        r matches Ok(event) ==> event@.well_formed(),
        owner@ != signer@ ==> r is Err,
{
    if !same_text(owner, signer) {
        return Err(SkipReason::NotOwner);
    }
    if !both_named(token, contract) {
        return Err(SkipReason::MissingField);
    }
    Ok(
        DomainEvent::OfferAccepted {
            token: String::from_str(token),
            contract: String::from_str(contract),
            buyer: String::from_str(signer),
            price: rescale(deposit),
            receipt_id: String::from_str(receipt_id),
        },
    )
}

/// The revocation of the approval of `account` for `token`, which counts
/// only where the account is the marketplace.
pub open spec fn revoked_of(
    token: Seq<char>,
    contract: Seq<char>,
    account: Seq<char>,
    market_contract: Seq<char>,
) -> Result<DomainEventView, SkipReason> {
    if account != market_contract {
        Err(SkipReason::OtherAccount)
    } else {
        named_event(DomainEventView::Revoked { token, contract })
    }
}

/// Builds the event of a revoked approval.
pub fn revoked(token: &str, contract: &str, account: &str, market_contract: &str) -> (r: Result<
    DomainEvent,
    SkipReason,
>)
    ensures
        outcome_view(r) == revoked_of(token@, contract@, account@, market_contract@),
        r matches Ok(event) ==> event@.well_formed(),
{
    if !same_text(account, market_contract) {
        return Err(SkipReason::OtherAccount);
    }
    if !both_named(token, contract) {
        return Err(SkipReason::MissingField);
    }
    Ok(
        DomainEvent::Revoked {
            token: String::from_str(token),
            contract: String::from_str(contract),
        },
    )
}

} // verus!
