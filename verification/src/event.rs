//! The marketplace events that classified calls stand for.

use crate::price::Price;
use crate::text::{same_text, text_view};
use vstd::prelude::*;

verus! {

/// A marketplace event.
///
/// Every event names a token and the contract the token lives in.
#[derive(Clone, Debug, PartialEq, Eq)]
pub enum DomainEvent {
    /// A token was minted. Metadata the call did not give is unset.
    Mint {
        token: String,
        contract: String,
        owner: String,
        media: Option<String>,
        artist: Option<String>,
        charity: Option<String>,
        title: Option<String>,
        description: Option<String>,
        copies: Option<u64>,
    },
    /// An edition of a lazily minted token was minted and sold at once.
    MintPayoutSale { token: String, contract: String, buyer: String, price: Price, receipt_id: String },
    /// A token was put up for sale.
    ListingCreated { token: String, contract: String, price: Price },
    /// The price of a listed token was changed.
    PriceUpdated { token: String, contract: String, price: Price },
    /// A token was taken off sale.
    ListingRemoved { token: String, contract: String },
    /// An offer for a token was accepted by its purchase.
    OfferAccepted { token: String, contract: String, buyer: String, price: Price, receipt_id: String },
    /// The marketplace's approval for a token was revoked.
    Revoked { token: String, contract: String },
}

/// The content of a marketplace event.
pub enum DomainEventView {
    Mint {
        token: Seq<char>,
        contract: Seq<char>,
        owner: Seq<char>,
        media: Option<Seq<char>>,
        artist: Option<Seq<char>>,
        charity: Option<Seq<char>>,
        title: Option<Seq<char>>,
        description: Option<Seq<char>>,
        copies: Option<u64>,
    },
    MintPayoutSale {
        token: Seq<char>,
        contract: Seq<char>,
        buyer: Seq<char>,
        price: Price,
        receipt_id: Seq<char>,
    },
    ListingCreated { token: Seq<char>, contract: Seq<char>, price: Price },
    PriceUpdated { token: Seq<char>, contract: Seq<char>, price: Price },
    ListingRemoved { token: Seq<char>, contract: Seq<char> },
    OfferAccepted {
        token: Seq<char>,
        contract: Seq<char>,
        buyer: Seq<char>,
        price: Price,
        receipt_id: Seq<char>,
    },
    Revoked { token: Seq<char>, contract: Seq<char> },
}

impl DomainEventView {
    /// The token the event is about.
    pub open spec fn token(self) -> Seq<char> {
        match self {
            DomainEventView::Mint { token, .. } => token,
            DomainEventView::MintPayoutSale { token, .. } => token,
            DomainEventView::ListingCreated { token, .. } => token,
            DomainEventView::PriceUpdated { token, .. } => token,
            DomainEventView::ListingRemoved { token, .. } => token,
            DomainEventView::OfferAccepted { token, .. } => token,
            DomainEventView::Revoked { token, .. } => token,
        }
    }

    /// The contract the token lives in.
    pub open spec fn contract(self) -> Seq<char> {
        match self {
            DomainEventView::Mint { contract, .. } => contract,
            DomainEventView::MintPayoutSale { contract, .. } => contract,
            DomainEventView::ListingCreated { contract, .. } => contract,
            DomainEventView::PriceUpdated { contract, .. } => contract,
            DomainEventView::ListingRemoved { contract, .. } => contract,
            DomainEventView::OfferAccepted { contract, .. } => contract,
            DomainEventView::Revoked { contract, .. } => contract,
        }
    }

    /// The event names a token and a contract: neither is empty.
    pub open spec fn well_formed(self) -> bool {
        self.token().len() > 0 && self.contract().len() > 0
    }
}

impl DomainEvent {
    /// The content of the event.
    pub open spec fn view(&self) -> DomainEventView {
        match self {
            DomainEvent::Mint {
                token,
                contract,
                owner,
                media,
                artist,
                charity,
                title,
                description,
                copies,
            } => DomainEventView::Mint {
                token: token@,
                contract: contract@,
                owner: owner@,
                media: text_view(*media),
                artist: text_view(*artist),
                charity: text_view(*charity),
                title: text_view(*title),
                description: text_view(*description),
                copies: *copies,
            },
            DomainEvent::MintPayoutSale {
                token,
                contract,
                buyer,
                price,
                receipt_id,
            } => DomainEventView::MintPayoutSale {
                token: token@,
                contract: contract@,
                buyer: buyer@,
                price: *price,
                receipt_id: receipt_id@,
            },
            DomainEvent::ListingCreated { token, contract, price } => DomainEventView::ListingCreated {
                token: token@,
                contract: contract@,
                price: *price,
            },
            DomainEvent::PriceUpdated { token, contract, price } => DomainEventView::PriceUpdated {
                token: token@,
                contract: contract@,
                price: *price,
            },
            DomainEvent::ListingRemoved { token, contract } => DomainEventView::ListingRemoved {
                token: token@,
                contract: contract@,
            },
            DomainEvent::OfferAccepted {
                token,
                contract,
                buyer,
                price,
                receipt_id,
            } => DomainEventView::OfferAccepted {
                token: token@,
                contract: contract@,
                buyer: buyer@,
                price: *price,
                receipt_id: receipt_id@,
            },
            DomainEvent::Revoked { token, contract } => DomainEventView::Revoked {
                token: token@,
                contract: contract@,
            },
        }
    }

    /// The token the event is about.
    pub fn token(&self) -> (r: &String)
        ensures
            r@ == self@.token(),
    {
        match self {
            DomainEvent::Mint { token, .. } => token,
            DomainEvent::MintPayoutSale { token, .. } => token,
            DomainEvent::ListingCreated { token, .. } => token,
            DomainEvent::PriceUpdated { token, .. } => token,
            DomainEvent::ListingRemoved { token, .. } => token,
            DomainEvent::OfferAccepted { token, .. } => token,
            DomainEvent::Revoked { token, .. } => token,
        }
    }

    /// The contract the token lives in.
    pub fn contract(&self) -> (r: &String)
        ensures
            r@ == self@.contract(),
    {
        match self {
            DomainEvent::Mint { contract, .. } => contract,
            DomainEvent::MintPayoutSale { contract, .. } => contract,
            DomainEvent::ListingCreated { contract, .. } => contract,
            DomainEvent::PriceUpdated { contract, .. } => contract,
            DomainEvent::ListingRemoved { contract, .. } => contract,
            DomainEvent::OfferAccepted { contract, .. } => contract,
            DomainEvent::Revoked { contract, .. } => contract,
        }
    }
}

/// The methods a call can name.
#[derive(Clone, Copy, Debug, PartialEq, Eq)]
pub enum Method {
    NftMint,
    NftMintPayout,
    NftOnApprove,
    UpdatePrice,
    Offer,
    RemoveSale,
    PlaceBid,
    AcceptOffer,
    NftRevoke,
    NftRevokeAll,
    /// Any name that is none of the above.
    Unrecognized,
}

/// The method that a name stands for, by exact match.
pub open spec fn method_named(name: Seq<char>) -> Method {
    if name == "nft_mint"@ {
        Method::NftMint
    } else if name == "nft_mint_payout"@ {
        Method::NftMintPayout
    } else if name == "nft_on_approve"@ {
        Method::NftOnApprove
    } else if name == "update_price"@ {
        Method::UpdatePrice
    } else if name == "offer"@ {
        Method::Offer
    } else if name == "remove_sale"@ {
        Method::RemoveSale
    } else if name == "place_bid"@ {
        Method::PlaceBid
    } else if name == "accept_offer"@ {
        Method::AcceptOffer
    } else if name == "nft_revoke"@ {
        Method::NftRevoke
    } else if name == "nft_revoke_all"@ {
        Method::NftRevokeAll
    } else {
        Method::Unrecognized
    }
}

impl Method {
    /// Recognizes a method by its exact name.
    pub fn from_name(name: &str) -> (r: Method)
        ensures
            r == method_named(name@),
    {
        if same_text(name, "nft_mint") {
            Method::NftMint
        } else if same_text(name, "nft_mint_payout") {
            Method::NftMintPayout
        } else if same_text(name, "nft_on_approve") {
            Method::NftOnApprove
        } else if same_text(name, "update_price") {
            Method::UpdatePrice
        } else if same_text(name, "offer") {
            Method::Offer
        } else if same_text(name, "remove_sale") {
            Method::RemoveSale
        } else if same_text(name, "place_bid") {
            Method::PlaceBid
        } else if same_text(name, "accept_offer") {
            Method::AcceptOffer
        } else if same_text(name, "nft_revoke") {
            Method::NftRevoke
        } else if same_text(name, "nft_revoke_all") {
            Method::NftRevokeAll
        } else {
            Method::Unrecognized
        }
    }
}

/// Why a call led to no event.
#[derive(Clone, Copy, Debug, PartialEq, Eq)]
pub enum SkipReason {
    /// The execution did not succeed.
    Failed,
    /// The method is known and deliberately left alone.
    Unhandled,
    /// The method is not known.
    Unrecognized,
    /// A required argument is missing, or the token or contract it names is
    /// empty.
    MissingField,
    /// An amount is no decimal number that fits in 128 bits.
    BadAmount,
    /// The token of a mint payout is no edition template.
    NotTemplate,
    /// The offer is a lazy purchase, which the mint payout accounts for.
    LazyPurchase,
    /// The approval's message holds no sale conditions.
    BadMessage,
    /// The sale conditions name no price in the native token.
    NoNativePrice,
    /// The chain knows no media for the token.
    NoMedia,
    /// The signer of the offer is not the token's owner.
    NotOwner,
    /// The revoked account is not the marketplace.
    OtherAccount,
    /// The chain query failed.
    QueryFailed,
    /// The call needs no chain query, so there is no answer to act on.
    NothingAsked,
}

} // verus!
