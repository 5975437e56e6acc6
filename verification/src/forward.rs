//! The requests that carry events to the store behind the marketplace.
//!
//! There is one request per kind of event. A request is made of plain
//! values only, and the same event always gives the same request, so a
//! request can be sent again without harm.

use crate::event::{DomainEvent, DomainEventView};
use crate::price::Price;
use crate::text::{strip_quotes, text_view, without_quotes};
use vstd::prelude::*;

verus! {

/// The body that announces a minted token. The aspect ratio of the artwork
/// is not known from the chain and is left to the sender.
#[derive(Clone, Debug, PartialEq, Eq)]
pub struct MintedTokenPOSTBody {
    pub token_id: String,
    pub contract_id: String,
    pub tags: Vec<String>,
    pub artwork_url: String,
    pub owner_account_id: String,
    pub artist_account_id: String,
    pub charity_account_id: String,
    pub copies: u64,
    pub title: String,
    pub description: String,
}

/// The body that puts a token up for sale.
#[derive(Clone, Debug, PartialEq, Eq)]
pub struct InsertForSalePOSTBody {
    pub token_id: String,
    pub contract_id: String,
    pub price_near: Price,
}

/// The body that changes the price of a listed token.
#[derive(Clone, Debug, PartialEq, Eq)]
pub struct UpdatePricePOSTBody {
    pub token_id: String,
    pub contract_id: String,
    pub price_near: Price,
}

/// The body that records the sale of a token.
#[derive(Clone, Debug, PartialEq, Eq)]
pub struct SellTokenPostBody {
    pub token_id: String,
    pub contract_id: String,
    pub purchaser_account_id: String,
    pub price_near: Option<Price>,
    pub admin_account_id: String,
    pub receipt_id: String,
}

/// The body that takes a token off sale.
#[derive(Clone, Debug, PartialEq, Eq)]
pub struct RemoveForSalePOSTBody {
    pub token_id: String,
    pub contract_id: String,
}

/// The body of a request, by the kind of request.
#[derive(Clone, Debug, PartialEq, Eq)]
pub enum ForwardBody {
    Minted(MintedTokenPOSTBody),
    InsertForSale(InsertForSalePOSTBody),
    UpdatePrice(UpdatePricePOSTBody),
    SellToken(SellTokenPostBody),
    RemoveForSale(RemoveForSalePOSTBody),
}

/// A request to the store: where to send it, the signature that opens the
/// door, and the body.
#[derive(Clone, Debug, PartialEq, Eq)]
pub struct ForwardRequest {
    pub api_root: String,
    pub signature: String,
    pub body: ForwardBody,
}

/// The content of the body of a request.
pub enum ForwardBodyView {
    Minted {
        token_id: Seq<char>,
        contract_id: Seq<char>,
        tags: Seq<Seq<char>>,
        artwork_url: Seq<char>,
        owner_account_id: Seq<char>,
        artist_account_id: Seq<char>,
        charity_account_id: Seq<char>,
        copies: u64,
        title: Seq<char>,
        description: Seq<char>,
    },
    InsertForSale { token_id: Seq<char>, contract_id: Seq<char>, price_near: Price },
    UpdatePrice { token_id: Seq<char>, contract_id: Seq<char>, price_near: Price },
    SellToken {
        token_id: Seq<char>,
        contract_id: Seq<char>,
        purchaser_account_id: Seq<char>,
        price_near: Option<Price>,
        admin_account_id: Seq<char>,
        receipt_id: Seq<char>,
    },
    RemoveForSale { token_id: Seq<char>, contract_id: Seq<char> },
}

/// The content of a request.
pub struct ForwardRequestView {
    pub api_root: Seq<char>,
    pub signature: Seq<char>,
    pub body: ForwardBodyView,
}

impl ForwardBody {
    /// The content of the body.
    pub open spec fn view(&self) -> ForwardBodyView {
        match self {
            ForwardBody::Minted(body) => ForwardBodyView::Minted {
                token_id: body.token_id@,
                contract_id: body.contract_id@,
                tags: Seq::new(body.tags@.len(), |i: int| body.tags@[i]@),
                artwork_url: body.artwork_url@,
                owner_account_id: body.owner_account_id@,
                artist_account_id: body.artist_account_id@,
                charity_account_id: body.charity_account_id@,
                copies: body.copies,
                title: body.title@,
                description: body.description@,
            },
            ForwardBody::InsertForSale(body) => ForwardBodyView::InsertForSale {
                token_id: body.token_id@,
                contract_id: body.contract_id@,
                price_near: body.price_near,
            },
            ForwardBody::UpdatePrice(body) => ForwardBodyView::UpdatePrice {
                token_id: body.token_id@,
                contract_id: body.contract_id@,
                price_near: body.price_near,
            },
            ForwardBody::SellToken(body) => ForwardBodyView::SellToken {
                token_id: body.token_id@,
                contract_id: body.contract_id@,
                purchaser_account_id: body.purchaser_account_id@,
                price_near: body.price_near,
                admin_account_id: body.admin_account_id@,
                receipt_id: body.receipt_id@,
            },
            ForwardBody::RemoveForSale(body) => ForwardBodyView::RemoveForSale {
                token_id: body.token_id@,
                contract_id: body.contract_id@,
            },
        }
    }
}

impl ForwardRequest {
    /// The content of the request.
    pub open spec fn view(&self) -> ForwardRequestView {
        ForwardRequestView {
            api_root: self.api_root@,
            signature: self.signature@,
            body: self.body@,
        }
    }
}

/// The text that an optional text stands for: itself, or the empty text.
pub open spec fn text_or_empty(s: Option<Seq<char>>) -> Seq<char> {
    match s {
        Some(t) => t,
        None => Seq::empty(),
    }
}

fn owned_or_empty(s: &Option<String>) -> (r: String)
    ensures
        r@ == text_or_empty(text_view(*s)),
{
    match s {
        Some(t) => t.clone(),
        None => String::new(),
    }
}

/// The body that takes the token off sale. Double quotes around or inside
/// the two ids are dropped.
pub open spec fn removal_of(token: Seq<char>, contract: Seq<char>) -> ForwardBodyView {
    ForwardBodyView::RemoveForSale {
        token_id: without_quotes(token),
        contract_id: without_quotes(contract),
    }
}

/// The body that records the sale of the token to the purchaser. Double
/// quotes in the ids of token, contract, purchaser and receipt are dropped;
/// the admin account is taken as it is.
pub open spec fn sale_of(
    token: Seq<char>,
    contract: Seq<char>,
    price: Option<Price>,
    purchaser: Seq<char>,
    admin_account: Seq<char>,
    receipt_id: Seq<char>,
) -> ForwardBodyView {
    ForwardBodyView::SellToken {
        token_id: without_quotes(token),
        contract_id: without_quotes(contract),
        purchaser_account_id: without_quotes(purchaser),
        price_near: price,
        admin_account_id: admin_account,
        receipt_id: without_quotes(receipt_id),
    }
}

/// The body that puts the token up for sale at the price.
pub open spec fn listing_of(token: Seq<char>, contract: Seq<char>, price: Price) -> ForwardBodyView {
    ForwardBodyView::InsertForSale {
        token_id: without_quotes(token),
        contract_id: without_quotes(contract),
        price_near: price,
    }
}

/// The body that changes the price of the listed token.
pub open spec fn price_update_of(
    token: Seq<char>,
    contract: Seq<char>,
    price: Price,
) -> ForwardBodyView {
    ForwardBodyView::UpdatePrice {
        token_id: without_quotes(token),
        contract_id: without_quotes(contract),
        price_near: price,
    }
}

/// The body that announces a mint: unset metadata as empty text, an unset
/// number of copies as zero, and no tags.
pub open spec fn announcement_of(
    token: Seq<char>,
    contract: Seq<char>,
    owner: Seq<char>,
    media: Option<Seq<char>>,
    artist: Option<Seq<char>>,
    charity: Option<Seq<char>>,
    title: Option<Seq<char>>,
    description: Option<Seq<char>>,
    copies: Option<u64>,
) -> ForwardBodyView {
    ForwardBodyView::Minted {
        token_id: without_quotes(token),
        contract_id: without_quotes(contract),
        tags: Seq::empty(),
        artwork_url: text_or_empty(media),
        owner_account_id: owner,
        artist_account_id: text_or_empty(artist),
        charity_account_id: text_or_empty(charity),
        copies: match copies {
            Some(n) => n,
            None => 0,
        },
        title: text_or_empty(title),
        description: text_or_empty(description),
    }
}

/// The body that carries an event: one kind of body per kind of event. A
/// sale names the admin account on whose behalf it is recorded, and a
/// revoked approval is carried like a removed listing.
pub open spec fn body_of(event: DomainEventView, admin_account: Seq<char>) -> ForwardBodyView {
    match event {
        DomainEventView::Mint {
            token,
            contract,
            owner,
            media,
            artist,
            charity,
            title,
            description,
            copies,
        } => announcement_of(
            token,
            contract,
            owner,
            media,
            artist,
            charity,
            title,
            description,
            copies,
        ),
        DomainEventView::MintPayoutSale { token, contract, buyer, price, receipt_id } => sale_of(
            token,
            contract,
            Some(price),
            buyer,
            admin_account,
            receipt_id,
        ),
        DomainEventView::ListingCreated { token, contract, price } => listing_of(
            token,
            contract,
            price,
        ),
        DomainEventView::PriceUpdated { token, contract, price } => price_update_of(
            token,
            contract,
            price,
        ),
        DomainEventView::ListingRemoved { token, contract } => removal_of(token, contract),
        DomainEventView::OfferAccepted { token, contract, buyer, price, receipt_id } => sale_of(
            token,
            contract,
            Some(price),
            buyer,
            admin_account,
            receipt_id,
        ),
        DomainEventView::Revoked { token, contract } => removal_of(token, contract),
    }
}

/// The request that carries an event to the store at `url`.
pub open spec fn request_of(
    event: DomainEventView,
    admin_account: Seq<char>,
    signature_header: Seq<char>,
    url: Seq<char>,
) -> ForwardRequestView {
    ForwardRequestView {
        api_root: url,
        signature: signature_header,
        body: body_of(event, admin_account),
    }
}

/// The request that takes the token off sale.
pub fn remove_token_forsale_in_database(
    tok_id: &str,
    contr_id: &str,
    signature_header: &str,
    url: &str,
) -> (r: ForwardRequest)
    ensures
        r@ == (ForwardRequestView {
            api_root: url@,
            signature: signature_header@,
            body: removal_of(tok_id@, contr_id@),
        }),
{
    ForwardRequest {
        api_root: String::from_str(url),
        signature: String::from_str(signature_header),
        body: ForwardBody::RemoveForSale(
            RemoveForSalePOSTBody {
                token_id: strip_quotes(tok_id),
                contract_id: strip_quotes(contr_id),
            },
        ),
    }
}

/// The request that records the sale of the token to the purchaser.
pub fn sell_token_in_database(
    tok_id: &str,
    contr_id: &str,
    price_near: Option<Price>,
    purchaser_account_id: &str,
    admin_account: &str,
    blockchain_receipt_id: &str,
    signature_header: &str,
    url: &str,
) -> (r: ForwardRequest)
    ensures
        r@ == (ForwardRequestView {
            api_root: url@,
            signature: signature_header@,
            body: sale_of(
                tok_id@,
                contr_id@,
                price_near,
                purchaser_account_id@,
                admin_account@,
                blockchain_receipt_id@,
            ),
        }),
{
    ForwardRequest {
        api_root: String::from_str(url),
        signature: String::from_str(signature_header),
        body: ForwardBody::SellToken(
            SellTokenPostBody {
                token_id: strip_quotes(tok_id),
                contract_id: strip_quotes(contr_id),
                purchaser_account_id: strip_quotes(purchaser_account_id),
                price_near,
                admin_account_id: String::from_str(admin_account),
                receipt_id: strip_quotes(blockchain_receipt_id),
            },
        ),
    }
}

/// The request that puts the token up for sale at the price.
pub fn insert_token_forsale_in_database(
    tok_id: &str,
    contr_id: &str,
    price: Price,
    signature_header: &str,
    url: &str,
) -> (r: ForwardRequest)
    ensures
        r@ == (ForwardRequestView {
            api_root: url@,
            signature: signature_header@,
            body: listing_of(tok_id@, contr_id@, price),
        }),
{
    ForwardRequest {
        api_root: String::from_str(url),
        signature: String::from_str(signature_header),
        body: ForwardBody::InsertForSale(
            InsertForSalePOSTBody {
                token_id: strip_quotes(tok_id),
                contract_id: strip_quotes(contr_id),
                price_near: price,
            },
        ),
    }
}

/// The request that changes the price of the listed token.
pub fn update_price_for_token_in_database(
    tok_id: &str,
    contr_id: &str,
    price: Price,
    signature_header: &str,
    url: &str,
) -> (r: ForwardRequest)
    ensures
        r@ == (ForwardRequestView {
            api_root: url@,
            signature: signature_header@,
            body: price_update_of(tok_id@, contr_id@, price),
        }),
{
    ForwardRequest {
        api_root: String::from_str(url),
        signature: String::from_str(signature_header),
        body: ForwardBody::UpdatePrice(
            UpdatePricePOSTBody {
                token_id: strip_quotes(tok_id),
                contract_id: strip_quotes(contr_id),
                price_near: price,
            },
        ),
    }
}

/// The request that announces a minted token.
pub fn insert_minted_token_in_database(
    tok_id: &str,
    contr_id: &str,
    owner: &str,
    media: &Option<String>,
    artist: &Option<String>,
    charity: &Option<String>,
    title: &Option<String>,
    description: &Option<String>,
    copies: Option<u64>,
    signature_header: &str,
    url: &str,
) -> (r: ForwardRequest)
    ensures
        r@ == (ForwardRequestView {
            api_root: url@,
            signature: signature_header@,
            body: announcement_of(
                tok_id@,
                contr_id@,
                owner@,
                text_view(*media),
                text_view(*artist),
                text_view(*charity),
                text_view(*title),
                text_view(*description),
                copies,
            ),
        }),
{
    let r = ForwardRequest {
        api_root: String::from_str(url),
        signature: String::from_str(signature_header),
        body: ForwardBody::Minted(
            MintedTokenPOSTBody {
                token_id: strip_quotes(tok_id),
                contract_id: strip_quotes(contr_id),
                tags: Vec::new(),
                artwork_url: owned_or_empty(media),
                owner_account_id: String::from_str(owner),
                artist_account_id: owned_or_empty(artist),
                charity_account_id: owned_or_empty(charity),
                copies: match copies {
                    Some(n) => n,
                    None => 0,
                },
                title: owned_or_empty(title),
                description: owned_or_empty(description),
            },
        ),
    };
    proof {
        assert(r@.body->Minted_tags =~= Seq::<Seq<char>>::empty());
    }
    r
}

/// Builds the one request that carries the event to the store.
///
/// The request is made of the event's content alone, with the admin
/// account, the signature and the address it is given: the same event
/// always gives the same request.
pub fn request_for(event: &DomainEvent, admin_account: &str, signature_header: &str, url: &str) -> (r:
    ForwardRequest)
    ensures
        r@ == request_of(event@, admin_account@, signature_header@, url@),
{
    match event {
        DomainEvent::Mint {
            token,
            contract,
            owner,
            media,
            artist,
            charity,
            title,
            description,
            copies,
        } => insert_minted_token_in_database(
            token.as_str(),
            contract.as_str(),
            owner.as_str(),
            media,
            artist,
            charity,
            title,
            description,
            *copies,
            signature_header,
            url,
        ),
        DomainEvent::MintPayoutSale {
            token,
            contract,
            buyer,
            price,
            receipt_id,
        } => sell_token_in_database(
            token.as_str(),
            contract.as_str(),
            Some(*price),
            buyer.as_str(),
            admin_account,
            receipt_id.as_str(),
            signature_header,
            url,
        ),
        DomainEvent::ListingCreated { token, contract, price } => insert_token_forsale_in_database(
            token.as_str(),
            contract.as_str(),
            *price,
            signature_header,
            url,
        ),
        DomainEvent::PriceUpdated {
            token,
            contract,
            price,
        } => update_price_for_token_in_database(
            token.as_str(),
            contract.as_str(),
            *price,
            signature_header,
            url,
        ),
        DomainEvent::ListingRemoved { token, contract } => remove_token_forsale_in_database(
            token.as_str(),
            contract.as_str(),
            signature_header,
            url,
        ),
        DomainEvent::OfferAccepted {
            token,
            contract,
            buyer,
            price,
            receipt_id,
        } => sell_token_in_database(
            token.as_str(),
            contract.as_str(),
            Some(*price),
            buyer.as_str(),
            admin_account,
            receipt_id.as_str(),
            signature_header,
            url,
        ),
        DomainEvent::Revoked { token, contract } => remove_token_forsale_in_database(
            token.as_str(),
            contract.as_str(),
            signature_header,
            url,
        ),
    }
}

/// The request that takes a token off sale is made of the token and the
/// contract alone, whether it stands for a removed listing or a revoked
/// approval: sending it again asks for the same removal.
pub proof fn lemma_removal_is_keyed_by_token_and_contract(
    token: Seq<char>,
    contract: Seq<char>,
    admin_account: Seq<char>,
)
    ensures
        body_of((DomainEventView::ListingRemoved { token, contract }), admin_account) == removal_of(
            token,
            contract,
        ),
        body_of((DomainEventView::Revoked { token, contract }), admin_account) == removal_of(
            token,
            contract,
        ),
{
}

} // verus!
