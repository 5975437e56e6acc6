use marketplace_indexer::chain::{
    token_view_of_document, token_view_of_item, token_view_of_response, QueryError, TokenQuery,
    TokenView,
};
use marketplace_indexer::codec::decode;
use marketplace_indexer::dispatch::{
    dispatch, dispatch_with_answer, listing_from_conditions, listing_from_message, resume, Step,
};
use marketplace_indexer::event::{DomainEvent, Method, SkipReason};
use marketplace_indexer::handlers::{
    listing_created, listing_removed, mint_payout_sale, minted, offer_accepted, price_updated,
    revoked,
};
use marketplace_indexer::json::JsonValue;
use marketplace_indexer::price::{rescale, Price};
use marketplace_indexer::receipt::{ExecutionDetail, WatchConfig};

const ONE: u128 = 1_000_000_000_000_000_000_000_000;

fn config() -> WatchConfig {
    WatchConfig { nft_contract: "nft.near".to_string(), market_contract: "market.near".to_string() }
}

fn detail(method: &str, json: &str) -> ExecutionDetail {
    ExecutionDetail {
        method_name: method.to_string(),
        args: decode(&base64::encode(json)),
        signer_id: "signer.near".to_string(),
        deposit: 3 * ONE,
        success: true,
        outcome_id: "outcome1".to_string(),
        predecessor_id: "nft.near".to_string(),
        receiver_id: "market.near".to_string(),
    }
}

fn token(owner: &str, media: Option<&str>) -> TokenView {
    TokenView {
        owner_id: owner.to_string(),
        title: None,
        description: None,
        media: media.map(|m| m.to_string()),
        charity_account_id: "charity.near".to_string(),
        artist_account_id: None,
        copies: None,
    }
}

fn s(text: &str) -> String {
    text.to_string()
}

#[test]
fn methods_are_matched_by_exact_name() {
    assert_eq!(Method::from_name("nft_mint"), Method::NftMint);
    assert_eq!(Method::from_name("nft_mint_payout"), Method::NftMintPayout);
    assert_eq!(Method::from_name("nft_on_approve"), Method::NftOnApprove);
    assert_eq!(Method::from_name("update_price"), Method::UpdatePrice);
    assert_eq!(Method::from_name("offer"), Method::Offer);
    assert_eq!(Method::from_name("remove_sale"), Method::RemoveSale);
    assert_eq!(Method::from_name("place_bid"), Method::PlaceBid);
    assert_eq!(Method::from_name("accept_offer"), Method::AcceptOffer);
    assert_eq!(Method::from_name("nft_revoke"), Method::NftRevoke);
    assert_eq!(Method::from_name("nft_revoke_all"), Method::NftRevokeAll);
    assert_eq!(Method::from_name("NFT_MINT"), Method::Unrecognized);
    assert_eq!(Method::from_name("offer "), Method::Unrecognized);
    assert_eq!(Method::from_name(""), Method::Unrecognized);
}

#[test]
fn a_failed_execution_is_skipped() {
    let mut d = detail("remove_sale", "{\"token_id\":\"t1\",\"nft_contract_id\":\"c1\"}");
    d.success = false;
    assert_eq!(dispatch(&d, &config()), Step::Skip(SkipReason::Failed));
    assert_eq!(resume(&d, &config(), &Ok(token("signer.near", Some("m")))), Err(SkipReason::NothingAsked));
}

#[test]
fn nft_mint_builds_a_mint() {
    let d = detail(
        "nft_mint",
        "{\"token_id\":\"t1\",\"metadata\":{\"media\":\"https://m\",\"artist_account_id\":\"art.near\",\"charity_account_id\":\"ch.near\",\"title\":\"T\",\"description\":\"D\",\"copies\":10}}",
    );
    assert_eq!(
        dispatch(&d, &config()),
        Step::Emit(DomainEvent::Mint {
            token: s("t1"),
            contract: s("market.near"),
            owner: s("signer.near"),
            media: Some(s("https://m")),
            artist: Some(s("art.near")),
            charity: Some(s("ch.near")),
            title: Some(s("T")),
            description: Some(s("D")),
            copies: Some(10),
        })
    );
}

#[test]
fn nft_mint_carries_absent_metadata_as_unset() {
    let d = detail("nft_mint", "{\"token_id\":\"t1\",\"metadata\":{\"title\":null}}");
    assert_eq!(
        dispatch(&d, &config()),
        Step::Emit(DomainEvent::Mint {
            token: s("t1"),
            contract: s("market.near"),
            owner: s("signer.near"),
            media: None,
            artist: None,
            charity: None,
            title: None,
            description: None,
            copies: None,
        })
    );
}

#[test]
fn nft_mint_without_token_or_metadata_is_skipped() {
    let no_metadata = detail("nft_mint", "{\"token_id\":\"t1\"}");
    assert_eq!(dispatch(&no_metadata, &config()), Step::Skip(SkipReason::MissingField));
    let no_token = detail("nft_mint", "{\"metadata\":{}}");
    assert_eq!(dispatch(&no_token, &config()), Step::Skip(SkipReason::MissingField));
    let empty_token = detail("nft_mint", "{\"token_id\":\"\",\"metadata\":{}}");
    assert_eq!(dispatch(&empty_token, &config()), Step::Skip(SkipReason::MissingField));
}

#[test]
fn nft_mint_payout_builds_the_edition_token() {
    let d = detail(
        "nft_mint_payout",
        "{\"base_token_id\":\"abc_05\",\"edition_number\":\"2\",\"balance\":\"1000000000000000000000000\",\"receiver_id\":\"buyer.near\"}",
    );
    assert_eq!(
        dispatch(&d, &config()),
        Step::Emit(DomainEvent::MintPayoutSale {
            token: s("abc_2"),
            contract: s("market.near"),
            buyer: s("buyer.near"),
            price: Price { whole: 1, fraction: 0 },
            receipt_id: s("outcome1"),
        })
    );
}

#[test]
fn nft_mint_payout_of_a_token_that_is_no_template_is_skipped() {
    let d = detail(
        "nft_mint_payout",
        "{\"base_token_id\":\"abc\",\"edition_number\":\"2\",\"balance\":\"1000000000000000000000000\",\"receiver_id\":\"buyer.near\"}",
    );
    assert_eq!(dispatch(&d, &config()), Step::Skip(SkipReason::NotTemplate));
}

#[test]
fn nft_mint_payout_accepts_numbers_for_edition_and_balance() {
    let d = detail(
        "nft_mint_payout",
        "{\"base_token_id\":\"series_7_0\",\"edition_number\":3,\"balance\":2500,\"receiver_id\":\"buyer.near\"}",
    );
    assert_eq!(
        dispatch(&d, &config()),
        Step::Emit(DomainEvent::MintPayoutSale {
            token: s("series_7_3"),
            contract: s("market.near"),
            buyer: s("buyer.near"),
            price: Price { whole: 0, fraction: 2500 },
            receipt_id: s("outcome1"),
        })
    );
}

#[test]
fn nft_mint_payout_with_a_bad_or_missing_argument_is_skipped() {
    let bad_balance = detail(
        "nft_mint_payout",
        "{\"base_token_id\":\"abc_05\",\"edition_number\":\"2\",\"balance\":\"lots\",\"receiver_id\":\"buyer.near\"}",
    );
    assert_eq!(dispatch(&bad_balance, &config()), Step::Skip(SkipReason::BadAmount));
    let no_receiver = detail(
        "nft_mint_payout",
        "{\"base_token_id\":\"abc_05\",\"edition_number\":\"2\",\"balance\":\"1\"}",
    );
    assert_eq!(dispatch(&no_receiver, &config()), Step::Skip(SkipReason::MissingField));
}

#[test]
fn mint_payout_sale_from_plain_values() {
    assert_eq!(
        mint_payout_sale("abc_05", "2", "1000000000000000000000000", "b", "c", "r"),
        Ok(DomainEvent::MintPayoutSale {
            token: s("abc_2"),
            contract: s("c"),
            buyer: s("b"),
            price: Price { whole: 1, fraction: 0 },
            receipt_id: s("r"),
        })
    );
    assert_eq!(mint_payout_sale("abc", "2", "1", "b", "c", "r"), Err(SkipReason::NotTemplate));
    assert_eq!(mint_payout_sale("abc", "2", "x", "b", "c", "r"), Err(SkipReason::BadAmount));
    assert_eq!(mint_payout_sale("abc_05", "2", "1", "b", "", "r"), Err(SkipReason::MissingField));
}

#[test]
fn update_price_builds_a_price_update() {
    let d = detail(
        "update_price",
        "{\"token_id\":\"t1\",\"nft_contract_id\":\"nft.near\",\"price\":\"2500000000000000000000000\"}",
    );
    assert_eq!(
        dispatch(&d, &config()),
        Step::Emit(DomainEvent::PriceUpdated {
            token: s("t1"),
            contract: s("nft.near"),
            price: Price { whole: 2, fraction: ONE / 2 },
        })
    );
    let missing = detail("update_price", "{\"token_id\":\"t1\",\"price\":\"1\"}");
    assert_eq!(dispatch(&missing, &config()), Step::Skip(SkipReason::MissingField));
    let bad = detail(
        "update_price",
        "{\"token_id\":\"t1\",\"nft_contract_id\":\"nft.near\",\"price\":\"-1\"}",
    );
    assert_eq!(dispatch(&bad, &config()), Step::Skip(SkipReason::BadAmount));
}

#[test]
fn remove_sale_builds_a_removed_listing() {
    let d = detail("remove_sale", "{\"token_id\":\"t1\",\"nft_contract_id\":\"c1\"}");
    assert_eq!(
        dispatch(&d, &config()),
        Step::Emit(DomainEvent::ListingRemoved { token: s("t1"), contract: s("c1") })
    );
    let missing = detail("remove_sale", "{\"nft_contract_id\":\"c1\"}");
    assert_eq!(dispatch(&missing, &config()), Step::Skip(SkipReason::MissingField));
}

#[test]
fn nft_revoke_counts_only_for_the_marketplace() {
    let ours = detail("nft_revoke", "{\"token_id\":\"t1\",\"account_id\":\"market.near\"}");
    assert_eq!(
        dispatch(&ours, &config()),
        Step::Emit(DomainEvent::Revoked { token: s("t1"), contract: s("nft.near") })
    );
    let other = detail("nft_revoke", "{\"token_id\":\"t1\",\"account_id\":\"someone.near\"}");
    assert_eq!(dispatch(&other, &config()), Step::Skip(SkipReason::OtherAccount));
    let missing = detail("nft_revoke", "{\"token_id\":\"t1\"}");
    assert_eq!(dispatch(&missing, &config()), Step::Skip(SkipReason::MissingField));
}

#[test]
fn nft_revoke_all_builds_a_removed_listing() {
    let d = detail("nft_revoke_all", "{\"token_id\":\"t1\"}");
    assert_eq!(
        dispatch(&d, &config()),
        Step::Emit(DomainEvent::ListingRemoved { token: s("t1"), contract: s("nft.near") })
    );
    let missing = detail("nft_revoke_all", "{}");
    assert_eq!(dispatch(&missing, &config()), Step::Skip(SkipReason::MissingField));
}

#[test]
fn place_bid_and_accept_offer_are_left_alone() {
    assert_eq!(dispatch(&detail("place_bid", "{}"), &config()), Step::Skip(SkipReason::Unhandled));
    assert_eq!(dispatch(&detail("accept_offer", "{}"), &config()), Step::Skip(SkipReason::Unhandled));
}

#[test]
fn any_other_method_is_unrecognized() {
    assert_eq!(
        dispatch(&detail("storage_deposit", "{}"), &config()),
        Step::Skip(SkipReason::Unrecognized)
    );
    assert_eq!(
        resume(&detail("storage_deposit", "{}"), &config(), &Ok(token("signer.near", Some("m")))),
        Err(SkipReason::NothingAsked)
    );
}

#[test]
fn undecoded_arguments_skip_only_that_call() {
    let mut broken = detail("remove_sale", "{}");
    broken.args = decode("***");
    assert_eq!(dispatch(&broken, &config()), Step::Skip(SkipReason::MissingField));
    let sibling = detail("remove_sale", "{\"token_id\":\"t1\",\"nft_contract_id\":\"c1\"}");
    assert_eq!(
        dispatch(&sibling, &config()),
        Step::Emit(DomainEvent::ListingRemoved { token: s("t1"), contract: s("c1") })
    );
}

#[test]
fn nft_on_approve_asks_the_sending_contract() {
    let d = detail("nft_on_approve", "{\"token_id\":\"t1\",\"msg\":\"{}\"}");
    assert_eq!(
        dispatch(&d, &config()),
        Step::Ask(TokenQuery {
            contract: s("nft.near"),
            method_name: s("nft_tokens_batch"),
            args: s("{\"token_ids\":[\"t1\"]}"),
        })
    );
    let missing = detail("nft_on_approve", "{\"msg\":\"{}\"}");
    assert_eq!(dispatch(&missing, &config()), Step::Skip(SkipReason::MissingField));
}

#[test]
fn nft_on_approve_lists_at_the_native_price() {
    let d = detail(
        "nft_on_approve",
        "{\"token_id\":\"t1\",\"msg\":\"{\\\"sale_conditions\\\":{\\\"usdc.near\\\":\\\"7\\\",\\\"near\\\":\\\"1000000000000000000000000\\\"}}\"}",
    );
    assert_eq!(
        resume(&d, &config(), &Ok(token("owner.near", Some("https://m")))),
        Ok(DomainEvent::ListingCreated {
            token: s("t1"),
            contract: s("nft.near"),
            price: Price { whole: 1, fraction: 0 },
        })
    );
}

#[test]
fn nft_on_approve_without_media_lists_nothing() {
    let with_price = detail(
        "nft_on_approve",
        "{\"token_id\":\"t1\",\"msg\":\"{\\\"sale_conditions\\\":{\\\"near\\\":\\\"5\\\"}}\"}",
    );
    assert_eq!(
        resume(&with_price, &config(), &Ok(token("owner.near", None))),
        Err(SkipReason::NoMedia)
    );
    let without_message = detail("nft_on_approve", "{\"token_id\":\"t1\"}");
    assert_eq!(
        resume(&without_message, &config(), &Ok(token("owner.near", None))),
        Err(SkipReason::NoMedia)
    );
}

#[test]
fn nft_on_approve_ignores_prices_in_other_tokens() {
    let d = detail(
        "nft_on_approve",
        "{\"token_id\":\"t1\",\"msg\":\"{\\\"sale_conditions\\\":{\\\"usdc.near\\\":\\\"7\\\"}}\"}",
    );
    assert_eq!(
        resume(&d, &config(), &Ok(token("owner.near", Some("m")))),
        Err(SkipReason::NoNativePrice)
    );
}

#[test]
fn nft_on_approve_with_a_bad_message_lists_nothing() {
    let media = Ok(token("owner.near", Some("m")));
    let no_msg = detail("nft_on_approve", "{\"token_id\":\"t1\"}");
    assert_eq!(resume(&no_msg, &config(), &media), Err(SkipReason::MissingField));
    let msg_not_text = detail("nft_on_approve", "{\"token_id\":\"t1\",\"msg\":{\"sale_conditions\":{}}}");
    assert_eq!(resume(&msg_not_text, &config(), &media), Err(SkipReason::MissingField));
    let msg_not_json = detail("nft_on_approve", "{\"token_id\":\"t1\",\"msg\":\"hello\"}");
    assert_eq!(resume(&msg_not_json, &config(), &media), Err(SkipReason::BadMessage));
    let no_conditions = detail("nft_on_approve", "{\"token_id\":\"t1\",\"msg\":\"{}\"}");
    assert_eq!(resume(&no_conditions, &config(), &media), Err(SkipReason::BadMessage));
    let number_price = detail(
        "nft_on_approve",
        "{\"token_id\":\"t1\",\"msg\":\"{\\\"sale_conditions\\\":{\\\"near\\\":5}}\"}",
    );
    assert_eq!(resume(&number_price, &config(), &media), Err(SkipReason::BadAmount));
}

#[test]
fn a_failed_query_settles_the_call_without_event() {
    let d = detail("nft_on_approve", "{\"token_id\":\"t1\",\"msg\":\"{}\"}");
    assert_eq!(resume(&d, &config(), &Err(QueryError::Unanswered)), Err(SkipReason::QueryFailed));
    assert_eq!(resume(&d, &config(), &Err(QueryError::Malformed)), Err(SkipReason::QueryFailed));
    assert_eq!(resume(&d, &config(), &Err(QueryError::NoToken)), Err(SkipReason::QueryFailed));
}

#[test]
fn offer_asks_the_nft_contract() {
    let d = detail("offer", "{\"token_id\":\"t1\",\"nft_contract_id\":\"nft.near\"}");
    assert_eq!(
        dispatch(&d, &config()),
        Step::Ask(TokenQuery {
            contract: s("nft.near"),
            method_name: s("nft_tokens_batch"),
            args: s("{\"token_ids\":[\"t1\"]}"),
        })
    );
}

#[test]
fn offer_by_the_owner_is_accepted() {
    let d = detail("offer", "{\"token_id\":\"t1\",\"nft_contract_id\":\"nft.near\"}");
    assert_eq!(
        resume(&d, &config(), &Ok(token("signer.near", None))),
        Ok(DomainEvent::OfferAccepted {
            token: s("t1"),
            contract: s("nft.near"),
            buyer: s("signer.near"),
            price: Price { whole: 3, fraction: 0 },
            receipt_id: s("outcome1"),
        })
    );
}

#[test]
fn offer_where_the_owner_is_not_the_signer_is_not_accepted() {
    let d = detail("offer", "{\"token_id\":\"t1\",\"nft_contract_id\":\"nft.near\"}");
    assert_eq!(resume(&d, &config(), &Ok(token("owner.near", Some("m")))), Err(SkipReason::NotOwner));
    assert_eq!(resume(&d, &config(), &Ok(token("", Some("m")))), Err(SkipReason::NotOwner));
}

#[test]
fn a_lazy_purchase_is_skipped_without_a_query() {
    let d = detail(
        "offer",
        "{\"token_id\":\"t1\",\"nft_contract_id\":\"nft.near\",\"lazy_purchase\":true}",
    );
    assert_eq!(dispatch(&d, &config()), Step::Skip(SkipReason::LazyPurchase));
    assert_eq!(
        resume(&d, &config(), &Ok(token("signer.near", None))),
        Err(SkipReason::NothingAsked)
    );
    let null_flag = detail(
        "offer",
        "{\"token_id\":\"t1\",\"nft_contract_id\":\"nft.near\",\"lazy_purchase\":null}",
    );
    assert_eq!(dispatch(&null_flag, &config()), Step::Skip(SkipReason::LazyPurchase));
}

#[test]
fn offer_without_contract_is_skipped_after_the_query() {
    let d = detail("offer", "{\"token_id\":\"t1\"}");
    assert_eq!(resume(&d, &config(), &Ok(token("signer.near", None))), Err(SkipReason::MissingField));
}

#[test]
fn handlers_refuse_events_without_token_or_contract() {
    assert_eq!(listing_removed("", "c"), Err(SkipReason::MissingField));
    assert_eq!(listing_removed("t", ""), Err(SkipReason::MissingField));
    assert_eq!(listing_created("", "c", "1"), Err(SkipReason::MissingField));
    assert_eq!(price_updated("t", "", "1"), Err(SkipReason::MissingField));
    assert_eq!(revoked("", "c", "m", "m"), Err(SkipReason::MissingField));
    assert_eq!(offer_accepted("", "c", "o", "o", 1, "r"), Err(SkipReason::MissingField));
    assert_eq!(
        minted("", "c", "o", &None, &None, &None, &None, &None, None),
        Err(SkipReason::MissingField)
    );
}

#[test]
fn handlers_build_events_from_plain_values() {
    assert_eq!(
        listing_created("t", "c", "+5"),
        Ok(DomainEvent::ListingCreated { token: s("t"), contract: s("c"), price: rescale(5) })
    );
    assert_eq!(listing_created("t", "c", ""), Err(SkipReason::BadAmount));
    assert_eq!(
        price_updated("t", "c", "0"),
        Ok(DomainEvent::PriceUpdated { token: s("t"), contract: s("c"), price: rescale(0) })
    );
    assert_eq!(
        revoked("t", "c", "m", "m"),
        Ok(DomainEvent::Revoked { token: s("t"), contract: s("c") })
    );
    assert_eq!(revoked("t", "c", "x", "m"), Err(SkipReason::OtherAccount));
    assert_eq!(offer_accepted("t", "c", "o", "p", 1, "r"), Err(SkipReason::NotOwner));
    assert_eq!(
        offer_accepted("t", "c", "o", "o", 7, "r"),
        Ok(DomainEvent::OfferAccepted {
            token: s("t"),
            contract: s("c"),
            buyer: s("o"),
            price: Price { whole: 0, fraction: 7 },
            receipt_id: s("r"),
        })
    );
    let event = minted("t", "c", "o", &Some(s("m")), &None, &None, &None, &None, Some(2)).unwrap();
    assert_eq!(event.token(), "t");
    assert_eq!(event.contract(), "c");
}

#[test]
fn listing_from_conditions_reads_the_native_price() {
    let message = decode(&base64::encode("{\"sale_conditions\":{\"near\":\"42\"}}"));
    assert_eq!(
        listing_from_conditions("t", "c", &message),
        Ok(DomainEvent::ListingCreated {
            token: s("t"),
            contract: s("c"),
            price: Price { whole: 0, fraction: 42 },
        })
    );
    assert_eq!(listing_from_message("t", "c", &None), Err(SkipReason::BadMessage));
    assert_eq!(
        listing_from_message("t", "c", &Some(JsonValue::Null)),
        Err(SkipReason::BadMessage)
    );
}

#[test]
fn token_view_of_response_reads_the_first_token() {
    let body = "[{\"owner_id\":\"o.near\",\"metadata\":{\"title\":\"T\",\"description\":null,\"media\":\"https://m\",\"charity_account_id\":\"ch.near\",\"copies\":3,\"extra\":1}},{\"owner_id\":\"p.near\",\"metadata\":{\"charity_account_id\":\"x\"}}]";
    assert_eq!(
        token_view_of_response(body.as_bytes()),
        Ok(TokenView {
            owner_id: s("o.near"),
            title: Some(s("T")),
            description: None,
            media: Some(s("https://m")),
            charity_account_id: s("ch.near"),
            artist_account_id: None,
            copies: Some(3),
        })
    );
}

#[test]
fn token_view_of_response_rejects_what_is_no_token_list() {
    assert_eq!(token_view_of_response(b"not json"), Err(QueryError::Malformed));
    assert_eq!(token_view_of_response(b"{}"), Err(QueryError::Malformed));
    assert_eq!(token_view_of_response(b"[]"), Err(QueryError::NoToken));
    assert_eq!(token_view_of_response(b"[{\"owner_id\":\"o\"}]"), Err(QueryError::Malformed));
    assert_eq!(
        token_view_of_response(b"[{\"owner_id\":\"o\",\"metadata\":{}}]"),
        Err(QueryError::Malformed)
    );
    assert_eq!(
        token_view_of_response(b"[{\"owner_id\":5,\"metadata\":{\"charity_account_id\":\"c\"}}]"),
        Err(QueryError::Malformed)
    );
    assert_eq!(
        token_view_of_response(
            b"[{\"owner_id\":\"o\",\"metadata\":{\"charity_account_id\":\"c\",\"copies\":-1}}]"
        ),
        Err(QueryError::Malformed)
    );
    assert_eq!(
        token_view_of_response(
            b"[{\"owner_id\":\"o\",\"metadata\":{\"charity_account_id\":\"c\",\"media\":7}}]"
        ),
        Err(QueryError::Malformed)
    );
    assert_eq!(
        token_view_of_response(
            b"[{\"owner_id\":\"o\",\"metadata\":{\"charity_account_id\":\"c\"}},{\"owner_id\":\"p\"}]"
        ),
        Err(QueryError::Malformed)
    );
}

#[test]
fn token_view_of_document_and_item() {
    let doc = decode(&base64::encode("[{\"owner_id\":\"o\",\"metadata\":{\"charity_account_id\":\"c\"}}]"));
    let expected = TokenView {
        owner_id: s("o"),
        title: None,
        description: None,
        media: None,
        charity_account_id: s("c"),
        artist_account_id: None,
        copies: None,
    };
    assert_eq!(token_view_of_document(&doc), Ok(expected.clone()));
    assert_eq!(token_view_of_item(&doc.as_array().unwrap()[0]), Some(expected));
    assert_eq!(token_view_of_item(&JsonValue::Null), None);
    assert_eq!(token_view_of_document(&JsonValue::Null), Err(QueryError::Malformed));
}

#[test]
fn dispatch_with_answer_gives_the_event_or_nothing() {
    let settled = detail("remove_sale", "{\"token_id\":\"t1\",\"nft_contract_id\":\"c1\"}");
    assert_eq!(
        dispatch_with_answer(&settled, &config(), &Err(QueryError::Unanswered)),
        Some(DomainEvent::ListingRemoved { token: s("t1"), contract: s("c1") })
    );
    let offer = detail("offer", "{\"token_id\":\"t1\",\"nft_contract_id\":\"nft.near\"}");
    assert_eq!(
        dispatch_with_answer(&offer, &config(), &Ok(token("signer.near", None))),
        Some(DomainEvent::OfferAccepted {
            token: s("t1"),
            contract: s("nft.near"),
            buyer: s("signer.near"),
            price: Price { whole: 3, fraction: 0 },
            receipt_id: s("outcome1"),
        })
    );
    assert_eq!(dispatch_with_answer(&offer, &config(), &Ok(token("owner.near", None))), None);
    assert_eq!(dispatch_with_answer(&offer, &config(), &Err(QueryError::Unanswered)), None);
    let unknown = detail("storage_deposit", "{}");
    assert_eq!(dispatch_with_answer(&unknown, &config(), &Ok(token("signer.near", None))), None);
    let mut failed = detail("remove_sale", "{\"token_id\":\"t1\",\"nft_contract_id\":\"c1\"}");
    failed.success = false;
    assert_eq!(dispatch_with_answer(&failed, &config(), &Ok(token("signer.near", None))), None);
}

#[test]
fn approve_without_media_gives_nothing_whatever_the_conditions() {
    for msg in [
        "{\\\"sale_conditions\\\":{\\\"near\\\":\\\"5\\\"}}",
        "{\\\"sale_conditions\\\":{}}",
        "{}",
        "junk",
    ] {
        let d = detail(
            "nft_on_approve",
            &format!("{{\"token_id\":\"t1\",\"msg\":\"{}\"}}", msg),
        );
        assert_eq!(dispatch_with_answer(&d, &config(), &Ok(token("owner.near", None))), None);
    }
}

#[test]
fn every_event_names_a_token_and_a_contract() {
    let calls = [
        ("nft_mint", "{\"token_id\":\"t\",\"metadata\":{}}"),
        ("nft_mint_payout", "{\"base_token_id\":\"_0\",\"edition_number\":\"\",\"balance\":\"1\",\"receiver_id\":\"b\"}"),
        ("update_price", "{\"token_id\":\"t\",\"nft_contract_id\":\"c\",\"price\":\"1\"}"),
        ("remove_sale", "{\"token_id\":\"\",\"nft_contract_id\":\"c\"}"),
        ("remove_sale", "{\"token_id\":\"t\",\"nft_contract_id\":\"\"}"),
        ("nft_revoke_all", "{\"token_id\":\"\\\"\"}"),
        ("offer", "{\"token_id\":\"t\",\"nft_contract_id\":\"c\"}"),
    ];
    for (method, json) in calls {
        let d = detail(method, json);
        if let Some(event) = dispatch_with_answer(&d, &config(), &Ok(token("signer.near", Some("m")))) {
            assert!(!event.token().is_empty());
            assert!(!event.contract().is_empty());
        }
    }
}
