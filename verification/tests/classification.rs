use marketplace_indexer::correlation::{CorrelationTable, Transaction};
use marketplace_indexer::json::JsonValue;
use marketplace_indexer::receipt::{
    classify, is_valid_receipt, Action, ExecutionDetail, ExecutionOutcome, ExecutionStatus,
    Receipt, ReceiptKind, ReceiptOutcomePair, WatchConfig,
};
use marketplace_indexer::stream::{
    handle_messages, scan_receipts, track_transactions, Chunk, ClassifiedReceipt, Shard,
    StreamedBlock,
};

fn config() -> WatchConfig {
    WatchConfig { nft_contract: "nft.near".to_string(), market_contract: "market.near".to_string() }
}

fn call(method: &str, json: &str, deposit: u128) -> Action {
    Action::FunctionCall {
        method_name: method.to_string(),
        args: base64::encode(json),
        deposit,
    }
}

fn receipt(id: &str, receiver: &str, actions: Vec<Action>) -> Receipt {
    Receipt {
        receipt_id: id.to_string(),
        predecessor_id: "alice.near".to_string(),
        receiver_id: receiver.to_string(),
        kind: ReceiptKind::Action { signer_id: "signer.near".to_string(), actions },
    }
}

fn outcome(id: &str, status: ExecutionStatus) -> ExecutionOutcome {
    ExecutionOutcome { id: id.to_string(), status, receipt_ids: vec![] }
}

fn token_args(token: &str) -> JsonValue {
    JsonValue::Object(vec![("token_id".to_string(), JsonValue::Text(token.to_string()))])
}

fn tx(hash: &str, receiver: &str, receipt_ids: Vec<&str>) -> Transaction {
    Transaction {
        hash: hash.to_string(),
        receiver_id: receiver.to_string(),
        receipt_ids: receipt_ids.into_iter().map(|s| s.to_string()).collect(),
    }
}

#[test]
fn classify_of_a_receipt_for_another_account_is_none() {
    let r = receipt("r1", "someone.near", vec![call("nft_mint", "{}", 0)]);
    assert_eq!(classify(&r, &outcome("r1", ExecutionStatus::SuccessValue), &config()), None);
    let empty = receipt("r1", "", vec![]);
    assert_eq!(classify(&empty, &outcome("r1", ExecutionStatus::SuccessValue), &config()), None);
    let near_miss = receipt("r1", "nft.near ", vec![]);
    assert_eq!(classify(&near_miss, &outcome("r1", ExecutionStatus::Failure), &config()), None);
}

#[test]
fn classify_gives_one_detail_per_function_call_in_order() {
    let r = receipt(
        "r1",
        "nft.near",
        vec![
            call("nft_mint", "{\"token_id\":\"a\"}", 1),
            Action::Other,
            call("nft_revoke_all", "{\"token_id\":\"b\"}", 2),
            call("offer", "{\"token_id\":\"c\"}", 3),
        ],
    );
    let details = classify(&r, &outcome("o1", ExecutionStatus::SuccessValue), &config()).unwrap();
    assert_eq!(details.len(), 3);
    let names: Vec<&str> = details.iter().map(|d| d.method_name.as_str()).collect();
    assert_eq!(names, vec!["nft_mint", "nft_revoke_all", "offer"]);
    assert_eq!(details[0].args, token_args("a"));
    assert_eq!(details[1].args, token_args("b"));
    assert_eq!(details[2].args, token_args("c"));
    assert_eq!(details[0].deposit, 1);
    assert_eq!(details[1].deposit, 2);
    assert_eq!(details[2].deposit, 3);
}

#[test]
fn classify_fills_every_field_of_a_detail() {
    let r = receipt("r1", "market.near", vec![call("offer", "{\"token_id\":\"t\"}", 77)]);
    let details = classify(&r, &outcome("o9", ExecutionStatus::SuccessReceiptId), &config());
    assert_eq!(
        details,
        Some(vec![ExecutionDetail {
            method_name: "offer".to_string(),
            args: token_args("t"),
            signer_id: "signer.near".to_string(),
            deposit: 77,
            success: true,
            outcome_id: "o9".to_string(),
            predecessor_id: "alice.near".to_string(),
            receiver_id: "market.near".to_string(),
        }])
    );
}

#[test]
fn classify_of_a_watched_receipt_without_calls_is_an_empty_list() {
    let no_actions = receipt("r1", "nft.near", vec![]);
    assert_eq!(
        classify(&no_actions, &outcome("r1", ExecutionStatus::SuccessValue), &config()),
        Some(vec![])
    );
    let no_calls = receipt("r1", "nft.near", vec![Action::Other, Action::Other]);
    assert_eq!(
        classify(&no_calls, &outcome("r1", ExecutionStatus::SuccessValue), &config()),
        Some(vec![])
    );
}

#[test]
fn classify_of_a_data_receipt_is_an_empty_list() {
    let data = Receipt {
        receipt_id: "r1".to_string(),
        predecessor_id: "alice.near".to_string(),
        receiver_id: "market.near".to_string(),
        kind: ReceiptKind::Data,
    };
    assert_eq!(
        classify(&data, &outcome("r1", ExecutionStatus::SuccessValue), &config()),
        Some(vec![])
    );
}

#[test]
fn classify_marks_failed_executions() {
    let r = receipt("r1", "nft.near", vec![call("nft_mint", "{}", 0)]);
    for (status, success) in [
        (ExecutionStatus::SuccessValue, true),
        (ExecutionStatus::SuccessReceiptId, true),
        (ExecutionStatus::Failure, false),
        (ExecutionStatus::Unknown, false),
    ] {
        let details = classify(&r, &outcome("r1", status), &config()).unwrap();
        assert_eq!(details.len(), 1);
        assert_eq!(details[0].success, success);
    }
}

#[test]
fn classify_replaces_arguments_that_do_not_decode() {
    let r = receipt(
        "r1",
        "nft.near",
        vec![
            call("nft_mint", "{\"token_id\":\"a\"}", 0),
            Action::FunctionCall {
                method_name: "nft_mint".to_string(),
                args: "***".to_string(),
                deposit: 0,
            },
            call("nft_mint", "not json", 0),
        ],
    );
    let details = classify(&r, &outcome("r1", ExecutionStatus::SuccessValue), &config()).unwrap();
    assert_eq!(details.len(), 3);
    assert_eq!(details[0].args, token_args("a"));
    assert_eq!(details[1].args, JsonValue::Text(String::new()));
    assert_eq!(details[2].args, JsonValue::Text(String::new()));
}

#[test]
fn is_valid_receipt_matches_either_contract() {
    let to_nft = receipt("r", "nft.near", vec![]);
    let to_market = receipt("r", "market.near", vec![]);
    let to_other = receipt("r", "other.near", vec![]);
    assert!(is_valid_receipt(&to_nft, "nft.near", "market.near"));
    assert!(is_valid_receipt(&to_market, "nft.near", "market.near"));
    assert!(!is_valid_receipt(&to_other, "nft.near", "market.near"));
    assert!(config().is_watched("nft.near"));
    assert!(config().is_watched("market.near"));
    assert!(!config().is_watched("nft"));
}

#[test]
fn execution_status_success() {
    assert!(ExecutionStatus::SuccessValue.is_success());
    assert!(ExecutionStatus::SuccessReceiptId.is_success());
    assert!(!ExecutionStatus::Failure.is_success());
    assert!(!ExecutionStatus::Unknown.is_success());
}

#[test]
fn resolve_before_track_is_none_and_changes_nothing() {
    let mut table = CorrelationTable::new();
    assert_eq!(table.resolve("r1"), None);
    assert_eq!(table.len(), 0);
    table.track(&tx("h2", "nft.near", vec!["r2"]));
    assert_eq!(table.resolve("r1"), None);
    assert_eq!(table.len(), 1);
    assert!(table.is_awaited("r2"));
    assert_eq!(table.resolve("r2"), Some("h2".to_string()));
}

#[test]
fn resolve_twice_after_one_track_is_hash_then_none() {
    let mut table = CorrelationTable::new();
    table.track(&tx("h1", "nft.near", vec!["r1", "r1b"]));
    assert!(table.is_awaited("r1"));
    assert!(!table.is_awaited("r1b"));
    assert_eq!(table.resolve("r1"), Some("h1".to_string()));
    assert!(!table.is_awaited("r1"));
    assert_eq!(table.resolve("r1"), None);
    assert_eq!(table.len(), 0);
}

#[test]
fn track_of_a_known_receipt_replaces_the_hash() {
    let mut table = CorrelationTable::new();
    table.track(&tx("h1", "nft.near", vec!["r1"]));
    table.track(&tx("h2", "nft.near", vec!["r2"]));
    table.track(&tx("h3", "nft.near", vec!["r1"]));
    assert_eq!(table.len(), 2);
    assert_eq!(table.resolve("r1"), Some("h3".to_string()));
    assert_eq!(table.resolve("r2"), Some("h2".to_string()));
    assert_eq!(table.len(), 0);
}

#[test]
fn resolve_leaves_other_entries_alone() {
    let mut table = CorrelationTable::new();
    table.track(&tx("h1", "nft.near", vec!["r1"]));
    table.track(&tx("h2", "nft.near", vec!["r2"]));
    table.track(&tx("h3", "nft.near", vec!["r3"]));
    assert_eq!(table.resolve("r2"), Some("h2".to_string()));
    assert_eq!(table.len(), 2);
    assert!(table.is_awaited("r1"));
    assert!(table.is_awaited("r3"));
    assert_eq!(table.resolve("r3"), Some("h3".to_string()));
    assert_eq!(table.resolve("r1"), Some("h1".to_string()));
}

#[test]
fn transaction_without_receipts_is_not_well_formed() {
    assert!(!tx("h", "nft.near", vec![]).is_well_formed());
    assert!(tx("h", "nft.near", vec!["r"]).is_well_formed());
}

#[test]
fn track_transactions_tracks_watched_receivers_only() {
    let mut table = CorrelationTable::new();
    let transactions = vec![
        tx("h1", "nft.near", vec!["r1"]),
        tx("h2", "other.near", vec!["r2"]),
        tx("h3", "market.near", vec!["r3"]),
        tx("h4", "nft.near", vec![]),
    ];
    track_transactions(&mut table, &transactions, &config());
    assert_eq!(table.len(), 2);
    assert!(table.is_awaited("r1"));
    assert!(!table.is_awaited("r2"));
    assert!(table.is_awaited("r3"));
}

#[test]
fn scan_receipts_appends_in_order() {
    let mut table = CorrelationTable::new();
    table.track(&tx("h1", "nft.near", vec!["r1"]));
    let pairs = vec![
        ReceiptOutcomePair {
            receipt: receipt("r0", "other.near", vec![call("nft_mint", "{}", 0)]),
            outcome: outcome("r0", ExecutionStatus::SuccessValue),
        },
        ReceiptOutcomePair {
            receipt: receipt("r1", "nft.near", vec![call("nft_mint", "{\"token_id\":\"a\"}", 0)]),
            outcome: outcome("r1", ExecutionStatus::SuccessValue),
        },
        ReceiptOutcomePair {
            receipt: receipt("r1", "nft.near", vec![]),
            outcome: outcome("r1", ExecutionStatus::Failure),
        },
    ];
    let mut found = vec![ClassifiedReceipt { transaction_hash: None, details: vec![] }];
    scan_receipts(&mut table, &pairs, &config(), &mut found);
    assert_eq!(found.len(), 3);
    assert_eq!(found[0], ClassifiedReceipt { transaction_hash: None, details: vec![] });
    assert_eq!(found[1].transaction_hash, Some("h1".to_string()));
    assert_eq!(found[1].details.len(), 1);
    assert_eq!(found[1].details[0].args, token_args("a"));
    assert_eq!(found[2], ClassifiedReceipt { transaction_hash: None, details: vec![] });
    assert_eq!(table.len(), 0);
}

#[test]
fn handle_messages_bridges_blocks() {
    let mut table = CorrelationTable::new();
    let first = StreamedBlock {
        height: 1,
        shards: vec![Shard {
            chunk: Some(Chunk {
                transactions: vec![
                    tx("h1", "nft.near", vec!["r1"]),
                    tx("h2", "elsewhere.near", vec!["r2"]),
                ],
            }),
            receipt_outcomes: vec![],
        }],
    };
    assert_eq!(handle_messages(&mut table, &first, &config()), vec![]);
    assert_eq!(table.len(), 1);

    let second = StreamedBlock {
        height: 2,
        shards: vec![
            Shard { chunk: None, receipt_outcomes: vec![] },
            Shard {
                chunk: Some(Chunk { transactions: vec![tx("h3", "market.near", vec!["r3"])] }),
                receipt_outcomes: vec![
                    ReceiptOutcomePair {
                        receipt: receipt("r2", "elsewhere.near", vec![call("offer", "{}", 0)]),
                        outcome: outcome("r2", ExecutionStatus::SuccessValue),
                    },
                    ReceiptOutcomePair {
                        receipt: receipt(
                            "r1",
                            "nft.near",
                            vec![call("nft_mint", "{\"token_id\":\"a\"}", 0)],
                        ),
                        outcome: outcome("r1", ExecutionStatus::SuccessValue),
                    },
                    ReceiptOutcomePair {
                        receipt: receipt("r3", "market.near", vec![call("offer", "{}", 5)]),
                        outcome: outcome("r3", ExecutionStatus::Failure),
                    },
                    ReceiptOutcomePair {
                        receipt: receipt("r4", "market.near", vec![]),
                        outcome: outcome("r4", ExecutionStatus::SuccessValue),
                    },
                ],
            },
        ],
    };
    let found = handle_messages(&mut table, &second, &config());
    assert_eq!(found.len(), 3);
    assert_eq!(found[0].transaction_hash, Some("h1".to_string()));
    assert_eq!(found[0].details.len(), 1);
    assert_eq!(found[0].details[0].method_name, "nft_mint");
    assert_eq!(found[1].transaction_hash, Some("h3".to_string()));
    assert_eq!(found[1].details.len(), 1);
    assert!(!found[1].details[0].success);
    assert_eq!(found[2], ClassifiedReceipt { transaction_hash: None, details: vec![] });
    assert_eq!(table.len(), 0);
}

#[test]
fn handle_messages_of_an_empty_block_changes_nothing() {
    let mut table = CorrelationTable::new();
    table.track(&tx("h1", "nft.near", vec!["r1"]));
    let block = StreamedBlock { height: 7, shards: vec![] };
    assert_eq!(handle_messages(&mut table, &block, &config()), vec![]);
    assert_eq!(table.len(), 1);
    assert!(table.is_awaited("r1"));
}
