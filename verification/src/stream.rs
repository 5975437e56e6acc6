//! The stream of blocks: what each block adds to the correlation table and
//! which classified receipts it yields.

use crate::correlation::{
    after_resolve, after_track, resolution, CorrelationTable, Pending, Transaction,
};
use crate::receipt::{
    classified, classify, detail_views, ExecutionDetail, ExecutionDetailView, ReceiptOutcomePair,
    WatchConfig,
};
use crate::text::text_view;
use vstd::prelude::*;

verus! {

/// The transactions that a shard accepted in one block.
#[derive(Clone, Debug, PartialEq, Eq)]
pub struct Chunk {
    pub transactions: Vec<Transaction>,
}

/// One shard of a block: at most one chunk of submitted transactions, and
/// the receipts that ran, each with its outcome.
#[derive(Clone, Debug, PartialEq, Eq)]
pub struct Shard {
    pub chunk: Option<Chunk>,
    pub receipt_outcomes: Vec<ReceiptOutcomePair>,
}

/// One block of the stream.
#[derive(Clone, Debug, PartialEq, Eq)]
pub struct StreamedBlock {
    pub height: u64,
    pub shards: Vec<Shard>,
}

/// A receipt for a watched contract, broken into its calls, with the hash
/// of the transaction whose outcome it carries where the table knew it.
#[derive(Clone, Debug, PartialEq, Eq)]
pub struct ClassifiedReceipt {
    pub transaction_hash: Option<String>,
    pub details: Vec<ExecutionDetail>,
}

/// The content of a classified receipt.
pub struct ClassifiedReceiptView {
    pub transaction_hash: Option<Seq<char>>,
    pub details: Seq<ExecutionDetailView>,
}

impl ClassifiedReceipt {
    /// The content of the classified receipt.
    pub open spec fn view(&self) -> ClassifiedReceiptView {
        ClassifiedReceiptView {
            transaction_hash: text_view(self.transaction_hash),
            details: detail_views(self.details@),
        }
    }
}

/// The contents of a list of classified receipts.
pub open spec fn receipt_views(found: Seq<ClassifiedReceipt>) -> Seq<ClassifiedReceiptView> {
    Seq::new(found.len(), |i: int| found[i]@)
}

impl Shard {
    /// The transactions of the shard's chunk; none where it has no chunk.
    pub open spec fn transactions(&self) -> Seq<Transaction> {
        match self.chunk {
            Some(chunk) => chunk.transactions@,
            None => Seq::empty(),
        }
    }
}

/// A transaction is tracked if it produced a receipt and is addressed to a
/// watched contract.
pub open spec fn is_tracked(tx: &Transaction, config: &WatchConfig) -> bool {
    tx.well_formed() && config.watches(tx.receiver_id@)
}

/// The table after the transactions were looked at in their order.
pub open spec fn after_transactions(
    table: Pending,
    transactions: Seq<Transaction>,
    config: &WatchConfig,
) -> Pending
    decreases transactions.len(),
{
    if transactions.len() == 0 {
        table
    } else {
        let before = after_transactions(table, transactions.drop_last(), config);
        let tx = transactions.last();
        if is_tracked(&tx, config) {
            after_track(before, tx.receipt_ids@[0]@, tx.hash@)
        } else {
            before
        }
    }
}

/// The table after the receipts were looked at in their order: every
/// receipt for a watched contract is resolved.
pub open spec fn after_receipts(
    table: Pending,
    pairs: Seq<ReceiptOutcomePair>,
    config: &WatchConfig,
) -> Pending
    decreases pairs.len(),
{
    if pairs.len() == 0 {
        table
    } else {
        let before = after_receipts(table, pairs.drop_last(), config);
        let pair = pairs.last();
        if classified(&pair.receipt, &pair.outcome, config) is Some {
            after_resolve(before, pair.receipt.receipt_id@)
        } else {
            before
        }
    }
}

/// The classified receipts among `pairs`, in their order, each with the
/// hash that the table held for it when its turn came.
pub open spec fn receipts_found(
    table: Pending,
    pairs: Seq<ReceiptOutcomePair>,
    config: &WatchConfig,
) -> Seq<ClassifiedReceiptView>
    decreases pairs.len(),
{
    if pairs.len() == 0 {
        Seq::empty()
    } else {
        let earlier = receipts_found(table, pairs.drop_last(), config);
        let before = after_receipts(table, pairs.drop_last(), config);
        let pair = pairs.last();
        match classified(&pair.receipt, &pair.outcome, config) {
            Some(details) => earlier.push(
                ClassifiedReceiptView {
                    transaction_hash: resolution(before, pair.receipt.receipt_id@),
                    details,
                },
            ),
            None => earlier,
        }
    }
}

/// The table after the shards were looked at in their order: in each
/// shard first the transactions, then the receipts.
pub open spec fn after_shards(table: Pending, shards: Seq<Shard>, config: &WatchConfig) -> Pending
    decreases shards.len(),
{
    if shards.len() == 0 {
        table
    } else {
        let before = after_shards(table, shards.drop_last(), config);
        let shard = shards.last();
        after_receipts(
            after_transactions(before, shard.transactions(), config),
            shard.receipt_outcomes@,
            config,
        )
    }
}

/// The classified receipts of the shards, in the order of the stream.
pub open spec fn shards_found(table: Pending, shards: Seq<Shard>, config: &WatchConfig) -> Seq<
    ClassifiedReceiptView,
>
    decreases shards.len(),
{
    if shards.len() == 0 {
        Seq::empty()
    } else {
        let before = after_shards(table, shards.drop_last(), config);
        let shard = shards.last();
        shards_found(table, shards.drop_last(), config) + receipts_found(
            after_transactions(before, shard.transactions(), config),
            shard.receipt_outcomes@,
            config,
        )
    }
}

/// Tracks each of the transactions that produced a receipt and is
/// addressed to a watched contract.
pub fn track_transactions(
    table: &mut CorrelationTable,
    transactions: &Vec<Transaction>,
    config: &WatchConfig,
)
    ensures
        final(table)@ == after_transactions(old(table)@, transactions@, config),
{
    let mut i: usize = 0;
    while i < transactions.len()
        invariant
            i <= transactions.len(),
            table@ == after_transactions(old(table)@, transactions@.take(i as int), config),
        decreases transactions.len() - i,
    {
        proof {
            assert(transactions@.take(i + 1).drop_last() == transactions@.take(i as int));
        }
        let tx = &transactions[i];
        if tx.is_well_formed() && config.is_watched(tx.receiver_id.as_str()) {
            table.track(tx);
        }
        i = i + 1;
    }
    proof {
        assert(transactions@.take(i as int) == transactions@);
    }
}

/// Classifies each receipt and resolves those for a watched contract,
/// appending what is found to `found`.
pub fn scan_receipts(
    table: &mut CorrelationTable,
    pairs: &Vec<ReceiptOutcomePair>,
    config: &WatchConfig,
    found: &mut Vec<ClassifiedReceipt>,
)
    ensures
        final(table)@ == after_receipts(old(table)@, pairs@, config),
        receipt_views(final(found)@) == receipt_views(old(found)@) + receipts_found(
            old(table)@,
            pairs@,
            config,
        ),
{
    let mut i: usize = 0;
    proof {
        assert(receipt_views(found@) =~= receipt_views(old(found)@) + receipts_found(
            old(table)@,
            pairs@.take(0),
            config,
        ));
    }
    while i < pairs.len()
        invariant
            i <= pairs.len(),
            table@ == after_receipts(old(table)@, pairs@.take(i as int), config),
            receipt_views(found@) == receipt_views(old(found)@) + receipts_found(
                old(table)@,
                pairs@.take(i as int),
                config,
            ),
        decreases pairs.len() - i,
    {
        proof {
            assert(pairs@.take(i + 1).drop_last() == pairs@.take(i as int));
        }
        let pair = &pairs[i];
        match classify(&pair.receipt, &pair.outcome, config) {
            Some(details) => {
                let ghost before = found@;
                let transaction_hash = table.resolve(pair.receipt.receipt_id.as_str());
                let entry = ClassifiedReceipt { transaction_hash, details };
                found.push(entry);
                proof {
                    assert(receipt_views(found@) =~= receipt_views(before).push(entry@));
                    assert(receipt_views(found@) =~= receipt_views(old(found)@) + receipts_found(
                        old(table)@,
                        pairs@.take(i + 1),
                        config,
                    ));
                }
            },
            None => {},
        }
        i = i + 1;
    }
    proof {
        assert(pairs@.take(i as int) == pairs@);
    }
}

/// Takes in one block of the stream.
///
/// Shard by shard, the submitted transactions for the watched contracts
/// are tracked, then every receipt is classified. A receipt for a watched
/// contract is resolved against the table and returned with its calls, and
/// with the hash of its transaction where the table knew the receipt.
/// Receipts come out in the order of the stream.
pub fn handle_messages(
    table: &mut CorrelationTable,
    block: &StreamedBlock,
    config: &WatchConfig,
) -> (found: Vec<ClassifiedReceipt>)
    ensures
        final(table)@ == after_shards(old(table)@, block.shards@, config),
        receipt_views(found@) == shards_found(old(table)@, block.shards@, config),
{
    let mut found: Vec<ClassifiedReceipt> = Vec::new();
    let mut i: usize = 0;
    proof {
        assert(receipt_views(found@) =~= shards_found(old(table)@, block.shards@.take(0), config));
    }
    while i < block.shards.len()
        invariant
            i <= block.shards.len(),
            table@ == after_shards(old(table)@, block.shards@.take(i as int), config),
            receipt_views(found@) == shards_found(old(table)@, block.shards@.take(i as int), config),
        decreases block.shards.len() - i,
    {
        proof {
            assert(block.shards@.take(i + 1).drop_last() == block.shards@.take(i as int));
        }
        let shard = &block.shards[i];
        match &shard.chunk {
            Some(chunk) => {
                track_transactions(table, &chunk.transactions, config);
            },
            None => {},
        }
        scan_receipts(table, &shard.receipt_outcomes, config, &mut found);
        i = i + 1;
    }
    proof {
        assert(block.shards@.take(i as int) == block.shards@);
    }
    found
}

} // verus!
