//! Receipts as the stream delivers them, and their classification into one
//! execution detail per function call.

use crate::codec::{decode, decoded};
use crate::json::{JsonTree, JsonValue};
use crate::text::same_text;
use vstd::prelude::*;

verus! {

/// The two contracts whose receipts are of interest.
#[derive(Clone, Debug, PartialEq, Eq)]
pub struct WatchConfig {
    pub nft_contract: String,
    pub market_contract: String,
}

impl WatchConfig {
    /// `account` is one of the two watched contracts.
    pub open spec fn watches(&self, account: Seq<char>) -> bool {
        account == self.nft_contract@ || account == self.market_contract@
    }

    /// Whether `account` is one of the two watched contracts.
    pub fn is_watched(&self, account: &str) -> (r: bool)
        ensures
            r == self.watches(account@),
    {
        same_text(account, self.nft_contract.as_str()) || same_text(
            account,
            self.market_contract.as_str(),
        )
    }
}

/// One action of a receipt. Only function calls are looked into.
#[derive(Clone, Debug, PartialEq, Eq)]
pub enum Action {
    /// A call of `method_name` with base64-encoded JSON arguments and an
    /// attached deposit in the smallest token unit.
    FunctionCall { method_name: String, args: String, deposit: u128 },
    /// Any other kind of action.
    Other,
}

/// What a receipt carries.
#[derive(Clone, Debug, PartialEq, Eq)]
pub enum ReceiptKind {
    /// Actions to run, signed by `signer_id`.
    Action { signer_id: String, actions: Vec<Action> },
    /// Data handed to another receipt, or a shape not known here.
    Data,
}

/// A unit of execution addressed to one account.
#[derive(Clone, Debug, PartialEq, Eq)]
pub struct Receipt {
    pub receipt_id: String,
    pub predecessor_id: String,
    pub receiver_id: String,
    pub kind: ReceiptKind,
}

/// How the execution of a receipt ended.
#[derive(Clone, Copy, Debug, PartialEq, Eq)]
pub enum ExecutionStatus {
    Unknown,
    Failure,
    SuccessValue,
    SuccessReceiptId,
}

/// The outcome of running a receipt.
#[derive(Clone, Debug, PartialEq, Eq)]
pub struct ExecutionOutcome {
    pub id: String,
    pub status: ExecutionStatus,
    pub receipt_ids: Vec<String>,
}

/// A receipt with the outcome of running it.
#[derive(Clone, Debug, PartialEq, Eq)]
pub struct ReceiptOutcomePair {
    pub receipt: Receipt,
    pub outcome: ExecutionOutcome,
}

/// One function call of a receipt, with what is needed to act on it.
#[derive(Clone, Debug, PartialEq, Eq)]
pub struct ExecutionDetail {
    pub method_name: String,
    pub args: JsonValue,
    pub signer_id: String,
    pub deposit: u128,
    pub success: bool,
    pub outcome_id: String,
    pub predecessor_id: String,
    pub receiver_id: String,
}

/// The content of an execution detail.
pub struct ExecutionDetailView {
    pub method_name: Seq<char>,
    pub args: JsonTree,
    pub signer_id: Seq<char>,
    pub deposit: u128,
    pub success: bool,
    pub outcome_id: Seq<char>,
    pub predecessor_id: Seq<char>,
    pub receiver_id: Seq<char>,
}

impl ExecutionDetail {
    /// The content of the detail.
    pub open spec fn view(&self) -> ExecutionDetailView {
        ExecutionDetailView {
            method_name: self.method_name@,
            args: self.args@,
            signer_id: self.signer_id@,
            deposit: self.deposit,
            success: self.success,
            outcome_id: self.outcome_id@,
            predecessor_id: self.predecessor_id@,
            receiver_id: self.receiver_id@,
        }
    }
}

impl ExecutionStatus {
    /// The execution succeeded, with a value or with a further receipt.
    pub open spec fn succeeded(self) -> bool {
        self is SuccessValue || self is SuccessReceiptId
    }

    /// Whether the execution succeeded.
    pub fn is_success(&self) -> (r: bool)
        ensures
            r == self.succeeded(),
    {
        match self {
            ExecutionStatus::SuccessValue => true,
            ExecutionStatus::SuccessReceiptId => true,
            _ => false,
        }
    }
}

impl Receipt {
    /// The signer of an action receipt; the empty string for any other.
    pub open spec fn signer(&self) -> Seq<char> {
        match self.kind {
            ReceiptKind::Action { signer_id, .. } => signer_id@,
            ReceiptKind::Data => Seq::empty(),
        }
    }

    /// The actions of an action receipt; none for any other.
    pub open spec fn actions(&self) -> Seq<Action> {
        match self.kind {
            ReceiptKind::Action { actions, .. } => actions@,
            ReceiptKind::Data => Seq::empty(),
        }
    }

    /// The function calls among the actions, in their order.
    pub open spec fn function_calls(&self) -> Seq<Action> {
        self.actions().filter(|a: Action| a is FunctionCall)
    }
}

/// The detail that stands for one function call of `receipt`.
pub open spec fn detail_of(
    receipt: &Receipt,
    outcome: &ExecutionOutcome,
    call: Action,
) -> ExecutionDetailView {
    ExecutionDetailView {
        method_name: call->method_name@,
        args: decoded(call->args@),
        signer_id: receipt.signer(),
        deposit: call->deposit,
        success: outcome.status.succeeded(),
        outcome_id: outcome.id@,
        predecessor_id: receipt.predecessor_id@,
        receiver_id: receipt.receiver_id@,
    }
}

/// The details that stand for the given function calls, in their order.
pub open spec fn details_of(
    receipt: &Receipt,
    outcome: &ExecutionOutcome,
    calls: Seq<Action>,
) -> Seq<ExecutionDetailView> {
    Seq::new(calls.len(), |i: int| detail_of(receipt, outcome, calls[i]))
}

/// What classification gives: nothing for a receipt that is addressed to
/// neither watched contract, else one detail per function call, in the order
/// of the actions.
pub open spec fn classified(
    receipt: &Receipt,
    outcome: &ExecutionOutcome,
    config: &WatchConfig,
) -> Option<Seq<ExecutionDetailView>> {
    if config.watches(receipt.receiver_id@) {
        Some(details_of(receipt, outcome, receipt.function_calls()))
    } else {
        None
    }
}

/// The contents of a list of details.
pub open spec fn detail_views(details: Seq<ExecutionDetail>) -> Seq<ExecutionDetailView> {
    Seq::new(details.len(), |i: int| details[i]@)
}

/// A receipt for any other account is not classified. A receipt for a
/// watched contract gives exactly one detail per function call among its
/// actions, the k-th detail standing for the k-th function call.
pub proof fn lemma_one_detail_per_call(
    receipt: &Receipt,
    outcome: &ExecutionOutcome,
    config: &WatchConfig,
)
    ensures
        !config.watches(receipt.receiver_id@) ==> classified(receipt, outcome, config) is None,
        config.watches(receipt.receiver_id@) ==> ({
            &&& classified(receipt, outcome, config) matches Some(details)
            &&& details.len() == receipt.function_calls().len()
            &&& forall|k: int|
                0 <= k < details.len() ==> #[trigger] details[k] == detail_of(
                    receipt,
                    outcome,
                    receipt.function_calls()[k],
                )
        }),
{
}

/// The function calls of a receipt are taken from its actions: there are
/// no more of them than actions, each of them is a function call, and where
/// every action is a function call they are the actions themselves, in
/// their order.
pub proof fn lemma_function_calls_of_actions(receipt: &Receipt)
    ensures
        receipt.function_calls().len() <= receipt.actions().len(),
        forall|k: int|
            0 <= k < receipt.function_calls().len()
                ==> #[trigger] receipt.function_calls()[k] is FunctionCall,
        (forall|i: int|
            0 <= i < receipt.actions().len() ==> #[trigger] receipt.actions()[i] is FunctionCall)
            ==> receipt.function_calls() == receipt.actions(),
{
    let actions = receipt.actions();
    let pred = |a: Action| a is FunctionCall;
    actions.lemma_filter_len(pred);
    assert forall|k: int| 0 <= k < actions.filter(pred).len() implies #[trigger] actions.filter(
        pred,
    )[k] is FunctionCall by {
        actions.lemma_filter_pred(pred, k);
    }
    if forall|i: int| 0 <= i < actions.len() ==> #[trigger] actions[i] is FunctionCall {
        lemma_filter_all(actions);
    }
}

proof fn lemma_filter_all(actions: Seq<Action>)
    requires
        forall|i: int| 0 <= i < actions.len() ==> #[trigger] actions[i] is FunctionCall,
    ensures
        actions.filter(|a: Action| a is FunctionCall) == actions,
    decreases actions.len(),
{
    reveal(Seq::filter);
    if actions.len() > 0 {
        lemma_filter_all(actions.drop_last());
        assert(actions.drop_last().push(actions.last()) == actions);
    }
}

/// Whether the receipt is addressed to one of the two given contracts.
pub fn is_valid_receipt(receipt: &Receipt, nft_contract: &str, market_contract: &str) -> (r: bool)
    ensures
        r == (receipt.receiver_id@ == nft_contract@ || receipt.receiver_id@ == market_contract@),
{
    same_text(receipt.receiver_id.as_str(), nft_contract) || same_text(
        receipt.receiver_id.as_str(),
        market_contract,
    )
}

/// Classifies a receipt with its outcome.
///
/// Returns `None` when the receiver is neither watched contract. Otherwise
/// returns one detail per function call among the receipt's actions, in the
/// order of the actions; the list is empty for a receipt without function
/// calls and for one that is no action receipt. The signer is that of an
/// action receipt and empty otherwise; arguments that do not decode are
/// replaced by the empty string.
pub fn classify(receipt: &Receipt, outcome: &ExecutionOutcome, config: &WatchConfig) -> (r: Option<
    Vec<ExecutionDetail>,
>)
    ensures
        r is Some <==> config.watches(receipt.receiver_id@),
        r matches Some(details) ==> {
            &&& classified(receipt, outcome, config) == Some(detail_views(details@))
            &&& details@.len() == receipt.function_calls().len()
            &&& forall|k: int|
                0 <= k < details@.len() ==> #[trigger] details@[k]@ == detail_of(
                    receipt,
                    outcome,
                    receipt.function_calls()[k],
                )
        },
{
    if !is_valid_receipt(receipt, config.nft_contract.as_str(), config.market_contract.as_str()) {
        return None;
    }
    let success = outcome.status.is_success();
    let mut details: Vec<ExecutionDetail> = Vec::new();
    match &receipt.kind {
        ReceiptKind::Action { signer_id, actions } => {
            let ghost all = receipt.actions();
            let ghost is_call = |a: Action| a is FunctionCall;
            let mut i: usize = 0;
            while i < actions.len()
                invariant
                    i <= actions.len(),
                    all == actions@,
                    all == receipt.actions(),
                    signer_id@ == receipt.signer(),
                    success == outcome.status.succeeded(),
                    is_call == |a: Action| a is FunctionCall,
                    details@.len() == all.take(i as int).filter(is_call).len(),
                    forall|k: int|
                        0 <= k < details@.len() ==> #[trigger] details@[k]@ == detail_of(
                            receipt,
                            outcome,
                            all.take(i as int).filter(is_call)[k],
                        ),
                decreases actions.len() - i,
            {
                proof {
                    reveal(Seq::filter);
                    assert(all.take(i + 1).drop_last() == all.take(i as int));
                }
                match &actions[i] {
                    Action::FunctionCall { method_name, args, deposit } => {
                        details.push(
                            ExecutionDetail {
                                method_name: method_name.clone(),
                                args: decode(args.as_str()),
                                signer_id: signer_id.clone(),
                                deposit: *deposit,
                                success,
                                outcome_id: outcome.id.clone(),
                                predecessor_id: receipt.predecessor_id.clone(),
                                receiver_id: receipt.receiver_id.clone(),
                            },
                        );
                    },
                    Action::Other => {},
                }
                i = i + 1;
            }
            proof {
                assert(all.take(i as int) == all);
            }
        },
        ReceiptKind::Data => {
            proof {
                reveal(Seq::filter);
            }
        },
    }
    proof {
        assert(detail_views(details@) =~= details_of(receipt, outcome, receipt.function_calls()));
    }
    Some(details)
}

} // verus!
