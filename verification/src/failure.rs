//! Which field of a value stands in the way of its conversion, and why.
//!
//! The conversions report the kind of error. The functions here name the
//! first field that is at fault as well, so that a caller can tell a client
//! what to correct.

use vstd::prelude::*;
use crate::error::ConvertError;
use crate::filter::{
    usable_block_option, usable_reth_block_option, EthersFilter, EthersFilterBlockOption, Filter,
    FilterBlockOption,
};
use crate::log::{log_fits, logs_fit, Log};
use crate::numeric::{fits_u128, fits_u64, fits_u8, opt_fits_u64, EthersU256, U256};
use crate::receipt::{
    ethers_receipt_error, receipt_error, EthersTransactionReceipt, TransactionReceipt,
};
use crate::transaction::{
    ethers_transaction_fits, opt_fits_u128, recipient_is_name, transaction_fits,
    EthersNameOrAddress, EthersTransaction, EthersTypedTransaction, Transaction,
};

verus! {

/// A field of a log, a receipt, a transaction, a request or a filter.
#[derive(Clone, Copy, Debug, PartialEq, Eq, Structural)]
pub enum Field {
    BlockNumber,
    TransactionIndex,
    TransactionHash,
    StatusAndRoot,
    Logs,
    TransactionType,
    EffectiveGasPrice,
    SignatureV,
    GasPrice,
    MaxFeePerGas,
    MaxPriorityFeePerGas,
    ChainId,
    To,
    BlockOption,
}

/// The name of each field as clients know it.
pub open spec fn field_name(field: Field) -> Seq<char> {
    match field {
        Field::BlockNumber => "blockNumber"@,
        Field::TransactionIndex => "transactionIndex"@,
        Field::TransactionHash => "transactionHash"@,
        Field::StatusAndRoot => "status"@,
        Field::Logs => "logs"@,
        Field::TransactionType => "type"@,
        Field::EffectiveGasPrice => "effectiveGasPrice"@,
        Field::SignatureV => "v"@,
        Field::GasPrice => "gasPrice"@,
        Field::MaxFeePerGas => "maxFeePerGas"@,
        Field::MaxPriorityFeePerGas => "maxPriorityFeePerGas"@,
        Field::ChainId => "chainId"@,
        Field::To => "to"@,
        Field::BlockOption => "fromBlock"@,
    }
}

impl Field {
    /// The name of the field as clients know it.
    pub fn name(&self) -> (text: &'static str)
        ensures
            text@ == field_name(*self),
    {
        match self {
            Field::BlockNumber => "blockNumber",
            Field::TransactionIndex => "transactionIndex",
            Field::TransactionHash => "transactionHash",
            Field::StatusAndRoot => "status",
            Field::Logs => "logs",
            Field::TransactionType => "type",
            Field::EffectiveGasPrice => "effectiveGasPrice",
            Field::SignatureV => "v",
            Field::GasPrice => "gasPrice",
            Field::MaxFeePerGas => "maxFeePerGas",
            Field::MaxPriorityFeePerGas => "maxPriorityFeePerGas",
            Field::ChainId => "chainId",
            Field::To => "to",
            Field::BlockOption => "fromBlock",
        }
    }
}

/// The field at fault and the kind of error.
#[derive(Clone, Copy, Debug, PartialEq, Eq, Structural)]
pub struct Failure {
    pub kind: ConvertError,
    pub field: Field,
}

/// The kind of a failure, if there is one.
pub open spec fn kind_of(failure: Option<Failure>) -> Option<ConvertError> {
    match failure {
        None => None,
        Some(f) => Some(f.kind),
    }
}

/// An overflow in `field`.
pub open spec fn overflow_in(field: Field) -> Option<Failure> {
    Some(Failure { kind: ConvertError::Overflow, field })
}

/// The first field of a log of the node that does not fit the client's form.
pub open spec fn log_failure(log: Log) -> Option<Failure> {
    if !opt_fits_u64(log.block_number) {
        overflow_in(Field::BlockNumber)
    } else if !opt_fits_u64(log.transaction_index) {
        overflow_in(Field::TransactionIndex)
    } else {
        None
    }
}

/// The first field of a receipt of the node that stands in the way of its
/// conversion.
pub open spec fn receipt_failure(receipt: TransactionReceipt) -> Option<Failure> {
    if (receipt.status_code is Some) == (receipt.state_root is Some) {
        Some(Failure { kind: ConvertError::AmbiguousReceiptState, field: Field::StatusAndRoot })
    } else if receipt.transaction_hash is None {
        Some(Failure { kind: ConvertError::UnsupportedVariant, field: Field::TransactionHash })
    } else if receipt.transaction_index is None {
        Some(Failure { kind: ConvertError::UnsupportedVariant, field: Field::TransactionIndex })
    } else if !opt_fits_u64(receipt.transaction_index) {
        overflow_in(Field::TransactionIndex)
    } else if !opt_fits_u64(receipt.block_number) {
        overflow_in(Field::BlockNumber)
    } else if !logs_fit(receipt.logs@) {
        overflow_in(Field::Logs)
    } else {
        None
    }
}

/// The first field of a receipt of the client that stands in the way of its
/// conversion.
pub open spec fn ethers_receipt_failure(receipt: EthersTransactionReceipt) -> Option<Failure> {
    if (receipt.status is Some) == (receipt.root is Some) {
        Some(Failure { kind: ConvertError::AmbiguousReceiptState, field: Field::StatusAndRoot })
    } else if receipt.transaction_type is None {
        Some(Failure { kind: ConvertError::UnsupportedVariant, field: Field::TransactionType })
    } else if receipt.effective_gas_price is None {
        Some(Failure { kind: ConvertError::UnsupportedVariant, field: Field::EffectiveGasPrice })
    } else if !fits_u8(receipt.transaction_type->0@) {
        overflow_in(Field::TransactionType)
    } else if !fits_u128(receipt.effective_gas_price->0@) {
        overflow_in(Field::EffectiveGasPrice)
    } else {
        None
    }
}

/// The first field of a transaction of the node that does not fit the
/// client's form.
pub open spec fn transaction_failure(tx: Transaction) -> Option<Failure> {
    if !opt_fits_u64(tx.block_number) {
        overflow_in(Field::BlockNumber)
    } else if !opt_fits_u64(tx.transaction_index) {
        overflow_in(Field::TransactionIndex)
    } else if tx.signature is Some && !fits_u64(tx.signature->0.v@) {
        overflow_in(Field::SignatureV)
    } else {
        None
    }
}

/// The first field of a transaction of the client that does not fit the
/// node's form.
pub open spec fn ethers_transaction_failure(tx: EthersTransaction) -> Option<Failure> {
    if !opt_fits_u128(tx.gas_price) {
        overflow_in(Field::GasPrice)
    } else if !opt_fits_u128(tx.max_fee_per_gas) {
        overflow_in(Field::MaxFeePerGas)
    } else if !opt_fits_u128(tx.max_priority_fee_per_gas) {
        overflow_in(Field::MaxPriorityFeePerGas)
    } else if tx.chain_id is Some && !fits_u64(tx.chain_id->0@) {
        overflow_in(Field::ChainId)
    } else {
        None
    }
}

/// What stands in the way of a request of the client: a recipient given by
/// name.
pub open spec fn request_failure(tx: EthersTypedTransaction) -> Option<Failure> {
    if recipient_is_name(tx.recipient()) {
        Some(Failure { kind: ConvertError::UnsupportedVariant, field: Field::To })
    } else {
        None
    }
}

/// What stands in the way of a block selector: a range without any bound.
pub open spec fn block_option_failure(usable: bool) -> Option<Failure> {
    if usable {
        None
    } else {
        Some(Failure { kind: ConvertError::InvalidFilterRange, field: Field::BlockOption })
    }
}

/// Whether an optional quantity is absent or fits 64 bits.
pub fn opt_quantity_fits_u64(x: Option<U256>) -> (r: bool)
    ensures
        r == opt_fits_u64(x),
{
    match x {
        None => true,
        Some(q) => q.to_u64().is_ok(),
    }
}

/// Whether an optional price is absent or fits 128 bits.
pub fn opt_price_fits_u128(x: Option<EthersU256>) -> (r: bool)
    ensures
        r == opt_fits_u128(x),
{
    match x {
        None => true,
        Some(q) => q.to_reth().to_u128().is_ok(),
    }
}

/// Names the first field of a log of the node that does not fit.
pub fn explain_log(log: &Log) -> (r: Option<Failure>)
    ensures
        r == log_failure(*log),
        r is None <==> log_fits(*log),
{
    if !opt_quantity_fits_u64(log.block_number) {
        Some(Failure { kind: ConvertError::Overflow, field: Field::BlockNumber })
    } else if !opt_quantity_fits_u64(log.transaction_index) {
        Some(Failure { kind: ConvertError::Overflow, field: Field::TransactionIndex })
    } else {
        None
    }
}

/// Whether every log of a list fits the client's form.
pub fn all_logs_fit(logs: &Vec<Log>) -> (r: bool)
    ensures
        r == logs_fit(logs@),
{
    let mut i: usize = 0;
    while i < logs.len()
        invariant
            i <= logs.len(),
            forall|j: int| 0 <= j < i ==> log_fits(#[trigger] logs@[j]),
        decreases logs.len() - i,
    {
        if explain_log(&logs[i]).is_some() {
            assert(!log_fits(logs@[i as int]));
            return false;
        }
        i += 1;
    }
    true
}

/// Names the first field of a receipt of the node that stands in the way of
/// its conversion. The kind of the failure is the error that the conversion
/// returns.
pub fn explain_receipt(receipt: &TransactionReceipt) -> (r: Option<Failure>)
    ensures
        r == receipt_failure(*receipt),
        kind_of(r) == receipt_error(*receipt),
{
    if receipt.status_code.is_some() == receipt.state_root.is_some() {
        Some(Failure { kind: ConvertError::AmbiguousReceiptState, field: Field::StatusAndRoot })
    } else if receipt.transaction_hash.is_none() {
        Some(Failure { kind: ConvertError::UnsupportedVariant, field: Field::TransactionHash })
    } else if receipt.transaction_index.is_none() {
        Some(Failure { kind: ConvertError::UnsupportedVariant, field: Field::TransactionIndex })
    } else if !opt_quantity_fits_u64(receipt.transaction_index) {
        Some(Failure { kind: ConvertError::Overflow, field: Field::TransactionIndex })
    } else if !opt_quantity_fits_u64(receipt.block_number) {
        Some(Failure { kind: ConvertError::Overflow, field: Field::BlockNumber })
    } else if !all_logs_fit(&receipt.logs) {
        Some(Failure { kind: ConvertError::Overflow, field: Field::Logs })
    } else {
        None
    }
}

/// Names the first field of a receipt of the client that stands in the way
/// of its conversion. The kind of the failure is the error that the
/// conversion returns.
pub fn explain_ethers_receipt(receipt: &EthersTransactionReceipt) -> (r: Option<Failure>)
    ensures
        r == ethers_receipt_failure(*receipt),
        kind_of(r) == ethers_receipt_error(*receipt),
{
    if receipt.status.is_some() == receipt.root.is_some() {
        return Some(
            Failure { kind: ConvertError::AmbiguousReceiptState, field: Field::StatusAndRoot },
        );
    }
    let wide_type = match receipt.transaction_type {
        Some(t) => t,
        None => {
            return Some(
                Failure { kind: ConvertError::UnsupportedVariant, field: Field::TransactionType },
            );
        },
    };
    let price = match receipt.effective_gas_price {
        Some(p) => p,
        None => {
            return Some(
                Failure {
                    kind: ConvertError::UnsupportedVariant,
                    field: Field::EffectiveGasPrice,
                },
            );
        },
    };
    if wide_type.value > 0xff {
        Some(Failure { kind: ConvertError::Overflow, field: Field::TransactionType })
    } else if !opt_price_fits_u128(Some(price)) {
        Some(Failure { kind: ConvertError::Overflow, field: Field::EffectiveGasPrice })
    } else {
        None
    }
}

/// Names the first field of a transaction of the node that does not fit.
pub fn explain_transaction(tx: &Transaction) -> (r: Option<Failure>)
    ensures
        r == transaction_failure(*tx),
        r is None <==> transaction_fits(*tx),
        r is Some ==> r->0.kind == ConvertError::Overflow,
{
    if !opt_quantity_fits_u64(tx.block_number) {
        return Some(Failure { kind: ConvertError::Overflow, field: Field::BlockNumber });
    }
    if !opt_quantity_fits_u64(tx.transaction_index) {
        return Some(Failure { kind: ConvertError::Overflow, field: Field::TransactionIndex });
    }
    match tx.signature {
        None => None,
        Some(sig) => {
            if sig.v.to_u64().is_ok() {
                None
            } else {
                Some(Failure { kind: ConvertError::Overflow, field: Field::SignatureV })
            }
        },
    }
}

/// Names the first field of a transaction of the client that does not fit.
pub fn explain_ethers_transaction(tx: &EthersTransaction) -> (r: Option<Failure>)
    ensures
        r == ethers_transaction_failure(*tx),
        r is None <==> ethers_transaction_fits(*tx),
        r is Some ==> r->0.kind == ConvertError::Overflow,
{
    if !opt_price_fits_u128(tx.gas_price) {
        return Some(Failure { kind: ConvertError::Overflow, field: Field::GasPrice });
    }
    if !opt_price_fits_u128(tx.max_fee_per_gas) {
        return Some(Failure { kind: ConvertError::Overflow, field: Field::MaxFeePerGas });
    }
    if !opt_price_fits_u128(tx.max_priority_fee_per_gas) {
        return Some(Failure { kind: ConvertError::Overflow, field: Field::MaxPriorityFeePerGas });
    }
    match tx.chain_id {
        None => None,
        Some(id) => {
            if id.to_u64().is_ok() {
                None
            } else {
                Some(Failure { kind: ConvertError::Overflow, field: Field::ChainId })
            }
        },
    }
}

/// Whether a recipient is given by name.
pub fn is_name(to: &Option<EthersNameOrAddress>) -> (r: bool)
    ensures
        r == recipient_is_name(*to),
{
    match to {
        Some(EthersNameOrAddress::Name(_)) => true,
        _ => false,
    }
}

/// Names what stands in the way of a request of the client, if anything
/// does: its recipient, where that is given by name.
pub fn explain_request(tx: &EthersTypedTransaction) -> (r: Option<Failure>)
    ensures
        r == request_failure(*tx),
{
    let named = match tx {
        EthersTypedTransaction::Legacy(request) => is_name(&request.to),
        EthersTypedTransaction::Eip2930(inner) => is_name(&inner.tx.to),
        EthersTypedTransaction::Eip1559(request) => is_name(&request.to),
    };
    if named {
        Some(Failure { kind: ConvertError::UnsupportedVariant, field: Field::To })
    } else {
        None
    }
}

/// Names what stands in the way of a filter of the client, if anything does:
/// its block selector, where that is a range without any bound.
pub fn explain_filter(filter: &EthersFilter) -> (r: Option<Failure>)
    ensures
        r == block_option_failure(usable_block_option(filter.block_option)),
{
    match filter.block_option {
        EthersFilterBlockOption::AtBlockHash(_) => None,
        EthersFilterBlockOption::Range { from_block, to_block } => {
            if from_block.is_none() && to_block.is_none() {
                Some(Failure { kind: ConvertError::InvalidFilterRange, field: Field::BlockOption })
            } else {
                None
            }
        },
    }
}

/// Names what stands in the way of a filter of the node, if anything does:
/// its block selector, where that is a range without any bound.
pub fn explain_reth_filter(filter: &Filter) -> (r: Option<Failure>)
    ensures
        r == block_option_failure(usable_reth_block_option(filter.block_option)),
{
    match filter.block_option {
        FilterBlockOption::AtBlockHash(_) => None,
        FilterBlockOption::Range { from_block, to_block } => {
            if from_block.is_none() && to_block.is_none() {
                Some(Failure { kind: ConvertError::InvalidFilterRange, field: Field::BlockOption })
            } else {
                None
            }
        },
    }
}

/// The field that is named is at fault exactly where the conversion fails,
/// and the kind that is named is the error that the conversion returns.
pub proof fn lemma_failures_agree(
    log: Log,
    receipt: TransactionReceipt,
    ethers_receipt: EthersTransactionReceipt,
    tx: Transaction,
    ethers_tx: EthersTransaction,
)
    ensures
        log_failure(log) is None <==> log_fits(log),
        kind_of(receipt_failure(receipt)) == receipt_error(receipt),
        kind_of(ethers_receipt_failure(ethers_receipt)) == ethers_receipt_error(ethers_receipt),
        transaction_failure(tx) is None <==> transaction_fits(tx),
        ethers_transaction_failure(ethers_tx) is None <==> ethers_transaction_fits(ethers_tx),
{
}

} // verus!
