//! Transaction receipts.

use vstd::prelude::*;
use crate::error::ConvertError;
use crate::log::{
    logs_fit, logs_to_ethers, logs_to_reth, same_log, same_logs, EthersLog, Log,
};
use crate::numeric::{
    fits_u128, fits_u8, opt_ethers_u256_to_reth, opt_ethers_u64_to_reth,
    opt_ethers_u64_to_u256, opt_ethers_u64_value, opt_ethers_value, opt_fits_u64,
    opt_u256_to_ethers, opt_u256_to_ethers_u64, opt_u64_to_ethers, opt_u64_value, opt_value,
    EthersU256, EthersU64, U128, U256, U64, U8,
};
use crate::primitives::{
    opt_address_bytes, opt_address_to_ethers, opt_address_to_reth, opt_ethers_address_bytes,
    opt_ethers_hash_bytes, opt_hash_bytes, opt_hash_to_ethers, opt_hash_to_reth, Address, Bloom,
    EthersAddress, EthersBloom, EthersH256, H256,
};

verus! {

/// A receipt in the node's form.
#[derive(Clone, Debug, PartialEq, Eq)]
pub struct TransactionReceipt {
    pub transaction_hash: Option<H256>,
    pub transaction_index: Option<U256>,
    pub block_hash: Option<H256>,
    pub block_number: Option<U256>,
    pub from: Address,
    pub to: Option<Address>,
    pub cumulative_gas_used: U256,
    pub gas_used: Option<U256>,
    pub contract_address: Option<Address>,
    pub logs: Vec<Log>,
    pub status_code: Option<U64>,
    pub state_root: Option<H256>,
    pub logs_bloom: Bloom,
    pub transaction_type: U8,
    pub effective_gas_price: U128,
}

/// A receipt in the client's form.
#[derive(Clone, Debug, PartialEq, Eq)]
pub struct EthersTransactionReceipt {
    pub transaction_hash: EthersH256,
    pub transaction_index: EthersU64,
    pub block_hash: Option<EthersH256>,
    pub block_number: Option<EthersU64>,
    pub from: EthersAddress,
    pub to: Option<EthersAddress>,
    pub cumulative_gas_used: EthersU256,
    pub gas_used: Option<EthersU256>,
    pub contract_address: Option<EthersAddress>,
    pub logs: Vec<EthersLog>,
    pub status: Option<EthersU64>,
    pub root: Option<EthersH256>,
    pub logs_bloom: EthersBloom,
    pub transaction_type: Option<EthersU64>,
    pub effective_gas_price: Option<EthersU256>,
}

/// Why a receipt of the node has no counterpart in the client's form, if it
/// has none.
///
/// A receipt carries either a status code or a state root. One with both or
/// with neither is ambiguous. The client's form needs the transaction's hash
/// and index. The index, the block number and the positions in the logs must
/// fit 64 bits.
pub open spec fn receipt_error(receipt: TransactionReceipt) -> Option<ConvertError> {
    if (receipt.status_code is Some) == (receipt.state_root is Some) {
        Some(ConvertError::AmbiguousReceiptState)
    } else if receipt.transaction_hash is None || receipt.transaction_index is None {
        Some(ConvertError::UnsupportedVariant)
    } else if !opt_fits_u64(receipt.transaction_index) || !opt_fits_u64(receipt.block_number)
        || !logs_fit(receipt.logs@) {
        Some(ConvertError::Overflow)
    } else {
        None
    }
}

/// Why a receipt of the client has no counterpart in the node's form, if it
/// has none.
///
/// One with both a status and a root, or with neither, is ambiguous. The
/// node's form needs the transaction type and the effective gas price, the
/// first within 8 bits and the second within 128.
pub open spec fn ethers_receipt_error(receipt: EthersTransactionReceipt) -> Option<ConvertError> {
    if (receipt.status is Some) == (receipt.root is Some) {
        Some(ConvertError::AmbiguousReceiptState)
    } else if receipt.transaction_type is None || receipt.effective_gas_price is None {
        Some(ConvertError::UnsupportedVariant)
    } else if !fits_u8(receipt.transaction_type->0@) || !fits_u128(
        receipt.effective_gas_price->0@,
    ) {
        Some(ConvertError::Overflow)
    } else {
        None
    }
}

/// Whether a receipt of the node and one of the client say the same in every
/// field but the logs' flags.
pub open spec fn same_receipt(receipt: TransactionReceipt, ethers: EthersTransactionReceipt) -> bool {
    &&& opt_hash_bytes(receipt.transaction_hash) == Some(ethers.transaction_hash@)
    &&& opt_value(receipt.transaction_index) == Some(ethers.transaction_index@)
    &&& opt_ethers_hash_bytes(ethers.block_hash) == opt_hash_bytes(receipt.block_hash)
    &&& opt_ethers_u64_value(ethers.block_number) == opt_value(receipt.block_number)
    &&& ethers.from@ == receipt.from@
    &&& opt_ethers_address_bytes(ethers.to) == opt_address_bytes(receipt.to)
    &&& ethers.cumulative_gas_used@ == receipt.cumulative_gas_used@
    &&& opt_ethers_value(ethers.gas_used) == opt_value(receipt.gas_used)
    &&& opt_ethers_address_bytes(ethers.contract_address) == opt_address_bytes(
        receipt.contract_address,
    )
    &&& ethers.logs@.len() == receipt.logs@.len()
    &&& forall|i: int|
        0 <= i < receipt.logs@.len() ==> same_log(#[trigger] receipt.logs@[i], ethers.logs@[i])
    &&& opt_ethers_u64_value(ethers.status) == opt_u64_value(receipt.status_code)
    &&& opt_ethers_hash_bytes(ethers.root) == opt_hash_bytes(receipt.state_root)
    &&& ethers.logs_bloom@ == receipt.logs_bloom@
    &&& opt_ethers_u64_value(ethers.transaction_type) == Some(receipt.transaction_type@)
    &&& opt_ethers_value(ethers.effective_gas_price) == Some(receipt.effective_gas_price@)
}

/// Converts a receipt of the node to the client's form.
///
/// It fails exactly on the receipts for which [`receipt_error`] names an
/// error, with that error. Otherwise every field is carried over: absent
/// fields stay absent, and of status and root the one that was set is set.
pub fn reth_transaction_receipt_to_ethers(receipt: TransactionReceipt) -> (r: Result<
    EthersTransactionReceipt,
    ConvertError,
>)
    ensures
        match r {
            Ok(ethers) => receipt_error(receipt) is None && same_receipt(receipt, ethers)
                && same_logs(receipt.logs@, ethers.logs@),
            Err(e) => receipt_error(receipt) == Some(e),
        },
{
    if receipt.status_code.is_some() == receipt.state_root.is_some() {
        return Err(ConvertError::AmbiguousReceiptState);
    }
    let transaction_hash = match receipt.transaction_hash {
        Some(hash) => hash.to_ethers(),
        None => {
            return Err(ConvertError::UnsupportedVariant);
        },
    };
    let wide_index = match receipt.transaction_index {
        Some(index) => index,
        None => {
            return Err(ConvertError::UnsupportedVariant);
        },
    };
    let transaction_index = match wide_index.to_u64() {
        Ok(value) => EthersU64 { value },
        Err(e) => {
            return Err(e);
        },
    };
    let block_number = match opt_u256_to_ethers_u64(receipt.block_number) {
        Ok(n) => n,
        Err(e) => {
            return Err(e);
        },
    };
    let logs = match logs_to_ethers(&receipt.logs) {
        Ok(logs) => logs,
        Err(e) => {
            return Err(e);
        },
    };
    Ok(
        EthersTransactionReceipt {
            transaction_hash,
            transaction_index,
            block_hash: opt_hash_to_ethers(receipt.block_hash),
            block_number,
            from: receipt.from.to_ethers(),
            to: opt_address_to_ethers(receipt.to),
            cumulative_gas_used: receipt.cumulative_gas_used.to_ethers(),
            gas_used: opt_u256_to_ethers(receipt.gas_used),
            contract_address: opt_address_to_ethers(receipt.contract_address),
            logs,
            status: opt_u64_to_ethers(receipt.status_code),
            root: opt_hash_to_ethers(receipt.state_root),
            logs_bloom: receipt.logs_bloom.to_ethers(),
            transaction_type: Some(EthersU64 { value: receipt.transaction_type.value as u64 }),
            effective_gas_price: Some(EthersU256::from_u128(receipt.effective_gas_price.value)),
        },
    )
}

/// Converts a receipt of the client to the node's form.
///
/// It fails exactly on the receipts for which [`ethers_receipt_error`] names
/// an error, with that error. Otherwise every field is carried over, and a
/// log counts as removed only where it says so.
pub fn ethers_transaction_receipt_to_reth(receipt: &EthersTransactionReceipt) -> (r: Result<
    TransactionReceipt,
    ConvertError,
>)
    ensures
        match r {
            Ok(reth) => {
                &&& ethers_receipt_error(*receipt) is None
                &&& same_receipt(reth, *receipt)
                &&& forall|i: int|
                    0 <= i < receipt.logs@.len() ==> (#[trigger] reth.logs@[i]).removed == (
                    receipt.logs@[i].removed == Some(true))
            },
            Err(e) => ethers_receipt_error(*receipt) == Some(e),
        },
{
    if receipt.status.is_some() == receipt.root.is_some() {
        return Err(ConvertError::AmbiguousReceiptState);
    }
    let wide_type = match receipt.transaction_type {
        Some(t) => t,
        None => {
            return Err(ConvertError::UnsupportedVariant);
        },
    };
    let wide_price = match receipt.effective_gas_price {
        Some(p) => p,
        None => {
            return Err(ConvertError::UnsupportedVariant);
        },
    };
    if wide_type.value > 0xff {
        return Err(ConvertError::Overflow);
    }
    let effective_gas_price = match wide_price.to_reth().to_u128() {
        Ok(value) => U128 { value },
        Err(e) => {
            return Err(e);
        },
    };
    Ok(
        TransactionReceipt {
            transaction_hash: Some(receipt.transaction_hash.to_reth()),
            transaction_index: Some(U256::from_u64(receipt.transaction_index.value)),
            block_hash: opt_hash_to_reth(receipt.block_hash),
            block_number: opt_ethers_u64_to_u256(receipt.block_number),
            from: receipt.from.to_reth(),
            to: opt_address_to_reth(receipt.to),
            cumulative_gas_used: receipt.cumulative_gas_used.to_reth(),
            gas_used: opt_ethers_u256_to_reth(receipt.gas_used),
            contract_address: opt_address_to_reth(receipt.contract_address),
            logs: logs_to_reth(&receipt.logs),
            status_code: opt_ethers_u64_to_reth(receipt.status),
            state_root: opt_hash_to_reth(receipt.root),
            logs_bloom: receipt.logs_bloom.to_reth(),
            transaction_type: U8 { value: wide_type.value as u8 },
            effective_gas_price,
        },
    )
}

/// A receipt that carries both a status code and a state root, or neither,
/// is rejected as ambiguous, whatever else it holds.
pub proof fn lemma_ambiguous_receipt(receipt: TransactionReceipt)
    requires
        (receipt.status_code is Some) == (receipt.state_root is Some),
    ensures
        receipt_error(receipt) == Some(ConvertError::AmbiguousReceiptState),
{
}

/// A receipt taken to the client's form and back says what it said. The
/// status and the root are present where they were and absent where they
/// were, and so is every other field that may be absent.
pub proof fn lemma_receipt_round_trip(
    start: TransactionReceipt,
    there: EthersTransactionReceipt,
    back: TransactionReceipt,
)
    requires
        same_receipt(start, there),
        same_receipt(back, there),
    ensures
        opt_u64_value(back.status_code) == opt_u64_value(start.status_code),
        opt_hash_bytes(back.state_root) == opt_hash_bytes(start.state_root),
        (back.state_root is None) == (start.state_root is None),
        (back.status_code is None) == (start.status_code is None),
        opt_hash_bytes(back.transaction_hash) == opt_hash_bytes(start.transaction_hash),
        opt_value(back.transaction_index) == opt_value(start.transaction_index),
        opt_hash_bytes(back.block_hash) == opt_hash_bytes(start.block_hash),
        opt_value(back.block_number) == opt_value(start.block_number),
        back.from@ == start.from@,
        opt_address_bytes(back.to) == opt_address_bytes(start.to),
        back.cumulative_gas_used@ == start.cumulative_gas_used@,
        opt_value(back.gas_used) == opt_value(start.gas_used),
        opt_address_bytes(back.contract_address) == opt_address_bytes(start.contract_address),
        back.logs@.len() == start.logs@.len(),
        back.logs_bloom@ == start.logs_bloom@,
        back.transaction_type@ == start.transaction_type@,
        back.effective_gas_price@ == start.effective_gas_price@,
{
}

} // verus!
