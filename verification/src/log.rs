//! Event logs.

use vstd::prelude::*;
use crate::error::ConvertError;
use crate::numeric::{
    opt_ethers_u256_to_reth, opt_ethers_u64_to_u256, opt_ethers_u64_value, opt_ethers_value,
    opt_fits_u64, opt_u256_to_ethers, opt_u256_to_ethers_u64, opt_value, EthersU256, EthersU64,
    U256,
};
use crate::primitives::{
    copy_bytes, ethers_hash_seq, hash_seq, hashes_to_ethers, hashes_to_reth, opt_ethers_hash_bytes,
    opt_hash_bytes, opt_hash_to_ethers, opt_hash_to_reth, Address, EthersAddress, EthersH256, H256,
};

verus! {

/// A log in the node's form.
#[derive(Clone, Debug, PartialEq, Eq)]
pub struct Log {
    pub address: Address,
    pub topics: Vec<H256>,
    pub data: Vec<u8>,
    pub block_hash: Option<H256>,
    pub block_number: Option<U256>,
    pub transaction_hash: Option<H256>,
    pub transaction_index: Option<U256>,
    pub log_index: Option<U256>,
    pub removed: bool,
}

/// A log in the client's form.
#[derive(Clone, Debug, PartialEq, Eq)]
pub struct EthersLog {
    pub address: EthersAddress,
    pub topics: Vec<EthersH256>,
    pub data: Vec<u8>,
    pub block_hash: Option<EthersH256>,
    pub block_number: Option<EthersU64>,
    pub transaction_hash: Option<EthersH256>,
    pub transaction_index: Option<EthersU64>,
    pub log_index: Option<EthersU256>,
    pub transaction_log_index: Option<EthersU256>,
    pub log_type: Option<String>,
    pub removed: Option<bool>,
}

/// Whether the positions of a log fit the client's 64 bits.
pub open spec fn log_fits(log: Log) -> bool {
    opt_fits_u64(log.block_number) && opt_fits_u64(log.transaction_index)
}

/// Whether every log of a sequence fits the client's form.
pub open spec fn logs_fit(logs: Seq<Log>) -> bool {
    forall|i: int| 0 <= i < logs.len() ==> log_fits(#[trigger] logs[i])
}

/// Whether a log of the node and one of the client say the same in every
/// field that both have.
pub open spec fn same_log(log: Log, ethers: EthersLog) -> bool {
    &&& ethers.address@ == log.address@
    &&& ethers_hash_seq(ethers.topics@) == hash_seq(log.topics@)
    &&& ethers.data@ == log.data@
    &&& opt_ethers_hash_bytes(ethers.block_hash) == opt_hash_bytes(log.block_hash)
    &&& opt_ethers_u64_value(ethers.block_number) == opt_value(log.block_number)
    &&& opt_ethers_hash_bytes(ethers.transaction_hash) == opt_hash_bytes(log.transaction_hash)
    &&& opt_ethers_u64_value(ethers.transaction_index) == opt_value(log.transaction_index)
    &&& opt_ethers_value(ethers.log_index) == opt_value(log.log_index)
}

/// Whether a log of the client is what the conversion of a log of the node
/// gives: the same in every field that both have, with the flag set, and
/// without the two fields that the node does not keep.
pub open spec fn is_log_to_ethers(log: Log, ethers: EthersLog) -> bool {
    &&& same_log(log, ethers)
    &&& ethers.removed == Some(log.removed)
    &&& ethers.transaction_log_index is None
    &&& ethers.log_type is None
}

/// Whether a list of logs of the client is what the conversion of a list of
/// the node gives, log by log.
pub open spec fn same_logs(logs: Seq<Log>, ethers: Seq<EthersLog>) -> bool {
    &&& ethers.len() == logs.len()
    &&& forall|i: int| 0 <= i < logs.len() ==> is_log_to_ethers(#[trigger] logs[i], ethers[i])
}

/// Converts a log of the node to the client's form.
///
/// The block number and the transaction index are narrowed to 64 bits; a log
/// in which one of them does not fit is an overflow. Absent fields stay
/// absent. The node keeps no index of the log within its transaction and no
/// log type, so both are absent in the result.
pub fn reth_rpc_log_to_ethers(log: Log) -> (r: Result<EthersLog, ConvertError>)
    ensures
        log_fits(log) ==> r is Ok,
        !log_fits(log) ==> r == Err::<EthersLog, ConvertError>(ConvertError::Overflow),
        r is Ok ==> is_log_to_ethers(log, r->Ok_0),
{
    log_to_ethers(&log)
}

/// Converts a log of the node to the client's form, as
/// [`reth_rpc_log_to_ethers`] does, without taking the log.
pub fn log_to_ethers(log: &Log) -> (r: Result<EthersLog, ConvertError>)
    ensures
        log_fits(*log) ==> r is Ok,
        !log_fits(*log) ==> r == Err::<EthersLog, ConvertError>(ConvertError::Overflow),
        r is Ok ==> is_log_to_ethers(*log, r->Ok_0),
{
    let block_number = match opt_u256_to_ethers_u64(log.block_number) {
        Ok(n) => n,
        Err(e) => {
            return Err(e);
        },
    };
    let transaction_index = match opt_u256_to_ethers_u64(log.transaction_index) {
        Ok(n) => n,
        Err(e) => {
            return Err(e);
        },
    };
    Ok(
        EthersLog {
            address: log.address.to_ethers(),
            topics: hashes_to_ethers(&log.topics),
            data: copy_bytes(&log.data),
            block_hash: opt_hash_to_ethers(log.block_hash),
            block_number,
            transaction_hash: opt_hash_to_ethers(log.transaction_hash),
            transaction_index,
            log_index: opt_u256_to_ethers(log.log_index),
            transaction_log_index: None,
            log_type: None,
            removed: Some(log.removed),
        },
    )
}

/// Converts a log of the client to the node's form.
///
/// Every field that the node has is copied, the 64-bit positions widened. A
/// log that does not say whether it was removed counts as not removed. The
/// index within the transaction and the log type have no place in the node's
/// form.
pub fn ethers_log_to_reth(log: &EthersLog) -> (r: Log)
    ensures
        same_log(r, *log),
        r.removed == (log.removed == Some(true)),
{
    let removed = match log.removed {
        Some(flag) => flag,
        None => false,
    };
    Log {
        address: log.address.to_reth(),
        topics: hashes_to_reth(&log.topics),
        data: copy_bytes(&log.data),
        block_hash: opt_hash_to_reth(log.block_hash),
        block_number: opt_ethers_u64_to_u256(log.block_number),
        transaction_hash: opt_hash_to_reth(log.transaction_hash),
        transaction_index: opt_ethers_u64_to_u256(log.transaction_index),
        log_index: opt_ethers_u256_to_reth(log.log_index),
        removed,
    }
}

/// Converts a list of logs to the client's form, in order. One log that does
/// not fit fails the whole list.
pub fn logs_to_ethers(logs: &Vec<Log>) -> (r: Result<Vec<EthersLog>, ConvertError>)
    ensures
        logs_fit(logs@) ==> r is Ok,
        !logs_fit(logs@) ==> r == Err::<Vec<EthersLog>, ConvertError>(ConvertError::Overflow),
        r is Ok ==> same_logs(logs@, r->Ok_0@),
{
    let mut out: Vec<EthersLog> = Vec::new();
    let mut i: usize = 0;
    while i < logs.len()
        invariant
            i <= logs.len(),
            out@.len() == i,
            forall|j: int| 0 <= j < i ==> log_fits(#[trigger] logs@[j]),
            forall|j: int| 0 <= j < i ==> is_log_to_ethers(#[trigger] logs@[j], out@[j]),
        decreases logs.len() - i,
    {
        match log_to_ethers(&logs[i]) {
            Ok(converted) => {
                out.push(converted);
            },
            Err(e) => {
                assert(!log_fits(logs@[i as int]));
                return Err(e);
            },
        }
        i += 1;
    }
    Ok(out)
}

/// Converts a list of logs to the node's form, in order.
pub fn logs_to_reth(logs: &Vec<EthersLog>) -> (r: Vec<Log>)
    ensures
        r@.len() == logs@.len(),
        forall|i: int|
            0 <= i < logs@.len() ==> same_log(#[trigger] r@[i], logs@[i]) && r@[i].removed == (
            logs@[i].removed == Some(true)),
{
    let mut out: Vec<Log> = Vec::new();
    let mut i: usize = 0;
    while i < logs.len()
        invariant
            i <= logs.len(),
            out@.len() == i,
            forall|j: int|
                0 <= j < i ==> same_log(#[trigger] out@[j], logs@[j]) && out@[j].removed == (
                logs@[j].removed == Some(true)),
        decreases logs.len() - i,
    {
        out.push(ethers_log_to_reth(&logs[i]));
        i += 1;
    }
    out
}

/// A log taken to the client's form and back says what it said: the flag that
/// tells whether it was removed, its topics and their number, and every other
/// field.
pub proof fn lemma_log_round_trip(start: Log, there: EthersLog, back: Log)
    requires
        same_log(start, there),
        there.removed == Some(start.removed),
        same_log(back, there),
        back.removed == (there.removed == Some(true)),
    ensures
        back.removed == start.removed,
        hash_seq(back.topics@) == hash_seq(start.topics@),
        back.topics@.len() == start.topics@.len(),
        back.address@ == start.address@,
        back.data@ == start.data@,
        opt_hash_bytes(back.block_hash) == opt_hash_bytes(start.block_hash),
        opt_value(back.block_number) == opt_value(start.block_number),
        opt_hash_bytes(back.transaction_hash) == opt_hash_bytes(start.transaction_hash),
        opt_value(back.transaction_index) == opt_value(start.transaction_index),
        opt_value(back.log_index) == opt_value(start.log_index),
{
    assert(hash_seq(back.topics@).len() == back.topics@.len());
    assert(hash_seq(start.topics@).len() == start.topics@.len());
}

} // verus!
