//! Block selectors and event filters.

use vstd::prelude::*;
use crate::error::ConvertError;
use crate::numeric::EthersU64;
use crate::primitives::{
    address_seq, addresses_to_ethers, addresses_to_reth, ethers_address_seq,
    opt_ethers_hash_bytes, opt_hash_bytes, opt_hash_to_ethers, opt_hash_to_reth, Address,
    EthersAddress, EthersH256, H256,
};

verus! {

/// A block by number or by name, in the client's form.
#[derive(Clone, Copy, Debug, PartialEq, Eq)]
pub enum EthersBlockNumber {
    Latest,
    Finalized,
    Safe,
    Earliest,
    Pending,
    Number(EthersU64),
}

/// A block by number or by name, in the node's form.
#[derive(Clone, Copy, Debug, PartialEq, Eq)]
pub enum BlockNumberOrTag {
    Latest,
    Finalized,
    Safe,
    Earliest,
    Pending,
    Number(u64),
}

/// A block by hash, by number or by name, in the client's form.
#[derive(Clone, Copy, Debug, PartialEq, Eq)]
pub enum EthersBlockId {
    Hash(EthersH256),
    Number(EthersBlockNumber),
}

/// A block by hash, by number or by name, in the node's form.
#[derive(Clone, Copy, Debug, PartialEq, Eq)]
pub enum BlockId {
    Hash(H256),
    Number(BlockNumberOrTag),
}

/// The blocks that a filter selects, in the client's form.
#[derive(Clone, Copy, Debug, PartialEq, Eq)]
pub enum EthersFilterBlockOption {
    Range { from_block: Option<EthersBlockNumber>, to_block: Option<EthersBlockNumber> },
    AtBlockHash(EthersH256),
}

/// The blocks that a filter selects, in the node's form.
#[derive(Clone, Copy, Debug, PartialEq, Eq)]
pub enum FilterBlockOption {
    Range { from_block: Option<BlockNumberOrTag>, to_block: Option<BlockNumberOrTag> },
    AtBlockHash(H256),
}

/// One value or a set of values, in the client's form.
#[derive(Clone, Debug, PartialEq, Eq)]
pub enum EthersValueOrArray<T> {
    Value(T),
    Array(Vec<T>),
}

/// One value or a set of values, in the node's form.
#[derive(Clone, Debug, PartialEq, Eq)]
pub enum ValueOrArray<T> {
    Value(T),
    Array(Vec<T>),
}

/// A filter of logs, in the client's form. An absent matcher accepts
/// everything at its position.
#[derive(Clone, Debug, PartialEq, Eq)]
pub struct EthersFilter {
    pub block_option: EthersFilterBlockOption,
    pub address: Option<EthersValueOrArray<EthersAddress>>,
    pub topics: [Option<EthersValueOrArray<Option<EthersH256>>>; 4],
}

/// A filter of logs, in the node's form.
#[derive(Clone, Debug, PartialEq, Eq)]
pub struct Filter {
    pub block_option: FilterBlockOption,
    pub address: Option<ValueOrArray<Address>>,
    pub topics: [Option<ValueOrArray<Option<H256>>>; 4],
}

/// The node's form of a block number or name.
pub open spec fn block_number_to_reth(block: EthersBlockNumber) -> BlockNumberOrTag {
    match block {
        EthersBlockNumber::Latest => BlockNumberOrTag::Latest,
        EthersBlockNumber::Finalized => BlockNumberOrTag::Finalized,
        EthersBlockNumber::Safe => BlockNumberOrTag::Safe,
        EthersBlockNumber::Earliest => BlockNumberOrTag::Earliest,
        EthersBlockNumber::Pending => BlockNumberOrTag::Pending,
        EthersBlockNumber::Number(n) => BlockNumberOrTag::Number(n.value),
    }
}

/// The node's form of an optional bound of a range.
pub open spec fn bound_to_reth(bound: Option<EthersBlockNumber>) -> Option<BlockNumberOrTag> {
    match bound {
        None => None,
        Some(block) => Some(block_number_to_reth(block)),
    }
}

/// Whether a block id of the node names the block that one of the client
/// names.
pub open spec fn same_block_id(ethers: EthersBlockId, reth: BlockId) -> bool {
    match ethers {
        EthersBlockId::Hash(h) => reth is Hash && reth->Hash_0@ == h@,
        EthersBlockId::Number(n) => reth == BlockId::Number(block_number_to_reth(n)),
    }
}

/// Whether a block selector of the client is one that the node's form takes
/// over: a block hash, or a range with at least one bound.
pub open spec fn usable_block_option(option: EthersFilterBlockOption) -> bool {
    match option {
        EthersFilterBlockOption::AtBlockHash(_) => true,
        EthersFilterBlockOption::Range { from_block, to_block } => from_block is Some
            || to_block is Some,
    }
}

/// Whether a block selector of the node selects what one of the client
/// selects.
pub open spec fn same_block_option(ethers: EthersFilterBlockOption, reth: FilterBlockOption) -> bool {
    match ethers {
        EthersFilterBlockOption::AtBlockHash(h) => reth is AtBlockHash && reth->AtBlockHash_0@
            == h@,
        EthersFilterBlockOption::Range { from_block, to_block } => reth
            == (FilterBlockOption::Range {
            from_block: bound_to_reth(from_block),
            to_block: bound_to_reth(to_block),
        }),
    }
}

/// Whether an address matcher of the node accepts what one of the client
/// accepts: a single value stays a single value, a set stays a set with the
/// same members in the same order.
pub open spec fn same_address_matcher(
    ethers: EthersValueOrArray<EthersAddress>,
    reth: ValueOrArray<Address>,
) -> bool {
    match ethers {
        EthersValueOrArray::Value(a) => reth is Value && reth->Value_0@ == a@,
        EthersValueOrArray::Array(v) => reth is Array && address_seq(reth->Array_0@)
            == ethers_address_seq(v@),
    }
}

/// The bytes of each hash of a sequence in which a hash may be missing.
pub open spec fn opt_hash_seq(s: Seq<Option<H256>>) -> Seq<Option<Seq<u8>>> {
    Seq::new(s.len(), |i: int| opt_hash_bytes(s[i]))
}

/// The bytes of each hash of a sequence in which a hash may be missing.
pub open spec fn opt_ethers_hash_seq(s: Seq<Option<EthersH256>>) -> Seq<Option<Seq<u8>>> {
    Seq::new(s.len(), |i: int| opt_ethers_hash_bytes(s[i]))
}

/// Whether a topic matcher of the node accepts what one of the client
/// accepts. A missing hash, alone or inside a set, stays missing.
pub open spec fn same_topic(
    ethers: EthersValueOrArray<Option<EthersH256>>,
    reth: ValueOrArray<Option<H256>>,
) -> bool {
    match ethers {
        EthersValueOrArray::Value(h) => reth is Value && opt_hash_bytes(reth->Value_0)
            == opt_ethers_hash_bytes(h),
        EthersValueOrArray::Array(v) => reth is Array && opt_hash_seq(reth->Array_0@)
            == opt_ethers_hash_seq(v@),
    }
}

/// Whether an optional address matcher was carried over: absent stays absent.
pub open spec fn same_opt_address_matcher(
    ethers: Option<EthersValueOrArray<EthersAddress>>,
    reth: Option<ValueOrArray<Address>>,
) -> bool {
    match ethers {
        None => reth is None,
        Some(m) => reth is Some && same_address_matcher(m, reth->0),
    }
}

/// Whether an optional topic matcher was carried over: absent stays absent.
pub open spec fn same_opt_topic(
    ethers: Option<EthersValueOrArray<Option<EthersH256>>>,
    reth: Option<ValueOrArray<Option<H256>>>,
) -> bool {
    match ethers {
        None => reth is None,
        Some(t) => reth is Some && same_topic(t, reth->0),
    }
}

/// Whether each of the four topic positions was carried over.
pub open spec fn same_topics(
    ethers: [Option<EthersValueOrArray<Option<EthersH256>>>; 4],
    reth: [Option<ValueOrArray<Option<H256>>>; 4],
) -> bool {
    forall|i: int| 0 <= i < 4 ==> same_opt_topic(#[trigger] ethers[i], reth[i])
}

/// Converts a block number or name to the node's form.
pub fn convert_block_number_to_block_number_or_tag(block: EthersBlockNumber) -> (r:
    BlockNumberOrTag)
    ensures
        r == block_number_to_reth(block),
{
    match block {
        EthersBlockNumber::Latest => BlockNumberOrTag::Latest,
        EthersBlockNumber::Finalized => BlockNumberOrTag::Finalized,
        EthersBlockNumber::Safe => BlockNumberOrTag::Safe,
        EthersBlockNumber::Earliest => BlockNumberOrTag::Earliest,
        EthersBlockNumber::Pending => BlockNumberOrTag::Pending,
        EthersBlockNumber::Number(n) => BlockNumberOrTag::Number(n.value),
    }
}

/// Converts an optional bound of a range: absent stays absent.
pub fn convert_bound(bound: Option<EthersBlockNumber>) -> (r: Option<BlockNumberOrTag>)
    ensures
        r == bound_to_reth(bound),
{
    match bound {
        None => None,
        Some(block) => Some(convert_block_number_to_block_number_or_tag(block)),
    }
}

/// Converts a block id to the node's form: a hash stays that hash, a number
/// that number and a name that name.
pub fn ethers_block_id_to_reth_block_id(block_id: EthersBlockId) -> (r: BlockId)
    ensures
        same_block_id(block_id, r),
{
    match block_id {
        EthersBlockId::Hash(hash) => BlockId::Hash(hash.to_reth()),
        EthersBlockId::Number(number) => BlockId::Number(
            convert_block_number_to_block_number_or_tag(number),
        ),
    }
}

/// Converts a block selector. A range without any bound is rejected.
pub fn convert_block_option(option: EthersFilterBlockOption) -> (r: Result<
    FilterBlockOption,
    ConvertError,
>)
    ensures
        match r {
            Ok(reth) => usable_block_option(option) && same_block_option(option, reth),
            Err(e) => !usable_block_option(option) && e == ConvertError::InvalidFilterRange,
        },
{
    match option {
        EthersFilterBlockOption::AtBlockHash(hash) => Ok(
            FilterBlockOption::AtBlockHash(hash.to_reth()),
        ),
        EthersFilterBlockOption::Range { from_block, to_block } => {
            if from_block.is_none() && to_block.is_none() {
                Err(ConvertError::InvalidFilterRange)
            } else {
                Ok(
                    FilterBlockOption::Range {
                        from_block: convert_bound(from_block),
                        to_block: convert_bound(to_block),
                    },
                )
            }
        },
    }
}

/// Converts a matcher of hashes that may be missing: a single value stays a
/// single value, a set stays a set, and a missing hash stays missing.
#[allow(non_snake_case)]
pub fn option_convert_valueORarray(val: &EthersValueOrArray<Option<EthersH256>>) -> (r:
    ValueOrArray<Option<H256>>)
    ensures
        same_topic(*val, r),
{
    match val {
        EthersValueOrArray::Value(hash) => ValueOrArray::Value(opt_hash_to_reth(*hash)),
        EthersValueOrArray::Array(hashes) => {
            let mut out: Vec<Option<H256>> = Vec::new();
            let mut i: usize = 0;
            while i < hashes.len()
                invariant
                    i <= hashes.len(),
                    out@.len() == i,
                    forall|j: int|
                        0 <= j < i ==> opt_hash_bytes(#[trigger] out@[j]) == opt_ethers_hash_bytes(
                            hashes@[j],
                        ),
                decreases hashes.len() - i,
            {
                out.push(opt_hash_to_reth(hashes[i]));
                i += 1;
            }
            assert(opt_hash_seq(out@) =~= opt_ethers_hash_seq(hashes@));
            ValueOrArray::Array(out)
        },
    }
}

/// Converts a matcher of addresses: a single value stays a single value, a
/// set stays a set.
#[allow(non_snake_case)]
pub fn convert_valueORarray(val: &EthersValueOrArray<EthersAddress>) -> (r: ValueOrArray<Address>)
    ensures
        same_address_matcher(*val, r),
{
    match val {
        EthersValueOrArray::Value(addr) => ValueOrArray::Value(addr.to_reth()),
        EthersValueOrArray::Array(addrs) => ValueOrArray::Array(addresses_to_reth(addrs)),
    }
}

/// Converts one topic position: absent stays absent.
pub fn convert_topic(topic: &Option<EthersValueOrArray<Option<EthersH256>>>) -> (r: Option<
    ValueOrArray<Option<H256>>,
>)
    ensures
        same_opt_topic(*topic, r),
{
    match topic {
        None => None,
        Some(t) => Some(option_convert_valueORarray(t)),
    }
}

/// Converts the four topic positions, each in its place.
pub fn convert_topics(topics: &[Option<EthersValueOrArray<Option<EthersH256>>>; 4]) -> (r: [Option<
    ValueOrArray<Option<H256>>,
>; 4])
    ensures
        same_topics(*topics, r),
{
    let t0 = convert_topic(&topics[0]);
    let t1 = convert_topic(&topics[1]);
    let t2 = convert_topic(&topics[2]);
    let t3 = convert_topic(&topics[3]);
    [t0, t1, t2, t3]
}

/// Converts a filter to the node's form.
///
/// It fails, with `InvalidFilterRange`, exactly on a filter whose block
/// selector is a range without any bound. Otherwise the selector, the address
/// matcher and the four topic positions are carried over, each in its place.
pub fn ethers_filter_to_reth_filter(filter: &EthersFilter) -> (r: Result<Filter, ConvertError>)
    ensures
        match r {
            Ok(reth) => {
                &&& usable_block_option(filter.block_option)
                &&& same_block_option(filter.block_option, reth.block_option)
                &&& same_opt_address_matcher(filter.address, reth.address)
                &&& same_topics(filter.topics, reth.topics)
            },
            Err(e) => !usable_block_option(filter.block_option) && e
                == ConvertError::InvalidFilterRange,
        },
{
    let block_option = match convert_block_option(filter.block_option) {
        Ok(option) => option,
        Err(e) => {
            return Err(e);
        },
    };
    let address = match &filter.address {
        Some(addr) => Some(convert_valueORarray(addr)),
        None => None,
    };
    Ok(Filter { block_option, address, topics: convert_topics(&filter.topics) })
}

/// Whether a block selector of the node is one that the client's form takes
/// over: a block hash, or a range with at least one bound.
pub open spec fn usable_reth_block_option(option: FilterBlockOption) -> bool {
    match option {
        FilterBlockOption::AtBlockHash(_) => true,
        FilterBlockOption::Range { from_block, to_block } => from_block is Some || to_block is Some,
    }
}

/// Converts a block number or name to the client's form.
pub fn block_number_or_tag_to_ethers(block: BlockNumberOrTag) -> (r: EthersBlockNumber)
    ensures
        block_number_to_reth(r) == block,
{
    match block {
        BlockNumberOrTag::Latest => EthersBlockNumber::Latest,
        BlockNumberOrTag::Finalized => EthersBlockNumber::Finalized,
        BlockNumberOrTag::Safe => EthersBlockNumber::Safe,
        BlockNumberOrTag::Earliest => EthersBlockNumber::Earliest,
        BlockNumberOrTag::Pending => EthersBlockNumber::Pending,
        BlockNumberOrTag::Number(n) => EthersBlockNumber::Number(EthersU64 { value: n }),
    }
}

/// Converts an optional bound of a range to the client's form: absent stays
/// absent.
pub fn bound_to_ethers(bound: Option<BlockNumberOrTag>) -> (r: Option<EthersBlockNumber>)
    ensures
        bound_to_reth(r) == bound,
{
    match bound {
        None => None,
        Some(block) => Some(block_number_or_tag_to_ethers(block)),
    }
}

/// Converts a topic matcher to the client's form: a single value stays a
/// single value, a set stays a set, and a missing hash stays missing.
pub fn topic_to_ethers(topic: &Option<ValueOrArray<Option<H256>>>) -> (r: Option<
    EthersValueOrArray<Option<EthersH256>>,
>)
    ensures
        same_opt_topic(r, *topic),
{
    match topic {
        None => None,
        Some(ValueOrArray::Value(hash)) => Some(
            EthersValueOrArray::Value(opt_hash_to_ethers(*hash)),
        ),
        Some(ValueOrArray::Array(hashes)) => {
            let mut out: Vec<Option<EthersH256>> = Vec::new();
            let mut i: usize = 0;
            while i < hashes.len()
                invariant
                    i <= hashes.len(),
                    out@.len() == i,
                    forall|j: int|
                        0 <= j < i ==> opt_ethers_hash_bytes(#[trigger] out@[j]) == opt_hash_bytes(
                            hashes@[j],
                        ),
                decreases hashes.len() - i,
            {
                out.push(opt_hash_to_ethers(hashes[i]));
                i += 1;
            }
            assert(opt_hash_seq(hashes@) =~= opt_ethers_hash_seq(out@));
            Some(EthersValueOrArray::Array(out))
        },
    }
}

/// Converts a filter to the client's form.
///
/// It fails, with `InvalidFilterRange`, exactly on a filter whose block
/// selector is a range without any bound. Otherwise the selector, the address
/// matcher and the four topic positions are carried over, each in its place.
pub fn reth_filter_to_ethers_filter(filter: &Filter) -> (r: Result<EthersFilter, ConvertError>)
    ensures
        match r {
            Ok(ethers) => {
                &&& usable_reth_block_option(filter.block_option)
                &&& same_block_option(ethers.block_option, filter.block_option)
                &&& same_opt_address_matcher(ethers.address, filter.address)
                &&& same_topics(ethers.topics, filter.topics)
            },
            Err(e) => !usable_reth_block_option(filter.block_option) && e
                == ConvertError::InvalidFilterRange,
        },
{
    let block_option = match filter.block_option {
        FilterBlockOption::AtBlockHash(hash) => EthersFilterBlockOption::AtBlockHash(
            hash.to_ethers(),
        ),
        FilterBlockOption::Range { from_block, to_block } => {
            if from_block.is_none() && to_block.is_none() {
                return Err(ConvertError::InvalidFilterRange);
            }
            EthersFilterBlockOption::Range {
                from_block: bound_to_ethers(from_block),
                to_block: bound_to_ethers(to_block),
            }
        },
    };
    let address = match &filter.address {
        None => None,
        Some(ValueOrArray::Value(addr)) => Some(EthersValueOrArray::Value(addr.to_ethers())),
        Some(ValueOrArray::Array(addrs)) => Some(
            EthersValueOrArray::Array(addresses_to_ethers(addrs)),
        ),
    };
    let t0 = topic_to_ethers(&filter.topics[0]);
    let t1 = topic_to_ethers(&filter.topics[1]);
    let t2 = topic_to_ethers(&filter.topics[2]);
    let t3 = topic_to_ethers(&filter.topics[3]);
    Ok(EthersFilter { block_option, address, topics: [t0, t1, t2, t3] })
}

/// A filter taken to the node's form and back selects the same blocks, and
/// each of its matchers is absent, a single value or a set as it was.
pub proof fn lemma_filter_round_trip(start: EthersFilter, there: Filter, back: EthersFilter)
    requires
        same_block_option(start.block_option, there.block_option),
        same_block_option(back.block_option, there.block_option),
        same_opt_address_matcher(start.address, there.address),
        same_opt_address_matcher(back.address, there.address),
        same_topics(start.topics, there.topics),
        same_topics(back.topics, there.topics),
    ensures
        (back.block_option is AtBlockHash) == (start.block_option is AtBlockHash),
        back.block_option is Range ==> back.block_option == start.block_option,
        (back.address is None) == (start.address is None),
        back.address is Some ==> (back.address->0 is Value) == (start.address->0 is Value),
        forall|i: int|
            0 <= i < 4 ==> ((#[trigger] back.topics[i]) is None) == (start.topics[i] is None),
        forall|i: int|
            0 <= i < 4 && back.topics[i] is Some ==> ((#[trigger] back.topics[i])->0 is Value)
                == (start.topics[i]->0 is Value),
{
    assert forall|i: int| 0 <= i < 4 implies ((#[trigger] back.topics[i]) is None) == (
    start.topics[i] is None) && (back.topics[i] is Some ==> (back.topics[i]->0 is Value) == (
    start.topics[i]->0 is Value)) by {
        assert(same_opt_topic(start.topics[i], there.topics[i]));
        assert(same_opt_topic(back.topics[i], there.topics[i]));
    }
    if back.block_option is Range {
        let f = back.block_option->from_block;
        let g = start.block_option->from_block;
        let t = back.block_option->to_block;
        let u = start.block_option->to_block;
        assert(bound_to_reth(f) == bound_to_reth(g));
        assert(bound_to_reth(t) == bound_to_reth(u));
        lemma_bound_is_determined(f, g);
        lemma_bound_is_determined(t, u);
    }
}

/// A matcher for a single address never becomes a set, and a set never
/// becomes a single address, however many members it has.
pub proof fn lemma_single_stays_single(
    ethers: EthersValueOrArray<EthersAddress>,
    reth: ValueOrArray<Address>,
)
    requires
        same_address_matcher(ethers, reth),
    ensures
        ethers is Value <==> reth is Value,
        ethers is Array <==> reth is Array,
        ethers is Value ==> reth->Value_0@ == ethers->Value_0@,
        ethers is Array ==> reth->Array_0@.len() == ethers->Array_0@.len(),
{
    if ethers is Array {
        assert(address_seq(reth->Array_0@).len() == reth->Array_0@.len());
        assert(ethers_address_seq(ethers->Array_0@).len() == ethers->Array_0@.len());
    }
}

/// Two bounds of the client with the same counterpart in the node's form are
/// the same bound.
pub proof fn lemma_bound_is_determined(a: Option<EthersBlockNumber>, b: Option<EthersBlockNumber>)
    requires
        bound_to_reth(a) == bound_to_reth(b),
    ensures
        a == b,
{
    if a is Some {
        assert(block_number_to_reth(a->0) == block_number_to_reth(b->0));
    }
}

} // verus!
