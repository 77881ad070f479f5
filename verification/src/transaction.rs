//! Transactions as the node reports them, and the requests that a client
//! submits for a call.

use vstd::prelude::*;
use crate::access_list::{
    access_items_to_reth, ethers_entries, opt_entries, opt_reth_access_list_to_ethers_access_list,
    AccessEntry, AccessList, AccessListItem, EthersAccessList,
};
use crate::error::ConvertError;
use crate::numeric::{
    fits_u128, fits_u64, opt_ethers_u256_to_reth, opt_ethers_u64_to_u256, opt_ethers_u64_to_reth, opt_ethers_u64_value,
    opt_ethers_value, opt_fits_u64, opt_u128_to_ethers_u256, opt_u128_value,
    opt_u256_to_ethers_u64, opt_u64_to_ethers, opt_u64_value, opt_value, EthersU256, EthersU64,
    U128, U256, U64, U8,
};
use crate::primitives::{
    copy_bytes, copy_opt_bytes, opt_address_bytes, opt_address_to_ethers, opt_address_to_reth,
    opt_bytes, opt_ethers_address_bytes, opt_ethers_hash_bytes, opt_hash_bytes,
    opt_hash_to_ethers, opt_hash_to_reth, Address, EthersAddress, EthersH256, H256,
};

verus! {

/// The signature of a transaction, in the node's form.
#[derive(Clone, Copy, Debug, PartialEq, Eq)]
pub struct Signature {
    pub r: U256,
    pub s: U256,
    pub v: U256,
}

/// A transaction in the node's form.
#[derive(Clone, Debug, PartialEq, Eq)]
pub struct Transaction {
    pub hash: H256,
    pub nonce: U256,
    pub block_hash: Option<H256>,
    pub block_number: Option<U256>,
    pub transaction_index: Option<U256>,
    pub from: Address,
    pub to: Option<Address>,
    pub value: U256,
    pub gas_price: Option<U128>,
    pub gas: U256,
    pub max_fee_per_gas: Option<U128>,
    pub max_priority_fee_per_gas: Option<U128>,
    pub input: Vec<u8>,
    pub signature: Option<Signature>,
    pub chain_id: Option<U64>,
    pub access_list: Option<Vec<AccessListItem>>,
    pub transaction_type: Option<U64>,
}

/// A transaction in the client's form.
#[derive(Clone, Debug, PartialEq, Eq)]
pub struct EthersTransaction {
    pub hash: EthersH256,
    pub nonce: EthersU256,
    pub block_hash: Option<EthersH256>,
    pub block_number: Option<EthersU64>,
    pub transaction_index: Option<EthersU64>,
    pub from: EthersAddress,
    pub to: Option<EthersAddress>,
    pub value: EthersU256,
    pub gas_price: Option<EthersU256>,
    pub gas: EthersU256,
    pub input: Vec<u8>,
    pub v: EthersU64,
    pub r: EthersU256,
    pub s: EthersU256,
    pub transaction_type: Option<EthersU64>,
    pub access_list: Option<EthersAccessList>,
    pub max_priority_fee_per_gas: Option<EthersU256>,
    pub max_fee_per_gas: Option<EthersU256>,
    pub chain_id: Option<EthersU256>,
}

/// Whether the positions of a transaction and the `v` of its signature fit
/// the client's 64 bits.
pub open spec fn transaction_fits(tx: Transaction) -> bool {
    &&& opt_fits_u64(tx.block_number)
    &&& opt_fits_u64(tx.transaction_index)
    &&& tx.signature is Some ==> fits_u64(tx.signature->0.v@)
}

/// The `v`, `r` and `s` that the client's form shows for a signature: those
/// of the signature, and three zeros for a transaction without one.
pub open spec fn signature_parts(signature: Option<Signature>) -> (nat, nat, nat) {
    match signature {
        None => (0, 0, 0),
        Some(sig) => (sig.v@, sig.r@, sig.s@),
    }
}

/// Whether a transaction of the client says what one of the node says, in
/// every field but the access list.
pub open spec fn same_transaction(tx: Transaction, ethers: EthersTransaction) -> bool {
    &&& ethers.hash@ == tx.hash@
    &&& ethers.nonce@ == tx.nonce@
    &&& opt_ethers_hash_bytes(ethers.block_hash) == opt_hash_bytes(tx.block_hash)
    &&& opt_ethers_u64_value(ethers.block_number) == opt_value(tx.block_number)
    &&& opt_ethers_u64_value(ethers.transaction_index) == opt_value(tx.transaction_index)
    &&& ethers.from@ == tx.from@
    &&& opt_ethers_address_bytes(ethers.to) == opt_address_bytes(tx.to)
    &&& ethers.value@ == tx.value@
    &&& opt_ethers_value(ethers.gas_price) == opt_u128_value(tx.gas_price)
    &&& ethers.gas@ == tx.gas@
    &&& ethers.input@ == tx.input@
    &&& (ethers.v@, ethers.r@, ethers.s@) == signature_parts(tx.signature)
    &&& opt_ethers_u64_value(ethers.transaction_type) == opt_u64_value(tx.transaction_type)
    &&& opt_ethers_value(ethers.max_priority_fee_per_gas) == opt_u128_value(
        tx.max_priority_fee_per_gas,
    )
    &&& opt_ethers_value(ethers.max_fee_per_gas) == opt_u128_value(tx.max_fee_per_gas)
    &&& opt_ethers_value(ethers.chain_id) == opt_u64_value(tx.chain_id)
}

/// The entries of an optional access list of the client: an absent list has
/// none.
pub open spec fn opt_ethers_entries(list: Option<EthersAccessList>) -> Seq<AccessEntry> {
    match list {
        None => Seq::empty(),
        Some(l) => l@,
    }
}

/// Whether an optional price is absent or fits 128 bits.
pub open spec fn opt_fits_u128(x: Option<EthersU256>) -> bool {
    match x {
        None => true,
        Some(q) => fits_u128(q@),
    }
}

/// Whether the prices of a transaction of the client fit the node's 128 bits
/// and its chain id the node's 64 bits.
pub open spec fn ethers_transaction_fits(tx: EthersTransaction) -> bool {
    &&& opt_fits_u128(tx.gas_price)
    &&& opt_fits_u128(tx.max_fee_per_gas)
    &&& opt_fits_u128(tx.max_priority_fee_per_gas)
    &&& tx.chain_id is Some ==> fits_u64(tx.chain_id->0@)
}

/// Converts a transaction of the node to the client's form.
///
/// The block number, the transaction index and the `v` of the signature are
/// narrowed to 64 bits; a transaction in which one of them does not fit is an
/// overflow. Absent fields stay absent, with two exceptions that the client's
/// form asks for: a transaction without a signature shows zero for `v`, `r`
/// and `s`, and one without an access list shows the empty list.
pub fn reth_rpc_transaction_to_ethers(reth_tx: Transaction) -> (r: Result<
    EthersTransaction,
    ConvertError,
>)
    ensures
        match r {
            Ok(ethers) => {
                &&& transaction_fits(reth_tx)
                &&& same_transaction(reth_tx, ethers)
                &&& ethers.access_list is Some
                &&& ethers.access_list->0@ == opt_entries(reth_tx.access_list)
            },
            Err(e) => !transaction_fits(reth_tx) && e == ConvertError::Overflow,
        },
{
    let block_number = match opt_u256_to_ethers_u64(reth_tx.block_number) {
        Ok(n) => n,
        Err(e) => {
            return Err(e);
        },
    };
    let transaction_index = match opt_u256_to_ethers_u64(reth_tx.transaction_index) {
        Ok(n) => n,
        Err(e) => {
            return Err(e);
        },
    };
    let (v, r, s) = match reth_tx.signature {
        None => (EthersU64 { value: 0 }, EthersU256::from_u64(0), EthersU256::from_u64(0)),
        Some(sig) => match sig.v.to_u64() {
            Ok(value) => (EthersU64 { value }, sig.r.to_ethers(), sig.s.to_ethers()),
            Err(e) => {
                return Err(e);
            },
        },
    };
    let chain_id = match reth_tx.chain_id {
        None => None,
        Some(id) => Some(EthersU256::from_u64(id.value)),
    };
    Ok(
        EthersTransaction {
            hash: reth_tx.hash.to_ethers(),
            nonce: reth_tx.nonce.to_ethers(),
            block_hash: opt_hash_to_ethers(reth_tx.block_hash),
            block_number,
            transaction_index,
            from: reth_tx.from.to_ethers(),
            to: opt_address_to_ethers(reth_tx.to),
            value: reth_tx.value.to_ethers(),
            gas_price: opt_u128_to_ethers_u256(reth_tx.gas_price),
            gas: reth_tx.gas.to_ethers(),
            input: copy_bytes(&reth_tx.input),
            v,
            r,
            s,
            transaction_type: opt_u64_to_ethers(reth_tx.transaction_type),
            access_list: Some(opt_reth_access_list_to_ethers_access_list(reth_tx.access_list)),
            max_priority_fee_per_gas: opt_u128_to_ethers_u256(reth_tx.max_priority_fee_per_gas),
            max_fee_per_gas: opt_u128_to_ethers_u256(reth_tx.max_fee_per_gas),
            chain_id,
        },
    )
}

/// Narrows an optional price to the node's 128 bits: absent stays absent.
pub fn opt_price_to_reth(x: Option<EthersU256>) -> (r: Result<Option<U128>, ConvertError>)
    ensures
        match r {
            Ok(price) => opt_fits_u128(x) && opt_u128_value(price) == opt_ethers_value(x),
            Err(e) => !opt_fits_u128(x) && e == ConvertError::Overflow,
        },
{
    match x {
        None => Ok(None),
        Some(q) => match q.to_reth().to_u128() {
            Ok(value) => Ok(Some(U128 { value })),
            Err(e) => Err(e),
        },
    }
}

/// Converts a transaction of the client to the node's form.
///
/// The prices are narrowed to 128 bits and the chain id to 64; a transaction
/// in which one of them does not fit is an overflow. Absent fields stay
/// absent. A transaction whose `v`, `r` and `s` are all zero is one without a
/// signature, and one whose access list is absent or empty is one without an
/// access list.
pub fn ethers_transaction_to_reth(tx: &EthersTransaction) -> (r: Result<Transaction, ConvertError>)
    ensures
        match r {
            Ok(reth) => {
                &&& ethers_transaction_fits(*tx)
                &&& same_transaction(reth, *tx)
                &&& opt_entries(reth.access_list) == opt_ethers_entries(tx.access_list)
                &&& reth.access_list is None <==> opt_ethers_entries(tx.access_list).len() == 0
                &&& reth.signature is None <==> tx.v@ == 0 && tx.r@ == 0 && tx.s@ == 0
            },
            Err(e) => !ethers_transaction_fits(*tx) && e == ConvertError::Overflow,
        },
{
    let gas_price = match opt_price_to_reth(tx.gas_price) {
        Ok(p) => p,
        Err(e) => {
            return Err(e);
        },
    };
    let max_fee_per_gas = match opt_price_to_reth(tx.max_fee_per_gas) {
        Ok(p) => p,
        Err(e) => {
            return Err(e);
        },
    };
    let max_priority_fee_per_gas = match opt_price_to_reth(tx.max_priority_fee_per_gas) {
        Ok(p) => p,
        Err(e) => {
            return Err(e);
        },
    };
    let chain_id = match tx.chain_id {
        None => None,
        Some(id) => match id.to_u64() {
            Ok(value) => Some(U64 { value }),
            Err(e) => {
                return Err(e);
            },
        },
    };
    let unsigned = tx.v.value == 0 && tx.r.is_zero() && tx.s.is_zero();
    let signature = if unsigned {
        None
    } else {
        Some(Signature { r: tx.r.to_reth(), s: tx.s.to_reth(), v: U256::from_u64(tx.v.value) })
    };
    let access_list = match &tx.access_list {
        None => None,
        Some(list) => {
            if list.0.len() == 0 {
                assert(ethers_entries(list.0@).len() == 0);
                None
            } else {
                let items = access_items_to_reth(&list.0);
                assert(ethers_entries(list.0@).len() == list.0@.len());
                Some(items)
            }
        },
    };
    Ok(
        Transaction {
            hash: tx.hash.to_reth(),
            nonce: tx.nonce.to_reth(),
            block_hash: opt_hash_to_reth(tx.block_hash),
            block_number: opt_ethers_u64_to_u256(tx.block_number),
            transaction_index: opt_ethers_u64_to_u256(tx.transaction_index),
            from: tx.from.to_reth(),
            to: opt_address_to_reth(tx.to),
            value: tx.value.to_reth(),
            gas_price,
            gas: tx.gas.to_reth(),
            max_fee_per_gas,
            max_priority_fee_per_gas,
            input: copy_bytes(&tx.input),
            signature,
            chain_id,
            access_list,
            transaction_type: opt_ethers_u64_to_reth(tx.transaction_type),
        },
    )
}

/// In a transaction taken to the client's form and back, the chain id, the
/// block it is in and each price are absent where they were absent, and say
/// what they said where they were present.
pub proof fn lemma_transaction_round_trip(
    start: Transaction,
    there: EthersTransaction,
    back: Transaction,
)
    requires
        same_transaction(start, there),
        same_transaction(back, there),
    ensures
        opt_u64_value(back.chain_id) == opt_u64_value(start.chain_id),
        opt_hash_bytes(back.block_hash) == opt_hash_bytes(start.block_hash),
        opt_value(back.block_number) == opt_value(start.block_number),
        opt_value(back.transaction_index) == opt_value(start.transaction_index),
        opt_address_bytes(back.to) == opt_address_bytes(start.to),
        opt_u128_value(back.gas_price) == opt_u128_value(start.gas_price),
        opt_u128_value(back.max_fee_per_gas) == opt_u128_value(start.max_fee_per_gas),
        opt_u128_value(back.max_priority_fee_per_gas) == opt_u128_value(
            start.max_priority_fee_per_gas,
        ),
        signature_parts(back.signature) == signature_parts(start.signature),
        back.hash@ == start.hash@,
        back.nonce@ == start.nonce@,
        back.from@ == start.from@,
        back.value@ == start.value@,
        back.gas@ == start.gas@,
        back.input@ == start.input@,
{
}

/// The recipient of a request: an address, or a name that stands for one.
#[derive(Clone, Debug, PartialEq, Eq)]
pub enum EthersNameOrAddress {
    Name(String),
    Address(EthersAddress),
}

/// A request priced by a gas price.
#[derive(Clone, Debug, PartialEq, Eq)]
pub struct EthersTransactionRequest {
    pub from: Option<EthersAddress>,
    pub to: Option<EthersNameOrAddress>,
    pub gas: Option<EthersU256>,
    pub gas_price: Option<EthersU256>,
    pub value: Option<EthersU256>,
    pub data: Option<Vec<u8>>,
    pub nonce: Option<EthersU256>,
    pub chain_id: Option<EthersU64>,
}

/// A request priced by a gas price that declares an access list.
#[derive(Clone, Debug, PartialEq, Eq)]
pub struct EthersEip2930TransactionRequest {
    pub tx: EthersTransactionRequest,
    pub access_list: EthersAccessList,
}

/// A request priced by a fee cap and a priority fee.
#[derive(Clone, Debug, PartialEq, Eq)]
pub struct EthersEip1559TransactionRequest {
    pub from: Option<EthersAddress>,
    pub to: Option<EthersNameOrAddress>,
    pub gas: Option<EthersU256>,
    pub value: Option<EthersU256>,
    pub data: Option<Vec<u8>>,
    pub nonce: Option<EthersU256>,
    pub access_list: EthersAccessList,
    pub max_priority_fee_per_gas: Option<EthersU256>,
    pub max_fee_per_gas: Option<EthersU256>,
    pub chain_id: Option<EthersU64>,
}

/// A request of the client, tagged with its kind.
#[derive(Clone, Debug, PartialEq, Eq)]
pub enum EthersTypedTransaction {
    Legacy(EthersTransactionRequest),
    Eip2930(EthersEip2930TransactionRequest),
    Eip1559(EthersEip1559TransactionRequest),
}

/// A request for a call, in the node's form.
#[derive(Clone, Debug, PartialEq, Eq)]
pub struct CallRequest {
    pub from: Option<Address>,
    pub to: Option<Address>,
    pub gas_price: Option<U256>,
    pub max_fee_per_gas: Option<U256>,
    pub max_priority_fee_per_gas: Option<U256>,
    pub gas: Option<U256>,
    pub value: Option<U256>,
    pub data: Option<Vec<u8>>,
    pub nonce: Option<U256>,
    pub chain_id: Option<U64>,
    pub access_list: Option<AccessList>,
    pub transaction_type: Option<U8>,
}

/// What a call request says, field by field.
pub struct CallFields {
    pub from: Option<Seq<u8>>,
    pub to: Option<Seq<u8>>,
    pub gas_price: Option<nat>,
    pub max_fee_per_gas: Option<nat>,
    pub max_priority_fee_per_gas: Option<nat>,
    pub gas: Option<nat>,
    pub value: Option<nat>,
    pub data: Option<Seq<u8>>,
    pub nonce: Option<nat>,
    pub chain_id: Option<nat>,
    pub access_list: Option<Seq<AccessEntry>>,
    pub transaction_type: Option<nat>,
}

/// The bytes of a recipient that is an address.
pub open spec fn recipient_bytes(to: Option<EthersNameOrAddress>) -> Option<Seq<u8>> {
    match to {
        Some(EthersNameOrAddress::Address(a)) => Some(a@),
        _ => None,
    }
}

/// Whether a recipient is given by name. The node's form has no place for a
/// name.
pub open spec fn recipient_is_name(to: Option<EthersNameOrAddress>) -> bool {
    to is Some && to->0 is Name
}

impl View for CallRequest {
    type V = CallFields;

    open spec fn view(&self) -> CallFields {
        CallFields {
            from: opt_address_bytes(self.from),
            to: opt_address_bytes(self.to),
            gas_price: opt_value(self.gas_price),
            max_fee_per_gas: opt_value(self.max_fee_per_gas),
            max_priority_fee_per_gas: opt_value(self.max_priority_fee_per_gas),
            gas: opt_value(self.gas),
            value: opt_value(self.value),
            data: opt_bytes(self.data),
            nonce: opt_value(self.nonce),
            chain_id: opt_u64_value(self.chain_id),
            access_list: match self.access_list {
                None => None,
                Some(list) => Some(list@),
            },
            transaction_type: match self.transaction_type {
                None => None,
                Some(t) => Some(t@),
            },
        }
    }
}

impl EthersTypedTransaction {
    /// The recipient of the request.
    pub open spec fn recipient(self) -> Option<EthersNameOrAddress> {
        match self {
            EthersTypedTransaction::Legacy(tx) => tx.to,
            EthersTypedTransaction::Eip2930(inner) => inner.tx.to,
            EthersTypedTransaction::Eip1559(tx) => tx.to,
        }
    }

    /// What the request asks for, field by field.
    ///
    /// A request priced by a gas price has no fee cap and no priority fee,
    /// and one priced by those has no gas price. The kinds with an access
    /// list carry their number as the type: 1 and 2. The oldest kind has no
    /// access list and no type.
    pub open spec fn fields(self) -> CallFields {
        match self {
            EthersTypedTransaction::Legacy(tx) => CallFields {
                from: opt_ethers_address_bytes(tx.from),
                to: recipient_bytes(tx.to),
                gas_price: opt_ethers_value(tx.gas_price),
                max_fee_per_gas: None,
                max_priority_fee_per_gas: None,
                gas: opt_ethers_value(tx.gas),
                value: opt_ethers_value(tx.value),
                data: opt_bytes(tx.data),
                nonce: opt_ethers_value(tx.nonce),
                chain_id: opt_ethers_u64_value(tx.chain_id),
                access_list: None,
                transaction_type: None,
            },
            EthersTypedTransaction::Eip2930(inner) => CallFields {
                from: opt_ethers_address_bytes(inner.tx.from),
                to: recipient_bytes(inner.tx.to),
                gas_price: opt_ethers_value(inner.tx.gas_price),
                max_fee_per_gas: None,
                max_priority_fee_per_gas: None,
                gas: opt_ethers_value(inner.tx.gas),
                value: opt_ethers_value(inner.tx.value),
                data: opt_bytes(inner.tx.data),
                nonce: opt_ethers_value(inner.tx.nonce),
                chain_id: opt_ethers_u64_value(inner.tx.chain_id),
                access_list: Some(inner.access_list@),
                transaction_type: Some(1),
            },
            EthersTypedTransaction::Eip1559(tx) => CallFields {
                from: opt_ethers_address_bytes(tx.from),
                to: recipient_bytes(tx.to),
                gas_price: None,
                max_fee_per_gas: opt_ethers_value(tx.max_fee_per_gas),
                max_priority_fee_per_gas: opt_ethers_value(tx.max_priority_fee_per_gas),
                gas: opt_ethers_value(tx.gas),
                value: opt_ethers_value(tx.value),
                data: opt_bytes(tx.data),
                nonce: opt_ethers_value(tx.nonce),
                chain_id: opt_ethers_u64_value(tx.chain_id),
                access_list: Some(tx.access_list@),
                transaction_type: Some(2),
            },
        }
    }
}

/// Converts the recipient of a request. A recipient given by name is
/// rejected.
pub fn convert_recipient(to: &Option<EthersNameOrAddress>) -> (r: Result<
    Option<Address>,
    ConvertError,
>)
    ensures
        match r {
            Ok(addr) => !recipient_is_name(*to) && opt_address_bytes(addr) == recipient_bytes(
                *to,
            ),
            Err(e) => recipient_is_name(*to) && e == ConvertError::UnsupportedVariant,
        },
{
    match to {
        None => Ok(None),
        Some(EthersNameOrAddress::Address(a)) => Ok(Some(a.to_reth())),
        Some(EthersNameOrAddress::Name(_)) => Err(ConvertError::UnsupportedVariant),
    }
}

/// Converts a request of the client to the call request that the node
/// executes.
///
/// It fails, with `UnsupportedVariant`, exactly on a request whose recipient
/// is given by name. Otherwise the result says what
/// [`EthersTypedTransaction::fields`] says of the request: every field that
/// was absent stays absent.
pub fn ethers_typed_transaction_to_reth_call_request(tx: &EthersTypedTransaction) -> (r: Result<
    CallRequest,
    ConvertError,
>)
    ensures
        match r {
            Ok(call) => !recipient_is_name(tx.recipient()) && call@ == tx.fields(),
            Err(e) => recipient_is_name(tx.recipient()) && e == ConvertError::UnsupportedVariant,
        },
{
    match tx {
        EthersTypedTransaction::Legacy(request) => {
            let to = match convert_recipient(&request.to) {
                Ok(to) => to,
                Err(e) => {
                    return Err(e);
                },
            };
            Ok(
                CallRequest {
                    from: opt_address_to_reth(request.from),
                    to,
                    gas_price: opt_ethers_u256_to_reth(request.gas_price),
                    max_fee_per_gas: None,
                    max_priority_fee_per_gas: None,
                    gas: opt_ethers_u256_to_reth(request.gas),
                    value: opt_ethers_u256_to_reth(request.value),
                    data: copy_opt_bytes(&request.data),
                    nonce: opt_ethers_u256_to_reth(request.nonce),
                    chain_id: opt_ethers_u64_to_reth(request.chain_id),
                    access_list: None,
                    transaction_type: None,
                },
            )
        },
        EthersTypedTransaction::Eip2930(inner) => {
            let to = match convert_recipient(&inner.tx.to) {
                Ok(to) => to,
                Err(e) => {
                    return Err(e);
                },
            };
            Ok(
                CallRequest {
                    from: opt_address_to_reth(inner.tx.from),
                    to,
                    gas_price: opt_ethers_u256_to_reth(inner.tx.gas_price),
                    max_fee_per_gas: None,
                    max_priority_fee_per_gas: None,
                    gas: opt_ethers_u256_to_reth(inner.tx.gas),
                    value: opt_ethers_u256_to_reth(inner.tx.value),
                    data: copy_opt_bytes(&inner.tx.data),
                    nonce: opt_ethers_u256_to_reth(inner.tx.nonce),
                    chain_id: opt_ethers_u64_to_reth(inner.tx.chain_id),
                    access_list: Some(AccessList(access_items_to_reth(&inner.access_list.0))),
                    transaction_type: Some(U8 { value: 1 }),
                },
            )
        },
        EthersTypedTransaction::Eip1559(request) => {
            let to = match convert_recipient(&request.to) {
                Ok(to) => to,
                Err(e) => {
                    return Err(e);
                },
            };
            Ok(
                CallRequest {
                    from: opt_address_to_reth(request.from),
                    to,
                    gas_price: None,
                    max_fee_per_gas: opt_ethers_u256_to_reth(request.max_fee_per_gas),
                    max_priority_fee_per_gas: opt_ethers_u256_to_reth(
                        request.max_priority_fee_per_gas,
                    ),
                    gas: opt_ethers_u256_to_reth(request.gas),
                    value: opt_ethers_u256_to_reth(request.value),
                    data: copy_opt_bytes(&request.data),
                    nonce: opt_ethers_u256_to_reth(request.nonce),
                    chain_id: opt_ethers_u64_to_reth(request.chain_id),
                    access_list: Some(AccessList(access_items_to_reth(&request.access_list.0))),
                    transaction_type: Some(U8 { value: 2 }),
                },
            )
        },
    }
}

} // verus!
