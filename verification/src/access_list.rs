//! Access lists: the accounts and storage slots that a transaction declares
//! it will touch.

use vstd::prelude::*;
use crate::numeric::{EthersU256, U256};
use crate::primitives::{
    ethers_hash_seq, hash_seq, hashes_to_ethers, hashes_to_reth, Address, EthersAddress,
    EthersH256, H256,
};

verus! {

/// What an entry of an access list says, in either form: an address and the
/// storage keys under it, in order.
pub struct AccessEntry {
    pub address: Seq<u8>,
    pub storage_keys: Seq<Seq<u8>>,
}

/// An entry of an access list, in the node's form.
#[derive(Clone, Debug, PartialEq, Eq)]
pub struct AccessListItem {
    pub address: Address,
    pub storage_keys: Vec<H256>,
}

/// An access list, in the node's form.
#[derive(Clone, Debug, PartialEq, Eq)]
pub struct AccessList(pub Vec<AccessListItem>);

/// An access list with the gas that it was measured to use, in the node's form.
#[derive(Clone, Debug, PartialEq, Eq)]
pub struct AccessListWithGasUsed {
    pub access_list: AccessList,
    pub gas_used: U256,
}

/// An entry of an access list, in the client's form.
#[derive(Clone, Debug, PartialEq, Eq)]
pub struct EthersAccessListItem {
    pub address: EthersAddress,
    pub storage_keys: Vec<EthersH256>,
}

/// An access list, in the client's form.
#[derive(Clone, Debug, PartialEq, Eq)]
pub struct EthersAccessList(pub Vec<EthersAccessListItem>);

/// An access list with the gas that it was measured to use, in the client's
/// form.
#[derive(Clone, Debug, PartialEq, Eq)]
pub struct EthersAccessListWithGasUsed {
    pub access_list: EthersAccessList,
    pub gas_used: EthersU256,
}

impl View for AccessListItem {
    type V = AccessEntry;

    open spec fn view(&self) -> AccessEntry {
        AccessEntry { address: self.address@, storage_keys: hash_seq(self.storage_keys@) }
    }
}

impl View for EthersAccessListItem {
    type V = AccessEntry;

    open spec fn view(&self) -> AccessEntry {
        AccessEntry { address: self.address@, storage_keys: ethers_hash_seq(self.storage_keys@) }
    }
}

/// The entries of a list in the node's form, in order.
pub open spec fn entries(items: Seq<AccessListItem>) -> Seq<AccessEntry> {
    Seq::new(items.len(), |i: int| items[i]@)
}

/// The entries of a list in the client's form, in order.
pub open spec fn ethers_entries(items: Seq<EthersAccessListItem>) -> Seq<AccessEntry> {
    Seq::new(items.len(), |i: int| items[i]@)
}

/// The entries of an optional list in the node's form: an absent list has
/// none.
pub open spec fn opt_entries(items: Option<Vec<AccessListItem>>) -> Seq<AccessEntry> {
    match items {
        None => Seq::empty(),
        Some(v) => entries(v@),
    }
}

impl View for AccessList {
    type V = Seq<AccessEntry>;

    open spec fn view(&self) -> Seq<AccessEntry> {
        entries(self.0@)
    }
}

impl View for EthersAccessList {
    type V = Seq<AccessEntry>;

    open spec fn view(&self) -> Seq<AccessEntry> {
        ethers_entries(self.0@)
    }
}

/// Copies the entries of a list to the client's form.
pub fn access_items_to_ethers(items: &Vec<AccessListItem>) -> (r: Vec<EthersAccessListItem>)
    ensures
        ethers_entries(r@) == entries(items@),
{
    let mut out: Vec<EthersAccessListItem> = Vec::new();
    let mut i: usize = 0;
    while i < items.len()
        invariant
            i <= items.len(),
            out@.len() == i,
            forall|j: int| 0 <= j < i ==> (#[trigger] out@[j])@ == items@[j]@,
        decreases items.len() - i,
    {
        let item = &items[i];
        out.push(
            EthersAccessListItem {
                address: item.address.to_ethers(),
                storage_keys: hashes_to_ethers(&item.storage_keys),
            },
        );
        i += 1;
    }
    assert(ethers_entries(out@) =~= entries(items@));
    out
}

/// Copies the entries of a list to the node's form.
pub fn access_items_to_reth(items: &Vec<EthersAccessListItem>) -> (r: Vec<AccessListItem>)
    ensures
        entries(r@) == ethers_entries(items@),
{
    let mut out: Vec<AccessListItem> = Vec::new();
    let mut i: usize = 0;
    while i < items.len()
        invariant
            i <= items.len(),
            out@.len() == i,
            forall|j: int| 0 <= j < i ==> (#[trigger] out@[j])@ == items@[j]@,
        decreases items.len() - i,
    {
        let item = &items[i];
        out.push(
            AccessListItem {
                address: item.address.to_reth(),
                storage_keys: hashes_to_reth(&item.storage_keys),
            },
        );
        i += 1;
    }
    assert(entries(out@) =~= ethers_entries(items@));
    out
}

/// Converts an access list of the client to the node's form: the same
/// entries, in the same order.
pub fn ethers_access_list_to_reth_access_list(access_list: EthersAccessList) -> (r: AccessList)
    ensures
        r@ == access_list@,
{
    AccessList(access_items_to_reth(&access_list.0))
}

/// Converts an access list of the node to the client's form: the same
/// entries, in the same order.
pub fn reth_access_list_to_ethers_access_list(access_list: AccessList) -> (r: EthersAccessList)
    ensures
        r@ == access_list@,
{
    EthersAccessList(access_items_to_ethers(&access_list.0))
}

/// Converts an optional list of entries of the node to an access list of the
/// client. An absent list gives the empty access list.
pub fn opt_reth_access_list_to_ethers_access_list(
    opt_access_list: Option<Vec<AccessListItem>>,
) -> (r: EthersAccessList)
    ensures
        r@ == opt_entries(opt_access_list),
        opt_access_list is None ==> r.0@.len() == 0,
{
    match opt_access_list {
        None => {
            let r = EthersAccessList(Vec::new());
            assert(r@ =~= Seq::<AccessEntry>::empty());
            r
        },
        Some(items) => EthersAccessList(access_items_to_ethers(&items)),
    }
}

/// Converts an access list with its gas to the client's form: the same
/// entries and the same amount of gas.
pub fn reth_access_list_with_gas_used_to_ethers(
    access_list_with_gas_used: AccessListWithGasUsed,
) -> (r: EthersAccessListWithGasUsed)
    ensures
        r.access_list@ == access_list_with_gas_used.access_list@,
        r.gas_used@ == access_list_with_gas_used.gas_used@,
{
    EthersAccessListWithGasUsed {
        access_list: EthersAccessList(
            access_items_to_ethers(&access_list_with_gas_used.access_list.0),
        ),
        gas_used: access_list_with_gas_used.gas_used.to_ethers(),
    }
}

/// An access list taken to the client's form and back holds the entries it
/// held, in the same order, and so does one taken the other way round.
pub proof fn lemma_access_list_round_trip(
    start: AccessList,
    there: EthersAccessList,
    back: AccessList,
)
    requires
        there@ == start@,
        back@ == there@,
    ensures
        back@ == start@,
        back.0@.len() == start.0@.len(),
{
    assert(entries(back.0@).len() == back.0@.len());
    assert(entries(start.0@).len() == start.0@.len());
}

} // verus!
