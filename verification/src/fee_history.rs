//! Fee history: what recent blocks charged and how full they were.

use vstd::prelude::*;
use crate::numeric::{EthersU256, U256};

verus! {

/// The fee history of a range of blocks, in the node's form.
///
/// Each ratio of gas used is held as the 64 bits of its floating-point
/// encoding.
#[derive(Clone, Debug, PartialEq, Eq)]
pub struct FeeHistory {
    pub base_fee_per_gas: Vec<U256>,
    pub gas_used_ratio: Vec<u64>,
    pub oldest_block: U256,
    pub reward: Option<Vec<Vec<U256>>>,
}

/// The fee history of a range of blocks, in the client's form.
///
/// Each ratio of gas used is held as the 64 bits of its floating-point
/// encoding.
#[derive(Clone, Debug, PartialEq, Eq)]
pub struct EthersFeeHistory {
    pub base_fee_per_gas: Vec<EthersU256>,
    pub gas_used_ratio: Vec<u64>,
    pub oldest_block: EthersU256,
    pub reward: Vec<Vec<EthersU256>>,
}

/// The numbers in a list of quantities of the node, in order.
pub open spec fn values(s: Seq<U256>) -> Seq<nat> {
    Seq::new(s.len(), |i: int| s[i]@)
}

/// The numbers in a list of quantities of the client, in order.
pub open spec fn ethers_values(s: Seq<EthersU256>) -> Seq<nat> {
    Seq::new(s.len(), |i: int| s[i]@)
}

/// The numbers in the priority-fee samples of the node, block by block. An
/// absent list of samples has none.
pub open spec fn rewards(reward: Option<Vec<Vec<U256>>>) -> Seq<Seq<nat>> {
    match reward {
        None => Seq::empty(),
        Some(rows) => Seq::new(rows@.len(), |i: int| values(rows@[i]@)),
    }
}

/// The numbers in the priority-fee samples of the client, block by block.
pub open spec fn ethers_rewards(reward: Seq<Vec<EthersU256>>) -> Seq<Seq<nat>> {
    Seq::new(reward.len(), |i: int| ethers_values(reward[i]@))
}

/// Copies a list of quantities to the client's form, in order.
pub fn quantities_to_ethers(items: &Vec<U256>) -> (r: Vec<EthersU256>)
    ensures
        ethers_values(r@) == values(items@),
{
    let mut out: Vec<EthersU256> = Vec::new();
    let mut i: usize = 0;
    while i < items.len()
        invariant
            i <= items.len(),
            out@.len() == i,
            forall|j: int| 0 <= j < i ==> (#[trigger] out@[j])@ == items@[j]@,
        decreases items.len() - i,
    {
        out.push(items[i].to_ethers());
        i += 1;
    }
    assert(ethers_values(out@) =~= values(items@));
    out
}

/// Copies the encoded ratios, in order.
pub fn copy_ratios(ratios: &Vec<u64>) -> (r: Vec<u64>)
    ensures
        r@ == ratios@,
{
    let mut out: Vec<u64> = Vec::new();
    let mut i: usize = 0;
    while i < ratios.len()
        invariant
            i <= ratios.len(),
            out@.len() == i,
            forall|j: int| 0 <= j < i ==> out@[j] == ratios@[j],
        decreases ratios.len() - i,
    {
        out.push(ratios[i]);
        i += 1;
    }
    assert(out@ =~= ratios@);
    out
}

/// Converts a fee history to the client's form: the same base fees, ratios
/// and oldest block, and the same priority-fee samples, block by block. A
/// history without samples gives an empty list of them.
pub fn reth_fee_history_to_ethers(fee_history: FeeHistory) -> (r: EthersFeeHistory)
    ensures
        ethers_values(r.base_fee_per_gas@) == values(fee_history.base_fee_per_gas@),
        r.gas_used_ratio@ == fee_history.gas_used_ratio@,
        r.oldest_block@ == fee_history.oldest_block@,
        ethers_rewards(r.reward@) == rewards(fee_history.reward),
{
    let mut reward: Vec<Vec<EthersU256>> = Vec::new();
    match &fee_history.reward {
        None => {
            assert(ethers_rewards(reward@) =~= rewards(fee_history.reward));
        },
        Some(rows) => {
            let mut i: usize = 0;
            while i < rows.len()
                invariant
                    i <= rows.len(),
                    reward@.len() == i,
                    forall|j: int|
                        0 <= j < i ==> ethers_values((#[trigger] reward@[j])@) == values(
                            rows@[j]@,
                        ),
                decreases rows.len() - i,
            {
                reward.push(quantities_to_ethers(&rows[i]));
                i += 1;
            }
            assert(ethers_rewards(reward@) =~= rewards(fee_history.reward));
        },
    }
    EthersFeeHistory {
        base_fee_per_gas: quantities_to_ethers(&fee_history.base_fee_per_gas),
        gas_used_ratio: copy_ratios(&fee_history.gas_used_ratio),
        oldest_block: fee_history.oldest_block.to_ethers(),
        reward,
    }
}

} // verus!
