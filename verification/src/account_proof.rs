//! Account proofs and storage keys.

use vstd::prelude::*;
use crate::numeric::{be_bytes, EthersU256, EthersU64, U256, U64};
use crate::primitives::{copy_bytes, Address, EthersAddress, EthersH256, H256};

verus! {

/// The key of a storage slot as the node prints it: 32 bytes, most
/// significant first.
#[derive(Clone, Copy, Debug, PartialEq, Eq)]
pub struct JsonStorageKey(pub H256);

impl View for JsonStorageKey {
    type V = Seq<u8>;

    open spec fn view(&self) -> Seq<u8> {
        self.0@
    }
}

/// What the proof of one storage slot says, in either form. The key is given
/// by its 32 bytes.
pub struct SlotProof {
    pub key: Seq<u8>,
    pub value: nat,
    pub proof: Seq<Seq<u8>>,
}

/// What an account proof says, in either form.
pub struct AccountProof {
    pub address: Seq<u8>,
    pub balance: nat,
    pub code_hash: Seq<u8>,
    pub nonce: nat,
    pub storage_hash: Seq<u8>,
    pub account_proof: Seq<Seq<u8>>,
    pub storage_proof: Seq<SlotProof>,
}

/// The proof of one storage slot, in the node's form.
#[derive(Clone, Debug, PartialEq, Eq)]
pub struct StorageProof {
    pub key: JsonStorageKey,
    pub value: U256,
    pub proof: Vec<Vec<u8>>,
}

/// The proof of one storage slot, in the client's form. The key is the
/// number that the 32 bytes of the slot's key spell, most significant first.
#[derive(Clone, Debug, PartialEq, Eq)]
pub struct EthersStorageProof {
    pub key: EthersU256,
    pub proof: Vec<Vec<u8>>,
    pub value: EthersU256,
}

/// An account proof, in the node's form.
#[derive(Clone, Debug, PartialEq, Eq)]
pub struct EIP1186AccountProofResponse {
    pub address: Address,
    pub balance: U256,
    pub code_hash: H256,
    pub nonce: U64,
    pub storage_hash: H256,
    pub account_proof: Vec<Vec<u8>>,
    pub storage_proof: Vec<StorageProof>,
}

/// An account proof, in the client's form.
#[derive(Clone, Debug, PartialEq, Eq)]
pub struct EthersEIP1186ProofResponse {
    pub address: EthersAddress,
    pub balance: EthersU256,
    pub code_hash: EthersH256,
    pub nonce: EthersU64,
    pub storage_hash: EthersH256,
    pub account_proof: Vec<Vec<u8>>,
    pub storage_proof: Vec<EthersStorageProof>,
}

/// The bytes of each node of a proof, in order.
pub open spec fn nodes(proof: Seq<Vec<u8>>) -> Seq<Seq<u8>> {
    Seq::new(proof.len(), |i: int| proof[i]@)
}

impl View for StorageProof {
    type V = SlotProof;

    open spec fn view(&self) -> SlotProof {
        SlotProof { key: self.key@, value: self.value@, proof: nodes(self.proof@) }
    }
}

impl View for EthersStorageProof {
    type V = SlotProof;

    open spec fn view(&self) -> SlotProof {
        SlotProof { key: be_bytes(self.key@), value: self.value@, proof: nodes(self.proof@) }
    }
}

/// What each storage proof of a list says, in order.
pub open spec fn slot_proofs(proofs: Seq<StorageProof>) -> Seq<SlotProof> {
    Seq::new(proofs.len(), |i: int| proofs[i]@)
}

/// What each storage proof of a list says, in order.
pub open spec fn ethers_slot_proofs(proofs: Seq<EthersStorageProof>) -> Seq<SlotProof> {
    Seq::new(proofs.len(), |i: int| proofs[i]@)
}

impl View for EIP1186AccountProofResponse {
    type V = AccountProof;

    open spec fn view(&self) -> AccountProof {
        AccountProof {
            address: self.address@,
            balance: self.balance@,
            code_hash: self.code_hash@,
            nonce: self.nonce@,
            storage_hash: self.storage_hash@,
            account_proof: nodes(self.account_proof@),
            storage_proof: slot_proofs(self.storage_proof@),
        }
    }
}

impl View for EthersEIP1186ProofResponse {
    type V = AccountProof;

    open spec fn view(&self) -> AccountProof {
        AccountProof {
            address: self.address@,
            balance: self.balance@,
            code_hash: self.code_hash@,
            nonce: self.nonce@,
            storage_hash: self.storage_hash@,
            account_proof: nodes(self.account_proof@),
            storage_proof: ethers_slot_proofs(self.storage_proof@),
        }
    }
}

/// Copies the nodes of a proof, in order.
pub fn copy_nodes(proof: &Vec<Vec<u8>>) -> (r: Vec<Vec<u8>>)
    ensures
        nodes(r@) == nodes(proof@),
{
    let mut out: Vec<Vec<u8>> = Vec::new();
    let mut i: usize = 0;
    while i < proof.len()
        invariant
            i <= proof.len(),
            out@.len() == i,
            forall|j: int| 0 <= j < i ==> (#[trigger] out@[j])@ == proof@[j]@,
        decreases proof.len() - i,
    {
        out.push(copy_bytes(&proof[i]));
        i += 1;
    }
    assert(nodes(out@) =~= nodes(proof@));
    out
}

/// Converts the proofs of storage slots to the client's form, in order.
pub fn storage_proofs_to_ethers(proofs: &Vec<StorageProof>) -> (r: Vec<EthersStorageProof>)
    ensures
        ethers_slot_proofs(r@) == slot_proofs(proofs@),
{
    let mut out: Vec<EthersStorageProof> = Vec::new();
    let mut i: usize = 0;
    while i < proofs.len()
        invariant
            i <= proofs.len(),
            out@.len() == i,
            forall|j: int| 0 <= j < i ==> (#[trigger] out@[j])@ == proofs@[j]@,
        decreases proofs.len() - i,
    {
        let slot = &proofs[i];
        out.push(
            EthersStorageProof {
                key: EthersU256::from_big_endian(slot.key.0.bytes),
                proof: copy_nodes(&slot.proof),
                value: slot.value.to_ethers(),
            },
        );
        i += 1;
    }
    assert(ethers_slot_proofs(out@) =~= slot_proofs(proofs@));
    out
}

/// Converts an account proof to the client's form: the same account fields,
/// the same proof nodes, and for each storage slot the same key, value and
/// nodes, all in order. The key of a slot becomes the number that its bytes
/// spell.
pub fn reth_proof_to_ethers(proof: EIP1186AccountProofResponse) -> (r: EthersEIP1186ProofResponse)
    ensures
        r@ == proof@,
{
    EthersEIP1186ProofResponse {
        address: proof.address.to_ethers(),
        balance: proof.balance.to_ethers(),
        code_hash: proof.code_hash.to_ethers(),
        nonce: EthersU64 { value: proof.nonce.value },
        storage_hash: proof.storage_hash.to_ethers(),
        account_proof: copy_nodes(&proof.account_proof),
        storage_proof: storage_proofs_to_ethers(&proof.storage_proof),
    }
}

/// Converts the location of a storage slot to the key that the node prints.
///
/// The location is read as a 256-bit number, most significant byte first,
/// and the key is that number written out the same way: the same 32 bytes.
pub fn convert_location_to_json_key(location: EthersH256) -> (r: JsonStorageKey)
    ensures
        r@ == location@,
{
    let number = U256::from_be_bytes(location.bytes);
    JsonStorageKey(H256 { bytes: number.to_be_bytes() })
}

} // verus!
