//! Addresses, hashes and bloom filters: byte strings of a fixed length that
//! are the same bytes in the node's form and in the client's.

use vstd::prelude::*;
use crate::error::ConvertError;

verus! {

/// An account address of the node: 20 bytes.
#[derive(Clone, Copy, Debug, PartialEq, Eq)]
pub struct Address {
    pub bytes: [u8; 20],
}

impl View for Address {
    type V = Seq<u8>;

    open spec fn view(&self) -> Seq<u8> {
        self.bytes@
    }
}

impl Address {
    /// Reads 20 bytes; a slice of another length is rejected.
    pub fn from_slice(bytes: &[u8]) -> (r: Result<Address, ConvertError>)
        ensures
            bytes@.len() == 20 ==> r is Ok && r->Ok_0@ == bytes@,
            bytes@.len() != 20 ==> r == Err::<Address, ConvertError>(ConvertError::InvalidLength),
    {
        if bytes.len() != 20 {
            return Err(ConvertError::InvalidLength);
        }
        let out = Address { bytes: [bytes[0], bytes[1], bytes[2], bytes[3], bytes[4], bytes[5], bytes[6], bytes[7], bytes[8], bytes[9], bytes[10], bytes[11], bytes[12], bytes[13], bytes[14], bytes[15], bytes[16], bytes[17], bytes[18], bytes[19]] };
        assert(out@ =~= bytes@);
        Ok(out)
    }

    /// The same bytes in the client's form.
    pub fn to_ethers(&self) -> (r: EthersAddress)
        ensures
            r == address_to_ethers(*self),
            r@ == self@,
    {
        EthersAddress { bytes: self.bytes }
    }
}

/// The client's value with the bytes of `x`.
pub open spec fn address_to_ethers(x: Address) -> EthersAddress {
    EthersAddress { bytes: x.bytes }
}

/// An account address of the client: 20 bytes.
#[derive(Clone, Copy, Debug, PartialEq, Eq)]
pub struct EthersAddress {
    pub bytes: [u8; 20],
}

impl View for EthersAddress {
    type V = Seq<u8>;

    open spec fn view(&self) -> Seq<u8> {
        self.bytes@
    }
}

impl EthersAddress {
    /// Reads 20 bytes; a slice of another length is rejected.
    pub fn from_slice(bytes: &[u8]) -> (r: Result<EthersAddress, ConvertError>)
        ensures
            bytes@.len() == 20 ==> r is Ok && r->Ok_0@ == bytes@,
            bytes@.len() != 20 ==> r == Err::<EthersAddress, ConvertError>(ConvertError::InvalidLength),
    {
        if bytes.len() != 20 {
            return Err(ConvertError::InvalidLength);
        }
        let out = EthersAddress { bytes: [bytes[0], bytes[1], bytes[2], bytes[3], bytes[4], bytes[5], bytes[6], bytes[7], bytes[8], bytes[9], bytes[10], bytes[11], bytes[12], bytes[13], bytes[14], bytes[15], bytes[16], bytes[17], bytes[18], bytes[19]] };
        assert(out@ =~= bytes@);
        Ok(out)
    }

    /// The same bytes in the node's form.
    pub fn to_reth(&self) -> (r: Address)
        ensures
            r == address_to_reth(*self),
            r@ == self@,
    {
        Address { bytes: self.bytes }
    }
}

/// The node's value with the bytes of `x`.
pub open spec fn address_to_reth(x: EthersAddress) -> Address {
    Address { bytes: x.bytes }
}

/// A hash of the node: 32 bytes.
#[derive(Clone, Copy, Debug, PartialEq, Eq)]
pub struct H256 {
    pub bytes: [u8; 32],
}

impl View for H256 {
    type V = Seq<u8>;

    open spec fn view(&self) -> Seq<u8> {
        self.bytes@
    }
}

impl H256 {
    /// Reads 32 bytes; a slice of another length is rejected.
    pub fn from_slice(bytes: &[u8]) -> (r: Result<H256, ConvertError>)
        ensures
            bytes@.len() == 32 ==> r is Ok && r->Ok_0@ == bytes@,
            bytes@.len() != 32 ==> r == Err::<H256, ConvertError>(ConvertError::InvalidLength),
    {
        if bytes.len() != 32 {
            return Err(ConvertError::InvalidLength);
        }
        let out = H256 { bytes: [bytes[0], bytes[1], bytes[2], bytes[3], bytes[4], bytes[5], bytes[6], bytes[7], bytes[8], bytes[9], bytes[10], bytes[11], bytes[12], bytes[13], bytes[14], bytes[15], bytes[16], bytes[17], bytes[18], bytes[19], bytes[20], bytes[21], bytes[22], bytes[23], bytes[24], bytes[25], bytes[26], bytes[27], bytes[28], bytes[29], bytes[30], bytes[31]] };
        assert(out@ =~= bytes@);
        Ok(out)
    }

    /// The same bytes in the client's form.
    pub fn to_ethers(&self) -> (r: EthersH256)
        ensures
            r == hash_to_ethers(*self),
            r@ == self@,
    {
        EthersH256 { bytes: self.bytes }
    }
}

/// The client's value with the bytes of `x`.
pub open spec fn hash_to_ethers(x: H256) -> EthersH256 {
    EthersH256 { bytes: x.bytes }
}

/// A hash of the client: 32 bytes.
#[derive(Clone, Copy, Debug, PartialEq, Eq)]
pub struct EthersH256 {
    pub bytes: [u8; 32],
}

impl View for EthersH256 {
    type V = Seq<u8>;

    open spec fn view(&self) -> Seq<u8> {
        self.bytes@
    }
}

impl EthersH256 {
    /// Reads 32 bytes; a slice of another length is rejected.
    pub fn from_slice(bytes: &[u8]) -> (r: Result<EthersH256, ConvertError>)
        ensures
            bytes@.len() == 32 ==> r is Ok && r->Ok_0@ == bytes@,
            bytes@.len() != 32 ==> r == Err::<EthersH256, ConvertError>(ConvertError::InvalidLength),
    {
        if bytes.len() != 32 {
            return Err(ConvertError::InvalidLength);
        }
        let out = EthersH256 { bytes: [bytes[0], bytes[1], bytes[2], bytes[3], bytes[4], bytes[5], bytes[6], bytes[7], bytes[8], bytes[9], bytes[10], bytes[11], bytes[12], bytes[13], bytes[14], bytes[15], bytes[16], bytes[17], bytes[18], bytes[19], bytes[20], bytes[21], bytes[22], bytes[23], bytes[24], bytes[25], bytes[26], bytes[27], bytes[28], bytes[29], bytes[30], bytes[31]] };
        assert(out@ =~= bytes@);
        Ok(out)
    }

    /// The same bytes in the node's form.
    pub fn to_reth(&self) -> (r: H256)
        ensures
            r == hash_to_reth(*self),
            r@ == self@,
    {
        H256 { bytes: self.bytes }
    }
}

/// The node's value with the bytes of `x`.
pub open spec fn hash_to_reth(x: EthersH256) -> H256 {
    H256 { bytes: x.bytes }
}

/// The bytes of an optional `Address`.
pub open spec fn opt_address_bytes(x: Option<Address>) -> Option<Seq<u8>> {
    match x {
        None => None,
        Some(v) => Some(v@),
    }
}

/// The bytes of an optional `EthersAddress`.
pub open spec fn opt_ethers_address_bytes(x: Option<EthersAddress>) -> Option<Seq<u8>> {
    match x {
        None => None,
        Some(v) => Some(v@),
    }
}

/// The bytes of an optional `H256`.
pub open spec fn opt_hash_bytes(x: Option<H256>) -> Option<Seq<u8>> {
    match x {
        None => None,
        Some(v) => Some(v@),
    }
}

/// The bytes of an optional `EthersH256`.
pub open spec fn opt_ethers_hash_bytes(x: Option<EthersH256>) -> Option<Seq<u8>> {
    match x {
        None => None,
        Some(v) => Some(v@),
    }
}

/// Copies an optional value to the client's form: absent stays absent.
pub fn opt_address_to_ethers(x: Option<Address>) -> (r: Option<EthersAddress>)
    ensures
        opt_ethers_address_bytes(r) == opt_address_bytes(x),
{
    match x {
        None => None,
        Some(v) => Some(v.to_ethers()),
    }
}

/// Copies an optional value to the node's form: absent stays absent.
pub fn opt_address_to_reth(x: Option<EthersAddress>) -> (r: Option<Address>)
    ensures
        opt_address_bytes(r) == opt_ethers_address_bytes(x),
{
    match x {
        None => None,
        Some(v) => Some(v.to_reth()),
    }
}

/// Copies an optional value to the client's form: absent stays absent.
pub fn opt_hash_to_ethers(x: Option<H256>) -> (r: Option<EthersH256>)
    ensures
        opt_ethers_hash_bytes(r) == opt_hash_bytes(x),
{
    match x {
        None => None,
        Some(v) => Some(v.to_ethers()),
    }
}

/// Copies an optional value to the node's form: absent stays absent.
pub fn opt_hash_to_reth(x: Option<EthersH256>) -> (r: Option<H256>)
    ensures
        opt_hash_bytes(r) == opt_ethers_hash_bytes(x),
{
    match x {
        None => None,
        Some(v) => Some(v.to_reth()),
    }
}

/// The bytes of each `H256` of a sequence, in order.
pub open spec fn hash_seq(s: Seq<H256>) -> Seq<Seq<u8>> {
    Seq::new(s.len(), |i: int| s[i]@)
}

/// The bytes of each `EthersH256` of a sequence, in order.
pub open spec fn ethers_hash_seq(s: Seq<EthersH256>) -> Seq<Seq<u8>> {
    Seq::new(s.len(), |i: int| s[i]@)
}

/// The bytes of each `Address` of a sequence, in order.
pub open spec fn address_seq(s: Seq<Address>) -> Seq<Seq<u8>> {
    Seq::new(s.len(), |i: int| s[i]@)
}

/// The bytes of each `EthersAddress` of a sequence, in order.
pub open spec fn ethers_address_seq(s: Seq<EthersAddress>) -> Seq<Seq<u8>> {
    Seq::new(s.len(), |i: int| s[i]@)
}

/// Copies a list to the client's form, item by item and in order.
pub fn hashes_to_ethers(items: &Vec<H256>) -> (r: Vec<EthersH256>)
    ensures
        ethers_hash_seq(r@) == hash_seq(items@),
{
    let mut out: Vec<EthersH256> = Vec::new();
    let mut i: usize = 0;
    while i < items.len()
        invariant
            i <= items.len(),
            out@.len() == i,
            forall|j: int| 0 <= j < i ==> (#[trigger] out@[j])@ == items@[j]@,
        decreases items.len() - i,
    {
        out.push(items[i].to_ethers());
        i += 1;
    }
    assert(ethers_hash_seq(out@) =~= hash_seq(items@));
    out
}

/// Copies a list to the node's form, item by item and in order.
pub fn hashes_to_reth(items: &Vec<EthersH256>) -> (r: Vec<H256>)
    ensures
        hash_seq(r@) == ethers_hash_seq(items@),
{
    let mut out: Vec<H256> = Vec::new();
    let mut i: usize = 0;
    while i < items.len()
        invariant
            i <= items.len(),
            out@.len() == i,
            forall|j: int| 0 <= j < i ==> (#[trigger] out@[j])@ == items@[j]@,
        decreases items.len() - i,
    {
        out.push(items[i].to_reth());
        i += 1;
    }
    assert(hash_seq(out@) =~= ethers_hash_seq(items@));
    out
}

/// Copies a list to the node's form, item by item and in order.
pub fn addresses_to_reth(items: &Vec<EthersAddress>) -> (r: Vec<Address>)
    ensures
        address_seq(r@) == ethers_address_seq(items@),
{
    let mut out: Vec<Address> = Vec::new();
    let mut i: usize = 0;
    while i < items.len()
        invariant
            i <= items.len(),
            out@.len() == i,
            forall|j: int| 0 <= j < i ==> (#[trigger] out@[j])@ == items@[j]@,
        decreases items.len() - i,
    {
        out.push(items[i].to_reth());
        i += 1;
    }
    assert(address_seq(out@) =~= ethers_address_seq(items@));
    out
}

/// Copies a list to the client's form, item by item and in order.
pub fn addresses_to_ethers(items: &Vec<Address>) -> (r: Vec<EthersAddress>)
    ensures
        ethers_address_seq(r@) == address_seq(items@),
{
    let mut out: Vec<EthersAddress> = Vec::new();
    let mut i: usize = 0;
    while i < items.len()
        invariant
            i <= items.len(),
            out@.len() == i,
            forall|j: int| 0 <= j < i ==> (#[trigger] out@[j])@ == items@[j]@,
        decreases items.len() - i,
    {
        out.push(items[i].to_ethers());
        i += 1;
    }
    assert(ethers_address_seq(out@) =~= address_seq(items@));
    out
}

/// The 2048-bit bloom filter of a receipt, in the node's form.
#[derive(Clone, Copy, Debug, PartialEq, Eq)]
pub struct Bloom {
    pub bytes: [u8; 256],
}

/// The 2048-bit bloom filter of a receipt, in the client's form.
#[derive(Clone, Copy, Debug, PartialEq, Eq)]
pub struct EthersBloom {
    pub bytes: [u8; 256],
}

impl View for Bloom {
    type V = Seq<u8>;

    open spec fn view(&self) -> Seq<u8> {
        self.bytes@
    }
}

impl View for EthersBloom {
    type V = Seq<u8>;

    open spec fn view(&self) -> Seq<u8> {
        self.bytes@
    }
}

impl Bloom {
    /// The same bits in the client's form.
    pub fn to_ethers(&self) -> (r: EthersBloom)
        ensures
            r@ == self@,
            r.bytes == self.bytes,
    {
        EthersBloom { bytes: self.bytes }
    }
}

impl EthersBloom {
    /// The same bits in the node's form.
    pub fn to_reth(&self) -> (r: Bloom)
        ensures
            r@ == self@,
            r.bytes == self.bytes,
    {
        Bloom { bytes: self.bytes }
    }
}

/// Copies a byte string.
pub fn copy_bytes(bytes: &Vec<u8>) -> (r: Vec<u8>)
    ensures
        r@ == bytes@,
{
    let mut out: Vec<u8> = Vec::new();
    let mut i: usize = 0;
    while i < bytes.len()
        invariant
            i <= bytes.len(),
            out@ == bytes@.subrange(0, i as int),
        decreases bytes.len() - i,
    {
        out.push(bytes[i]);
        assert(out@ =~= bytes@.subrange(0, i + 1));
        i += 1;
    }
    assert(out@ =~= bytes@);
    out
}

/// Copies an optional byte string: absent stays absent.
pub fn copy_opt_bytes(bytes: &Option<Vec<u8>>) -> (r: Option<Vec<u8>>)
    ensures
        opt_bytes(r) == opt_bytes(*bytes),
{
    match bytes {
        None => None,
        Some(b) => Some(copy_bytes(b)),
    }
}

/// The bytes of an optional byte string.
pub open spec fn opt_bytes(x: Option<Vec<u8>>) -> Option<Seq<u8>> {
    match x {
        None => None,
        Some(v) => Some(v@),
    }
}

/// An address taken to the client's form and back is the same address.
pub proof fn lemma_address_round_trip(a: Address)
    ensures
        address_to_reth(address_to_ethers(a)) == a,
{
}

/// An address taken to the node's form and back is the same address.
pub proof fn lemma_ethers_address_round_trip(a: EthersAddress)
    ensures
        address_to_ethers(address_to_reth(a)) == a,
{
}

/// A hash taken to the client's form and back is the same hash.
pub proof fn lemma_hash_round_trip(h: H256)
    ensures
        hash_to_reth(hash_to_ethers(h)) == h,
{
}

/// A hash taken to the node's form and back is the same hash.
pub proof fn lemma_ethers_hash_round_trip(h: EthersH256)
    ensures
        hash_to_ethers(hash_to_reth(h)) == h,
{
}

} // verus!
