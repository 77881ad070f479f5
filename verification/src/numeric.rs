//! Unsigned quantities of 8, 64, 128 and 256 bits, in the node's form and in
//! the client's form, with widening and checked narrowing between them.

use vstd::prelude::*;
use crate::error::ConvertError;

verus! {

/// The number that four 64-bit limbs stand for, least significant limb first.
pub open spec fn limbs_value(limbs: [u64; 4]) -> nat {
    (limbs[0] + 0x1_0000_0000_0000_0000 * (limbs[1] + 0x1_0000_0000_0000_0000 * (limbs[2]
        + 0x1_0000_0000_0000_0000 * limbs[3]))) as nat
}

/// Byte `i` of `v`, counted from the least significant byte.
pub open spec fn byte_at(v: nat, i: nat) -> u8
    decreases i,
{
    if i == 0 {
        (v % 256) as u8
    } else {
        byte_at(v / 256, (i - 1) as nat)
    }
}

/// The 32 low bytes of `v`, most significant first.
pub open spec fn be_bytes(v: nat) -> Seq<u8> {
    Seq::new(32, |i: int| byte_at(v, (31 - i) as nat))
}

/// The 32 low bytes of `v`, least significant first.
pub open spec fn le_bytes(v: nat) -> Seq<u8> {
    Seq::new(32, |i: int| byte_at(v, i as nat))
}

/// Whether `v` can be held in 8 bits.
pub open spec fn fits_u8(v: nat) -> bool {
    v <= u8::MAX
}

/// Whether `v` can be held in 64 bits.
pub open spec fn fits_u64(v: nat) -> bool {
    v <= u64::MAX
}

/// Whether `v` can be held in 128 bits.
pub open spec fn fits_u128(v: nat) -> bool {
    v <= u128::MAX
}

/// What narrowing `v` to 8 bits gives.
pub open spec fn narrow_u8(v: nat) -> Result<u8, ConvertError> {
    if fits_u8(v) {
        Ok(v as u8)
    } else {
        Err(ConvertError::Overflow)
    }
}

/// What narrowing `v` to 64 bits gives.
pub open spec fn narrow_u64(v: nat) -> Result<u64, ConvertError> {
    if fits_u64(v) {
        Ok(v as u64)
    } else {
        Err(ConvertError::Overflow)
    }
}

/// What narrowing `v` to 128 bits gives.
pub open spec fn narrow_u128(v: nat) -> Result<u128, ConvertError> {
    if fits_u128(v) {
        Ok(v as u128)
    } else {
        Err(ConvertError::Overflow)
    }
}

/// Calls `ruint::Uint::<256, 4>::to_le_bytes` on the number that
/// `from_limbs` makes of these limbs, least significant limb first: the
/// result holds its 32 bytes, least significant first.
#[verifier::external_body]
fn limbs_to_le_bytes(limbs: [u64; 4]) -> (bytes: [u8; 32])
    ensures
        bytes@ == le_bytes(limbs_value(limbs)),
{
    ruint::Uint::<256, 4>::from_limbs(limbs).to_le_bytes::<32>()
}

/// Calls `ruint::Uint::<256, 4>::to_be_bytes` on the number that
/// `from_limbs` makes of these limbs, least significant limb first: the
/// result holds its 32 bytes, most significant first.
#[verifier::external_body]
fn limbs_to_be_bytes(limbs: [u64; 4]) -> (bytes: [u8; 32])
    ensures
        bytes@ == be_bytes(limbs_value(limbs)),
{
    ruint::Uint::<256, 4>::from_limbs(limbs).to_be_bytes::<32>()
}

/// Calls `ruint::Uint::<256, 4>::from_be_bytes`: the result holds the limbs,
/// as `into_limbs` gives them, of the number whose 32 bytes, most significant
/// first, are the argument.
#[verifier::external_body]
fn limbs_from_be_bytes(bytes: [u8; 32]) -> (limbs: [u64; 4])
    ensures
        be_bytes(limbs_value(limbs)) == bytes@,
{
    ruint::Uint::<256, 4>::from_be_bytes::<32>(bytes).into_limbs()
}

/// Calls `ethers::types::U256::from_big_endian`: the result holds the limbs,
/// the one field of that type, of the number whose 32 bytes, most significant
/// first, are the argument.
#[verifier::external_body]
fn ethers_limbs_from_big_endian(bytes: [u8; 32]) -> (limbs: [u64; 4])
    ensures
        be_bytes(limbs_value(limbs)) == bytes@,
{
    ethers::types::U256::from_big_endian(&bytes).0
}

/// Calls `ethers::types::U256::to_big_endian` on the number with these
/// limbs, least significant limb first: the result holds its 32 bytes, most
/// significant first.
#[verifier::external_body]
fn ethers_limbs_to_big_endian(limbs: [u64; 4]) -> (bytes: [u8; 32])
    ensures
        bytes@ == be_bytes(limbs_value(limbs)),
{
    let mut bytes = [0u8; 32];
    ethers::types::U256(limbs).to_big_endian(&mut bytes);
    bytes
}

/// An 8-bit quantity of the node.
#[derive(Clone, Copy, Debug, PartialEq, Eq)]
pub struct U8 {
    pub value: u8,
}

/// A 64-bit quantity of the node.
#[derive(Clone, Copy, Debug, PartialEq, Eq)]
pub struct U64 {
    pub value: u64,
}

/// A 128-bit quantity of the node.
#[derive(Clone, Copy, Debug, PartialEq, Eq)]
pub struct U128 {
    pub value: u128,
}

/// A 256-bit quantity of the node: four limbs, least significant first.
#[derive(Clone, Copy, Debug, PartialEq, Eq)]
pub struct U256 {
    pub limbs: [u64; 4],
}

/// A 64-bit quantity of the client.
#[derive(Clone, Copy, Debug, PartialEq, Eq)]
pub struct EthersU64 {
    pub value: u64,
}

/// A 256-bit quantity of the client: four limbs, least significant first.
#[derive(Clone, Copy, Debug, PartialEq, Eq)]
pub struct EthersU256 {
    pub limbs: [u64; 4],
}

impl View for U8 {
    type V = nat;

    open spec fn view(&self) -> nat {
        self.value as nat
    }
}

impl View for U64 {
    type V = nat;

    open spec fn view(&self) -> nat {
        self.value as nat
    }
}

impl View for U128 {
    type V = nat;

    open spec fn view(&self) -> nat {
        self.value as nat
    }
}

impl View for U256 {
    type V = nat;

    open spec fn view(&self) -> nat {
        limbs_value(self.limbs)
    }
}

impl View for EthersU64 {
    type V = nat;

    open spec fn view(&self) -> nat {
        self.value as nat
    }
}

impl View for EthersU256 {
    type V = nat;

    open spec fn view(&self) -> nat {
        limbs_value(self.limbs)
    }
}

/// The limbs of a number below 2^64.
fn limbs_of_u64(x: u64) -> (limbs: [u64; 4])
    ensures
        limbs_value(limbs) == x,
        limbs[0] == x && limbs[1] == 0 && limbs[2] == 0 && limbs[3] == 0,
{
    [x, 0, 0, 0]
}

/// The limbs of a number below 2^128.
fn limbs_of_u128(x: u128) -> (limbs: [u64; 4])
    ensures
        limbs_value(limbs) == x,
{
    let low: u64 = (x % 0x1_0000_0000_0000_0000u128) as u64;
    let high: u64 = (x / 0x1_0000_0000_0000_0000u128) as u64;
    [low, high, 0, 0]
}

/// The number in `limbs` as 64 bits, where it is below 2^64.
fn limbs_to_u64(limbs: &[u64; 4]) -> (r: Result<u64, ConvertError>)
    ensures
        r == narrow_u64(limbs_value(*limbs)),
{
    if limbs[1] == 0 && limbs[2] == 0 && limbs[3] == 0 {
        Ok(limbs[0])
    } else {
        Err(ConvertError::Overflow)
    }
}

/// The number in `limbs` as 128 bits, where it is below 2^128.
fn limbs_to_u128(limbs: &[u64; 4]) -> (r: Result<u128, ConvertError>)
    ensures
        r == narrow_u128(limbs_value(*limbs)),
{
    if limbs[2] == 0 && limbs[3] == 0 {
        let high: u128 = limbs[1] as u128;
        let low: u128 = limbs[0] as u128;
        Ok(high * 0x1_0000_0000_0000_0000u128 + low)
    } else {
        Err(ConvertError::Overflow)
    }
}

/// The number in `limbs` as 8 bits, where it is below 2^8.
fn limbs_to_u8(limbs: &[u64; 4]) -> (r: Result<u8, ConvertError>)
    ensures
        r == narrow_u8(limbs_value(*limbs)),
{
    if limbs[1] == 0 && limbs[2] == 0 && limbs[3] == 0 && limbs[0] <= 0xff {
        Ok(limbs[0] as u8)
    } else {
        Err(ConvertError::Overflow)
    }
}

impl U256 {
    /// The quantity zero.
    pub fn zero() -> (r: U256)
        ensures
            r@ == 0,
    {
        U256 { limbs: limbs_of_u64(0) }
    }

    /// The largest quantity of 256 bits.
    pub fn max_value() -> (r: U256)
        ensures
            forall|i: int| 0 <= i < 4 ==> r.limbs[i] == u64::MAX,
    {
        U256 { limbs: [u64::MAX, u64::MAX, u64::MAX, u64::MAX] }
    }

    /// Widens 8 bits to 256.
    pub fn from_u8(x: u8) -> (r: U256)
        ensures
            r@ == x,
    {
        U256 { limbs: limbs_of_u64(x as u64) }
    }

    /// Widens 64 bits to 256.
    pub fn from_u64(x: u64) -> (r: U256)
        ensures
            r@ == x,
    {
        U256 { limbs: limbs_of_u64(x) }
    }

    /// Widens 128 bits to 256.
    pub fn from_u128(x: u128) -> (r: U256)
        ensures
            r@ == x,
    {
        U256 { limbs: limbs_of_u128(x) }
    }

    /// Narrows to 8 bits; a quantity of more than 8 bits is an overflow.
    pub fn to_u8(&self) -> (r: Result<u8, ConvertError>)
        ensures
            r == narrow_u8(self@),
    {
        limbs_to_u8(&self.limbs)
    }

    /// Narrows to 64 bits; a quantity of more than 64 bits is an overflow.
    pub fn to_u64(&self) -> (r: Result<u64, ConvertError>)
        ensures
            r == narrow_u64(self@),
    {
        limbs_to_u64(&self.limbs)
    }

    /// Narrows to 128 bits; a quantity of more than 128 bits is an overflow.
    pub fn to_u128(&self) -> (r: Result<u128, ConvertError>)
        ensures
            r == narrow_u128(self@),
    {
        limbs_to_u128(&self.limbs)
    }

    /// The 32 bytes of the quantity, least significant first.
    pub fn to_le_bytes(&self) -> (bytes: [u8; 32])
        ensures
            bytes@ == le_bytes(self@),
    {
        limbs_to_le_bytes(self.limbs)
    }

    /// The 32 bytes of the quantity, most significant first.
    pub fn to_be_bytes(&self) -> (bytes: [u8; 32])
        ensures
            bytes@ == be_bytes(self@),
    {
        limbs_to_be_bytes(self.limbs)
    }

    /// The quantity whose 32 bytes, most significant first, are `bytes`.
    pub fn from_be_bytes(bytes: [u8; 32]) -> (r: U256)
        ensures
            be_bytes(r@) == bytes@,
    {
        U256 { limbs: limbs_from_be_bytes(bytes) }
    }

    /// The same quantity in the client's 256-bit form.
    pub fn to_ethers(&self) -> (r: EthersU256)
        ensures
            r@ == self@,
            r.limbs == self.limbs,
    {
        EthersU256 { limbs: self.limbs }
    }
}

impl EthersU256 {
    /// Widens 64 bits to 256.
    pub fn from_u64(x: u64) -> (r: EthersU256)
        ensures
            r@ == x,
    {
        EthersU256 { limbs: limbs_of_u64(x) }
    }

    /// Widens 128 bits to 256.
    pub fn from_u128(x: u128) -> (r: EthersU256)
        ensures
            r@ == x,
    {
        EthersU256 { limbs: limbs_of_u128(x) }
    }

    /// Narrows to 8 bits; a quantity of more than 8 bits is an overflow.
    pub fn to_u8(&self) -> (r: Result<u8, ConvertError>)
        ensures
            r == narrow_u8(self@),
    {
        limbs_to_u8(&self.limbs)
    }

    /// Narrows to 64 bits; a quantity of more than 64 bits is an overflow.
    pub fn to_u64(&self) -> (r: Result<u64, ConvertError>)
        ensures
            r == narrow_u64(self@),
    {
        limbs_to_u64(&self.limbs)
    }

    /// The quantity whose 32 bytes, most significant first, are `bytes`.
    pub fn from_big_endian(bytes: [u8; 32]) -> (r: EthersU256)
        ensures
            be_bytes(r@) == bytes@,
    {
        EthersU256 { limbs: ethers_limbs_from_big_endian(bytes) }
    }

    /// The 32 bytes of the quantity, most significant first.
    pub fn to_big_endian(&self) -> (bytes: [u8; 32])
        ensures
            bytes@ == be_bytes(self@),
    {
        ethers_limbs_to_big_endian(self.limbs)
    }

    /// Whether the quantity is zero.
    pub fn is_zero(&self) -> (r: bool)
        ensures
            r == (self@ == 0),
    {
        self.limbs[0] == 0 && self.limbs[1] == 0 && self.limbs[2] == 0 && self.limbs[3] == 0
    }

    /// The same quantity in the node's 256-bit form.
    pub fn to_reth(&self) -> (r: U256)
        ensures
            r@ == self@,
            r.limbs == self.limbs,
    {
        U256 { limbs: self.limbs }
    }
}

/// Narrows a 256-bit quantity of the client to 64 bits of the node.
#[allow(non_snake_case)]
pub fn convert_Ethers_U256_to_Reth_U64(u256: EthersU256) -> (r: Result<U64, ConvertError>)
    ensures
        fits_u64(u256@) ==> r is Ok && r->Ok_0@ == u256@,
        !fits_u64(u256@) ==> r == Err::<U64, ConvertError>(ConvertError::Overflow),
{
    match u256.to_u64() {
        Ok(value) => Ok(U64 { value }),
        Err(e) => Err(e),
    }
}

/// Narrows a 256-bit quantity of the node to 64 bits of the client.
#[allow(non_snake_case)]
pub fn convert_Reth_U256_to_Ethers_U64(u256: U256) -> (r: Result<EthersU64, ConvertError>)
    ensures
        fits_u64(u256@) ==> r is Ok && r->Ok_0@ == u256@,
        !fits_u64(u256@) ==> r == Err::<EthersU64, ConvertError>(ConvertError::Overflow),
{
    match u256.to_u64() {
        Ok(value) => Ok(EthersU64 { value }),
        Err(e) => Err(e),
    }
}

/// Widens a 64-bit quantity of the node to 256 bits of the client.
#[allow(non_snake_case)]
pub fn convert_Reth_U64_to_Ethers_U256(u64: U64) -> (r: EthersU256)
    ensures
        r@ == u64@,
{
    EthersU256::from_u64(u64.value)
}

/// Widens a 64-bit quantity of the client to 256 bits of the node.
pub fn ethers_u64_to_reth_u256(x: EthersU64) -> (r: U256)
    ensures
        r@ == x@,
{
    U256::from_u64(x.value)
}

/// Narrows an optional 256-bit quantity to 64 bits of the client: absent
/// stays absent.
pub fn opt_u256_to_ethers_u64(x: Option<U256>) -> (r: Result<Option<EthersU64>, ConvertError>)
    ensures
        opt_fits_u64(x) ==> r is Ok && opt_ethers_u64_value(r->Ok_0) == opt_value(x),
        !opt_fits_u64(x) ==> r == Err::<Option<EthersU64>, ConvertError>(ConvertError::Overflow),
{
    match x {
        None => Ok(None),
        Some(q) => match q.to_u64() {
            Ok(value) => Ok(Some(EthersU64 { value })),
            Err(e) => Err(e),
        },
    }
}

/// Widens an optional 64-bit quantity of the client: absent stays absent.
pub fn opt_ethers_u64_to_u256(x: Option<EthersU64>) -> (r: Option<U256>)
    ensures
        opt_value(r) == opt_ethers_u64_value(x),
{
    match x {
        None => None,
        Some(q) => Some(U256::from_u64(q.value)),
    }
}

/// Widens an optional 128-bit quantity of the node: absent stays absent.
pub fn opt_u128_to_ethers_u256(x: Option<U128>) -> (r: Option<EthersU256>)
    ensures
        opt_ethers_value(r) == opt_u128_value(x),
{
    match x {
        None => None,
        Some(q) => Some(EthersU256::from_u128(q.value)),
    }
}

/// Copies an optional 256-bit quantity to the client's form.
pub fn opt_u256_to_ethers(x: Option<U256>) -> (r: Option<EthersU256>)
    ensures
        opt_ethers_value(r) == opt_value(x),
{
    match x {
        None => None,
        Some(q) => Some(q.to_ethers()),
    }
}

/// Copies an optional 256-bit quantity to the node's form.
pub fn opt_ethers_u256_to_reth(x: Option<EthersU256>) -> (r: Option<U256>)
    ensures
        opt_value(r) == opt_ethers_value(x),
{
    match x {
        None => None,
        Some(q) => Some(q.to_reth()),
    }
}

/// Copies an optional 64-bit quantity to the client's form.
pub fn opt_u64_to_ethers(x: Option<U64>) -> (r: Option<EthersU64>)
    ensures
        opt_ethers_u64_value(r) == opt_u64_value(x),
{
    match x {
        None => None,
        Some(q) => Some(EthersU64 { value: q.value }),
    }
}

/// Copies an optional 64-bit quantity to the node's form.
pub fn opt_ethers_u64_to_reth(x: Option<EthersU64>) -> (r: Option<U64>)
    ensures
        opt_u64_value(r) == opt_ethers_u64_value(x),
{
    match x {
        None => None,
        Some(q) => Some(U64 { value: q.value }),
    }
}

/// The number in an optional 256-bit quantity of the node.
pub open spec fn opt_value(x: Option<U256>) -> Option<nat> {
    match x {
        None => None,
        Some(q) => Some(q@),
    }
}

/// The number in an optional 128-bit quantity of the node.
pub open spec fn opt_u128_value(x: Option<U128>) -> Option<nat> {
    match x {
        None => None,
        Some(q) => Some(q@),
    }
}

/// The number in an optional 64-bit quantity of the node.
pub open spec fn opt_u64_value(x: Option<U64>) -> Option<nat> {
    match x {
        None => None,
        Some(q) => Some(q@),
    }
}

/// The number in an optional 256-bit quantity of the client.
pub open spec fn opt_ethers_value(x: Option<EthersU256>) -> Option<nat> {
    match x {
        None => None,
        Some(q) => Some(q@),
    }
}

/// The number in an optional 64-bit quantity of the client.
pub open spec fn opt_ethers_u64_value(x: Option<EthersU64>) -> Option<nat> {
    match x {
        None => None,
        Some(q) => Some(q@),
    }
}

/// Whether an optional quantity is absent or fits 64 bits.
pub open spec fn opt_fits_u64(x: Option<U256>) -> bool {
    match x {
        None => true,
        Some(q) => fits_u64(q@),
    }
}

/// Widening to 256 bits and narrowing back gives the 8-bit quantity again.
pub proof fn lemma_widen_narrow_u8(q: u8, wide: U256)
    requires
        wide@ == q,
    ensures
        narrow_u8(wide@) == Ok::<u8, ConvertError>(q),
{
}

/// Widening to 256 bits and narrowing back gives the 64-bit quantity again.
pub proof fn lemma_widen_narrow_u64(q: u64, wide: U256)
    requires
        wide@ == q,
    ensures
        narrow_u64(wide@) == Ok::<u64, ConvertError>(q),
{
}

/// Widening to 256 bits and narrowing back gives the 128-bit quantity again.
pub proof fn lemma_widen_narrow_u128(q: u128, wide: U256)
    requires
        wide@ == q,
    ensures
        narrow_u128(wide@) == Ok::<u128, ConvertError>(q),
{
}

/// A quantity beyond a width does not narrow to it.
pub proof fn lemma_narrow_overflow(v: nat)
    ensures
        v > u8::MAX ==> narrow_u8(v) == Err::<u8, ConvertError>(ConvertError::Overflow),
        v > u64::MAX ==> narrow_u64(v) == Err::<u64, ConvertError>(ConvertError::Overflow),
        v > u128::MAX ==> narrow_u128(v) == Err::<u128, ConvertError>(ConvertError::Overflow),
{
}

/// 256 to the power `n`.
pub open spec fn pow256(n: nat) -> nat
    decreases n,
{
    if n == 0 {
        1
    } else {
        256 * pow256((n - 1) as nat)
    }
}

/// Two numbers below 256^n whose `n` low bytes agree are the same number.
pub proof fn lemma_bytes_determine_number(a: nat, b: nat, n: nat)
    requires
        a < pow256(n),
        b < pow256(n),
        forall|i: nat| i < n ==> #[trigger] byte_at(a, i) == byte_at(b, i),
    ensures
        a == b,
    decreases n,
{
    if n > 0 {
        assert(byte_at(a, 0) == byte_at(b, 0));
        assert(a % 256 == b % 256);
        assert forall|i: nat| i < (n - 1) as nat implies #[trigger] byte_at(a / 256, i)
            == byte_at(b / 256, i) by {
            assert(byte_at(a, i + 1) == byte_at(b, i + 1));
        }
        lemma_bytes_determine_number(a / 256, b / 256, (n - 1) as nat);
    }
}

/// Every number that four limbs stand for is below 256^32.
pub proof fn lemma_limbs_value_bound(limbs: [u64; 4])
    ensures
        limbs_value(limbs) < pow256(32),
{
    reveal_with_fuel(pow256, 9);
    assert(pow256(8) == 0x1_0000_0000_0000_0000);
    assert(pow256(16) == 0x1_0000_0000_0000_0000 * pow256(8));
    assert(pow256(24) == 0x1_0000_0000_0000_0000 * pow256(16));
    assert(pow256(32) == 0x1_0000_0000_0000_0000 * pow256(24));
}

/// Two quantities with the same 32 bytes, most significant first, are the
/// same quantity: the bytes of a quantity say all of it.
pub proof fn lemma_be_bytes_determine_limbs(a: [u64; 4], b: [u64; 4])
    requires
        be_bytes(limbs_value(a)) == be_bytes(limbs_value(b)),
    ensures
        limbs_value(a) == limbs_value(b),
        a == b,
{
    let va = limbs_value(a);
    let vb = limbs_value(b);
    assert forall|i: nat| i < 32 implies #[trigger] byte_at(va, i) == byte_at(vb, i) by {
        assert(be_bytes(va)[31 - i] == byte_at(va, i));
        assert(be_bytes(vb)[31 - i] == byte_at(vb, i));
    }
    lemma_limbs_value_bound(a);
    lemma_limbs_value_bound(b);
    lemma_bytes_determine_number(va, vb, 32);
    assert(a[0] == b[0] && a[1] == b[1] && a[2] == b[2] && a[3] == b[3]);
    assert(a =~= b);
}

/// A quantity written as 32 bytes by the node and read from them, by the
/// node or by the client, is the quantity that was written.
pub proof fn lemma_be_bytes_round_trip(start: U256, bytes: [u8; 32], node: U256, client: EthersU256)
    requires
        bytes@ == be_bytes(start@),
        be_bytes(node@) == bytes@,
        be_bytes(client@) == bytes@,
    ensures
        node == start,
        client@ == start@,
        client.limbs == start.limbs,
{
    lemma_be_bytes_determine_limbs(node.limbs, start.limbs);
    lemma_be_bytes_determine_limbs(client.limbs, start.limbs);
}

} // verus!
