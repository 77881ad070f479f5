//! The two directions of conversion as traits, for the values whose
//! conversion needs nothing but the value.

use vstd::prelude::*;
use crate::error::ConvertError;
use crate::log::{
    ethers_log_to_reth, is_log_to_ethers, log_fits, log_to_ethers, same_log, EthersLog, Log,
};
use crate::numeric::{
    fits_u64, EthersU256, EthersU64, U128, U256, U64, U8,
};
use crate::primitives::{
    address_to_ethers, address_to_reth, hash_to_ethers, hash_to_reth, Address, Bloom,
    EthersAddress, EthersBloom, EthersH256, H256,
};

verus! {

/// From the node's form to the client's.
pub trait ToEthers<T> {
    /// The value in the client's form.
    fn into_ethers(self) -> T;
}

/// From the client's form to the node's.
pub trait ToReth<T> {
    /// The value in the node's form.
    fn into_reth(self) -> T;
}

impl ToEthers<Result<EthersU64, ConvertError>> for U256 {
    /// Narrows to 64 bits; a quantity of more than 64 bits is an overflow.
    fn into_ethers(self) -> (r: Result<EthersU64, ConvertError>)
        ensures
            fits_u64(self@) ==> r is Ok && r->Ok_0@ == self@,
            !fits_u64(self@) ==> r == Err::<EthersU64, ConvertError>(ConvertError::Overflow),
    {
        match self.to_u64() {
            Ok(value) => Ok(EthersU64 { value }),
            Err(e) => Err(e),
        }
    }
}

impl ToEthers<EthersU64> for U8 {
    /// Widens to 64 bits.
    fn into_ethers(self) -> (r: EthersU64)
        ensures
            r@ == self@,
    {
        EthersU64 { value: self.value as u64 }
    }
}

impl ToEthers<EthersU256> for U128 {
    /// Widens to 256 bits.
    fn into_ethers(self) -> (r: EthersU256)
        ensures
            r@ == self@,
    {
        EthersU256::from_u128(self.value)
    }
}

impl ToEthers<EthersU256> for U64 {
    /// Widens to 256 bits.
    fn into_ethers(self) -> (r: EthersU256)
        ensures
            r@ == self@,
    {
        EthersU256::from_u64(self.value)
    }
}

impl ToEthers<EthersBloom> for Bloom {
    /// The same 256 bytes.
    fn into_ethers(self) -> (r: EthersBloom)
        ensures
            r@ == self@,
    {
        self.to_ethers()
    }
}

impl ToEthers<EthersAddress> for Address {
    /// The same 20 bytes.
    fn into_ethers(self) -> (r: EthersAddress)
        ensures
            r == address_to_ethers(self),
    {
        self.to_ethers()
    }
}

impl ToEthers<EthersH256> for H256 {
    /// The same 32 bytes.
    fn into_ethers(self) -> (r: EthersH256)
        ensures
            r == hash_to_ethers(self),
    {
        self.to_ethers()
    }
}

impl ToEthers<Result<EthersLog, ConvertError>> for Log {
    /// The log in the client's form, or an overflow where a position does
    /// not fit 64 bits.
    fn into_ethers(self) -> (r: Result<EthersLog, ConvertError>)
        ensures
            log_fits(self) ==> r is Ok,
            !log_fits(self) ==> r == Err::<EthersLog, ConvertError>(ConvertError::Overflow),
            r is Ok ==> is_log_to_ethers(self, r->Ok_0),
    {
        log_to_ethers(&self)
    }
}

impl ToReth<Address> for EthersAddress {
    /// The same 20 bytes.
    fn into_reth(self) -> (r: Address)
        ensures
            r == address_to_reth(self),
    {
        self.to_reth()
    }
}

impl ToReth<H256> for EthersH256 {
    /// The same 32 bytes.
    fn into_reth(self) -> (r: H256)
        ensures
            r == hash_to_reth(self),
    {
        self.to_reth()
    }
}

impl ToReth<U256> for EthersU64 {
    /// Widens to 256 bits.
    fn into_reth(self) -> (r: U256)
        ensures
            r@ == self@,
    {
        U256::from_u64(self.value)
    }
}

impl ToReth<U256> for EthersU256 {
    /// The same quantity.
    fn into_reth(self) -> (r: U256)
        ensures
            r@ == self@,
    {
        self.to_reth()
    }
}

impl ToReth<Log> for EthersLog {
    /// The log in the node's form; one that does not say whether it was
    /// removed counts as not removed.
    fn into_reth(self) -> (r: Log)
        ensures
            same_log(r, self),
            r.removed == (self.removed == Some(true)),
    {
        ethers_log_to_reth(&self)
    }
}

} // verus!
