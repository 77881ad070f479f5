use eth_convert::error::ConvertError;
use eth_convert::numeric::{
    convert_Ethers_U256_to_Reth_U64, convert_Reth_U256_to_Ethers_U64,
    convert_Reth_U64_to_Ethers_U256, ethers_u64_to_reth_u256, opt_ethers_u64_to_u256,
    opt_u128_to_ethers_u256, opt_u256_to_ethers_u64, EthersU256, EthersU64, U128, U256, U64, U8,
};
use eth_convert::traits::{ToEthers, ToReth};

#[test]
fn widen_then_narrow_u64_is_identity() {
    for q in [0u64, 1, 5, 255, 256, 0x0102_0304_0506_0708, u64::MAX - 1, u64::MAX] {
        assert_eq!(U256::from_u64(q).to_u64(), Ok(q));
        assert_eq!(EthersU256::from_u64(q).to_u64(), Ok(q));
    }
}

#[test]
fn widen_then_narrow_u8_is_identity() {
    for q in [0u8, 1, 127, 128, 254, 255] {
        assert_eq!(U256::from_u8(q).to_u8(), Ok(q));
    }
}

#[test]
fn widen_then_narrow_u128_is_identity() {
    for q in [0u128, 1, u64::MAX as u128, (u64::MAX as u128) + 1, u128::MAX - 1, u128::MAX] {
        assert_eq!(U256::from_u128(q).to_u128(), Ok(q));
    }
}

#[test]
fn narrow_beyond_width_is_overflow() {
    assert_eq!(U256::from_u64(256).to_u8(), Err(ConvertError::Overflow));
    assert_eq!(U256 { limbs: [0, 1, 0, 0] }.to_u8(), Err(ConvertError::Overflow));
    assert_eq!(U256 { limbs: [0, 1, 0, 0] }.to_u64(), Err(ConvertError::Overflow));
    assert_eq!(U256 { limbs: [0, 0, 1, 0] }.to_u64(), Err(ConvertError::Overflow));
    assert_eq!(U256 { limbs: [0, 0, 0, 1] }.to_u64(), Err(ConvertError::Overflow));
    assert_eq!(U256 { limbs: [0, 0, 1, 0] }.to_u128(), Err(ConvertError::Overflow));
    assert_eq!(U256 { limbs: [7, 7, 0, 1] }.to_u128(), Err(ConvertError::Overflow));
    assert_eq!(U256::max_value().to_u64(), Err(ConvertError::Overflow));
    assert_eq!(U256::max_value().to_u128(), Err(ConvertError::Overflow));
    assert_eq!(EthersU256 { limbs: [0, 1, 0, 0] }.to_u64(), Err(ConvertError::Overflow));
    assert_eq!(EthersU256 { limbs: [0x100, 0, 0, 0] }.to_u8(), Err(ConvertError::Overflow));
}

#[test]
fn five_in_256_bits_is_five_in_64_bits() {
    let mut bytes = [0u8; 32];
    bytes[31] = 0x05;
    let wide = U256::from_be_bytes(bytes);
    assert_eq!(wide.to_u64(), Ok(5));
    assert_eq!(convert_Reth_U256_to_Ethers_U64(wide), Ok(EthersU64 { value: 5 }));
    assert_eq!(convert_Ethers_U256_to_Reth_U64(wide.to_ethers()), Ok(U64 { value: 5 }));
}

#[test]
fn sixty_eight_bits_do_not_fit_64() {
    // 0xFFFFFFFFFFFFFFFF1
    let mut bytes = [0u8; 32];
    bytes[23] = 0x0f;
    for b in bytes.iter_mut().skip(24).take(7) {
        *b = 0xff;
    }
    bytes[31] = 0xf1;
    let wide = U256::from_be_bytes(bytes);
    assert_eq!(wide.limbs, [0xffff_ffff_ffff_fff1, 0xf, 0, 0]);
    assert_eq!(wide.to_u64(), Err(ConvertError::Overflow));
    assert_eq!(convert_Reth_U256_to_Ethers_U64(wide), Err(ConvertError::Overflow));
    assert_eq!(convert_Ethers_U256_to_Reth_U64(wide.to_ethers()), Err(ConvertError::Overflow));
    assert_eq!(wide.to_u128(), Ok(0xf_ffff_ffff_ffff_fff1u128));
}

#[test]
fn zero_and_max_round_trip() {
    assert_eq!(U256::zero().limbs, [0, 0, 0, 0]);
    assert_eq!(U256::zero().to_u8(), Ok(0));
    assert_eq!(U256::zero().to_u64(), Ok(0));
    assert_eq!(U256::zero().to_u128(), Ok(0));
    assert_eq!(U256::max_value().limbs, [u64::MAX; 4]);
    assert_eq!(U256::max_value().to_ethers().to_reth(), U256::max_value());
    assert_eq!(U256::from_be_bytes(U256::max_value().to_be_bytes()), U256::max_value());
    assert_eq!(U256::from_be_bytes(U256::zero().to_be_bytes()), U256::zero());
}

#[test]
fn big_endian_bytes_are_pinned() {
    let q = U256::from_u64(0x0102_0304_0506_0708);
    let mut expected = [0u8; 32];
    expected[24..].copy_from_slice(&[1, 2, 3, 4, 5, 6, 7, 8]);
    assert_eq!(q.to_be_bytes(), expected);
    assert_eq!(U256::from_be_bytes(expected), q);

    let eight = U256::from_u8(0xab);
    let mut expected = [0u8; 32];
    expected[31] = 0xab;
    assert_eq!(eight.to_be_bytes(), expected);

    let wide = U256::from_u128(0x0011_2233_4455_6677_8899_aabb_ccdd_eeff);
    let mut expected = [0u8; 32];
    expected[16..].copy_from_slice(&[
        0x00, 0x11, 0x22, 0x33, 0x44, 0x55, 0x66, 0x77, 0x88, 0x99, 0xaa, 0xbb, 0xcc, 0xdd, 0xee,
        0xff,
    ]);
    assert_eq!(wide.to_be_bytes(), expected);
    assert_eq!(U256::from_be_bytes(expected).to_u128(), Ok(0x0011_2233_4455_6677_8899_aabb_ccdd_eeff));

    let full = U256 { limbs: [4, 3, 2, 1] };
    let mut expected = [0u8; 32];
    expected[7] = 1;
    expected[15] = 2;
    expected[23] = 3;
    expected[31] = 4;
    assert_eq!(full.to_be_bytes(), expected);
    assert_eq!(U256::from_be_bytes(expected), full);
}

#[test]
fn little_endian_bytes_are_pinned() {
    let q = U256::from_u64(0x0102_0304_0506_0708);
    let mut expected = [0u8; 32];
    expected[..8].copy_from_slice(&[8, 7, 6, 5, 4, 3, 2, 1]);
    assert_eq!(q.to_le_bytes(), expected);

    let full = U256 { limbs: [4, 3, 2, 1] };
    let mut expected = [0u8; 32];
    expected[0] = 4;
    expected[8] = 3;
    expected[16] = 2;
    expected[24] = 1;
    assert_eq!(full.to_le_bytes(), expected);

    let mut be = full.to_be_bytes();
    be.reverse();
    assert_eq!(be, full.to_le_bytes());
}

#[test]
fn u128_splits_into_two_limbs() {
    let q = U256::from_u128(0x0123_4567_89ab_cdef_fedc_ba98_7654_3210);
    assert_eq!(q.limbs, [0xfedc_ba98_7654_3210, 0x0123_4567_89ab_cdef, 0, 0]);
    let e = EthersU256::from_u128(u128::MAX);
    assert_eq!(e.limbs, [u64::MAX, u64::MAX, 0, 0]);
}

#[test]
fn limbs_agree_with_the_client_library() {
    let ours = EthersU256::from_u128(0x0123_4567_89ab_cdef_fedc_ba98_7654_3210);
    let theirs = ethers::types::U256::from(0x0123_4567_89ab_cdef_fedc_ba98_7654_3210u128);
    assert_eq!(ours.limbs, theirs.0);
    let bytes = U256 { limbs: ours.limbs }.to_be_bytes();
    assert_eq!(ethers::types::U256::from_big_endian(&bytes), theirs);
    let le = U256 { limbs: ours.limbs }.to_le_bytes();
    assert_eq!(ethers::types::U256::from_little_endian(&le), theirs);
}

#[test]
fn same_width_copy_keeps_limbs() {
    let q = U256 { limbs: [1, 2, 3, 4] };
    assert_eq!(q.to_ethers(), EthersU256 { limbs: [1, 2, 3, 4] });
    assert_eq!(q.to_ethers().to_reth(), q);
}

#[test]
fn named_conversions() {
    assert_eq!(
        convert_Reth_U64_to_Ethers_U256(U64 { value: u64::MAX }),
        EthersU256 { limbs: [u64::MAX, 0, 0, 0] }
    );
    assert_eq!(ethers_u64_to_reth_u256(EthersU64 { value: 9 }), U256 { limbs: [9, 0, 0, 0] });
    assert_eq!(
        convert_Ethers_U256_to_Reth_U64(EthersU256 { limbs: [u64::MAX, 0, 0, 0] }),
        Ok(U64 { value: u64::MAX })
    );
}

#[test]
fn optional_quantities_stay_absent() {
    assert_eq!(opt_u256_to_ethers_u64(None), Ok(None));
    assert_eq!(opt_u256_to_ethers_u64(Some(U256::from_u64(3))), Ok(Some(EthersU64 { value: 3 })));
    assert_eq!(
        opt_u256_to_ethers_u64(Some(U256 { limbs: [0, 0, 0, 9] })),
        Err(ConvertError::Overflow)
    );
    assert_eq!(opt_ethers_u64_to_u256(None), None);
    assert_eq!(opt_u128_to_ethers_u256(None), None);
    assert_eq!(
        opt_u128_to_ethers_u256(Some(U128 { value: 1u128 << 64 })),
        Some(EthersU256 { limbs: [0, 1, 0, 0] })
    );
}

#[test]
fn trait_conversions_of_quantities() {
    let narrow: Result<EthersU64, ConvertError> = U256::from_u64(77).into_ethers();
    assert_eq!(narrow, Ok(EthersU64 { value: 77 }));
    let too_wide: Result<EthersU64, ConvertError> = U256 { limbs: [0, 1, 0, 0] }.into_ethers();
    assert_eq!(too_wide, Err(ConvertError::Overflow));
    let from_u8: EthersU64 = U8 { value: 200 }.into_ethers();
    assert_eq!(from_u8, EthersU64 { value: 200 });
    let from_u128: EthersU256 = U128 { value: u128::MAX }.into_ethers();
    assert_eq!(from_u128.limbs, [u64::MAX, u64::MAX, 0, 0]);
    let from_u64: EthersU256 = U64 { value: 12 }.into_ethers();
    assert_eq!(from_u64.limbs, [12, 0, 0, 0]);
    let back: U256 = EthersU64 { value: 12 }.into_reth();
    assert_eq!(back.limbs, [12, 0, 0, 0]);
    let same: U256 = EthersU256 { limbs: [1, 2, 3, 4] }.into_reth();
    assert_eq!(same.limbs, [1, 2, 3, 4]);
}

#[test]
fn error_messages_differ() {
    let all = [
        ConvertError::Overflow,
        ConvertError::InvalidLength,
        ConvertError::AmbiguousReceiptState,
        ConvertError::InvalidFilterRange,
        ConvertError::UnsupportedVariant,
    ];
    for (i, a) in all.iter().enumerate() {
        assert!(!a.message().is_empty());
        for b in all.iter().skip(i + 1) {
            assert_ne!(a.message(), b.message());
        }
    }
    assert_eq!(ConvertError::Overflow.message(), "quantity exceeds the target width");
}

#[test]
fn client_big_endian_bytes_are_pinned() {
    let mut bytes = [0u8; 32];
    bytes[7] = 1;
    bytes[15] = 2;
    bytes[23] = 3;
    bytes[31] = 4;
    let q = EthersU256::from_big_endian(bytes);
    assert_eq!(q.limbs, [4, 3, 2, 1]);
    assert_eq!(q.to_big_endian(), bytes);
    assert_eq!(U256 { limbs: q.limbs }.to_be_bytes(), bytes);

    let mut five = [0u8; 32];
    five[31] = 0x05;
    assert_eq!(EthersU256::from_big_endian(five).to_u64(), Ok(5));
    assert_eq!(EthersU256::from_u64(0x0102).to_big_endian()[30..], [1, 2]);
    assert_eq!(EthersU256 { limbs: [u64::MAX; 4] }.to_big_endian(), [0xff; 32]);
    assert_eq!(EthersU256::from_big_endian([0xff; 32]).limbs, [u64::MAX; 4]);
    assert_eq!(EthersU256::from_big_endian([0; 32]).limbs, [0; 4]);
}
