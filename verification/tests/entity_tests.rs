use eth_convert::access_list::{AccessList, AccessListItem, EthersAccessList, EthersAccessListItem};
use eth_convert::error::ConvertError;
use eth_convert::failure::{
    all_logs_fit, explain_ethers_receipt, explain_ethers_transaction, explain_filter, explain_log,
    explain_receipt, explain_request, explain_reth_filter, explain_transaction, Failure, Field,
};
use eth_convert::filter::{
    reth_filter_to_ethers_filter, Filter, convert_block_number_to_block_number_or_tag, convert_topics, convert_valueORarray,
    ethers_block_id_to_reth_block_id, ethers_filter_to_reth_filter, option_convert_valueORarray,
    BlockId, BlockNumberOrTag, EthersBlockId, EthersBlockNumber, EthersFilter,
    EthersFilterBlockOption, EthersValueOrArray, FilterBlockOption, ValueOrArray,
};
use eth_convert::log::{
    ethers_log_to_reth, logs_to_ethers, logs_to_reth, reth_rpc_log_to_ethers, EthersLog, Log,
};
use eth_convert::numeric::{EthersU256, EthersU64, U128, U256, U64, U8};
use eth_convert::primitives::{Address, Bloom, EthersAddress, EthersH256, H256};
use eth_convert::receipt::{
    ethers_transaction_receipt_to_reth, reth_transaction_receipt_to_ethers, TransactionReceipt,
};
use eth_convert::traits::{ToEthers, ToReth};
use eth_convert::transaction::{
    ethers_transaction_to_reth, ethers_typed_transaction_to_reth_call_request, reth_rpc_transaction_to_ethers,
    EthersEip1559TransactionRequest, EthersEip2930TransactionRequest, EthersNameOrAddress,
    EthersTransactionRequest, EthersTypedTransaction, Signature, Transaction,
};

fn addr(seed: u8) -> Address {
    Address { bytes: [seed; 20] }
}

fn hash(seed: u8) -> H256 {
    let mut bytes = [seed; 32];
    bytes[0] = 0xee;
    H256 { bytes }
}

fn eaddr(seed: u8) -> EthersAddress {
    addr(seed).to_ethers()
}

fn ehash(seed: u8) -> EthersH256 {
    hash(seed).to_ethers()
}

fn sample_log() -> Log {
    Log {
        address: addr(1),
        topics: vec![hash(1), hash(2)],
        data: vec![0xde, 0xad, 0xbe, 0xef],
        block_hash: Some(hash(3)),
        block_number: Some(U256::from_u64(1_000_000)),
        transaction_hash: Some(hash(4)),
        transaction_index: Some(U256::from_u64(7)),
        log_index: Some(U256 { limbs: [5, 0, 0, 1] }),
        removed: false,
    }
}

fn sample_receipt() -> TransactionReceipt {
    TransactionReceipt {
        transaction_hash: Some(hash(10)),
        transaction_index: Some(U256::from_u64(3)),
        block_hash: Some(hash(11)),
        block_number: Some(U256::from_u64(42)),
        from: addr(12),
        to: Some(addr(13)),
        cumulative_gas_used: U256::from_u64(100_000),
        gas_used: Some(U256::from_u64(21_000)),
        contract_address: None,
        logs: vec![sample_log()],
        status_code: Some(U64 { value: 1 }),
        state_root: None,
        logs_bloom: Bloom { bytes: [0x11; 256] },
        transaction_type: U8 { value: 2 },
        effective_gas_price: U128 { value: 1u128 << 70 },
    }
}

fn sample_transaction() -> Transaction {
    Transaction {
        hash: hash(20),
        nonce: U256::from_u64(9),
        block_hash: Some(hash(21)),
        block_number: Some(U256::from_u64(500)),
        transaction_index: Some(U256::from_u64(2)),
        from: addr(22),
        to: Some(addr(23)),
        value: U256 { limbs: [1, 2, 3, 4] },
        gas_price: Some(U128 { value: 30_000_000_000 }),
        gas: U256::from_u64(21_000),
        max_fee_per_gas: None,
        max_priority_fee_per_gas: None,
        input: vec![1, 2, 3],
        signature: Some(Signature {
            r: U256 { limbs: [11, 12, 13, 14] },
            s: U256 { limbs: [21, 22, 23, 24] },
            v: U256::from_u64(27),
        }),
        chain_id: Some(U64 { value: 1 }),
        access_list: None,
        transaction_type: None,
    }
}

fn sample_request() -> EthersTransactionRequest {
    EthersTransactionRequest {
        from: Some(eaddr(30)),
        to: Some(EthersNameOrAddress::Address(eaddr(31))),
        gas: Some(EthersU256::from_u64(50_000)),
        gas_price: Some(EthersU256::from_u64(7)),
        value: Some(EthersU256 { limbs: [0, 1, 0, 0] }),
        data: Some(vec![0xca, 0xfe]),
        nonce: Some(EthersU256::from_u64(4)),
        chain_id: Some(EthersU64 { value: 5 }),
    }
}

#[test]
fn log_is_carried_over_field_by_field() {
    let ethers = reth_rpc_log_to_ethers(sample_log()).unwrap();
    assert_eq!(
        ethers,
        EthersLog {
            address: eaddr(1),
            topics: vec![ehash(1), ehash(2)],
            data: vec![0xde, 0xad, 0xbe, 0xef],
            block_hash: Some(ehash(3)),
            block_number: Some(EthersU64 { value: 1_000_000 }),
            transaction_hash: Some(ehash(4)),
            transaction_index: Some(EthersU64 { value: 7 }),
            log_index: Some(EthersU256 { limbs: [5, 0, 0, 1] }),
            transaction_log_index: None,
            log_type: None,
            removed: Some(false),
        }
    );
    assert_eq!(ethers_log_to_reth(&ethers), sample_log());
}

#[test]
fn removed_log_without_topics_round_trips() {
    let log = Log {
        address: addr(1),
        topics: vec![],
        data: vec![],
        block_hash: None,
        block_number: None,
        transaction_hash: None,
        transaction_index: None,
        log_index: None,
        removed: true,
    };
    let ethers = reth_rpc_log_to_ethers(log.clone()).unwrap();
    assert_eq!(ethers.removed, Some(true));
    assert!(ethers.topics.is_empty());
    assert_eq!(ethers.block_hash, None);
    assert_eq!(ethers.block_number, None);
    assert_eq!(ethers.transaction_hash, None);
    assert_eq!(ethers.transaction_index, None);
    assert_eq!(ethers.log_index, None);
    let back = ethers_log_to_reth(&ethers);
    assert!(back.removed);
    assert!(back.topics.is_empty());
    assert_eq!(back, log);
    let again = reth_rpc_log_to_ethers(back).unwrap();
    assert_eq!(again, ethers);
}

#[test]
fn log_with_four_topics_keeps_their_positions() {
    let mut log = sample_log();
    log.topics = vec![hash(9), hash(8), hash(7), hash(6)];
    let ethers = reth_rpc_log_to_ethers(log.clone()).unwrap();
    assert_eq!(ethers.topics, vec![ehash(9), ehash(8), ehash(7), ehash(6)]);
    assert_eq!(ethers_log_to_reth(&ethers).topics, log.topics);
}

#[test]
fn log_position_beyond_64_bits_is_overflow() {
    let mut log = sample_log();
    log.block_number = Some(U256 { limbs: [0, 1, 0, 0] });
    assert_eq!(reth_rpc_log_to_ethers(log), Err(ConvertError::Overflow));
    let mut log = sample_log();
    log.transaction_index = Some(U256 { limbs: [0, 0, 0, 1] });
    assert_eq!(reth_rpc_log_to_ethers(log.clone()), Err(ConvertError::Overflow));
    let through_trait: Result<EthersLog, ConvertError> = log.clone().into_ethers();
    assert_eq!(through_trait, Err(ConvertError::Overflow));
    assert_eq!(logs_to_ethers(&vec![sample_log(), log]), Err(ConvertError::Overflow));
}

#[test]
fn log_of_the_client_without_flag_counts_as_kept() {
    let mut ethers = reth_rpc_log_to_ethers(sample_log()).unwrap();
    ethers.removed = None;
    ethers.transaction_log_index = Some(EthersU256::from_u64(3));
    ethers.log_type = Some(String::from("mined"));
    let back: Log = ethers.clone().into_reth();
    assert!(!back.removed);
    assert_eq!(back, sample_log());
    assert_eq!(logs_to_reth(&vec![ethers]), vec![sample_log()]);
}

#[test]
fn lists_of_logs_keep_their_order() {
    let mut second = sample_log();
    second.removed = true;
    second.data = vec![];
    let ethers = logs_to_ethers(&vec![sample_log(), second.clone()]).unwrap();
    assert_eq!(ethers.len(), 2);
    assert_eq!(ethers[0].removed, Some(false));
    assert_eq!(ethers[1].removed, Some(true));
    assert_eq!(logs_to_reth(&ethers), vec![sample_log(), second]);
    assert_eq!(logs_to_ethers(&vec![]), Ok(vec![]));
}

#[test]
fn receipt_with_status_round_trips_without_root() {
    let receipt = sample_receipt();
    let ethers = reth_transaction_receipt_to_ethers(receipt.clone()).unwrap();
    assert_eq!(ethers.status, Some(EthersU64 { value: 1 }));
    assert_eq!(ethers.root, None);
    assert_eq!(ethers.transaction_hash, ehash(10));
    assert_eq!(ethers.transaction_index, EthersU64 { value: 3 });
    assert_eq!(ethers.block_hash, Some(ehash(11)));
    assert_eq!(ethers.block_number, Some(EthersU64 { value: 42 }));
    assert_eq!(ethers.from, eaddr(12));
    assert_eq!(ethers.to, Some(eaddr(13)));
    assert_eq!(ethers.cumulative_gas_used, EthersU256::from_u64(100_000));
    assert_eq!(ethers.gas_used, Some(EthersU256::from_u64(21_000)));
    assert_eq!(ethers.contract_address, None);
    assert_eq!(ethers.logs.len(), 1);
    assert_eq!(ethers.logs[0].removed, Some(false));
    assert_eq!(ethers.logs_bloom.bytes, [0x11; 256]);
    assert_eq!(ethers.transaction_type, Some(EthersU64 { value: 2 }));
    assert_eq!(ethers.effective_gas_price, Some(EthersU256 { limbs: [0, 64, 0, 0] }));
    let back = ethers_transaction_receipt_to_reth(&ethers).unwrap();
    assert_eq!(back.state_root, None);
    assert_eq!(back.status_code, Some(U64 { value: 1 }));
    assert_eq!(back, receipt);
}

#[test]
fn receipt_with_root_round_trips_without_status() {
    let mut receipt = sample_receipt();
    receipt.status_code = None;
    receipt.state_root = Some(hash(77));
    receipt.contract_address = Some(addr(78));
    receipt.to = None;
    let ethers = reth_transaction_receipt_to_ethers(receipt.clone()).unwrap();
    assert_eq!(ethers.status, None);
    assert_eq!(ethers.root, Some(ehash(77)));
    assert_eq!(ethers.contract_address, Some(eaddr(78)));
    assert_eq!(ethers.to, None);
    assert_eq!(ethers_transaction_receipt_to_reth(&ethers), Ok(receipt));
}

#[test]
fn receipt_with_status_and_root_is_ambiguous() {
    let mut receipt = sample_receipt();
    receipt.state_root = Some(hash(1));
    assert_eq!(
        reth_transaction_receipt_to_ethers(receipt),
        Err(ConvertError::AmbiguousReceiptState)
    );
    let mut ethers = reth_transaction_receipt_to_ethers(sample_receipt()).unwrap();
    ethers.root = Some(ehash(1));
    assert_eq!(
        ethers_transaction_receipt_to_reth(&ethers),
        Err(ConvertError::AmbiguousReceiptState)
    );
}

#[test]
fn receipt_with_neither_status_nor_root_is_ambiguous() {
    let mut receipt = sample_receipt();
    receipt.status_code = None;
    assert_eq!(
        reth_transaction_receipt_to_ethers(receipt),
        Err(ConvertError::AmbiguousReceiptState)
    );
    let mut ethers = reth_transaction_receipt_to_ethers(sample_receipt()).unwrap();
    ethers.status = None;
    assert_eq!(
        ethers_transaction_receipt_to_reth(&ethers),
        Err(ConvertError::AmbiguousReceiptState)
    );
}

#[test]
fn receipt_without_transaction_linkage_has_no_counterpart() {
    let mut receipt = sample_receipt();
    receipt.transaction_hash = None;
    assert_eq!(
        reth_transaction_receipt_to_ethers(receipt),
        Err(ConvertError::UnsupportedVariant)
    );
    let mut receipt = sample_receipt();
    receipt.transaction_index = None;
    assert_eq!(
        reth_transaction_receipt_to_ethers(receipt),
        Err(ConvertError::UnsupportedVariant)
    );
    let mut ethers = reth_transaction_receipt_to_ethers(sample_receipt()).unwrap();
    ethers.transaction_type = None;
    assert_eq!(ethers_transaction_receipt_to_reth(&ethers), Err(ConvertError::UnsupportedVariant));
    let mut ethers = reth_transaction_receipt_to_ethers(sample_receipt()).unwrap();
    ethers.effective_gas_price = None;
    assert_eq!(ethers_transaction_receipt_to_reth(&ethers), Err(ConvertError::UnsupportedVariant));
}

#[test]
fn receipt_overflows() {
    let mut receipt = sample_receipt();
    receipt.transaction_index = Some(U256 { limbs: [0, 1, 0, 0] });
    assert_eq!(reth_transaction_receipt_to_ethers(receipt), Err(ConvertError::Overflow));
    let mut receipt = sample_receipt();
    receipt.block_number = Some(U256 { limbs: [0, 0, 1, 0] });
    assert_eq!(reth_transaction_receipt_to_ethers(receipt), Err(ConvertError::Overflow));
    let mut receipt = sample_receipt();
    receipt.logs[0].block_number = Some(U256 { limbs: [0, 0, 1, 0] });
    assert_eq!(reth_transaction_receipt_to_ethers(receipt), Err(ConvertError::Overflow));
    let mut ethers = reth_transaction_receipt_to_ethers(sample_receipt()).unwrap();
    ethers.transaction_type = Some(EthersU64 { value: 256 });
    assert_eq!(ethers_transaction_receipt_to_reth(&ethers), Err(ConvertError::Overflow));
    let mut ethers = reth_transaction_receipt_to_ethers(sample_receipt()).unwrap();
    ethers.effective_gas_price = Some(EthersU256 { limbs: [0, 0, 1, 0] });
    assert_eq!(ethers_transaction_receipt_to_reth(&ethers), Err(ConvertError::Overflow));
}

#[test]
fn ambiguity_is_reported_before_anything_else() {
    let mut receipt = sample_receipt();
    receipt.state_root = Some(hash(1));
    receipt.transaction_hash = None;
    receipt.block_number = Some(U256 { limbs: [0, 0, 1, 0] });
    assert_eq!(
        reth_transaction_receipt_to_ethers(receipt),
        Err(ConvertError::AmbiguousReceiptState)
    );
    let mut receipt = sample_receipt();
    receipt.transaction_hash = None;
    receipt.block_number = Some(U256 { limbs: [0, 0, 1, 0] });
    assert_eq!(
        reth_transaction_receipt_to_ethers(receipt),
        Err(ConvertError::UnsupportedVariant)
    );
}

#[test]
fn single_address_stays_a_single_value() {
    let filter = EthersFilter {
        block_option: EthersFilterBlockOption::AtBlockHash(ehash(1)),
        address: Some(EthersValueOrArray::Value(eaddr(0xaa))),
        topics: [None, None, None, None],
    };
    let reth = ethers_filter_to_reth_filter(&filter).unwrap();
    assert_eq!(reth.address, Some(ValueOrArray::Value(addr(0xaa))));
    assert_ne!(reth.address, Some(ValueOrArray::Array(vec![addr(0xaa)])));
    assert_eq!(reth.block_option, FilterBlockOption::AtBlockHash(hash(1)));
    assert_eq!(reth.topics, [None, None, None, None]);
}

#[test]
fn one_element_set_stays_a_set() {
    let matcher = EthersValueOrArray::Array(vec![eaddr(1)]);
    assert_eq!(convert_valueORarray(&matcher), ValueOrArray::Array(vec![addr(1)]));
    let matcher = EthersValueOrArray::Array(vec![eaddr(1), eaddr(2), eaddr(1)]);
    assert_eq!(
        convert_valueORarray(&matcher),
        ValueOrArray::Array(vec![addr(1), addr(2), addr(1)])
    );
    let empty: EthersValueOrArray<EthersAddress> = EthersValueOrArray::Array(vec![]);
    assert_eq!(convert_valueORarray(&empty), ValueOrArray::Array(vec![]));
}

#[test]
fn topic_positions_are_preserved() {
    let filter = EthersFilter {
        block_option: EthersFilterBlockOption::Range {
            from_block: Some(EthersBlockNumber::Number(EthersU64 { value: 10 })),
            to_block: Some(EthersBlockNumber::Latest),
        },
        address: None,
        topics: [
            None,
            Some(EthersValueOrArray::Array(vec![Some(ehash(1)), Some(ehash(2))])),
            None,
            None,
        ],
    };
    let reth = ethers_filter_to_reth_filter(&filter).unwrap();
    assert_eq!(reth.address, None);
    assert_eq!(
        reth.topics,
        [None, Some(ValueOrArray::Array(vec![Some(hash(1)), Some(hash(2))])), None, None]
    );
    assert_eq!(
        reth.block_option,
        FilterBlockOption::Range {
            from_block: Some(BlockNumberOrTag::Number(10)),
            to_block: Some(BlockNumberOrTag::Latest),
        }
    );
}

#[test]
fn wildcards_inside_topic_matchers_stay_wildcards() {
    let topics = [
        Some(EthersValueOrArray::Value(None)),
        Some(EthersValueOrArray::Value(Some(ehash(3)))),
        Some(EthersValueOrArray::Array(vec![None, Some(ehash(4)), None])),
        None,
    ];
    assert_eq!(
        convert_topics(&topics),
        [
            Some(ValueOrArray::Value(None)),
            Some(ValueOrArray::Value(Some(hash(3)))),
            Some(ValueOrArray::Array(vec![None, Some(hash(4)), None])),
            None,
        ]
    );
    assert_eq!(
        option_convert_valueORarray(&EthersValueOrArray::Value(None)),
        ValueOrArray::Value(None)
    );
}

#[test]
fn range_without_bounds_is_rejected() {
    let filter = EthersFilter {
        block_option: EthersFilterBlockOption::Range { from_block: None, to_block: None },
        address: Some(EthersValueOrArray::Value(eaddr(1))),
        topics: [None, None, None, None],
    };
    assert_eq!(ethers_filter_to_reth_filter(&filter), Err(ConvertError::InvalidFilterRange));
}

#[test]
fn open_ended_ranges_keep_the_open_end() {
    let filter = EthersFilter {
        block_option: EthersFilterBlockOption::Range {
            from_block: None,
            to_block: Some(EthersBlockNumber::Pending),
        },
        address: None,
        topics: [None, None, None, None],
    };
    assert_eq!(
        ethers_filter_to_reth_filter(&filter).unwrap().block_option,
        FilterBlockOption::Range { from_block: None, to_block: Some(BlockNumberOrTag::Pending) }
    );
    let filter = EthersFilter {
        block_option: EthersFilterBlockOption::Range {
            from_block: Some(EthersBlockNumber::Earliest),
            to_block: None,
        },
        address: None,
        topics: [None, None, None, None],
    };
    assert_eq!(
        ethers_filter_to_reth_filter(&filter).unwrap().block_option,
        FilterBlockOption::Range { from_block: Some(BlockNumberOrTag::Earliest), to_block: None }
    );
}

#[test]
fn block_names_and_numbers() {
    let pairs = [
        (EthersBlockNumber::Latest, BlockNumberOrTag::Latest),
        (EthersBlockNumber::Finalized, BlockNumberOrTag::Finalized),
        (EthersBlockNumber::Safe, BlockNumberOrTag::Safe),
        (EthersBlockNumber::Earliest, BlockNumberOrTag::Earliest),
        (EthersBlockNumber::Pending, BlockNumberOrTag::Pending),
        (EthersBlockNumber::Number(EthersU64 { value: 0 }), BlockNumberOrTag::Number(0)),
        (
            EthersBlockNumber::Number(EthersU64 { value: u64::MAX }),
            BlockNumberOrTag::Number(u64::MAX),
        ),
    ];
    for (ethers, reth) in pairs {
        assert_eq!(convert_block_number_to_block_number_or_tag(ethers), reth);
        assert_eq!(
            ethers_block_id_to_reth_block_id(EthersBlockId::Number(ethers)),
            BlockId::Number(reth)
        );
    }
    assert_eq!(
        ethers_block_id_to_reth_block_id(EthersBlockId::Hash(ehash(5))),
        BlockId::Hash(hash(5))
    );
}

#[test]
fn legacy_transaction_has_only_a_gas_price() {
    let ethers = reth_rpc_transaction_to_ethers(sample_transaction()).unwrap();
    assert_eq!(ethers.gas_price, Some(EthersU256::from_u64(30_000_000_000)));
    assert_eq!(ethers.max_fee_per_gas, None);
    assert_eq!(ethers.max_priority_fee_per_gas, None);
    assert_eq!(ethers.hash, ehash(20));
    assert_eq!(ethers.nonce, EthersU256::from_u64(9));
    assert_eq!(ethers.block_hash, Some(ehash(21)));
    assert_eq!(ethers.block_number, Some(EthersU64 { value: 500 }));
    assert_eq!(ethers.transaction_index, Some(EthersU64 { value: 2 }));
    assert_eq!(ethers.from, eaddr(22));
    assert_eq!(ethers.to, Some(eaddr(23)));
    assert_eq!(ethers.value, EthersU256 { limbs: [1, 2, 3, 4] });
    assert_eq!(ethers.gas, EthersU256::from_u64(21_000));
    assert_eq!(ethers.input, vec![1, 2, 3]);
    assert_eq!(ethers.v, EthersU64 { value: 27 });
    assert_eq!(ethers.r, EthersU256 { limbs: [11, 12, 13, 14] });
    assert_eq!(ethers.s, EthersU256 { limbs: [21, 22, 23, 24] });
    assert_eq!(ethers.transaction_type, None);
    assert_eq!(ethers.access_list, Some(EthersAccessList(vec![])));
    assert_eq!(ethers.chain_id, Some(EthersU256::from_u64(1)));
}

#[test]
fn fee_market_transaction_keeps_both_prices() {
    let mut tx = sample_transaction();
    tx.max_fee_per_gas = Some(U128 { value: 100 });
    tx.max_priority_fee_per_gas = Some(U128 { value: 2 });
    tx.transaction_type = Some(U64 { value: 2 });
    tx.access_list =
        Some(vec![AccessListItem { address: addr(1), storage_keys: vec![hash(1), hash(2)] }]);
    let ethers = reth_rpc_transaction_to_ethers(tx).unwrap();
    assert_eq!(ethers.max_fee_per_gas, Some(EthersU256::from_u64(100)));
    assert_eq!(ethers.max_priority_fee_per_gas, Some(EthersU256::from_u64(2)));
    assert_eq!(ethers.gas_price, Some(EthersU256::from_u64(30_000_000_000)));
    assert_eq!(ethers.transaction_type, Some(EthersU64 { value: 2 }));
    assert_eq!(
        ethers.access_list,
        Some(EthersAccessList(vec![EthersAccessListItem {
            address: eaddr(1),
            storage_keys: vec![ehash(1), ehash(2)],
        }]))
    );
}

#[test]
fn unsigned_pending_transaction() {
    let mut tx = sample_transaction();
    tx.signature = None;
    tx.chain_id = None;
    tx.block_hash = None;
    tx.block_number = None;
    tx.transaction_index = None;
    tx.to = None;
    tx.gas_price = None;
    let ethers = reth_rpc_transaction_to_ethers(tx).unwrap();
    assert_eq!(ethers.v, EthersU64 { value: 0 });
    assert_eq!(ethers.r, EthersU256 { limbs: [0; 4] });
    assert_eq!(ethers.s, EthersU256 { limbs: [0; 4] });
    assert_eq!(ethers.chain_id, None);
    assert_eq!(ethers.block_hash, None);
    assert_eq!(ethers.block_number, None);
    assert_eq!(ethers.transaction_index, None);
    assert_eq!(ethers.to, None);
    assert_eq!(ethers.gas_price, None);
}

#[test]
fn transaction_overflows() {
    let mut tx = sample_transaction();
    tx.block_number = Some(U256 { limbs: [0, 1, 0, 0] });
    assert_eq!(reth_rpc_transaction_to_ethers(tx), Err(ConvertError::Overflow));
    let mut tx = sample_transaction();
    tx.transaction_index = Some(U256 { limbs: [0, 1, 0, 0] });
    assert_eq!(reth_rpc_transaction_to_ethers(tx), Err(ConvertError::Overflow));
    let mut tx = sample_transaction();
    tx.signature = Some(Signature {
        r: U256::zero(),
        s: U256::zero(),
        v: U256 { limbs: [27, 0, 0, 1] },
    });
    assert_eq!(reth_rpc_transaction_to_ethers(tx), Err(ConvertError::Overflow));
}

#[test]
fn legacy_request_becomes_a_call() {
    let call = ethers_typed_transaction_to_reth_call_request(&EthersTypedTransaction::Legacy(
        sample_request(),
    ))
    .unwrap();
    assert_eq!(call.from, Some(addr(30)));
    assert_eq!(call.to, Some(addr(31)));
    assert_eq!(call.gas, Some(U256::from_u64(50_000)));
    assert_eq!(call.gas_price, Some(U256::from_u64(7)));
    assert_eq!(call.max_fee_per_gas, None);
    assert_eq!(call.max_priority_fee_per_gas, None);
    assert_eq!(call.value, Some(U256 { limbs: [0, 1, 0, 0] }));
    assert_eq!(call.data, Some(vec![0xca, 0xfe]));
    assert_eq!(call.nonce, Some(U256::from_u64(4)));
    assert_eq!(call.chain_id, Some(U64 { value: 5 }));
    assert_eq!(call.access_list, None);
    assert_eq!(call.transaction_type, None);
}

#[test]
fn request_with_access_list_becomes_a_call() {
    let list = EthersAccessList(vec![EthersAccessListItem {
        address: eaddr(1),
        storage_keys: vec![ehash(2)],
    }]);
    let call = ethers_typed_transaction_to_reth_call_request(&EthersTypedTransaction::Eip2930(
        EthersEip2930TransactionRequest { tx: sample_request(), access_list: list },
    ))
    .unwrap();
    assert_eq!(call.gas_price, Some(U256::from_u64(7)));
    assert_eq!(call.max_fee_per_gas, None);
    assert_eq!(call.transaction_type, Some(U8 { value: 1 }));
    assert_eq!(
        call.access_list,
        Some(AccessList(vec![AccessListItem { address: addr(1), storage_keys: vec![hash(2)] }]))
    );
}

#[test]
fn fee_market_request_becomes_a_call() {
    let request = EthersEip1559TransactionRequest {
        from: None,
        to: None,
        gas: None,
        value: None,
        data: None,
        nonce: None,
        access_list: EthersAccessList(vec![]),
        max_priority_fee_per_gas: Some(EthersU256::from_u64(2)),
        max_fee_per_gas: Some(EthersU256::from_u64(90)),
        chain_id: None,
    };
    let call =
        ethers_typed_transaction_to_reth_call_request(&EthersTypedTransaction::Eip1559(request))
            .unwrap();
    assert_eq!(call.from, None);
    assert_eq!(call.to, None);
    assert_eq!(call.gas, None);
    assert_eq!(call.gas_price, None);
    assert_eq!(call.value, None);
    assert_eq!(call.data, None);
    assert_eq!(call.nonce, None);
    assert_eq!(call.chain_id, None);
    assert_eq!(call.max_fee_per_gas, Some(U256::from_u64(90)));
    assert_eq!(call.max_priority_fee_per_gas, Some(U256::from_u64(2)));
    assert_eq!(call.access_list, Some(AccessList(vec![])));
    assert_eq!(call.transaction_type, Some(U8 { value: 2 }));
}

#[test]
fn request_to_a_name_has_no_counterpart() {
    let mut request = sample_request();
    request.to = Some(EthersNameOrAddress::Name(String::from("vitalik.eth")));
    assert_eq!(
        ethers_typed_transaction_to_reth_call_request(&EthersTypedTransaction::Legacy(
            request.clone()
        )),
        Err(ConvertError::UnsupportedVariant)
    );
    assert_eq!(
        ethers_typed_transaction_to_reth_call_request(&EthersTypedTransaction::Eip2930(
            EthersEip2930TransactionRequest { tx: request, access_list: EthersAccessList(vec![]) }
        )),
        Err(ConvertError::UnsupportedVariant)
    );
}

#[test]
fn filter_round_trips() {
    let filter = EthersFilter {
        block_option: EthersFilterBlockOption::Range {
            from_block: Some(EthersBlockNumber::Number(EthersU64 { value: 10 })),
            to_block: None,
        },
        address: Some(EthersValueOrArray::Array(vec![eaddr(1), eaddr(2)])),
        topics: [
            Some(EthersValueOrArray::Value(Some(ehash(1)))),
            Some(EthersValueOrArray::Array(vec![None, Some(ehash(2))])),
            None,
            Some(EthersValueOrArray::Value(None)),
        ],
    };
    let reth = ethers_filter_to_reth_filter(&filter).unwrap();
    assert_eq!(reth_filter_to_ethers_filter(&reth), Ok(filter));
    let single = EthersFilter {
        block_option: EthersFilterBlockOption::AtBlockHash(ehash(9)),
        address: Some(EthersValueOrArray::Value(eaddr(3))),
        topics: [None, None, None, None],
    };
    let reth = ethers_filter_to_reth_filter(&single).unwrap();
    assert_eq!(reth_filter_to_ethers_filter(&reth), Ok(single));
}

#[test]
fn filter_of_the_node_without_bounds_is_rejected() {
    let filter = Filter {
        block_option: FilterBlockOption::Range { from_block: None, to_block: None },
        address: None,
        topics: [None, None, None, None],
    };
    assert_eq!(reth_filter_to_ethers_filter(&filter), Err(ConvertError::InvalidFilterRange));
}

#[test]
fn transaction_round_trips() {
    let mut tx = sample_transaction();
    tx.access_list =
        Some(vec![AccessListItem { address: addr(1), storage_keys: vec![hash(1), hash(2)] }]);
    tx.max_fee_per_gas = Some(U128 { value: u128::MAX });
    tx.transaction_type = Some(U64 { value: 2 });
    let ethers = reth_rpc_transaction_to_ethers(tx.clone()).unwrap();
    assert_eq!(ethers_transaction_to_reth(&ethers), Ok(tx));
}

#[test]
fn unsigned_transaction_without_access_list_round_trips() {
    let mut tx = sample_transaction();
    tx.signature = None;
    tx.chain_id = None;
    tx.access_list = None;
    let ethers = reth_rpc_transaction_to_ethers(tx.clone()).unwrap();
    assert_eq!(ethers.access_list, Some(EthersAccessList(vec![])));
    let back = ethers_transaction_to_reth(&ethers).unwrap();
    assert_eq!(back.signature, None);
    assert_eq!(back.chain_id, None);
    assert_eq!(back.access_list, None);
    assert_eq!(back, tx);
    let mut absent = ethers.clone();
    absent.access_list = None;
    assert_eq!(ethers_transaction_to_reth(&absent), Ok(tx));
}

#[test]
fn transaction_of_the_client_overflows() {
    let ethers = reth_rpc_transaction_to_ethers(sample_transaction()).unwrap();
    let mut wide = ethers.clone();
    wide.gas_price = Some(EthersU256 { limbs: [0, 0, 1, 0] });
    assert_eq!(ethers_transaction_to_reth(&wide), Err(ConvertError::Overflow));
    let mut wide = ethers.clone();
    wide.max_fee_per_gas = Some(EthersU256 { limbs: [0, 0, 0, 1] });
    assert_eq!(ethers_transaction_to_reth(&wide), Err(ConvertError::Overflow));
    let mut wide = ethers.clone();
    wide.max_priority_fee_per_gas = Some(EthersU256 { limbs: [0, 0, 1, 0] });
    assert_eq!(ethers_transaction_to_reth(&wide), Err(ConvertError::Overflow));
    let mut wide = ethers.clone();
    wide.chain_id = Some(EthersU256 { limbs: [0, 1, 0, 0] });
    assert_eq!(ethers_transaction_to_reth(&wide), Err(ConvertError::Overflow));
    let mut half_signed = ethers;
    half_signed.v = EthersU64 { value: 0 };
    half_signed.r = EthersU256 { limbs: [0; 4] };
    let back = ethers_transaction_to_reth(&half_signed).unwrap();
    assert_eq!(
        back.signature,
        Some(Signature { r: U256::zero(), s: U256 { limbs: [21, 22, 23, 24] }, v: U256::zero() })
    );
}

#[test]
fn zero_is_zero() {
    assert!(EthersU256 { limbs: [0; 4] }.is_zero());
    assert!(!EthersU256 { limbs: [0, 0, 0, 1] }.is_zero());
    assert!(!EthersU256 { limbs: [1, 0, 0, 0] }.is_zero());
}

#[test]
fn failures_name_the_field() {
    assert_eq!(explain_log(&sample_log()), None);
    let mut log = sample_log();
    log.transaction_index = Some(U256 { limbs: [0, 1, 0, 0] });
    assert_eq!(
        explain_log(&log),
        Some(Failure { kind: ConvertError::Overflow, field: Field::TransactionIndex })
    );
    log.block_number = Some(U256 { limbs: [0, 1, 0, 0] });
    assert_eq!(
        explain_log(&log),
        Some(Failure { kind: ConvertError::Overflow, field: Field::BlockNumber })
    );
    assert!(all_logs_fit(&vec![sample_log(), sample_log()]));
    assert!(!all_logs_fit(&vec![sample_log(), log]));
    assert!(all_logs_fit(&vec![]));
}

#[test]
fn receipt_failures_name_the_field() {
    assert_eq!(explain_receipt(&sample_receipt()), None);
    let mut receipt = sample_receipt();
    receipt.logs[0].block_number = Some(U256 { limbs: [0, 0, 1, 0] });
    assert_eq!(
        explain_receipt(&receipt),
        Some(Failure { kind: ConvertError::Overflow, field: Field::Logs })
    );
    receipt.block_number = Some(U256 { limbs: [0, 0, 1, 0] });
    assert_eq!(
        explain_receipt(&receipt),
        Some(Failure { kind: ConvertError::Overflow, field: Field::BlockNumber })
    );
    receipt.transaction_index = Some(U256 { limbs: [0, 0, 1, 0] });
    assert_eq!(
        explain_receipt(&receipt),
        Some(Failure { kind: ConvertError::Overflow, field: Field::TransactionIndex })
    );
    receipt.transaction_index = None;
    assert_eq!(
        explain_receipt(&receipt),
        Some(Failure { kind: ConvertError::UnsupportedVariant, field: Field::TransactionIndex })
    );
    receipt.transaction_hash = None;
    assert_eq!(
        explain_receipt(&receipt),
        Some(Failure { kind: ConvertError::UnsupportedVariant, field: Field::TransactionHash })
    );
    receipt.status_code = None;
    assert_eq!(
        explain_receipt(&receipt),
        Some(Failure { kind: ConvertError::AmbiguousReceiptState, field: Field::StatusAndRoot })
    );

    let good = reth_transaction_receipt_to_ethers(sample_receipt()).unwrap();
    assert_eq!(explain_ethers_receipt(&good), None);
    let mut ethers = good.clone();
    ethers.effective_gas_price = Some(EthersU256 { limbs: [0, 0, 1, 0] });
    assert_eq!(
        explain_ethers_receipt(&ethers),
        Some(Failure { kind: ConvertError::Overflow, field: Field::EffectiveGasPrice })
    );
    ethers.transaction_type = Some(EthersU64 { value: 300 });
    assert_eq!(
        explain_ethers_receipt(&ethers),
        Some(Failure { kind: ConvertError::Overflow, field: Field::TransactionType })
    );
    ethers.effective_gas_price = None;
    assert_eq!(
        explain_ethers_receipt(&ethers),
        Some(Failure { kind: ConvertError::UnsupportedVariant, field: Field::EffectiveGasPrice })
    );
    ethers.transaction_type = None;
    assert_eq!(
        explain_ethers_receipt(&ethers),
        Some(Failure { kind: ConvertError::UnsupportedVariant, field: Field::TransactionType })
    );
    ethers.root = Some(ehash(1));
    assert_eq!(
        explain_ethers_receipt(&ethers),
        Some(Failure { kind: ConvertError::AmbiguousReceiptState, field: Field::StatusAndRoot })
    );
}

#[test]
fn transaction_failures_name_the_field() {
    assert_eq!(explain_transaction(&sample_transaction()), None);
    let mut tx = sample_transaction();
    tx.signature = Some(Signature {
        r: U256::zero(),
        s: U256::zero(),
        v: U256 { limbs: [0, 0, 0, 1] },
    });
    assert_eq!(
        explain_transaction(&tx),
        Some(Failure { kind: ConvertError::Overflow, field: Field::SignatureV })
    );
    tx.transaction_index = Some(U256 { limbs: [0, 0, 0, 1] });
    assert_eq!(
        explain_transaction(&tx),
        Some(Failure { kind: ConvertError::Overflow, field: Field::TransactionIndex })
    );
    tx.block_number = Some(U256 { limbs: [0, 0, 0, 1] });
    assert_eq!(
        explain_transaction(&tx),
        Some(Failure { kind: ConvertError::Overflow, field: Field::BlockNumber })
    );

    let good = reth_rpc_transaction_to_ethers(sample_transaction()).unwrap();
    assert_eq!(explain_ethers_transaction(&good), None);
    let mut ethers = good.clone();
    ethers.chain_id = Some(EthersU256 { limbs: [0, 1, 0, 0] });
    assert_eq!(
        explain_ethers_transaction(&ethers),
        Some(Failure { kind: ConvertError::Overflow, field: Field::ChainId })
    );
    ethers.max_priority_fee_per_gas = Some(EthersU256 { limbs: [0, 0, 1, 0] });
    assert_eq!(
        explain_ethers_transaction(&ethers),
        Some(Failure { kind: ConvertError::Overflow, field: Field::MaxPriorityFeePerGas })
    );
    ethers.max_fee_per_gas = Some(EthersU256 { limbs: [0, 0, 1, 0] });
    assert_eq!(
        explain_ethers_transaction(&ethers),
        Some(Failure { kind: ConvertError::Overflow, field: Field::MaxFeePerGas })
    );
    ethers.gas_price = Some(EthersU256 { limbs: [0, 0, 1, 0] });
    assert_eq!(
        explain_ethers_transaction(&ethers),
        Some(Failure { kind: ConvertError::Overflow, field: Field::GasPrice })
    );
}

#[test]
fn request_and_filter_failures_name_the_field() {
    assert_eq!(explain_request(&EthersTypedTransaction::Legacy(sample_request())), None);
    let mut request = sample_request();
    request.to = Some(EthersNameOrAddress::Name(String::from("name.eth")));
    assert_eq!(
        explain_request(&EthersTypedTransaction::Legacy(request)),
        Some(Failure { kind: ConvertError::UnsupportedVariant, field: Field::To })
    );
    let unbounded = EthersFilter {
        block_option: EthersFilterBlockOption::Range { from_block: None, to_block: None },
        address: None,
        topics: [None, None, None, None],
    };
    assert_eq!(
        explain_filter(&unbounded),
        Some(Failure { kind: ConvertError::InvalidFilterRange, field: Field::BlockOption })
    );
    let at_hash = EthersFilter {
        block_option: EthersFilterBlockOption::AtBlockHash(ehash(1)),
        address: None,
        topics: [None, None, None, None],
    };
    assert_eq!(explain_filter(&at_hash), None);
    let unbounded = Filter {
        block_option: FilterBlockOption::Range { from_block: None, to_block: None },
        address: None,
        topics: [None, None, None, None],
    };
    assert_eq!(
        explain_reth_filter(&unbounded),
        Some(Failure { kind: ConvertError::InvalidFilterRange, field: Field::BlockOption })
    );
    let bounded = Filter {
        block_option: FilterBlockOption::Range {
            from_block: Some(BlockNumberOrTag::Latest),
            to_block: None,
        },
        address: None,
        topics: [None, None, None, None],
    };
    assert_eq!(explain_reth_filter(&bounded), None);
}

#[test]
fn fields_have_the_names_that_clients_know() {
    assert_eq!(Field::BlockNumber.name(), "blockNumber");
    assert_eq!(Field::TransactionIndex.name(), "transactionIndex");
    assert_eq!(Field::TransactionHash.name(), "transactionHash");
    assert_eq!(Field::StatusAndRoot.name(), "status");
    assert_eq!(Field::Logs.name(), "logs");
    assert_eq!(Field::TransactionType.name(), "type");
    assert_eq!(Field::EffectiveGasPrice.name(), "effectiveGasPrice");
    assert_eq!(Field::SignatureV.name(), "v");
    assert_eq!(Field::GasPrice.name(), "gasPrice");
    assert_eq!(Field::MaxFeePerGas.name(), "maxFeePerGas");
    assert_eq!(Field::MaxPriorityFeePerGas.name(), "maxPriorityFeePerGas");
    assert_eq!(Field::ChainId.name(), "chainId");
    assert_eq!(Field::To.name(), "to");
    assert_eq!(Field::BlockOption.name(), "fromBlock");
}
