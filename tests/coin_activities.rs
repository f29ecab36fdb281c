use indexer::coin_activities::{truncate_str, CoinActivity, ExtractError};
use indexer::constants::{
    APTOS_COIN_TYPE, BURN_GAS_EVENT, BURN_GAS_EVENT_CREATION_NUM, BURN_GAS_EVENT_SEQUENCE_NUM,
    MAX_ENTRY_FUNCTION_ID_CHARS,
};
use indexer::types::{
    Event, EventGuid, Field, MoveValue, StructTag, Transaction, TransactionKind, TransactionPayload,
    UserTransactionRequest, WriteResource, WriteSetChange, WriteTableItem,
};

fn guid(addr: &str, n: u64) -> EventGuid {
    EventGuid { account_address: addr.to_string(), creation_number: n }
}

fn field(name: &str, value: MoveValue) -> Field {
    Field { name: name.to_string(), value }
}

fn coin_tag(name: &str, coin: &str) -> StructTag {
    StructTag {
        address: "0x1".to_string(),
        module: "coin".to_string(),
        name: name.to_string(),
        type_args: vec![coin.to_string()],
    }
}

fn coin_store(owner: &str, coin: &str, balance: u128, deposit: EventGuid, withdraw: EventGuid) -> WriteSetChange {
    WriteSetChange::WriteResource(WriteResource {
        address: owner.to_string(),
        type_tag: coin_tag("CoinStore", coin),
        fields: vec![
            field("coin", MoveValue::Number(balance)),
            field("deposit_events", MoveValue::Guid(deposit)),
            field("withdraw_events", MoveValue::Guid(withdraw)),
        ],
    })
}

fn coin_info(creator: &str, coin: &str, supply: MoveValue) -> WriteSetChange {
    WriteSetChange::WriteResource(WriteResource {
        address: creator.to_string(),
        type_tag: coin_tag("CoinInfo", coin),
        fields: vec![
            field("name", MoveValue::Text("Moon Coin".to_string())),
            field("symbol", MoveValue::Text("MOON".to_string())),
            field("decimals", MoveValue::Number(8)),
            field("supply", supply),
        ],
    })
}

fn aggregator_item(handle: &str, value: u128) -> WriteSetChange {
    WriteSetChange::WriteTableItem(WriteTableItem {
        handle: handle.to_string(),
        key: "0xfeed".to_string(),
        key_type: "address".to_string(),
        value_type: "u128".to_string(),
        value: MoveValue::Number(value),
    })
}

fn coin_event(kind: &str, g: EventGuid, seq: u64, amount: u128) -> Event {
    Event {
        event_type: format!("0x1::coin::{}", kind),
        guid: g,
        sequence_number: seq,
        fields: vec![field("amount", MoveValue::Number(amount))],
    }
}

fn genesis_txn(changes: Vec<WriteSetChange>, events: Vec<Event>) -> Transaction {
    Transaction { version: 5, success: true, gas_used: 0, kind: TransactionKind::Genesis, changes, events }
}

fn user_txn(gas_used: u64, price: u64, payload: TransactionPayload, success: bool) -> Transaction {
    Transaction {
        version: 11,
        success,
        gas_used,
        kind: TransactionKind::User(UserTransactionRequest {
            sender: "0xa".to_string(),
            gas_unit_price: price,
            payload,
        }),
        changes: vec![],
        events: vec![],
    }
}

#[test]
fn deposit_round_trip() {
    let t = genesis_txn(
        vec![coin_store("0xa", "0x1::moon::Moon", 100, guid("0xa", 7), guid("0xa", 8))],
        vec![coin_event("DepositEvent", guid("0xa", 7), 0, 50)],
    );
    let d = CoinActivity::from_transaction_at(&t, 1).unwrap();
    assert_eq!(d.coin_activities.len(), 1);
    let a = &d.coin_activities[0];
    assert_eq!(a.owner_address, "0xa");
    assert_eq!(a.coin_type, "0x1::moon::Moon");
    assert_eq!(a.amount, 50);
    assert_eq!(a.activity_type, "0x1::coin::DepositEvent");
    assert!(!a.is_gas_fee);
    assert_eq!(a.event_creation_number, 7);
    assert_eq!(a.event_sequence_number, 0);
    assert_eq!(d.current_coin_balances.len(), 1);
    let c = &d.current_coin_balances[0];
    assert_eq!((c.owner_address.as_str(), c.coin_type.as_str(), c.amount), ("0xa", "0x1::moon::Moon", 100));
    assert_eq!(c.last_transaction_version, 5);
    assert_eq!(d.coin_balances.len(), 1);
    assert_eq!(d.coin_balances[0].deposit_event_guid.creation_number, 7);
    assert_eq!(d.coin_balances[0].withdraw_event_guid.creation_number, 8);
}

#[test]
fn missing_coin_type_fails_whole_transaction() {
    let t = genesis_txn(
        vec![coin_store("0xa", "0x1::moon::Moon", 100, guid("0xa", 7), guid("0xa", 8))],
        vec![
            coin_event("DepositEvent", guid("0xa", 7), 0, 50),
            coin_event("DepositEvent", guid("0xb", 9), 0, 5),
        ],
    );
    match CoinActivity::from_transaction_at(&t, 1) {
        Err(ExtractError::MissingCoinType { version, guid: g, mapping }) => {
            assert_eq!(version, 5);
            assert_eq!(g.account_address, "0xb");
            assert_eq!(g.creation_number, 9);
            assert_eq!(mapping.len(), 2);
        }
        other => panic!("expected a missing coin type, got {:?}", other.map(|d| d.coin_activities.len())),
    }
}

#[test]
fn aggregator_supply_is_resolved() {
    let t = genesis_txn(
        vec![aggregator_item("42", 42), coin_info("0xc", "0xc::moon::Moon", MoveValue::Aggregator("42".to_string()))],
        vec![],
    );
    let d = CoinActivity::from_transaction_at(&t, 1).unwrap();
    assert_eq!(d.coin_infos.len(), 1);
    let info = &d.coin_infos[0];
    assert_eq!(info.supply, Some(42));
    assert_eq!(info.coin_type, "0xc::moon::Moon");
    assert_eq!(info.creator_address, "0xc");
    assert_eq!(info.name, "Moon Coin");
    assert_eq!(info.symbol, "MOON");
    assert_eq!(info.decimals, 8);
    assert_eq!(info.transaction_version_created, 5);
}

#[test]
fn unresolved_aggregator_supply_is_absent() {
    let t = genesis_txn(vec![coin_info("0xc", "0xc::moon::Moon", MoveValue::Aggregator("42".to_string()))], vec![]);
    let d = CoinActivity::from_transaction_at(&t, 1).unwrap();
    assert_eq!(d.coin_infos[0].supply, None);
}

#[test]
fn later_aggregator_write_wins() {
    let t = genesis_txn(
        vec![
            aggregator_item("42", 1),
            aggregator_item("42", 2),
            coin_info("0xc", "0xc::moon::Moon", MoveValue::Aggregator("42".to_string())),
        ],
        vec![],
    );
    let d = CoinActivity::from_transaction_at(&t, 1).unwrap();
    assert_eq!(d.coin_infos[0].supply, Some(2));
}

#[test]
fn direct_supply_is_kept() {
    let t = genesis_txn(vec![coin_info("0xc", "0xc::moon::Moon", MoveValue::Number(1000))], vec![]);
    let d = CoinActivity::from_transaction_at(&t, 1).unwrap();
    assert_eq!(d.coin_infos[0].supply, Some(1000));
}

#[test]
fn long_entry_function_is_truncated() {
    let long: String = "x".repeat(150);
    assert_eq!(truncate_str(&long, MAX_ENTRY_FUNCTION_ID_CHARS).chars().count(), 100);
    assert_eq!(truncate_str("0x1::coin::transfer", 100), "0x1::coin::transfer");
    let mut t = user_txn(1, 1, TransactionPayload::EntryFunction(long.clone()), true);
    t.changes = vec![coin_store("0xa", "0x1::moon::Moon", 1, guid("0xa", 2), guid("0xa", 3))];
    t.events = vec![coin_event("WithdrawEvent", guid("0xa", 3), 4, 1)];
    let d = CoinActivity::from_transaction_at(&t, 1).unwrap();
    let id = d.coin_activities[1].entry_function_id_str.clone().unwrap();
    assert_eq!(id, "x".repeat(100));
    assert_eq!(d.coin_activities[0].entry_function_id_str, None);
}

#[test]
fn truncation_counts_characters() {
    let s: String = "é".repeat(120);
    let r = truncate_str(&s, 100);
    assert_eq!(r.chars().count(), 100);
    assert_eq!(r, "é".repeat(100));
}

#[test]
fn gas_fee_activity_fields() {
    let t = user_txn(3_000_000_000, 5_000_000_000, TransactionPayload::Other, false);
    let d = CoinActivity::from_transaction_at(&t, 9).unwrap();
    assert_eq!(d.coin_activities.len(), 1);
    let g = &d.coin_activities[0];
    assert_eq!(g.amount, 15_000_000_000_000_000_000u128);
    assert_eq!(g.event_creation_number, BURN_GAS_EVENT_CREATION_NUM);
    assert_eq!(g.event_sequence_number, BURN_GAS_EVENT_SEQUENCE_NUM);
    assert_eq!(g.event_creation_number, -1);
    assert_eq!(g.activity_type, BURN_GAS_EVENT);
    assert_eq!(g.coin_type, APTOS_COIN_TYPE);
    assert_eq!(g.owner_address, "0xa");
    assert_eq!(g.event_account_address, "0xa");
    assert!(g.is_gas_fee);
    assert!(!g.is_transaction_success);
    assert_eq!(g.transaction_version, 11);
    assert_eq!(g.inserted_at, 9);
}

#[test]
fn activity_count_matches_recognized_events() {
    let mut t = user_txn(2, 3, TransactionPayload::Other, true);
    t.changes = vec![coin_store("0xa", "0x1::moon::Moon", 10, guid("0xa", 2), guid("0xa", 3))];
    t.events = vec![
        coin_event("WithdrawEvent", guid("0xa", 3), 0, 4),
        Event { event_type: "0x1::stake::AddStakeEvent".to_string(), guid: guid("0xa", 5), sequence_number: 0, fields: vec![] },
        coin_event("DepositEvent", guid("0xa", 2), 0, 4),
    ];
    let d = CoinActivity::from_transaction_at(&t, 1).unwrap();
    assert_eq!(d.coin_activities.len(), 3);
    assert_eq!(d.coin_activities[0].amount, 6);
    assert!(d.coin_activities[0].is_gas_fee);
    assert_eq!(d.coin_activities[1].activity_type, "0x1::coin::WithdrawEvent");
    assert_eq!(d.coin_activities[2].activity_type, "0x1::coin::DepositEvent");
    assert_ne!(d.coin_activities[1].activity_type, d.coin_activities[0].activity_type);
}

#[test]
fn last_coin_store_write_is_current() {
    let t = genesis_txn(
        vec![
            coin_store("0xa", "0x1::moon::Moon", 100, guid("0xa", 2), guid("0xa", 3)),
            coin_store("0xb", "0x1::moon::Moon", 7, guid("0xb", 2), guid("0xb", 3)),
            coin_store("0xa", "0x1::moon::Moon", 60, guid("0xa", 2), guid("0xa", 3)),
        ],
        vec![],
    );
    let d = CoinActivity::from_transaction_at(&t, 1).unwrap();
    assert_eq!(d.coin_balances.len(), 3);
    assert_eq!(d.current_coin_balances.len(), 2);
    let a: Vec<_> = d.current_coin_balances.iter().filter(|c| c.owner_address == "0xa").collect();
    assert_eq!(a.len(), 1);
    assert_eq!(a[0].amount, 60);
}

#[test]
fn rerun_differs_only_in_insertion_time() {
    let mut t = user_txn(2, 3, TransactionPayload::EntryFunction("0x1::coin::transfer".to_string()), true);
    t.changes = vec![coin_store("0xa", "0x1::moon::Moon", 10, guid("0xa", 2), guid("0xa", 3))];
    t.events = vec![coin_event("DepositEvent", guid("0xa", 2), 1, 4)];
    let d1 = CoinActivity::from_transaction_at(&t, 1).unwrap();
    let d2 = CoinActivity::from_transaction_at(&t, 2).unwrap();
    assert_eq!(d1.coin_activities.len(), d2.coin_activities.len());
    for (a, b) in d1.coin_activities.iter().zip(d2.coin_activities.iter()) {
        let mut b = b.clone();
        assert_eq!(b.inserted_at, 2);
        b.inserted_at = a.inserted_at;
        assert_eq!(format!("{:?}", a), format!("{:?}", b));
    }
    assert_eq!(format!("{:?}", d1.coin_balances), format!("{:?}", d2.coin_balances));
    assert_eq!(format!("{:?}", d1.coin_infos), format!("{:?}", d2.coin_infos));
    assert_eq!(format!("{:?}", d1.current_coin_balances), format!("{:?}", d2.current_coin_balances));
}

#[test]
fn current_time_is_stamped() {
    let t = user_txn(1, 1, TransactionPayload::Other, true);
    let d = CoinActivity::from_transaction(&t).unwrap();
    // after 2020-01-01 in microseconds
    assert!(d.coin_activities[0].inserted_at > 1_577_836_800_000_000);
}

#[test]
fn ignored_transaction_kind_yields_nothing() {
    let mut t = genesis_txn(
        vec![coin_store("0xa", "0x1::moon::Moon", 100, guid("0xa", 7), guid("0xa", 8))],
        vec![coin_event("DepositEvent", guid("0xa", 7), 0, 50)],
    );
    t.kind = TransactionKind::Other;
    let d = CoinActivity::from_transaction_at(&t, 1).unwrap();
    assert!(d.coin_activities.is_empty() && d.coin_infos.is_empty());
    assert!(d.coin_balances.is_empty() && d.current_coin_balances.is_empty());
}

#[test]
fn malformed_coin_store_is_a_decode_error() {
    let t = genesis_txn(
        vec![WriteSetChange::WriteResource(WriteResource {
            address: "0xa".to_string(),
            type_tag: coin_tag("CoinStore", "0x1::moon::Moon"),
            fields: vec![field("coin", MoveValue::Text("lots".to_string()))],
        })],
        vec![],
    );
    assert!(matches!(CoinActivity::from_transaction_at(&t, 1), Err(ExtractError::DecodeError { version: 5 })));
}

#[test]
fn malformed_event_is_a_decode_error() {
    let t = genesis_txn(
        vec![coin_store("0xa", "0x1::moon::Moon", 100, guid("0xa", 7), guid("0xa", 8))],
        vec![Event {
            event_type: "0x1::coin::DepositEvent".to_string(),
            guid: guid("0xa", 7),
            sequence_number: 0,
            fields: vec![],
        }],
    );
    assert!(matches!(CoinActivity::from_transaction_at(&t, 1), Err(ExtractError::DecodeError { version: 5 })));
}

#[test]
fn malformed_aggregator_is_a_decode_error() {
    let t = genesis_txn(
        vec![WriteSetChange::WriteTableItem(WriteTableItem {
            handle: "42".to_string(),
            key: "0xfeed".to_string(),
            key_type: "address".to_string(),
            value_type: "u128".to_string(),
            value: MoveValue::Absent,
        })],
        vec![],
    );
    assert!(matches!(CoinActivity::from_transaction_at(&t, 1), Err(ExtractError::DecodeError { version: 5 })));
}

#[test]
fn other_resources_and_table_items_are_skipped() {
    let t = genesis_txn(
        vec![
            WriteSetChange::WriteTableItem(WriteTableItem {
                handle: "0x9".to_string(),
                key: "1".to_string(),
                key_type: "u64".to_string(),
                value_type: "vector<u8>".to_string(),
                value: MoveValue::Text("x".to_string()),
            }),
            WriteSetChange::WriteResource(WriteResource {
                address: "0xa".to_string(),
                type_tag: StructTag {
                    address: "0x1".to_string(),
                    module: "account".to_string(),
                    name: "Account".to_string(),
                    type_args: vec![],
                },
                fields: vec![],
            }),
            WriteSetChange::Other,
        ],
        vec![],
    );
    let d = CoinActivity::from_transaction_at(&t, 1).unwrap();
    assert!(d.coin_infos.is_empty() && d.coin_balances.is_empty());
}
