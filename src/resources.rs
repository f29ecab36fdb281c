//! Recognizes and decodes the coin-metadata and coin-store resources among
//! the resource writes of one transaction.
use crate::aggregator::{lookup_supply, supply_lookup, AggregatorValue};
use crate::types::{
    field_value, find_field, get_number_field, number_field_of, guid_eq, same_guid, DecodeError, EventGuid, Field, MoveValue, StructTag,
    WriteResource, WriteSetChange,
};
use crate::constants::{COIN_INFO_RESOURCE, COIN_MODULE, COIN_MODULE_ADDRESS, COIN_STORE_RESOURCE};
use vstd::prelude::*;
use vstd::string::*;

verus! {

/// Metadata of a coin type, as first observed at some version.
#[derive(Clone, Debug)]
pub struct CoinSupply {
    pub coin_type: String,
    pub transaction_version_created: u64,
    pub creator_address: String,
    pub name: String,
    pub symbol: String,
    pub decimals: u8,
    /// Absent when the supply is untracked, or kept in an aggregator whose
    /// value this transaction does not write.
    pub supply: Option<u128>,
}

/// An account's balance of one coin type at one version.
#[derive(Clone, Debug)]
pub struct CoinBalance {
    pub transaction_version: u64,
    pub owner_address: String,
    pub coin_type: String,
    pub amount: u128,
    pub deposit_event_guid: EventGuid,
    pub withdraw_event_guid: EventGuid,
}

/// The latest balance of one (owner, coin type).
#[derive(Clone, Debug)]
pub struct CurrentCoinBalance {
    pub owner_address: String,
    pub coin_type: String,
    pub amount: u128,
    pub last_transaction_version: u64,
}

/// The coin type of the events of one event stream.
#[derive(Clone, Debug)]
pub struct EventCoinType {
    pub guid: EventGuid,
    pub coin_type: String,
}

/// The coin type argument of `tag` when it is the coin module's resource
/// `resource`.
pub open spec fn coin_resource_type(tag: StructTag, resource: Seq<char>) -> Option<String> {
    if tag.address@ == COIN_MODULE_ADDRESS@ && tag.module@ == COIN_MODULE@ && tag.name@ == resource
        && tag.type_args@.len() == 1 {
        Some(tag.type_args@[0])
    } else {
        None
    }
}

/// Supply described by the `supply` field: a number, a reference to an
/// aggregator (resolved through `values`), or nothing.
pub open spec fn supply_of(v: MoveValue, values: Seq<AggregatorValue>) -> Result<Option<u128>, DecodeError> {
    match v {
        MoveValue::Number(n) => Ok(Some(n)),
        MoveValue::Aggregator(h) => Ok(supply_lookup(values, h@)),
        MoveValue::Absent => Ok(None),
        _ => Err(DecodeError),
    }
}

pub open spec fn text_field(fields: Seq<Field>, name: Seq<char>) -> Option<String> {
    match field_value(fields, name) {
        Some(MoveValue::Text(s)) => Some(s),
        _ => None,
    }
}

pub open spec fn guid_field(fields: Seq<Field>, name: Seq<char>) -> Option<EventGuid> {
    match field_value(fields, name) {
        Some(MoveValue::Guid(g)) => Some(g),
        _ => None,
    }
}

/// The coin metadata that a resource write holds, if it is a coin-info
/// resource.
pub open spec fn coin_info_of(w: WriteResource, version: u64, values: Seq<AggregatorValue>) -> Result<
    Option<CoinSupply>,
    DecodeError,
> {
    match coin_resource_type(w.type_tag, COIN_INFO_RESOURCE@) {
        None => Ok(None),
        Some(coin_type) => {
            let fields = w.fields@;
            match (
                text_field(fields, "name"@),
                text_field(fields, "symbol"@),
                number_field_of(fields, "decimals"@),
                field_value(fields, "supply"@),
            ) {
                (Some(name), Some(symbol), Some(decimals), Some(s)) => {
                    if decimals <= 255 && supply_of(s, values) is Ok {
                        Ok(
                            Some(
                                CoinSupply {
                                    coin_type,
                                    transaction_version_created: version,
                                    creator_address: w.address,
                                    name,
                                    symbol,
                                    decimals: decimals as u8,
                                    supply: supply_of(s, values)->Ok_0,
                                },
                            ),
                        )
                    } else {
                        Err(DecodeError)
                    }
                },
                _ => Err(DecodeError),
            }
        },
    }
}

/// The balance that a resource write holds, if it is a coin-store resource.
pub open spec fn coin_store_of(w: WriteResource, version: u64) -> Result<Option<CoinBalance>, DecodeError> {
    match coin_resource_type(w.type_tag, COIN_STORE_RESOURCE@) {
        None => Ok(None),
        Some(coin_type) => {
            let fields = w.fields@;
            match (
                number_field_of(fields, "coin"@),
                guid_field(fields, "deposit_events"@),
                guid_field(fields, "withdraw_events"@),
            ) {
                (Some(amount), Some(deposit), Some(withdraw)) => Ok(
                    Some(
                        CoinBalance {
                            transaction_version: version,
                            owner_address: w.address,
                            coin_type,
                            amount,
                            deposit_event_guid: deposit,
                            withdraw_event_guid: withdraw,
                        },
                    ),
                ),
                _ => Err(DecodeError),
            }
        },
    }
}

/// The coin type argument of `tag` when it is the coin module's resource
/// `resource`.
pub fn get_coin_resource_type(tag: &StructTag, resource: &str) -> (r: Option<String>)
    ensures
        r == coin_resource_type(*tag, resource@),
{
    if tag.address == String::from_str(COIN_MODULE_ADDRESS) && tag.module == String::from_str(
        COIN_MODULE,
    ) && tag.name == String::from_str(resource) && tag.type_args.len() == 1 {
        Some(tag.type_args[0].clone())
    } else {
        None
    }
}

fn get_text_field(fields: &Vec<Field>, name: &str) -> (r: Option<String>)
    ensures
        r == text_field(fields@, name@),
{
    match find_field(fields, name) {
        Some(i) => match &fields[i].value {
            MoveValue::Text(s) => Some(s.clone()),
            _ => None,
        },
        None => None,
    }
}

fn get_guid_field(fields: &Vec<Field>, name: &str) -> (r: Option<EventGuid>)
    ensures
        r == guid_field(fields@, name@),
{
    match find_field(fields, name) {
        Some(i) => match &fields[i].value {
            MoveValue::Guid(g) => Some(g.copied()),
            _ => None,
        },
        None => None,
    }
}

fn get_supply(v: &MoveValue, values: &Vec<AggregatorValue>) -> (r: Result<Option<u128>, DecodeError>)
    ensures
        r == supply_of(*v, values@),
{
    match v {
        MoveValue::Number(n) => Ok(Some(*n)),
        MoveValue::Aggregator(h) => Ok(lookup_supply(values, h)),
        MoveValue::Absent => Ok(None),
        _ => Err(DecodeError),
    }
}

impl CoinSupply {
    /// Decodes a coin-info resource write; `values` resolves a supply kept in
    /// an aggregator.
    pub fn from_write_resource(w: &WriteResource, version: u64, values: &Vec<AggregatorValue>) -> (r:
        Result<Option<CoinSupply>, DecodeError>)
        ensures
            r == coin_info_of(*w, version, values@),
    {
        let coin_type = match get_coin_resource_type(&w.type_tag, COIN_INFO_RESOURCE) {
            None => {
                return Ok(None);
            },
            Some(t) => t,
        };
        let name = get_text_field(&w.fields, "name");
        let symbol = get_text_field(&w.fields, "symbol");
        let decimals = get_number_field(&w.fields, "decimals");
        let supply_index = find_field(&w.fields, "supply");
        match (name, symbol, decimals, supply_index) {
            (Some(name), Some(symbol), Some(decimals), Some(i)) => {
                if decimals > 255 {
                    return Err(DecodeError);
                }
                match get_supply(&w.fields[i].value, values) {
                    Ok(supply) => Ok(
                        Some(
                            CoinSupply {
                                coin_type,
                                transaction_version_created: version,
                                creator_address: w.address.clone(),
                                name,
                                symbol,
                                decimals: decimals as u8,
                                supply,
                            },
                        ),
                    ),
                    Err(e) => Err(e),
                }
            },
            _ => Err(DecodeError),
        }
    }
}

impl CoinBalance {
    /// Decodes a coin-store resource write.
    pub fn from_write_resource(w: &WriteResource, version: u64) -> (r: Result<Option<CoinBalance>, DecodeError>)
        ensures
            r == coin_store_of(*w, version),
    {
        let coin_type = match get_coin_resource_type(&w.type_tag, COIN_STORE_RESOURCE) {
            None => {
                return Ok(None);
            },
            Some(t) => t,
        };
        let amount = get_number_field(&w.fields, "coin");
        let deposit = get_guid_field(&w.fields, "deposit_events");
        let withdraw = get_guid_field(&w.fields, "withdraw_events");
        match (amount, deposit, withdraw) {
            (Some(amount), Some(deposit), Some(withdraw)) => Ok(
                Some(
                    CoinBalance {
                        transaction_version: version,
                        owner_address: w.address.clone(),
                        coin_type,
                        amount,
                        deposit_event_guid: deposit,
                        withdraw_event_guid: withdraw,
                    },
                ),
            ),
            _ => Err(DecodeError),
        }
    }
}

/// Coin metadata, balances and event-stream coin types found by one pass over
/// the resource writes.
pub type ResourceRecords = (Seq<CoinSupply>, Seq<CoinBalance>, Seq<EventCoinType>);

pub open spec fn push_some<T>(s: Seq<T>, x: Option<T>) -> Seq<T> {
    match x {
        Some(v) => s.push(v),
        None => s,
    }
}

/// The two event streams of a coin store, each with the store's coin type.
pub open spec fn event_coin_types_of(b: CoinBalance) -> Seq<EventCoinType> {
    seq![
        EventCoinType { guid: b.deposit_event_guid, coin_type: b.coin_type },
        EventCoinType { guid: b.withdraw_event_guid, coin_type: b.coin_type },
    ]
}

/// What the resource writes among `changes` hold, in change order.
pub open spec fn resource_pass(changes: Seq<WriteSetChange>, version: u64, values: Seq<AggregatorValue>) -> Result<
    ResourceRecords,
    DecodeError,
>
    decreases changes.len(),
{
    if changes.len() == 0 {
        Ok((Seq::empty(), Seq::empty(), Seq::empty()))
    } else {
        match resource_pass(changes.drop_last(), version, values) {
            Err(e) => Err(e),
            Ok((infos, balances, coin_types)) => match changes.last() {
                WriteSetChange::WriteResource(w) => match (
                    coin_info_of(w, version, values),
                    coin_store_of(w, version),
                ) {
                    (Ok(info), Ok(None)) => Ok((push_some(infos, info), balances, coin_types)),
                    (Ok(info), Ok(Some(b))) => Ok(
                        (push_some(infos, info), balances.push(b), coin_types + event_coin_types_of(b)),
                    ),
                    _ => Err(DecodeError),
                },
                _ => Ok((infos, balances, coin_types)),
            },
        }
    }
}

/// Once a prefix of the changes is malformed, so is every longer prefix.
pub proof fn lemma_resource_pass_err_extends(
    changes: Seq<WriteSetChange>,
    version: u64,
    values: Seq<AggregatorValue>,
    i: int,
    j: int,
)
    requires
        0 <= i <= j <= changes.len(),
        resource_pass(changes.subrange(0, i), version, values) is Err,
    ensures
        resource_pass(changes.subrange(0, j), version, values) is Err,
    decreases j - i,
{
    if i < j {
        lemma_resource_pass_err_extends(changes, version, values, i, j - 1);
        assert(changes.subrange(0, j).drop_last() =~= changes.subrange(0, j - 1));
    }
}

/// Decodes the coin-info and coin-store resources that `changes` write.
pub fn get_resource_records(changes: &Vec<WriteSetChange>, version: u64, values: &Vec<AggregatorValue>) -> (r:
    Result<(Vec<CoinSupply>, Vec<CoinBalance>, Vec<EventCoinType>), DecodeError>)
    ensures
        match r {
            Ok((infos, balances, coin_types)) => resource_pass(changes@, version, values@) == Ok::<
                ResourceRecords,
                DecodeError,
            >((infos@, balances@, coin_types@)),
            Err(_) => resource_pass(changes@, version, values@) is Err,
        },
{
    let mut infos: Vec<CoinSupply> = Vec::new();
    let mut balances: Vec<CoinBalance> = Vec::new();
    let mut coin_types: Vec<EventCoinType> = Vec::new();
    let mut i: usize = 0;
    while i < changes.len()
        invariant
            i <= changes@.len(),
            resource_pass(changes@.subrange(0, i as int), version, values@) == Ok::<
                ResourceRecords,
                DecodeError,
            >((infos@, balances@, coin_types@)),
        decreases changes@.len() - i,
    {
        assert(changes@.subrange(0, i + 1).drop_last() =~= changes@.subrange(0, i as int));
        if let WriteSetChange::WriteResource(w) = &changes[i] {
            let info = CoinSupply::from_write_resource(w, version, values);
            let balance = CoinBalance::from_write_resource(w, version);
            match (info, balance) {
                (Ok(info), Ok(balance)) => {
                    if let Some(info) = info {
                        infos.push(info);
                    }
                    if let Some(b) = balance {
                        let ghost before = coin_types@;
                        coin_types.push(
                            EventCoinType { guid: b.deposit_event_guid.copied(), coin_type: b.coin_type.clone() },
                        );
                        coin_types.push(
                            EventCoinType { guid: b.withdraw_event_guid.copied(), coin_type: b.coin_type.clone() },
                        );
                        assert(coin_types@ =~= before + event_coin_types_of(b));
                        balances.push(b);
                    }
                },
                _ => {
                    proof {
                        lemma_resource_pass_err_extends(changes@, version, values@, i + 1, changes@.len() as int);
                        assert(changes@.subrange(0, changes@.len() as int) =~= changes@);
                    }
                    return Err(DecodeError);
                },
            }
        }
        i = i + 1;
    }
    assert(changes@.subrange(0, i as int) =~= changes@);
    Ok((infos, balances, coin_types))
}

/// The coin type of event stream `guid`: the last one recorded for it.
pub open spec fn coin_type_lookup(coin_types: Seq<EventCoinType>, guid: EventGuid) -> Option<String>
    decreases coin_types.len(),
{
    if coin_types.len() == 0 {
        None
    } else if same_guid(coin_types.last().guid, guid) {
        Some(coin_types.last().coin_type)
    } else {
        coin_type_lookup(coin_types.drop_last(), guid)
    }
}

/// The coin type of event stream `guid`: the last one recorded for it.
pub fn lookup_coin_type(coin_types: &Vec<EventCoinType>, guid: &EventGuid) -> (r: Option<String>)
    ensures
        r == coin_type_lookup(coin_types@, *guid),
{
    let mut i: usize = coin_types.len();
    assert(coin_types@.subrange(0, i as int) =~= coin_types@);
    while i > 0
        invariant
            i <= coin_types@.len(),
            coin_type_lookup(coin_types@, *guid) == coin_type_lookup(coin_types@.subrange(0, i as int), *guid),
        decreases i,
    {
        assert(coin_types@.subrange(0, i as int).drop_last() =~= coin_types@.subrange(0, i - 1));
        if guid_eq(&coin_types[i - 1].guid, guid) {
            return Some(coin_types[i - 1].coin_type.clone());
        }
        i = i - 1;
    }
    None
}

/// Two balances belong to the same (owner, coin type).
pub open spec fn same_key(a: CoinBalance, b: CoinBalance) -> bool {
    a.owner_address@ == b.owner_address@ && a.coin_type@ == b.coin_type@
}

/// No later balance in `balances` has the key of the one at `j`.
pub open spec fn is_latest(balances: Seq<CoinBalance>, j: int) -> bool {
    forall|k: int| j < k < balances.len() ==> !same_key(#[trigger] balances[k], balances[j])
}

pub open spec fn current_of(b: CoinBalance) -> CurrentCoinBalance {
    CurrentCoinBalance {
        owner_address: b.owner_address,
        coin_type: b.coin_type,
        amount: b.amount,
        last_transaction_version: b.transaction_version,
    }
}

/// The current balance of each key among the first `n` balances, taken from
/// the last balance of that key, in the order of those last balances.
pub open spec fn latest_balances(balances: Seq<CoinBalance>, n: int) -> Seq<CurrentCoinBalance>
    decreases n,
{
    if n <= 0 {
        Seq::empty()
    } else if is_latest(balances, n - 1) {
        latest_balances(balances, n - 1).push(current_of(balances[n - 1]))
    } else {
        latest_balances(balances, n - 1)
    }
}

impl CurrentCoinBalance {
    pub fn from_coin_balance(b: &CoinBalance) -> (r: CurrentCoinBalance)
        ensures
            r == current_of(*b),
    {
        CurrentCoinBalance {
            owner_address: b.owner_address.clone(),
            coin_type: b.coin_type.clone(),
            amount: b.amount,
            last_transaction_version: b.transaction_version,
        }
    }
}

/// The current balance of each (owner, coin type) among `balances`: the
/// last one written wins.
pub fn get_current_coin_balances(balances: &Vec<CoinBalance>) -> (r: Vec<CurrentCoinBalance>)
    ensures
        r@ == latest_balances(balances@, balances@.len() as int),
{
    let mut current: Vec<CurrentCoinBalance> = Vec::new();
    let mut j: usize = 0;
    while j < balances.len()
        invariant
            j <= balances@.len(),
            current@ == latest_balances(balances@, j as int),
        decreases balances@.len() - j,
    {
        let mut k: usize = j + 1;
        let mut latest = true;
        while k < balances.len()
            invariant
                j < k <= balances@.len(),
                latest == (forall|m: int| j < m < k ==> !same_key(#[trigger] balances@[m], balances@[j as int])),
            decreases balances@.len() - k,
        {
            if balances[k].owner_address == balances[j].owner_address && balances[k].coin_type
                == balances[j].coin_type {
                latest = false;
            }
            k = k + 1;
        }
        if latest {
            current.push(CurrentCoinBalance::from_coin_balance(&balances[j]));
        }
        j = j + 1;
    }
    current
}

/// `c` is the current balance of one of the first `n` balances that is the
/// last of its key.
pub open spec fn from_latest(balances: Seq<CoinBalance>, n: int, c: CurrentCoinBalance) -> bool {
    exists|j: int| 0 <= j < n && is_latest(balances, j) && c == current_of(#[trigger] balances[j])
}

/// Every balance that is the last of its key has its current balance among
/// the first `n`; every current balance there comes from such a balance.
pub proof fn lemma_latest_balances_members(balances: Seq<CoinBalance>, n: int)
    requires
        0 <= n <= balances.len(),
    ensures
        forall|j: int| 0 <= j < n && is_latest(balances, j) ==> latest_balances(balances, n).contains(
            current_of(#[trigger] balances[j]),
        ),
        forall|i: int| 0 <= i < latest_balances(balances, n).len() ==> from_latest(
            balances,
            n,
            #[trigger] latest_balances(balances, n)[i],
        ),
    decreases n,
{
    if n > 0 {
        lemma_latest_balances_members(balances, n - 1);
        let prev = latest_balances(balances, n - 1);
        let cur = latest_balances(balances, n);
        assert forall|i: int| 0 <= i < prev.len() implies from_latest(balances, n, #[trigger] prev[i]) by {
            assert(from_latest(balances, n - 1, prev[i]));
            let j = choose|j: int| 0 <= j < n - 1 && is_latest(balances, j) && prev[i] == current_of(#[trigger] balances[j]);
            assert(0 <= j < n && is_latest(balances, j) && prev[i] == current_of(balances[j]));
        }
        if is_latest(balances, n - 1) {
            assert(cur == prev.push(current_of(balances[n - 1])));
            assert forall|j: int| 0 <= j < n && is_latest(balances, j) implies cur.contains(
                current_of(#[trigger] balances[j]),
            ) by {
                if j == n - 1 {
                    assert(cur[cur.len() - 1] == current_of(balances[j]));
                } else {
                    assert(prev.contains(current_of(balances[j])));
                    let k = choose|k: int| 0 <= k < prev.len() && prev[k] == current_of(balances[j]);
                    assert(cur[k] == prev[k]);
                }
            }
            assert forall|i: int| 0 <= i < cur.len() implies from_latest(balances, n, #[trigger] cur[i]) by {
                if i == cur.len() - 1 {
                    assert(cur[i] == current_of(balances[n - 1]));
                } else {
                    assert(cur[i] == prev[i]);
                }
            }
        } else {
            assert(cur == prev);
        }
    }
}

/// Among `balances`, the current balance of a key is that of the last
/// balance of the key: it is present, and it is the only current balance of
/// that key.
pub proof fn lemma_last_write_wins(balances: Seq<CoinBalance>, j: int)
    requires
        0 <= j < balances.len(),
        is_latest(balances, j),
    ensures
        latest_balances(balances, balances.len() as int).contains(current_of(balances[j])),
        forall|i: int|
            0 <= i < latest_balances(balances, balances.len() as int).len() && (#[trigger] latest_balances(
                balances,
                balances.len() as int,
            )[i]).owner_address@ == balances[j].owner_address@ && latest_balances(
                balances,
                balances.len() as int,
            )[i].coin_type@ == balances[j].coin_type@ ==> latest_balances(balances, balances.len() as int)[i]
                == current_of(balances[j]),
{
    let n = balances.len() as int;
    lemma_latest_balances_members(balances, n);
    let cur = latest_balances(balances, n);
    assert forall|i: int|
        0 <= i < cur.len() && (#[trigger] cur[i]).owner_address@ == balances[j].owner_address@
            && cur[i].coin_type@ == balances[j].coin_type@ implies cur[i] == current_of(balances[j]) by {
        assert(from_latest(balances, n, cur[i]));
        let k = choose|k: int| 0 <= k < n && is_latest(balances, k) && cur[i] == current_of(#[trigger] balances[k]);
        if k < j {
            assert(!same_key(balances[j], balances[k]));
        } else if j < k {
            assert(!same_key(balances[k], balances[j]));
        }
    }
}

} // verus!
