//! Reads the current values of aggregator-backed counters from the
//! table-item writes of one transaction.
use crate::types::{DecodeError, MoveValue, WriteSetChange, WriteTableItem};
use crate::constants::{AGGREGATOR_KEY_TYPE, AGGREGATOR_VALUE_TYPE};
use vstd::prelude::*;

verus! {

/// The value of one aggregator, as written in a table item.
#[derive(Clone, Debug)]
pub struct AggregatorValue {
    pub handle: String,
    pub value: u128,
}

pub open spec fn is_aggregator_item(item: WriteTableItem) -> bool {
    item.key_type@ == AGGREGATOR_KEY_TYPE@ && item.value_type@ == AGGREGATOR_VALUE_TYPE@
}

/// What one table-item write says of an aggregator: nothing, a value, or a
/// payload that does not fit the aggregator shape.
pub open spec fn aggregator_of(item: WriteTableItem) -> Result<Option<AggregatorValue>, DecodeError> {
    if !is_aggregator_item(item) {
        Ok(None)
    } else {
        match item.value {
            MoveValue::Number(n) => Ok(Some(AggregatorValue { handle: item.handle, value: n })),
            _ => Err(DecodeError),
        }
    }
}

/// The aggregator values written by `changes`, in change order.
pub open spec fn supply_pass(changes: Seq<WriteSetChange>) -> Result<Seq<AggregatorValue>, DecodeError>
    decreases changes.len(),
{
    if changes.len() == 0 {
        Ok(Seq::empty())
    } else {
        match supply_pass(changes.drop_last()) {
            Err(e) => Err(e),
            Ok(acc) => match changes.last() {
                WriteSetChange::WriteTableItem(item) => match aggregator_of(item) {
                    Err(e) => Err(e),
                    Ok(None) => Ok(acc),
                    Ok(Some(a)) => Ok(acc.push(a)),
                },
                _ => Ok(acc),
            },
        }
    }
}

/// The value of aggregator `handle`: the last one written, if any.
pub open spec fn supply_lookup(values: Seq<AggregatorValue>, handle: Seq<char>) -> Option<u128>
    decreases values.len(),
{
    if values.len() == 0 {
        None
    } else if values.last().handle@ == handle {
        Some(values.last().value)
    } else {
        supply_lookup(values.drop_last(), handle)
    }
}

/// Once a prefix of the changes is malformed, so is every longer prefix.
pub proof fn lemma_supply_pass_err_extends(changes: Seq<WriteSetChange>, i: int, j: int)
    requires
        0 <= i <= j <= changes.len(),
        supply_pass(changes.subrange(0, i)) is Err,
    ensures
        supply_pass(changes.subrange(0, j)) is Err,
    decreases j - i,
{
    if i < j {
        lemma_supply_pass_err_extends(changes, i, j - 1);
        assert(changes.subrange(0, j).drop_last() =~= changes.subrange(0, j - 1));
    }
}

/// Decodes one table-item write as an aggregator value.
pub fn get_aggregator_value(item: &WriteTableItem) -> (r: Result<Option<AggregatorValue>, DecodeError>)
    ensures
        r == aggregator_of(*item),
{
    let key_type = String::from_str(AGGREGATOR_KEY_TYPE);
    let value_type = String::from_str(AGGREGATOR_VALUE_TYPE);
    if !(item.key_type == key_type && item.value_type == value_type) {
        return Ok(None);
    }
    match &item.value {
        MoveValue::Number(n) => Ok(Some(AggregatorValue { handle: item.handle.clone(), value: *n })),
        _ => Err(DecodeError),
    }
}

/// Collects the aggregator values that `changes` write, in change order.
pub fn get_aggregator_supply_lookup(changes: &Vec<WriteSetChange>) -> (r: Result<
    Vec<AggregatorValue>,
    DecodeError,
>)
    ensures
        match r {
            Ok(v) => supply_pass(changes@) == Ok::<Seq<AggregatorValue>, DecodeError>(v@),
            Err(e) => supply_pass(changes@) is Err,
        },
{
    let mut values: Vec<AggregatorValue> = Vec::new();
    let mut i: usize = 0;
    while i < changes.len()
        invariant
            i <= changes@.len(),
            supply_pass(changes@.subrange(0, i as int)) == Ok::<
                Seq<AggregatorValue>,
                DecodeError,
            >(values@),
        decreases changes@.len() - i,
    {
        assert(changes@.subrange(0, i + 1).drop_last() =~= changes@.subrange(0, i as int));
        if let WriteSetChange::WriteTableItem(item) = &changes[i] {
            match get_aggregator_value(item) {
                Err(e) => {
                    proof {
                        lemma_supply_pass_err_extends(changes@, i + 1, changes@.len() as int);
                        assert(changes@.subrange(0, changes@.len() as int) =~= changes@);
                    }
                    return Err(e);
                },
                Ok(None) => {},
                Ok(Some(a)) => {
                    values.push(a);
                },
            }
        }
        i = i + 1;
    }
    assert(changes@.subrange(0, i as int) =~= changes@);
    Ok(values)
}

/// The value of aggregator `handle` among `values`: the last one written.
pub fn lookup_supply(values: &Vec<AggregatorValue>, handle: &String) -> (r: Option<u128>)
    ensures
        r == supply_lookup(values@, handle@),
{
    let mut i: usize = values.len();
    assert(values@.subrange(0, i as int) =~= values@);
    while i > 0
        invariant
            i <= values@.len(),
            supply_lookup(values@, handle@) == supply_lookup(values@.subrange(0, i as int), handle@),
        decreases i,
    {
        assert(values@.subrange(0, i as int).drop_last() =~= values@.subrange(0, i - 1));
        if values[i - 1].handle == *handle {
            return Some(values[i - 1].value);
        }
        i = i - 1;
    }
    None
}

} // verus!
