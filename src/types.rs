//! The transaction model the extractor reads: write-set changes and events,
//! with their payloads decoded into named fields.
use vstd::prelude::*;
use vstd::string::*;

verus! {

/// Identifies an event stream: the account that owns it and a per-account
/// creation number.
#[derive(Clone, Debug)]
pub struct EventGuid {
    pub account_address: String,
    pub creation_number: u64,
}

impl EventGuid {
    /// A copy of this GUID.
    pub fn copied(&self) -> (r: EventGuid)
        ensures
            r == *self,
    {
        EventGuid { account_address: self.account_address.clone(), creation_number: self.creation_number }
    }
}

/// Two GUIDs name the same event stream.
pub open spec fn same_guid(a: EventGuid, b: EventGuid) -> bool {
    a.account_address@ == b.account_address@ && a.creation_number == b.creation_number
}

pub fn guid_eq(a: &EventGuid, b: &EventGuid) -> (r: bool)
    ensures
        r == same_guid(*a, *b),
{
    a.creation_number == b.creation_number && a.account_address == b.account_address
}

/// A decoded leaf of a resource, table-item or event payload.
#[derive(Clone, Debug)]
pub enum MoveValue {
    Number(u128),
    Text(String),
    /// An event handle, given by the GUID of its stream.
    Guid(EventGuid),
    /// A reference to an aggregator, given by its handle.
    Aggregator(String),
    /// An empty `Option`.
    Absent,
}

/// One named field of a decoded payload.
#[derive(Clone, Debug)]
pub struct Field {
    pub name: String,
    pub value: MoveValue,
}

/// The fully qualified type of a resource: `address::module::name<type_args>`.
#[derive(Clone, Debug)]
pub struct StructTag {
    pub address: String,
    pub module: String,
    pub name: String,
    pub type_args: Vec<String>,
}

/// A resource written under an account.
#[derive(Clone, Debug)]
pub struct WriteResource {
    pub address: String,
    pub type_tag: StructTag,
    pub fields: Vec<Field>,
}

/// An entry written into an on-chain table, with its decoded key and value
/// types.
#[derive(Clone, Debug)]
pub struct WriteTableItem {
    pub handle: String,
    pub key: String,
    pub key_type: String,
    pub value_type: String,
    pub value: MoveValue,
}

#[derive(Clone, Debug)]
pub enum WriteSetChange {
    WriteResource(WriteResource),
    WriteTableItem(WriteTableItem),
    /// Any other change (deletions, module writes); the extractor ignores it.
    Other,
}

/// An emitted event.
#[derive(Clone, Debug)]
pub struct Event {
    pub event_type: String,
    pub guid: EventGuid,
    pub sequence_number: u64,
    pub fields: Vec<Field>,
}

#[derive(Clone, Debug)]
pub enum TransactionPayload {
    /// A call of an entry function, by its fully qualified name.
    EntryFunction(String),
    Other,
}

/// What a user-submitted transaction carries beyond the common part.
#[derive(Clone, Debug)]
pub struct UserTransactionRequest {
    pub sender: String,
    pub gas_unit_price: u64,
    pub payload: TransactionPayload,
}

#[derive(Clone, Debug)]
pub enum TransactionKind {
    Genesis,
    User(UserTransactionRequest),
    /// Kinds that carry no ledger state of interest (block metadata, state
    /// checkpoints).
    Other,
}

#[derive(Clone, Debug)]
pub struct Transaction {
    pub version: u64,
    pub success: bool,
    pub gas_used: u64,
    pub kind: TransactionKind,
    pub changes: Vec<WriteSetChange>,
    pub events: Vec<Event>,
}

/// A payload contradicts the shape that its type name implies.
#[derive(Clone, Copy, Debug, PartialEq, Eq)]
pub struct DecodeError;

/// The value of the first field called `name`, if any.
pub open spec fn field_value(fields: Seq<Field>, name: Seq<char>) -> Option<MoveValue>
    decreases fields.len(),
{
    if fields.len() == 0 {
        None
    } else if fields[0].name@ == name {
        Some(fields[0].value)
    } else {
        field_value(fields.subrange(1, fields.len() as int), name)
    }
}

/// Index of the first field called `name`.
pub fn find_field(fields: &Vec<Field>, name: &str) -> (r: Option<usize>)
    ensures
        match r {
            Some(i) => i < fields@.len() && field_value(fields@, name@) == Some(
                fields@[i as int].value,
            ),
            None => field_value(fields@, name@) is None,
        },
{
    let wanted = String::from_str(name);
    let mut i: usize = 0;
    assert(fields@.subrange(0, fields@.len() as int) =~= fields@);
    while i < fields.len()
        invariant
            i <= fields@.len(),
            wanted@ == name@,
            field_value(fields@, name@) == field_value(
                fields@.subrange(i as int, fields@.len() as int),
                name@,
            ),
        decreases fields@.len() - i,
    {
        let ghost rest = fields@.subrange(i as int, fields@.len() as int);
        assert(rest.subrange(1, rest.len() as int) =~= fields@.subrange(
            i + 1,
            fields@.len() as int,
        ));
        if fields[i].name == wanted {
            return Some(i);
        }
        i = i + 1;
    }
    assert(fields@.subrange(i as int, fields@.len() as int).len() == 0);
    None
}

/// The value of the field called `name`, when it is a number.
pub open spec fn number_field_of(fields: Seq<Field>, name: Seq<char>) -> Option<u128> {
    match field_value(fields, name) {
        Some(MoveValue::Number(n)) => Some(n),
        _ => None,
    }
}

pub fn get_number_field(fields: &Vec<Field>, name: &str) -> (r: Option<u128>)
    ensures
        r == number_field_of(fields@, name@),
{
    match find_field(fields, name) {
        Some(i) => match &fields[i].value {
            MoveValue::Number(n) => Some(*n),
            _ => None,
        },
        None => None,
    }
}

} // verus!
