//! Drives one transaction through the classifiers: resolves aggregators,
//! decodes coin resources, ties each coin event to its coin type, adds the
//! gas fee of a user transaction, and returns the four record sets.
use crate::aggregator::{get_aggregator_supply_lookup, supply_pass};
use crate::events::{coin_event_of, is_coin_event_type, CoinEvent};
use crate::resources::{
    coin_type_lookup, current_of, get_current_coin_balances, get_resource_records, is_latest,
    latest_balances, lemma_last_write_wins, lookup_coin_type, resource_pass, CoinBalance, CoinSupply, CurrentCoinBalance, EventCoinType,
};
use crate::types::{Event, EventGuid, Transaction, TransactionKind, TransactionPayload, UserTransactionRequest};
use crate::constants::{
    APTOS_COIN_TYPE, BURN_GAS_EVENT, BURN_GAS_EVENT_CREATION_NUM, BURN_GAS_EVENT_SEQUENCE_NUM, DEPOSIT_EVENT,
    MAX_ENTRY_FUNCTION_ID_CHARS, WITHDRAW_EVENT,
};
use vstd::prelude::*;
use vstd::string::*;

verus! {

/// One entry of the coin ledger: a withdraw, a deposit or a gas fee.
#[derive(Clone, Debug)]
pub struct CoinActivity {
    pub transaction_version: u64,
    pub event_account_address: String,
    pub event_creation_number: i64,
    pub event_sequence_number: i64,
    pub owner_address: String,
    pub coin_type: String,
    pub amount: u128,
    pub activity_type: String,
    pub is_gas_fee: bool,
    pub is_transaction_success: bool,
    pub entry_function_id_str: Option<String>,
    /// When the record was made, in microseconds since the Unix epoch.
    pub inserted_at: i64,
}

pub struct CoinActivityView {
    pub transaction_version: u64,
    pub event_account_address: Seq<char>,
    pub event_creation_number: i64,
    pub event_sequence_number: i64,
    pub owner_address: Seq<char>,
    pub coin_type: Seq<char>,
    pub amount: u128,
    pub activity_type: Seq<char>,
    pub is_gas_fee: bool,
    pub is_transaction_success: bool,
    pub entry_function_id_str: Option<Seq<char>>,
    pub inserted_at: i64,
}

pub open spec fn opt_view(o: Option<String>) -> Option<Seq<char>> {
    match o {
        Some(s) => Some(s@),
        None => None,
    }
}

impl View for CoinActivity {
    type V = CoinActivityView;

    open spec fn view(&self) -> CoinActivityView {
        CoinActivityView {
            transaction_version: self.transaction_version,
            event_account_address: self.event_account_address@,
            event_creation_number: self.event_creation_number,
            event_sequence_number: self.event_sequence_number,
            owner_address: self.owner_address@,
            coin_type: self.coin_type@,
            amount: self.amount,
            activity_type: self.activity_type@,
            is_gas_fee: self.is_gas_fee,
            is_transaction_success: self.is_transaction_success,
            entry_function_id_str: opt_view(self.entry_function_id_str),
            inserted_at: self.inserted_at,
        }
    }
}

pub open spec fn activities_view(v: Seq<CoinActivity>) -> Seq<CoinActivityView> {
    v.map_values(|a: CoinActivity| a@)
}

/// The four record sets that one transaction yields.
pub struct TransactionCoinData {
    pub coin_activities: Vec<CoinActivity>,
    pub coin_infos: Vec<CoinSupply>,
    pub coin_balances: Vec<CoinBalance>,
    pub current_coin_balances: Vec<CurrentCoinBalance>,
}

pub struct CoinDataView {
    pub coin_activities: Seq<CoinActivityView>,
    pub coin_infos: Seq<CoinSupply>,
    pub coin_balances: Seq<CoinBalance>,
    pub current_coin_balances: Seq<CurrentCoinBalance>,
}

impl View for TransactionCoinData {
    type V = CoinDataView;

    open spec fn view(&self) -> CoinDataView {
        CoinDataView {
            coin_activities: activities_view(self.coin_activities@),
            coin_infos: self.coin_infos@,
            coin_balances: self.coin_balances@,
            current_coin_balances: self.current_coin_balances@,
        }
    }
}

/// Why a transaction could not be processed.
pub enum ExtractFailure {
    /// A payload contradicts the shape its type name implies.
    Decode,
    /// A coin event whose stream has no coin-store write in the transaction.
    MissingCoinType(EventGuid),
}

/// A failed extraction, with what is needed to diagnose it.
#[derive(Debug)]
pub enum ExtractError {
    DecodeError { version: u64 },
    MissingCoinType { version: u64, guid: EventGuid, mapping: Vec<EventCoinType> },
}

impl ExtractError {
    pub open spec fn failure(self) -> ExtractFailure {
        match self {
            ExtractError::DecodeError { .. } => ExtractFailure::Decode,
            ExtractError::MissingCoinType { guid, .. } => ExtractFailure::MissingCoinType(guid),
        }
    }

    pub open spec fn spec_version(self) -> u64 {
        match self {
            ExtractError::DecodeError { version } => version,
            ExtractError::MissingCoinType { version, .. } => version,
        }
    }
}

/// `s` cut to at most `n` characters.
pub open spec fn truncated(s: Seq<char>, n: nat) -> Seq<char> {
    if s.len() <= n {
        s
    } else {
        s.subrange(0, n as int)
    }
}

/// The entry function a user transaction calls, cut to the kept length.
pub open spec fn entry_function_id(kind: TransactionKind) -> Option<Seq<char>> {
    match kind {
        TransactionKind::User(req) => match req.payload {
            TransactionPayload::EntryFunction(f) => Some(truncated(f@, MAX_ENTRY_FUNCTION_ID_CHARS as nat)),
            TransactionPayload::Other => None,
        },
        _ => None,
    }
}

/// The gas fee that the sender of a user transaction pays.
pub open spec fn gas_activity(t: Transaction, req: UserTransactionRequest, inserted_at: i64) -> CoinActivityView {
    CoinActivityView {
        transaction_version: t.version,
        event_account_address: req.sender@,
        event_creation_number: BURN_GAS_EVENT_CREATION_NUM,
        event_sequence_number: BURN_GAS_EVENT_SEQUENCE_NUM,
        owner_address: req.sender@,
        coin_type: APTOS_COIN_TYPE@,
        amount: (t.gas_used as int * req.gas_unit_price as int) as u128,
        activity_type: BURN_GAS_EVENT@,
        is_gas_fee: true,
        is_transaction_success: t.success,
        entry_function_id_str: None,
        inserted_at,
    }
}

/// What the activity of a coin event depends on besides the event.
pub struct ActivityContext {
    pub version: u64,
    pub success: bool,
    pub coin_types: Seq<EventCoinType>,
    pub entry_function_id: Option<Seq<char>>,
    pub inserted_at: i64,
}

/// The activity of one event: none for an event not recognized, else the
/// event with the coin type of its stream.
pub open spec fn activity_of_event(e: Event, ctx: ActivityContext) -> Result<Option<CoinActivityView>, ExtractFailure> {
    match coin_event_of(e) {
        Err(_) => Err(ExtractFailure::Decode),
        Ok(None) => Ok(None),
        Ok(Some(c)) => if e.guid.creation_number > i64::MAX || e.sequence_number > i64::MAX {
            Err(ExtractFailure::Decode)
        } else {
            match coin_type_lookup(ctx.coin_types, e.guid) {
                None => Err(ExtractFailure::MissingCoinType(e.guid)),
                Some(coin_type) => Ok(
                    Some(
                        CoinActivityView {
                            transaction_version: ctx.version,
                            event_account_address: e.guid.account_address@,
                            event_creation_number: e.guid.creation_number as i64,
                            event_sequence_number: e.sequence_number as i64,
                            owner_address: e.guid.account_address@,
                            coin_type: coin_type@,
                            amount: c.spec_amount(),
                            activity_type: e.event_type@,
                            is_gas_fee: false,
                            is_transaction_success: ctx.success,
                            entry_function_id_str: ctx.entry_function_id,
                            inserted_at: ctx.inserted_at,
                        },
                    ),
                ),
            }
        },
    }
}

/// The activities of `events`, in emission order; the first failing event
/// fails the whole pass.
pub open spec fn event_pass(events: Seq<Event>, ctx: ActivityContext) -> Result<Seq<CoinActivityView>, ExtractFailure>
    decreases events.len(),
{
    if events.len() == 0 {
        Ok(Seq::empty())
    } else {
        match event_pass(events.drop_last(), ctx) {
            Err(f) => Err(f),
            Ok(acc) => match activity_of_event(events.last(), ctx) {
                Err(f) => Err(f),
                Ok(None) => Ok(acc),
                Ok(Some(a)) => Ok(acc.push(a)),
            },
        }
    }
}

pub open spec fn empty_data() -> CoinDataView {
    CoinDataView {
        coin_activities: Seq::empty(),
        coin_infos: Seq::empty(),
        coin_balances: Seq::empty(),
        current_coin_balances: Seq::empty(),
    }
}

/// The gas-fee activity of a user transaction, none for another.
pub open spec fn gas_activities(t: Transaction, inserted_at: i64) -> Seq<CoinActivityView> {
    match t.kind {
        TransactionKind::User(req) => seq![gas_activity(t, req, inserted_at)],
        _ => Seq::empty(),
    }
}

/// Everything one transaction yields, with `inserted_at` as the time of
/// insertion.
pub open spec fn extract(t: Transaction, inserted_at: i64) -> Result<CoinDataView, ExtractFailure> {
    if t.kind is Other {
        Ok(empty_data())
    } else {
        match supply_pass(t.changes@) {
            Err(_) => Err(ExtractFailure::Decode),
            Ok(values) => match resource_pass(t.changes@, t.version, values) {
                Err(_) => Err(ExtractFailure::Decode),
                Ok((infos, balances, coin_types)) => {
                    let ctx = ActivityContext {
                        version: t.version,
                        success: t.success,
                        coin_types,
                        entry_function_id: entry_function_id(t.kind),
                        inserted_at,
                    };
                    match event_pass(t.events@, ctx) {
                        Err(f) => Err(f),
                        Ok(acts) => Ok(
                            CoinDataView {
                                coin_activities: gas_activities(t, inserted_at) + acts,
                                coin_infos: infos,
                                coin_balances: balances,
                                current_coin_balances: latest_balances(balances, balances.len() as int),
                            },
                        ),
                    }
                },
            },
        }
    }
}

/// The coin-store event streams written by `t`, when its resources decode.
pub open spec fn coin_types_of(t: Transaction) -> Seq<EventCoinType> {
    resource_pass(t.changes@, t.version, supply_pass(t.changes@)->Ok_0)->Ok_0.2
}

/// `r` is what processing `t` at time `inserted_at` returns.
pub open spec fn extraction_result(t: Transaction, inserted_at: i64, r: Result<TransactionCoinData, ExtractError>) -> bool {
    match r {
        Ok(d) => extract(t, inserted_at) == Ok::<CoinDataView, ExtractFailure>(d@),
        Err(e) => extract(t, inserted_at) == Err::<CoinDataView, ExtractFailure>(e.failure())
            && e.spec_version() == t.version && match e {
            ExtractError::MissingCoinType { mapping, .. } => mapping@ == coin_types_of(t),
            _ => true,
        },
    }
}

/// Cuts `val` to at most `max_chars` characters.
pub fn truncate_str(val: &str, max_chars: usize) -> (r: String)
    ensures
        r@ == truncated(val@, max_chars as nat),
{
    if val.unicode_len() <= max_chars {
        String::from_str(val)
    } else {
        String::from_str(val.substring_char(0, max_chars))
    }
}

fn get_entry_function_id_str(kind: &TransactionKind) -> (r: Option<String>)
    ensures
        opt_view(r) == entry_function_id(*kind),
{
    match kind {
        TransactionKind::User(req) => match &req.payload {
            TransactionPayload::EntryFunction(f) => Some(truncate_str(f.as_str(), MAX_ENTRY_FUNCTION_ID_CHARS)),
            TransactionPayload::Other => None,
        },
        _ => None,
    }
}

fn clone_opt(o: &Option<String>) -> (r: Option<String>)
    ensures
        r == *o,
{
    match o {
        Some(s) => Some(s.clone()),
        None => None,
    }
}

/// Relies on chrono's `Utc::now` for the current time and on
/// `DateTime::timestamp_micros` to express it in microseconds since the Unix
/// epoch.
#[verifier::external_body]
fn now_micros() -> (r: i64) {
    chrono::Utc::now().timestamp_micros()
}

/// Once a prefix of the events fails, every longer prefix fails the same way.
pub proof fn lemma_event_pass_err_extends(events: Seq<Event>, ctx: ActivityContext, i: int, j: int)
    requires
        0 <= i <= j <= events.len(),
        event_pass(events.subrange(0, i), ctx) is Err,
    ensures
        event_pass(events.subrange(0, j), ctx) == event_pass(events.subrange(0, i), ctx),
    decreases j - i,
{
    if i < j {
        lemma_event_pass_err_extends(events, ctx, i, j - 1);
        assert(events.subrange(0, j).drop_last() =~= events.subrange(0, j - 1));
    }
}

pub open spec fn context(
    version: u64,
    success: bool,
    coin_types: Seq<EventCoinType>,
    entry_function_id: Option<Seq<char>>,
    inserted_at: i64,
) -> ActivityContext {
    ActivityContext { version, success, coin_types, entry_function_id, inserted_at }
}

impl CoinActivity {
    /// The gas fee that the sender of a user transaction pays: gas used times
    /// gas unit price, in the native coin.
    pub fn get_gas_event(t: &Transaction, req: &UserTransactionRequest, inserted_at: i64) -> (r: CoinActivity)
        ensures
            r@ == gas_activity(*t, *req, inserted_at),
    {
        proof {
            vstd::arithmetic::mul::lemma_mul_upper_bound(
                t.gas_used as int,
                u64::MAX as int,
                req.gas_unit_price as int,
                u64::MAX as int,
            );
        }
        let burned: u128 = (t.gas_used as u128) * (req.gas_unit_price as u128);
        CoinActivity {
            transaction_version: t.version,
            event_account_address: req.sender.clone(),
            event_creation_number: BURN_GAS_EVENT_CREATION_NUM,
            event_sequence_number: BURN_GAS_EVENT_SEQUENCE_NUM,
            owner_address: req.sender.clone(),
            coin_type: String::from_str(APTOS_COIN_TYPE),
            amount: burned,
            activity_type: String::from_str(BURN_GAS_EVENT),
            is_gas_fee: true,
            is_transaction_success: t.success,
            entry_function_id_str: None,
            inserted_at,
        }
    }

    /// The activity of a recognized coin event whose stream has coin type
    /// `coin_type`.
    fn from_parsed_event(
        event: &Event,
        coin_event: &CoinEvent,
        version: u64,
        success: bool,
        coin_type: String,
        entry_function_id_str: &Option<String>,
        inserted_at: i64,
    ) -> (r: CoinActivity)
        requires
            event.guid.creation_number <= i64::MAX,
            event.sequence_number <= i64::MAX,
        ensures
            r@ == (CoinActivityView {
                transaction_version: version,
                event_account_address: event.guid.account_address@,
                event_creation_number: event.guid.creation_number as i64,
                event_sequence_number: event.sequence_number as i64,
                owner_address: event.guid.account_address@,
                coin_type: coin_type@,
                amount: coin_event.spec_amount(),
                activity_type: event.event_type@,
                is_gas_fee: false,
                is_transaction_success: success,
                entry_function_id_str: opt_view(*entry_function_id_str),
                inserted_at,
            }),
    {
        CoinActivity {
            transaction_version: version,
            event_account_address: event.guid.account_address.clone(),
            event_creation_number: event.guid.creation_number as i64,
            event_sequence_number: event.sequence_number as i64,
            owner_address: event.guid.account_address.clone(),
            coin_type,
            amount: coin_event.amount(),
            activity_type: event.event_type.clone(),
            is_gas_fee: false,
            is_transaction_success: success,
            entry_function_id_str: clone_opt(entry_function_id_str),
            inserted_at,
        }
    }

    /// Appends the activities of `events` to `activities`; `coin_types` gives
    /// the coin type of each coin-store event stream.
    fn push_event_activities(
        events: &Vec<Event>,
        version: u64,
        success: bool,
        coin_types: Vec<EventCoinType>,
        entry_function_id_str: &Option<String>,
        inserted_at: i64,
        activities: &mut Vec<CoinActivity>,
    ) -> (r: Result<(), ExtractError>)
        ensures
            match r {
                Ok(()) => event_pass(
                    events@,
                    context(version, success, coin_types@, opt_view(*entry_function_id_str), inserted_at),
                ) is Ok && activities_view(final(activities)@) == activities_view(old(activities)@)
                    + event_pass(
                    events@,
                    context(version, success, coin_types@, opt_view(*entry_function_id_str), inserted_at),
                )->Ok_0,
                Err(e) => event_pass(
                    events@,
                    context(version, success, coin_types@, opt_view(*entry_function_id_str), inserted_at),
                ) == Err::<Seq<CoinActivityView>, ExtractFailure>(e.failure()) && e.spec_version() == version
                    && match e {
                    ExtractError::MissingCoinType { mapping, .. } => mapping@ == coin_types@,
                    _ => true,
                },
            },
    {
        let ghost ctx = context(version, success, coin_types@, opt_view(*entry_function_id_str), inserted_at);
        let ghost start = activities_view(activities@);
        let mut i: usize = 0;
        while i < events.len()
            invariant
                i <= events@.len(),
                ctx == context(version, success, coin_types@, opt_view(*entry_function_id_str), inserted_at),
                event_pass(events@.subrange(0, i as int), ctx) is Ok,
                activities_view(activities@) == start + event_pass(events@.subrange(0, i as int), ctx)->Ok_0,
            decreases events@.len() - i,
        {
            assert(events@.subrange(0, i + 1).drop_last() =~= events@.subrange(0, i as int));
            let event = &events[i];
            match CoinEvent::from_event(event) {
                Err(_) => {
                    proof {
                        lemma_event_pass_err_extends(events@, ctx, i + 1, events@.len() as int);
                        assert(events@.subrange(0, events@.len() as int) =~= events@);
                    }
                    return Err(ExtractError::DecodeError { version });
                },
                Ok(None) => {},
                Ok(Some(coin_event)) => {
                    if event.guid.creation_number > i64::MAX as u64 || event.sequence_number > i64::MAX as u64 {
                        proof {
                            lemma_event_pass_err_extends(events@, ctx, i + 1, events@.len() as int);
                            assert(events@.subrange(0, events@.len() as int) =~= events@);
                        }
                        return Err(ExtractError::DecodeError { version });
                    }
                    match lookup_coin_type(&coin_types, &event.guid) {
                        None => {
                            proof {
                                lemma_event_pass_err_extends(events@, ctx, i + 1, events@.len() as int);
                                assert(events@.subrange(0, events@.len() as int) =~= events@);
                            }
                            return Err(
                                ExtractError::MissingCoinType {
                                    version,
                                    guid: event.guid.copied(),
                                    mapping: coin_types,
                                },
                            );
                        },
                        Some(coin_type) => {
                            let a = Self::from_parsed_event(
                                event,
                                &coin_event,
                                version,
                                success,
                                coin_type,
                                entry_function_id_str,
                                inserted_at,
                            );
                            let ghost before = activities@;
                            activities.push(a);
                            assert(activities_view(activities@) =~= activities_view(before).push(a@));
                        },
                    }
                },
            }
            i = i + 1;
        }
        assert(events@.subrange(0, i as int) =~= events@);
        Ok(())
    }

    /// Processes one transaction, stamping its activities with `inserted_at`.
    pub fn from_transaction_at(t: &Transaction, inserted_at: i64) -> (r: Result<TransactionCoinData, ExtractError>)
        ensures
            extraction_result(*t, inserted_at, r),
    {
        if let TransactionKind::Other = &t.kind {
            let d = TransactionCoinData {
                coin_activities: Vec::new(),
                coin_infos: Vec::new(),
                coin_balances: Vec::new(),
                current_coin_balances: Vec::new(),
            };
            assert(d@.coin_activities =~= Seq::<CoinActivityView>::empty());
            return Ok(d);
        }
        let entry_function_id_str = get_entry_function_id_str(&t.kind);
        let mut activities: Vec<CoinActivity> = Vec::new();
        if let TransactionKind::User(req) = &t.kind {
            activities.push(Self::get_gas_event(t, req, inserted_at));
        }
        assert(activities_view(activities@) =~= gas_activities(*t, inserted_at));
        let values = match get_aggregator_supply_lookup(&t.changes) {
            Ok(v) => v,
            Err(_) => {
                return Err(ExtractError::DecodeError { version: t.version });
            },
        };
        let (infos, balances, coin_types) = match get_resource_records(&t.changes, t.version, &values) {
            Ok(x) => x,
            Err(_) => {
                return Err(ExtractError::DecodeError { version: t.version });
            },
        };
        let current = get_current_coin_balances(&balances);
        match Self::push_event_activities(
            &t.events,
            t.version,
            t.success,
            coin_types,
            &entry_function_id_str,
            inserted_at,
            &mut activities,
        ) {
            Ok(()) => {},
            Err(e) => {
                return Err(e);
            },
        }
        Ok(
            TransactionCoinData {
                coin_activities: activities,
                coin_infos: infos,
                coin_balances: balances,
                current_coin_balances: current,
            },
        )
    }

    /// Processes one transaction, stamping its activities with the current
    /// time.
    pub fn from_transaction(t: &Transaction) -> (r: Result<TransactionCoinData, ExtractError>)
        ensures
            exists|inserted_at: i64| extraction_result(*t, inserted_at, r),
    {
        let inserted_at = now_micros();
        Self::from_transaction_at(t, inserted_at)
    }
}

/// Number of events that the classifier recognizes as withdraws or deposits.
pub open spec fn recognized_count(events: Seq<Event>) -> nat
    decreases events.len(),
{
    if events.len() == 0 {
        0
    } else {
        recognized_count(events.drop_last()) + if coin_event_of(events.last()) matches Ok(Some(_)) {
            1nat
        } else {
            0nat
        }
    }
}

/// A successful event pass yields one activity per recognized event, each
/// of a real event type and none a gas fee.
pub proof fn lemma_event_pass_activities(events: Seq<Event>, ctx: ActivityContext)
    requires
        event_pass(events, ctx) is Ok,
    ensures
        event_pass(events, ctx)->Ok_0.len() == recognized_count(events),
        forall|i: int|
            0 <= i < event_pass(events, ctx)->Ok_0.len() ==> is_coin_event_type(
                (#[trigger] event_pass(events, ctx)->Ok_0[i]).activity_type,
            ) && !event_pass(events, ctx)->Ok_0[i].is_gas_fee,
    decreases events.len(),
{
    if events.len() > 0 {
        lemma_event_pass_activities(events.drop_last(), ctx);
    }
}

/// Every transaction but those of a kind that carries no ledger state yields
/// one activity per recognized withdraw or deposit event, plus one for the
/// gas fee when a user submitted it.
pub proof fn lemma_activity_count(t: Transaction, inserted_at: i64)
    requires
        !(t.kind is Other),
        extract(t, inserted_at) is Ok,
    ensures
        extract(t, inserted_at)->Ok_0.coin_activities.len() == recognized_count(t.events@) + if t.kind is User {
            1int
        } else {
            0int
        },
{
    let values = supply_pass(t.changes@)->Ok_0;
    let records = resource_pass(t.changes@, t.version, values)->Ok_0;
    let ctx = ActivityContext {
        version: t.version,
        success: t.success,
        coin_types: records.2,
        entry_function_id: entry_function_id(t.kind),
        inserted_at,
    };
    lemma_event_pass_activities(t.events@, ctx);
}

/// The gas fee of a user transaction comes first: it carries the reserved
/// creation and sequence numbers, gas used times gas unit price as its
/// amount, the transaction's own outcome, and an activity type that no other
/// activity of the transaction has.
pub proof fn lemma_gas_fee_activity(t: Transaction, inserted_at: i64)
    requires
        t.kind is User,
        extract(t, inserted_at) is Ok,
    ensures
        ({
            let acts = extract(t, inserted_at)->Ok_0.coin_activities;
            &&& acts.len() >= 1
            &&& acts[0].event_creation_number == -1
            &&& acts[0].event_sequence_number == -1
            &&& acts[0].is_gas_fee
            &&& acts[0].amount == t.gas_used as int * (t.kind->User_0).gas_unit_price as int
            &&& acts[0].is_transaction_success == t.success
            &&& acts[0].coin_type == APTOS_COIN_TYPE@
            &&& !is_coin_event_type(acts[0].activity_type)
            &&& forall|i: int| 1 <= i < acts.len() ==> (#[trigger] acts[i]).activity_type != acts[0].activity_type
        }),
{
    let values = supply_pass(t.changes@)->Ok_0;
    let records = resource_pass(t.changes@, t.version, values)->Ok_0;
    let ctx = ActivityContext {
        version: t.version,
        success: t.success,
        coin_types: records.2,
        entry_function_id: entry_function_id(t.kind),
        inserted_at,
    };
    lemma_event_pass_activities(t.events@, ctx);
    let req = t.kind->User_0;
    vstd::arithmetic::mul::lemma_mul_upper_bound(
        t.gas_used as int,
        u64::MAX as int,
        req.gas_unit_price as int,
        u64::MAX as int,
    );
    reveal_strlit("0x1::aptos_coin::GasBurnEvent");
    reveal_strlit("0x1::coin::WithdrawEvent");
    reveal_strlit("0x1::coin::DepositEvent");
    assert(BURN_GAS_EVENT@.len() != WITHDRAW_EVENT@.len());
    assert(BURN_GAS_EVENT@.len() != DEPOSIT_EVENT@.len());
    let acts = extract(t, inserted_at)->Ok_0.coin_activities;
    let evs = event_pass(t.events@, ctx)->Ok_0;
    assert forall|i: int| 1 <= i < acts.len() implies (#[trigger] acts[i]).activity_type != acts[0].activity_type by {
        assert(acts[i] == evs[i - 1]);
        assert(is_coin_event_type(evs[i - 1].activity_type));
    }
}

/// When a transaction writes several coin stores of one (owner, coin type),
/// its current balance of that key is the one of the last such write in
/// change order, and no other current balance has that key.
pub proof fn lemma_current_balance_of_last_write(t: Transaction, inserted_at: i64, j: int)
    requires
        extract(t, inserted_at) is Ok,
        0 <= j < extract(t, inserted_at)->Ok_0.coin_balances.len(),
        is_latest(extract(t, inserted_at)->Ok_0.coin_balances, j),
    ensures
        ({
            let d = extract(t, inserted_at)->Ok_0;
            &&& d.current_coin_balances.contains(current_of(d.coin_balances[j]))
            &&& forall|i: int|
                0 <= i < d.current_coin_balances.len() && (#[trigger] d.current_coin_balances[i]).owner_address@
                    == d.coin_balances[j].owner_address@ && d.current_coin_balances[i].coin_type@
                    == d.coin_balances[j].coin_type@ ==> d.current_coin_balances[i] == current_of(
                    d.coin_balances[j],
                )
        }),
{
    let d = extract(t, inserted_at)->Ok_0;
    lemma_last_write_wins(d.coin_balances, j);
}

/// An activity with its insertion time cleared.
pub open spec fn untimed(a: CoinActivityView) -> CoinActivityView {
    CoinActivityView { inserted_at: 0, ..a }
}

pub open spec fn untimed_all(s: Seq<CoinActivityView>) -> Seq<CoinActivityView> {
    s.map_values(|a: CoinActivityView| untimed(a))
}

/// The event pass does not depend on the insertion time beyond stamping it.
pub proof fn lemma_event_pass_untimed(events: Seq<Event>, c1: ActivityContext, c2: ActivityContext)
    requires
        c1.version == c2.version,
        c1.success == c2.success,
        c1.coin_types == c2.coin_types,
        c1.entry_function_id == c2.entry_function_id,
    ensures
        event_pass(events, c1) is Ok <==> event_pass(events, c2) is Ok,
        event_pass(events, c1) is Err ==> event_pass(events, c1) == event_pass(events, c2),
        event_pass(events, c1) is Ok ==> untimed_all(event_pass(events, c1)->Ok_0) == untimed_all(
            event_pass(events, c2)->Ok_0,
        ),
    decreases events.len(),
{
    if events.len() > 0 {
        lemma_event_pass_untimed(events.drop_last(), c1, c2);
        let p1 = event_pass(events.drop_last(), c1);
        let p2 = event_pass(events.drop_last(), c2);
        if p1 is Ok {
            let a1 = activity_of_event(events.last(), c1);
            let a2 = activity_of_event(events.last(), c2);
            if a1 is Ok && a1->Ok_0 is Some {
                let x1 = a1->Ok_0->Some_0;
                let x2 = a2->Ok_0->Some_0;
                assert(untimed(x1) == untimed(x2));
                assert(untimed_all(p1->Ok_0.push(x1)) =~= untimed_all(p1->Ok_0).push(untimed(x1)));
                assert(untimed_all(p2->Ok_0.push(x2)) =~= untimed_all(p2->Ok_0).push(untimed(x2)));
            }
        }
    }
}

/// Processing the same transaction twice gives the same outcome: the same
/// failure, or the same records but for the insertion time of activities.
pub proof fn lemma_extract_idempotent(t: Transaction, at1: i64, at2: i64)
    ensures
        extract(t, at1) is Ok <==> extract(t, at2) is Ok,
        extract(t, at1) is Err ==> extract(t, at1) == extract(t, at2),
        extract(t, at1) is Ok ==> ({
            let d1 = extract(t, at1)->Ok_0;
            let d2 = extract(t, at2)->Ok_0;
            &&& untimed_all(d1.coin_activities) == untimed_all(d2.coin_activities)
            &&& d1.coin_infos == d2.coin_infos
            &&& d1.coin_balances == d2.coin_balances
            &&& d1.current_coin_balances == d2.current_coin_balances
        }),
{
    if !(t.kind is Other) && supply_pass(t.changes@) is Ok {
        let values = supply_pass(t.changes@)->Ok_0;
        if resource_pass(t.changes@, t.version, values) is Ok {
            let records = resource_pass(t.changes@, t.version, values)->Ok_0;
            let c1 = ActivityContext {
                version: t.version,
                success: t.success,
                coin_types: records.2,
                entry_function_id: entry_function_id(t.kind),
                inserted_at: at1,
            };
            let c2 = ActivityContext { inserted_at: at2, ..c1 };
            lemma_event_pass_untimed(t.events@, c1, c2);
            if event_pass(t.events@, c1) is Ok {
                let g1 = gas_activities(t, at1);
                let g2 = gas_activities(t, at2);
                let e1 = event_pass(t.events@, c1)->Ok_0;
                let e2 = event_pass(t.events@, c2)->Ok_0;
                assert(untimed_all(g1) =~= untimed_all(g2));
                assert(untimed_all(g1 + e1) =~= untimed_all(g1) + untimed_all(e1));
                assert(untimed_all(g2 + e2) =~= untimed_all(g2) + untimed_all(e2));
            }
        }
    } else if t.kind is Other {
        assert(untimed_all(empty_data().coin_activities) =~= untimed_all(empty_data().coin_activities));
    }
}

} // verus!
