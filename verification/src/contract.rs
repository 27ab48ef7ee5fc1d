//! The entry points and the command-handling logic.
//!
//! Each entry point is specified against a spec-level step function on the
//! store's mathematical value (`Option<StateView>`): the step function says
//! which record results, or which error, and the entry point's contract ties
//! the executed store mutation and the returned attributes to that step.

use vstd::prelude::*;
use crate::digits::{dec_of, to_dec_string};
use crate::error::ContractError;
use crate::msg::{CountResponse, ExecuteMsg, InstantiateMsg, MigrateMsg, QueryMsg};
use crate::response::{add_attribute, resp_attrs, resp_is_plain, response_new};
use crate::state::{State, StateView, Store};

verus! {

/// The version reported by the migrate entry point.
pub open spec fn version_view() -> Seq<char> {
    "0.1.0"@
}

/// The attribute list a successful command reports: its method name, the
/// record's owner, and the record's count rendered in decimal.
pub open spec fn attrs_of(method: Seq<char>, owner: Seq<char>, count: u8) -> Seq<
    (Seq<char>, Seq<char>),
> {
    seq![("method"@, method), ("owner"@, owner), ("count"@, dec_of(count as nat))]
}

/// What initialize decides: a fresh record, unless one already exists.
pub open spec fn step_instantiate(
    s: Option<StateView>,
    sender: Seq<char>,
    count: u8,
) -> Result<StateView, ContractError> {
    if s is Some {
        Err(ContractError::AlreadyInitialized)
    } else {
        Ok(StateView { owner: sender, count })
    }
}

/// What increment decides: one more than the current count, unless no record
/// exists or the count is already at its maximum.
pub open spec fn step_increment(s: Option<StateView>) -> Result<StateView, ContractError> {
    match s {
        Option::None => Err(ContractError::NotFound),
        Option::Some(st) => if st.count == 255 {
            Err(ContractError::Overflow)
        } else {
            Ok(StateView { owner: st.owner, count: (st.count + 1) as u8 })
        },
    }
}

/// What set decides: the given count, unless no record exists.
pub open spec fn step_set(s: Option<StateView>, count: u8) -> Result<StateView, ContractError> {
    match s {
        Option::None => Err(ContractError::NotFound),
        Option::Some(st) => Ok(StateView { owner: st.owner, count }),
    }
}

/// What execute decides for a command.
pub open spec fn step_execute(s: Option<StateView>, msg: ExecuteMsg) -> Result<
    StateView,
    ContractError,
> {
    match msg {
        ExecuteMsg::Increment {} => step_increment(s),
        ExecuteMsg::SetCount { count } => step_set(s, count),
    }
}

/// What a count query answers: the current count, unless no record exists.
pub open spec fn step_query(s: Option<StateView>) -> Result<u8, ContractError> {
    match s {
        Option::None => Err(ContractError::NotFound),
        Option::Some(st) => Ok(st.count),
    }
}

/// Creates the record `{owner: sender, count: msg.count}` and persists it,
/// or fails with `AlreadyInitialized` if a record already exists.
pub fn instantiate(store: &mut Store, sender: String, msg: InstantiateMsg) -> (r: Result<
    cosmwasm_std::Response,
    ContractError,
>)
    ensures
        (match step_instantiate(old(store)@, sender@, msg.count) {
            Ok(rec) => final(store)@ == Some(rec) && (r matches Ok(resp) && resp_attrs(resp)
                == attrs_of("instantiate"@, rec.owner, rec.count) && resp_is_plain(resp)),
            Err(e) => final(store)@ == old(store)@ && r == Err::<
                cosmwasm_std::Response,
                ContractError,
            >(e),
        }),
{
    if store.load().is_ok() {
        return Err(ContractError::AlreadyInitialized);
    }
    let owner_attr = sender.clone();
    let count = msg.count;
    store.save(State { owner: sender, count });

    let resp = response_new();
    proof {
        reveal_strlit("method");
        reveal_strlit("owner");
        reveal_strlit("count");
    }
    let resp = add_attribute(resp, "method".to_owned(), "instantiate".to_owned());
    let resp = add_attribute(resp, "owner".to_owned(), owner_attr);
    let resp = add_attribute(resp, "count".to_owned(), to_dec_string(count));
    proof {
        assert(resp_attrs(resp) =~= attrs_of("instantiate"@, sender@, count));
    }
    Ok(resp)
}

/// Dispatches a command to [`increment`] or [`set`].
pub fn execute(store: &mut Store, msg: ExecuteMsg) -> (r: Result<
    cosmwasm_std::Response,
    ContractError,
>)
    ensures
        (match step_execute(old(store)@, msg) {
            Ok(rec) => final(store)@ == Some(rec) && (r matches Ok(resp) && resp_attrs(resp)
                == attrs_of(
                (match msg {
                    ExecuteMsg::Increment {} => "increment"@,
                    ExecuteMsg::SetCount { .. } => "set"@,
                }),
                rec.owner,
                rec.count,
            ) && resp_is_plain(resp)),
            Err(e) => final(store)@ == old(store)@ && r == Err::<
                cosmwasm_std::Response,
                ContractError,
            >(e),
        }),
{
    match msg {
        ExecuteMsg::Increment {} => increment(store),
        ExecuteMsg::SetCount { count } => set(store, count),
    }
}

/// Adds one to the persisted count, or fails with `NotFound` before
/// initialization and with `Overflow` when the count is already 255. On
/// failure the store is left untouched.
pub fn increment(store: &mut Store) -> (r: Result<cosmwasm_std::Response, ContractError>)
    ensures
        (match step_increment(old(store)@) {
            Ok(rec) => final(store)@ == Some(rec) && (r matches Ok(resp) && resp_attrs(resp)
                == attrs_of("increment"@, rec.owner, rec.count) && resp_is_plain(resp)),
            Err(e) => final(store)@ == old(store)@ && r == Err::<
                cosmwasm_std::Response,
                ContractError,
            >(e),
        }),
{
    let (owner, count) = match store.load() {
        Ok(state) => (state.owner.clone(), state.count),
        Err(e) => {
            return Err(e);
        },
    };
    if count == 255 {
        return Err(ContractError::Overflow);
    }
    let new_count = count + 1;
    let owner_attr = owner.clone();
    store.save(State { owner, count: new_count });

    let resp = response_new();
    proof {
        reveal_strlit("method");
        reveal_strlit("owner");
        reveal_strlit("count");
    }
    let resp = add_attribute(resp, "method".to_owned(), "increment".to_owned());
    let resp = add_attribute(resp, "owner".to_owned(), owner_attr);
    let resp = add_attribute(resp, "count".to_owned(), to_dec_string(new_count));
    proof {
        let rec = step_increment(old(store)@)->Ok_0;
        assert(resp_attrs(resp) =~= attrs_of("increment"@, rec.owner, rec.count));
    }
    Ok(resp)
}

/// Overwrites the persisted count with `count`, or fails with `NotFound`
/// before initialization. The owner is untouched.
pub fn set(store: &mut Store, count: u8) -> (r: Result<cosmwasm_std::Response, ContractError>)
    ensures
        (match step_set(old(store)@, count) {
            Ok(rec) => final(store)@ == Some(rec) && (r matches Ok(resp) && resp_attrs(resp)
                == attrs_of("set"@, rec.owner, rec.count) && resp_is_plain(resp)),
            Err(e) => final(store)@ == old(store)@ && r == Err::<
                cosmwasm_std::Response,
                ContractError,
            >(e),
        }),
{
    let owner = match store.load() {
        Ok(state) => state.owner.clone(),
        Err(e) => {
            return Err(e);
        },
    };
    let owner_attr = owner.clone();
    store.save(State { owner, count });

    let resp = response_new();
    proof {
        reveal_strlit("method");
        reveal_strlit("owner");
        reveal_strlit("count");
    }
    let resp = add_attribute(resp, "method".to_owned(), "set".to_owned());
    let resp = add_attribute(resp, "owner".to_owned(), owner_attr);
    let resp = add_attribute(resp, "count".to_owned(), to_dec_string(count));
    proof {
        let rec = step_set(old(store)@, count)->Ok_0;
        assert(resp_attrs(resp) =~= attrs_of("set"@, rec.owner, rec.count));
    }
    Ok(resp)
}

/// Dispatches a query to [`query_state`].
pub fn query(store: &Store, msg: QueryMsg) -> (r: Result<CountResponse, ContractError>)
    ensures
        (match step_query(store@) {
            Ok(count) => r == Ok::<CountResponse, ContractError>(CountResponse { count }),
            Err(e) => r == Err::<CountResponse, ContractError>(e),
        }),
{
    match msg {
        QueryMsg::GetCount {} => query_state(store),
    }
}

/// Answers the current count, or fails with `NotFound` before initialization.
/// Never mutates anything.
pub fn query_state(store: &Store) -> (r: Result<CountResponse, ContractError>)
    ensures
        (match step_query(store@) {
            Ok(count) => r == Ok::<CountResponse, ContractError>(CountResponse { count }),
            Err(e) => r == Err::<CountResponse, ContractError>(e),
        }),
{
    match store.load() {
        Ok(state) => Ok(CountResponse { count: state.count }),
        Err(e) => Err(e),
    }
}

/// Reports the component version; touches no state and always succeeds.
pub fn migrate(_msg: MigrateMsg) -> (r: Result<cosmwasm_std::Response, ContractError>)
    ensures
        (r matches Ok(resp) && resp_attrs(resp) == seq![
            ("method"@, "migrate"@),
            ("version"@, version_view()),
        ] && resp_is_plain(resp)),
{
    let resp = response_new();
    proof {
        reveal_strlit("method");
        reveal_strlit("version");
    }
    let resp = add_attribute(resp, "method".to_owned(), "migrate".to_owned());
    let resp = add_attribute(resp, "version".to_owned(), "0.1.0".to_owned());
    proof {
        assert(resp_attrs(resp) =~= seq![("method"@, "migrate"@), ("version"@, version_view())]);
    }
    Ok(resp)
}

/// The store value after applying [`step_increment`] `n` times, a failing
/// step leaving the value as it was.
pub open spec fn after_increments(s: Option<StateView>, n: nat) -> Option<StateView>
    decreases n,
{
    if n == 0 {
        s
    } else {
        let prev = after_increments(s, (n - 1) as nat);
        match step_increment(prev) {
            Ok(rec) => Some(rec),
            Err(_) => prev,
        }
    }
}

/// Law: initializing an empty store records the supplied owner and count
/// exactly, and a query of the resulting record answers that count.
pub proof fn lemma_instantiate_then_query(sender: Seq<char>, count: u8)
    ensures
        (step_instantiate(None, sender, count) matches Ok(rec) && rec.owner == sender && rec.count
            == count && step_query(Some(rec)) == Ok::<u8, ContractError>(count)),
{
}

/// Law: `n` increments applied to a record whose count is `c`, where
/// `c + n <= 255`, keep the owner and leave a record whose count a query
/// answers as `c + n`.
pub proof fn lemma_increment_n(rec: StateView, n: nat)
    requires
        rec.count + n <= 255,
    ensures
        (after_increments(Some(rec), n) matches Some(r2) && r2.owner == rec.owner && r2.count
            == rec.count + n && step_query(Some(r2)) == Ok::<u8, ContractError>(
            (rec.count + n) as u8,
        )),
    decreases n,
{
    if n > 0 {
        lemma_increment_n(rec, (n - 1) as nat);
    }
}

/// Law: increment on a record whose count is already 255 fails with
/// `Overflow`, and a query still answers 255 (increment's contract leaves a
/// store untouched whenever the step fails).
pub proof fn lemma_increment_overflow(rec: StateView)
    requires
        rec.count == 255,
    ensures
        step_increment(Some(rec)) == Err::<StateView, ContractError>(ContractError::Overflow),
        step_query(Some(rec)) == Ok::<u8, ContractError>(255u8),
{
}

/// Law: setting `v` on any existing record succeeds regardless of the prior
/// count, keeps the owner, and a query then answers `v`.
pub proof fn lemma_set_then_query(rec: StateView, v: u8)
    ensures
        (step_set(Some(rec), v) matches Ok(r2) && r2.owner == rec.owner && step_query(Some(r2))
            == Ok::<u8, ContractError>(v)),
{
}

/// Law: before initialization every command and every query fails with
/// `NotFound`.
pub proof fn lemma_uninitialized(msg: ExecuteMsg)
    ensures
        step_execute(None, msg) == Err::<StateView, ContractError>(ContractError::NotFound),
        step_query(None) == Err::<u8, ContractError>(ContractError::NotFound),
{
}

} // verus!
