//! A minimal persistent counter with donation-gated incrementing and
//! owner-restricted administration.
//!
//! The contract is a deterministic state-transition core: the host hands
//! each call to exactly one handler together with an explicit handle to
//! the persisted state, the caller's identity and attached funds, and —
//! for the withdrawing commands — the contract's current balance.  A
//! handler reads the state it needs, applies its rule, writes at most the
//! counter, and returns either a response (attributes plus transfer
//! instructions for the host to execute) or a typed failure that the host
//! treats as a full rollback.

use vstd::prelude::*;

pub mod contract;
pub mod error;
pub mod laws;
pub mod msg;
pub mod num;
pub mod state;

use crate::contract::exec::{spec_donate, spec_reset, spec_withdraw, spec_withdraw_to,
    donate_overflows};
use crate::contract::query::{spec_incremented, spec_value};
use crate::contract::{spec_instantiate, steps_to};
use crate::error::{ContractError, ErrorV};
use crate::msg::{Coin, CoinV, ExecMsg, ExecMsgV, InstantiateMsg, MessageInfo, MessageInfoV,
    QueryMsg, Response, ResponseV, ValueResp};
use crate::state::{StateStore, StateV};

verus! {

/// One command dispatched to the handler of its variant.
pub open spec fn spec_execute(
    s: StateV,
    info: MessageInfoV,
    balance: Seq<CoinV>,
    msg: ExecMsgV,
) -> Result<(StateV, ResponseV), ErrorV> {
    match msg {
        ExecMsgV::Donate => spec_donate(s, info),
        ExecMsgV::Reset { counter } => spec_reset(s, info, counter),
        ExecMsgV::Withdraw => spec_withdraw(s, info, balance),
        ExecMsgV::WithdrawTo { receiver, funds } => spec_withdraw_to(
            s,
            info,
            balance,
            receiver,
            funds,
        ),
    }
}

/// One query dispatched to the handler of its variant.
pub open spec fn spec_query(s: StateV, msg: QueryMsg) -> Result<ValueResp, ErrorV> {
    match msg {
        QueryMsg::Value {} => spec_value(s),
        QueryMsg::Incremented { value } => spec_incremented(value),
    }
}

/// Creates the contract: writes the counter and threshold from the
/// request and records the caller as owner.  Runs exactly once, before
/// any other handler.
pub fn instantiate(store: &mut StateStore, info: &MessageInfo, msg: InstantiateMsg) -> (r: Result<
    Response,
    ContractError,
>)
    ensures
        steps_to(
            Ok(spec_instantiate(old(store)@, info@.sender, msg@.counter, msg@.minimal_donation)),
            old(store)@,
            final(store)@,
            r,
        ),
{
    contract::instantiate(store, info, msg.counter, msg.minimal_donation)
}

/// Handles one state-changing command.  `contract_balance` is the
/// contract's own current balance as the host reports it; only the
/// withdrawing commands consume it.
pub fn execute(
    store: &mut StateStore,
    info: &MessageInfo,
    contract_balance: Vec<Coin>,
    msg: ExecMsg,
) -> (r: Result<Response, ContractError>)
    requires
        msg@ is Donate ==> !donate_overflows(old(store)@, info@.funds),
    ensures
        steps_to(
            spec_execute(old(store)@, info@, contract_balance.deep_view(), msg@),
            old(store)@,
            final(store)@,
            r,
        ),
{
    match msg {
        ExecMsg::Donate {} => contract::exec::donate(store, info),
        ExecMsg::Reset { counter } => contract::exec::reset(store, info, counter),
        ExecMsg::Withdraw {} => contract::exec::withdraw(store, info, contract_balance),
        ExecMsg::WithdrawTo { receiver, funds } => contract::exec::withdraw_to(
            store,
            info,
            contract_balance,
            receiver,
            funds,
        ),
    }
}

/// Handles one read-only query.  Takes the store immutably: no query can
/// mutate persisted state.
pub fn query(store: &StateStore, msg: QueryMsg) -> (r: Result<ValueResp, ContractError>)
    ensures
        match spec_query(store@, msg) {
            Ok(v) => r matches Ok(resp) && resp == v,
            Err(e) => r matches Err(err) && err@ == e,
        },
{
    match msg {
        QueryMsg::Value {} => contract::query::value(store),
        QueryMsg::Incremented { value } => contract::query::incremented(value),
    }
}

} // verus!
