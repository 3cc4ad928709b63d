use vstd::prelude::*;

pub mod exec;
pub mod query;

use crate::error::{ContractError, ErrorV};
use crate::msg::{Coin, CoinV, MessageInfo, Response, ResponseV, empty_response};
use crate::state::{StateStore, StateV};

verus! {

/// How an executable handler relates to its mathematical transition `tr`:
/// on success the response and the new store are the transition's; on
/// failure the error is the transition's and the store is left unchanged,
/// so a failed invocation never makes a mutation visible.
pub open spec fn steps_to(
    tr: Result<(StateV, ResponseV), ErrorV>,
    s_old: StateV,
    s_new: StateV,
    r: Result<Response, ContractError>,
) -> bool {
    match tr {
        Ok((s2, respv)) => r matches Ok(resp) && resp@ == respv && s_new == s2,
        Err(e) => r matches Err(err) && err@ == e && s_new == s_old,
    }
}

/// The authorization rule: the stored owner must exist and equal the
/// caller; otherwise the caller learns who the owner is.
pub open spec fn spec_authorize(owner: Option<Seq<char>>, sender: Seq<char>) -> Result<
    (),
    ErrorV,
> {
    match owner {
        None => Err(ErrorV::NotFound),
        Some(o) => if sender != o {
            Err(ErrorV::Unauthorized { owner: o })
        } else {
            Ok(())
        },
    }
}

/// The authorization guard, shared by every owner-restricted handler and
/// invoked before any state mutation.
pub fn authorize(store: &StateStore, info: &MessageInfo) -> (r: Result<(), ContractError>)
    ensures
        match spec_authorize(store@.owner, info@.sender) {
            Ok(_) => r is Ok,
            Err(e) => r matches Err(err) && err@ == e,
        },
{
    let owner = match store.get_owner() {
        Ok(o) => o,
        Err(e) => return Err(e),
    };
    if info.sender != *owner {
        Err(ContractError::Unauthorized { owner: owner.clone() })
    } else {
        Ok(())
    }
}

/// Instantiation writes all three keys unconditionally: the counter and
/// threshold from the request, and the caller as owner.
pub open spec fn spec_instantiate(
    s: StateV,
    sender: Seq<char>,
    counter: u64,
    minimal_donation: CoinV,
) -> (StateV, ResponseV) {
    (
        StateV {
            counter: Some(counter),
            minimal_donation: Some(minimal_donation),
            owner: Some(sender),
        },
        empty_response(),
    )
}

/// Establishes the whole persisted state.  No authorization applies:
/// whoever instantiates becomes owner.  Runs exactly once per contract
/// lifetime, before any other handler.
pub fn instantiate(
    store: &mut StateStore,
    info: &MessageInfo,
    counter: u64,
    minimal_donation: Coin,
) -> (r: Result<Response, ContractError>)
    ensures
        steps_to(
            Ok(spec_instantiate(old(store)@, info@.sender, counter, minimal_donation@)),
            old(store)@,
            final(store)@,
            r,
        ),
{
    store.set_counter(counter);
    store.set_minimal_donation(minimal_donation);
    store.set_owner(info.sender.clone());
    Ok(Response::new())
}

} // verus!
