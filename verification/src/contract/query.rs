use vstd::prelude::*;

use crate::error::{ContractError, ErrorV};
use crate::msg::ValueResp;
use crate::state::{StateStore, StateV};

verus! {

/// The value query returns the stored counter, and `NotFound` if the
/// counter was never initialized.
pub open spec fn spec_value(s: StateV) -> Result<ValueResp, ErrorV> {
    match s.counter {
        Some(v) => Ok(ValueResp { value: v }),
        None => Err(ErrorV::NotFound),
    }
}

/// The incremented query is pure: the input plus one, with a hard
/// `Overflow` error at the end of the numeric range.
pub open spec fn spec_incremented(value: u64) -> Result<ValueResp, ErrorV> {
    if value == u64::MAX {
        Err(ErrorV::Overflow)
    } else {
        Ok(ValueResp { value: (value + 1) as u64 })
    }
}

/// Loads the counter and returns it wrapped in a response value.
pub fn value(store: &StateStore) -> (r: Result<ValueResp, ContractError>)
    ensures
        match spec_value(store@) {
            Ok(v) => r matches Ok(resp) && resp == v,
            Err(e) => r matches Err(err) && err@ == e,
        },
{
    let value = match store.get_counter() {
        Ok(v) => v,
        Err(e) => return Err(e),
    };
    Ok(ValueResp { value })
}

/// Returns the given value incremented by one.  Touches no state; the
/// only failure is `Overflow` at the end of the numeric range.
pub fn incremented(value: u64) -> (r: Result<ValueResp, ContractError>)
    ensures
        match spec_incremented(value) {
            Ok(v) => r matches Ok(resp) && resp == v,
            Err(e) => r matches Err(err) && err@ == e,
        },
{
    if value == u64::MAX {
        Err(ContractError::Overflow)
    } else {
        Ok(ValueResp { value: value + 1 })
    }
}

} // verus!
