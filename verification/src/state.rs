use vstd::prelude::*;

use crate::error::{ContractError, ErrorV};
use crate::msg::{Coin, CoinV};

verus! {

/// The persisted data model: typed accessors over the three keyed values
/// the contract keeps — the counter, the minimal-donation threshold and
/// the owner identity.
///
/// The handlers receive an explicit handle to this store; the host is the
/// one that persists it between invocations and rolls it back when an
/// invocation fails.  A value is `None` while its key was never set.
#[derive(Debug, Clone)]
pub struct StateStore {
    counter: Option<u64>,
    minimal_donation: Option<Coin>,
    owner: Option<String>,
}

/// Mathematical image of the store: each key either absent or carrying
/// its abstract value.
#[verifier::ext_equal]
pub ghost struct StateV {
    pub counter: Option<u64>,
    pub minimal_donation: Option<CoinV>,
    pub owner: Option<Seq<char>>,
}

impl View for StateStore {
    type V = StateV;

    closed spec fn view(&self) -> StateV {
        StateV {
            counter: self.counter,
            minimal_donation: match self.minimal_donation {
                Some(c) => Some(c@),
                None => None,
            },
            owner: match self.owner {
                Some(o) => Some(o@),
                None => None,
            },
        }
    }
}

impl StateStore {
    /// A store in which no key was ever set.
    pub fn new() -> (s: StateStore)
        ensures
            s@ == (StateV { counter: None, minimal_donation: None, owner: None }),
    {
        StateStore { counter: None, minimal_donation: None, owner: None }
    }

    /// Reads the counter; fails with `NotFound` if it was never set.
    pub fn get_counter(&self) -> (r: Result<u64, ContractError>)
        ensures
            match r {
                Ok(v) => self@.counter == Some(v),
                Err(e) => self@.counter is None && e@ == ErrorV::NotFound,
            },
    {
        match self.counter {
            Some(v) => Ok(v),
            None => Err(ContractError::NotFound),
        }
    }

    /// Reads the minimal-donation threshold; fails with `NotFound` if it
    /// was never set.
    pub fn get_minimal_donation(&self) -> (r: Result<&Coin, ContractError>)
        ensures
            match r {
                Ok(c) => self@.minimal_donation == Some(c@),
                Err(e) => self@.minimal_donation is None && e@ == ErrorV::NotFound,
            },
    {
        match &self.minimal_donation {
            Some(c) => Ok(c),
            None => Err(ContractError::NotFound),
        }
    }

    /// Reads the owner identity; fails with `NotFound` if it was never set.
    pub fn get_owner(&self) -> (r: Result<&String, ContractError>)
        ensures
            match r {
                Ok(o) => self@.owner == Some(o@),
                Err(e) => self@.owner is None && e@ == ErrorV::NotFound,
            },
    {
        match &self.owner {
            Some(o) => Ok(o),
            None => Err(ContractError::NotFound),
        }
    }

    /// Overwrites the counter unconditionally.
    pub fn set_counter(&mut self, value: u64)
        ensures
            final(self)@ == (StateV { counter: Some(value), ..old(self)@ }),
    {
        self.counter = Some(value);
    }

    /// Overwrites the minimal-donation threshold unconditionally.
    pub fn set_minimal_donation(&mut self, value: Coin)
        ensures
            final(self)@ == (StateV { minimal_donation: Some(value@), ..old(self)@ }),
    {
        self.minimal_donation = Some(value);
    }

    /// Overwrites the owner identity unconditionally.
    pub fn set_owner(&mut self, value: String)
        ensures
            final(self)@ == (StateV { owner: Some(value@), ..old(self)@ }),
    {
        self.owner = Some(value);
    }
}

} // verus!
