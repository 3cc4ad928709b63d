use vstd::prelude::*;

use crate::contract::exec::{first_cap, min_u128, qualifies, spec_donate, spec_reset,
    spec_withdraw, spec_withdraw_to};
use crate::contract::query::{spec_incremented, spec_value};
use crate::contract::spec_instantiate;
use crate::error::ErrorV;
use crate::msg::{BankMsgV, CoinV, MessageInfoV, ValueResp};
use crate::state::StateV;

verus! {

/// After instantiation with initial counter `c0`, the value query
/// returns exactly `c0`, whatever the store held before and whatever the
/// threshold is.
pub proof fn lemma_value_after_instantiate(s: StateV, sender: Seq<char>, c0: u64, md: CoinV)
    ensures
        spec_value(spec_instantiate(s, sender, c0, md).0) == Ok::<ValueResp, ErrorV>(
            ValueResp { value: c0 },
        ),
{
}

/// The incremented query returns its input plus one whenever that fits
/// the numeric range, and fails hard with `Overflow` at the range's end.
/// It takes no store at all, so it can mutate nothing.
pub proof fn lemma_incremented(value: u64)
    ensures
        value < u64::MAX ==> spec_incremented(value) == Ok::<ValueResp, ErrorV>(
            ValueResp { value: (value + 1) as u64 },
        ),
        value == u64::MAX ==> spec_incremented(value) == Err::<ValueResp, ErrorV>(ErrorV::Overflow),
{
}

/// A donation whose attached funds — none at all, or all of them below
/// the threshold — include no qualifying fund succeeds and leaves the
/// whole store, the counter included, unchanged.
pub proof fn lemma_donate_unqualified(s: StateV, info: MessageInfoV)
    requires
        s.counter is Some,
        s.minimal_donation matches Some(min) && !qualifies(info.funds, min),
    ensures
        spec_donate(s, info) matches Ok((s2, _)) && s2 == s,
{
    assert((StateV { counter: s.counter, ..s }) =~= s);
}

/// A donation with at least one qualifying fund attached — no matter how
/// many qualify — increments the counter by exactly one and changes
/// nothing else.  The one input left out is a counter already at the end
/// of its numeric range, which no further donation may increment.
pub proof fn lemma_donate_qualified(s: StateV, info: MessageInfoV)
    requires
        s.counter matches Some(c0) && c0 < u64::MAX,
        s.minimal_donation matches Some(min) && qualifies(info.funds, min),
    ensures
        spec_donate(s, info) matches Ok((s2, _)) && s.counter matches Some(c0) && s2.counter
            == Some((c0 + 1) as u64),
        spec_donate(s, info) matches Ok((s2, _)) && s2.minimal_donation == s.minimal_donation
            && s2.owner == s.owner,
{
}

/// A reset invoked by anyone but the stored owner fails with
/// `Unauthorized` naming that owner; the transition yields no new state,
/// and the reset handler's contract keeps the store at its pre-call
/// value on every failure.
pub proof fn lemma_reset_unauthorized(s: StateV, info: MessageInfoV, counter: u64)
    requires
        s.owner matches Some(o) && info.sender != o,
    ensures
        spec_reset(s, info, counter) matches Err(e) && s.owner matches Some(o) && e
            == (ErrorV::Unauthorized { owner: o }),
{
}

/// A reset invoked by the owner with value `counter` sets the counter to
/// exactly that value, overwriting any prior value and touching nothing
/// else.
pub proof fn lemma_reset_by_owner(s: StateV, info: MessageInfoV, counter: u64)
    requires
        s.owner == Some(info.sender),
    ensures
        spec_reset(s, info, counter) matches Ok((s2, _)) && s2 == (StateV {
            counter: Some(counter),
            ..s
        }),
{
}

/// A withdrawal invoked by the owner emits one transfer instruction
/// moving the contract's entire reported balance to the caller and
/// leaves the store unchanged; the host executing that instruction is
/// what empties the contract's balance.
pub proof fn lemma_withdraw_by_owner(s: StateV, info: MessageInfoV, balance: Seq<CoinV>)
    requires
        s.owner == Some(info.sender),
    ensures
        spec_withdraw(s, info, balance) matches Ok((s2, resp)) && s2 == s && resp.messages
            == seq![BankMsgV { to_address: info.sender, amount: balance }],
{
}

/// A withdrawal invoked by anyone but the stored owner fails with
/// `Unauthorized` naming that owner.
pub proof fn lemma_withdraw_unauthorized(s: StateV, info: MessageInfoV, balance: Seq<CoinV>)
    requires
        s.owner matches Some(o) && info.sender != o,
    ensures
        spec_withdraw(s, info, balance) matches Err(e) && s.owner matches Some(o) && e
            == (ErrorV::Unauthorized { owner: o }),
{
}

/// A capped withdrawal by the owner with a non-empty cap list sends, per
/// denomination of the balance, the smaller of its balance and the cap
/// listed for it — zero when its denomination is unlisted; with an empty
/// cap list it sends the full balance unclamped.
pub proof fn lemma_withdraw_to_caps(
    s: StateV,
    info: MessageInfoV,
    balance: Seq<CoinV>,
    receiver: Seq<char>,
    caps: Seq<CoinV>,
)
    requires
        s.owner == Some(info.sender),
    ensures
        spec_withdraw_to(s, info, balance, receiver, caps) matches Ok((s2, resp)) && ({
            &&& s2 == s
            &&& resp.messages.len() == 1
            &&& resp.messages[0].to_address == receiver
            &&& caps.len() == 0 ==> resp.messages[0].amount == balance
            &&& caps.len() > 0 ==> resp.messages[0].amount.len() == balance.len() && (forall|
                i: int,
            |
                0 <= i < balance.len() ==> (#[trigger] resp.messages[0].amount[i]) == (CoinV {
                    denom: balance[i].denom,
                    amount: min_u128(balance[i].amount, first_cap(caps, balance[i].denom)),
                }))
        }),
{
}

/// A capped withdrawal by anyone but the stored owner fails with
/// `Unauthorized` naming that owner.
pub proof fn lemma_withdraw_to_unauthorized(
    s: StateV,
    info: MessageInfoV,
    balance: Seq<CoinV>,
    receiver: Seq<char>,
    caps: Seq<CoinV>,
)
    requires
        s.owner matches Some(o) && info.sender != o,
    ensures
        spec_withdraw_to(s, info, balance, receiver, caps) matches Err(e) && s.owner matches Some(
            o,
        ) && e == (ErrorV::Unauthorized { owner: o }),
{
}

} // verus!
