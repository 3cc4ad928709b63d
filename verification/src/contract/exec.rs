use vstd::prelude::*;

use crate::contract::{authorize, spec_authorize, steps_to};
use crate::error::{ContractError, ErrorV};
use crate::msg::{AttributeV, BankMsg, BankMsgV, Coin, CoinV, MessageInfo, MessageInfoV, Response,
    ResponseV};
use crate::num::{dec_str, dec_string};
use crate::state::{StateStore, StateV};

verus! {

/// Whether any attached fund has the threshold's denomination and at
/// least its amount.
pub open spec fn qualifies(funds: Seq<CoinV>, min: CoinV) -> bool {
    exists|i: int|
        0 <= i < funds.len() && funds[i].denom == min.denom && funds[i].amount >= min.amount
}

/// The smaller of two amounts.
pub open spec fn min_u128(a: u128, b: u128) -> u128 {
    if a < b {
        a
    } else {
        b
    }
}

/// The cap listed for a denomination: the amount of the first entry with
/// that denomination, or zero when none is listed.
pub open spec fn first_cap(caps: Seq<CoinV>, denom: Seq<char>) -> u128
    decreases caps.len(),
{
    if caps.len() == 0 {
        0
    } else if caps[0].denom == denom {
        caps[0].amount
    } else {
        first_cap(caps.drop_first(), denom)
    }
}

/// The balance with every entry clamped to the cap listed for its
/// denomination.
pub open spec fn clamped(balance: Seq<CoinV>, caps: Seq<CoinV>) -> Seq<CoinV> {
    Seq::new(
        balance.len(),
        |i: int|
            CoinV {
                denom: balance[i].denom,
                amount: min_u128(balance[i].amount, first_cap(caps, balance[i].denom)),
            },
    )
}

/// Tests whether any of `funds` meets or exceeds the `min` threshold.
pub fn has_qualifying_fund(funds: &Vec<Coin>, min: &Coin) -> (b: bool)
    ensures
        b == qualifies(funds.deep_view(), min@),
{
    let mut i: usize = 0;
    let mut found = false;
    while i < funds.len()
        invariant
            i <= funds.len(),
            found ==> qualifies(funds.deep_view(), min@),
            !found ==> forall|j: int|
                0 <= j < i ==> !(funds.deep_view()[j].denom == min@.denom
                    && funds.deep_view()[j].amount >= min@.amount),
        decreases funds.len() - i,
    {
        let c = &funds[i];
        if c.denom == min.denom && c.amount >= min.amount {
            proof {
                assert(funds.deep_view()[i as int].denom == min@.denom);
                assert(funds.deep_view()[i as int].amount >= min@.amount);
            }
            found = true;
        }
        i = i + 1;
    }
    found
}

/// Looks up the cap for `denom` in the cap list.
fn cap_for(caps: &Vec<Coin>, denom: &String) -> (limit: u128)
    ensures
        limit == first_cap(caps.deep_view(), denom@),
{
    let mut i: usize = 0;
    proof {
        assert(caps.deep_view().skip(0) =~= caps.deep_view());
    }
    while i < caps.len()
        invariant
            i <= caps.len(),
            first_cap(caps.deep_view(), denom@) == first_cap(
                caps.deep_view().skip(i as int),
                denom@,
            ),
        decreases caps.len() - i,
    {
        if caps[i].denom == *denom {
            proof {
                assert(caps.deep_view().skip(i as int)[0] == caps.deep_view()[i as int]);
            }
            return caps[i].amount;
        }
        proof {
            assert(caps.deep_view().skip(i as int).drop_first() =~= caps.deep_view().skip(
                i as int + 1,
            ));
        }
        i = i + 1;
    }
    proof {
        assert(caps.deep_view().skip(caps.len() as int).len() == 0);
    }
    0
}

/// Clamps each balance entry to the cap listed for its denomination.
fn clamp_funds(balance: Vec<Coin>, caps: &Vec<Coin>) -> (out: Vec<Coin>)
    ensures
        out.deep_view() == clamped(balance.deep_view(), caps.deep_view()),
{
    let ghost target = clamped(balance.deep_view(), caps.deep_view());
    let mut out: Vec<Coin> = Vec::new();
    let mut i: usize = 0;
    while i < balance.len()
        invariant
            i <= balance.len(),
            target == clamped(balance.deep_view(), caps.deep_view()),
            out.deep_view() =~= target.take(i as int),
        decreases balance.len() - i,
    {
        let c = &balance[i];
        let limit = cap_for(caps, &c.denom);
        let amount = if c.amount < limit {
            c.amount
        } else {
            limit
        };
        let ghost old_dv = out.deep_view();
        out.push(Coin { denom: c.denom.clone(), amount });
        proof {
            assert(old_dv.len() == i);
            assert(out@.len() == i + 1);
            assert(out@[i as int]@ == (CoinV { denom: c.denom@, amount }));
            assert(forall|j: int| 0 <= j < i ==> out.deep_view()[j] == old_dv[j]);
            assert(c@ == balance.deep_view()[i as int]);
            assert(target[i as int] == (CoinV {
                denom: c.denom@,
                amount: min_u128(c.amount, limit),
            }));
            assert(out.deep_view() =~= target.take(i as int + 1));
        }
        i = i + 1;
    }
    proof {
        assert(target.take(balance.len() as int) =~= target);
    }
    out
}

/// The attributes a counter-writing handler reports: an action tag, the
/// caller, and the resulting counter value in decimal.
pub open spec fn counter_attributes(action: Seq<char>, sender: Seq<char>, counter: u64) -> Seq<
    AttributeV,
> {
    seq![
        AttributeV { key: "action"@, value: action },
        AttributeV { key: "sender"@, value: sender },
        AttributeV { key: "counter"@, value: dec_str(counter as int) },
    ]
}

/// A donation increments the counter by exactly one when some attached
/// fund meets the threshold, and writes nothing otherwise; either key
/// missing is `NotFound`.
pub open spec fn spec_donate(s: StateV, info: MessageInfoV) -> Result<(StateV, ResponseV), ErrorV> {
    match (s.counter, s.minimal_donation) {
        (Some(c0), Some(min)) => {
            let c1 = if qualifies(info.funds, min) {
                (c0 + 1) as u64
            } else {
                c0
            };
            Ok(
                (
                    StateV { counter: Some(c1), ..s },
                    ResponseV {
                        attributes: counter_attributes("poke"@, info.sender, c1),
                        messages: Seq::empty(),
                    },
                ),
            )
        },
        _ => Err(ErrorV::NotFound),
    }
}

/// The one input `donate` must not see: the counter already at the end of
/// its range while a qualifying fund is attached.
pub open spec fn donate_overflows(s: StateV, funds: Seq<CoinV>) -> bool {
    &&& s.counter == Some(u64::MAX)
    &&& s.minimal_donation matches Some(min) && qualifies(funds, min)
}

/// Tests, without writing anything, whether a donate call would push the
/// counter past its numeric range.  Unverified callers test this before
/// calling `donate`.
pub fn donate_would_overflow(store: &StateStore, info: &MessageInfo) -> (b: bool)
    ensures
        b == donate_overflows(store@, info@.funds),
{
    let counter = match store.get_counter() {
        Ok(v) => v,
        Err(_) => return false,
    };
    if counter != u64::MAX {
        return false;
    }
    let min = match store.get_minimal_donation() {
        Ok(c) => c,
        Err(_) => return false,
    };
    has_qualifying_fund(&info.funds, min)
}

/// Counts a donation: loads the counter and the threshold, increments the
/// counter by exactly one if any attached fund qualifies — however many
/// qualify — and persists it; performs no write otherwise.
pub fn donate(store: &mut StateStore, info: &MessageInfo) -> (r: Result<Response, ContractError>)
    requires
        !donate_overflows(old(store)@, info@.funds),
    ensures
        steps_to(spec_donate(old(store)@, info@), old(store)@, final(store)@, r),
{
    let counter0 = match store.get_counter() {
        Ok(v) => v,
        Err(e) => return Err(e),
    };
    let qualifying = {
        let min = match store.get_minimal_donation() {
            Ok(c) => c,
            Err(e) => return Err(e),
        };
        has_qualifying_fund(&info.funds, min)
    };
    let counter = if qualifying {
        counter0 + 1
    } else {
        counter0
    };
    if qualifying {
        store.set_counter(counter);
    }
    proof {
        assert(store@ =~= (StateV { counter: Some(counter), ..old(store)@ }));
    }
    let counter_str = dec_string(counter);
    let resp = Response::new()
        .add_attribute("action", "poke")
        .add_attribute("sender", info.sender.as_str())
        .add_attribute("counter", counter_str.as_str());
    proof {
        assert(resp@.attributes =~= counter_attributes("poke"@, info@.sender, counter));
        assert(resp@ =~= (ResponseV {
            attributes: counter_attributes("poke"@, info@.sender, counter),
            messages: Seq::empty(),
        }));
    }
    Ok(resp)
}

/// A reset by the owner overwrites the counter with the given value; a
/// reset by anyone else fails and mutates nothing.
pub open spec fn spec_reset(s: StateV, info: MessageInfoV, counter: u64) -> Result<
    (StateV, ResponseV),
    ErrorV,
> {
    match spec_authorize(s.owner, info.sender) {
        Err(e) => Err(e),
        Ok(_) => Ok(
            (
                StateV { counter: Some(counter), ..s },
                ResponseV {
                    attributes: counter_attributes("reset"@, info.sender, counter),
                    messages: Seq::empty(),
                },
            ),
        ),
    }
}

/// Sets the counter to the given value, owner only.  The authorization
/// guard runs before any mutation, so a rejected caller leaves the store
/// untouched.
pub fn reset(store: &mut StateStore, info: &MessageInfo, counter: u64) -> (r: Result<
    Response,
    ContractError,
>)
    ensures
        steps_to(spec_reset(old(store)@, info@, counter), old(store)@, final(store)@, r),
{
    match authorize(store, info) {
        Ok(_) => {},
        Err(e) => return Err(e),
    }
    store.set_counter(counter);
    let counter_str = dec_string(counter);
    let resp = Response::new()
        .add_attribute("action", "reset")
        .add_attribute("sender", info.sender.as_str())
        .add_attribute("counter", counter_str.as_str());
    proof {
        assert(resp@.attributes =~= counter_attributes("reset"@, info@.sender, counter));
        assert(resp@ =~= (ResponseV {
            attributes: counter_attributes("reset"@, info@.sender, counter),
            messages: Seq::empty(),
        }));
    }
    Ok(resp)
}

/// The response of both withdrawing handlers: a single transfer
/// instruction beside the action and caller attributes.
pub open spec fn withdraw_response(sender: Seq<char>, to: Seq<char>, amount: Seq<CoinV>) -> ResponseV {
    ResponseV {
        attributes: seq![
            AttributeV { key: "action"@, value: "withdraw"@ },
            AttributeV { key: "sender"@, value: sender },
        ],
        messages: seq![BankMsgV { to_address: to, amount }],
    }
}

/// A withdrawal by the owner asks the host to move the entire current
/// balance to the caller; anyone else is rejected.  No local state moves.
pub open spec fn spec_withdraw(s: StateV, info: MessageInfoV, balance: Seq<CoinV>) -> Result<
    (StateV, ResponseV),
    ErrorV,
> {
    match spec_authorize(s.owner, info.sender) {
        Err(e) => Err(e),
        Ok(_) => Ok((s, withdraw_response(info.sender, info.sender, balance))),
    }
}

/// Emits a transfer of the contract's entire balance — as the host
/// reported it — to the caller, owner only.
pub fn withdraw(store: &StateStore, info: &MessageInfo, balance: Vec<Coin>) -> (r: Result<
    Response,
    ContractError,
>)
    ensures
        steps_to(spec_withdraw(store@, info@, balance.deep_view()), store@, store@, r),
{
    match authorize(store, info) {
        Ok(_) => {},
        Err(e) => return Err(e),
    }
    let ghost balance_dv = balance.deep_view();
    let bank_msg = BankMsg::Send { to_address: info.sender.clone(), amount: balance };
    let resp = Response::new()
        .add_message(bank_msg)
        .add_attribute("action", "withdraw")
        .add_attribute("sender", info.sender.as_str());
    proof {
        assert(resp@ =~= withdraw_response(info@.sender, info@.sender, balance_dv));
    }
    Ok(resp)
}

/// A capped withdrawal by the owner sends, per denomination, the smaller
/// of the balance and the cap listed for it (absent denominations cap at
/// zero); an empty cap list sends the full balance.  Anyone else is
/// rejected.  No local state moves.
pub open spec fn spec_withdraw_to(
    s: StateV,
    info: MessageInfoV,
    balance: Seq<CoinV>,
    receiver: Seq<char>,
    caps: Seq<CoinV>,
) -> Result<(StateV, ResponseV), ErrorV> {
    match spec_authorize(s.owner, info.sender) {
        Err(e) => Err(e),
        Ok(_) => {
            let amount = if caps.len() == 0 {
                balance
            } else {
                clamped(balance, caps)
            };
            Ok((s, withdraw_response(info.sender, receiver, amount)))
        },
    }
}

/// Emits a transfer of the contract's balance, clamped per denomination
/// by the given cap list, to the given receiver, owner only.
pub fn withdraw_to(
    store: &StateStore,
    info: &MessageInfo,
    balance: Vec<Coin>,
    receiver: String,
    funds: Vec<Coin>,
) -> (r: Result<Response, ContractError>)
    ensures
        steps_to(
            spec_withdraw_to(store@, info@, balance.deep_view(), receiver@, funds.deep_view()),
            store@,
            store@,
            r,
        ),
{
    match authorize(store, info) {
        Ok(_) => {},
        Err(e) => return Err(e),
    }
    let ghost balance_dv = balance.deep_view();
    let ghost receiver_v = receiver@;
    let amount = if funds.is_empty() {
        balance
    } else {
        clamp_funds(balance, &funds)
    };
    let bank_msg = BankMsg::Send { to_address: receiver, amount };
    let resp = Response::new()
        .add_message(bank_msg)
        .add_attribute("action", "withdraw")
        .add_attribute("sender", info.sender.as_str());
    proof {
        if funds.deep_view().len() == 0 {
            assert(resp@ =~= withdraw_response(info@.sender, receiver_v, balance_dv));
        } else {
            assert(resp@ =~= withdraw_response(
                info@.sender,
                receiver_v,
                clamped(balance_dv, funds.deep_view()),
            ));
        }
    }
    Ok(resp)
}

} // verus!
