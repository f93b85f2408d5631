//! Moving money: payments between two users, and changes to the balances of
//! a list of users.

use vstd::prelude::*;
use crate::cache::{
    adjust_balance, adjusted_balance, after_adjustment, balance_of, get_balance, update_balance,
    with_balance, SessionCache, SessionMap,
};
use crate::record::SessionError;
use crate::text::same_text;

verus! {

/// The negative of `amount` as an `i64`, for `amount` that has one.
pub open spec fn negated(amount: i64) -> i64 {
    (-amount) as i64
}

/// Whether a payment of `amount` from `payer` to `target` goes through, and
/// why not where it does not. A negative amount and one above the payer's
/// balance are invalid; so is one that the target's balance cannot take.
/// Both users need a session.
pub open spec fn payment_outcome(sessions: SessionMap, payer: Seq<char>, target: Seq<char>, amount: i64) -> Result<(), SessionError> {
    if amount < 0 || balance_of(sessions, payer) < amount {
        Err(SessionError::InvalidAmount)
    } else if !sessions.contains_key(payer) || !sessions.contains_key(target) {
        Err(SessionError::NoActiveSession)
    } else if adjusted_balance(after_adjustment(sessions, payer, negated(amount)), target, amount) is Err {
        Err(SessionError::InvalidAmount)
    } else {
        Ok(())
    }
}

/// `sessions` after a payment: the amount has left the payer's balance and
/// reached the target's, or nothing has changed where the payment was
/// refused.
pub open spec fn after_payment(sessions: SessionMap, payer: Seq<char>, target: Seq<char>, amount: i64) -> SessionMap {
    if payment_outcome(sessions, payer, target, amount) is Ok {
        after_adjustment(after_adjustment(sessions, payer, negated(amount)), target, amount)
    } else {
        sessions
    }
}

/// Pays `amount` from the balance of `payer` to that of `target`. A payment
/// that is refused changes nothing.
pub fn pay(cache: &mut SessionCache, payer: &str, target: &str, amount: i64) -> (outcome: Result<(), SessionError>)
    ensures
        outcome == payment_outcome(old(cache)@, payer@, target@, amount),
        final(cache)@ == after_payment(old(cache)@, payer@, target@, amount),
{
    if amount < 0 || get_balance(cache, payer) < amount {
        return Err(SessionError::InvalidAmount);
    }
    if cache.get(payer).is_none() {
        return Err(SessionError::NoActiveSession);
    }
    match cache.get(target) {
        Some(receiver) => {
            if !same_text(payer, target) && receiver.balance.checked_add(amount).is_none() {
                return Err(SessionError::InvalidAmount);
            }
            let _ = adjust_balance(cache, payer, -amount);
            let _ = adjust_balance(cache, target, amount);
            Ok(())
        },
        None => Err(SessionError::NoActiveSession),
    }
}

/// The identifiers that a list of targets names.
pub open spec fn ids_of(targets: Seq<String>) -> Seq<Seq<char>> {
    targets.map_values(|target: String| target@)
}

/// `sessions` after each of `targets` in turn took the balance `amount`,
/// up to the first that has no session.
pub open spec fn after_setting(sessions: SessionMap, targets: Seq<Seq<char>>, amount: i64) -> SessionMap
    decreases targets.len(),
{
    if targets.len() == 0 || !sessions.contains_key(targets[0]) {
        sessions
    } else {
        after_setting(with_balance(sessions, targets[0], amount), targets.skip(1), amount)
    }
}

/// Whether each of `targets` has a session when its turn comes.
pub open spec fn setting_outcome(sessions: SessionMap, targets: Seq<Seq<char>>, amount: i64) -> Result<(), SessionError>
    decreases targets.len(),
{
    if targets.len() == 0 {
        Ok(())
    } else if !sessions.contains_key(targets[0]) {
        Err(SessionError::NoActiveSession)
    } else {
        setting_outcome(with_balance(sessions, targets[0], amount), targets.skip(1), amount)
    }
}

/// `sessions` after `delta` was added to the balance of each of `targets` in
/// turn, up to the first that could not take it.
pub open spec fn after_adjusting(sessions: SessionMap, targets: Seq<Seq<char>>, delta: i64) -> SessionMap
    decreases targets.len(),
{
    if targets.len() == 0 || adjusted_balance(sessions, targets[0], delta) is Err {
        sessions
    } else {
        after_adjusting(after_adjustment(sessions, targets[0], delta), targets.skip(1), delta)
    }
}

/// Whether each of `targets` could take `delta` when its turn came, and the
/// error of the first that could not.
pub open spec fn adjusting_outcome(sessions: SessionMap, targets: Seq<Seq<char>>, delta: i64) -> Result<(), SessionError>
    decreases targets.len(),
{
    if targets.len() == 0 {
        Ok(())
    } else {
        match adjusted_balance(sessions, targets[0], delta) {
            Err(error) => Err(error),
            Ok(_) => adjusting_outcome(after_adjustment(sessions, targets[0], delta), targets.skip(1), delta),
        }
    }
}

/// Gives each of `targets` the balance `amount`, in the order of the list.
/// The first target without a session stops the work with
/// `NoActiveSession`; the targets before it keep their new balance.
pub fn set_balances(cache: &mut SessionCache, targets: &Vec<String>, amount: i64) -> (outcome: Result<(), SessionError>)
    ensures
        outcome == setting_outcome(old(cache)@, ids_of(targets@), amount),
        final(cache)@ == after_setting(old(cache)@, ids_of(targets@), amount),
{
    let ghost ids = ids_of(targets@);
    assert(ids.skip(0) =~= ids);
    let mut index: usize = 0;
    while index < targets.len()
        invariant
            index <= targets.len(),
            ids == ids_of(targets@),
            setting_outcome(old(cache)@, ids, amount) == setting_outcome(cache@, ids.skip(index as int), amount),
            after_setting(old(cache)@, ids, amount) == after_setting(cache@, ids.skip(index as int), amount),
        decreases targets.len() - index,
    {
        let ghost rest = ids.skip(index as int);
        assert(rest[0] == targets@[index as int]@);
        assert(rest.skip(1) =~= ids.skip(index + 1));
        if update_balance(cache, targets[index].as_str(), amount).is_err() {
            return Err(SessionError::NoActiveSession);
        }
        index += 1;
    }
    Ok(())
}

/// Gives each of `targets` the starting balance again, as `set_balances`
/// gives an amount.
pub fn reset_balances(cache: &mut SessionCache, targets: &Vec<String>, starting_balance: i64) -> (outcome: Result<(), SessionError>)
    ensures
        outcome == setting_outcome(old(cache)@, ids_of(targets@), starting_balance),
        final(cache)@ == after_setting(old(cache)@, ids_of(targets@), starting_balance),
{
    set_balances(cache, targets, starting_balance)
}

fn adjust_balances(cache: &mut SessionCache, targets: &Vec<String>, delta: i64) -> (outcome: Result<(), SessionError>)
    ensures
        outcome == adjusting_outcome(old(cache)@, ids_of(targets@), delta),
        final(cache)@ == after_adjusting(old(cache)@, ids_of(targets@), delta),
{
    let ghost ids = ids_of(targets@);
    assert(ids.skip(0) =~= ids);
    let mut index: usize = 0;
    while index < targets.len()
        invariant
            index <= targets.len(),
            ids == ids_of(targets@),
            adjusting_outcome(old(cache)@, ids, delta) == adjusting_outcome(cache@, ids.skip(index as int), delta),
            after_adjusting(old(cache)@, ids, delta) == after_adjusting(cache@, ids.skip(index as int), delta),
        decreases targets.len() - index,
    {
        let ghost rest = ids.skip(index as int);
        assert(rest[0] == targets@[index as int]@);
        assert(rest.skip(1) =~= ids.skip(index + 1));
        match adjust_balance(cache, targets[index].as_str(), delta) {
            Ok(_) => {},
            Err(error) => {
                return Err(error);
            },
        }
        index += 1;
    }
    Ok(())
}

/// What `add_to_balances` returns: `InvalidAmount` for a negative amount,
/// else what adding it to each target in turn gives.
pub open spec fn adding_outcome(sessions: SessionMap, targets: Seq<Seq<char>>, amount: i64) -> Result<(), SessionError> {
    if amount < 0 {
        Err(SessionError::InvalidAmount)
    } else {
        adjusting_outcome(sessions, targets, amount)
    }
}

/// `sessions` after `add_to_balances`.
pub open spec fn after_adding(sessions: SessionMap, targets: Seq<Seq<char>>, amount: i64) -> SessionMap {
    if amount < 0 {
        sessions
    } else {
        after_adjusting(sessions, targets, amount)
    }
}

/// What `remove_from_balances` returns: `InvalidAmount` for a negative
/// amount, else what taking it from each target in turn gives.
pub open spec fn removing_outcome(sessions: SessionMap, targets: Seq<Seq<char>>, amount: i64) -> Result<(), SessionError> {
    if amount < 0 {
        Err(SessionError::InvalidAmount)
    } else {
        adjusting_outcome(sessions, targets, negated(amount))
    }
}

/// `sessions` after `remove_from_balances`.
pub open spec fn after_removing(sessions: SessionMap, targets: Seq<Seq<char>>, amount: i64) -> SessionMap {
    if amount < 0 {
        sessions
    } else {
        after_adjusting(sessions, targets, negated(amount))
    }
}

/// Adds `amount` to the balance of each of `targets`, in the order of the
/// list. A negative amount is refused before anything changes. The first
/// target that has no session, or whose balance cannot take the amount,
/// stops the work with its error; the targets before it keep what they got.
pub fn add_to_balances(cache: &mut SessionCache, targets: &Vec<String>, amount: i64) -> (outcome: Result<(), SessionError>)
    ensures
        outcome == adding_outcome(old(cache)@, ids_of(targets@), amount),
        final(cache)@ == after_adding(old(cache)@, ids_of(targets@), amount),
{
    if amount < 0 {
        return Err(SessionError::InvalidAmount);
    }
    adjust_balances(cache, targets, amount)
}

/// Takes `amount` from the balance of each of `targets`, in the order of the
/// list; a balance may go below zero. A negative amount is refused before
/// anything changes. The first target that has no session, or whose balance
/// cannot give the amount, stops the work with its error; the targets before
/// it keep what they lost.
pub fn remove_from_balances(cache: &mut SessionCache, targets: &Vec<String>, amount: i64) -> (outcome: Result<(), SessionError>)
    ensures
        outcome == removing_outcome(old(cache)@, ids_of(targets@), amount),
        final(cache)@ == after_removing(old(cache)@, ids_of(targets@), amount),
{
    if amount < 0 {
        return Err(SessionError::InvalidAmount);
    }
    adjust_balances(cache, targets, -amount)
}

/// The notice after the balances of `count` users were changed: `Balance`,
/// in the plural unless `count` is one, then `change` and a full stop.
pub open spec fn balance_notice_text(count: int, change: Seq<char>) -> Seq<char> {
    "Balance"@ + (if count == 1 {
        Seq::<char>::empty()
    } else {
        seq!['s']
    }) + seq![' '] + change + seq!['.']
}

/// Writes the notice that tells what was done to the balances of `count`
/// users; `change` is the word for it, such as `set` or `increased`.
pub fn balance_notice(count: usize, change: &str) -> (notice: String)
    ensures
        notice@ == balance_notice_text(count as int, change@),
{
    proof {
        reveal_strlit("s");
        reveal_strlit(" ");
        reveal_strlit(".");
    }
    let mut notice = String::from_str("Balance");
    if count != 1 {
        notice.append("s");
    }
    notice.append(" ");
    notice.append(change);
    notice.append(".");
    assert(notice@ =~= balance_notice_text(count as int, change@));
    notice
}

} // verus!
