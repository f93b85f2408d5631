//! What holds of the session layer as a whole, proved from the contracts of
//! its functions.

use vstd::prelude::*;
use crate::cache::{
    adjusted_balance, after_adjustment, balance_of, playtime_of, with_balance, SessionMap,
};
use crate::economy::{after_payment, payment_outcome};
use crate::lifecycle::{
    next_action, next_phase, sessions_after, write_back_of, ActionModel, EventModel, Phase,
};
use crate::playtime::{elapsed_since, live_playtime_value};
use crate::record::{DurableModel, SessionError};

verus! {

/// The live playtime of a session is never below its baseline, whatever the
/// clock reads.
pub proof fn live_playtime_never_below_baseline(sessions: SessionMap, id: Seq<char>, now: i64)
    requires
        sessions.contains_key(id),
    ensures
        playtime_of(sessions, id, now as int) >= sessions[id].baseline_playtime,
{
}

/// The live playtime of a session does not decrease as the clock advances,
/// and a clock that reads earlier than the join leaves it at the baseline.
pub proof fn live_playtime_never_decreases(baseline: i64, join_time: i64, earlier: i64, later: i64)
    requires
        earlier <= later,
    ensures
        live_playtime_value(baseline as int, join_time as int, earlier as int)
            <= live_playtime_value(baseline as int, join_time as int, later as int),
        earlier <= join_time ==> live_playtime_value(
            baseline as int,
            join_time as int,
            earlier as int,
        ) == baseline,
{
}

/// Removing a session twice is the same as removing it once: after the first
/// removal the user has no session, so the second finds nothing and changes
/// nothing.
pub proof fn removing_twice_is_removing_once(sessions: SessionMap, id: Seq<char>)
    ensures
        !sessions.remove(id).contains_key(id),
        sessions.remove(id).remove(id) == sessions.remove(id),
{
    assert(sessions.remove(id).remove(id) =~= sessions.remove(id));
}

/// The sum of `deltas`.
pub open spec fn total_of(deltas: Seq<i64>) -> int
    decreases deltas.len(),
{
    if deltas.len() == 0 {
        0
    } else {
        deltas[0] + total_of(deltas.skip(1))
    }
}

/// Whether a balance that starts at `balance` stays within `i64` while
/// `deltas` are added to it one after the other.
pub open spec fn every_step_fits(balance: int, deltas: Seq<i64>) -> bool
    decreases deltas.len(),
{
    deltas.len() == 0 || (i64::MIN <= balance + deltas[0] <= i64::MAX && every_step_fits(
        balance + deltas[0],
        deltas.skip(1),
    ))
}

/// `sessions` after `adjust_balance` was called for `id` with each of
/// `deltas` in turn.
pub open spec fn after_adjustments(sessions: SessionMap, id: Seq<char>, deltas: Seq<i64>) -> SessionMap
    decreases deltas.len(),
{
    if deltas.len() == 0 {
        sessions
    } else {
        after_adjustments(after_adjustment(sessions, id, deltas[0]), id, deltas.skip(1))
    }
}

/// No update is lost: after any number of calls of `adjust_balance` for one
/// user, the balance is the old balance plus the sum of the amounts, and
/// nothing else in the cache has changed.
pub proof fn adjustments_add_up(sessions: SessionMap, id: Seq<char>, deltas: Seq<i64>)
    requires
        sessions.contains_key(id),
        every_step_fits(sessions[id].balance as int, deltas),
    ensures
        after_adjustments(sessions, id, deltas) == with_balance(
            sessions,
            id,
            (sessions[id].balance + total_of(deltas)) as i64,
        ),
        i64::MIN <= sessions[id].balance + total_of(deltas) <= i64::MAX,
    decreases deltas.len(),
{
    if deltas.len() == 0 {
        assert(with_balance(sessions, id, sessions[id].balance) =~= sessions);
    } else {
        let step = after_adjustment(sessions, id, deltas[0]);
        adjustments_add_up(step, id, deltas.skip(1));
        assert(with_balance(step, id, (step[id].balance + total_of(deltas.skip(1))) as i64)
            =~= with_balance(sessions, id, (sessions[id].balance + total_of(deltas)) as i64));
    }
}

/// Two calls of `adjust_balance` for one user give the same cache in either
/// order.
pub proof fn adjustments_commute(sessions: SessionMap, id: Seq<char>, first: i64, second: i64)
    requires
        adjusted_balance(sessions, id, first) is Ok,
        adjusted_balance(sessions, id, second) is Ok,
        adjusted_balance(after_adjustment(sessions, id, first), id, second) is Ok,
    ensures
        after_adjustment(after_adjustment(sessions, id, first), id, second) == after_adjustment(
            after_adjustment(sessions, id, second),
            id,
            first,
        ),
{
    assert(after_adjustment(after_adjustment(sessions, id, first), id, second)
        =~= after_adjustment(after_adjustment(sessions, id, second), id, first));
}

/// A balance that is read and then written in two separate steps can lose an
/// update: where two callers both read before either writes, the cache ends
/// with the second caller's sum alone.
pub proof fn separate_read_and_write_loses_an_update(
    sessions: SessionMap,
    id: Seq<char>,
    first: i64,
    second: i64,
)
    requires
        sessions.contains_key(id),
        i64::MIN <= sessions[id].balance + first <= i64::MAX,
        i64::MIN <= sessions[id].balance + second <= i64::MAX,
    ensures
        balance_of(
            with_balance(
                with_balance(sessions, id, (balance_of(sessions, id) + first) as i64),
                id,
                (balance_of(sessions, id) + second) as i64,
            ),
            id,
        ) == sessions[id].balance + second,
{
}

/// A payment that goes through moves the amount and nothing else: the payer
/// has that much less, the target that much more, and together they hold
/// what they held before. A payment that is refused changes nothing.
pub proof fn payment_moves_the_amount(
    sessions: SessionMap,
    payer: Seq<char>,
    target: Seq<char>,
    amount: i64,
)
    ensures
        payment_outcome(sessions, payer, target, amount) is Err ==> after_payment(
            sessions,
            payer,
            target,
            amount,
        ) == sessions,
        payment_outcome(sessions, payer, target, amount) is Ok && payer != target ==> balance_of(
            after_payment(sessions, payer, target, amount),
            payer,
        ) == balance_of(sessions, payer) - amount,
        payment_outcome(sessions, payer, target, amount) is Ok && payer != target ==> balance_of(
            after_payment(sessions, payer, target, amount),
            target,
        ) == balance_of(sessions, target) + amount,
        payment_outcome(sessions, payer, target, amount) is Ok && payer == target ==> balance_of(
            after_payment(sessions, payer, target, amount),
            payer,
        ) == balance_of(sessions, payer),
        amount > balance_of(sessions, payer) ==> payment_outcome(sessions, payer, target, amount)
            == Err::<(), SessionError>(SessionError::InvalidAmount),
{
}

/// A user seen for the first time is created with the display name, no
/// playtime and the starting balance. Once storage has created the record
/// the session is active, and a disconnect at `left` asks storage to keep the
/// same name and balance, with the seconds between `joined` and `left` as
/// playtime.
pub proof fn first_session_round_trip(
    sessions: SessionMap,
    id: Seq<char>,
    display_name: Seq<char>,
    starting_balance: i64,
    joined: i64,
    left: i64,
)
    requires
        0 <= joined,
    ensures
        next_action(
            sessions,
            id,
            display_name,
            starting_balance,
            joined,
            Phase::Finding,
            EventModel::NotFound,
        ) == ActionModel::CreateUser(
            DurableModel { nickname: display_name, playtime: 0, balance: starting_balance },
        ),
        next_action(
            sessions,
            id,
            display_name,
            starting_balance,
            joined,
            Phase::Creating,
            EventModel::Stored,
        ) == (ActionModel::Admit { is_new_user: true }),
        next_action(
            sessions_after(
                sessions,
                id,
                display_name,
                starting_balance,
                joined,
                Phase::Creating,
                EventModel::Stored,
            ),
            id,
            display_name,
            starting_balance,
            left,
            Phase::Active,
            EventModel::Disconnect,
        ) == ActionModel::UpdateUser(
            DurableModel {
                nickname: display_name,
                playtime: elapsed_since(joined as int, left as int) as i64,
                balance: starting_balance,
            },
        ),
        0 <= elapsed_since(joined as int, left as int) <= i64::MAX,
{
}

/// Playtime carries over from one session to the next: what a disconnect
/// asks storage to keep is the live playtime at that moment, and a session
/// that begins from that record has it as its baseline.
pub proof fn playtime_carries_over(
    sessions: SessionMap,
    later_sessions: SessionMap,
    id: Seq<char>,
    display_name: Seq<char>,
    starting_balance: i64,
    left: i64,
    rejoined: i64,
)
    requires
        sessions.contains_key(id),
    ensures
        next_action(
            sessions,
            id,
            display_name,
            starting_balance,
            left,
            Phase::Active,
            EventModel::Disconnect,
        ) == ActionModel::UpdateUser(write_back_of(sessions[id], left)),
        write_back_of(sessions[id], left).playtime == playtime_of(sessions, id, left as int),
        sessions_after(
            later_sessions,
            id,
            display_name,
            starting_balance,
            rejoined,
            Phase::Finding,
            EventModel::Found(write_back_of(sessions[id], left)),
        )[id].baseline_playtime == playtime_of(sessions, id, left as int),
{
}

/// Whatever storage answers to the write-back, the session is gone
/// afterwards and the user stands disconnected.
pub proof fn disconnect_always_ends_the_session(
    sessions: SessionMap,
    id: Seq<char>,
    display_name: Seq<char>,
    starting_balance: i64,
    now: i64,
    answer: EventModel,
)
    requires
        answer is Stored || answer is Failed,
    ensures
        !sessions_after(
            sessions,
            id,
            display_name,
            starting_balance,
            now,
            Phase::WritingBack,
            answer,
        ).contains_key(id),
        next_phase(sessions, id, Phase::WritingBack, answer) == Phase::Disconnected,
{
}

} // verus!
