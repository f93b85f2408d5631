//! The session cache: at most one session record per user identifier.
//!
//! The cache keeps its records in a `DashMap`. Every operation that changes
//! the cache takes it by exclusive borrow, so each one is a single step for
//! whoever else uses the cache: nothing can come between its reading and its
//! writing. What the operations do is stated over the cache's view, a map
//! from identifiers to records.

use vstd::prelude::*;
use dashmap::DashMap;
use crate::clock::current_sec;
use crate::playtime::{duration_text, format_duration, live_playtime, live_playtime_value};
use crate::record::{SessionError, SessionModel, SessionRecord};

verus! {

/// `dashmap::DashMap`, a hash map from an outside crate. Nothing is known of
/// a value of it but what `held_sessions` names.
#[verifier::external_type_specification]
#[verifier::external_body]
#[verifier::reject_recursive_types(K)]
#[verifier::reject_recursive_types(V)]
#[verifier::reject_recursive_types(S)]
pub struct ExDashMap<K, V, S>(DashMap<K, V, S>);

/// Sessions by user identifier, as a mathematical map.
pub type SessionMap = Map<Seq<char>, SessionModel>;

/// The sessions that a `DashMap` holds, by user identifier: what its methods
/// find, put and take.
pub uninterp spec fn held_sessions(map: DashMap<String, SessionRecord>) -> Map<Seq<char>, SessionModel>;

/// `DashMap::new`: the new map holds nothing.
#[verifier::external_body]
fn map_new() -> (map: DashMap<String, SessionRecord>)
    ensures
        held_sessions(map) == SessionMap::empty(),
{
    DashMap::new()
}

/// `DashMap::insert` under an exclusive borrow: the map then holds `value`
/// under `key` and every other entry as before; what `key` held before is
/// returned.
#[verifier::external_body]
fn map_insert(map: &mut DashMap<String, SessionRecord>, key: String, value: SessionRecord) -> (previous: Option<SessionRecord>)
    ensures
        held_sessions(*final(map)) == held_sessions(*old(map)).insert(key@, value@),
        previous is Some <==> held_sessions(*old(map)).contains_key(key@),
        previous matches Some(record) ==> record@ == held_sessions(*old(map))[key@],
{
    map.insert(key, value)
}

/// `DashMap::remove` under an exclusive borrow: the map no longer holds
/// anything under `key`, every other entry stays, and the record that `key`
/// held is returned.
#[verifier::external_body]
fn map_remove(map: &mut DashMap<String, SessionRecord>, key: &str) -> (removed: Option<SessionRecord>)
    ensures
        held_sessions(*final(map)) == held_sessions(*old(map)).remove(key@),
        removed is Some <==> held_sessions(*old(map)).contains_key(key@),
        removed matches Some(record) ==> record@ == held_sessions(*old(map))[key@],
{
    map.remove(key).map(|entry| entry.1)
}

/// `DashMap::get`, with the entry copied out: the record that the map holds
/// under `key`, or nothing where it holds none.
#[verifier::external_body]
fn map_get(map: &DashMap<String, SessionRecord>, key: &str) -> (found: Option<SessionRecord>)
    ensures
        found is Some <==> held_sessions(*map).contains_key(key@),
        found matches Some(record) ==> record@ == held_sessions(*map)[key@],
{
    map.get(key).map(|entry| entry.value().clone())
}

/// The sessions of the users who are connected, one at most per identifier.
pub struct SessionCache {
    sessions: DashMap<String, SessionRecord>,
}

impl View for SessionCache {
    type V = SessionMap;

    closed spec fn view(&self) -> SessionMap {
        held_sessions(self.sessions)
    }
}

impl SessionCache {
    /// A cache without sessions.
    pub fn new() -> (cache: SessionCache)
        ensures
            cache@ == SessionMap::empty(),
    {
        SessionCache { sessions: map_new() }
    }

    /// Creates the session of `id`, or replaces the one it has.
    pub fn insert(&mut self, id: &str, record: SessionRecord)
        ensures
            final(self)@ == old(self)@.insert(id@, record@),
    {
        let _ = map_insert(&mut self.sessions, id.to_owned(), record);
    }

    /// Ends the session of `id` and hands its record out. Without a session
    /// nothing changes and nothing is returned.
    pub fn remove(&mut self, id: &str) -> (removed: Option<SessionRecord>)
        ensures
            final(self)@ == old(self)@.remove(id@),
            removed is Some <==> old(self)@.contains_key(id@),
            removed matches Some(record) ==> record@ == old(self)@[id@],
    {
        map_remove(&mut self.sessions, id)
    }

    /// A copy of the session record of `id`, if it has a session.
    pub fn get(&self, id: &str) -> (found: Option<SessionRecord>)
        ensures
            found is Some <==> self@.contains_key(id@),
            found matches Some(record) ==> record@ == self@[id@],
    {
        map_get(&self.sessions, id)
    }
}

/// The nickname that `get_nickname` gives for `id`: that of its session, or
/// the word `unknown` without one.
pub open spec fn nickname_of(sessions: SessionMap, id: Seq<char>) -> Seq<char> {
    if sessions.contains_key(id) {
        sessions[id].nickname
    } else {
        "unknown"@
    }
}

/// The balance that `get_balance` gives for `id`: that of its session, or
/// zero without one.
pub open spec fn balance_of(sessions: SessionMap, id: Seq<char>) -> int {
    if sessions.contains_key(id) {
        sessions[id].balance as int
    } else {
        0
    }
}

/// The live playtime of `id` at `now`: derived from its session, or zero
/// without one.
pub open spec fn playtime_of(sessions: SessionMap, id: Seq<char>, now: int) -> int {
    if sessions.contains_key(id) {
        live_playtime_value(
            sessions[id].baseline_playtime as int,
            sessions[id].join_time as int,
            now,
        )
    } else {
        0
    }
}

/// `sessions` after the session of `id` took the nickname `nickname`.
pub open spec fn with_nickname(sessions: SessionMap, id: Seq<char>, nickname: Seq<char>) -> SessionMap {
    sessions.insert(id, SessionModel { nickname, ..sessions[id] })
}

/// `sessions` after the session of `id` took the balance `balance`.
pub open spec fn with_balance(sessions: SessionMap, id: Seq<char>, balance: i64) -> SessionMap {
    sessions.insert(id, SessionModel { balance, ..sessions[id] })
}

/// The nickname of `player_uuid`, or `unknown` where it has no session.
pub fn get_nickname(cache: &SessionCache, player_uuid: &str) -> (nickname: String)
    ensures
        nickname@ == nickname_of(cache@, player_uuid@),
{
    match cache.get(player_uuid) {
        Some(record) => record.nickname,
        None => String::from_str("unknown"),
    }
}

/// Gives the session of `player_uuid` the nickname `nickname`. Without a
/// session nothing changes and `NoActiveSession` is returned.
pub fn update_nickname(cache: &mut SessionCache, player_uuid: &str, nickname: &str) -> (outcome: Result<(), SessionError>)
    ensures
        outcome is Ok <==> old(cache)@.contains_key(player_uuid@),
        outcome is Ok ==> final(cache)@ == with_nickname(old(cache)@, player_uuid@, nickname@),
        outcome is Err ==> final(cache)@ == old(cache)@,
        outcome is Err ==> outcome == Err::<(), SessionError>(SessionError::NoActiveSession),
{
    match cache.get(player_uuid) {
        Some(record) => {
            let renamed = SessionRecord {
                nickname: String::from_str(nickname),
                baseline_playtime: record.baseline_playtime,
                join_time: record.join_time,
                balance: record.balance,
            };
            cache.insert(player_uuid, renamed);
            Ok(())
        },
        None => Err(SessionError::NoActiveSession),
    }
}

/// The balance of `player_uuid`, or zero where it has no session.
pub fn get_balance(cache: &SessionCache, player_uuid: &str) -> (balance: i64)
    ensures
        balance == balance_of(cache@, player_uuid@),
{
    match cache.get(player_uuid) {
        Some(record) => record.balance,
        None => 0,
    }
}

/// Overwrites the balance of `player_uuid`. Without a session nothing
/// changes and `NoActiveSession` is returned.
pub fn update_balance(cache: &mut SessionCache, player_uuid: &str, balance: i64) -> (outcome: Result<(), SessionError>)
    ensures
        outcome is Ok <==> old(cache)@.contains_key(player_uuid@),
        outcome is Ok ==> final(cache)@ == with_balance(old(cache)@, player_uuid@, balance),
        outcome is Err ==> final(cache)@ == old(cache)@,
        outcome is Err ==> outcome == Err::<(), SessionError>(SessionError::NoActiveSession),
{
    match cache.get(player_uuid) {
        Some(record) => {
            let updated = SessionRecord {
                nickname: record.nickname,
                baseline_playtime: record.baseline_playtime,
                join_time: record.join_time,
                balance,
            };
            cache.insert(player_uuid, updated);
            Ok(())
        },
        None => Err(SessionError::NoActiveSession),
    }
}

/// The live playtime of `player_uuid` when the clock reads `now`, or zero
/// where it has no session.
pub fn get_playtime_at(cache: &SessionCache, player_uuid: &str, now: i64) -> (seconds: i64)
    ensures
        seconds == playtime_of(cache@, player_uuid@, now as int),
{
    match cache.get(player_uuid) {
        Some(record) => live_playtime(record.baseline_playtime, record.join_time, now),
        None => 0,
    }
}

/// The live playtime of `player_uuid` by the system clock, or zero where it
/// has no session.
pub fn get_playtime(cache: &SessionCache, player_uuid: &str) -> (seconds: i64)
    ensures
        exists|now: i64| now >= 0 && seconds == #[trigger] playtime_of(cache@, player_uuid@, now as int),
        !cache@.contains_key(player_uuid@) ==> seconds == 0,
        cache@.contains_key(player_uuid@) ==> seconds >= cache@[player_uuid@].baseline_playtime,
{
    let now = current_sec();
    let seconds = get_playtime_at(cache, player_uuid, now);
    assert(seconds == playtime_of(cache@, player_uuid@, now as int));
    seconds
}

/// The live playtime of `player_uuid` when the clock reads `now`, written
/// out as days, hours, minutes and seconds.
pub fn get_playtime_display_at(cache: &SessionCache, player_uuid: &str, now: i64) -> (text: String)
    ensures
        text@ == duration_text(playtime_of(cache@, player_uuid@, now as int)),
{
    format_duration(get_playtime_at(cache, player_uuid, now))
}

/// The live playtime of `player_uuid` by the system clock, written out as
/// days, hours, minutes and seconds.
pub fn get_playtime_display(cache: &SessionCache, player_uuid: &str) -> (text: String)
    ensures
        exists|now: i64| now >= 0 && text@ == duration_text(#[trigger] playtime_of(cache@, player_uuid@, now as int)),
{
    let now = current_sec();
    let text = get_playtime_display_at(cache, player_uuid, now);
    assert(text@ == duration_text(playtime_of(cache@, player_uuid@, now as int)));
    text
}

/// What `adjust_balance` returns: the new balance, `NoActiveSession` where
/// `id` has no session, `InvalidAmount` where the new balance would not fit.
pub open spec fn adjusted_balance(sessions: SessionMap, id: Seq<char>, delta: i64) -> Result<i64, SessionError> {
    if !sessions.contains_key(id) {
        Err(SessionError::NoActiveSession)
    } else if sessions[id].balance + delta > i64::MAX || sessions[id].balance + delta < i64::MIN {
        Err(SessionError::InvalidAmount)
    } else {
        Ok((sessions[id].balance + delta) as i64)
    }
}

/// `sessions` after `adjust_balance`: the session of `id` holds the new
/// balance, or nothing has changed where there is none.
pub open spec fn after_adjustment(sessions: SessionMap, id: Seq<char>, delta: i64) -> SessionMap {
    match adjusted_balance(sessions, id, delta) {
        Ok(balance) => with_balance(sessions, id, balance),
        Err(_) => sessions,
    }
}

/// Adds `delta` to the balance of `player_uuid` in one step and returns the
/// new balance. Nothing changes where there is no session or the new balance
/// would not fit.
pub fn adjust_balance(cache: &mut SessionCache, player_uuid: &str, delta: i64) -> (outcome: Result<i64, SessionError>)
    ensures
        outcome == adjusted_balance(old(cache)@, player_uuid@, delta),
        final(cache)@ == after_adjustment(old(cache)@, player_uuid@, delta),
{
    match cache.get(player_uuid) {
        Some(record) => match record.balance.checked_add(delta) {
            Some(balance) => {
                let updated = SessionRecord {
                    nickname: record.nickname,
                    baseline_playtime: record.baseline_playtime,
                    join_time: record.join_time,
                    balance,
                };
                cache.insert(player_uuid, updated);
                Ok(balance)
            },
            None => Err(SessionError::InvalidAmount),
        },
        None => Err(SessionError::NoActiveSession),
    }
}

} // verus!
