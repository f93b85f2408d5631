//! The life of a session: what is decided when a user connects and when a
//! user disconnects. Storage is not reached from here. Each decision names
//! the storage request to carry out next, and the answer comes back as the
//! next event.

use vstd::prelude::*;
use crate::cache::{SessionCache, SessionMap};
use crate::playtime::{live_playtime, live_playtime_value};
use crate::record::{DurableModel, DurableRecord, SessionError, SessionModel, SessionRecord};

verus! {

/// Where the session of one user stands.
#[derive(Clone, Copy, Debug, PartialEq, Eq, Structural)]
pub enum Phase {
    /// No session, and nothing under way.
    Disconnected,
    /// Connecting: storage was asked for the user's record.
    Finding,
    /// Connecting: storage was asked to create the user's record.
    Creating,
    /// The session is in the cache.
    Active,
    /// Disconnecting: storage was asked to take the session's values.
    WritingBack,
}

/// What happened to the session of one user.
#[derive(Clone, Debug, PartialEq, Eq)]
pub enum Event {
    /// The user connected.
    Connect,
    /// Storage holds this record for the user.
    Found(DurableRecord),
    /// Storage holds no record for the user.
    NotFound,
    /// Storage carried out the last request to create or update.
    Stored,
    /// Storage failed on the last request.
    Failed,
    /// The user disconnected.
    Disconnect,
}

/// An event as a mathematical value.
pub enum EventModel {
    Connect,
    Found(DurableModel),
    NotFound,
    Stored,
    Failed,
    Disconnect,
}

impl View for Event {
    type V = EventModel;

    open spec fn view(&self) -> EventModel {
        match *self {
            Event::Connect => EventModel::Connect,
            Event::Found(record) => EventModel::Found(record@),
            Event::NotFound => EventModel::NotFound,
            Event::Stored => EventModel::Stored,
            Event::Failed => EventModel::Failed,
            Event::Disconnect => EventModel::Disconnect,
        }
    }
}

/// What has to be done after a decision.
#[derive(Clone, Debug, PartialEq, Eq)]
pub enum Action {
    /// Ask storage for the user's record.
    FindUser,
    /// Ask storage to create this record for the user.
    CreateUser(DurableRecord),
    /// Ask storage to overwrite the user's record with this one.
    UpdateUser(DurableRecord),
    /// Let the user in: the session is active.
    Admit { is_new_user: bool },
    /// The session has ended and its values are stored.
    Close,
    /// Report this error; the user has no session.
    Fail(SessionError),
    /// The event does not belong to this phase: nothing to do.
    Ignore,
}

/// An action as a mathematical value.
pub enum ActionModel {
    FindUser,
    CreateUser(DurableModel),
    UpdateUser(DurableModel),
    Admit { is_new_user: bool },
    Close,
    Fail(SessionError),
    Ignore,
}

impl View for Action {
    type V = ActionModel;

    open spec fn view(&self) -> ActionModel {
        match *self {
            Action::FindUser => ActionModel::FindUser,
            Action::CreateUser(record) => ActionModel::CreateUser(record@),
            Action::UpdateUser(record) => ActionModel::UpdateUser(record@),
            Action::Admit { is_new_user } => ActionModel::Admit { is_new_user },
            Action::Close => ActionModel::Close,
            Action::Fail(error) => ActionModel::Fail(error),
            Action::Ignore => ActionModel::Ignore,
        }
    }
}

/// The record that storage is asked to create for a user seen for the first
/// time: the display name, no playtime, the starting balance.
pub open spec fn new_user_record(display_name: Seq<char>, starting_balance: i64) -> DurableModel {
    DurableModel { nickname: display_name, playtime: 0, balance: starting_balance }
}

/// The session that begins at `now` from what storage holds.
pub open spec fn session_from(record: DurableModel, now: i64) -> SessionModel {
    SessionModel {
        nickname: record.nickname,
        baseline_playtime: record.playtime,
        join_time: now,
        balance: record.balance,
    }
}

/// What storage is asked to keep of a session that ends at `now`: its
/// nickname, its live playtime and its balance.
pub open spec fn write_back_of(session: SessionModel, now: i64) -> DurableModel {
    DurableModel {
        nickname: session.nickname,
        playtime: live_playtime_value(
            session.baseline_playtime as int,
            session.join_time as int,
            now as int,
        ) as i64,
        balance: session.balance,
    }
}

/// The phase that follows `phase` on `event`.
pub open spec fn next_phase(sessions: SessionMap, id: Seq<char>, phase: Phase, event: EventModel) -> Phase {
    match (phase, event) {
        (Phase::Disconnected, EventModel::Connect) => Phase::Finding,
        (Phase::Finding, EventModel::Found(_)) => Phase::Active,
        (Phase::Finding, EventModel::NotFound) => Phase::Creating,
        (Phase::Finding, EventModel::Failed) => Phase::Disconnected,
        (Phase::Creating, EventModel::Stored) => Phase::Active,
        (Phase::Creating, EventModel::Failed) => Phase::Disconnected,
        (Phase::Active, EventModel::Disconnect) => if sessions.contains_key(id) {
            Phase::WritingBack
        } else {
            Phase::Disconnected
        },
        (Phase::WritingBack, EventModel::Stored) => Phase::Disconnected,
        (Phase::WritingBack, EventModel::Failed) => Phase::Disconnected,
        _ => phase,
    }
}

/// The action that `event` calls for in `phase`.
pub open spec fn next_action(
    sessions: SessionMap,
    id: Seq<char>,
    display_name: Seq<char>,
    starting_balance: i64,
    now: i64,
    phase: Phase,
    event: EventModel,
) -> ActionModel {
    match (phase, event) {
        (Phase::Disconnected, EventModel::Connect) => ActionModel::FindUser,
        (Phase::Finding, EventModel::Found(_)) => ActionModel::Admit { is_new_user: false },
        (Phase::Finding, EventModel::NotFound) => ActionModel::CreateUser(
            new_user_record(display_name, starting_balance),
        ),
        (Phase::Finding, EventModel::Failed) => ActionModel::Fail(SessionError::StorageUnavailable),
        (Phase::Creating, EventModel::Stored) => ActionModel::Admit { is_new_user: true },
        (Phase::Creating, EventModel::Failed) => ActionModel::Fail(SessionError::StorageUnavailable),
        (Phase::Active, EventModel::Disconnect) => if sessions.contains_key(id) {
            ActionModel::UpdateUser(write_back_of(sessions[id], now))
        } else {
            ActionModel::Fail(SessionError::NoActiveSession)
        },
        (Phase::WritingBack, EventModel::Stored) => ActionModel::Close,
        (Phase::WritingBack, EventModel::Failed) => ActionModel::Fail(
            SessionError::StorageUnavailable,
        ),
        _ => ActionModel::Ignore,
    }
}

/// The sessions after `event` in `phase`: a session begins when the user's
/// record was found or created, and ends when the write-back was answered,
/// whatever the answer.
pub open spec fn sessions_after(
    sessions: SessionMap,
    id: Seq<char>,
    display_name: Seq<char>,
    starting_balance: i64,
    now: i64,
    phase: Phase,
    event: EventModel,
) -> SessionMap {
    match (phase, event) {
        (Phase::Finding, EventModel::Found(record)) => sessions.insert(id, session_from(record, now)),
        (Phase::Creating, EventModel::Stored) => sessions.insert(
            id,
            session_from(new_user_record(display_name, starting_balance), now),
        ),
        (Phase::WritingBack, EventModel::Stored) => sessions.remove(id),
        (Phase::WritingBack, EventModel::Failed) => sessions.remove(id),
        _ => sessions,
    }
}

/// Decides what follows `event` for the user `user_id`, whose session stands
/// in `phase`, when the clock reads `now`: the next phase and the action to
/// carry out. `display_name` and `starting_balance` are what a user seen for
/// the first time is created with.
pub fn advance(
    cache: &mut SessionCache,
    user_id: &str,
    display_name: &str,
    starting_balance: i64,
    now: i64,
    phase: Phase,
    event: Event,
) -> (next: (Phase, Action))
    ensures
        next.0 == next_phase(old(cache)@, user_id@, phase, event@),
        next.1@ == next_action(
            old(cache)@,
            user_id@,
            display_name@,
            starting_balance,
            now,
            phase,
            event@,
        ),
        final(cache)@ == sessions_after(
            old(cache)@,
            user_id@,
            display_name@,
            starting_balance,
            now,
            phase,
            event@,
        ),
{
    match (phase, event) {
        (Phase::Disconnected, Event::Connect) => (Phase::Finding, Action::FindUser),
        (Phase::Finding, Event::Found(record)) => {
            let session = SessionRecord {
                nickname: record.nickname,
                baseline_playtime: record.playtime,
                join_time: now,
                balance: record.balance,
            };
            cache.insert(user_id, session);
            (Phase::Active, Action::Admit { is_new_user: false })
        },
        (Phase::Finding, Event::NotFound) => {
            let record = DurableRecord {
                nickname: String::from_str(display_name),
                playtime: 0,
                balance: starting_balance,
            };
            (Phase::Creating, Action::CreateUser(record))
        },
        (Phase::Finding, Event::Failed) => (
            Phase::Disconnected,
            Action::Fail(SessionError::StorageUnavailable),
        ),
        (Phase::Creating, Event::Stored) => {
            let session = SessionRecord {
                nickname: String::from_str(display_name),
                baseline_playtime: 0,
                join_time: now,
                balance: starting_balance,
            };
            cache.insert(user_id, session);
            (Phase::Active, Action::Admit { is_new_user: true })
        },
        (Phase::Creating, Event::Failed) => (
            Phase::Disconnected,
            Action::Fail(SessionError::StorageUnavailable),
        ),
        (Phase::Active, Event::Disconnect) => match cache.get(user_id) {
            Some(session) => {
                let playtime = live_playtime(session.baseline_playtime, session.join_time, now);
                let record = DurableRecord {
                    nickname: session.nickname,
                    playtime,
                    balance: session.balance,
                };
                (Phase::WritingBack, Action::UpdateUser(record))
            },
            None => (Phase::Disconnected, Action::Fail(SessionError::NoActiveSession)),
        },
        (Phase::WritingBack, Event::Stored) => {
            let _ = cache.remove(user_id);
            (Phase::Disconnected, Action::Close)
        },
        (Phase::WritingBack, Event::Failed) => {
            let _ = cache.remove(user_id);
            (Phase::Disconnected, Action::Fail(SessionError::StorageUnavailable))
        },
        (phase, _) => (phase, Action::Ignore),
    }
}

} // verus!
