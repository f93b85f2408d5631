//! The records that the session layer works on, and its errors.

use vstd::prelude::*;

verus! {

/// Why an operation of the session layer did not go through.
#[derive(Clone, Copy, Debug, PartialEq, Eq, Structural)]
pub enum SessionError {
    /// Durable storage could not be reached or failed.
    StorageUnavailable,
    /// The operation addressed a user who has no session.
    NoActiveSession,
    /// The amount of money is not one that the operation accepts.
    InvalidAmount,
}

/// What the cache holds about one connected user. The user's identifier is
/// not repeated here: it is the key under which the cache holds the record.
#[derive(Clone, Debug, PartialEq, Eq)]
pub struct SessionRecord {
    /// Current display name.
    pub nickname: String,
    /// Seconds played before this session began.
    pub baseline_playtime: i64,
    /// Seconds since the epoch at which this session began.
    pub join_time: i64,
    /// Money held, in minor units.
    pub balance: i64,
}

/// A session record as a mathematical value.
pub struct SessionModel {
    pub nickname: Seq<char>,
    pub baseline_playtime: i64,
    pub join_time: i64,
    pub balance: i64,
}

impl View for SessionRecord {
    type V = SessionModel;

    open spec fn view(&self) -> SessionModel {
        SessionModel {
            nickname: self.nickname@,
            baseline_playtime: self.baseline_playtime,
            join_time: self.join_time,
            balance: self.balance,
        }
    }
}

/// The row that durable storage keeps for a user across sessions.
#[derive(Clone, Debug, PartialEq, Eq)]
pub struct DurableRecord {
    /// Display name as last written.
    pub nickname: String,
    /// Cumulative seconds played, as of the last session's end.
    pub playtime: i64,
    /// Money held, in minor units.
    pub balance: i64,
}

/// A durable record as a mathematical value.
pub struct DurableModel {
    pub nickname: Seq<char>,
    pub playtime: i64,
    pub balance: i64,
}

impl View for DurableRecord {
    type V = DurableModel;

    open spec fn view(&self) -> DurableModel {
        DurableModel {
            nickname: self.nickname@,
            playtime: self.playtime,
            balance: self.balance,
        }
    }
}

} // verus!
