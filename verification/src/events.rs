//! What a player is told on joining and on leaving.

use vstd::prelude::*;
use crate::cache::{get_nickname, nickname_of, SessionCache, SessionMap};
use crate::record::SessionError;

verus! {

/// What follows a player's attempt to join.
#[derive(Clone, Debug, PartialEq, Eq)]
pub struct JoinVerdict {
    /// Whether the player has to be removed from the server again.
    pub kick: bool,
    /// The message that announces the player.
    pub join_message: String,
}

/// The message for a player who joins: a welcome for one seen for the first
/// time, a welcome back for any other.
pub open spec fn join_message_text(sessions: SessionMap, id: Seq<char>, is_new_user: bool) -> Seq<char> {
    if is_new_user {
        "Welcome, "@ + nickname_of(sessions, id) + "!"@
    } else {
        "Welcome back, "@ + nickname_of(sessions, id) + "!"@
    }
}

/// The message for a player who leaves.
pub open spec fn leave_message_text(sessions: SessionMap, id: Seq<char>) -> Seq<char> {
    "Goodbye, "@ + nickname_of(sessions, id) + "!"@
}

/// Decides what a joining player is told.
pub struct JoinHandler;

impl JoinHandler {
    /// The verdict on the player `player_uuid`, whose session was loaded with
    /// the result `loaded`: `Ok` says whether the player was seen for the first
    /// time. A player whose session could not be loaded is kicked, and is
    /// announced like one who comes back.
    pub fn verdict(cache: &SessionCache, player_uuid: &str, loaded: Result<bool, SessionError>) -> (verdict: JoinVerdict)
        ensures
            verdict.kick == (loaded is Err),
            verdict.join_message@ == join_message_text(
                cache@,
                player_uuid@,
                loaded == Ok::<bool, SessionError>(true),
            ),
    {
        let (kick, is_new_user) = match loaded {
            Ok(is_new_user) => (false, is_new_user),
            Err(_) => (true, false),
        };
        let mut join_message = if is_new_user {
            String::from_str("Welcome, ")
        } else {
            String::from_str("Welcome back, ")
        };
        let nickname = get_nickname(cache, player_uuid);
        join_message.append(nickname.as_str());
        join_message.append("!");
        JoinVerdict { kick, join_message }
    }
}

/// Decides what a leaving player is told.
pub struct LeaveHandler;

impl LeaveHandler {
    /// The message for the player `player_uuid`, by the nickname that the
    /// cache holds: to be asked for before the session is ended.
    pub fn leave_message(cache: &SessionCache, player_uuid: &str) -> (message: String)
        ensures
            message@ == leave_message_text(cache@, player_uuid@),
    {
        let mut message = String::from_str("Goodbye, ");
        let nickname = get_nickname(cache, player_uuid);
        message.append(nickname.as_str());
        message.append("!");
        message
    }
}

} // verus!
