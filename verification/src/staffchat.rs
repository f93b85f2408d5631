//! The staff channel: who hears it, and what a line on it looks like.

use vstd::prelude::*;

verus! {

/// The permission level of a player, from none to the highest.
#[derive(Clone, Copy, Debug, PartialEq, Eq, Structural)]
pub enum PermissionLevel {
    Zero,
    One,
    Two,
    Three,
    Four,
}

impl PermissionLevel {
    /// The level as a number, from 0 to 4.
    pub open spec fn rank(self) -> int {
        match self {
            PermissionLevel::Zero => 0,
            PermissionLevel::One => 1,
            PermissionLevel::Two => 2,
            PermissionLevel::Three => 3,
            PermissionLevel::Four => 4,
        }
    }

    /// Whether a player of this level receives what is said on the staff
    /// channel: every level but the lowest does.
    pub fn hears_staff_chat(self) -> (hears: bool)
        ensures
            hears == (self.rank() >= 1),
    {
        match self {
            PermissionLevel::Zero => false,
            _ => true,
        }
    }
}

/// The name under which a line appears on the staff channel: the player's,
/// or `Server` for a sender who is no player.
pub open spec fn staff_chat_sender(player_name: Option<Seq<char>>) -> Seq<char> {
    match player_name {
        Some(name) => name,
        None => "Server"@,
    }
}

/// A line on the staff channel: the channel's tag, the sender, a colon and
/// the message.
pub open spec fn staff_chat_text(player_name: Option<Seq<char>>, message: Seq<char>) -> Seq<char> {
    "[SC] "@ + staff_chat_sender(player_name) + ": "@ + message
}

/// The view of an optional name.
pub open spec fn name_view(player_name: Option<&str>) -> Option<Seq<char>> {
    match player_name {
        Some(name) => Some(name@),
        None => None,
    }
}

/// Writes the line that the staff channel shows for `message`, sent by the
/// player `player_name` or, without one, by the server.
pub fn staff_chat_line(player_name: Option<&str>, message: &str) -> (line: String)
    ensures
        line@ == staff_chat_text(name_view(player_name), message@),
{
    let mut line = String::from_str("[SC] ");
    match player_name {
        Some(name) => line.append(name),
        None => line.append("Server"),
    }
    line.append(": ");
    line.append(message);
    line
}

} // verus!
