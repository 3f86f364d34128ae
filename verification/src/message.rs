use vstd::prelude::*;

verus! {

/// The kinds of message the phone sends to the score list.
#[derive(Clone, Copy, Debug, PartialEq, Eq, Structural)]
pub enum MessageType {
    /// A game of the list, without its teams.
    GameInfo,
    /// How one team stands in one game of the list.
    GameTeamState,
}

/// The kind of message with the given code, if there is one.
pub open spec fn message_type_of_code(v: int) -> Option<MessageType> {
    if v == 1 {
        Some(MessageType::GameInfo)
    } else if v == 2 {
        Some(MessageType::GameTeamState)
    } else {
        None
    }
}

impl MessageType {
    /// The code of this kind of message.
    pub open spec fn spec_code(self) -> int {
        match self {
            MessageType::GameInfo => 1,
            MessageType::GameTeamState => 2,
        }
    }

    /// The code of this kind of message, as it travels.
    pub fn code(&self) -> (r: i32)
        ensures
            r == self.spec_code(),
    {
        match self {
            MessageType::GameInfo => 1,
            MessageType::GameTeamState => 2,
        }
    }

    /// The kind of message with the given code, if there is one.
    pub fn from_code(v: i32) -> (r: Option<MessageType>)
        ensures
            r == message_type_of_code(v as int),
    {
        if v == 1 {
            Some(MessageType::GameInfo)
        } else if v == 2 {
            Some(MessageType::GameTeamState)
        } else {
            None
        }
    }
}

/// The keys of the fields of the messages that the watch and the phone
/// exchange.
#[derive(Clone, Copy, Debug, PartialEq, Eq, Structural)]
pub enum MessageKey {
    MessageType,
    SportIconIndex,
    LeagueId,
    LeagueName,
    GameId,
    GameTimestamp,
    GameStatus,
    GameDetails,
    GameTime,
    GameTeamIndex,
    TeamScore,
    TeamPosession,
    TeamId,
    TeamName,
    TeamRecord,
}

impl MessageKey {
    /// The number of this key.
    pub open spec fn spec_code(self) -> int {
        match self {
            MessageKey::MessageType => 0,
            MessageKey::SportIconIndex => 1,
            MessageKey::LeagueId => 2,
            MessageKey::LeagueName => 3,
            MessageKey::GameId => 4,
            MessageKey::GameTimestamp => 5,
            MessageKey::GameStatus => 6,
            MessageKey::GameDetails => 7,
            MessageKey::GameTime => 8,
            MessageKey::GameTeamIndex => 9,
            MessageKey::TeamScore => 10,
            MessageKey::TeamPosession => 11,
            MessageKey::TeamId => 12,
            MessageKey::TeamName => 13,
            MessageKey::TeamRecord => 14,
        }
    }

    /// The number of this key, as it travels.
    pub fn code(&self) -> (r: u32)
        ensures
            r == self.spec_code(),
    {
        match self {
            MessageKey::MessageType => 0,
            MessageKey::SportIconIndex => 1,
            MessageKey::LeagueId => 2,
            MessageKey::LeagueName => 3,
            MessageKey::GameId => 4,
            MessageKey::GameTimestamp => 5,
            MessageKey::GameStatus => 6,
            MessageKey::GameDetails => 7,
            MessageKey::GameTime => 8,
            MessageKey::GameTeamIndex => 9,
            MessageKey::TeamScore => 10,
            MessageKey::TeamPosession => 11,
            MessageKey::TeamId => 12,
            MessageKey::TeamName => 13,
            MessageKey::TeamRecord => 14,
        }
    }
}

/// Every kind of message is read back from its own code, and a code that
/// names a kind is that kind's code.
pub proof fn law_message_type_round_trip(t: MessageType, v: int)
    ensures
        message_type_of_code(t.spec_code()) == Some(t),
        message_type_of_code(v) matches Some(u) ==> u.spec_code() == v,
{
}

/// No two keys share a number.
pub proof fn law_message_keys_distinct(a: MessageKey, b: MessageKey)
    ensures
        a.spec_code() == b.spec_code() ==> a == b,
{
}

} // verus!
