//! The messages that travel between a client and the engine.
//!
//! On the wire each message is an envelope with a `type` naming the variant
//! and `data` holding its fields. Encoding and decoding are the caller's;
//! fields that hold free-form JSON are carried here as JSON text.

use vstd::prelude::*;
use crate::clock::Timestamp;
use crate::dice::DiceResult;
use crate::models::{Character, InitiativeEntry};
use crate::registry::PlayerInfo;

verus! {

/// What a client sends.
#[derive(Clone, Debug, PartialEq, Eq)]
#[allow(inconsistent_fields)]
pub enum ClientMessage {
    JoinSession { session_id: u128 },
    LeaveSession { session_id: u128 },
    DiceRoll { dice: String, reason: Option<String> },
    ChatMessage { message: String },
    UpdateGameState { game_state: String },
    PlayerAction { action: String, data: String },
    UpdateCharacter { character_id: u128, updates: String },
    UpdateInitiative { session_id: u128, initiative_order: Vec<InitiativeEntry> },
    NextTurn { session_id: u128 },
    UpdateHP { character_id: u128, hp_current: i32, hp_max: Option<i32> },
    CreateEventLog { session_id: u128, event_type: String, event_data: String },
    AIRequest { prompt: String, request_type: String, context: Option<String> },
}

/// What the engine sends.
#[derive(Clone, Debug, PartialEq, Eq)]
#[allow(inconsistent_fields)]
pub enum ServerMessage {
    SessionJoined { session_id: u128, players: Vec<PlayerInfo> },
    PlayerJoined { player: PlayerInfo },
    PlayerLeft { player_id: u128 },
    DiceRolled { player_id: u128, result: DiceResult },
    ChatMessage { player_id: u128, message: String, timestamp: Timestamp },
    GameStateUpdated { game_state: String },
    CharacterUpdated { character: CharacterInfo },
    InitiativeUpdated {
        session_id: u128,
        initiative_order: Vec<InitiativeEntry>,
        current_turn: Option<u128>,
    },
    TurnChanged { session_id: u128, current_turn: u128, round: i32 },
    HPUpdated { character_id: u128, hp_current: i32, hp_max: i32 },
    EventLogCreated {
        event_id: u128,
        event_type: String,
        event_data: String,
        created_by: u128,
        created_at: Timestamp,
    },
    AIResponse { response: String, request_type: String, tokens_used: Option<i32>, model: String },
    Error { message: String },
}

/// A character as it is shown to the players.
#[derive(Clone, Debug, PartialEq, Eq)]
pub struct CharacterInfo {
    pub id: u128,
    pub name: String,
    pub race: Option<String>,
    pub class: Option<String>,
    pub level: i32,
    pub hp_current: Option<i32>,
    pub hp_max: Option<i32>,
    pub ac: Option<i32>,
    pub speed: Option<i32>,
}

impl CharacterInfo {
    /// The part of a stored character that the players see.
    pub fn of(character: Character) -> (info: CharacterInfo)
        ensures
            info == (CharacterInfo {
                id: character.id,
                name: character.name,
                race: character.race,
                class: character.class,
                level: character.level,
                hp_current: character.hp_current,
                hp_max: character.hp_max,
                ac: character.ac,
                speed: character.speed,
            }),
    {
        CharacterInfo {
            id: character.id,
            name: character.name,
            race: character.race,
            class: character.class,
            level: character.level,
            hp_current: character.hp_current,
            hp_max: character.hp_max,
            ac: character.ac,
            speed: character.speed,
        }
    }
}

impl ServerMessage {
    /// Whether this is an error message with the given text.
    pub open spec fn is_error(self, text: Seq<char>) -> bool {
        self matches ServerMessage::Error { message } && message@ == text
    }

    /// An error message with the given text.
    pub fn error(text: &str) -> (m: ServerMessage)
        ensures
            m.is_error(text@),
    {
        ServerMessage::Error { message: text.to_owned() }
    }
}

} // verus!
