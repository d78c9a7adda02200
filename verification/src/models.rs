//! The shared state of a session and the records it is made of.
//!
//! Identifiers are 128-bit numbers; a UUID's `as_u128` gives one.

use vstd::prelude::*;
use crate::clock::Timestamp;

verus! {

/// A session as persistence holds it, cut down to what the engine reads.
///
/// The row belongs to the persistence layer. The engine reads it and writes
/// the game state back; it never creates or deletes one.
#[derive(Clone, Debug, PartialEq, Eq)]
pub struct Session {
    pub id: u128,
    pub campaign_id: u128,
    pub status: String,
    /// The stored game state, where the stored blob could be decoded as one.
    pub game_state: Option<GameState>,
}

/// A character as persistence holds it, cut down to what the engine reads.
#[derive(Clone, Debug, PartialEq, Eq)]
pub struct Character {
    pub id: u128,
    pub campaign_id: u128,
    /// The user who owns the character.
    pub player_id: Option<u128>,
    pub name: String,
    pub race: Option<String>,
    pub class: Option<String>,
    pub level: i32,
    pub hp_current: Option<i32>,
    pub hp_max: Option<i32>,
    pub ac: Option<i32>,
    pub speed: Option<i32>,
}

/// An entry of a session's event log, as persistence returns it.
#[derive(Clone, Debug, PartialEq, Eq)]
pub struct EventLog {
    pub id: u128,
    pub session_id: u128,
    pub event_type: String,
    /// The event's data, as JSON text.
    pub event_data: String,
    pub created_by: Option<u128>,
    pub created_at: Timestamp,
}

/// A change of a character's hit points: the current value, and a new
/// maximum where that changes too.
#[derive(Clone, Copy, Debug, PartialEq, Eq, Structural)]
pub struct UpdateCharacterHPRequest {
    pub hp_current: i32,
    pub hp_max: Option<i32>,
}

/// A wholesale replacement of a session's turn state, field by field.
#[derive(Clone, Debug, PartialEq, Eq)]
pub struct UpdateInitiativeRequest {
    pub session_id: u128,
    pub initiative_order: Vec<InitiativeEntry>,
    pub current_turn: Option<u128>,
    pub round: Option<i32>,
    pub combat_active: Option<bool>,
}

/// One participant in the turn order.
#[derive(Clone, Debug, PartialEq, Eq)]
pub struct InitiativeEntry {
    pub id: u128,
    pub name: String,
    /// The initiative score. It is shown to the players; the order of the
    /// list, not this number, decides who acts next.
    pub initiative: i32,
    pub is_player: bool,
    pub character_id: Option<u128>,
    pub user_id: Option<u128>,
    pub hp_current: Option<i32>,
    pub hp_max: Option<i32>,
    pub ac: Option<i32>,
}

/// A status effect on a participant. The engine carries these along and
/// never looks inside.
#[derive(Clone, Debug, PartialEq, Eq)]
pub struct Condition {
    pub target_id: u128,
    pub condition_type: String,
    pub duration: Option<i32>,
    pub description: String,
    pub applied_at: Timestamp,
}

/// The state that every viewer of a session shares.
#[derive(Clone, Debug, PartialEq, Eq)]
pub struct GameState {
    /// Who acts, in the order in which they act.
    pub initiative_order: Vec<InitiativeEntry>,
    /// The `id` of the entry whose turn it is.
    pub current_turn: Option<u128>,
    pub round: i32,
    pub combat_active: bool,
    pub conditions: Vec<Condition>,
}

/// A game state as a mathematical value.
pub struct GameStateView {
    pub order: Seq<InitiativeEntry>,
    pub current_turn: Option<u128>,
    pub round: int,
    pub combat_active: bool,
    pub conditions: Seq<Condition>,
}

impl View for GameState {
    type V = GameStateView;

    open spec fn view(&self) -> GameStateView {
        GameStateView {
            order: self.initiative_order@,
            current_turn: self.current_turn,
            round: self.round as int,
            combat_active: self.combat_active,
            conditions: self.conditions@,
        }
    }
}

/// The ids of a turn order, in order.
pub open spec fn ids_of(order: Seq<InitiativeEntry>) -> Seq<u128> {
    Seq::new(order.len(), |i: int| order[i].id)
}

impl GameStateView {
    /// The state before anything has happened: nobody in the order, nobody's
    /// turn, round 1, no combat.
    pub open spec fn empty() -> GameStateView {
        GameStateView {
            order: Seq::empty(),
            current_turn: None,
            round: 1,
            combat_active: false,
            conditions: Seq::empty(),
        }
    }

    /// A state is well formed when its round is at least 1, no id occurs
    /// twice in the turn order, and the current turn, where set, names an
    /// entry of the order.
    pub open spec fn wf(self) -> bool {
        &&& self.round >= 1
        &&& ids_of(self.order).no_duplicates()
        &&& self.current_turn matches Some(id) ==> ids_of(self.order).contains(id)
    }
}

impl GameState {
    /// The state before anything has happened.
    pub fn empty() -> (state: GameState)
        ensures
            state@ == GameStateView::empty(),
            state@.wf(),
    {
        GameState {
            initiative_order: Vec::new(),
            current_turn: None,
            round: 1,
            combat_active: false,
            conditions: Vec::new(),
        }
    }

    /// Copies the turn order.
    pub fn clone_order(order: &Vec<InitiativeEntry>) -> (copy: Vec<InitiativeEntry>)
        ensures
            copy@ == order@,
    {
        let mut copy: Vec<InitiativeEntry> = Vec::new();
        let mut i: usize = 0;
        while i < order.len()
            invariant
                i <= order.len(),
                copy@ == order@.take(i as int),
            decreases order.len() - i,
        {
            let e = &order[i];
            copy.push(
                InitiativeEntry {
                    id: e.id,
                    name: e.name.clone(),
                    initiative: e.initiative,
                    is_player: e.is_player,
                    character_id: e.character_id,
                    user_id: e.user_id,
                    hp_current: e.hp_current,
                    hp_max: e.hp_max,
                    ac: e.ac,
                },
            );
            i += 1;
        }
        copy
    }

    /// The state to work on, given what was read from storage: the stored
    /// state where it could be decoded, and the empty state where it could
    /// not, so that an unreadable blob never fails the operation.
    pub fn loaded(stored: Option<GameState>) -> (state: GameState)
        ensures
            match stored {
                Some(s) => state == s,
                None => state@ == GameStateView::empty(),
            },
    {
        match stored {
            Some(s) => s,
            None => GameState::empty(),
        }
    }
}

} // verus!
