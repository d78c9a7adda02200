use session_engine::clock::Timestamp;
use session_engine::models::{Condition, GameState, InitiativeEntry, UpdateInitiativeRequest};
use session_engine::turn::{
    advance_turn, has_distinct_ids, names_entry, set_initiative, update_initiative, TurnError,
};

const A: u128 = 0xa;
const B: u128 = 0xb;
const C: u128 = 0xc;

fn entry(id: u128, name: &str, initiative: i32) -> InitiativeEntry {
    InitiativeEntry {
        id,
        name: name.to_string(),
        initiative,
        is_player: true,
        character_id: None,
        user_id: None,
        hp_current: Some(10),
        hp_max: Some(12),
        ac: Some(15),
    }
}

fn abc() -> Vec<InitiativeEntry> {
    vec![entry(A, "Aria", 3), entry(B, "Brom", 18), entry(C, "Cyr", 7)]
}

fn state(order: Vec<InitiativeEntry>, current_turn: Option<u128>, round: i32) -> GameState {
    GameState { initiative_order: order, current_turn, round, combat_active: true, conditions: vec![] }
}

#[test]
fn three_advances_go_round_the_table_once() {
    let mut s = state(abc(), Some(A), 1);
    assert_eq!(advance_turn(&mut s), Ok(()));
    assert_eq!((s.current_turn, s.round), (Some(B), 1));
    assert_eq!(advance_turn(&mut s), Ok(()));
    assert_eq!((s.current_turn, s.round), (Some(C), 1));
    assert_eq!(advance_turn(&mut s), Ok(()));
    assert_eq!((s.current_turn, s.round), (Some(A), 2));
}

#[test]
fn an_empty_order_fails_and_changes_nothing() {
    let mut s = state(vec![], None, 4);
    let before = s.clone();
    assert_eq!(advance_turn(&mut s), Err(TurnError::NoInitiativeOrder));
    assert_eq!(s, before);
    assert_eq!(s.round, 4);
    assert_eq!(TurnError::NoInitiativeOrder.message(), "no initiative order set");
}

#[test]
fn an_empty_order_fails_even_with_a_stale_turn() {
    let mut s = state(vec![], Some(A), 2);
    assert_eq!(advance_turn(&mut s), Err(TurnError::NoInitiativeOrder));
    assert_eq!((s.current_turn, s.round), (Some(A), 2));
}

#[test]
fn an_unset_turn_counts_as_the_first_place() {
    let mut s = state(abc(), None, 1);
    assert_eq!(advance_turn(&mut s), Ok(()));
    assert_eq!((s.current_turn, s.round), (Some(B), 1));
}

#[test]
fn an_unknown_turn_counts_as_the_first_place() {
    let mut s = state(abc(), Some(0xdead), 5);
    assert_eq!(advance_turn(&mut s), Ok(()));
    assert_eq!((s.current_turn, s.round), (Some(B), 5));
}

#[test]
fn a_single_entry_starts_a_new_round_every_time() {
    let mut s = state(vec![entry(A, "Aria", 3)], None, 1);
    assert_eq!(advance_turn(&mut s), Ok(()));
    assert_eq!((s.current_turn, s.round), (Some(A), 2));
    assert_eq!(advance_turn(&mut s), Ok(()));
    assert_eq!((s.current_turn, s.round), (Some(A), 3));
}

#[test]
fn list_order_decides_and_not_the_score() {
    // Brom has the highest score and still acts second
    let mut s = state(abc(), Some(C), 1);
    assert_eq!(advance_turn(&mut s), Ok(()));
    assert_eq!((s.current_turn, s.round), (Some(A), 2));
    assert_eq!(s.initiative_order, abc());
}

#[test]
fn with_a_repeated_id_the_first_place_counts() {
    let order = vec![entry(A, "Aria", 1), entry(B, "Brom", 2), entry(A, "Aria again", 3)];
    let mut s = state(order, Some(A), 1);
    assert_eq!(advance_turn(&mut s), Ok(()));
    assert_eq!((s.current_turn, s.round), (Some(B), 1));
}

#[test]
fn advancing_leaves_combat_and_conditions_alone() {
    let condition = Condition {
        target_id: B,
        condition_type: "stunned".to_string(),
        duration: Some(2),
        description: "cannot act".to_string(),
        applied_at: Timestamp { secs: 1_700_000_000, nanos: 5 },
    };
    let mut s = GameState {
        initiative_order: abc(),
        current_turn: Some(B),
        round: 3,
        combat_active: false,
        conditions: vec![condition.clone()],
    };
    assert_eq!(advance_turn(&mut s), Ok(()));
    assert!(!s.combat_active);
    assert_eq!(s.conditions, vec![condition]);
    assert_eq!(s.initiative_order, abc());
    assert_eq!((s.current_turn, s.round), (Some(C), 3));
}

#[test]
fn the_round_stops_at_its_limit() {
    let mut s = state(abc(), Some(C), i32::MAX);
    let before = s.clone();
    assert_eq!(advance_turn(&mut s), Err(TurnError::RoundLimit));
    assert_eq!(s, before);
    assert_eq!(TurnError::RoundLimit.message(), "round limit reached");
    // a turn that does not wrap still advances
    let mut s = state(abc(), Some(A), i32::MAX);
    assert_eq!(advance_turn(&mut s), Ok(()));
    assert_eq!((s.current_turn, s.round), (Some(B), i32::MAX));
}

#[test]
fn the_round_never_goes_down() {
    let mut s = state(abc(), None, 1);
    let mut last = s.round;
    for _ in 0..20 {
        advance_turn(&mut s).unwrap();
        assert!(s.round >= last);
        last = s.round;
    }
    assert_eq!(s.round, 7);
}

#[test]
fn a_new_order_switches_combat_on_and_keeps_turn_and_round() {
    let mut s = GameState {
        initiative_order: vec![entry(A, "Aria", 3)],
        current_turn: Some(A),
        round: 4,
        combat_active: false,
        conditions: vec![],
    };
    assert_eq!(set_initiative(&mut s, abc()), Ok(()));
    assert_eq!(s.initiative_order, abc());
    assert!(s.combat_active);
    assert_eq!((s.current_turn, s.round), (Some(A), 4));
}

#[test]
fn a_new_order_without_the_current_entry_unsets_the_turn() {
    let mut s = state(abc(), Some(C), 2);
    assert_eq!(set_initiative(&mut s, vec![entry(A, "Aria", 3), entry(B, "Brom", 18)]), Ok(()));
    assert_eq!((s.current_turn, s.round), (None, 2));
    // and the next advance starts after the first entry
    assert_eq!(advance_turn(&mut s), Ok(()));
    assert_eq!((s.current_turn, s.round), (Some(B), 2));
}

#[test]
fn an_empty_order_is_a_valid_order() {
    let mut s = state(abc(), Some(C), 2);
    assert_eq!(set_initiative(&mut s, vec![]), Ok(()));
    assert_eq!(s, GameState { initiative_order: vec![], current_turn: None, round: 2, combat_active: true, conditions: vec![] });
}

#[test]
fn an_order_with_a_repeated_id_is_refused() {
    let mut s = state(abc(), Some(C), 2);
    s.combat_active = false;
    let before = s.clone();
    let twice = vec![entry(A, "Aria", 3), entry(B, "Brom", 18), entry(A, "Aria again", 1)];
    assert_eq!(set_initiative(&mut s, twice), Err(TurnError::DuplicateId));
    assert_eq!(s, before);
    assert_eq!(TurnError::DuplicateId.message(), "initiative ids must be unique");
}

#[test]
fn distinct_ids_are_told_from_repeated_ones() {
    assert!(has_distinct_ids(&vec![]));
    assert!(has_distinct_ids(&abc()));
    assert!(!has_distinct_ids(&vec![entry(A, "x", 1), entry(A, "x", 1)]));
    assert!(!has_distinct_ids(&vec![entry(A, "x", 1), entry(B, "y", 1), entry(C, "z", 1), entry(B, "y", 1)]));
    assert!(names_entry(&abc(), B));
    assert!(!names_entry(&abc(), 0xd));
    assert!(!names_entry(&vec![], A));
}

#[test]
fn the_empty_state_is_round_one_without_combat() {
    let s = GameState::empty();
    assert_eq!(
        s,
        GameState {
            initiative_order: vec![],
            current_turn: None,
            round: 1,
            combat_active: false,
            conditions: vec![],
        }
    );
}

#[test]
fn an_undecodable_state_loads_as_the_empty_state() {
    assert_eq!(GameState::loaded(None), GameState::empty());
    let stored = state(abc(), Some(B), 9);
    assert_eq!(GameState::loaded(Some(stored.clone())), stored);
}

#[test]
fn clone_order_copies_every_entry() {
    assert_eq!(GameState::clone_order(&abc()), abc());
    assert_eq!(GameState::clone_order(&vec![]), vec![]);
}

fn overwrite(order: Vec<InitiativeEntry>, current_turn: Option<u128>, round: Option<i32>, combat_active: Option<bool>) -> UpdateInitiativeRequest {
    UpdateInitiativeRequest { session_id: 1, initiative_order: order, current_turn, round, combat_active }
}

#[test]
fn an_overwrite_replaces_order_and_turn_and_what_else_is_named() {
    let mut s = state(vec![entry(A, "Aria", 3)], Some(A), 4);
    s.combat_active = false;
    assert_eq!(update_initiative(&mut s, overwrite(abc(), Some(C), None, None)), Ok(()));
    assert_eq!(s.initiative_order, abc());
    assert_eq!((s.current_turn, s.round, s.combat_active), (Some(C), 4, false));
    assert_eq!(update_initiative(&mut s, overwrite(vec![], None, Some(9), Some(true))), Ok(()));
    assert_eq!(s.initiative_order, vec![]);
    assert_eq!((s.current_turn, s.round, s.combat_active), (None, 9, true));
    assert_eq!(update_initiative(&mut s, overwrite(abc(), None, Some(9), Some(false))), Ok(()));
    assert_eq!((s.current_turn, s.round, s.combat_active), (None, 9, false));
}

#[test]
fn an_overwrite_that_breaks_the_state_is_refused() {
    let mut s = state(abc(), Some(B), 4);
    let before = s.clone();
    let twice = vec![entry(A, "Aria", 3), entry(A, "Aria", 3)];
    assert_eq!(update_initiative(&mut s, overwrite(twice, None, None, None)), Err(TurnError::DuplicateId));
    assert_eq!(update_initiative(&mut s, overwrite(abc(), Some(0xd), None, None)), Err(TurnError::UnknownTurn));
    assert_eq!(update_initiative(&mut s, overwrite(vec![], Some(A), None, None)), Err(TurnError::UnknownTurn));
    assert_eq!(update_initiative(&mut s, overwrite(abc(), Some(A), Some(3), None)), Err(TurnError::RoundDecreases));
    assert_eq!(update_initiative(&mut s, overwrite(abc(), Some(A), Some(0), None)), Err(TurnError::RoundDecreases));
    assert_eq!(update_initiative(&mut s, overwrite(abc(), Some(A), Some(-1), Some(true))), Err(TurnError::RoundDecreases));
    assert_eq!(s, before);
    assert_eq!(TurnError::UnknownTurn.message(), "current turn names no entry");
    assert_eq!(TurnError::RoundDecreases.message(), "round cannot go down");
}

#[test]
fn an_overwrite_of_a_state_below_round_one_must_reach_round_one() {
    let mut s = state(abc(), None, 0);
    assert_eq!(update_initiative(&mut s, overwrite(abc(), None, Some(0), None)), Err(TurnError::RoundDecreases));
    assert_eq!(update_initiative(&mut s, overwrite(abc(), None, Some(1), None)), Ok(()));
    assert_eq!(s.round, 1);
}
