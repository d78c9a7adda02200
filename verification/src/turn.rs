//! Whose turn it is.
//!
//! The turn order is the list as the game master arranged it. Advancing moves
//! to the next entry and starts a new round when the list wraps around.
//!
//! Every operation here keeps a well-formed state well formed: the ids of
//! the order stay distinct, the current turn names an entry of the order or
//! is unset, and the round never goes down.

use vstd::prelude::*;
use std::collections::HashSet;
use crate::models::{ids_of, GameState, GameStateView, InitiativeEntry, UpdateInitiativeRequest};

verus! {

broadcast use vstd::std_specs::hash::group_hash_axioms;

/// Why the turn state did not change.
#[derive(Clone, Copy, Debug, PartialEq, Eq, Structural)]
pub enum TurnError {
    /// The turn order is empty.
    NoInitiativeOrder,
    /// The turn order wraps around and the round counter is at its limit.
    RoundLimit,
    /// Two entries of the new turn order have the same id.
    DuplicateId,
    /// The new current turn names no entry of the new turn order.
    UnknownTurn,
    /// The new round is below 1 or below the round reached.
    RoundDecreases,
}

impl TurnError {
    pub open spec fn text(self) -> Seq<char> {
        match self {
            TurnError::NoInitiativeOrder => "no initiative order set"@,
            TurnError::RoundLimit => "round limit reached"@,
            TurnError::DuplicateId => "initiative ids must be unique"@,
            TurnError::UnknownTurn => "current turn names no entry"@,
            TurnError::RoundDecreases => "round cannot go down"@,
        }
    }

    pub fn message(&self) -> (m: String)
        ensures
            m@ == self.text(),
    {
        match self {
            TurnError::NoInitiativeOrder => "no initiative order set".to_owned(),
            TurnError::RoundLimit => "round limit reached".to_owned(),
            TurnError::DuplicateId => "initiative ids must be unique".to_owned(),
            TurnError::UnknownTurn => "current turn names no entry".to_owned(),
            TurnError::RoundDecreases => "round cannot go down".to_owned(),
        }
    }
}

/// Whether `i` is the first place in `ids` that holds `id`.
pub open spec fn first_at(ids: Seq<u128>, id: u128, i: int) -> bool {
    &&& 0 <= i < ids.len()
    &&& ids[i] == id
    &&& forall|j: int| 0 <= j < i ==> ids[j] != id
}

/// The place of the current turn in the order: the first entry whose id is
/// `current`, and 0 where `current` is unset or names no entry.
pub open spec fn position(ids: Seq<u128>, current: Option<u128>) -> int {
    match current {
        Some(id) if ids.contains(id) => choose|i: int| first_at(ids, id, i),
        _ => 0,
    }
}

/// The place after `position`, wrapping to 0 at the end of the order.
pub open spec fn next_position(ids: Seq<u128>, current: Option<u128>) -> int
    recommends
        ids.len() > 0,
{
    (position(ids, current) + 1) % (ids.len() as int)
}

/// The state after the turn has advanced, or why it cannot.
pub open spec fn advanced(state: GameStateView) -> Result<GameStateView, TurnError> {
    let ids = ids_of(state.order);
    let next = next_position(ids, state.current_turn);
    if ids.len() == 0 {
        Err(TurnError::NoInitiativeOrder)
    } else if next == 0 && state.round >= i32::MAX {
        Err(TurnError::RoundLimit)
    } else {
        Ok(
            GameStateView {
                current_turn: Some(ids[next]),
                round: if next == 0 {
                    state.round + 1
                } else {
                    state.round
                },
                ..state
            },
        )
    }
}

/// The current turn as it stands under a new order: kept where it names an
/// entry of that order, unset where it does not.
pub open spec fn turn_under(order: Seq<InitiativeEntry>, current: Option<u128>) -> Option<u128> {
    match current {
        Some(id) if ids_of(order).contains(id) => Some(id),
        _ => None,
    }
}

/// The state after the game master has set a new turn order, or why the
/// order is refused. An order with a repeated id is refused. Else the order
/// is replaced as given and combat is on; the round and the conditions stay,
/// and so does the current turn while it names an entry of the new order.
pub open spec fn with_order(state: GameStateView, order: Seq<InitiativeEntry>) -> Result<
    GameStateView,
    TurnError,
> {
    if !ids_of(order).no_duplicates() {
        Err(TurnError::DuplicateId)
    } else {
        Ok(
            GameStateView {
                order,
                current_turn: turn_under(order, state.current_turn),
                combat_active: true,
                ..state
            },
        )
    }
}

/// The state after its turn fields have been overwritten, or why the
/// overwrite is refused.
///
/// Refused are an order with a repeated id, a current turn that names no
/// entry of the order, and a round below 1 or below the round reached. Else
/// the order and the current turn are as given, and the round and the combat
/// flag where given; conditions stay.
pub open spec fn overwritten(
    state: GameStateView,
    order: Seq<InitiativeEntry>,
    current_turn: Option<u128>,
    round: Option<i32>,
    combat_active: Option<bool>,
) -> Result<GameStateView, TurnError> {
    if !ids_of(order).no_duplicates() {
        Err(TurnError::DuplicateId)
    } else if current_turn matches Some(id) && !ids_of(order).contains(id) {
        Err(TurnError::UnknownTurn)
    } else if round matches Some(r) && (r < 1 || r < state.round) {
        Err(TurnError::RoundDecreases)
    } else {
        Ok(
            GameStateView {
                order,
                current_turn,
                round: match round {
                    Some(r) => r as int,
                    None => state.round,
                },
                combat_active: match combat_active {
                    Some(c) => c,
                    None => state.combat_active,
                },
                conditions: state.conditions,
            },
        )
    }
}

/// `position` is the first place that holds the current id, where there is one.
pub proof fn lemma_position(ids: Seq<u128>, current: Option<u128>)
    ensures
        ids.len() > 0 ==> 0 <= position(ids, current) < ids.len(),
        current is Some && ids.contains(current->0) ==> first_at(
            ids,
            current->0,
            position(ids, current),
        ),
        forall|i: int| current is Some && first_at(ids, current->0, i) ==> position(ids, current) == i,
{
    if let Some(id) = current {
        if ids.contains(id) {
            lemma_first_exists(ids, id);
        }
    }
}

/// The place after `at` in an order of `n` entries.
proof fn lemma_wrap(at: int, n: int)
    requires
        0 <= at < n,
    ensures
        (at + 1) % n == if at + 1 == n {
            0
        } else {
            at + 1
        },
{
    if at + 1 == n {
        vstd::arithmetic::div_mod::lemma_mod_self_0(n);
    } else {
        vstd::arithmetic::div_mod::lemma_small_mod((at + 1) as nat, n as nat);
    }
}

proof fn lemma_first_exists(ids: Seq<u128>, id: u128)
    requires
        ids.contains(id),
    ensures
        exists|i: int| first_at(ids, id, i),
    decreases ids.len(),
{
    let k = choose|k: int| 0 <= k < ids.len() && ids[k] == id;
    if k == ids.len() - 1 && !ids.drop_last().contains(id) {
        assert forall|j: int| 0 <= j < k implies ids[j] != id by {
            assert(ids.drop_last()[j] == ids[j]);
        }
        assert(first_at(ids, id, k));
    } else {
        if k < ids.len() - 1 {
            assert(ids.drop_last()[k] == id);
        }
        lemma_first_exists(ids.drop_last(), id);
        let i = choose|i: int| first_at(ids.drop_last(), id, i);
        assert forall|j: int| 0 <= j < i implies ids[j] != id by {
            assert(ids.drop_last()[j] == ids[j]);
        }
        assert(first_at(ids, id, i));
    }
}

/// Finds the place of the current turn in the order.
fn locate(order: &Vec<InitiativeEntry>, current: Option<u128>) -> (p: usize)
    ensures
        p == position(ids_of(order@), current),
{
    let ghost ids = ids_of(order@);
    match current {
        None => 0,
        Some(id) => {
            let mut i: usize = 0;
            while i < order.len()
                invariant
                    i <= order.len(),
                    ids == ids_of(order@),
                    current == Some(id),
                    forall|j: int| 0 <= j < i ==> ids[j] != id,
                decreases order.len() - i,
            {
                if order[i].id == id {
                    proof {
                        assert(ids[i as int] == id);
                        lemma_position(ids, current);
                    }
                    return i;
                }
                i += 1;
            }
            0
        },
    }
}

/// Moves the turn to the next entry of the order.
///
/// With an empty order nothing changes and `NoInitiativeOrder` is returned.
/// Otherwise the entry after the current one gets the turn (the entry after
/// the first, where the current turn is unset or names no entry), and the
/// round goes up by one when that wraps back to the first entry. Order,
/// combat flag and conditions are never touched.
pub fn advance_turn(state: &mut GameState) -> (r: Result<(), TurnError>)
    ensures
        match advanced(old(state)@) {
            Ok(next) => r is Ok && final(state)@ == next,
            Err(e) => r == Err::<(), TurnError>(e) && *final(state) == *old(state),
        },
        final(state).initiative_order == old(state).initiative_order,
        final(state).conditions == old(state).conditions,
{
    let n = state.initiative_order.len();
    if n == 0 {
        return Err(TurnError::NoInitiativeOrder);
    }
    let at = locate(&state.initiative_order, state.current_turn);
    proof {
        lemma_position(ids_of(state.initiative_order@), state.current_turn);
        lemma_wrap(at as int, n as int);
    }
    let next = if at + 1 == n {
        0
    } else {
        at + 1
    };
    if next == 0 {
        if state.round == i32::MAX {
            return Err(TurnError::RoundLimit);
        }
        state.round = state.round + 1;
    }
    state.current_turn = Some(state.initiative_order[next].id);
    Ok(())
}

/// Whether no id occurs twice in the order.
pub fn has_distinct_ids(order: &Vec<InitiativeEntry>) -> (distinct: bool)
    ensures
        distinct == ids_of(order@).no_duplicates(),
{
    let ghost ids = ids_of(order@);
    let mut seen: HashSet<u128> = HashSet::new();
    let mut i: usize = 0;
    while i < order.len()
        invariant
            i <= order.len(),
            ids == ids_of(order@),
            ids.take(i as int).no_duplicates(),
            seen@ == ids.take(i as int).to_set(),
        decreases order.len() - i,
    {
        let id = order[i].id;
        let ghost shorter = ids.take(i as int);
        let ghost longer = ids.take(i + 1);
        if !seen.insert(id) {
            proof {
                let j = choose|j: int| 0 <= j < shorter.len() && shorter[j] == id;
                assert(ids[j] == ids[i as int]);
            }
            return false;
        }
        assert(seen@ =~= longer.to_set()) by {
            assert forall|x: u128| longer.to_set().contains(x) <==> shorter.to_set().insert(
                id,
            ).contains(x) by {
                if x == id {
                    assert(longer[i as int] == x);
                }
            }
        }
        i += 1;
    }
    assert(ids.take(order@.len() as int) == ids);
    true
}

/// Whether `id` is the id of an entry of the order.
pub fn names_entry(order: &Vec<InitiativeEntry>, id: u128) -> (found: bool)
    ensures
        found == ids_of(order@).contains(id),
{
    let ghost ids = ids_of(order@);
    let mut i: usize = 0;
    while i < order.len()
        invariant
            i <= order.len(),
            ids == ids_of(order@),
            forall|j: int| 0 <= j < i ==> ids[j] != id,
        decreases order.len() - i,
    {
        if order[i].id == id {
            assert(ids[i as int] == id);
            return true;
        }
        i += 1;
    }
    false
}

/// Replaces the turn order and switches combat on.
///
/// An order in which an id occurs twice is refused and nothing changes. The
/// current turn is kept while it names an entry of the new order and is
/// unset when it does not; the round and the conditions are never touched.
pub fn set_initiative(state: &mut GameState, order: Vec<InitiativeEntry>) -> (r: Result<
    (),
    TurnError,
>)
    ensures
        match with_order(old(state)@, order@) {
            Ok(next) => r is Ok && final(state)@ == next && final(state).initiative_order == order,
            Err(e) => r == Err::<(), TurnError>(e) && *final(state) == *old(state),
        },
        final(state).conditions == old(state).conditions,
{
    if !has_distinct_ids(&order) {
        return Err(TurnError::DuplicateId);
    }
    let keeps_turn = match state.current_turn {
        Some(id) => names_entry(&order, id),
        None => false,
    };
    if !keeps_turn {
        state.current_turn = None;
    }
    state.initiative_order = order;
    state.combat_active = true;
    Ok(())
}

/// Overwrites the turn fields of a state with what the game master sent:
/// the order and the current turn always, the round and the combat flag
/// where the request names them. Conditions stay.
///
/// A request that would leave the state ill-formed is refused and nothing
/// changes: an order in which an id occurs twice, a current turn that names
/// no entry of the order, a round below 1 or below the round reached.
pub fn update_initiative(state: &mut GameState, request: UpdateInitiativeRequest) -> (r: Result<
    (),
    TurnError,
>)
    ensures
        match overwritten(
            old(state)@,
            request.initiative_order@,
            request.current_turn,
            request.round,
            request.combat_active,
        ) {
            Ok(next) => r is Ok && final(state)@ == next && final(state).initiative_order
                == request.initiative_order,
            Err(e) => r == Err::<(), TurnError>(e) && *final(state) == *old(state),
        },
        final(state).conditions == old(state).conditions,
{
    if !has_distinct_ids(&request.initiative_order) {
        return Err(TurnError::DuplicateId);
    }
    if let Some(id) = request.current_turn {
        if !names_entry(&request.initiative_order, id) {
            return Err(TurnError::UnknownTurn);
        }
    }
    if let Some(round) = request.round {
        if round < 1 || round < state.round {
            return Err(TurnError::RoundDecreases);
        }
        state.round = round;
    }
    state.initiative_order = request.initiative_order;
    state.current_turn = request.current_turn;
    if let Some(combat_active) = request.combat_active {
        state.combat_active = combat_active;
    }
    Ok(())
}

/// The round never goes down: advancing keeps it or adds one, a new turn
/// order keeps it, and an overwrite keeps or raises it.
pub proof fn law_round_never_decreases(
    state: GameStateView,
    order: Seq<InitiativeEntry>,
    current_turn: Option<u128>,
    round: Option<i32>,
    combat_active: Option<bool>,
)
    ensures
        advanced(state) matches Ok(next) ==> state.round <= next.round <= state.round + 1,
        with_order(state, order) matches Ok(next) ==> next.round == state.round,
        overwritten(state, order, current_turn, round, combat_active) matches Ok(next)
            ==> next.round >= state.round,
{
}

/// A new turn order and an overwrite leave a state well formed: when the
/// round is at least 1, whatever else the state held, the state that comes
/// out has distinct ids and a current turn that is unset or names an entry.
pub proof fn law_new_order_is_well_formed(
    state: GameStateView,
    order: Seq<InitiativeEntry>,
    current_turn: Option<u128>,
    round: Option<i32>,
    combat_active: Option<bool>,
)
    requires
        state.round >= 1,
    ensures
        with_order(state, order) matches Ok(next) ==> next.wf(),
        overwritten(state, order, current_turn, round, combat_active) matches Ok(next)
            ==> next.wf(),
{
}

/// Advancing touches the turn and the round only.
pub proof fn law_advance_keeps_the_rest(state: GameStateView)
    ensures
        advanced(state) matches Ok(next) ==> {
            &&& next.order == state.order
            &&& next.combat_active == state.combat_active
            &&& next.conditions == state.conditions
        },
{
}

/// After an advance the current turn names an entry of the order, whatever
/// it named before. So a state whose round is at least 1 and whose ids are
/// distinct is well formed after any advance.
pub proof fn law_advance_makes_well_formed(state: GameStateView)
    requires
        state.round >= 1,
        ids_of(state.order).no_duplicates(),
    ensures
        advanced(state) matches Ok(next) ==> next.wf(),
{
}

/// In an order of distinct ids, when it is the turn of the entry at place
/// `i`, advancing gives the turn to the entry at place `i + 1`, or to the
/// first with the round one higher when `i` is the last place.
pub proof fn law_advance_steps_through(state: GameStateView, i: int)
    requires
        ids_of(state.order).no_duplicates(),
        0 <= i < state.order.len(),
        state.current_turn == Some(state.order[i].id),
        state.round < i32::MAX,
    ensures
        i + 1 < state.order.len() ==> advanced(state) == Ok::<GameStateView, TurnError>(
            GameStateView { current_turn: Some(state.order[i + 1].id), ..state },
        ),
        i + 1 == state.order.len() ==> advanced(state) == Ok::<GameStateView, TurnError>(
            GameStateView {
                current_turn: Some(state.order[0].id),
                round: state.round + 1,
                ..state
            },
        ),
{
    let ids = ids_of(state.order);
    assert(ids[i] == state.order[i].id);
    lemma_position(ids, state.current_turn);
    lemma_wrap(i, ids.len() as int);
}

} // verus!
