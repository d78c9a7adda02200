//! The message router.
//!
//! A connection hands the router one decoded message at a time. The router
//! decides what happens, but it performs no I/O: where it needs the
//! persistence layer it returns the query to make, together with what it is
//! waiting for, and is resumed with the answer. The caller runs that loop
//! and, once a step is done, sends the reply to the sender and broadcasts
//! it to the session named, if one is.
//!
//! Every message that changes or shows shared state is authorized against
//! persistence before anything else happens. A message that is refused gets
//! an error back to its sender alone, and nothing is written.

use vstd::prelude::*;
use crate::clock::{now, Timestamp};
use crate::dice::{parsed, roll_dice, sum, DiceError, DiceExpr, DiceResult};
use crate::generation::{ai_generate, canned_text, AIRequest, TOKENS_USED};
use crate::ids::{fresh_id, RANDOM_UUID, VERSION_AND_VARIANT};
use crate::json::{ai_event_data, ai_event_json};
use crate::messages::{CharacterInfo, ClientMessage, ServerMessage};
use crate::models::{
    Character, EventLog, GameState, GameStateView, Session, UpdateCharacterHPRequest,
};
use crate::registry::{
    joined, left, lists, members_of, queues_after_join, queues_after_leave, session_of, Member,
    Queues, SessionState, Sessions,
};
use crate::turn::{advance_turn, advanced, set_initiative, with_order, TurnError};

verus! {

/// The user behind a connection, as established when it was accepted.
#[derive(Clone, Debug, PartialEq, Eq)]
pub struct Identity {
    pub user_id: u128,
    pub username: String,
    pub is_dm: bool,
}

/// The kinds of failure. None of them closes the connection.
#[derive(Clone, Copy, Debug, PartialEq, Eq, Structural)]
pub enum ErrorKind {
    /// The sender may not do what the message asks.
    AuthorizationDenied,
    /// The message asks for something that cannot be done as written.
    Validation,
    /// The session or character named does not exist.
    NotFound,
    /// The persistence layer failed.
    Persistence,
    /// The frame could not be decoded, or an answer did not fit the query.
    Protocol,
}

/// The game state to write: a blob exactly as a client sent it, or a state
/// for the caller to encode.
#[derive(Clone, Debug, PartialEq, Eq)]
pub enum StateBlob {
    Raw(String),
    State(GameState),
}

/// What the router asks of the persistence layer.
#[derive(Clone, Debug, PartialEq, Eq)]
pub enum Query {
    /// Is the user the game master of the session's campaign, or one of its players?
    IsSessionMember { session_id: u128, user_id: u128 },
    /// Is the user the campaign's game master?
    IsCampaignDm { campaign_id: u128, user_id: u128 },
    FetchSession { session_id: u128 },
    FetchCharacter { character_id: u128 },
    /// Write the session's game state and its time of update.
    UpdateSessionGameState { session_id: u128, game_state: StateBlob, at: Timestamp },
    /// Apply `updates`, a JSON object of fields, to the character.
    UpdateCharacter { character_id: u128, updates: String, at: Timestamp },
    /// Set the character's hit points; the maximum stays where `change` names none.
    UpdateCharacterHp { character_id: u128, change: UpdateCharacterHPRequest, at: Timestamp },
    InsertEventLog {
        event_id: u128,
        session_id: u128,
        event_type: String,
        event_data: String,
        created_by: u128,
        at: Timestamp,
    },
}

impl Query {
    /// Whether the query changes what is stored.
    pub open spec fn writes(self) -> bool {
        match self {
            Query::IsSessionMember { .. } => false,
            Query::IsCampaignDm { .. } => false,
            Query::FetchSession { .. } => false,
            Query::FetchCharacter { .. } => false,
            _ => true,
        }
    }
}

/// What the persistence layer answers.
#[derive(Clone, Debug, PartialEq, Eq)]
pub enum Answer {
    /// The call failed.
    Failed,
    /// The answer to a yes-or-no question.
    Flag(bool),
    /// The session asked for, if there is one.
    Session(Option<Session>),
    /// The character asked for, or the character as it is after an update.
    Character(Option<Character>),
    /// A write went through.
    Stored,
    /// The event log entry as it was inserted.
    EventLog(EventLog),
}

/// What the router is waiting for while a query is under way.
#[derive(Clone, Debug, PartialEq, Eq)]
pub enum Pending {
    /// Whether the sender may do what `message` asks.
    Authorizing { message: ClientMessage },
    /// The session that the sender is joining.
    Joining { session_id: u128 },
    /// The session whose turn state `message` changes.
    LoadingSession { message: ClientMessage },
    /// Whether the sender is the game master of the campaign of that session.
    AuthorizingTurn { message: ClientMessage, state: GameState },
    /// The character that `message` changes.
    LoadingCharacter { message: ClientMessage },
    /// Whether the sender is the game master of the character's campaign.
    AuthorizingCharacter { message: ClientMessage, campaign_id: u128 },
    /// The character after the update; `hp` says whether hit points were set.
    UpdatingCharacter { character_id: u128, hp: bool },
    /// The write of a game state; `reply` goes out once it is through.
    Storing { reply: ServerMessage, session_id: u128 },
    /// The event log entry, inserted.
    InsertingEvent { session_id: u128 },
    /// The record of a generated text; `reply` goes out whatever it comes to.
    LoggingAi { reply: ServerMessage, session_id: u128 },
}

/// The end of a message's handling.
#[derive(Clone, Debug, PartialEq, Eq)]
pub struct Outcome {
    /// What goes back to the sender.
    pub reply: ServerMessage,
    /// The session whose members get the same message. `None` for anything
    /// that is for the sender alone.
    pub broadcast_to: Option<u128>,
    /// The kind of failure, where the reply is an error.
    pub rejection: Option<ErrorKind>,
}

/// What the caller does next.
#[derive(Clone, Debug, PartialEq, Eq)]
pub enum Step {
    /// Make the query, then resume with `then` and the answer.
    Ask { query: Query, then: Pending },
    /// Send the outcome.
    Done(Outcome),
}

/// The step ends in an error of the given kind and text, for the sender alone.
pub open spec fn rejects(step: Step, kind: ErrorKind, text: Seq<char>) -> bool {
    &&& step matches Step::Done(o)
    &&& o.reply.is_error(text)
    &&& o.broadcast_to is None
    &&& o.rejection == Some(kind)
}

/// The step ends well: `reply` goes to the sender and, where `to` names a
/// session, to that session.
pub open spec fn delivers(step: Step, reply: ServerMessage, to: Option<u128>) -> bool {
    &&& step matches Step::Done(o)
    &&& o.reply == reply
    &&& o.rejection is None
    &&& o.broadcast_to == to
}

fn reject(kind: ErrorKind, text: &str) -> (step: Step)
    ensures
        rejects(step, kind, text@),
{
    Step::Done(
        Outcome { reply: ServerMessage::error(text), broadcast_to: None, rejection: Some(kind) },
    )
}

/// Ends a step with `reply` for the sender and for `to`.
fn finish(reply: ServerMessage, to: Option<u128>) -> (step: Step)
    ensures
        delivers(step, reply, to),
{
    Step::Done(Outcome { reply, broadcast_to: to, rejection: None })
}

/// Ends a step with `reply` for the sender and for the session that the
/// sender is connected to, if any.
fn answer_own_session(hub: &SessionState, user_id: u128, reply: ServerMessage) -> (step: Step)
    requires
        hub.wf(),
    ensures
        delivers(step, reply, session_of(hub@, user_id)),
{
    finish(reply, hub.session_of(user_id))
}

/// Whether `reply` reports a roll of `expr` by `user_id`: one die for each of
/// the count, every die from 1 to the number of sides, and the total of the
/// dice and the modifier, under the expression and the reason as they came.
pub open spec fn reports_roll(
    reply: ServerMessage,
    user_id: u128,
    dice: String,
    reason: Option<String>,
    expr: DiceExpr,
) -> bool {
    &&& reply matches ServerMessage::DiceRolled { player_id, result }
    &&& player_id == user_id
    &&& result.dice == dice
    &&& result.reason == reason
    &&& result.rolls.len() == expr.count
    &&& forall|i: int| 0 <= i < result.rolls.len() ==> 1 <= #[trigger] result.rolls[i] <= expr.sides
    &&& result.result == sum(result.rolls@) + expr.modifier
}

/// What a dice roll ends in: the parse error for an expression that does not
/// parse; else a report of the roll for the sender and the session named, or,
/// only where the expression can come to more than an `i32` holds, the error
/// that it did.
pub open spec fn rolls(
    step: Step,
    user_id: u128,
    dice: String,
    reason: Option<String>,
    to: Option<u128>,
) -> bool {
    match parsed(dice@) {
        Err(e) => rejects(step, ErrorKind::Validation, e.text()),
        Ok(expr) => {
            ||| {
                &&& rejects(step, ErrorKind::Validation, DiceError::TotalOutOfRange.text())
                &&& expr.count * expr.sides + expr.modifier > i32::MAX
            }
            ||| {
                &&& step matches Step::Done(o)
                &&& o.rejection is None
                &&& o.broadcast_to == to
                &&& reports_roll(o.reply, user_id, dice, reason, expr)
            }
        },
    }
}

/// Whether `reply` is the generator's answer to a request of the given type.
pub open spec fn answers_ai(reply: ServerMessage, kind: String) -> bool {
    &&& reply matches ServerMessage::AIResponse { response, request_type, tokens_used, model }
    &&& request_type == kind
    &&& response@ == canned_text(kind@)
    &&& tokens_used == Some(TOKENS_USED)
    &&& model@ == "gpt-4"@
}

/// The step sends the generator's answer to the sender and the session named.
pub open spec fn generates(step: Step, kind: String, to: Option<u128>) -> bool {
    &&& step matches Step::Done(o)
    &&& o.rejection is None
    &&& o.broadcast_to == to
    &&& answers_ai(o.reply, kind)
}

/// What the router does with a message when it arrives at time `at`.
///
/// Joining, rolling, chatting, logging and asking for generated text need a
/// member of the session; changing the game state needs the game master of
/// its campaign. For those the first step asks persistence. Changes to a
/// character or to the turn order first load what they change. Leaving needs
/// no permission. A sender who is connected to no session rolls, chats and
/// asks for text for itself alone, and has no game state to change.
pub open spec fn received(
    before: Sessions,
    who: Identity,
    message: ClientMessage,
    at: Timestamp,
    step: Step,
    after: Sessions,
) -> bool {
    let u = who.user_id;
    let authorize_in = |session_id: u128|
        step == (Step::Ask {
            query: Query::IsSessionMember { session_id, user_id: u },
            then: Pending::Authorizing { message },
        });
    match message {
        ClientMessage::LeaveSession { session_id } => {
            &&& after == left(before, session_id, u)
            &&& delivers(step, ServerMessage::PlayerLeft { player_id: u }, None::<u128>)
        },
        ClientMessage::JoinSession { session_id } => after == before && authorize_in(session_id),
        ClientMessage::CreateEventLog { session_id, .. } => after == before && authorize_in(
            session_id,
        ),
        ClientMessage::DiceRoll { dice, reason } => after == before && match session_of(before, u) {
            Some(current) => authorize_in(current),
            None => rolls(step, u, dice, reason, None::<u128>),
        },
        ClientMessage::ChatMessage { message: text } => after == before && match session_of(
            before,
            u,
        ) {
            Some(current) => authorize_in(current),
            None => delivers(
                step,
                ServerMessage::ChatMessage { player_id: u, message: text, timestamp: at },
                None::<u128>,
            ),
        },
        ClientMessage::AIRequest { request_type, .. } => after == before && match session_of(
            before,
            u,
        ) {
            Some(current) => authorize_in(current),
            None => generates(step, request_type, None::<u128>),
        },
        ClientMessage::UpdateGameState { .. } => after == before && match session_of(before, u) {
            Some(current) => step == (Step::Ask {
                query: Query::IsCampaignDm {
                    campaign_id: before[current].campaign_id,
                    user_id: u,
                },
                then: Pending::Authorizing { message },
            }),
            None => rejects(step, ErrorKind::Validation, "Not in a session"@),
        },
        ClientMessage::PlayerAction { .. } => after == before && rejects(
            step,
            ErrorKind::Validation,
            "Player actions not yet implemented"@,
        ),
        ClientMessage::UpdateCharacter { character_id, .. } => after == before && step == (Step::Ask {
            query: Query::FetchCharacter { character_id },
            then: Pending::LoadingCharacter { message },
        }),
        ClientMessage::UpdateHP { character_id, .. } => after == before && step == (Step::Ask {
            query: Query::FetchCharacter { character_id },
            then: Pending::LoadingCharacter { message },
        }),
        ClientMessage::UpdateInitiative { session_id, .. } => after == before && step == (Step::Ask {
            query: Query::FetchSession { session_id },
            then: Pending::LoadingSession { message },
        }),
        ClientMessage::NextTurn { session_id } => after == before && step == (Step::Ask {
            query: Query::FetchSession { session_id },
            then: Pending::LoadingSession { message },
        }),
    }
}

/// The outbound queues once a message has been taken in: the sender's queue
/// goes when the sender leaves its session, and nothing else changes.
pub open spec fn queues_received(m: Sessions, q: Queues, who: Identity, message: ClientMessage) -> Queues {
    match message {
        ClientMessage::LeaveSession { session_id } => queues_after_leave(
            m,
            q,
            session_id,
            who.user_id,
        ),
        _ => q,
    }
}

/// The outbound queues once an answer has been taken in: the sender gets a
/// queue when it joins a session, and nothing else changes.
pub open spec fn queues_resumed(
    m: Sessions,
    q: Queues,
    who: Identity,
    pending: Pending,
    answer: Answer,
) -> Queues {
    match (pending, answer) {
        (Pending::Joining { session_id }, Answer::Session(Some(_))) => queues_after_join(
            m,
            q,
            session_id,
            who.user_id,
        ),
        _ => q,
    }
}

/// Rolls `dice` for the sender and reports to the sender's session.
fn roll_for(hub: &SessionState, user_id: u128, dice: String, reason: Option<String>) -> (step: Step)
    requires
        hub.wf(),
    ensures
        rolls(step, user_id, dice, reason, session_of(hub@, user_id)),
{
    match roll_dice(dice.as_str()) {
        Err(message) => {
            Step::Done(
                Outcome {
                    reply: ServerMessage::Error { message },
                    broadcast_to: None,
                    rejection: Some(ErrorKind::Validation),
                },
            )
        },
        Ok(roll) => {
            let result = DiceResult { dice, result: roll.total, rolls: roll.rolls, reason };
            answer_own_session(hub, user_id, ServerMessage::DiceRolled { player_id: user_id, result })
        },
    }
}

/// Asks the generator and sends its answer to the sender and to `session`.
fn generate_for(
    hub: &SessionState,
    user_id: u128,
    prompt: String,
    request_type: String,
    context: Option<String>,
    at: Timestamp,
    event_id: u128,
) -> (step: Step)
    requires
        hub.wf(),
    ensures
        generated(hub@, user_id, prompt, request_type, at, event_id, step),
{
    let request = AIRequest { prompt, context, session_id: hub.session_of(user_id), request_type };
    let answer = ai_generate(&request);
    let data = ai_event_data(
        request.prompt.as_str(),
        request.request_type.as_str(),
        answer.response.as_str(),
    );
    let reply = ServerMessage::AIResponse {
        response: answer.response,
        request_type: request.request_type,
        tokens_used: answer.tokens_used,
        model: answer.model,
    };
    match (request.session_id, data) {
        (Some(session_id), Some(event_data)) => Step::Ask {
            query: Query::InsertEventLog {
                event_id,
                session_id,
                event_type: "ai_request".to_owned(),
                event_data,
                created_by: user_id,
                at,
            },
            then: Pending::LoggingAi { reply, session_id },
        },
        (Some(session_id), None) => finish(reply, Some(session_id)),
        (None, _) => finish(reply, None),
    }
}

/// What a request for generated text comes to once it may go ahead. The
/// answer goes to the sender and the sender's session. With a session, the
/// request is recorded in its event log first, where it can be written as
/// JSON; the answer goes out whether or not that record is kept.
pub open spec fn generated(
    m: Sessions,
    user_id: u128,
    prompt: String,
    kind: String,
    at: Timestamp,
    event_id: u128,
    step: Step,
) -> bool {
    match session_of(m, user_id) {
        None => generates(step, kind, None::<u128>),
        Some(current) => match ai_event_json(prompt@, kind@, canned_text(kind@)) {
            None => generates(step, kind, Some(current)),
            Some(text) => {
                &&& step matches Step::Ask {
                    query: Query::InsertEventLog {
                        event_id: id,
                        session_id,
                        event_type,
                        event_data,
                        created_by,
                        at: t,
                    },
                    then: Pending::LoggingAi { reply, session_id: s },
                }
                &&& id == event_id
                &&& session_id == current
                &&& event_type@ == "ai_request"@
                &&& event_data@ == text
                &&& created_by == user_id
                &&& t == at
                &&& s == current
                &&& answers_ai(reply, kind)
            },
        },
    }
}

/// Takes a message in at time `at`.
pub fn receive_at(hub: &mut SessionState, who: &Identity, message: ClientMessage, at: Timestamp) -> (step:
    Step)
    requires
        old(hub).wf(),
    ensures
        final(hub).wf(),
        received(old(hub)@, *who, message, at, step, final(hub)@),
        final(hub).queued() == queues_received(old(hub)@, old(hub).queued(), *who, message),
{
    let u = who.user_id;
    match message {
        ClientMessage::LeaveSession { session_id } => {
            hub.leave_session(session_id, u);
            finish(ServerMessage::PlayerLeft { player_id: u }, None)
        },
        ClientMessage::JoinSession { session_id } => Step::Ask {
            query: Query::IsSessionMember { session_id, user_id: u },
            then: Pending::Authorizing { message },
        },
        ClientMessage::CreateEventLog { session_id, .. } => Step::Ask {
            query: Query::IsSessionMember { session_id, user_id: u },
            then: Pending::Authorizing { message },
        },
        ClientMessage::PlayerAction { .. } => reject(
            ErrorKind::Validation,
            "Player actions not yet implemented",
        ),
        ClientMessage::UpdateCharacter { character_id, .. } => Step::Ask {
            query: Query::FetchCharacter { character_id },
            then: Pending::LoadingCharacter { message },
        },
        ClientMessage::UpdateHP { character_id, .. } => Step::Ask {
            query: Query::FetchCharacter { character_id },
            then: Pending::LoadingCharacter { message },
        },
        ClientMessage::UpdateInitiative { session_id, .. } => Step::Ask {
            query: Query::FetchSession { session_id },
            then: Pending::LoadingSession { message },
        },
        ClientMessage::NextTurn { session_id } => Step::Ask {
            query: Query::FetchSession { session_id },
            then: Pending::LoadingSession { message },
        },
        ClientMessage::UpdateGameState { .. } => match hub.session_of(u) {
            Some(current) => {
                let campaign_id = hub.get_session_campaign_id(current).unwrap();
                Step::Ask {
                    query: Query::IsCampaignDm { campaign_id, user_id: u },
                    then: Pending::Authorizing { message },
                }
            },
            None => reject(ErrorKind::Validation, "Not in a session"),
        },
        ClientMessage::DiceRoll { dice, reason } => match hub.session_of(u) {
            Some(current) => Step::Ask {
                query: Query::IsSessionMember { session_id: current, user_id: u },
                then: Pending::Authorizing { message: ClientMessage::DiceRoll { dice, reason } },
            },
            None => roll_for(hub, u, dice, reason),
        },
        ClientMessage::ChatMessage { message: text } => match hub.session_of(u) {
            Some(current) => Step::Ask {
                query: Query::IsSessionMember { session_id: current, user_id: u },
                then: Pending::Authorizing { message: ClientMessage::ChatMessage { message: text } },
            },
            None => finish(
                ServerMessage::ChatMessage { player_id: u, message: text, timestamp: at },
                None,
            ),
        },
        ClientMessage::AIRequest { prompt, request_type, context } => match hub.session_of(u) {
            Some(current) => Step::Ask {
                query: Query::IsSessionMember { session_id: current, user_id: u },
                then: Pending::Authorizing {
                    message: ClientMessage::AIRequest { prompt, request_type, context },
                },
            },
            None => generate_for(hub, u, prompt, request_type, context, at, 0),
        },
    }
}

/// The error for a sender who may not do what `message` asks.
pub open spec fn denial_text(message: ClientMessage) -> Seq<char> {
    match message {
        ClientMessage::UpdateGameState { .. } => "Only the DM can update game state"@,
        ClientMessage::UpdateInitiative { .. } => "Only the DM can update initiative"@,
        ClientMessage::NextTurn { .. } => "Only the DM can advance turns"@,
        ClientMessage::UpdateCharacter { .. } => "Access denied to this character"@,
        ClientMessage::UpdateHP { .. } => "Access denied to this character"@,
        _ => "Access denied to this session"@,
    }
}

fn deny(message: &ClientMessage) -> (step: Step)
    ensures
        rejects(step, ErrorKind::AuthorizationDenied, denial_text(*message)),
{
    match message {
        ClientMessage::UpdateGameState { .. } => reject(
            ErrorKind::AuthorizationDenied,
            "Only the DM can update game state",
        ),
        ClientMessage::UpdateInitiative { .. } => reject(
            ErrorKind::AuthorizationDenied,
            "Only the DM can update initiative",
        ),
        ClientMessage::NextTurn { .. } => reject(
            ErrorKind::AuthorizationDenied,
            "Only the DM can advance turns",
        ),
        ClientMessage::UpdateCharacter { .. } => reject(
            ErrorKind::AuthorizationDenied,
            "Access denied to this character",
        ),
        ClientMessage::UpdateHP { .. } => reject(
            ErrorKind::AuthorizationDenied,
            "Access denied to this character",
        ),
        _ => reject(ErrorKind::AuthorizationDenied, "Access denied to this session"),
    }
}

/// What happens to `message` once its sender is known to be allowed.
pub open spec fn granted(
    m: Sessions,
    who: Identity,
    message: ClientMessage,
    at: Timestamp,
    event_id: u128,
    step: Step,
) -> bool {
    let u = who.user_id;
    match message {
        ClientMessage::JoinSession { session_id } => step == (Step::Ask {
            query: Query::FetchSession { session_id },
            then: Pending::Joining { session_id },
        }),
        ClientMessage::DiceRoll { dice, reason } => rolls(step, u, dice, reason, session_of(m, u)),
        ClientMessage::ChatMessage { message: text } => delivers(
            step,
            ServerMessage::ChatMessage { player_id: u, message: text, timestamp: at },
            session_of(m, u),
        ),
        ClientMessage::UpdateGameState { game_state } => match session_of(m, u) {
            Some(current) => step == (Step::Ask {
                query: Query::UpdateSessionGameState {
                    session_id: current,
                    game_state: StateBlob::Raw(game_state),
                    at,
                },
                then: Pending::Storing {
                    reply: ServerMessage::GameStateUpdated { game_state },
                    session_id: current,
                },
            }),
            None => rejects(step, ErrorKind::Validation, "Not in a session"@),
        },
        ClientMessage::CreateEventLog { session_id, event_type, event_data } => step == (Step::Ask {
            query: Query::InsertEventLog {
                event_id,
                session_id,
                event_type,
                event_data,
                created_by: u,
                at,
            },
            then: Pending::InsertingEvent { session_id },
        }),
        ClientMessage::AIRequest { prompt, request_type, .. } => generated(
            m,
            u,
            prompt,
            request_type,
            at,
            event_id,
            step,
        ),
        _ => rejects(step, ErrorKind::Protocol, "Invalid message format"@),
    }
}

/// The step after the answer to "may the sender do this?".
pub open spec fn authorized(
    m: Sessions,
    who: Identity,
    message: ClientMessage,
    answer: Answer,
    at: Timestamp,
    event_id: u128,
    step: Step,
) -> bool {
    match answer {
        Answer::Flag(true) => granted(m, who, message, at, event_id, step),
        Answer::Flag(false) => rejects(step, ErrorKind::AuthorizationDenied, denial_text(message)),
        _ => rejects(step, ErrorKind::Persistence, "Database error"@),
    }
}

fn on_authorized(
    hub: &SessionState,
    who: &Identity,
    message: ClientMessage,
    answer: Answer,
    at: Timestamp,
    event_id: u128,
) -> (step: Step)
    requires
        hub.wf(),
    ensures
        authorized(hub@, *who, message, answer, at, event_id, step),
{
    let u = who.user_id;
    match answer {
        Answer::Flag(true) => {},
        Answer::Flag(false) => {
            return deny(&message);
        },
        _ => {
            return reject(ErrorKind::Persistence, "Database error");
        },
    }
    match message {
        ClientMessage::JoinSession { session_id } => Step::Ask {
            query: Query::FetchSession { session_id },
            then: Pending::Joining { session_id },
        },
        ClientMessage::DiceRoll { dice, reason } => roll_for(hub, u, dice, reason),
        ClientMessage::ChatMessage { message: text } => answer_own_session(
            hub,
            u,
            ServerMessage::ChatMessage { player_id: u, message: text, timestamp: at },
        ),
        ClientMessage::UpdateGameState { game_state } => match hub.session_of(u) {
            Some(current) => Step::Ask {
                query: Query::UpdateSessionGameState {
                    session_id: current,
                    game_state: StateBlob::Raw(game_state.clone()),
                    at,
                },
                then: Pending::Storing {
                    reply: ServerMessage::GameStateUpdated { game_state },
                    session_id: current,
                },
            },
            None => reject(ErrorKind::Validation, "Not in a session"),
        },
        ClientMessage::CreateEventLog { session_id, event_type, event_data } => Step::Ask {
            query: Query::InsertEventLog {
                event_id,
                session_id,
                event_type,
                event_data,
                created_by: u,
                at,
            },
            then: Pending::InsertingEvent { session_id },
        },
        ClientMessage::AIRequest { prompt, request_type, context } => generate_for(
            hub,
            u,
            prompt,
            request_type,
            context,
            at,
            event_id,
        ),
        _ => reject(ErrorKind::Protocol, "Invalid message format"),
    }
}

/// The step after the session to join has been looked up: the sender is
/// registered under the session's campaign and gets the list of members.
pub open spec fn joins(
    before: Sessions,
    who: Identity,
    session_id: u128,
    answer: Answer,
    step: Step,
    after: Sessions,
) -> bool {
    match answer {
        Answer::Session(Some(session)) => {
            &&& after == joined(
                before,
                session_id,
                session.campaign_id,
                who.user_id,
                Member { username: who.username@, is_dm: who.is_dm },
            )
            &&& step matches Step::Done(o)
            &&& o.rejection is None
            &&& o.broadcast_to is None
            &&& o.reply matches ServerMessage::SessionJoined { session_id: joined_id, players }
            &&& joined_id == session_id
            &&& lists(players@, members_of(after, session_id))
        },
        Answer::Session(None) => after == before && rejects(
            step,
            ErrorKind::NotFound,
            "Session not found"@,
        ),
        _ => after == before && rejects(step, ErrorKind::Persistence, "Failed to fetch session"@),
    }
}

fn on_joining(hub: &mut SessionState, who: &Identity, session_id: u128, answer: Answer) -> (step:
    Step)
    requires
        old(hub).wf(),
    ensures
        final(hub).wf(),
        joins(old(hub)@, *who, session_id, answer, step, final(hub)@),
        final(hub).queued() == queues_resumed(
            old(hub)@,
            old(hub).queued(),
            *who,
            Pending::Joining { session_id },
            answer,
        ),
{
    match answer {
        Answer::Session(Some(session)) => {
            hub.join_session(
                session_id,
                session.campaign_id,
                who.user_id,
                who.username.clone(),
                who.is_dm,
            );
            let players = hub.get_session_players(session_id);
            Step::Done(
                Outcome {
                    reply: ServerMessage::SessionJoined { session_id, players },
                    broadcast_to: None,
                    rejection: None,
                },
            )
        },
        Answer::Session(None) => reject(ErrorKind::NotFound, "Session not found"),
        _ => reject(ErrorKind::Persistence, "Failed to fetch session"),
    }
}

/// The step after the session whose turn state is to change has been
/// loaded: the question whether the sender is the game master of its
/// campaign, with the stored state kept for afterwards, or the empty state
/// where the stored one could not be decoded.
pub open spec fn loads_session(
    who: Identity,
    message: ClientMessage,
    answer: Answer,
    step: Step,
) -> bool {
    match answer {
        Answer::Session(Some(session)) => {
            &&& step matches Step::Ask {
                query: Query::IsCampaignDm { campaign_id, user_id },
                then: Pending::AuthorizingTurn { message: kept, state },
            }
            &&& campaign_id == session.campaign_id
            &&& user_id == who.user_id
            &&& kept == message
            &&& match session.game_state {
                Some(stored) => state == stored,
                None => state@ == GameStateView::empty(),
            }
        },
        Answer::Session(None) => rejects(step, ErrorKind::NotFound, "Session not found"@),
        _ => rejects(step, ErrorKind::Persistence, "Failed to fetch session"@),
    }
}

fn on_session_loaded(who: &Identity, message: ClientMessage, answer: Answer) -> (step: Step)
    ensures
        loads_session(*who, message, answer, step),
{
    match answer {
        Answer::Session(Some(session)) => Step::Ask {
            query: Query::IsCampaignDm { campaign_id: session.campaign_id, user_id: who.user_id },
            then: Pending::AuthorizingTurn { message, state: GameState::loaded(session.game_state) },
        },
        Answer::Session(None) => reject(ErrorKind::NotFound, "Session not found"),
        _ => reject(ErrorKind::Persistence, "Failed to fetch session"),
    }
}

/// Whether the step writes `state` as the game state of `session_id` at time
/// `at` and holds `reply` for the session until the write is through.
pub open spec fn stores(
    step: Step,
    session_id: u128,
    state: GameStateView,
    at: Timestamp,
    reply: spec_fn(ServerMessage) -> bool,
) -> bool {
    &&& step matches Step::Ask {
        query: Query::UpdateSessionGameState {
            session_id: written,
            game_state: StateBlob::State(new_state),
            at: t,
        },
        then: Pending::Storing { reply: held, session_id: told },
    }
    &&& written == session_id
    &&& told == session_id
    &&& t == at
    &&& new_state@ == state
    &&& reply(held)
}

/// What the game master's change to the turn state comes to: a new order is
/// put in place and combat switched on, or the turn advances. Either is
/// refused with nothing written where the turn engine refuses it: an order
/// with a repeated id, or no order to advance in.
pub open spec fn changes_turn(message: ClientMessage, state: GameState, at: Timestamp, step: Step) -> bool {
    match message {
        ClientMessage::UpdateInitiative { session_id, initiative_order } => match with_order(
            state@,
            initiative_order@,
        ) {
            Err(e) => rejects(step, ErrorKind::Validation, e.text()),
            Ok(next) => stores(
                step,
                session_id,
                next,
                at,
                |held: ServerMessage|
                    {
                        &&& held matches ServerMessage::InitiativeUpdated {
                            session_id: shown_id,
                            initiative_order: shown,
                            current_turn,
                        }
                        &&& shown_id == session_id
                        &&& shown@ == initiative_order@
                        &&& current_turn == next.current_turn
                    },
            ),
        },
        ClientMessage::NextTurn { session_id } => match advanced(state@) {
            Err(e) => rejects(step, ErrorKind::Validation, e.text()),
            Ok(next) => stores(
                step,
                session_id,
                next,
                at,
                |held: ServerMessage|
                    held == (ServerMessage::TurnChanged {
                        session_id,
                        current_turn: next.current_turn->0,
                        round: next.round as i32,
                    }),
            ),
        },
        _ => rejects(step, ErrorKind::Protocol, "Invalid message format"@),
    }
}

/// The step after the answer to "is the sender the game master?" for a
/// change to the turn state. Anything but a yes ends in an error, and no
/// write is asked for.
pub open spec fn turn_authorized(
    message: ClientMessage,
    state: GameState,
    answer: Answer,
    at: Timestamp,
    step: Step,
) -> bool {
    match answer {
        Answer::Flag(true) => changes_turn(message, state, at, step),
        Answer::Flag(false) => rejects(step, ErrorKind::AuthorizationDenied, denial_text(message)),
        _ => rejects(step, ErrorKind::Persistence, "Database error"@),
    }
}

/// Ends a step with the turn engine's refusal.
fn refuse(e: TurnError) -> (step: Step)
    ensures
        rejects(step, ErrorKind::Validation, e.text()),
{
    Step::Done(
        Outcome {
            reply: ServerMessage::Error { message: e.message() },
            broadcast_to: None,
            rejection: Some(ErrorKind::Validation),
        },
    )
}

fn on_turn_authorized(message: ClientMessage, state: GameState, answer: Answer, at: Timestamp) -> (step:
    Step)
    ensures
        turn_authorized(message, state, answer, at, step),
{
    match answer {
        Answer::Flag(true) => {},
        Answer::Flag(false) => {
            return deny(&message);
        },
        _ => {
            return reject(ErrorKind::Persistence, "Database error");
        },
    }
    let mut state = state;
    match message {
        ClientMessage::UpdateInitiative { session_id, initiative_order } => {
            let shown = GameState::clone_order(&initiative_order);
            match set_initiative(&mut state, initiative_order) {
                Err(e) => refuse(e),
                Ok(()) => {
                    let current_turn = state.current_turn;
                    Step::Ask {
                        query: Query::UpdateSessionGameState {
                            session_id,
                            game_state: StateBlob::State(state),
                            at,
                        },
                        then: Pending::Storing {
                            reply: ServerMessage::InitiativeUpdated {
                                session_id,
                                initiative_order: shown,
                                current_turn,
                            },
                            session_id,
                        },
                    }
                },
            }
        },
        ClientMessage::NextTurn { session_id } => match advance_turn(&mut state) {
            Err(e) => refuse(e),
            Ok(()) => {
                let reply = ServerMessage::TurnChanged {
                    session_id,
                    current_turn: state.current_turn.unwrap(),
                    round: state.round,
                };
                Step::Ask {
                    query: Query::UpdateSessionGameState {
                        session_id,
                        game_state: StateBlob::State(state),
                        at,
                    },
                    then: Pending::Storing { reply, session_id },
                }
            },
        },
        _ => reject(ErrorKind::Protocol, "Invalid message format"),
    }
}

/// What a change to a character comes to once its sender is known to own the
/// character or to be the game master of the character's campaign.
///
/// A change to the character sheet is refused where the sender is connected
/// to a session of another campaign than the character's. A change of hit
/// points goes ahead as it is.
pub open spec fn changes_character(
    m: Sessions,
    who: Identity,
    message: ClientMessage,
    campaign_id: u128,
    at: Timestamp,
    step: Step,
) -> bool {
    match message {
        ClientMessage::UpdateCharacter { character_id, updates } => {
            if session_of(m, who.user_id) matches Some(current) && m[current].campaign_id
                != campaign_id {
                rejects(
                    step,
                    ErrorKind::Validation,
                    "Character does not belong to current session's campaign"@,
                )
            } else {
                step == (Step::Ask {
                    query: Query::UpdateCharacter { character_id, updates, at },
                    then: Pending::UpdatingCharacter { character_id, hp: false },
                })
            }
        },
        ClientMessage::UpdateHP { character_id, hp_current, hp_max } => step == (Step::Ask {
            query: Query::UpdateCharacterHp {
                character_id,
                change: UpdateCharacterHPRequest { hp_current, hp_max },
                at,
            },
            then: Pending::UpdatingCharacter { character_id, hp: true },
        }),
        _ => rejects(step, ErrorKind::Protocol, "Invalid message format"@),
    }
}

fn change_character(
    hub: &SessionState,
    who: &Identity,
    message: ClientMessage,
    campaign_id: u128,
    at: Timestamp,
) -> (step: Step)
    requires
        hub.wf(),
    ensures
        changes_character(hub@, *who, message, campaign_id, at, step),
{
    match message {
        ClientMessage::UpdateCharacter { character_id, updates } => {
            let foreign = match hub.session_of(who.user_id) {
                Some(current) => hub.get_session_campaign_id(current) != Some(campaign_id),
                None => false,
            };
            if foreign {
                reject(
                    ErrorKind::Validation,
                    "Character does not belong to current session's campaign",
                )
            } else {
                Step::Ask {
                    query: Query::UpdateCharacter { character_id, updates, at },
                    then: Pending::UpdatingCharacter { character_id, hp: false },
                }
            }
        },
        ClientMessage::UpdateHP { character_id, hp_current, hp_max } => Step::Ask {
            query: Query::UpdateCharacterHp {
                character_id,
                change: UpdateCharacterHPRequest { hp_current, hp_max },
                at,
            },
            then: Pending::UpdatingCharacter { character_id, hp: true },
        },
        _ => reject(ErrorKind::Protocol, "Invalid message format"),
    }
}

/// The step after the character to change has been loaded. Its owner goes
/// ahead at once; for anybody else the question is whether the sender is the
/// game master of the character's campaign.
pub open spec fn loads_character(
    m: Sessions,
    who: Identity,
    message: ClientMessage,
    answer: Answer,
    at: Timestamp,
    step: Step,
) -> bool {
    match answer {
        Answer::Character(Some(character)) => {
            if character.player_id == Some(who.user_id) {
                changes_character(m, who, message, character.campaign_id, at, step)
            } else {
                step == (Step::Ask {
                    query: Query::IsCampaignDm {
                        campaign_id: character.campaign_id,
                        user_id: who.user_id,
                    },
                    then: Pending::AuthorizingCharacter {
                        message,
                        campaign_id: character.campaign_id,
                    },
                })
            }
        },
        Answer::Character(None) => rejects(step, ErrorKind::NotFound, "Character not found"@),
        _ => rejects(step, ErrorKind::Persistence, "Database error"@),
    }
}

fn on_character_loaded(
    hub: &SessionState,
    who: &Identity,
    message: ClientMessage,
    answer: Answer,
    at: Timestamp,
) -> (step: Step)
    requires
        hub.wf(),
    ensures
        loads_character(hub@, *who, message, answer, at, step),
{
    match answer {
        Answer::Character(Some(character)) => {
            let owner = match character.player_id {
                Some(owner) => owner == who.user_id,
                None => false,
            };
            if owner {
                change_character(hub, who, message, character.campaign_id, at)
            } else {
                Step::Ask {
                    query: Query::IsCampaignDm {
                        campaign_id: character.campaign_id,
                        user_id: who.user_id,
                    },
                    then: Pending::AuthorizingCharacter {
                        message,
                        campaign_id: character.campaign_id,
                    },
                }
            }
        },
        Answer::Character(None) => reject(ErrorKind::NotFound, "Character not found"),
        _ => reject(ErrorKind::Persistence, "Database error"),
    }
}

/// The step after the answer to "is the sender the game master of the
/// character's campaign?".
pub open spec fn character_authorized(
    m: Sessions,
    who: Identity,
    message: ClientMessage,
    campaign_id: u128,
    answer: Answer,
    at: Timestamp,
    step: Step,
) -> bool {
    match answer {
        Answer::Flag(true) => changes_character(m, who, message, campaign_id, at, step),
        Answer::Flag(false) => rejects(step, ErrorKind::AuthorizationDenied, denial_text(message)),
        _ => rejects(step, ErrorKind::Persistence, "Database error"@),
    }
}

fn on_character_authorized(
    hub: &SessionState,
    who: &Identity,
    message: ClientMessage,
    campaign_id: u128,
    answer: Answer,
    at: Timestamp,
) -> (step: Step)
    requires
        hub.wf(),
    ensures
        character_authorized(hub@, *who, message, campaign_id, answer, at, step),
{
    match answer {
        Answer::Flag(true) => change_character(hub, who, message, campaign_id, at),
        Answer::Flag(false) => deny(&message),
        _ => reject(ErrorKind::Persistence, "Database error"),
    }
}

/// The value shown for hit points that are not set.
pub open spec fn shown_hp(hp: Option<i32>) -> i32 {
    match hp {
        Some(v) => v,
        None => 0,
    }
}

/// The message that reports a character after an update: the hit points,
/// with 0 for one that is not set, or the character as the players see it.
pub open spec fn character_report(character_id: u128, hp: bool, character: Character) -> ServerMessage {
    if hp {
        ServerMessage::HPUpdated {
            character_id,
            hp_current: shown_hp(character.hp_current),
            hp_max: shown_hp(character.hp_max),
        }
    } else {
        ServerMessage::CharacterUpdated {
            character: CharacterInfo {
                id: character.id,
                name: character.name,
                race: character.race,
                class: character.class,
                level: character.level,
                hp_current: character.hp_current,
                hp_max: character.hp_max,
                ac: character.ac,
                speed: character.speed,
            },
        }
    }
}

/// The step after a character has been updated: the report goes to the
/// sender and the sender's session.
pub open spec fn character_updated(
    m: Sessions,
    who: Identity,
    character_id: u128,
    hp: bool,
    answer: Answer,
    step: Step,
) -> bool {
    match answer {
        Answer::Character(Some(character)) => delivers(
            step,
            character_report(character_id, hp, character),
            session_of(m, who.user_id),
        ),
        _ => rejects(
            step,
            ErrorKind::Persistence,
            if hp {
                "Failed to update character HP"@
            } else {
                "Failed to update character"@
            },
        ),
    }
}

fn on_character_updated(
    hub: &SessionState,
    who: &Identity,
    character_id: u128,
    hp: bool,
    answer: Answer,
) -> (step: Step)
    requires
        hub.wf(),
    ensures
        character_updated(hub@, *who, character_id, hp, answer, step),
{
    match answer {
        Answer::Character(Some(character)) => {
            let reply = if hp {
                ServerMessage::HPUpdated {
                    character_id,
                    hp_current: match character.hp_current {
                        Some(v) => v,
                        None => 0,
                    },
                    hp_max: match character.hp_max {
                        Some(v) => v,
                        None => 0,
                    },
                }
            } else {
                ServerMessage::CharacterUpdated { character: CharacterInfo::of(character) }
            };
            answer_own_session(hub, who.user_id, reply)
        },
        _ => if hp {
            reject(ErrorKind::Persistence, "Failed to update character HP")
        } else {
            reject(ErrorKind::Persistence, "Failed to update character")
        },
    }
}

/// The step after a game state has been written: the reply that was held
/// goes to the sender and the session.
pub open spec fn stored(reply: ServerMessage, session_id: u128, answer: Answer, step: Step) -> bool {
    match answer {
        Answer::Stored => delivers(step, reply, Some(session_id)),
        _ => rejects(step, ErrorKind::Persistence, "Failed to update game state"@),
    }
}

/// The message that reports a new entry of the event log. An entry without
/// an author is shown as the sender's.
pub open spec fn event_report(user_id: u128, entry: EventLog) -> ServerMessage {
    ServerMessage::EventLogCreated {
        event_id: entry.id,
        event_type: entry.event_type,
        event_data: entry.event_data,
        created_by: match entry.created_by {
            Some(author) => author,
            None => user_id,
        },
        created_at: entry.created_at,
    }
}

/// The step after an entry has been added to the event log.
pub open spec fn event_inserted(who: Identity, session_id: u128, answer: Answer, step: Step) -> bool {
    match answer {
        Answer::EventLog(entry) => delivers(
            step,
            event_report(who.user_id, entry),
            Some(session_id),
        ),
        _ => rejects(step, ErrorKind::Persistence, "Failed to create event log"@),
    }
}

fn on_event_inserted(who: &Identity, session_id: u128, reported: Answer) -> (step: Step)
    ensures
        event_inserted(*who, session_id, reported, step),
{
    match reported {
        Answer::EventLog(entry) => {
            let reply = ServerMessage::EventLogCreated {
                event_id: entry.id,
                event_type: entry.event_type,
                event_data: entry.event_data,
                created_by: match entry.created_by {
                    Some(author) => author,
                    None => who.user_id,
                },
                created_at: entry.created_at,
            };
            finish(reply, Some(session_id))
        },
        _ => reject(ErrorKind::Persistence, "Failed to create event log"),
    }
}

/// What the router does when the answer to a query arrives.
///
/// `at` is the time of the step and `event_id` the identifier for an event
/// log entry that the step may ask for. The registry changes in one case
/// only: when the session that the sender is joining has been found.
pub open spec fn resumed(
    before: Sessions,
    who: Identity,
    pending: Pending,
    answer: Answer,
    at: Timestamp,
    event_id: u128,
    step: Step,
    after: Sessions,
) -> bool {
    match pending {
        Pending::Joining { session_id } => joins(before, who, session_id, answer, step, after),
        Pending::Authorizing { message } => after == before && authorized(
            before,
            who,
            message,
            answer,
            at,
            event_id,
            step,
        ),
        Pending::LoadingSession { message } => after == before && loads_session(
            who,
            message,
            answer,
            step,
        ),
        Pending::AuthorizingTurn { message, state } => after == before && turn_authorized(
            message,
            state,
            answer,
            at,
            step,
        ),
        Pending::LoadingCharacter { message } => after == before && loads_character(
            before,
            who,
            message,
            answer,
            at,
            step,
        ),
        Pending::AuthorizingCharacter { message, campaign_id } => after == before
            && character_authorized(before, who, message, campaign_id, answer, at, step),
        Pending::UpdatingCharacter { character_id, hp } => after == before && character_updated(
            before,
            who,
            character_id,
            hp,
            answer,
            step,
        ),
        Pending::Storing { reply, session_id } => after == before && stored(
            reply,
            session_id,
            answer,
            step,
        ),
        Pending::InsertingEvent { session_id } => after == before && event_inserted(
            who,
            session_id,
            answer,
            step,
        ),
        Pending::LoggingAi { reply, session_id } => after == before && delivers(
            step,
            reply,
            Some(session_id),
        ),
    }
}

/// Takes the answer to a query in, at time `at` and with `event_id` at hand.
pub fn resume_at(
    hub: &mut SessionState,
    who: &Identity,
    pending: Pending,
    answer: Answer,
    at: Timestamp,
    event_id: u128,
) -> (step: Step)
    requires
        old(hub).wf(),
    ensures
        final(hub).wf(),
        resumed(old(hub)@, *who, pending, answer, at, event_id, step, final(hub)@),
        final(hub).queued() == queues_resumed(old(hub)@, old(hub).queued(), *who, pending, answer),
{
    match pending {
        Pending::Joining { session_id } => on_joining(hub, who, session_id, answer),
        Pending::Authorizing { message } => on_authorized(hub, who, message, answer, at, event_id),
        Pending::LoadingSession { message } => on_session_loaded(who, message, answer),
        Pending::AuthorizingTurn { message, state } => on_turn_authorized(message, state, answer, at),
        Pending::LoadingCharacter { message } => on_character_loaded(hub, who, message, answer, at),
        Pending::AuthorizingCharacter { message, campaign_id } => on_character_authorized(
            hub,
            who,
            message,
            campaign_id,
            answer,
            at,
        ),
        Pending::UpdatingCharacter { character_id, hp } => on_character_updated(
            hub,
            who,
            character_id,
            hp,
            answer,
        ),
        Pending::Storing { reply, session_id } => match answer {
            Answer::Stored => finish(reply, Some(session_id)),
            _ => reject(ErrorKind::Persistence, "Failed to update game state"),
        },
        Pending::InsertingEvent { session_id } => on_event_inserted(who, session_id, answer),
        Pending::LoggingAi { reply, session_id } => finish(reply, Some(session_id)),
    }
}

/// Takes a decoded message in. The first step of its handling comes back:
/// a query for the persistence layer, or the outcome.
///
/// The step is what `received` describes for the time at which the clock was
/// read, whatever time that is.
pub fn handle_client_message(hub: &mut SessionState, who: &Identity, message: ClientMessage) -> (step:
    Step)
    requires
        old(hub).wf(),
    ensures
        final(hub).wf(),
        exists|at: Timestamp|
            at.nanos < 1_000_000_000 && #[trigger] received(
                old(hub)@,
                *who,
                message,
                at,
                step,
                final(hub)@,
            ),
        final(hub).queued() == queues_received(old(hub)@, old(hub).queued(), *who, message),
{
    let at = now();
    receive_at(hub, who, message, at)
}

/// Takes the answer to a query in. The next step comes back.
///
/// The step is what `resumed` describes for the time at which the clock was
/// read and for a fresh random identifier, whatever the two are.
pub fn resume(hub: &mut SessionState, who: &Identity, pending: Pending, answer: Answer) -> (step:
    Step)
    requires
        old(hub).wf(),
    ensures
        final(hub).wf(),
        exists|at: Timestamp, event_id: u128|
            at.nanos < 1_000_000_000 && event_id & VERSION_AND_VARIANT == RANDOM_UUID
                && #[trigger] resumed(
                old(hub)@,
                *who,
                pending,
                answer,
                at,
                event_id,
                step,
                final(hub)@,
            ),
        final(hub).queued() == queues_resumed(old(hub)@, old(hub).queued(), *who, pending, answer),
{
    let at = now();
    let event_id = fresh_id();
    resume_at(hub, who, pending, answer, at, event_id)
}

/// The outcome for a frame that could not be decoded.
pub fn undecodable() -> (step: Step)
    ensures
        rejects(step, ErrorKind::Protocol, "Invalid message format"@),
{
    reject(ErrorKind::Protocol, "Invalid message format")
}

/// Takes the user out of the registry when the connection closes: the user
/// leaves the session it is connected to, if any.
pub fn disconnect(hub: &mut SessionState, user_id: u128)
    requires
        old(hub).wf(),
    ensures
        final(hub).wf(),
        final(hub)@ == match session_of(old(hub)@, user_id) {
            Some(current) => left(old(hub)@, current, user_id),
            None => old(hub)@,
        },
        session_of(final(hub)@, user_id) is None,
        final(hub).queued() == old(hub).queued().remove(user_id),
{
    match hub.session_of(user_id) {
        Some(current) => {
            proof {
                hub.lemma_consistent();
            }
            hub.leave_session(current, user_id);
            assert forall|s: u128| !crate::registry::in_session(hub@, s, user_id) by {
                if crate::registry::in_session(hub@, s, user_id) {
                    assert(crate::registry::in_session(old(hub)@, s, user_id));
                }
            }
        },
        None => {
            proof {
                hub.lemma_consistent();
            }
        },
    }
}

/// Puts the encoded reply of an outcome into the queues of the session that
/// the outcome names. A failure is never broadcast, whatever it names.
pub fn deliver(hub: &mut SessionState, outcome: &Outcome, frame: &str)
    requires
        old(hub).wf(),
    ensures
        final(hub).wf(),
        final(hub)@ == old(hub)@,
        final(hub).queued() == match outcome.broadcast_to {
            Some(session_id) if outcome.rejection is None => crate::registry::queues_after_broadcast(
                old(hub)@,
                old(hub).queued(),
                session_id,
                frame@,
            ),
            _ => old(hub).queued(),
        },
{
    match (outcome.broadcast_to, outcome.rejection) {
        (Some(session_id), None) => {
            hub.broadcast_to_session(session_id, frame);
        },
        _ => {},
    }
}

/// Only the game master changes the turn state.
///
/// Take a request for a new turn order or for the next turn, whatever the
/// registry holds and whoever sends it. The first step loads the session and
/// the second asks whether the sender is the game master of its campaign;
/// neither writes, and neither touches the registry. When the answer is no,
/// the third step is an authorization error for the sender alone. So the
/// stored state is as it was.
pub proof fn law_turn_state_needs_game_master(
    m: Sessions,
    who: Identity,
    message: ClientMessage,
    found: Answer,
    at: Timestamp,
    event_id: u128,
    first: Step,
    second: Step,
    third: Step,
    m1: Sessions,
    m2: Sessions,
    m3: Sessions,
)
    requires
        message is UpdateInitiative || message is NextTurn,
        received(m, who, message, at, first, m1),
        first matches Step::Ask { then, .. } ==> resumed(
            m1,
            who,
            then,
            found,
            at,
            event_id,
            second,
            m2,
        ),
        second matches Step::Ask { then, .. } ==> resumed(
            m2,
            who,
            then,
            Answer::Flag(false),
            at,
            event_id,
            third,
            m3,
        ),
    ensures
        first matches Step::Ask { query, .. } && !query.writes(),
        m1 == m && m2 == m,
        second matches Step::Done(o) ==> o.rejection is Some,
        second matches Step::Ask { query, .. } ==> {
            &&& !query.writes()
            &&& m3 == m
            &&& rejects(third, ErrorKind::AuthorizationDenied, denial_text(message))
        },
{
}

/// A refusal asks for nothing: when the answer to "may the sender do this?"
/// is no, the step is an authorization error for the sender alone, whatever
/// the message, and the registry is as it was.
pub proof fn law_denial_ends_the_message(
    m: Sessions,
    who: Identity,
    pending: Pending,
    at: Timestamp,
    event_id: u128,
    step: Step,
    after: Sessions,
)
    requires
        pending is Authorizing || pending is AuthorizingTurn || pending is AuthorizingCharacter,
        resumed(m, who, pending, Answer::Flag(false), at, event_id, step, after),
    ensures
        after == m,
        step matches Step::Done(o) && o.rejection == Some(ErrorKind::AuthorizationDenied)
            && o.broadcast_to is None && o.reply is Error,
{
}

/// Errors stay with the sender. Whatever step a message or an answer leads
/// to, an outcome that is a failure carries an error message and names no
/// session to broadcast to.
pub proof fn law_errors_stay_with_sender(
    m: Sessions,
    who: Identity,
    message: ClientMessage,
    pending: Pending,
    answer: Answer,
    at: Timestamp,
    event_id: u128,
    step: Step,
    after: Sessions,
)
    requires
        received(m, who, message, at, step, after) || resumed(
            m,
            who,
            pending,
            answer,
            at,
            event_id,
            step,
            after,
        ),
    ensures
        step matches Step::Done(o) ==> (o.rejection is Some ==> o.broadcast_to is None
            && o.reply is Error),
{
}

} // verus!
