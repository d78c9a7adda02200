use session_engine::registry::{PlayerInfo, SessionState};

const S1: u128 = 0x51;
const S2: u128 = 0x52;
const CAMPAIGN: u128 = 0xca;
const OTHER_CAMPAIGN: u128 = 0xcb;
const ANN: u128 = 1;
const BOB: u128 = 2;
const CID: u128 = 3;

fn sorted(mut players: Vec<PlayerInfo>) -> Vec<PlayerInfo> {
    players.sort_by_key(|p| p.user_id);
    players
}

fn ids(hub: &SessionState, session_id: u128) -> Vec<u128> {
    let mut ids: Vec<u128> = hub.get_session_players(session_id).iter().map(|p| p.user_id).collect();
    ids.sort();
    ids
}

fn frames(list: &[&str]) -> Vec<String> {
    list.iter().map(|f| f.to_string()).collect()
}

fn player(user_id: u128, username: &str, is_dm: bool) -> PlayerInfo {
    PlayerInfo { user_id, username: username.to_string(), is_dm }
}

#[test]
fn a_new_registry_is_empty() {
    let mut hub = SessionState::new();
    assert_eq!(hub.get_session_players(S1), vec![]);
    assert_eq!(hub.get_session_campaign_id(S1), None);
    assert_eq!(hub.session_of(ANN), None);
    assert_eq!(hub.take_outbound(ANN), Vec::<String>::new());
}

#[test]
fn the_first_join_creates_the_session() {
    let mut hub = SessionState::new();
    hub.join_session(S1, CAMPAIGN, ANN, "Ann".to_string(), true);
    assert_eq!(hub.get_session_campaign_id(S1), Some(CAMPAIGN));
    assert_eq!(hub.get_session_players(S1), vec![player(ANN, "Ann", true)]);
    assert_eq!(hub.session_of(ANN), Some(S1));
}

#[test]
fn joining_twice_adds_no_member_and_the_second_name_and_flag_win() {
    let mut hub = SessionState::new();
    hub.join_session(S1, CAMPAIGN, BOB, "Bob".to_string(), false);
    hub.join_session(S1, CAMPAIGN, ANN, "Ann".to_string(), false);
    assert_eq!(hub.get_session_players(S1).len(), 2);
    hub.join_session(S1, CAMPAIGN, ANN, "Ann the Bold".to_string(), true);
    assert_eq!(hub.get_session_players(S1).len(), 2);
    assert_eq!(
        sorted(hub.get_session_players(S1)),
        vec![player(ANN, "Ann the Bold", true), player(BOB, "Bob", false)]
    );
}

#[test]
fn an_existing_session_keeps_its_campaign() {
    let mut hub = SessionState::new();
    hub.join_session(S1, CAMPAIGN, ANN, "Ann".to_string(), true);
    hub.join_session(S1, OTHER_CAMPAIGN, BOB, "Bob".to_string(), false);
    assert_eq!(hub.get_session_campaign_id(S1), Some(CAMPAIGN));
}

#[test]
fn the_last_leave_removes_the_session() {
    let mut hub = SessionState::new();
    hub.join_session(S1, CAMPAIGN, ANN, "Ann".to_string(), true);
    hub.join_session(S1, CAMPAIGN, BOB, "Bob".to_string(), false);
    hub.leave_session(S1, ANN);
    assert_eq!(hub.get_session_campaign_id(S1), Some(CAMPAIGN));
    assert_eq!(hub.get_session_players(S1), vec![player(BOB, "Bob", false)]);
    hub.leave_session(S1, BOB);
    assert_eq!(hub.get_session_campaign_id(S1), None);
    assert_eq!(hub.get_session_players(S1), vec![]);
    assert_eq!(hub.session_of(BOB), None);
    // a later join starts the session afresh, under the campaign given then
    hub.join_session(S1, OTHER_CAMPAIGN, CID, "Cid".to_string(), false);
    assert_eq!(hub.get_session_campaign_id(S1), Some(OTHER_CAMPAIGN));
}

#[test]
fn leaving_a_session_one_is_not_in_changes_nothing() {
    let mut hub = SessionState::new();
    hub.join_session(S1, CAMPAIGN, ANN, "Ann".to_string(), true);
    hub.leave_session(S1, BOB);
    hub.leave_session(S2, ANN);
    hub.leave_session(S2, BOB);
    assert_eq!(hub.get_session_players(S1), vec![player(ANN, "Ann", true)]);
    assert_eq!(hub.session_of(ANN), Some(S1));
    assert_eq!(hub.get_session_campaign_id(S2), None);
}

#[test]
fn the_last_join_wins() {
    let mut hub = SessionState::new();
    hub.join_session(S1, CAMPAIGN, ANN, "Ann".to_string(), false);
    hub.join_session(S1, CAMPAIGN, BOB, "Bob".to_string(), false);
    hub.join_session(S2, OTHER_CAMPAIGN, ANN, "Ann".to_string(), false);
    assert_eq!(hub.session_of(ANN), Some(S2));
    assert_eq!(hub.get_session_players(S1), vec![player(BOB, "Bob", false)]);
    assert_eq!(hub.get_session_players(S2), vec![player(ANN, "Ann", false)]);
}

#[test]
fn moving_out_of_a_session_as_its_last_member_removes_it() {
    let mut hub = SessionState::new();
    hub.join_session(S1, CAMPAIGN, ANN, "Ann".to_string(), false);
    hub.join_session(S2, OTHER_CAMPAIGN, ANN, "Ann".to_string(), false);
    assert_eq!(hub.get_session_campaign_id(S1), None);
    assert_eq!(hub.get_session_campaign_id(S2), Some(OTHER_CAMPAIGN));
}

#[test]
fn a_broadcast_reaches_the_members_of_its_session_only() {
    let mut hub = SessionState::new();
    hub.join_session(S1, CAMPAIGN, ANN, "Ann".to_string(), true);
    hub.join_session(S1, CAMPAIGN, BOB, "Bob".to_string(), false);
    hub.join_session(S2, OTHER_CAMPAIGN, CID, "Cid".to_string(), false);
    hub.broadcast_to_session(S1, "{\"type\":\"one\"}");
    assert_eq!(hub.take_outbound(CID), Vec::<String>::new());
    assert_eq!(hub.take_outbound(ANN), frames(&["{\"type\":\"one\"}"]));
    assert_eq!(hub.take_outbound(BOB), frames(&["{\"type\":\"one\"}"]));
    hub.broadcast_to_session(S2, "two");
    assert_eq!(hub.take_outbound(ANN), Vec::<String>::new());
    assert_eq!(hub.take_outbound(BOB), Vec::<String>::new());
    assert_eq!(hub.take_outbound(CID), frames(&["two"]));
}

#[test]
fn a_broadcast_to_a_session_without_entry_reaches_nobody() {
    let mut hub = SessionState::new();
    hub.join_session(S1, CAMPAIGN, ANN, "Ann".to_string(), true);
    hub.broadcast_to_session(S2, "lost");
    hub.broadcast_to_session(0x99, "lost too");
    assert_eq!(hub.take_outbound(ANN), Vec::<String>::new());
    assert_eq!(hub.take_outbound(0x77), Vec::<String>::new());
}

#[test]
fn frames_wait_in_order_until_they_are_taken() {
    let mut hub = SessionState::new();
    hub.join_session(S1, CAMPAIGN, ANN, "Ann".to_string(), true);
    hub.broadcast_to_session(S1, "first");
    hub.broadcast_to_session(S1, "second");
    hub.join_session(S1, CAMPAIGN, BOB, "Bob".to_string(), false);
    hub.broadcast_to_session(S1, "third");
    assert_eq!(hub.take_outbound(ANN), frames(&["first", "second", "third"]));
    assert_eq!(hub.take_outbound(ANN), Vec::<String>::new());
    assert_eq!(hub.take_outbound(BOB), frames(&["third"]));
}

#[test]
fn a_member_who_left_receives_nothing_more() {
    let mut hub = SessionState::new();
    hub.join_session(S1, CAMPAIGN, ANN, "Ann".to_string(), true);
    hub.join_session(S1, CAMPAIGN, BOB, "Bob".to_string(), false);
    hub.broadcast_to_session(S1, "before");
    hub.leave_session(S1, ANN);
    hub.broadcast_to_session(S1, "after");
    assert_eq!(hub.take_outbound(ANN), Vec::<String>::new());
    assert_eq!(hub.take_outbound(BOB), frames(&["before", "after"]));
}

#[test]
fn joining_again_keeps_the_queue_and_moving_starts_a_new_one() {
    let mut hub = SessionState::new();
    hub.join_session(S1, CAMPAIGN, ANN, "Ann".to_string(), true);
    hub.join_session(S1, CAMPAIGN, BOB, "Bob".to_string(), true);
    hub.broadcast_to_session(S1, "kept");
    hub.join_session(S1, CAMPAIGN, ANN, "Ann II".to_string(), false);
    hub.join_session(S2, OTHER_CAMPAIGN, BOB, "Bob".to_string(), false);
    assert_eq!(hub.take_outbound(ANN), frames(&["kept"]));
    assert_eq!(hub.take_outbound(BOB), Vec::<String>::new());
}

#[test]
fn a_slow_connection_loses_its_oldest_frames() {
    let mut hub = SessionState::new();
    hub.join_session(S1, CAMPAIGN, ANN, "Ann".to_string(), true);
    for n in 0..300 {
        hub.broadcast_to_session(S1, &format!("frame {}", n));
    }
    let waiting = hub.take_outbound(ANN);
    assert_eq!(waiting.len(), 256);
    assert_eq!(waiting[0], "frame 44");
    assert_eq!(waiting[255], "frame 299");
    let expected: Vec<String> = (44..300).map(|n| format!("frame {}", n)).collect();
    assert_eq!(waiting, expected);
}

#[test]
fn the_player_list_is_a_copy() {
    let mut hub = SessionState::new();
    hub.join_session(S1, CAMPAIGN, ANN, "Ann".to_string(), true);
    let mut players = hub.get_session_players(S1);
    players[0].username.push_str(" (edited)");
    players.clear();
    assert_eq!(hub.get_session_players(S1), vec![player(ANN, "Ann", true)]);
}

#[test]
fn many_members_are_all_listed_once() {
    let mut hub = SessionState::new();
    for id in 0..200u128 {
        hub.join_session(S1, CAMPAIGN, id, format!("user{}", id), id == 0);
    }
    for id in 0..200u128 {
        if id % 2 == 1 {
            hub.leave_session(S1, id);
        }
    }
    hub.broadcast_to_session(S1, "roll call");
    let expected: Vec<u128> = (0..200u128).filter(|id| id % 2 == 0).collect();
    assert_eq!(ids(&hub, S1), expected);
    for id in 0..200u128 {
        let got = hub.take_outbound(id);
        if id % 2 == 0 {
            assert_eq!(got, frames(&["roll call"]));
        } else {
            assert_eq!(got, Vec::<String>::new());
        }
    }
    let players = sorted(hub.get_session_players(S1));
    assert_eq!(players.len(), 100);
    assert_eq!(players[1], player(2, "user2", false));
}
