use lobby_core::configs::GameConfigurations;
use lobby_core::dispatch::{AppState, RequestBody, ResponseBody, StreamOpen};
use lobby_core::errors::AppError;
use lobby_core::room_manager::{reaper_transition, ReaperAction, ReaperEvent};

fn new_user(state: &mut AppState, nick: &str, token: &str) -> u32 {
    state.users.create_user_with_token(nick.to_string(), token.to_string(), 0)
}

fn list_rooms(state: &mut AppState, uid: u32) -> Vec<lobby_core::room::RoomSimpleInfo> {
    let r = state
        .dispatch_request(&"ListRoomSimpleInfo".to_string(), uid, RequestBody::Empty, 0)
        .unwrap();
    match r {
        ResponseBody::RoomList(v) => v,
        _ => panic!("expected a room list"),
    }
}

#[test]
fn create_room_test() {
    let mut state = AppState::new();
    let uid = new_user(&mut state, "u1", "t1");
    assert_eq!(list_rooms(&mut state, uid).len(), 0);
    state
        .dispatch_request(&"CreateRoom".to_string(), uid, RequestBody::Empty, 0)
        .unwrap();
    assert_eq!(list_rooms(&mut state, uid).len(), 1);
}

#[test]
fn last_user_leave_room_test() {
    let mut state = AppState::new();
    let uid = new_user(&mut state, "u1", "t1");
    state
        .dispatch_request(&"CreateRoom".to_string(), uid, RequestBody::Empty, 0)
        .unwrap();
    assert_eq!(list_rooms(&mut state, uid).len(), 1);
    state
        .dispatch_request(&"LeaveRoom".to_string(), uid, RequestBody::Empty, 0)
        .unwrap();
    assert_eq!(list_rooms(&mut state, uid).len(), 0);
}

#[test]
fn multiple_users_enter_room_test() {
    let mut state = AppState::new();
    let u1 = new_user(&mut state, "u1", "t1");
    let u2 = new_user(&mut state, "u2", "t2");
    state
        .dispatch_request(&"CreateRoom".to_string(), u1, RequestBody::Empty, 0)
        .unwrap();
    let list = list_rooms(&mut state, u1);
    assert_eq!(list.len(), 1);
    let room_id = list[0].id;
    state
        .dispatch_request(&"EnterRoom".to_string(), u2, RequestBody::RoomId(room_id), 0)
        .unwrap();
    let list = list_rooms(&mut state, u1);
    assert_eq!(list[0].cur_user_count, 2);
}

#[test]
fn change_game_config_test() {
    let mut state = AppState::new();
    let u1 = new_user(&mut state, "u1", "t1");
    state
        .dispatch_request(&"CreateRoom".to_string(), u1, RequestBody::Empty, 0)
        .unwrap();
    let mut new_config = GameConfigurations::default();
    new_config.basic_configs.max_player_count = 4;
    state
        .dispatch_request(&"ChangeGameConfig".to_string(), u1, RequestBody::Config(new_config), 0)
        .unwrap();
    let list = list_rooms(&mut state, u1);
    assert_eq!(list[0].max_user_count, 4);
}

#[test]
fn non_owner_change_config_test() {
    let mut state = AppState::new();
    let u1 = new_user(&mut state, "u1", "t1");
    let u2 = new_user(&mut state, "u2", "t2");
    state
        .dispatch_request(&"CreateRoom".to_string(), u1, RequestBody::Empty, 0)
        .unwrap();
    let mut new_config = GameConfigurations::default();
    new_config.basic_configs.max_player_count = 4;
    let change_result = state.dispatch_request(
        &"ChangeGameConfig".to_string(),
        u2,
        RequestBody::Config(new_config),
        0,
    );
    assert!(change_result.is_err());
}

#[test]
fn owner_only_configuration() {
    let mut state = AppState::new();
    let u1 = new_user(&mut state, "u1", "t1");
    let u2 = new_user(&mut state, "u2", "t2");
    state
        .dispatch_request(&"CreateRoom".to_string(), u1, RequestBody::Empty, 0)
        .unwrap();
    let room_id = list_rooms(&mut state, u1)[0].id;
    state
        .dispatch_request(&"EnterRoom".to_string(), u2, RequestBody::RoomId(room_id), 0)
        .unwrap();
    let mut cfg = GameConfigurations::default();
    cfg.basic_configs.max_player_count = 4;
    // the second member is in the room but does not own it
    let r = state.dispatch_request(&"ChangeGameConfig".to_string(), u2, RequestBody::Config(cfg), 0);
    assert_eq!(r, Err(AppError::Unauthorized));
    // the first (owner) member succeeds
    state
        .dispatch_request(&"ChangeGameConfig".to_string(), u1, RequestBody::Config(cfg), 0)
        .unwrap();
}

#[test]
#[should_panic]
fn enter_room_over_capacity_test() {
    let mut state = AppState::new();
    let u1 = new_user(&mut state, "u1", "t1");
    state
        .dispatch_request(&"CreateRoom".to_string(), u1, RequestBody::Empty, 0)
        .unwrap();
    let room_id = list_rooms(&mut state, u1)[0].id;
    for i in 0..10u32 {
        let nick = format!("guest{}", i);
        let token = format!("guest-token-{}", i);
        let u = new_user(&mut state, &nick, &token);
        state
            .dispatch_request(&"EnterRoom".to_string(), u, RequestBody::RoomId(room_id), 0)
            .unwrap();
    }
}

#[test]
fn capacity_enforced_at_configured_maximum() {
    let mut state = AppState::new();
    let u1 = new_user(&mut state, "u1", "t1");
    state
        .dispatch_request(&"CreateRoom".to_string(), u1, RequestBody::Empty, 0)
        .unwrap();
    let room_id = list_rooms(&mut state, u1)[0].id;
    let mut cfg = GameConfigurations::default();
    cfg.basic_configs.max_player_count = 4;
    state
        .dispatch_request(&"ChangeGameConfig".to_string(), u1, RequestBody::Config(cfg), 0)
        .unwrap();
    // three more members fill the room to its maximum of 4
    for i in 0..3u32 {
        let u = new_user(&mut state, &format!("m{}", i), &format!("mt{}", i));
        state
            .dispatch_request(&"EnterRoom".to_string(), u, RequestBody::RoomId(room_id), 0)
            .unwrap();
    }
    // the fifth join fails with RoomFull
    let u5 = new_user(&mut state, "fifth", "t5");
    let r = state.dispatch_request(&"EnterRoom".to_string(), u5, RequestBody::RoomId(room_id), 0);
    assert_eq!(r, Err(AppError::RoomFull));
}

#[test]
fn non_active_room_test() {
    let mut state = AppState::new();
    let u1 = new_user(&mut state, "u1", "t1");
    state.settings.non_active_room_time = 50;
    state
        .dispatch_request(&"CreateRoom".to_string(), u1, RequestBody::Empty, 0)
        .unwrap();
    assert_eq!(list_rooms(&mut state, u1).len(), 1);
    let room_id = match state.open_stream(&"RoomDetailedInfoStream".to_string(), u1).unwrap() {
        StreamOpen::RoomDetail(rid, _) => rid,
        _ => panic!("expected a room detail stream"),
    };
    // the idle watcher's bounded wait of 50 ms runs out with no detail
    // activity; its decision removes the room
    assert!(!state.rooms.room_detail_has_new(room_id, &state.rooms.room_detail_subscribe(room_id).unwrap()));
    let action = reaper_transition(ReaperEvent::TimedOut);
    assert_eq!(action, ReaperAction::RemoveRoomAndStop);
    state.rooms.remove_room(room_id, 50);
    assert_eq!(list_rooms(&mut state, u1).len(), 0);
}

#[test]
fn reaper_continues_on_activity() {
    assert_eq!(reaper_transition(ReaperEvent::DetailChanged), ReaperAction::ContinueWaiting);
    assert_eq!(reaper_transition(ReaperEvent::ChannelClosed), ReaperAction::Stop);
}

#[test]
fn room_simple_infos_stream_by_new_room_test() {
    let mut state = AppState::new();
    let u1 = new_user(&mut state, "u1", "t1");
    let u2 = new_user(&mut state, "u2", "t2");
    let mut cursor = match state.open_stream(&"AllRoomSimpleInfoStream".to_string(), u1).unwrap() {
        StreamOpen::AllRooms(c) => c,
        _ => panic!("expected the lobby stream"),
    };
    state
        .dispatch_request(&"CreateRoom".to_string(), u1, RequestBody::Empty, 100)
        .unwrap();
    state.rooms.all_rooms_deliver_due(105);
    assert!(state.rooms.all_rooms_has_new(&cursor));
    let n = state.rooms.all_rooms_read(&mut cursor).unwrap();
    assert_eq!(n.len(), 1);
    state
        .dispatch_request(&"CreateRoom".to_string(), u2, RequestBody::Empty, 200)
        .unwrap();
    state.rooms.all_rooms_deliver_due(205);
    let n = state.rooms.all_rooms_read(&mut cursor).unwrap();
    assert_eq!(n.len(), 2);
}

#[test]
fn room_detailed_info_stream_when_not_in_room_test() {
    let mut state = AppState::new();
    let u1 = new_user(&mut state, "u1", "t1");
    let s = state.open_stream(&"RoomDetailedInfoStream".to_string(), u1);
    assert_eq!(s, Err(AppError::UserNotInRoom));
}

#[test]
fn room_detailed_info_stream_by_config_change_test() {
    let mut state = AppState::new();
    let u1 = new_user(&mut state, "u1", "t1");
    state
        .dispatch_request(&"CreateRoom".to_string(), u1, RequestBody::Empty, 0)
        .unwrap();
    let (room_id, mut cursor) = match state
        .open_stream(&"RoomDetailedInfoStream".to_string(), u1)
        .unwrap()
    {
        StreamOpen::RoomDetail(rid, c) => (rid, c),
        _ => panic!("expected a room detail stream"),
    };
    let mut new_config = GameConfigurations::default();
    new_config.basic_configs.max_player_count = 4;
    state
        .dispatch_request(&"ChangeGameConfig".to_string(), u1, RequestBody::Config(new_config), 100)
        .unwrap();
    assert!(state.rooms.room_detail_deliver_due(room_id, 105));
    assert!(state.rooms.room_detail_has_new(room_id, &cursor));
    let detail = state.rooms.room_detail_read(room_id, &mut cursor).unwrap();
    assert_eq!(detail.config.basic_configs.max_player_count, 4);
}

#[test]
fn room_detailed_info_stream_by_new_user_enter_test() {
    let mut state = AppState::new();
    let u1 = new_user(&mut state, "u1", "t1");
    let u2 = new_user(&mut state, "u2", "t2");
    state
        .dispatch_request(&"CreateRoom".to_string(), u1, RequestBody::Empty, 0)
        .unwrap();
    let (room_id, mut cursor) = match state
        .open_stream(&"RoomDetailedInfoStream".to_string(), u1)
        .unwrap()
    {
        StreamOpen::RoomDetail(rid, c) => (rid, c),
        _ => panic!("expected a room detail stream"),
    };
    state
        .dispatch_request(&"EnterRoom".to_string(), u2, RequestBody::RoomId(room_id), 100)
        .unwrap();
    assert!(state.rooms.room_detail_deliver_due(room_id, 105));
    let detail = state.rooms.room_detail_read(room_id, &mut cursor).unwrap();
    assert_eq!(detail.user_in_room_infos.len(), 2);
    assert_eq!(detail.user_in_room_infos[0].nick_name, "u1");
    assert_eq!(detail.user_in_room_infos[1].nick_name, "u2");
}

#[test]
fn leave_keeps_room_for_remaining_members() {
    let mut state = AppState::new();
    let u1 = new_user(&mut state, "u1", "t1");
    let u2 = new_user(&mut state, "u2", "t2");
    state
        .dispatch_request(&"CreateRoom".to_string(), u1, RequestBody::Empty, 0)
        .unwrap();
    let room_id = list_rooms(&mut state, u1)[0].id;
    state
        .dispatch_request(&"EnterRoom".to_string(), u2, RequestBody::RoomId(room_id), 0)
        .unwrap();
    // the owner leaves; the room survives and ownership passes to u2
    state
        .dispatch_request(&"LeaveRoom".to_string(), u1, RequestBody::Empty, 0)
        .unwrap();
    let list = list_rooms(&mut state, u1);
    assert_eq!(list.len(), 1);
    assert_eq!(list[0].cur_user_count, 1);
    let mut cfg = GameConfigurations::default();
    cfg.basic_configs.max_player_count = 5;
    state
        .dispatch_request(&"ChangeGameConfig".to_string(), u2, RequestBody::Config(cfg), 0)
        .unwrap();
}
