use lobby_core::dispatch::{AppState, RequestBody, ResponseBody, StreamOpen};
use lobby_core::errors::AppError;

fn connect(state: &mut AppState) -> u32 {
    // what the connection acceptor does for a client with no token:
    // create a fresh user with a generated reconnect token
    state.users.create_user("player".to_string(), 1700000000)
}

#[test]
fn create_new_user_smoke() {
    let mut state = AppState::new();
    let uid = connect(&mut state);
    let r = state
        .dispatch_request(&"GetCurUser".to_string(), uid, RequestBody::Empty, 0)
        .unwrap();
    match r {
        ResponseBody::User(user) => {
            println!("user: {:?}", user);
            assert_eq!(user.id, uid);
        },
        _ => panic!("expected a user"),
    }
}

#[test]
fn re_login_smoke() {
    let mut state = AppState::new();
    let uid = connect(&mut state);
    let (token, nick) = {
        let u = state.users.get(uid).unwrap();
        (u.uuid.clone(), u.nick_name.clone())
    };
    // what the acceptor does for a client presenting a token: look it up
    let again = state.users.find_user_by_uuid(&token).unwrap();
    assert_eq!(again.id, uid);
    assert_eq!(again.nick_name, nick);
}

#[test]
fn multiple_user_smoke() {
    let mut state = AppState::new();
    let mut ids = Vec::new();
    for _ in 0..10 {
        let uid = connect(&mut state);
        let r = state
            .dispatch_request(&"GetCurUser".to_string(), uid, RequestBody::Empty, 0)
            .unwrap();
        match r {
            ResponseBody::User(user) => println!("user: {:?}", user),
            _ => panic!("expected a user"),
        }
        ids.push(uid);
    }
    for i in 0..ids.len() {
        for j in 0..i {
            assert_ne!(ids[i], ids[j]);
        }
    }
}

#[test]
fn change_user_name_smoke() {
    let mut state = AppState::new();
    let uid = connect(&mut state);
    state
        .dispatch_request(
            &"ChangeCurUserName".to_string(),
            uid,
            RequestBody::Text("test".to_string()),
            0,
        )
        .unwrap();
    let r = state
        .dispatch_request(&"GetCurUser".to_string(), uid, RequestBody::Empty, 0)
        .unwrap();
    match r {
        ResponseBody::User(user) => assert_eq!(user.nick_name, "test"),
        _ => panic!("expected a user"),
    }
}

#[test]
fn unregistered_handler_smoke() {
    let mut state = AppState::new();
    let uid = connect(&mut state);
    let result = state.dispatch_request(&"unregistered".to_string(), uid, RequestBody::Empty, 0);
    assert_eq!(result, Err(AppError::UnknownCommand));
}

#[test]
fn stream_smoke() {
    let mut state = AppState::new();
    let uid = connect(&mut state);
    let mut cursor = match state.open_stream(&"AllRoomSimpleInfoStream".to_string(), uid).unwrap() {
        StreamOpen::AllRooms(c) => c,
        _ => panic!("expected the lobby stream"),
    };
    state
        .dispatch_request(&"CreateRoom".to_string(), uid, RequestBody::Empty, 100)
        .unwrap();
    state.rooms.all_rooms_deliver_due(105);
    let n = state.rooms.all_rooms_read(&mut cursor).unwrap();
    assert_eq!(n.len(), 1);
}

#[test]
fn stream_debounce_smoke() {
    let mut state = AppState::new();
    let u1 = connect(&mut state);
    let u2 = connect(&mut state);
    let mut cursor = match state.open_stream(&"AllRoomSimpleInfoStream".to_string(), u1).unwrap() {
        StreamOpen::AllRooms(c) => c,
        _ => panic!("expected the lobby stream"),
    };
    // two rooms opened within one debounce window collapse to one delivery
    state
        .dispatch_request(&"CreateRoom".to_string(), u1, RequestBody::Empty, 100)
        .unwrap();
    state
        .dispatch_request(&"CreateRoom".to_string(), u2, RequestBody::Empty, 103)
        .unwrap();
    state.rooms.all_rooms_deliver_due(105);
    assert!(state.rooms.all_rooms_has_new(&cursor));
    let n = state.rooms.all_rooms_read(&mut cursor).unwrap();
    assert_eq!(n.len(), 2);
    // and nothing further arrives
    state.rooms.all_rooms_deliver_due(200);
    assert!(!state.rooms.all_rooms_has_new(&cursor));
}

#[test]
fn end_to_end_scenario() {
    let mut state = AppState::new();
    let u1 = connect(&mut state);
    let u2 = connect(&mut state);
    state
        .dispatch_request(&"CreateRoom".to_string(), u1, RequestBody::Empty, 0)
        .unwrap();
    let list = match state
        .dispatch_request(&"ListRoomSimpleInfo".to_string(), u1, RequestBody::Empty, 0)
        .unwrap()
    {
        ResponseBody::RoomList(v) => v,
        _ => panic!("expected a room list"),
    };
    assert_eq!(list.len(), 1);
    assert_eq!(list[0].cur_user_count, 1);
    let room_id = list[0].id;
    state
        .dispatch_request(&"EnterRoom".to_string(), u2, RequestBody::RoomId(room_id), 0)
        .unwrap();
    let list = match state
        .dispatch_request(&"ListRoomSimpleInfo".to_string(), u2, RequestBody::Empty, 0)
        .unwrap()
    {
        ResponseBody::RoomList(v) => v,
        _ => panic!("expected a room list"),
    };
    assert_eq!(list[0].cur_user_count, 2);
    let mut cfg = lobby_core::configs::GameConfigurations::default();
    cfg.basic_configs.max_player_count = 4;
    state
        .dispatch_request(&"ChangeGameConfig".to_string(), u1, RequestBody::Config(cfg), 0)
        .unwrap();
    let second = state.dispatch_request(&"ChangeGameConfig".to_string(), u2, RequestBody::Config(cfg), 0);
    assert!(second.is_err());
}
