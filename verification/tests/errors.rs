use lobby_core::dispatch::{AppState, RequestBody};
use lobby_core::errors::AppError;
use lobby_core::ext::IntoResult;

fn user(state: &mut AppState, n: u32) -> u32 {
    state
        .users
        .create_user_with_token(format!("user{}", n), format!("token{}", n), 0)
}

#[test]
fn not_found_for_unknown_user() {
    let mut state = AppState::new();
    let r = state.dispatch_request(&"GetCurUser".to_string(), 999, RequestBody::Empty, 0);
    assert_eq!(r, Err(AppError::NotFound));
}

#[test]
fn not_found_for_unknown_room() {
    let mut state = AppState::new();
    let u = user(&mut state, 1);
    let r = state.dispatch_request(&"EnterRoom".to_string(), u, RequestBody::RoomId(42), 0);
    assert_eq!(r, Err(AppError::NotFound));
}

#[test]
fn already_in_room_on_second_create() {
    let mut state = AppState::new();
    let u = user(&mut state, 1);
    state
        .dispatch_request(&"CreateRoom".to_string(), u, RequestBody::Empty, 0)
        .unwrap();
    let r = state.dispatch_request(&"CreateRoom".to_string(), u, RequestBody::Empty, 0);
    assert_eq!(r, Err(AppError::AlreadyInRoom));
}

#[test]
fn user_not_in_room_on_stray_leave() {
    let mut state = AppState::new();
    let u = user(&mut state, 1);
    let r = state.dispatch_request(&"LeaveRoom".to_string(), u, RequestBody::Empty, 0);
    assert_eq!(r, Err(AppError::UserNotInRoom));
}

#[test]
fn validation_rejects_empty_and_long_names() {
    let mut state = AppState::new();
    let u = user(&mut state, 1);
    let r = state.dispatch_request(
        &"ChangeCurUserName".to_string(),
        u,
        RequestBody::Text(String::new()),
        0,
    );
    assert_eq!(r, Err(AppError::ValidationError));
    let r = state.dispatch_request(
        &"ChangeCurUserName".to_string(),
        u,
        RequestBody::Text("abcdefghijk".to_string()),
        0,
    );
    assert_eq!(r, Err(AppError::ValidationError));
    // exactly ten characters pass
    state
        .dispatch_request(
            &"ChangeCurUserName".to_string(),
            u,
            RequestBody::Text("abcdefghij".to_string()),
            0,
        )
        .unwrap();
}

#[test]
fn decode_error_on_wrong_body_shape() {
    let mut state = AppState::new();
    let u = user(&mut state, 1);
    let r = state.dispatch_request(&"EnterRoom".to_string(), u, RequestBody::Empty, 0);
    assert_eq!(r, Err(AppError::DecodeError));
    let r = state.dispatch_request(
        &"CreateRoom".to_string(),
        u,
        RequestBody::Text("oops".to_string()),
        0,
    );
    assert_eq!(r, Err(AppError::DecodeError));
}

#[test]
fn error_messages_are_stable() {
    assert_eq!(AppError::RoomFull.message(), "room is full");
    assert_eq!(AppError::UnknownCommand.message(), "no handler registered for command");
    assert_eq!(AppError::Unauthorized.message(), "user is not owner");
}

#[test]
fn option_into_result() {
    let some: Option<u32> = Some(7);
    assert_eq!(some.into_result(), Ok(7));
    let none: Option<u32> = None;
    assert_eq!(none.into_result(), Err(AppError::NotFound));
}
