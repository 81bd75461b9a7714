use mist::backend::websocket::{
    character_actions, character_id, connect_actions, dice_actions, modified_actions, modify_request, msg_actions,
    new_character_actions, ping_actions, roll_dice, room_name, Action, Arg, Emit, Payload, Target, WsHandlerImpl,
};
use mist::common::character::Character;
use mist::data::example_character;

fn named(id: i32) -> Character {
    let mut c = Character::default();
    c.id = Some(id);
    c.name = "Sheet".to_string();
    c
}

fn emit(target: Target, event: &str, payload: Payload) -> Action {
    Action::Emit(Emit { target, event: event.to_string(), payload })
}

#[test]
fn room_names() {
    assert_eq!(room_name(5), "character/5");
    assert_eq!(room_name(0), "character/0");
    assert_eq!(room_name(-12), "character/-12");
    assert_eq!(room_name(i32::MAX), "character/2147483647");
    assert_eq!(room_name(i32::MIN), "character/-2147483648");
}

#[test]
fn connect_ping_and_dice() {
    assert_eq!(
        connect_actions(9),
        vec![
            Action::Join("dice".to_string()),
            emit(Target::Caller, "connect", Payload::Id(9)),
            emit(Target::Room("client_1".to_string()), "asdf", Payload::Empty),
        ]
    );
    assert_eq!(ping_actions(), vec![emit(Target::Caller, "pong", Payload::Empty)]);
    assert_eq!(dice_actions(77), vec![emit(Target::Room("dice".to_string()), "dice", Payload::Seed(77))]);
    let rolled = roll_dice();
    assert_eq!(rolled.len(), 1);
    match &rolled[0] {
        Action::Emit(Emit { target: Target::Room(r), event, payload: Payload::Seed(_) }) => {
            assert_eq!(r, "dice");
            assert_eq!(event, "dice");
        }
        other => panic!("unexpected action {:?}", other),
    }
}

#[test]
fn msg_relays_content_to_others() {
    assert_eq!(
        msg_actions(Arg::Str("room1".to_string()), Arg::Str("hi".to_string())).unwrap(),
        vec![emit(Target::RoomExceptCaller("room1".to_string()), "msg", Payload::Content(Ok("hi".to_string())))]
    );
    assert_eq!(
        msg_actions(Arg::Str("room1".to_string()), Arg::Int(3)).unwrap(),
        vec![emit(
            Target::RoomExceptCaller("room1".to_string()),
            "msg",
            Payload::Content(Err("Argument `content` is not of type String".to_string()))
        )]
    );
}

#[test]
fn msg_errors() {
    assert_eq!(msg_actions(Arg::Absent, Arg::Str("x".to_string())).unwrap_err(), "No `to` argument.");
    assert_eq!(msg_actions(Arg::Int(1), Arg::Str("x".to_string())).unwrap_err(), "Argument `to` is not of type String");
    assert_eq!(msg_actions(Arg::Str("r".to_string()), Arg::Absent).unwrap_err(), "No `content` argument.");
    assert_eq!(msg_actions(Arg::Other, Arg::Absent).unwrap_err(), "Argument `to` is not of type String");
}

#[test]
fn character_requests() {
    assert_eq!(character_id(&Arg::Int(42)), Ok(42));
    assert_eq!(character_id(&Arg::Int(4294967297)), Ok(1));
    assert_eq!(character_id(&Arg::Str("42".to_string())).unwrap_err(), "No `cid` parameter specified.");
    assert_eq!(
        character_actions(3, Some(named(3))).unwrap(),
        vec![
            Action::Join("character/3".to_string()),
            emit(Target::Room("character/3".to_string()), "character/update", Payload::Character(named(3))),
        ]
    );
    assert_eq!(character_actions(3, None).unwrap_err(), "No such character found.");
}

#[test]
fn new_character_requests() {
    assert_eq!(new_character_actions(None).unwrap_err(), "Couldn't create new character.");
    assert_eq!(new_character_actions(Some(example_character())).unwrap_err(), "New character doesn't have ID.");
    let actions = new_character_actions(Some(named(8))).unwrap();
    assert_eq!(actions[0], Action::Join("character/8".to_string()));
    assert_eq!(actions.len(), 2);
}

#[test]
fn modify_requests() {
    assert_eq!(modify_request(&Arg::Absent, true).unwrap_err(), "No `cid` parameter specified.");
    assert_eq!(modify_request(&Arg::Str("1".to_string()), true).unwrap_err(), "Argument `cid` is not an integer");
    assert_eq!(modify_request(&Arg::Int(6), false).unwrap_err(), "No `character` parameter specified.");
    assert_eq!(modify_request(&Arg::Int(6), true), Ok(6));
    assert_eq!(modified_actions(Err("No such character.".to_string())).unwrap_err(), "No such character.");
    let actions = modified_actions(Ok(named(6))).unwrap();
    assert_eq!(actions[0], Action::Join("character/6".to_string()));
}

#[test]
fn deliveries_follow_rooms() {
    let mut ws = WsHandlerImpl::new();
    let first = ws.deliver(1, connect_actions(1));
    assert_eq!(first.len(), 2);
    assert_eq!(first[0].sockets, vec![1]);
    assert_eq!(first[0].event, "connect");
    assert_eq!(first[0].payload, Payload::Id(1));
    assert!(first[1].sockets.is_empty());
    ws.deliver(2, connect_actions(2));
    let mut dice = ws.deliver(2, dice_actions(5));
    assert_eq!(dice.len(), 1);
    dice[0].sockets.sort();
    assert_eq!(dice[0].sockets, vec![1, 2]);
    let msg = ws.deliver(2, msg_actions(Arg::Str("dice".to_string()), Arg::Str("hello".to_string())).unwrap());
    assert_eq!(msg[0].sockets, vec![1]);
    let shown = ws.deliver(1, character_actions(4, Some(named(4))).unwrap());
    assert_eq!(shown[0].sockets, vec![1]);
    assert_eq!(shown[0].event, "character/update");
    assert!(ws.rooms.rooms.is_member("character/4", 1));
    ws.disconnect(1);
    let after = ws.deliver(2, dice_actions(6));
    assert_eq!(after[0].sockets, vec![2]);
    assert!(!ws.rooms.rooms.is_member("character/4", 1));
}
