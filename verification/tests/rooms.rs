use whist_browser::network::game::GameCreateRequest;
use whist_browser::network::game::GameCreateResponse;
use whist_browser::network::game::GameJoinRequest;
use whist_browser::network::game::GameJoinResponse;
use whist_browser::network::game::GameJoinStatus;
use whist_browser::network::game::GameListResponse;
use whist_browser::network::game::GameReconnectResponse;
use whist_browser::network::plugin::NetworkCommand;
use whist_browser::network::server_connection::RequestError;
use whist_browser::network::server_service::GameCreateResult;
use whist_browser::network::server_service::GameJoinResult;
use whist_browser::network::server_service::GameListResult;
use whist_browser::network::server_service::GameReconnectResult;
use whist_browser::rooms::game_to_string;
use whist_browser::rooms::normalize_password;
use whist_browser::rooms::RoomError;
use whist_browser::rooms::RoomMenuEvent;
use whist_browser::rooms::RoomResult;
use whist_browser::rooms::RoomStatus;
use whist_browser::rooms::Step;
use whist_browser::rooms::UiState;
use whist_browser::GameState;

fn stay() -> Step {
    Step {
        command: None,
        next_state: None,
        room_id: None,
    }
}

fn lobby(room_id: Option<&str>) -> Step {
    Step {
        command: None,
        next_state: Some(GameState::RoomLobby),
        room_id: room_id.map(|id| id.to_string()),
    }
}

fn reconnect(status: GameJoinStatus, password: Option<bool>, room_id: Option<&str>) -> RoomResult {
    RoomResult::Reconnect(GameReconnectResult(Ok(GameReconnectResponse {
        status,
        password,
        room_id: room_id.map(|id| id.to_string()),
    })))
}

fn listed(rooms: &[&str]) -> UiState {
    let (mut ui, _) = UiState::add_ui_state();
    ui.update_ui_state(RoomResult::List(GameListResult(Ok(GameListResponse {
        rooms: rooms.iter().map(|id| id.to_string()).collect(),
    }))));
    ui
}

#[test]
fn entering_the_menu_probes_once_for_an_earlier_membership() {
    let (ui, command) = UiState::add_ui_state();
    assert_eq!(command, NetworkCommand::GameReconnect);
    assert_eq!(ui.room_status, RoomStatus::Loading);
    assert_eq!(ui.games, Vec::<String>::new());
    assert_eq!(ui.selected, None);
    assert_eq!(ui.name, "");
    assert_eq!(ui.password, "");
    assert!(ui.enable_label());
    assert!(!ui.enable_reload_button());
}

#[test]
fn a_protected_room_that_was_joined_before_opens_the_join_window_on_that_room() {
    let (mut ui, _) = UiState::add_ui_state();
    let step = ui.update_ui_state(reconnect(
        GameJoinStatus::AlreadyJoined,
        Some(true),
        Some("room-7"),
    ));
    assert_eq!(step, stay());
    assert_eq!(ui.room_status, RoomStatus::JoinWindow);
    assert_eq!(ui.selected, Some("room-7".to_string()));
    ui.room_menu(RoomMenuEvent::EditPassword("secret".to_string()));
    let command = ui.room_menu(RoomMenuEvent::Confirm);
    assert_eq!(
        command,
        Some(NetworkCommand::GameJoin(
            "room-7".to_string(),
            GameJoinRequest {
                password: Some("secret".to_string())
            }
        ))
    );
    assert_eq!(ui.room_status, RoomStatus::Joining);
}

#[test]
fn a_room_that_was_joined_before_and_needs_no_password_leads_to_its_lobby() {
    let (mut ui, _) = UiState::add_ui_state();
    let step = ui.update_ui_state(reconnect(GameJoinStatus::AlreadyJoined, None, Some("r")));
    assert_eq!(step, lobby(Some("r")));
    assert_eq!(ui.room_status, RoomStatus::Loading);
    let (mut ui, _) = UiState::add_ui_state();
    let step = ui.update_ui_state(reconnect(GameJoinStatus::Joined, Some(false), Some("r")));
    assert_eq!(step, lobby(Some("r")));
    assert_eq!(ui.selected, None);
}

#[test]
fn without_an_earlier_membership_the_rooms_are_asked_for() {
    let (mut ui, _) = UiState::add_ui_state();
    let step = ui.update_ui_state(reconnect(GameJoinStatus::NotJoined, Some(true), Some("r")));
    assert_eq!(
        step,
        Step {
            command: Some(NetworkCommand::GetGameList),
            next_state: None,
            room_id: None
        }
    );
    assert_eq!(ui.room_status, RoomStatus::Loading);
    assert_eq!(ui.selected, None);
}

#[test]
fn a_failed_reply_shows_its_error() {
    let (mut ui, _) = UiState::add_ui_state();
    let step = ui.update_ui_state(RoomResult::Reconnect(GameReconnectResult(Err(
        RequestError::Timeout,
    ))));
    assert_eq!(step, stay());
    assert_eq!(
        ui.room_status,
        RoomStatus::Error(RoomError::Request(RequestError::Timeout))
    );
    assert!(ui.enable_label());
    assert!(ui.enable_reload_button());
    let step = ui.update_ui_state(RoomResult::List(GameListResult(Err(
        RequestError::Status(500, None),
    ))));
    assert_eq!(step, stay());
    assert_eq!(
        ui.room_status,
        RoomStatus::Error(RoomError::Request(RequestError::Status(500, None)))
    );
}

#[test]
fn the_list_of_rooms_is_shown_as_it_came() {
    let ui = listed(&["b", "a"]);
    assert_eq!(ui.room_status, RoomStatus::Loaded);
    assert_eq!(ui.games, vec!["b".to_string(), "a".to_string()]);
    assert!(!ui.enable_label());
    assert!(ui.enable_reload_button());
    assert!(ui.enable_create_button());
    assert!(!ui.enable_join_button());
    assert_eq!(game_to_string("a"), "Game: a");
    assert_eq!(game_to_string(""), "Game: ");
}

#[test]
fn reloading_asks_for_the_rooms_again() {
    let mut ui = listed(&["a"]);
    assert_eq!(
        ui.room_menu(RoomMenuEvent::Reload),
        Some(NetworkCommand::GetGameList)
    );
    assert_eq!(ui.room_status, RoomStatus::Loading);
    assert_eq!(ui.room_menu(RoomMenuEvent::Reload), None);
    assert_eq!(ui.room_menu(RoomMenuEvent::Create), None);
    assert_eq!(ui.room_menu(RoomMenuEvent::Select("a".to_string())), None);
    assert_eq!(ui.selected, None);
    assert_eq!(ui.room_status, RoomStatus::Loading);
}

#[test]
fn joining_a_room_without_a_password_sends_none() {
    let mut ui = listed(&["a", "b"]);
    assert_eq!(ui.room_menu(RoomMenuEvent::Join), None);
    assert_eq!(ui.room_status, RoomStatus::Loaded);
    ui.room_menu(RoomMenuEvent::Select("b".to_string()));
    assert!(ui.enable_join_button());
    assert_eq!(ui.room_menu(RoomMenuEvent::Join), None);
    assert_eq!(ui.room_status, RoomStatus::JoinWindow);
    assert!(ui.enable_join_create_button());
    assert!(ui.enable_cancel_button());
    assert!(!ui.enable_reload_button());
    let command = ui.room_menu(RoomMenuEvent::Confirm);
    assert_eq!(
        command,
        Some(NetworkCommand::GameJoin(
            "b".to_string(),
            GameJoinRequest { password: None }
        ))
    );
    assert_eq!(ui.room_status, RoomStatus::Joining);
    assert!(!ui.enable_join_create_button());
    assert!(!ui.enable_cancel_button());
    assert_eq!(ui.room_menu(RoomMenuEvent::Confirm), None);
    assert_eq!(ui.room_menu(RoomMenuEvent::Cancel), None);
    assert_eq!(ui.room_status, RoomStatus::Joining);
    let step = ui.update_ui_state(RoomResult::Join(GameJoinResult(Ok(GameJoinResponse {
        status: GameJoinStatus::Joined,
    }))));
    assert_eq!(step, lobby(Some("b")));
}

#[test]
fn a_join_that_the_server_did_not_take_is_an_error() {
    let mut ui = listed(&["a"]);
    ui.room_menu(RoomMenuEvent::Select("a".to_string()));
    ui.room_menu(RoomMenuEvent::Join);
    ui.room_menu(RoomMenuEvent::Confirm);
    let step = ui.update_ui_state(RoomResult::Join(GameJoinResult(Ok(GameJoinResponse {
        status: GameJoinStatus::NotJoined,
    }))));
    assert_eq!(step, stay());
    assert_eq!(ui.room_status, RoomStatus::Error(RoomError::NotJoined));
    let mut ui = listed(&["a"]);
    ui.room_menu(RoomMenuEvent::Select("a".to_string()));
    ui.room_menu(RoomMenuEvent::Join);
    ui.room_menu(RoomMenuEvent::Confirm);
    let step = ui.update_ui_state(RoomResult::Join(GameJoinResult(Err(
        RequestError::Status(403, Some("wrong password".to_string())),
    ))));
    assert_eq!(step, stay());
    assert_eq!(
        ui.room_status,
        RoomStatus::Error(RoomError::Request(RequestError::Status(
            403,
            Some("wrong password".to_string())
        )))
    );
}

#[test]
fn creating_a_room_needs_a_name_and_sends_the_password_only_where_one_is_given() {
    let mut ui = listed(&[]);
    assert_eq!(ui.room_menu(RoomMenuEvent::Create), None);
    assert_eq!(ui.room_status, RoomStatus::CreateWindow);
    assert!(!ui.enable_join_create_button());
    assert_eq!(ui.room_menu(RoomMenuEvent::Confirm), None);
    assert_eq!(ui.room_status, RoomStatus::CreateWindow);
    ui.room_menu(RoomMenuEvent::EditName("asdf".to_string()));
    assert!(ui.enable_join_create_button());
    let command = ui.room_menu(RoomMenuEvent::Confirm);
    assert_eq!(
        command,
        Some(NetworkCommand::GameCreate(GameCreateRequest {
            game_name: "asdf".to_string(),
            password: None,
            min_player: None,
            max_player: None,
        }))
    );
    assert_eq!(ui.room_status, RoomStatus::CreatingAndJoining);
    let step = ui.update_ui_state(RoomResult::Create(GameCreateResult(Ok(
        GameCreateResponse {
            game_id: "9".to_string(),
        },
    ))));
    assert_eq!(step, lobby(Some("9")));

    let mut ui = listed(&[]);
    ui.room_menu(RoomMenuEvent::Create);
    ui.room_menu(RoomMenuEvent::EditName("asdf".to_string()));
    ui.room_menu(RoomMenuEvent::EditPassword(
        "12345_is_a_bad_password".to_string(),
    ));
    let command = ui.room_menu(RoomMenuEvent::Confirm);
    assert_eq!(
        command,
        Some(NetworkCommand::GameCreate(GameCreateRequest {
            game_name: "asdf".to_string(),
            password: Some("12345_is_a_bad_password".to_string()),
            min_player: None,
            max_player: None,
        }))
    );
    let step = ui.update_ui_state(RoomResult::Create(GameCreateResult(Err(
        RequestError::Decode("no json".to_string()),
    ))));
    assert_eq!(step, stay());
    assert_eq!(
        ui.room_status,
        RoomStatus::Error(RoomError::Request(RequestError::Decode(
            "no json".to_string()
        )))
    );
}

#[test]
fn cancelling_closes_the_window_and_empties_its_fields() {
    let mut ui = listed(&["a"]);
    ui.room_menu(RoomMenuEvent::Select("a".to_string()));
    ui.room_menu(RoomMenuEvent::Create);
    ui.room_menu(RoomMenuEvent::EditName("n".to_string()));
    ui.room_menu(RoomMenuEvent::EditPassword("p".to_string()));
    assert_eq!(ui.name, "n");
    assert_eq!(ui.password, "p");
    assert_eq!(ui.room_menu(RoomMenuEvent::Cancel), None);
    assert_eq!(ui.room_status, RoomStatus::Loaded);
    assert_eq!(ui.name, "");
    assert_eq!(ui.password, "");
    assert_eq!(ui.selected, Some("a".to_string()));
    assert_eq!(ui.games, vec!["a".to_string()]);
    assert_eq!(ui.room_menu(RoomMenuEvent::Cancel), None);
    assert_eq!(ui.room_status, RoomStatus::Loaded);
}

#[test]
fn fields_that_are_not_on_screen_cannot_be_edited() {
    let mut ui = listed(&["a"]);
    ui.room_menu(RoomMenuEvent::EditName("n".to_string()));
    ui.room_menu(RoomMenuEvent::EditPassword("p".to_string()));
    assert_eq!(ui.name, "");
    assert_eq!(ui.password, "");
    ui.room_menu(RoomMenuEvent::Select("a".to_string()));
    ui.room_menu(RoomMenuEvent::Join);
    ui.room_menu(RoomMenuEvent::EditName("n".to_string()));
    assert_eq!(ui.name, "");
}

#[test]
fn an_empty_password_is_no_password() {
    assert_eq!(normalize_password(&String::new()), None);
    assert_eq!(
        normalize_password(&" ".to_string()),
        Some(" ".to_string())
    );
    assert_eq!(
        normalize_password(&"pw".to_string()),
        Some("pw".to_string())
    );
}

#[test]
fn reset_goes_back_to_the_list() {
    let mut ui = listed(&["a"]);
    ui.room_menu(RoomMenuEvent::Create);
    ui.room_menu(RoomMenuEvent::EditName("n".to_string()));
    ui.reset();
    assert_eq!(ui.room_status, RoomStatus::Loaded);
    assert_eq!(ui.name, "");
    assert!(!ui.main_interaction_blocked());
    assert!(!ui.window_interaction_blocked());
}
