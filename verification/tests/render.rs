use multi_log_reader::classify::ClassifyError;
use multi_log_reader::message::{Action, Message, PlayerLocation, Sender};
use multi_log_reader::message_interpret::{interpret_message, render, LOWEST_ANTE_SHOWN};
use multi_log_reader::score::Score;
use multi_log_reader::text::{i8_text, join};

fn text(s: &str) -> String {
    s.to_string()
}

fn score(s: &str) -> Score {
    Score::parse(s).unwrap()
}

fn message(action: &str, fields: &[(&str, &str)]) -> Message {
    Message {
        sender: Sender::Enemy,
        action: action.to_string(),
        other: fields.iter().map(|(k, v)| (k.to_string(), v.to_string())).collect(),
        time: "12:00:00".to_string(),
    }
}

#[test]
fn lines_of_actions_without_fields() {
    let table = [
        (Action::Unsupported, "Unsupported Action"),
        (Action::EmptyOption, "Empty Options"),
        (Action::Connected, "Connected to servers"),
        (Action::Version, "Checked version"),
        (Action::LeaveLobby, "Left lobby"),
        (Action::NewRound, "New Round Started"),
        (Action::SoldJoker, "Sold a joker"),
        (Action::ReadyBlind, "Readied up for PvP"),
        (Action::Speedrun, "Speedrun active!"),
        (Action::StartBlind, "PvP Blind started"),
        (Action::LoseGame, "You lost!"),
        (Action::WinGame, "You won!"),
        (Action::GetEndGameJokers, "Getting end-game jokers..."),
        (Action::StopGame, "Game Stopped"),
        (Action::Asteroid, "Sent an asteroid!"),
        (Action::Magnet, "Sold magnet"),
    ];
    for (action, line) in table {
        assert_eq!(render(&action), line);
    }
}

#[test]
fn lines_of_actions_with_text() {
    assert_eq!(
        render(&Action::Username { username: text("Guest"), mod_hash: text("abc") }),
        "Set username to Guest"
    );
    assert_eq!(render(&Action::CreateLobby { game_mode: text("attrition") }), "Created attrition game");
    assert_eq!(
        render(&Action::JoinedLobby { code: text("AB12"), game_type: text("attrition") }),
        "Joined attrition game with code AB12"
    );
    assert_eq!(render(&Action::JoinLobby { code: text("AB12") }), "Entered lobby code AB12");
    assert_eq!(render(&Action::StartGame { deck: text("b_red") }), "Game started");
    assert_eq!(render(&Action::SoldCard { card: text("c_fool") }), "Sold c_fool");
    assert_eq!(render(&Action::UsedCard { card: text("c_fool") }), "Card used: c_fool");
    assert_eq!(render(&Action::MagnetResponse { key: text("j_joker") }), "Sent card for magnet: j_joker");
}

#[test]
fn lines_of_actions_with_numbers_and_truth_values() {
    assert_eq!(render(&Action::SyncClient { is_cached: true }), "Client synced, is cached.");
    assert_eq!(render(&Action::SyncClient { is_cached: false }), "Client synced, isn't cached.");
    assert_eq!(render(&Action::PlayerInfo { lives: 4 }), "Client has 4 lives");
    assert_eq!(render(&Action::PlayerInfo { lives: -128 }), "Client has -128 lives");
    assert_eq!(
        render(&Action::PlayHand { hands_left: 3, score: score("123456789012345678901234567890") }),
        "Hand played; 3 hands left, 123456789012345678901234567890 current score"
    );
    assert_eq!(render(&Action::MoneyMoved { amount: -5 }), "Money moved: $-5");
    assert_eq!(render(&Action::SpentLastShop { amount: 12 }), "Enemy spent $12 last shop");
    assert_eq!(render(&Action::EndPvP { lost: true }), "lost match");
    assert_eq!(render(&Action::EndPvP { lost: false }), "won match");
    assert_eq!(render(&Action::Skip { skips: 100 }), "Skipped, curr skips is 100");
}

#[test]
fn enemy_info_line() {
    assert_eq!(
        render(&Action::EnemyInfo { lives: 2, skips: 1, hands_left: 3, score: score("1500") }),
        "Enemy has 2 lives, has used 1 skips, has 3 hands left, and has scored 1500"
    );
}

#[test]
fn ante_is_shown_from_one() {
    assert_eq!(LOWEST_ANTE_SHOWN, 1);
    assert_eq!(render(&Action::SetAnte { ante: 0 }), "Ante is now 1");
    assert_eq!(render(&Action::SetAnte { ante: -5 }), "Ante is now 1");
    assert_eq!(render(&Action::SetAnte { ante: -128 }), "Ante is now 1");
    assert_eq!(render(&Action::SetAnte { ante: 1 }), "Ante is now 1");
    assert_eq!(render(&Action::SetAnte { ante: 2 }), "Ante is now 2");
    assert_eq!(render(&Action::SetAnte { ante: 127 }), "Ante is now 127");
}

#[test]
fn location_line_names_player_and_place() {
    let places = [
        PlayerLocation::SmallBlind,
        PlayerLocation::BigBlind,
        PlayerLocation::BossBlind,
        PlayerLocation::PvP,
        PlayerLocation::Shop,
        PlayerLocation::Selecting,
    ];
    for user in [Sender::Client, Sender::Enemy] {
        for location in places {
            assert_eq!(
                render(&Action::SetLocation { location, user }),
                format!("{:?} is currently at {:?}", user, location)
            );
        }
    }
    assert_eq!(
        render(&Action::SetLocation { location: PlayerLocation::PvP, user: Sender::Enemy }),
        "Enemy is currently at PvP"
    );
}

#[test]
fn end_game_jokers_line() {
    let keys = vec![text("j1"), text("j2"), text("j3")];
    assert_eq!(
        render(&Action::ReceiveEndGameJokers { keys: keys.clone(), seed: None }),
        "Sent Jokers: j1 j2 j3"
    );
    assert_eq!(
        render(&Action::ReceiveEndGameJokers { keys, seed: Some(text("XYZ")) }),
        "Sent Jokers: j1 j2 j3, Seed is XYZ"
    );
    assert_eq!(render(&Action::ReceiveEndGameJokers { keys: vec![], seed: None }), "Sent Jokers: ");
}

#[test]
fn lobby_info_line_is_a_structural_dump() {
    let action = Action::LobbyInfo {
        host_cached: true,
        is_host: false,
        host_name: text("Ann \"the\" host\t\u{a0}\u{e9}"),
        guest_name: text(""),
        guest_cached: false,
    };
    assert_eq!(render(&action), format!("Lobby info: {:#?}", action));
    let plain = Action::LobbyInfo {
        host_cached: false,
        is_host: true,
        host_name: text("Ann"),
        guest_name: text("Bob"),
        guest_cached: true,
    };
    assert_eq!(
        render(&plain),
        "Lobby info: LobbyInfo {\n    host_cached: false,\n    is_host: true,\n    host_name: \"Ann\",\n    guest_name: \"Bob\",\n    guest_cached: true,\n}"
    );
}

#[test]
fn lobby_options_line_is_a_structural_dump() {
    let action = Action::LobbyOptions {
        different_decks: true,
        death_on_round_loss: false,
        pvp_start_round: 2,
        stake: -1,
        no_gold_on_round_loss: false,
        different_seeds: true,
        showdown_starting_antes: 3,
        back: text("Red Deck"),
        gold_on_life_loss: true,
        ruleset: text("ruleset_mp_standard"),
        sleeve: text(""),
        starting_lives: 127,
        multiplayer_jokers: true,
    };
    assert_eq!(render(&action), format!("Lobby config: {:#?}", action));
}

#[test]
fn rendering_twice_gives_the_same_line() {
    let action = Action::EnemyInfo { lives: 2, skips: 1, hands_left: 3, score: score("1500") };
    assert_eq!(render(&action), render(&action));
    assert_eq!(render(&action), render(&action.clone()));
}

#[test]
fn small_integers_are_written_as_std_writes_them() {
    for n in i8::MIN..=i8::MAX {
        assert_eq!(i8_text(n), n.to_string());
    }
}

#[test]
fn join_puts_the_separator_between() {
    assert_eq!(join(&vec![text("a"), text(""), text("b")], ", "), "a, , b");
    assert_eq!(join(&vec![text("a")], ", "), "a");
    assert_eq!(join(&vec![], ", "), "");
}

#[test]
fn client_line_from_log_to_text() {
    let line = "12:00:01 [LOG] Client sent message: action:joinLobby,code:AB12";
    let m = Message::from_line(line).unwrap();
    assert_eq!(interpret_message(m), Ok(text("Entered lobby code AB12")));
}

#[test]
fn enemy_line_from_log_to_text() {
    let line = "12:00:05 [LOG] Client got enemyInfo message: (action: enemyInfo) (lives: 2) (skips: 1) (handsLeft: 3) (score: 1500)";
    let m = Message::from_line(line).unwrap();
    assert_eq!(
        interpret_message(m),
        Ok(text("Enemy has 2 lives, has used 1 skips, has 3 hands left, and has scored 1500"))
    );
}

#[test]
fn empty_lobby_options_from_message_to_text() {
    assert_eq!(interpret_message(message("lobbyOptions", &[])), Ok(text("Empty Options")));
    assert_eq!(interpret_message(message("lobbyInfo", &[])), Ok(text("Empty Options")));
}

#[test]
fn unknown_action_from_message_to_text() {
    assert_eq!(interpret_message(message("frobnicate", &[])), Ok(text("Unsupported Action")));
}

#[test]
fn malformed_message_gives_the_error() {
    assert_eq!(
        interpret_message(message("setAnte", &[])),
        Err(ClassifyError::MissingField { action: text("setAnte"), field: text("ante") })
    );
    assert_eq!(
        interpret_message(message("setAnte", &[("ante", "high")])),
        Err(ClassifyError::InvalidValue { action: text("setAnte"), field: text("ante") })
    );
}

#[test]
fn whole_log_to_transcript() {
    let log = "12:00:01 [LOG] Client sent message: action:joinLobby,code:AB12\n\
        12:00:02 [LOG] Client got joinedLobby message: (action: joinedLobby) (code: AB12) (type: attrition)\n\
        12:00:03 [LOG] Client sent message: action:setLocation,location:loc_playing-bl_small\n\
        12:00:04 [LOG] Client got x message: (action: frobnicate)\n";
    let lines: Vec<String> = Message::messages_from_string(log.to_string())
        .into_iter()
        .map(|m| format!("{}) {}", m.time, interpret_message(m.clone()).unwrap()))
        .collect();
    assert_eq!(
        lines,
        vec![
            "12:00:01) Entered lobby code AB12",
            "12:00:02) Joined attrition game with code AB12",
            "12:00:03) Client is currently at SmallBlind",
            "12:00:04) Unsupported Action",
        ]
    );
}
