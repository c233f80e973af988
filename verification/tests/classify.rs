use multi_log_reader::classify::{
    parse_keys, ClassifyError, DEFAULT_GUEST_CACHED, DEFAULT_GUEST_NAME, DEFAULT_LOCATION,
    DEFAULT_PVP_START_ROUND, DEFAULT_SLEEVE,
};
use multi_log_reader::message::{Action, Message, PlayerLocation, Sender};
use multi_log_reader::score::Score;

fn message(action: &str, fields: &[(&str, &str)]) -> Message {
    Message {
        sender: Sender::Client,
        action: action.to_string(),
        other: fields.iter().map(|(k, v)| (k.to_string(), v.to_string())).collect(),
        time: "12:00:00".to_string(),
    }
}

fn classify(action: &str, fields: &[(&str, &str)]) -> Result<Action, ClassifyError> {
    Action::from_message(message(action, fields))
}

fn missing(action: &str, field: &str) -> Result<Action, ClassifyError> {
    Err(ClassifyError::MissingField { action: action.to_string(), field: field.to_string() })
}

fn invalid(action: &str, field: &str) -> Result<Action, ClassifyError> {
    Err(ClassifyError::InvalidValue { action: action.to_string(), field: field.to_string() })
}

fn score(text: &str) -> Score {
    Score::parse(text).unwrap()
}

const LOBBY_OPTIONS: [(&str, &str); 13] = [
    ("different_decks", "true"),
    ("death_on_round_loss", "false"),
    ("pvp_start_round", "2"),
    ("stake", "1"),
    ("no_gold_on_round_loss", "false"),
    ("different_seeds", "true"),
    ("showdown_starting_antes", "3"),
    ("back", "Red Deck"),
    ("gold_on_life_loss", "true"),
    ("ruleset", "ruleset_mp_standard"),
    ("sleeve", "sleeve_casl_none"),
    ("starting_lives", "4"),
    ("multiplayer_jokers", "true"),
];

fn lobby_options_without(key: &str) -> Vec<(&'static str, &'static str)> {
    LOBBY_OPTIONS.iter().copied().filter(|(k, _)| *k != key).collect()
}

#[test]
fn actions_without_fields() {
    let table = [
        ("leaveLobby", Action::LeaveLobby),
        ("connected", Action::Connected),
        ("stopGame", Action::StopGame),
        ("speedrun", Action::Speedrun),
        ("version", Action::Version),
        ("getEndGameJokers", Action::GetEndGameJokers),
        ("newRound", Action::NewRound),
        ("soldJoker", Action::SoldJoker),
        ("readyBlind", Action::ReadyBlind),
        ("loseGame", Action::LoseGame),
        ("winGame", Action::WinGame),
        ("startBlind", Action::StartBlind),
        ("asteroid", Action::Asteroid),
        ("magnet", Action::Magnet),
    ];
    for (name, action) in table {
        assert_eq!(classify(name, &[]), Ok(action.clone()));
        assert_eq!(classify(name, &[("extra", "1")]), Ok(action));
    }
}

#[test]
fn actions_with_one_text_field() {
    let text = |s: &str| s.to_string();
    assert_eq!(
        classify("createLobby", &[("gameMode", "attrition")]),
        Ok(Action::CreateLobby { game_mode: text("attrition") })
    );
    assert_eq!(classify("joinLobby", &[("code", "AB12")]), Ok(Action::JoinLobby { code: text("AB12") }));
    assert_eq!(
        classify("magnetResponse", &[("key", "j_joker")]),
        Ok(Action::MagnetResponse { key: text("j_joker") })
    );
    assert_eq!(classify("usedCard", &[("card", "c_fool")]), Ok(Action::UsedCard { card: text("c_fool") }));
    assert_eq!(classify("soldCard", &[("card", "c_fool")]), Ok(Action::SoldCard { card: text("c_fool") }));
    assert_eq!(classify("startGame", &[("deck", "b_red")]), Ok(Action::StartGame { deck: text("b_red") }));
    assert_eq!(classify("createLobby", &[]), missing("createLobby", "gameMode"));
    assert_eq!(classify("joinLobby", &[("Code", "AB12")]), missing("joinLobby", "code"));
    assert_eq!(classify("magnetResponse", &[]), missing("magnetResponse", "key"));
    assert_eq!(classify("usedCard", &[]), missing("usedCard", "card"));
    assert_eq!(classify("soldCard", &[]), missing("soldCard", "card"));
    assert_eq!(classify("startGame", &[]), missing("startGame", "deck"));
}

#[test]
fn actions_with_one_small_integer() {
    assert_eq!(classify("moneyMoved", &[("amount", "-5")]), Ok(Action::MoneyMoved { amount: -5 }));
    assert_eq!(classify("spentLastShop", &[("amount", "12")]), Ok(Action::SpentLastShop { amount: 12 }));
    assert_eq!(classify("playerInfo", &[("lives", "4")]), Ok(Action::PlayerInfo { lives: 4 }));
    assert_eq!(classify("skip", &[("skips", "+3")]), Ok(Action::Skip { skips: 3 }));
    assert_eq!(classify("setAnte", &[("ante", "0")]), Ok(Action::SetAnte { ante: 0 }));
    assert_eq!(classify("setAnte", &[("ante", "127")]), Ok(Action::SetAnte { ante: 127 }));
    assert_eq!(classify("setAnte", &[("ante", "-128")]), Ok(Action::SetAnte { ante: -128 }));
    assert_eq!(classify("moneyMoved", &[]), missing("moneyMoved", "amount"));
    assert_eq!(classify("spentLastShop", &[]), missing("spentLastShop", "amount"));
    assert_eq!(classify("playerInfo", &[]), missing("playerInfo", "lives"));
    assert_eq!(classify("skip", &[]), missing("skip", "skips"));
    assert_eq!(classify("setAnte", &[]), missing("setAnte", "ante"));
}

#[test]
fn small_integer_out_of_range_is_an_error() {
    assert_eq!(classify("setAnte", &[("ante", "128")]), invalid("setAnte", "ante"));
    assert_eq!(classify("setAnte", &[("ante", "-129")]), invalid("setAnte", "ante"));
    assert_eq!(classify("setAnte", &[("ante", "300")]), invalid("setAnte", "ante"));
    assert_eq!(classify("setAnte", &[("ante", "1.5")]), invalid("setAnte", "ante"));
    assert_eq!(classify("setAnte", &[("ante", "")]), invalid("setAnte", "ante"));
    assert_eq!(classify("moneyMoved", &[("amount", "ten")]), invalid("moneyMoved", "amount"));
}

#[test]
fn actions_with_one_truth_value() {
    assert_eq!(classify("endPvP", &[("lost", "true")]), Ok(Action::EndPvP { lost: true }));
    assert_eq!(classify("endPvP", &[("lost", "false")]), Ok(Action::EndPvP { lost: false }));
    assert_eq!(classify("syncClient", &[("isCached", "true")]), Ok(Action::SyncClient { is_cached: true }));
    assert_eq!(classify("endPvP", &[]), missing("endPvP", "lost"));
    assert_eq!(classify("endPvP", &[("lost", "yes")]), invalid("endPvP", "lost"));
    assert_eq!(classify("syncClient", &[]), missing("syncClient", "isCached"));
    assert_eq!(classify("syncClient", &[("isCached", "TRUE")]), invalid("syncClient", "isCached"));
}

#[test]
fn username_and_joined_lobby() {
    assert_eq!(
        classify("username", &[("modHash", "abc"), ("username", "Guest")]),
        Ok(Action::Username { username: "Guest".to_string(), mod_hash: "abc".to_string() })
    );
    assert_eq!(classify("username", &[("modHash", "abc")]), missing("username", "username"));
    assert_eq!(classify("username", &[("username", "Guest")]), missing("username", "modHash"));
    assert_eq!(classify("username", &[]), missing("username", "username"));
    assert_eq!(
        classify("joinedLobby", &[("code", "AB12"), ("type", "attrition")]),
        Ok(Action::JoinedLobby { code: "AB12".to_string(), game_type: "attrition".to_string() })
    );
    assert_eq!(classify("joinedLobby", &[("type", "attrition")]), missing("joinedLobby", "code"));
    assert_eq!(classify("joinedLobby", &[("code", "AB12")]), missing("joinedLobby", "type"));
}

#[test]
fn play_hand_and_enemy_info() {
    assert_eq!(
        classify("playHand", &[("handsLeft", "3"), ("score", "123456789012345678901234567890")]),
        Ok(Action::PlayHand { hands_left: 3, score: score("123456789012345678901234567890") })
    );
    assert_eq!(classify("playHand", &[("score", "1")]), missing("playHand", "handsLeft"));
    assert_eq!(classify("playHand", &[("handsLeft", "x"), ("score", "y")]), invalid("playHand", "handsLeft"));
    assert_eq!(classify("playHand", &[("handsLeft", "3")]), missing("playHand", "score"));
    assert_eq!(classify("playHand", &[("handsLeft", "3"), ("score", "1e9")]), invalid("playHand", "score"));
    assert_eq!(
        classify("enemyInfo", &[("lives", "2"), ("skips", "1"), ("handsLeft", "3"), ("score", "1500")]),
        Ok(Action::EnemyInfo { lives: 2, skips: 1, hands_left: 3, score: score("1500") })
    );
    assert_eq!(classify("enemyInfo", &[("skips", "1")]), missing("enemyInfo", "lives"));
    assert_eq!(classify("enemyInfo", &[("lives", "2")]), missing("enemyInfo", "skips"));
    assert_eq!(classify("enemyInfo", &[("lives", "2"), ("skips", "1")]), missing("enemyInfo", "handsLeft"));
    assert_eq!(
        classify("enemyInfo", &[("lives", "2"), ("skips", "1"), ("handsLeft", "3")]),
        missing("enemyInfo", "score")
    );
    assert_eq!(
        classify("enemyInfo", &[("lives", "2"), ("skips", "1"), ("handsLeft", "3"), ("score", "")]),
        invalid("enemyInfo", "score")
    );
}

#[test]
fn score_is_held_in_plain_decimal() {
    assert_eq!(score("1500").to_text(), "1500");
    assert_eq!(score("+5").to_text(), "5");
    assert_eq!(score("0015").to_text(), "15");
    assert_eq!(score("-7").to_text(), "-7");
    assert_eq!(score("0015"), score("15"));
    assert!(Score::parse("").is_none());
    assert!(Score::parse("12a").is_none());
    assert!(Score::parse(" 12").is_none());
}

#[test]
fn known_location_codes() {
    assert_eq!(PlayerLocation::from_code("loc_playing-bl_small"), PlayerLocation::SmallBlind);
    assert_eq!(PlayerLocation::from_code("loc_playing-bl_big"), PlayerLocation::BigBlind);
    assert_eq!(PlayerLocation::from_code("loc_playing-mp_nemesis"), PlayerLocation::PvP);
    assert_eq!(PlayerLocation::from_code("loc_shop"), PlayerLocation::Shop);
    assert_eq!(PlayerLocation::from_code("loc_selecting"), PlayerLocation::Selecting);
}

#[test]
fn unknown_location_code_is_the_boss_blind() {
    assert_eq!(DEFAULT_LOCATION, PlayerLocation::BossBlind);
    assert_eq!(PlayerLocation::from_code("loc_unknown_thing"), PlayerLocation::BossBlind);
    assert_eq!(PlayerLocation::from_code(""), PlayerLocation::BossBlind);
    assert_eq!(PlayerLocation::from_code("loc_playing-bl_boss"), PlayerLocation::BossBlind);
}

#[test]
fn location_of_either_player() {
    assert_eq!(
        classify("setLocation", &[("location", "loc_playing-bl_small")]),
        Ok(Action::SetLocation { location: PlayerLocation::SmallBlind, user: Sender::Client })
    );
    assert_eq!(
        classify("enemyLocation", &[("location", "loc_shop")]),
        Ok(Action::SetLocation { location: PlayerLocation::Shop, user: Sender::Enemy })
    );
    assert_eq!(
        classify("enemyLocation", &[("location", "loc_unknown_thing")]),
        Ok(Action::SetLocation { location: PlayerLocation::BossBlind, user: Sender::Enemy })
    );
    assert_eq!(classify("setLocation", &[]), missing("setLocation", "location"));
    assert_eq!(classify("enemyLocation", &[]), missing("enemyLocation", "location"));
}

#[test]
fn lobby_options_with_empty_field_map_is_empty_option() {
    assert_eq!(classify("lobbyOptions", &[]), Ok(Action::EmptyOption));
    assert_eq!(classify("lobbyInfo", &[]), Ok(Action::EmptyOption));
}

#[test]
fn lobby_info_with_and_without_guest() {
    assert_eq!(
        classify(
            "lobbyInfo",
            &[("hostCached", "true"), ("isHost", "false"), ("host", "Ann"), ("guest", "Bob"), ("guestCached", "true")]
        ),
        Ok(Action::LobbyInfo {
            host_cached: true,
            is_host: false,
            host_name: "Ann".to_string(),
            guest_name: "Bob".to_string(),
            guest_cached: true,
        })
    );
    assert_eq!(
        classify("lobbyInfo", &[("hostCached", "true"), ("isHost", "true"), ("host", "Ann")]),
        Ok(Action::LobbyInfo {
            host_cached: true,
            is_host: true,
            host_name: "Ann".to_string(),
            guest_name: DEFAULT_GUEST_NAME.to_string(),
            guest_cached: DEFAULT_GUEST_CACHED,
        })
    );
    assert_eq!(DEFAULT_GUEST_NAME, "");
    assert!(!DEFAULT_GUEST_CACHED);
}

#[test]
fn lobby_info_errors_come_in_the_order_of_the_rule() {
    assert_eq!(classify("lobbyInfo", &[("x", "y")]), missing("lobbyInfo", "hostCached"));
    assert_eq!(
        classify("lobbyInfo", &[("hostCached", "true"), ("guestCached", "maybe")]),
        invalid("lobbyInfo", "guestCached")
    );
    assert_eq!(classify("lobbyInfo", &[("hostCached", "true")]), missing("lobbyInfo", "isHost"));
    assert_eq!(
        classify("lobbyInfo", &[("hostCached", "true"), ("isHost", "true")]),
        missing("lobbyInfo", "host")
    );
    assert_eq!(
        classify("lobbyInfo", &[("hostCached", "1"), ("isHost", "2")]),
        invalid("lobbyInfo", "hostCached")
    );
}

#[test]
fn lobby_options_in_full() {
    assert_eq!(
        classify("lobbyOptions", &LOBBY_OPTIONS),
        Ok(Action::LobbyOptions {
            different_decks: true,
            death_on_round_loss: false,
            pvp_start_round: 2,
            stake: 1,
            no_gold_on_round_loss: false,
            different_seeds: true,
            showdown_starting_antes: 3,
            back: "Red Deck".to_string(),
            gold_on_life_loss: true,
            ruleset: "ruleset_mp_standard".to_string(),
            sleeve: "sleeve_casl_none".to_string(),
            starting_lives: 4,
            multiplayer_jokers: true,
        })
    );
}

#[test]
fn lobby_options_defaults() {
    let fields: Vec<(&str, &str)> =
        LOBBY_OPTIONS.iter().copied().filter(|(k, _)| *k != "sleeve" && *k != "pvp_start_round").collect();
    match classify("lobbyOptions", &fields) {
        Ok(Action::LobbyOptions { pvp_start_round, sleeve, stake, .. }) => {
            assert_eq!(pvp_start_round, DEFAULT_PVP_START_ROUND);
            assert_eq!(sleeve, DEFAULT_SLEEVE);
            assert_eq!(stake, 1);
        }
        other => panic!("{:?}", other),
    }
    assert_eq!(DEFAULT_PVP_START_ROUND, 0);
    assert_eq!(DEFAULT_SLEEVE, "");
}

#[test]
fn lobby_options_each_required_field() {
    for (key, _) in LOBBY_OPTIONS {
        let got = classify("lobbyOptions", &lobby_options_without(key));
        if key == "sleeve" || key == "pvp_start_round" {
            assert!(got.is_ok(), "{}", key);
        } else {
            assert_eq!(got, missing("lobbyOptions", key));
        }
    }
}

#[test]
fn lobby_options_first_offending_field_is_reported() {
    let mut fields = lobby_options_without("stake");
    fields.retain(|(k, _)| *k != "ruleset");
    assert_eq!(classify("lobbyOptions", &fields), missing("lobbyOptions", "stake"));
    let mut fields = lobby_options_without("pvp_start_round");
    fields.push(("pvp_start_round", "soon"));
    fields.retain(|(k, _)| *k != "stake");
    assert_eq!(classify("lobbyOptions", &fields), invalid("lobbyOptions", "pvp_start_round"));
    let mut fields = lobby_options_without("multiplayer_jokers");
    fields.push(("multiplayer_jokers", "1"));
    assert_eq!(classify("lobbyOptions", &fields), invalid("lobbyOptions", "multiplayer_jokers"));
}

#[test]
fn unknown_action_is_unsupported() {
    assert_eq!(classify("frobnicate", &[]), Ok(Action::Unsupported));
    assert_eq!(classify("frobnicate", &[("a", "b")]), Ok(Action::Unsupported));
    assert_eq!(classify("JoinLobby", &[("code", "AB12")]), Ok(Action::Unsupported));
    assert_eq!(classify("", &[]), Ok(Action::Unsupported));
}

#[test]
fn end_game_jokers_drop_empty_segments() {
    assert_eq!(
        classify("recieveEndGameJokers", &[("keys", "j1;j2;;j3")]),
        Ok(Action::ReceiveEndGameJokers {
            keys: vec!["j1".to_string(), "j2".to_string(), "j3".to_string()],
            seed: None,
        })
    );
    assert_eq!(
        classify("recieveEndGameJokers", &[("keys", ";a;a;"), ("seed", "XYZ")]),
        Ok(Action::ReceiveEndGameJokers {
            keys: vec!["a".to_string(), "a".to_string()],
            seed: Some("XYZ".to_string()),
        })
    );
    assert_eq!(classify("recieveEndGameJokers", &[]), missing("recieveEndGameJokers", "keys"));
}

#[test]
fn parse_keys_keeps_order_and_repeats() {
    assert_eq!(parse_keys("b;a;b"), vec!["b", "a", "b"]);
    assert_eq!(parse_keys(""), Vec::<String>::new());
    assert_eq!(parse_keys(";;"), Vec::<String>::new());
    assert_eq!(parse_keys("one"), vec!["one"]);
}

#[test]
fn classification_ignores_field_order_sender_and_time() {
    let a = message("joinedLobby", &[("code", "AB12"), ("type", "attrition")]);
    let mut b = message("joinedLobby", &[("type", "attrition"), ("code", "AB12")]);
    b.sender = Sender::Enemy;
    b.time = "23:59:59".to_string();
    assert_eq!(Action::from_message(a.clone()), Action::from_message(b));
    assert_eq!(Action::from_message(a.clone()), Action::from_message(a));
}

#[test]
fn later_entry_of_a_key_counts() {
    assert_eq!(
        classify("setAnte", &[("ante", "x"), ("ante", "3")]),
        Ok(Action::SetAnte { ante: 3 })
    );
    assert_eq!(classify("setAnte", &[("ante", "3"), ("ante", "x")]), invalid("setAnte", "ante"));
}

#[test]
fn errors_are_described_in_a_line() {
    let missing = ClassifyError::MissingField { action: "setAnte".to_string(), field: "ante".to_string() };
    let invalid = ClassifyError::InvalidValue { action: "setAnte".to_string(), field: "ante".to_string() };
    assert_eq!(missing.describe(), "Malformed setAnte message: missing field ante");
    assert_eq!(invalid.describe(), "Malformed setAnte message: invalid value for field ante");
}
