//! The readable line that stands for each action.
use crate::classify::{classify_spec, text_outcome, ClassifyError, Field, Fields};
use crate::message::{Action, ActionView, Message, PlayerLocation, Sender};
use crate::text::{bool_text, i8_text, int_decimal, join, join_spec};
use vstd::prelude::*;

verus! {

/// `text` as the `Debug` format of a string prints it: between double
/// quotes, with the characters that need it escaped.
pub uninterp spec fn debug_quoted(text: Seq<char>) -> Seq<char>;

/// The `Debug` format of `str`, through `format!`. What it prints depends on
/// the characters of `text` alone, and the contract only gives it its name.
#[verifier::external_body]
fn debug_text(text: &str) -> (quoted: String)
    ensures
        quoted@ == debug_quoted(text@),
{
    format!("{:?}", text)
}

/// The name of a sender.
pub open spec fn sender_name(sender: Sender) -> Seq<char> {
    match sender {
        Sender::Client => "Client"@,
        Sender::Enemy => "Enemy"@,
    }
}

/// The name of a location.
pub open spec fn location_name(location: PlayerLocation) -> Seq<char> {
    match location {
        PlayerLocation::SmallBlind => "SmallBlind"@,
        PlayerLocation::BigBlind => "BigBlind"@,
        PlayerLocation::BossBlind => "BossBlind"@,
        PlayerLocation::PvP => "PvP"@,
        PlayerLocation::Shop => "Shop"@,
        PlayerLocation::Selecting => "Selecting"@,
    }
}

impl Sender {
    /// The sender's name.
    pub fn name(&self) -> (s: &'static str)
        ensures
            s@ == sender_name(*self),
    {
        match self {
            Sender::Client => "Client",
            Sender::Enemy => "Enemy",
        }
    }
}

impl PlayerLocation {
    /// The location's name.
    pub fn name(&self) -> (s: &'static str)
        ensures
            s@ == location_name(*self),
    {
        match self {
            PlayerLocation::SmallBlind => "SmallBlind",
            PlayerLocation::BigBlind => "BigBlind",
            PlayerLocation::BossBlind => "BossBlind",
            PlayerLocation::PvP => "PvP",
            PlayerLocation::Shop => "Shop",
            PlayerLocation::Selecting => "Selecting",
        }
    }
}

/// The floor under the ante that is shown.
pub const LOWEST_ANTE_SHOWN: i8 = 1;

/// The ante as it is shown: never under the floor.
pub open spec fn ante_shown(ante: i8) -> i8 {
    if ante < LOWEST_ANTE_SHOWN {
        LOWEST_ANTE_SHOWN
    } else {
        ante
    }
}

/// One line of a structural dump: the field's name and its value, indented.
pub open spec fn dump_field(name: Seq<char>, value: Seq<char>) -> Seq<char> {
    "    "@ + name + ": "@ + value + ",\n"@
}

/// The structural dump of a lobby's state: the variant's name and, line by
/// line, each field as its `Debug` format prints it.
pub open spec fn lobby_info_dump(
    host_cached: bool,
    is_host: bool,
    host_name: Seq<char>,
    guest_name: Seq<char>,
    guest_cached: bool,
) -> Seq<char> {
    "LobbyInfo {\n"@ + dump_field("host_cached"@, bool_text(host_cached)) + dump_field(
        "is_host"@,
        bool_text(is_host),
    ) + dump_field("host_name"@, debug_quoted(host_name)) + dump_field(
        "guest_name"@,
        debug_quoted(guest_name),
    ) + dump_field("guest_cached"@, bool_text(guest_cached)) + "}"@
}

fn bool_str(b: bool) -> (s: &'static str)
    ensures
        s@ == bool_text(b),
{
    if b {
        "true"
    } else {
        "false"
    }
}

fn push_field(out: &mut String, name: &str, value: &str)
    ensures
        final(out)@ == old(out)@ + dump_field(name@, value@),
{
    out.append("    ");
    out.append(name);
    out.append(": ");
    out.append(value);
    out.append(",\n");
}

fn dump_lobby_info(
    host_cached: bool,
    is_host: bool,
    host_name: &str,
    guest_name: &str,
    guest_cached: bool,
) -> (out: String)
    ensures
        out@ == lobby_info_dump(host_cached, is_host, host_name@, guest_name@, guest_cached),
{
    let mut out = "LobbyInfo {\n".to_owned();
    push_field(&mut out, "host_cached", bool_str(host_cached));
    push_field(&mut out, "is_host", bool_str(is_host));
    push_field(&mut out, "host_name", debug_text(host_name).as_str());
    push_field(&mut out, "guest_name", debug_text(guest_name).as_str());
    push_field(&mut out, "guest_cached", bool_str(guest_cached));
    out.append("}");
    out
}

/// The structural dump of a lobby's options: the variant's name and, line
/// by line, each field as its `Debug` format prints it. Empty for any other
/// action.
pub open spec fn lobby_options_dump(action: ActionView) -> Seq<char> {
    match action {
        ActionView::LobbyOptions {
            different_decks,
            death_on_round_loss,
            pvp_start_round,
            stake,
            no_gold_on_round_loss,
            different_seeds,
            showdown_starting_antes,
            back,
            gold_on_life_loss,
            ruleset,
            sleeve,
            starting_lives,
            multiplayer_jokers,
        } => "LobbyOptions {\n"@ + dump_field(
            "different_decks"@,
            bool_text(different_decks),
        ) + dump_field(
            "death_on_round_loss"@,
            bool_text(death_on_round_loss),
        ) + dump_field(
            "pvp_start_round"@,
            int_decimal(pvp_start_round as int),
        ) + dump_field(
            "stake"@,
            int_decimal(stake as int),
        ) + dump_field(
            "no_gold_on_round_loss"@,
            bool_text(no_gold_on_round_loss),
        ) + dump_field(
            "different_seeds"@,
            bool_text(different_seeds),
        ) + dump_field(
            "showdown_starting_antes"@,
            int_decimal(showdown_starting_antes as int),
        ) + dump_field(
            "back"@,
            debug_quoted(back),
        ) + dump_field(
            "gold_on_life_loss"@,
            bool_text(gold_on_life_loss),
        ) + dump_field(
            "ruleset"@,
            debug_quoted(ruleset),
        ) + dump_field(
            "sleeve"@,
            debug_quoted(sleeve),
        ) + dump_field(
            "starting_lives"@,
            int_decimal(starting_lives as int),
        ) + dump_field(
            "multiplayer_jokers"@,
            bool_text(multiplayer_jokers),
        ) + "}"@,
        _ => Seq::empty(),
    }
}

fn dump_lobby_options(action: &Action) -> (out: String)
    ensures
        out@ == lobby_options_dump(action@),
{
    match action {
        Action::LobbyOptions {
            different_decks,
            death_on_round_loss,
            pvp_start_round,
            stake,
            no_gold_on_round_loss,
            different_seeds,
            showdown_starting_antes,
            back,
            gold_on_life_loss,
            ruleset,
            sleeve,
            starting_lives,
            multiplayer_jokers,
        } => {
            let mut out = "LobbyOptions {\n".to_owned();
            push_field(&mut out, "different_decks", bool_str(*different_decks));
            push_field(&mut out, "death_on_round_loss", bool_str(*death_on_round_loss));
            push_field(&mut out, "pvp_start_round", i8_text(*pvp_start_round).as_str());
            push_field(&mut out, "stake", i8_text(*stake).as_str());
            push_field(&mut out, "no_gold_on_round_loss", bool_str(*no_gold_on_round_loss));
            push_field(&mut out, "different_seeds", bool_str(*different_seeds));
            push_field(
                &mut out,
                "showdown_starting_antes",
                i8_text(*showdown_starting_antes).as_str(),
            );
            push_field(&mut out, "back", debug_text(back.as_str()).as_str());
            push_field(&mut out, "gold_on_life_loss", bool_str(*gold_on_life_loss));
            push_field(&mut out, "ruleset", debug_text(ruleset.as_str()).as_str());
            push_field(&mut out, "sleeve", debug_text(sleeve.as_str()).as_str());
            push_field(&mut out, "starting_lives", i8_text(*starting_lives).as_str());
            push_field(&mut out, "multiplayer_jokers", bool_str(*multiplayer_jokers));
            out.append("}");
            out
        },
        _ => String::new(),
    }
}

/// The clause that tells the seed, where there is one.
pub open spec fn seed_clause(seed: Option<Seq<char>>) -> Seq<char> {
    match seed {
        Some(text) => ", Seed is "@ + text,
        None => Seq::empty(),
    }
}

fn seed_text(seed: &Option<String>) -> (clause: String)
    ensures
        clause@ == seed_clause(seed.deep_view()),
{
    match seed {
        Some(text) => {
            let mut clause = ", Seed is ".to_owned();
            clause.append(text.as_str());
            clause
        },
        None => String::new(),
    }
}

fn shown_ante(ante: i8) -> (shown: i8)
    ensures
        shown == ante_shown(ante),
{
    if ante < LOWEST_ANTE_SHOWN {
        LOWEST_ANTE_SHOWN
    } else {
        ante
    }
}

/// The line that stands for an action.
pub open spec fn render_spec(action: ActionView) -> Seq<char> {
    match action {
        ActionView::Unsupported => "Unsupported Action"@,
        ActionView::EmptyOption => "Empty Options"@,
        ActionView::Connected => "Connected to servers"@,
        ActionView::Username { username, .. } => "Set username to "@ + username,
        ActionView::Version => "Checked version"@,
        ActionView::CreateLobby { game_mode } => "Created "@ + game_mode + " game"@,
        ActionView::JoinedLobby { code, game_type } => "Joined "@
            + game_type
            + " game with code "@
            + code,
        ActionView::SyncClient { is_cached } => "Client synced, "@
            + (if is_cached { "is"@ } else { "isn't"@ })
            + " cached."@,
        ActionView::LobbyInfo {
            host_cached,
            is_host,
            host_name,
            guest_name,
            guest_cached,
        } => "Lobby info: "@
            + lobby_info_dump(host_cached, is_host, host_name, guest_name, guest_cached),
        ActionView::LobbyOptions { .. } => "Lobby config: "@ + lobby_options_dump(action),
        ActionView::LeaveLobby => "Left lobby"@,
        ActionView::JoinLobby { code } => "Entered lobby code "@ + code,
        ActionView::StartGame { .. } => "Game started"@,
        ActionView::SetAnte { ante } => "Ante is now "@ + int_decimal(ante_shown(ante) as int),
        ActionView::PlayerInfo { lives } => "Client has "@ + int_decimal(lives as int) + " lives"@,
        ActionView::PlayHand { hands_left, score } => "Hand played; "@
            + int_decimal(hands_left as int)
            + " hands left, "@
            + score
            + " current score"@,
        ActionView::NewRound => "New Round Started"@,
        ActionView::SetLocation { location, user } => sender_name(user)
            + " is currently at "@
            + location_name(location),
        ActionView::MoneyMoved { amount } => "Money moved: $"@ + int_decimal(amount as int),
        ActionView::SpentLastShop { amount } => "Enemy spent $"@
            + int_decimal(amount as int)
            + " last shop"@,
        ActionView::EndPvP { lost } => (if lost { "lost"@ } else { "won"@ }) + " match"@,
        ActionView::SoldCard { card } => "Sold "@ + card,
        ActionView::SoldJoker => "Sold a joker"@,
        ActionView::Skip { skips } => "Skipped, curr skips is "@ + int_decimal(skips as int),
        ActionView::EnemyInfo { lives, skips, hands_left, score } => "Enemy has "@
            + int_decimal(lives as int)
            + " lives, has used "@
            + int_decimal(skips as int)
            + " skips, has "@
            + int_decimal(hands_left as int)
            + " hands left, and has scored "@
            + score,
        ActionView::ReadyBlind => "Readied up for PvP"@,
        ActionView::Speedrun => "Speedrun active!"@,
        ActionView::UsedCard { card } => "Card used: "@ + card,
        ActionView::StartBlind => "PvP Blind started"@,
        ActionView::LoseGame => "You lost!"@,
        ActionView::WinGame => "You won!"@,
        ActionView::GetEndGameJokers => "Getting end-game jokers..."@,
        ActionView::ReceiveEndGameJokers { keys, seed } => "Sent Jokers: "@
            + join_spec(keys, " "@)
            + seed_clause(seed),
        ActionView::StopGame => "Game Stopped"@,
        ActionView::Asteroid => "Sent an asteroid!"@,
        ActionView::Magnet => "Sold magnet"@,
        ActionView::MagnetResponse { key } => "Sent card for magnet: "@ + key,
    }
}

/// Writes the line that stands for an action.
pub fn render(action: &Action) -> (line: String)
    ensures
        line@ == render_spec(action@),
{
    match action {
        Action::Unsupported => "Unsupported Action".to_owned(),
        Action::EmptyOption => "Empty Options".to_owned(),
        Action::Connected => "Connected to servers".to_owned(),
        Action::Username { username, .. } => {
            let mut out = "Set username to ".to_owned();
            out.append(username.as_str());
            out
        },
        Action::Version => "Checked version".to_owned(),
        Action::CreateLobby { game_mode } => {
            let mut out = "Created ".to_owned();
            out.append(game_mode.as_str());
            out.append(" game");
            out
        },
        Action::JoinedLobby { code, game_type } => {
            let mut out = "Joined ".to_owned();
            out.append(game_type.as_str());
            out.append(" game with code ");
            out.append(code.as_str());
            out
        },
        Action::SyncClient { is_cached } => {
            let mut out = "Client synced, ".to_owned();
            out.append(if *is_cached { "is" } else { "isn't" });
            out.append(" cached.");
            out
        },
        Action::LobbyInfo { host_cached, is_host, host_name, guest_name, guest_cached } => {
            let mut out = "Lobby info: ".to_owned();
            out.append(
                dump_lobby_info(
                    *host_cached,
                    *is_host,
                    host_name.as_str(),
                    guest_name.as_str(),
                    *guest_cached,
                ).as_str(),
            );
            out
        },
        Action::LobbyOptions { .. } => {
            let mut out = "Lobby config: ".to_owned();
            out.append(dump_lobby_options(action).as_str());
            out
        },
        Action::LeaveLobby => "Left lobby".to_owned(),
        Action::JoinLobby { code } => {
            let mut out = "Entered lobby code ".to_owned();
            out.append(code.as_str());
            out
        },
        Action::StartGame { .. } => "Game started".to_owned(),
        Action::SetAnte { ante } => {
            let mut out = "Ante is now ".to_owned();
            out.append(i8_text(shown_ante(*ante)).as_str());
            out
        },
        Action::PlayerInfo { lives } => {
            let mut out = "Client has ".to_owned();
            out.append(i8_text(*lives).as_str());
            out.append(" lives");
            out
        },
        Action::PlayHand { hands_left, score } => {
            let mut out = "Hand played; ".to_owned();
            out.append(i8_text(*hands_left).as_str());
            out.append(" hands left, ");
            out.append(score.to_text().as_str());
            out.append(" current score");
            out
        },
        Action::NewRound => "New Round Started".to_owned(),
        Action::SetLocation { location, user } => {
            let mut out = String::new();
            out.append(user.name());
            out.append(" is currently at ");
            out.append(location.name());
            out
        },
        Action::MoneyMoved { amount } => {
            let mut out = "Money moved: $".to_owned();
            out.append(i8_text(*amount).as_str());
            out
        },
        Action::SpentLastShop { amount } => {
            let mut out = "Enemy spent $".to_owned();
            out.append(i8_text(*amount).as_str());
            out.append(" last shop");
            out
        },
        Action::EndPvP { lost } => {
            let mut out = String::new();
            out.append(if *lost { "lost" } else { "won" });
            out.append(" match");
            out
        },
        Action::SoldCard { card } => {
            let mut out = "Sold ".to_owned();
            out.append(card.as_str());
            out
        },
        Action::SoldJoker => "Sold a joker".to_owned(),
        Action::Skip { skips } => {
            let mut out = "Skipped, curr skips is ".to_owned();
            out.append(i8_text(*skips).as_str());
            out
        },
        Action::EnemyInfo { lives, skips, hands_left, score } => {
            let mut out = "Enemy has ".to_owned();
            out.append(i8_text(*lives).as_str());
            out.append(" lives, has used ");
            out.append(i8_text(*skips).as_str());
            out.append(" skips, has ");
            out.append(i8_text(*hands_left).as_str());
            out.append(" hands left, and has scored ");
            out.append(score.to_text().as_str());
            out
        },
        Action::ReadyBlind => "Readied up for PvP".to_owned(),
        Action::Speedrun => "Speedrun active!".to_owned(),
        Action::UsedCard { card } => {
            let mut out = "Card used: ".to_owned();
            out.append(card.as_str());
            out
        },
        Action::StartBlind => "PvP Blind started".to_owned(),
        Action::LoseGame => "You lost!".to_owned(),
        Action::WinGame => "You won!".to_owned(),
        Action::GetEndGameJokers => "Getting end-game jokers...".to_owned(),
        Action::ReceiveEndGameJokers { keys, seed } => {
            let mut out = "Sent Jokers: ".to_owned();
            out.append(join(keys, " ").as_str());
            out.append(seed_text(seed).as_str());
            out
        },
        Action::StopGame => "Game Stopped".to_owned(),
        Action::Asteroid => "Sent an asteroid!".to_owned(),
        Action::Magnet => "Sold magnet".to_owned(),
        Action::MagnetResponse { key } => {
            let mut out = "Sent card for magnet: ".to_owned();
            out.append(key.as_str());
            out
        },
    }
}

/// The line that stands for a message with this action name and these
/// fields, or the reason why the message cannot be classified.
pub open spec fn interpret_spec(action: Seq<char>, fields: Fields) -> Field<Seq<char>> {
    match classify_spec(action, fields) {
        Ok(classified) => Ok(render_spec(classified)),
        Err(e) => Err(e),
    }
}

/// Classifies a message and writes the line that stands for it. A message
/// whose action is not known still gets its line; one that lacks a field
/// that its action needs, or has a value of the wrong kind in it, gets the
/// error, and the caller decides what becomes of it.
pub fn interpret_message(message: Message) -> (r: Result<String, ClassifyError>)
    ensures
        text_outcome(r) == interpret_spec(message@.action, message@.fields()),
{
    match Action::from_message(message) {
        Ok(action) => Ok(render(&action)),
        Err(e) => Err(e),
    }
}

/// The line of an action is a function of the action: equal actions are
/// written alike, each time.
pub proof fn law_render_is_determined(a: Action, b: Action, line_a: String, line_b: String)
    requires
        a@ == b@,
        line_a@ == render_spec(a@),
        line_b@ == render_spec(b@),
    ensures
        line_a@ == line_b@,
{
}

/// An ante under the floor is shown as the floor.
pub proof fn law_ante_is_shown_from_one(ante: i8)
    ensures
        ante <= 1 ==> render_spec(ActionView::SetAnte { ante }) == "Ante is now 1"@,
        ante >= 1 ==> render_spec(ActionView::SetAnte { ante }) == "Ante is now "@ + int_decimal(
            ante as int,
        ),
{
    reveal_strlit("Ante is now 1");
    reveal_strlit("Ante is now ");
}

} // verus!
