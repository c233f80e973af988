//! The rules that turn a message's action name and fields into an `Action`.
use crate::message::{field_map, lookup, Action, ActionView, Message, PlayerLocation, Sender};
use crate::score::{big_decimal, Score};
use crate::text::{
    parse_bool, parse_bool_spec, parse_i8, parse_i8_spec, split_on, split_spec, text_eq,
};
use vstd::prelude::*;

verus! {

/// Why a message with a known action name could not be classified.
#[derive(Debug, PartialEq, Eq, Clone)]
pub enum ClassifyError {
    /// The action needs the field and the message does not have it.
    MissingField { action: String, field: String },
    /// The field is there, but its value is not of the kind that the action
    /// needs.
    InvalidValue { action: String, field: String },
}

/// A classification error as contracts see it.
pub ghost enum ClassifyErrorView {
    MissingField { action: Seq<char>, field: Seq<char> },
    InvalidValue { action: Seq<char>, field: Seq<char> },
}

impl View for ClassifyError {
    type V = ClassifyErrorView;

    open spec fn view(&self) -> ClassifyErrorView {
        match *self {
            ClassifyError::MissingField { action, field } => ClassifyErrorView::MissingField {
                action: action@,
                field: field@,
            },
            ClassifyError::InvalidValue { action, field } => ClassifyErrorView::InvalidValue {
                action: action@,
                field: field@,
            },
        }
    }
}

/// The line that tells of a classification error.
pub open spec fn describe_spec(e: ClassifyErrorView) -> Seq<char> {
    match e {
        ClassifyErrorView::MissingField { action, field } => "Malformed "@ + action
            + " message: missing field "@ + field,
        ClassifyErrorView::InvalidValue { action, field } => "Malformed "@ + action
            + " message: invalid value for field "@ + field,
    }
}

impl ClassifyError {
    /// Writes the line that tells of the error: which action the message
    /// names and which field is at fault.
    pub fn describe(&self) -> (line: String)
        ensures
            line@ == describe_spec(self@),
    {
        let mut line = "Malformed ".to_owned();
        match self {
            ClassifyError::MissingField { action, field } => {
                line.append(action.as_str());
                line.append(" message: missing field ");
                line.append(field.as_str());
            },
            ClassifyError::InvalidValue { action, field } => {
                line.append(action.as_str());
                line.append(" message: invalid value for field ");
                line.append(field.as_str());
            },
        }
        line
    }
}

/// The round in which player-versus-player play starts, where the lobby's
/// options do not say.
pub const DEFAULT_PVP_START_ROUND: i8 = 0;

/// Whether the guest has the game cached, where the lobby does not say.
pub const DEFAULT_GUEST_CACHED: bool = false;

/// The card sleeve, where the lobby's options name none.
pub const DEFAULT_SLEEVE: &'static str = "";

/// The guest's name, where the lobby has no guest.
pub const DEFAULT_GUEST_NAME: &'static str = "";

/// The location that stands for every location code that is not known.
pub const DEFAULT_LOCATION: PlayerLocation = PlayerLocation::BossBlind;

/// A message's fields: each key with its value.
pub type Fields = Map<Seq<char>, Seq<char>>;

/// What a rule for one field gives: the field's value, or the error.
pub type Field<T> = Result<T, ClassifyErrorView>;

/// A field that must be there, taken as text.
pub open spec fn text_field(action: Seq<char>, fields: Fields, key: Seq<char>) -> Field<Seq<char>> {
    if fields.contains_key(key) {
        Ok(fields[key])
    } else {
        Err(ClassifyErrorView::MissingField { action, field: key })
    }
}

/// A field that must be there and be `true` or `false`.
pub open spec fn bool_field(action: Seq<char>, fields: Fields, key: Seq<char>) -> Field<bool> {
    if !fields.contains_key(key) {
        Err(ClassifyErrorView::MissingField { action, field: key })
    } else {
        match parse_bool_spec(fields[key]) {
            Some(b) => Ok(b),
            None => Err(ClassifyErrorView::InvalidValue { action, field: key }),
        }
    }
}

/// A field that must be there and be an integer from -128 to 127.
pub open spec fn small_field(action: Seq<char>, fields: Fields, key: Seq<char>) -> Field<i8> {
    if !fields.contains_key(key) {
        Err(ClassifyErrorView::MissingField { action, field: key })
    } else {
        match parse_i8_spec(fields[key]) {
            Some(n) => Ok(n),
            None => Err(ClassifyErrorView::InvalidValue { action, field: key }),
        }
    }
}

/// A field that must be there and be an integer of any size; the value is
/// its decimal notation.
pub open spec fn score_field(action: Seq<char>, fields: Fields, key: Seq<char>) -> Field<
    Seq<char>,
> {
    if !fields.contains_key(key) {
        Err(ClassifyErrorView::MissingField { action, field: key })
    } else {
        match big_decimal(fields[key]) {
            Some(decimal) => Ok(decimal),
            None => Err(ClassifyErrorView::InvalidValue { action, field: key }),
        }
    }
}

/// A truth value that may be left out, and is then `default`.
pub open spec fn bool_field_or(
    action: Seq<char>,
    fields: Fields,
    key: Seq<char>,
    default: bool,
) -> Field<bool> {
    if fields.contains_key(key) {
        bool_field(action, fields, key)
    } else {
        Ok(default)
    }
}

/// A small integer that may be left out, and is then `default`.
pub open spec fn small_field_or(
    action: Seq<char>,
    fields: Fields,
    key: Seq<char>,
    default: i8,
) -> Field<i8> {
    if fields.contains_key(key) {
        small_field(action, fields, key)
    } else {
        Ok(default)
    }
}

/// A text that may be left out, and is then `default`.
pub open spec fn text_field_or(fields: Fields, key: Seq<char>, default: Seq<char>) -> Seq<char> {
    if fields.contains_key(key) {
        fields[key]
    } else {
        default
    }
}

/// A text that may be left out.
pub open spec fn optional_text_field(fields: Fields, key: Seq<char>) -> Option<Seq<char>> {
    if fields.contains_key(key) {
        Some(fields[key])
    } else {
        None
    }
}

fn missing(action: &str, key: &str) -> (e: ClassifyError)
    ensures
        e@ == (ClassifyErrorView::MissingField { action: action@, field: key@ }),
{
    ClassifyError::MissingField { action: action.to_owned(), field: key.to_owned() }
}

fn invalid(action: &str, key: &str) -> (e: ClassifyError)
    ensures
        e@ == (ClassifyErrorView::InvalidValue { action: action@, field: key@ }),
{
    ClassifyError::InvalidValue { action: action.to_owned(), field: key.to_owned() }
}

/// A text outcome as contracts see it.
pub open spec fn text_outcome(r: Result<String, ClassifyError>) -> Field<Seq<char>> {
    match r {
        Ok(text) => Ok(text@),
        Err(e) => Err(e@),
    }
}

/// The outcome for a truth value or a small integer as contracts see it.
pub open spec fn plain_outcome<T>(r: Result<T, ClassifyError>) -> Field<T> {
    match r {
        Ok(value) => Ok(value),
        Err(e) => Err(e@),
    }
}

/// A score outcome as contracts see it.
pub open spec fn score_outcome(r: Result<Score, ClassifyError>) -> Field<Seq<char>> {
    match r {
        Ok(score) => Ok(score@),
        Err(e) => Err(e@),
    }
}

/// The outcome of a classification as contracts see it.
pub open spec fn action_outcome(r: Result<Action, ClassifyError>) -> Result<
    ActionView,
    ClassifyErrorView,
> {
    match r {
        Ok(action) => Ok(action@),
        Err(e) => Err(e@),
    }
}

fn required_text(message: &Message, key: &str) -> (r: Result<String, ClassifyError>)
    ensures
        text_outcome(r) == text_field(message@.action, message@.fields(), key@),
{
    match lookup(&message.other, key) {
        Some(text) => Ok(text.clone()),
        None => Err(missing(message.action.as_str(), key)),
    }
}

fn required_bool(message: &Message, key: &str) -> (r: Result<bool, ClassifyError>)
    ensures
        plain_outcome(r) == bool_field(message@.action, message@.fields(), key@),
{
    match lookup(&message.other, key) {
        Some(text) => match parse_bool(text.as_str()) {
            Some(b) => Ok(b),
            None => Err(invalid(message.action.as_str(), key)),
        },
        None => Err(missing(message.action.as_str(), key)),
    }
}

fn required_small(message: &Message, key: &str) -> (r: Result<i8, ClassifyError>)
    ensures
        plain_outcome(r) == small_field(message@.action, message@.fields(), key@),
{
    match lookup(&message.other, key) {
        Some(text) => match parse_i8(text.as_str()) {
            Some(n) => Ok(n),
            None => Err(invalid(message.action.as_str(), key)),
        },
        None => Err(missing(message.action.as_str(), key)),
    }
}

fn required_score(message: &Message, key: &str) -> (r: Result<Score, ClassifyError>)
    ensures
        score_outcome(r) == score_field(message@.action, message@.fields(), key@),
{
    match lookup(&message.other, key) {
        Some(text) => match Score::parse(text.as_str()) {
            Some(score) => Ok(score),
            None => Err(invalid(message.action.as_str(), key)),
        },
        None => Err(missing(message.action.as_str(), key)),
    }
}

fn bool_or(message: &Message, key: &str, default: bool) -> (r: Result<bool, ClassifyError>)
    ensures
        plain_outcome(r) == bool_field_or(message@.action, message@.fields(), key@, default),
{
    match lookup(&message.other, key) {
        Some(_) => required_bool(message, key),
        None => Ok(default),
    }
}

fn small_or(message: &Message, key: &str, default: i8) -> (r: Result<i8, ClassifyError>)
    ensures
        plain_outcome(r) == small_field_or(message@.action, message@.fields(), key@, default),
{
    match lookup(&message.other, key) {
        Some(_) => required_small(message, key),
        None => Ok(default),
    }
}

fn text_or(message: &Message, key: &str, default: &str) -> (text: String)
    ensures
        text@ == text_field_or(message@.fields(), key@, default@),
{
    match lookup(&message.other, key) {
        Some(text) => text.clone(),
        None => default.to_owned(),
    }
}

fn optional_text(message: &Message, key: &str) -> (text: Option<String>)
    ensures
        text.deep_view() == optional_text_field(message@.fields(), key@),
{
    match lookup(&message.other, key) {
        Some(text) => Some(text.clone()),
        None => None,
    }
}

/// The location that a location code names; a code that is not known
/// stands for the default location.
pub open spec fn location_spec(code: Seq<char>) -> PlayerLocation {
    if code == "loc_playing-bl_small"@ {
        PlayerLocation::SmallBlind
    } else if code == "loc_playing-bl_big"@ {
        PlayerLocation::BigBlind
    } else if code == "loc_playing-mp_nemesis"@ {
        PlayerLocation::PvP
    } else if code == "loc_shop"@ {
        PlayerLocation::Shop
    } else if code == "loc_selecting"@ {
        PlayerLocation::Selecting
    } else {
        DEFAULT_LOCATION
    }
}

impl PlayerLocation {
    /// Reads a location code.
    pub fn from_code(code: &str) -> (location: PlayerLocation)
        ensures
            location == location_spec(code@),
    {
        if text_eq(code, "loc_playing-bl_small") {
            PlayerLocation::SmallBlind
        } else if text_eq(code, "loc_playing-bl_big") {
            PlayerLocation::BigBlind
        } else if text_eq(code, "loc_playing-mp_nemesis") {
            PlayerLocation::PvP
        } else if text_eq(code, "loc_shop") {
            PlayerLocation::Shop
        } else if text_eq(code, "loc_selecting") {
            PlayerLocation::Selecting
        } else {
            DEFAULT_LOCATION
        }
    }
}

/// The pieces that are not empty, in their order.
pub open spec fn non_empty_pieces(pieces: Seq<Seq<char>>) -> Seq<Seq<char>>
    decreases pieces.len(),
{
    if pieces.len() == 0 {
        Seq::empty()
    } else if pieces.last().len() > 0 {
        non_empty_pieces(pieces.drop_last()).push(pieces.last())
    } else {
        non_empty_pieces(pieces.drop_last())
    }
}

/// The keys that a `;`-separated list names: its pieces, empty ones left
/// out, in their order and with repetitions.
pub open spec fn keys_spec(list: Seq<char>) -> Seq<Seq<char>> {
    non_empty_pieces(split_spec(list, ';'))
}

/// Reads a `;`-separated list of keys.
pub fn parse_keys(list: &str) -> (keys: Vec<String>)
    ensures
        keys.deep_view() == keys_spec(list@),
{
    let pieces = split_on(list, ';');
    let mut keys: Vec<String> = Vec::new();
    let mut i: usize = 0;
    while i < pieces.len()
        invariant
            i <= pieces.len(),
            keys.deep_view() == non_empty_pieces(pieces.deep_view().take(i as int)),
        decreases pieces.len() - i,
    {
        let piece = pieces[i].clone();
        assert(pieces.deep_view().take(i + 1).drop_last() =~= pieces.deep_view().take(i as int));
        if !piece.as_str().is_empty() {
            keys.push(piece);
        }
        i += 1;
    }
    assert(pieces.deep_view().take(i as int) =~= pieces.deep_view());
    keys
}

/// The rule for `username`.
pub open spec fn username_spec(action: Seq<char>, fields: Fields) -> Field<ActionView> {
    let username = text_field(action, fields, "username"@);
    let mod_hash = text_field(action, fields, "modHash"@);
    if username is Err {
        Err(username->Err_0)
    } else if mod_hash is Err {
        Err(mod_hash->Err_0)
    } else {
        Ok(ActionView::Username { username: username->Ok_0, mod_hash: mod_hash->Ok_0 })
    }
}

fn username(message: &Message) -> (r: Result<Action, ClassifyError>)
    ensures
        action_outcome(r) == username_spec(message@.action, message@.fields()),
{
    let username = required_text(message, "username")?;
    let mod_hash = required_text(message, "modHash")?;
    Ok(Action::Username { username, mod_hash })
}

/// The rule for `joinedLobby`.
pub open spec fn joined_lobby_spec(action: Seq<char>, fields: Fields) -> Field<ActionView> {
    let code = text_field(action, fields, "code"@);
    let game_type = text_field(action, fields, "type"@);
    if code is Err {
        Err(code->Err_0)
    } else if game_type is Err {
        Err(game_type->Err_0)
    } else {
        Ok(ActionView::JoinedLobby { code: code->Ok_0, game_type: game_type->Ok_0 })
    }
}

fn joined_lobby(message: &Message) -> (r: Result<Action, ClassifyError>)
    ensures
        action_outcome(r) == joined_lobby_spec(message@.action, message@.fields()),
{
    let code = required_text(message, "code")?;
    let game_type = required_text(message, "type")?;
    Ok(Action::JoinedLobby { code, game_type })
}

/// The rule for `playHand`.
pub open spec fn play_hand_spec(action: Seq<char>, fields: Fields) -> Field<ActionView> {
    let hands_left = small_field(action, fields, "handsLeft"@);
    let score = score_field(action, fields, "score"@);
    if hands_left is Err {
        Err(hands_left->Err_0)
    } else if score is Err {
        Err(score->Err_0)
    } else {
        Ok(ActionView::PlayHand {
            hands_left: hands_left->Ok_0,
            score: score->Ok_0,
        })
    }
}

fn play_hand(message: &Message) -> (r: Result<Action, ClassifyError>)
    ensures
        action_outcome(r) == play_hand_spec(message@.action, message@.fields()),
{
    let hands_left = required_small(message, "handsLeft")?;
    let score = required_score(message, "score")?;
    Ok(Action::PlayHand { hands_left, score })
}

/// The rule for `enemyInfo`.
pub open spec fn enemy_info_spec(action: Seq<char>, fields: Fields) -> Field<ActionView> {
    let lives = small_field(action, fields, "lives"@);
    let skips = small_field(action, fields, "skips"@);
    let hands_left = small_field(action, fields, "handsLeft"@);
    let score = score_field(action, fields, "score"@);
    if lives is Err {
        Err(lives->Err_0)
    } else if skips is Err {
        Err(skips->Err_0)
    } else if hands_left is Err {
        Err(hands_left->Err_0)
    } else if score is Err {
        Err(score->Err_0)
    } else {
        Ok(ActionView::EnemyInfo {
            lives: lives->Ok_0,
            skips: skips->Ok_0,
            hands_left: hands_left->Ok_0,
            score: score->Ok_0,
        })
    }
}

fn enemy_info(message: &Message) -> (r: Result<Action, ClassifyError>)
    ensures
        action_outcome(r) == enemy_info_spec(message@.action, message@.fields()),
{
    let lives = required_small(message, "lives")?;
    let skips = required_small(message, "skips")?;
    let hands_left = required_small(message, "handsLeft")?;
    let score = required_score(message, "score")?;
    Ok(Action::EnemyInfo { lives, skips, hands_left, score })
}

/// Whether a message came without any field.
pub open spec fn no_fields(fields: Fields) -> bool {
    forall|key: Seq<char>| !fields.contains_key(key)
}

/// A list of fields stands for the empty mapping exactly when it is empty.
pub proof fn lemma_no_fields(entries: Seq<(Seq<char>, Seq<char>)>)
    ensures
        no_fields(field_map(entries)) <==> entries.len() == 0,
{
    if entries.len() > 0 {
        assert(field_map(entries).contains_key(entries.last().0));
    }
}

fn has_no_fields(message: &Message) -> (empty: bool)
    ensures
        empty == no_fields(message@.fields()),
{
    proof {
        lemma_no_fields(message.other.deep_view());
    }
    message.other.len() == 0
}

/// The rule for `lobbyInfo`: without any field the message is an empty
/// option, whatever the rules for the single fields say.
pub open spec fn lobby_info_spec(action: Seq<char>, fields: Fields) -> Field<ActionView> {
    let host_cached = bool_field(action, fields, "hostCached"@);
    let guest_cached = bool_field_or(action, fields, "guestCached"@, DEFAULT_GUEST_CACHED);
    let is_host = bool_field(action, fields, "isHost"@);
    let host_name = text_field(action, fields, "host"@);
    let guest_name = text_field_or(fields, "guest"@, DEFAULT_GUEST_NAME@);
    if no_fields(fields) {
        Ok(ActionView::EmptyOption)
    } else if host_cached is Err {
        Err(host_cached->Err_0)
    } else if guest_cached is Err {
        Err(guest_cached->Err_0)
    } else if is_host is Err {
        Err(is_host->Err_0)
    } else if host_name is Err {
        Err(host_name->Err_0)
    } else {
        Ok(
            ActionView::LobbyInfo {
                host_cached: host_cached->Ok_0,
                is_host: is_host->Ok_0,
                host_name: host_name->Ok_0,
                guest_name,
                guest_cached: guest_cached->Ok_0,
            },
        )
    }
}

fn lobby_info(message: &Message) -> (r: Result<Action, ClassifyError>)
    ensures
        action_outcome(r) == lobby_info_spec(message@.action, message@.fields()),
{
    if has_no_fields(message) {
        return Ok(Action::EmptyOption);
    }
    let host_cached = required_bool(message, "hostCached")?;
    let guest_cached = bool_or(message, "guestCached", DEFAULT_GUEST_CACHED)?;
    let is_host = required_bool(message, "isHost")?;
    let host_name = required_text(message, "host")?;
    let guest_name = text_or(message, "guest", DEFAULT_GUEST_NAME);
    Ok(Action::LobbyInfo { host_cached, is_host, host_name, guest_name, guest_cached })
}

/// The rule for `lobbyOptions`: without any field the message is an empty
/// option, whatever the rules for the single fields say.
pub open spec fn lobby_options_spec(action: Seq<char>, fields: Fields) -> Field<ActionView> {
    let different_decks = bool_field(action, fields, "different_decks"@);
    let death_on_round_loss = bool_field(action, fields, "death_on_round_loss"@);
    let pvp_start_round = small_field_or(
        action,
        fields,
        "pvp_start_round"@,
        DEFAULT_PVP_START_ROUND,
    );
    let stake = small_field(action, fields, "stake"@);
    let no_gold_on_round_loss = bool_field(action, fields, "no_gold_on_round_loss"@);
    let different_seeds = bool_field(action, fields, "different_seeds"@);
    let showdown_starting_antes = small_field(action, fields, "showdown_starting_antes"@);
    let back = text_field(action, fields, "back"@);
    let gold_on_life_loss = bool_field(action, fields, "gold_on_life_loss"@);
    let ruleset = text_field(action, fields, "ruleset"@);
    let sleeve = text_field_or(fields, "sleeve"@, DEFAULT_SLEEVE@);
    let starting_lives = small_field(action, fields, "starting_lives"@);
    let multiplayer_jokers = bool_field(action, fields, "multiplayer_jokers"@);
    if no_fields(fields) {
        Ok(ActionView::EmptyOption)
    } else if different_decks is Err {
        Err(different_decks->Err_0)
    } else if death_on_round_loss is Err {
        Err(death_on_round_loss->Err_0)
    } else if pvp_start_round is Err {
        Err(pvp_start_round->Err_0)
    } else if stake is Err {
        Err(stake->Err_0)
    } else if no_gold_on_round_loss is Err {
        Err(no_gold_on_round_loss->Err_0)
    } else if different_seeds is Err {
        Err(different_seeds->Err_0)
    } else if showdown_starting_antes is Err {
        Err(showdown_starting_antes->Err_0)
    } else if back is Err {
        Err(back->Err_0)
    } else if gold_on_life_loss is Err {
        Err(gold_on_life_loss->Err_0)
    } else if ruleset is Err {
        Err(ruleset->Err_0)
    } else if starting_lives is Err {
        Err(starting_lives->Err_0)
    } else if multiplayer_jokers is Err {
        Err(multiplayer_jokers->Err_0)
    } else {
        Ok(
            ActionView::LobbyOptions {
                different_decks: different_decks->Ok_0,
                death_on_round_loss: death_on_round_loss->Ok_0,
                pvp_start_round: pvp_start_round->Ok_0,
                stake: stake->Ok_0,
                no_gold_on_round_loss: no_gold_on_round_loss->Ok_0,
                different_seeds: different_seeds->Ok_0,
                showdown_starting_antes: showdown_starting_antes->Ok_0,
                back: back->Ok_0,
                gold_on_life_loss: gold_on_life_loss->Ok_0,
                ruleset: ruleset->Ok_0,
                sleeve,
                starting_lives: starting_lives->Ok_0,
                multiplayer_jokers: multiplayer_jokers->Ok_0,
            },
        )
    }
}

fn lobby_options(message: &Message) -> (r: Result<Action, ClassifyError>)
    ensures
        action_outcome(r) == lobby_options_spec(message@.action, message@.fields()),
{
    if has_no_fields(message) {
        return Ok(Action::EmptyOption);
    }
    let different_decks = required_bool(message, "different_decks")?;
    let death_on_round_loss = required_bool(message, "death_on_round_loss")?;
    let pvp_start_round = small_or(message, "pvp_start_round", DEFAULT_PVP_START_ROUND)?;
    let stake = required_small(message, "stake")?;
    let no_gold_on_round_loss = required_bool(message, "no_gold_on_round_loss")?;
    let different_seeds = required_bool(message, "different_seeds")?;
    let showdown_starting_antes = required_small(message, "showdown_starting_antes")?;
    let back = required_text(message, "back")?;
    let gold_on_life_loss = required_bool(message, "gold_on_life_loss")?;
    let ruleset = required_text(message, "ruleset")?;
    let sleeve = text_or(message, "sleeve", DEFAULT_SLEEVE);
    let starting_lives = required_small(message, "starting_lives")?;
    let multiplayer_jokers = required_bool(message, "multiplayer_jokers")?;
    Ok(
        Action::LobbyOptions {
            different_decks,
            death_on_round_loss,
            pvp_start_round,
            stake,
            no_gold_on_round_loss,
            different_seeds,
            showdown_starting_antes,
            back,
            gold_on_life_loss,
            ruleset,
            sleeve,
            starting_lives,
            multiplayer_jokers,
        },
    )
}

/// The rule for `setLocation` and `enemyLocation`: where `user` now is.
pub open spec fn location_rule(action: Seq<char>, fields: Fields, user: Sender) -> Field<
    ActionView,
> {
    match text_field(action, fields, "location"@) {
        Ok(code) => Ok(ActionView::SetLocation { location: location_spec(code), user }),
        Err(e) => Err(e),
    }
}

/// The rule for `setLocation`, which the local player sends.
pub open spec fn client_location_spec(action: Seq<char>, fields: Fields) -> Field<ActionView> {
    location_rule(action, fields, Sender::Client)
}

/// The rule for `enemyLocation`, which tells of the other player.
pub open spec fn enemy_location_spec(action: Seq<char>, fields: Fields) -> Field<ActionView> {
    location_rule(action, fields, Sender::Enemy)
}

fn client_location(message: &Message) -> (r: Result<Action, ClassifyError>)
    ensures
        action_outcome(r) == client_location_spec(message@.action, message@.fields()),
{
    let code = required_text(message, "location")?;
    let location = PlayerLocation::from_code(code.as_str());
    Ok(Action::SetLocation { location, user: Sender::Client })
}

fn enemy_location(message: &Message) -> (r: Result<Action, ClassifyError>)
    ensures
        action_outcome(r) == enemy_location_spec(message@.action, message@.fields()),
{
    let code = required_text(message, "location")?;
    let location = PlayerLocation::from_code(code.as_str());
    Ok(Action::SetLocation { location, user: Sender::Enemy })
}

/// The rule for `recieveEndGameJokers`: the listed keys, and the seed where
/// the message gives one.
pub open spec fn end_game_jokers_spec(action: Seq<char>, fields: Fields) -> Field<ActionView> {
    match text_field(action, fields, "keys"@) {
        Ok(list) => Ok(
            ActionView::ReceiveEndGameJokers {
                keys: keys_spec(list),
                seed: optional_text_field(fields, "seed"@),
            },
        ),
        Err(e) => Err(e),
    }
}

fn end_game_jokers(message: &Message) -> (r: Result<Action, ClassifyError>)
    ensures
        action_outcome(r) == end_game_jokers_spec(message@.action, message@.fields()),
{
    let list = required_text(message, "keys")?;
    let keys = parse_keys(list.as_str());
    let seed = optional_text(message, "seed");
    Ok(Action::ReceiveEndGameJokers { keys, seed })
}

/// The action that a message with this action name and these fields stands
/// for, or the first of its fields, in the order of the action's rule, that
/// is missing or has a value of the wrong kind. A name that is not known is
/// no error: it stands for `Unsupported`.
pub open spec fn classify_spec(action: Seq<char>, fields: Fields) -> Field<ActionView> {
    if action == "createLobby"@ {
        match text_field(action, fields, "gameMode"@) {
            Ok(game_mode) => Ok(ActionView::CreateLobby { game_mode }),
            Err(e) => Err(e),
        }
    } else if action == "moneyMoved"@ {
        match small_field(action, fields, "amount"@) {
            Ok(amount) => Ok(ActionView::MoneyMoved { amount }),
            Err(e) => Err(e),
        }
    } else if action == "leaveLobby"@ {
        Ok(ActionView::LeaveLobby)
    } else if action == "spentLastShop"@ {
        match small_field(action, fields, "amount"@) {
            Ok(amount) => Ok(ActionView::SpentLastShop { amount }),
            Err(e) => Err(e),
        }
    } else if action == "joinLobby"@ {
        match text_field(action, fields, "code"@) {
            Ok(code) => Ok(ActionView::JoinLobby { code }),
            Err(e) => Err(e),
        }
    } else if action == "endPvP"@ {
        match bool_field(action, fields, "lost"@) {
            Ok(lost) => Ok(ActionView::EndPvP { lost }),
            Err(e) => Err(e),
        }
    } else if action == "magnetResponse"@ {
        match text_field(action, fields, "key"@) {
            Ok(key) => Ok(ActionView::MagnetResponse { key }),
            Err(e) => Err(e),
        }
    } else if action == "connected"@ {
        Ok(ActionView::Connected)
    } else if action == "stopGame"@ {
        Ok(ActionView::StopGame)
    } else if action == "lobbyOptions"@ {
        lobby_options_spec(action, fields)
    } else if action == "syncClient"@ {
        match bool_field(action, fields, "isCached"@) {
            Ok(is_cached) => Ok(ActionView::SyncClient { is_cached }),
            Err(e) => Err(e),
        }
    } else if action == "username"@ {
        username_spec(action, fields)
    } else if action == "usedCard"@ {
        match text_field(action, fields, "card"@) {
            Ok(card) => Ok(ActionView::UsedCard { card }),
            Err(e) => Err(e),
        }
    } else if action == "soldCard"@ {
        match text_field(action, fields, "card"@) {
            Ok(card) => Ok(ActionView::SoldCard { card }),
            Err(e) => Err(e),
        }
    } else if action == "startGame"@ {
        match text_field(action, fields, "deck"@) {
            Ok(deck) => Ok(ActionView::StartGame { deck }),
            Err(e) => Err(e),
        }
    } else if action == "speedrun"@ {
        Ok(ActionView::Speedrun)
    } else if action == "playerInfo"@ {
        match small_field(action, fields, "lives"@) {
            Ok(lives) => Ok(ActionView::PlayerInfo { lives }),
            Err(e) => Err(e),
        }
    } else if action == "version"@ {
        Ok(ActionView::Version)
    } else if action == "getEndGameJokers"@ {
        Ok(ActionView::GetEndGameJokers)
    } else if action == "joinedLobby"@ {
        joined_lobby_spec(action, fields)
    } else if action == "newRound"@ {
        Ok(ActionView::NewRound)
    } else if action == "enemyLocation"@ {
        enemy_location_spec(action, fields)
    } else if action == "lobbyInfo"@ {
        lobby_info_spec(action, fields)
    } else if action == "playHand"@ {
        play_hand_spec(action, fields)
    } else if action == "soldJoker"@ {
        Ok(ActionView::SoldJoker)
    } else if action == "enemyInfo"@ {
        enemy_info_spec(action, fields)
    } else if action == "readyBlind"@ {
        Ok(ActionView::ReadyBlind)
    } else if action == "loseGame"@ {
        Ok(ActionView::LoseGame)
    } else if action == "winGame"@ {
        Ok(ActionView::WinGame)
    } else if action == "startBlind"@ {
        Ok(ActionView::StartBlind)
    } else if action == "recieveEndGameJokers"@ {
        end_game_jokers_spec(action, fields)
    } else if action == "skip"@ {
        match small_field(action, fields, "skips"@) {
            Ok(skips) => Ok(ActionView::Skip { skips }),
            Err(e) => Err(e),
        }
    } else if action == "asteroid"@ {
        Ok(ActionView::Asteroid)
    } else if action == "magnet"@ {
        Ok(ActionView::Magnet)
    } else if action == "setLocation"@ {
        client_location_spec(action, fields)
    } else if action == "setAnte"@ {
        match small_field(action, fields, "ante"@) {
            Ok(ante) => Ok(ActionView::SetAnte { ante }),
            Err(e) => Err(e),
        }
    } else {
        Ok(ActionView::Unsupported)
    }
}

impl Action {
    /// Classifies a message by its action name and its fields. The order of
    /// the fields plays no part: only which keys are there, and the value
    /// that counts for each.
    pub fn from_message(message: Message) -> (r: Result<Action, ClassifyError>)
        ensures
            action_outcome(r) == classify_spec(message@.action, message@.fields()),
    {
        let name = message.action.as_str();
        if text_eq(name, "createLobby") {
            match required_text(&message, "gameMode") {
                Ok(game_mode) => Ok(Action::CreateLobby { game_mode }),
                Err(e) => Err(e),
            }
        } else if text_eq(name, "moneyMoved") {
            match required_small(&message, "amount") {
                Ok(amount) => Ok(Action::MoneyMoved { amount }),
                Err(e) => Err(e),
            }
        } else if text_eq(name, "leaveLobby") {
            Ok(Action::LeaveLobby)
        } else if text_eq(name, "spentLastShop") {
            match required_small(&message, "amount") {
                Ok(amount) => Ok(Action::SpentLastShop { amount }),
                Err(e) => Err(e),
            }
        } else if text_eq(name, "joinLobby") {
            match required_text(&message, "code") {
                Ok(code) => Ok(Action::JoinLobby { code }),
                Err(e) => Err(e),
            }
        } else if text_eq(name, "endPvP") {
            match required_bool(&message, "lost") {
                Ok(lost) => Ok(Action::EndPvP { lost }),
                Err(e) => Err(e),
            }
        } else if text_eq(name, "magnetResponse") {
            match required_text(&message, "key") {
                Ok(key) => Ok(Action::MagnetResponse { key }),
                Err(e) => Err(e),
            }
        } else if text_eq(name, "connected") {
            Ok(Action::Connected)
        } else if text_eq(name, "stopGame") {
            Ok(Action::StopGame)
        } else if text_eq(name, "lobbyOptions") {
            lobby_options(&message)
        } else if text_eq(name, "syncClient") {
            match required_bool(&message, "isCached") {
                Ok(is_cached) => Ok(Action::SyncClient { is_cached }),
                Err(e) => Err(e),
            }
        } else if text_eq(name, "username") {
            username(&message)
        } else if text_eq(name, "usedCard") {
            match required_text(&message, "card") {
                Ok(card) => Ok(Action::UsedCard { card }),
                Err(e) => Err(e),
            }
        } else if text_eq(name, "soldCard") {
            match required_text(&message, "card") {
                Ok(card) => Ok(Action::SoldCard { card }),
                Err(e) => Err(e),
            }
        } else if text_eq(name, "startGame") {
            match required_text(&message, "deck") {
                Ok(deck) => Ok(Action::StartGame { deck }),
                Err(e) => Err(e),
            }
        } else if text_eq(name, "speedrun") {
            Ok(Action::Speedrun)
        } else if text_eq(name, "playerInfo") {
            match required_small(&message, "lives") {
                Ok(lives) => Ok(Action::PlayerInfo { lives }),
                Err(e) => Err(e),
            }
        } else if text_eq(name, "version") {
            Ok(Action::Version)
        } else if text_eq(name, "getEndGameJokers") {
            Ok(Action::GetEndGameJokers)
        } else if text_eq(name, "joinedLobby") {
            joined_lobby(&message)
        } else if text_eq(name, "newRound") {
            Ok(Action::NewRound)
        } else if text_eq(name, "enemyLocation") {
            enemy_location(&message)
        } else if text_eq(name, "lobbyInfo") {
            lobby_info(&message)
        } else if text_eq(name, "playHand") {
            play_hand(&message)
        } else if text_eq(name, "soldJoker") {
            Ok(Action::SoldJoker)
        } else if text_eq(name, "enemyInfo") {
            enemy_info(&message)
        } else if text_eq(name, "readyBlind") {
            Ok(Action::ReadyBlind)
        } else if text_eq(name, "loseGame") {
            Ok(Action::LoseGame)
        } else if text_eq(name, "winGame") {
            Ok(Action::WinGame)
        } else if text_eq(name, "startBlind") {
            Ok(Action::StartBlind)
        } else if text_eq(name, "recieveEndGameJokers") {
            end_game_jokers(&message)
        } else if text_eq(name, "skip") {
            match required_small(&message, "skips") {
                Ok(skips) => Ok(Action::Skip { skips }),
                Err(e) => Err(e),
            }
        } else if text_eq(name, "asteroid") {
            Ok(Action::Asteroid)
        } else if text_eq(name, "magnet") {
            Ok(Action::Magnet)
        } else if text_eq(name, "setLocation") {
            client_location(&message)
        } else if text_eq(name, "setAnte") {
            match required_small(&message, "ante") {
                Ok(ante) => Ok(Action::SetAnte { ante }),
                Err(e) => Err(e),
            }
        } else {
            Ok(Action::Unsupported)
        }
    }
}

/// Classification is a function of the action name and of the mapping that
/// the fields stand for. Two messages that agree on both are classified
/// alike, whoever sent them, whenever, and in whatever order their fields
/// stand.
pub proof fn law_classification_is_determined(
    a: Message,
    b: Message,
    of_a: Result<Action, ClassifyError>,
    of_b: Result<Action, ClassifyError>,
)
    requires
        a@.action == b@.action,
        a@.fields() == b@.fields(),
        action_outcome(of_a) == classify_spec(a@.action, a@.fields()),
        action_outcome(of_b) == classify_spec(b@.action, b@.fields()),
    ensures
        action_outcome(of_a) == action_outcome(of_b),
{
}

} // verus!
