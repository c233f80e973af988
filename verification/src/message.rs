//! Messages of the log, and the typed actions that they stand for.
use crate::score::Score;
use vstd::prelude::*;

verus! {

/// The side of the connection that a message came from.
#[derive(Debug, PartialEq, Eq, Clone, Copy)]
pub enum Sender {
    /// The local player.
    Client,
    /// The other player.
    Enemy,
}

/// Where in a round a player is.
#[derive(Debug, PartialEq, Eq, Clone, Copy)]
pub enum PlayerLocation {
    SmallBlind,
    BigBlind,
    BossBlind,
    PvP,
    Shop,
    Selecting,
}

/// What one message means.
#[derive(Debug, PartialEq, Eq, Clone)]
pub enum Action {
    /// An action that this library does not know.
    Unsupported,
    /// A lobby message that carries no field at all.
    EmptyOption,
    Connected,
    Username { username: String, mod_hash: String },
    Version,
    CreateLobby { game_mode: String },
    JoinedLobby { code: String, game_type: String },
    SyncClient { is_cached: bool },
    LobbyInfo {
        host_cached: bool,
        is_host: bool,
        host_name: String,
        guest_name: String,
        guest_cached: bool,
    },
    LobbyOptions {
        different_decks: bool,
        death_on_round_loss: bool,
        pvp_start_round: i8,
        stake: i8,
        no_gold_on_round_loss: bool,
        different_seeds: bool,
        showdown_starting_antes: i8,
        back: String,
        gold_on_life_loss: bool,
        ruleset: String,
        sleeve: String,
        starting_lives: i8,
        multiplayer_jokers: bool,
    },
    LeaveLobby,
    JoinLobby { code: String },
    StartGame { deck: String },
    SetAnte { ante: i8 },
    PlayerInfo { lives: i8 },
    PlayHand { hands_left: i8, score: Score },
    NewRound,
    SetLocation { location: PlayerLocation, user: Sender },
    MoneyMoved { amount: i8 },
    SpentLastShop { amount: i8 },
    EndPvP { lost: bool },
    SoldCard { card: String },
    SoldJoker,
    Skip { skips: i8 },
    EnemyInfo { lives: i8, skips: i8, hands_left: i8, score: Score },
    ReadyBlind,
    Speedrun,
    UsedCard { card: String },
    StartBlind,
    LoseGame,
    WinGame,
    GetEndGameJokers,
    ReceiveEndGameJokers { keys: Vec<String>, seed: Option<String> },
    StopGame,
    Asteroid,
    Magnet,
    MagnetResponse { key: String },
}

/// An action as contracts see it: each text by its characters.
pub ghost enum ActionView {
    Unsupported,
    EmptyOption,
    Connected,
    Username { username: Seq<char>, mod_hash: Seq<char> },
    Version,
    CreateLobby { game_mode: Seq<char> },
    JoinedLobby { code: Seq<char>, game_type: Seq<char> },
    SyncClient { is_cached: bool },
    LobbyInfo {
        host_cached: bool,
        is_host: bool,
        host_name: Seq<char>,
        guest_name: Seq<char>,
        guest_cached: bool,
    },
    LobbyOptions {
        different_decks: bool,
        death_on_round_loss: bool,
        pvp_start_round: i8,
        stake: i8,
        no_gold_on_round_loss: bool,
        different_seeds: bool,
        showdown_starting_antes: i8,
        back: Seq<char>,
        gold_on_life_loss: bool,
        ruleset: Seq<char>,
        sleeve: Seq<char>,
        starting_lives: i8,
        multiplayer_jokers: bool,
    },
    LeaveLobby,
    JoinLobby { code: Seq<char> },
    StartGame { deck: Seq<char> },
    SetAnte { ante: i8 },
    PlayerInfo { lives: i8 },
    PlayHand { hands_left: i8, score: Seq<char> },
    NewRound,
    SetLocation { location: PlayerLocation, user: Sender },
    MoneyMoved { amount: i8 },
    SpentLastShop { amount: i8 },
    EndPvP { lost: bool },
    SoldCard { card: Seq<char> },
    SoldJoker,
    Skip { skips: i8 },
    EnemyInfo { lives: i8, skips: i8, hands_left: i8, score: Seq<char> },
    ReadyBlind,
    Speedrun,
    UsedCard { card: Seq<char> },
    StartBlind,
    LoseGame,
    WinGame,
    GetEndGameJokers,
    ReceiveEndGameJokers { keys: Seq<Seq<char>>, seed: Option<Seq<char>> },
    StopGame,
    Asteroid,
    Magnet,
    MagnetResponse { key: Seq<char> },
}

impl View for Action {
    type V = ActionView;

    open spec fn view(&self) -> ActionView {
        match *self {
            Action::Unsupported => ActionView::Unsupported,
            Action::EmptyOption => ActionView::EmptyOption,
            Action::Connected => ActionView::Connected,
            Action::Username { username, mod_hash } => ActionView::Username {
                username: username@,
                mod_hash: mod_hash@,
            },
            Action::Version => ActionView::Version,
            Action::CreateLobby { game_mode } => ActionView::CreateLobby { game_mode: game_mode@ },
            Action::JoinedLobby { code, game_type } => ActionView::JoinedLobby {
                code: code@,
                game_type: game_type@,
            },
            Action::SyncClient { is_cached } => ActionView::SyncClient { is_cached },
            Action::LobbyInfo {
                host_cached,
                is_host,
                host_name,
                guest_name,
                guest_cached,
            } => ActionView::LobbyInfo {
                host_cached,
                is_host,
                host_name: host_name@,
                guest_name: guest_name@,
                guest_cached,
            },
            Action::LobbyOptions {
                different_decks,
                death_on_round_loss,
                pvp_start_round,
                stake,
                no_gold_on_round_loss,
                different_seeds,
                showdown_starting_antes,
                back,
                gold_on_life_loss,
                ruleset,
                sleeve,
                starting_lives,
                multiplayer_jokers,
            } => ActionView::LobbyOptions {
                different_decks,
                death_on_round_loss,
                pvp_start_round,
                stake,
                no_gold_on_round_loss,
                different_seeds,
                showdown_starting_antes,
                back: back@,
                gold_on_life_loss,
                ruleset: ruleset@,
                sleeve: sleeve@,
                starting_lives,
                multiplayer_jokers,
            },
            Action::LeaveLobby => ActionView::LeaveLobby,
            Action::JoinLobby { code } => ActionView::JoinLobby { code: code@ },
            Action::StartGame { deck } => ActionView::StartGame { deck: deck@ },
            Action::SetAnte { ante } => ActionView::SetAnte { ante },
            Action::PlayerInfo { lives } => ActionView::PlayerInfo { lives },
            Action::PlayHand { hands_left, score } => ActionView::PlayHand {
                hands_left,
                score: score@,
            },
            Action::NewRound => ActionView::NewRound,
            Action::SetLocation { location, user } => ActionView::SetLocation { location, user },
            Action::MoneyMoved { amount } => ActionView::MoneyMoved { amount },
            Action::SpentLastShop { amount } => ActionView::SpentLastShop { amount },
            Action::EndPvP { lost } => ActionView::EndPvP { lost },
            Action::SoldCard { card } => ActionView::SoldCard { card: card@ },
            Action::SoldJoker => ActionView::SoldJoker,
            Action::Skip { skips } => ActionView::Skip { skips },
            Action::EnemyInfo { lives, skips, hands_left, score } => ActionView::EnemyInfo {
                lives,
                skips,
                hands_left,
                score: score@,
            },
            Action::ReadyBlind => ActionView::ReadyBlind,
            Action::Speedrun => ActionView::Speedrun,
            Action::UsedCard { card } => ActionView::UsedCard { card: card@ },
            Action::StartBlind => ActionView::StartBlind,
            Action::LoseGame => ActionView::LoseGame,
            Action::WinGame => ActionView::WinGame,
            Action::GetEndGameJokers => ActionView::GetEndGameJokers,
            Action::ReceiveEndGameJokers { keys, seed } => ActionView::ReceiveEndGameJokers {
                keys: keys.deep_view(),
                seed: seed.deep_view(),
            },
            Action::StopGame => ActionView::StopGame,
            Action::Asteroid => ActionView::Asteroid,
            Action::Magnet => ActionView::Magnet,
            Action::MagnetResponse { key } => ActionView::MagnetResponse { key: key@ },
        }
    }
}

/// One recognised line of the log: who sent it, when, which action it names
/// and the fields that came with it.
///
/// `other` lists the fields in the order in which the line gave them. Where a
/// key stands twice, the later entry is the one that counts.
#[derive(Debug, Clone)]
pub struct Message {
    /// Who sent the message.
    pub sender: Sender,
    /// The name of the action. A message taken from a log always has one.
    pub action: String,
    /// The fields, each a key and its value.
    pub other: Vec<(String, String)>,
    /// The time of the line, as the log wrote it.
    pub time: String,
}

/// A message as contracts see it.
pub ghost struct MessageView {
    pub sender: Sender,
    pub action: Seq<char>,
    pub other: Seq<(Seq<char>, Seq<char>)>,
    pub time: Seq<char>,
}

impl View for Message {
    type V = MessageView;

    open spec fn view(&self) -> MessageView {
        MessageView {
            sender: self.sender,
            action: self.action@,
            other: self.other.deep_view(),
            time: self.time@,
        }
    }
}

impl MessageView {
    /// The message's fields as a mapping from key to value.
    pub open spec fn fields(self) -> Map<Seq<char>, Seq<char>> {
        field_map(self.other)
    }
}

/// The mapping that a list of fields stands for: each key with the value of
/// its last entry.
pub open spec fn field_map(entries: Seq<(Seq<char>, Seq<char>)>) -> Map<Seq<char>, Seq<char>>
    decreases entries.len(),
{
    if entries.len() == 0 {
        Map::empty()
    } else {
        field_map(entries.drop_last()).insert(entries.last().0, entries.last().1)
    }
}

/// The value of the last entry of `entries` whose key is `key`.
pub open spec fn lookup_spec(entries: Seq<(Seq<char>, Seq<char>)>, key: Seq<char>) -> Option<
    Seq<char>,
>
    decreases entries.len(),
{
    if entries.len() == 0 {
        None
    } else if entries.last().0 == key {
        Some(entries.last().1)
    } else {
        lookup_spec(entries.drop_last(), key)
    }
}

/// Looking a key up in the list is looking it up in the mapping.
pub proof fn lemma_lookup_is_field_map(entries: Seq<(Seq<char>, Seq<char>)>, key: Seq<char>)
    ensures
        lookup_spec(entries, key) == if field_map(entries).contains_key(key) {
            Some(field_map(entries)[key])
        } else {
            None
        },
    decreases entries.len(),
{
    if entries.len() > 0 {
        lemma_lookup_is_field_map(entries.drop_last(), key);
    }
}

/// The value that `entries` gives for `key`, if any.
pub fn lookup<'a>(entries: &'a Vec<(String, String)>, key: &str) -> (value: Option<&'a String>)
    ensures
        value.deep_view() == lookup_spec(entries.deep_view(), key@),
        value is Some <==> field_map(entries.deep_view()).contains_key(key@),
        value matches Some(text) ==> text@ == field_map(entries.deep_view())[key@],
{
    let mut i: usize = entries.len();
    assert(entries.deep_view().take(i as int) =~= entries.deep_view());
    while i > 0
        invariant
            i <= entries.len(),
            lookup_spec(entries.deep_view(), key@) == lookup_spec(
                entries.deep_view().take(i as int),
                key@,
            ),
        decreases i,
    {
        i -= 1;
        proof {
            lemma_lookup_is_field_map(entries.deep_view(), key@);
            let prefix = entries.deep_view().take(i + 1);
            assert(prefix.drop_last() =~= entries.deep_view().take(i as int));
        }
        if crate::text::text_eq(entries[i].0.as_str(), key) {
            return Some(&entries[i].1);
        }
    }
    proof {
        lemma_lookup_is_field_map(entries.deep_view(), key@);
    }
    None
}

/// Whether no key stands twice in the list.
pub open spec fn keys_unique(entries: Seq<(Seq<char>, Seq<char>)>) -> bool {
    forall|i: int, j: int|
        0 <= i < j < entries.len() ==> (#[trigger] entries[i]).0 != (#[trigger] entries[j]).0
}

/// The mapping has exactly the keys of the list.
pub proof fn lemma_field_map_keys(entries: Seq<(Seq<char>, Seq<char>)>, key: Seq<char>)
    ensures
        field_map(entries).contains_key(key) <==> exists|i: int|
            0 <= i < entries.len() && (#[trigger] entries[i]).0 == key,
    decreases entries.len(),
{
    if entries.len() > 0 {
        let front = entries.drop_last();
        lemma_field_map_keys(front, key);
        if entries.last().0 == key {
        } else if field_map(front).contains_key(key) {
            let i = choose|i: int| 0 <= i < front.len() && (#[trigger] front[i]).0 == key;
        } else if exists|i: int| 0 <= i < entries.len() && (#[trigger] entries[i]).0 == key {
            let i = choose|i: int| 0 <= i < entries.len() && (#[trigger] entries[i]).0 == key;
            assert(front[i].0 == key);
        }
    }
}

/// Where no key stands twice, the mapping gives each entry's key that
/// entry's value.
pub proof fn lemma_field_map_value(entries: Seq<(Seq<char>, Seq<char>)>, i: int)
    requires
        keys_unique(entries),
        0 <= i < entries.len(),
    ensures
        field_map(entries).contains_key(entries[i].0),
        field_map(entries)[entries[i].0] == entries[i].1,
    decreases entries.len(),
{
    if i < entries.len() - 1 {
        let front = entries.drop_last();
        assert(keys_unique(front));
        lemma_field_map_value(front, i);
    }
}

/// The order of the fields is irrelevant: two lists without repeated keys
/// that hold the same entries stand for the same mapping.
pub proof fn law_field_order_is_irrelevant(
    a: Seq<(Seq<char>, Seq<char>)>,
    b: Seq<(Seq<char>, Seq<char>)>,
)
    requires
        keys_unique(a),
        keys_unique(b),
        a.to_multiset() == b.to_multiset(),
    ensures
        field_map(a) == field_map(b),
{
    assert forall|key: Seq<char>| #[trigger]
        field_map(a).dom().contains(key) == field_map(b).dom().contains(key) && (field_map(
            a,
        ).dom().contains(key) ==> field_map(a)[key] == field_map(b)[key]) by {
        lemma_field_map_keys(a, key);
        lemma_field_map_keys(b, key);
        if field_map(a).contains_key(key) {
            let i = choose|i: int| 0 <= i < a.len() && (#[trigger] a[i]).0 == key;
            lemma_field_map_value(a, i);
            vstd::seq_lib::to_multiset_contains(a, a[i]);
            vstd::seq_lib::to_multiset_contains(b, a[i]);
            let j = choose|j: int| 0 <= j < b.len() && b[j] == a[i];
            lemma_field_map_value(b, j);
        } else if field_map(b).contains_key(key) {
            let j = choose|j: int| 0 <= j < b.len() && (#[trigger] b[j]).0 == key;
            vstd::seq_lib::to_multiset_contains(b, b[j]);
            vstd::seq_lib::to_multiset_contains(a, b[j]);
            let i = choose|i: int| 0 <= i < a.len() && a[i] == b[j];
            lemma_field_map_value(a, i);
        }
    }
}

impl Message {
    /// The value of the field `key`, if the message has that field.
    pub fn field<'a>(&'a self, key: &str) -> (value: Option<&'a String>)
        ensures
            value is Some <==> self@.fields().contains_key(key@),
            value matches Some(text) ==> text@ == self@.fields()[key@],
    {
        lookup(&self.other, key)
    }
}

} // verus!
