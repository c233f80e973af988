//! From lines of the log to messages: which lines are protocol lines, and
//! what their payload says.
use crate::message::{Message, MessageView, Sender};
use crate::pattern::{
    all_captures, captures_each, captures_iter_each, first_captures, group, group_spec, Groups,
    CLIENT_LINE, CLIENT_PAIR, ENEMY_LINE, ENEMY_PAIR,
};
use crate::text::{split_on, split_spec, text_eq, trim, trim_spec};
use vstd::prelude::*;

verus! {

/// The key that names a message's action.
pub const ACTION_KEY: &'static str = "action";

/// The group of a line, of either form, that holds its time.
pub const TIMESTAMP: usize = 1;

/// The group of a pair that holds its key.
pub const PAIR_KEY: usize = 1;

/// The group of a pair that holds its value.
pub const PAIR_VALUE: usize = 2;

/// The group of a received line that holds its payload.
pub const ENEMY_PAYLOAD: usize = 3;

/// The group of a sent line that holds its payload.
pub const CLIENT_PAYLOAD: usize = 2;

/// A message of which nothing is known yet.
pub open spec fn blank_spec() -> MessageView {
    MessageView {
        sender: Sender::Client,
        action: Seq::<char>::empty(),
        other: Seq::<(Seq<char>, Seq<char>)>::empty(),
        time: Seq::<char>::empty(),
    }
}

/// `m` after one more pair of its payload: the pair with the action key
/// names the action, any other pair is one more field. Values are trimmed.
pub open spec fn with_pair(m: MessageView, key: Seq<char>, value: Seq<char>) -> MessageView {
    if key == ACTION_KEY@ {
        MessageView { action: trim_spec(value), ..m }
    } else {
        MessageView { other: m.other.push((key, trim_spec(value))), ..m }
    }
}

/// `m` after the pairs that a run of matches captured, from left to right.
pub open spec fn with_pairs(m: MessageView, matches: Seq<Groups>) -> MessageView
    decreases matches.len(),
{
    if matches.len() == 0 {
        m
    } else {
        with_pair(
            with_pairs(m, matches.drop_last()),
            group_spec(matches.last(), PAIR_KEY as int),
            group_spec(matches.last(), PAIR_VALUE as int),
        )
    }
}

impl Message {
    /// A message of which nothing is known yet.
    pub fn blank() -> (m: Message)
        ensures
            m@ == blank_spec(),
    {
        let m = Message {
            sender: Sender::Client,
            action: String::new(),
            other: Vec::new(),
            time: String::new(),
        };
        assert(m.other.deep_view() =~= Seq::<(Seq<char>, Seq<char>)>::empty());
        m
    }

    /// Takes one more pair of the payload into the message.
    pub fn absorb_pair(&mut self, key: &str, value: &str)
        ensures
            final(self)@ == with_pair(old(self)@, key@, value@),
    {
        let trimmed = trim(value);
        if text_eq(key, ACTION_KEY) {
            self.action = trimmed;
        } else {
            let ghost before = self.other.deep_view();
            self.other.push((key.to_owned(), trimmed));
            assert(self.other.deep_view() =~= before.push((key@, trim_spec(value@))));
        }
    }

    /// Takes the pairs that a run of matches captured into the message.
    pub fn absorb_pairs(&mut self, matches: &Vec<Vec<Option<String>>>)
        ensures
            final(self)@ == with_pairs(old(self)@, matches.deep_view()),
    {
        let mut i: usize = 0;
        while i < matches.len()
            invariant
                i <= matches.len(),
                self@ == with_pairs(old(self)@, matches.deep_view().take(i as int)),
            decreases matches.len() - i,
        {
            proof {
                let prefix = matches.deep_view().take(i + 1);
                assert(prefix.drop_last() =~= matches.deep_view().take(i as int));
            }
            let key = group(&matches[i], PAIR_KEY);
            let value = group(&matches[i], PAIR_VALUE);
            self.absorb_pair(key.as_str(), value.as_str());
            i += 1;
        }
        assert(matches.deep_view().take(i as int) =~= matches.deep_view());
    }
}


/// `m` after the pairs of several runs of matches, run by run.
pub open spec fn with_runs(m: MessageView, runs: Seq<Seq<Groups>>) -> MessageView
    decreases runs.len(),
{
    if runs.len() == 0 {
        m
    } else {
        with_pairs(with_runs(m, runs.drop_last()), runs.last())
    }
}

/// The message that is put together from what the patterns found in a line.
///
/// `enemy` is the match of the line as a received message and `enemy_pairs`
/// are the pairs found in its payload; `client` is the match of the line as
/// a sent message and `client_runs` are the pairs found in each segment of
/// its payload. A line is read first as a received, then as a sent message:
/// as a received message it is the other player's, in either form it gives
/// the time and the pairs of its payload. What belongs to a form
/// that the line does not have plays no part.
pub open spec fn assembled(
    enemy: Option<Groups>,
    enemy_pairs: Seq<Groups>,
    client: Option<Groups>,
    client_runs: Seq<Seq<Groups>>,
) -> MessageView {
    let received = match enemy {
        Some(groups) => with_pairs(
            MessageView {
                sender: Sender::Enemy,
                time: group_spec(groups, TIMESTAMP as int),
                ..blank_spec()
            },
            enemy_pairs,
        ),
        None => blank_spec(),
    };
    match client {
        Some(groups) => with_runs(
            MessageView { time: group_spec(groups, TIMESTAMP as int), ..received },
            client_runs,
        ),
        None => received,
    }
}

impl Message {
    /// Takes the pairs of the runs from `from` up to `to` into the message.
    pub fn absorb_runs(&mut self, runs: &Vec<Vec<Vec<Option<String>>>>, from: usize, to: usize)
        requires
            from <= to <= runs.len(),
        ensures
            final(self)@ == with_runs(
                old(self)@,
                runs.deep_view().subrange(from as int, to as int),
            ),
    {
        let mut i: usize = from;
        while i < to
            invariant
                from <= i <= to <= runs.len(),
                self@ == with_runs(old(self)@, runs.deep_view().subrange(from as int, i as int)),
            decreases to - i,
        {
            proof {
                let part = runs.deep_view().subrange(from as int, i + 1);
                assert(part.drop_last() =~= runs.deep_view().subrange(from as int, i as int));
            }
            self.absorb_pairs(&runs[i]);
            i += 1;
        }
    }

    /// Puts a message together from what the patterns found in a line; the
    /// runs of the line's segments are those from `from` up to `to`.
    pub fn assemble(
        enemy: &Option<Vec<Option<String>>>,
        enemy_pairs: &Vec<Vec<Option<String>>>,
        client: &Option<Vec<Option<String>>>,
        client_runs: &Vec<Vec<Vec<Option<String>>>>,
        from: usize,
        to: usize,
    ) -> (m: Message)
        requires
            from <= to <= client_runs.len(),
        ensures
            m@ == assembled(
                enemy.deep_view(),
                enemy_pairs.deep_view(),
                client.deep_view(),
                client_runs.deep_view().subrange(from as int, to as int),
            ),
    {
        let mut m = Message::blank();
        match enemy {
            Some(groups) => {
                m.sender = Sender::Enemy;
                m.time = group(groups, TIMESTAMP);
                m.absorb_pairs(enemy_pairs);
            },
            None => {},
        }
        match client {
            Some(groups) => {
                m.time = group(groups, TIMESTAMP);
                m.absorb_runs(client_runs, from, to);
            },
            None => {},
        }
        m
    }
}

/// The text of one group of a line, empty where the line did not match.
pub open spec fn group_text(found: Option<Groups>, index: int) -> Seq<char> {
    match found {
        Some(groups) => group_spec(groups, index),
        None => Seq::<char>::empty(),
    }
}

/// The pairs that the pattern of a sent pair finds in each segment.
pub open spec fn segment_runs(segments: Seq<Seq<char>>) -> Seq<Seq<Groups>> {
    Seq::new(segments.len(), |j: int| all_captures(CLIENT_PAIR@, segments[j]))
}

/// What `line` says: the message put together from what the two line
/// patterns find in it, from the pairs that the pattern of a received pair
/// finds in the payload of the one, and from those that the pattern of a
/// sent pair finds in each comma-separated segment of the payload of the
/// other.
pub open spec fn line_reading(line: Seq<char>) -> MessageView {
    let enemy = first_captures(ENEMY_LINE@, line);
    let client = first_captures(CLIENT_LINE@, line);
    assembled(
        enemy,
        all_captures(ENEMY_PAIR@, group_text(enemy, ENEMY_PAYLOAD as int)),
        client,
        segment_runs(split_spec(group_text(client, CLIENT_PAYLOAD as int), ',')),
    )
}

/// The message that `line` carries: none for an empty line, for a line of
/// neither form, and for one that names no action.
pub open spec fn line_message(line: Seq<char>) -> Option<MessageView> {
    if line.len() == 0 || line_reading(line).action.len() == 0 {
        None
    } else {
        Some(line_reading(line))
    }
}

/// The messages that `lines` carry, in the order of the lines.
pub open spec fn messages_spec(lines: Seq<Seq<char>>) -> Seq<MessageView>
    decreases lines.len(),
{
    if lines.len() == 0 {
        Seq::empty()
    } else {
        match line_message(lines.last()) {
            Some(m) => messages_spec(lines.drop_last()).push(m),
            None => messages_spec(lines.drop_last()),
        }
    }
}

/// A list of messages as contracts see it.
pub open spec fn message_views(messages: Seq<Message>) -> Seq<MessageView> {
    messages.map_values(|m: Message| m@)
}

/// The payload of each line, from what a line pattern found in it.
fn payloads(found: &Vec<Option<Vec<Option<String>>>>, index: usize) -> (texts: Vec<String>)
    ensures
        texts.len() == found.len(),
        forall|i: int|
            0 <= i < texts.len() ==> (#[trigger] texts@[i])@ == group_text(
                found@[i].deep_view(),
                index as int,
            ),
{
    let mut texts: Vec<String> = Vec::new();
    let mut i: usize = 0;
    while i < found.len()
        invariant
            i <= found.len(),
            texts.len() == i,
            forall|k: int|
                0 <= k < i ==> (#[trigger] texts@[k])@ == group_text(
                    found@[k].deep_view(),
                    index as int,
                ),
        decreases found.len() - i,
    {
        let text = match &found[i] {
            Some(groups) => group(groups, index),
            None => String::new(),
        };
        texts.push(text);
        i += 1;
    }
    texts
}

/// Whether the segments of payload `k` are those from `starts[k]` up to
/// `starts[k + 1]`.
spec fn laid_out_at(
    segments: Seq<Seq<char>>,
    starts: Seq<usize>,
    payloads: Seq<Seq<char>>,
    k: int,
) -> bool {
    &&& starts[k] <= starts[k + 1] <= segments.len()
    &&& segments.subrange(starts[k] as int, starts[k + 1] as int) == split_spec(payloads[k], ',')
}

/// The comma-separated segments of every payload in one list, and where in
/// that list the segments of each payload start.
fn segments_of(payloads: &Vec<String>) -> (r: (Vec<String>, Vec<usize>))
    ensures
        r.1.len() == payloads.len() + 1,
        forall|k: int|
            0 <= k < payloads.len() ==> #[trigger] laid_out_at(
                r.0.deep_view(),
                r.1@,
                payloads.deep_view(),
                k,
            ),
{
    let mut segments: Vec<String> = Vec::new();
    let mut starts: Vec<usize> = Vec::new();
    starts.push(0);
    let mut i: usize = 0;
    while i < payloads.len()
        invariant
            i <= payloads.len(),
            starts.len() == i + 1,
            starts@[i as int] == segments.len(),
            forall|k: int|
                0 <= k < i ==> #[trigger] laid_out_at(
                    segments.deep_view(),
                    starts@,
                    payloads.deep_view(),
                    k,
                ),
        decreases payloads.len() - i,
    {
        let pieces = split_on(payloads[i].as_str(), ',');
        let ghost before = segments.deep_view();
        let ghost old_starts = starts@;
        let mut j: usize = 0;
        while j < pieces.len()
            invariant
                j <= pieces.len(),
                segments.deep_view() == before + pieces.deep_view().take(j as int),
            decreases pieces.len() - j,
        {
            let piece = pieces[j].clone();
            let ghost so_far = segments.deep_view();
            segments.push(piece);
            assert(before + pieces.deep_view().take(j + 1) =~= so_far.push(piece@));
            j += 1;
        }
        starts.push(segments.len());
        assert forall|k: int| 0 <= k < i + 1 implies #[trigger] laid_out_at(
            segments.deep_view(),
            starts@,
            payloads.deep_view(),
            k,
        ) by {
            if k < i {
                assert(laid_out_at(before, old_starts, payloads.deep_view(), k));
                assert(segments.deep_view().subrange(starts@[k] as int, starts@[k + 1] as int)
                    =~= before.subrange(starts@[k] as int, starts@[k + 1] as int));
            } else {
                assert(segments.deep_view().subrange(starts@[k] as int, starts@[k + 1] as int)
                    =~= pieces.deep_view());
            }
        }
        i += 1;
    }
    (segments, starts)
}

impl Message {
    /// The messages that the lines of a log carry, in the order of the lines.
    pub fn messages_from_lines(lines: &Vec<String>) -> (messages: Vec<Message>)
        ensures
            message_views(messages@) == messages_spec(lines.deep_view()),
    {
        let enemy = captures_each(ENEMY_LINE, lines);
        let client = captures_each(CLIENT_LINE, lines);
        let enemy_payloads = payloads(&enemy, ENEMY_PAYLOAD);
        let enemy_pairs = captures_iter_each(ENEMY_PAIR, &enemy_payloads);
        let client_payloads = payloads(&client, CLIENT_PAYLOAD);
        let (segments, starts) = segments_of(&client_payloads);
        let client_runs = captures_iter_each(CLIENT_PAIR, &segments);
        let mut messages: Vec<Message> = Vec::new();
        let mut i: usize = 0;
        while i < lines.len()
            invariant
                i <= lines.len(),
                enemy.len() == lines.len(),
                client.len() == lines.len(),
                enemy_pairs.len() == lines.len(),
                client_payloads.len() == lines.len(),
                starts.len() == lines.len() + 1,
                client_runs.len() == segments.len(),
                forall|k: int|
                    0 <= k < lines.len() ==> (#[trigger] enemy@[k]).deep_view() == first_captures(
                        ENEMY_LINE@,
                        lines@[k]@,
                    ),
                forall|k: int|
                    0 <= k < lines.len() ==> (#[trigger] client@[k]).deep_view() == first_captures(
                        CLIENT_LINE@,
                        lines@[k]@,
                    ),
                forall|k: int|
                    0 <= k < lines.len() ==> (#[trigger] enemy_pairs@[k]).deep_view()
                        == all_captures(
                        ENEMY_PAIR@,
                        group_text(enemy@[k].deep_view(), ENEMY_PAYLOAD as int),
                    ),
                forall|k: int|
                    0 <= k < lines.len() ==> (#[trigger] client_payloads@[k])@ == group_text(
                        client@[k].deep_view(),
                        CLIENT_PAYLOAD as int,
                    ),
                forall|k: int|
                    0 <= k < lines.len() ==> #[trigger] laid_out_at(
                        segments.deep_view(),
                        starts@,
                        client_payloads.deep_view(),
                        k,
                    ),
                forall|k: int|
                    0 <= k < segments.len() ==> (#[trigger] client_runs@[k]).deep_view()
                        == all_captures(CLIENT_PAIR@, segments@[k]@),
                message_views(messages@) == messages_spec(lines.deep_view().take(i as int)),
            decreases lines.len() - i,
        {
            proof {
                let prefix = lines.deep_view().take(i + 1);
                assert(prefix.drop_last() =~= lines.deep_view().take(i as int));
            }
            if !lines[i].as_str().is_empty() {
                assert(laid_out_at(
                    segments.deep_view(),
                    starts@,
                    client_payloads.deep_view(),
                    i as int,
                ));
                let from = starts[i];
                let to = starts[i + 1];
                let m = Message::assemble(
                    &enemy[i],
                    &enemy_pairs[i],
                    &client[i],
                    &client_runs,
                    from,
                    to,
                );
                proof {
                    let pieces = split_spec(
                        group_text(client@[i as int].deep_view(), CLIENT_PAYLOAD as int),
                        ',',
                    );
                    let runs = client_runs.deep_view().subrange(from as int, to as int);
                    assert(runs =~= segment_runs(pieces));
                }
                if !m.action.as_str().is_empty() {
                    messages.push(m);
                }
            }
            i += 1;
        }
        assert(lines.deep_view().take(i as int) =~= lines.deep_view());
        messages
    }

    /// The message that one line of the log carries, if it carries one.
    pub fn from_line(line: &str) -> (r: Option<Message>)
        ensures
            match r {
                Some(m) => line_message(line@) == Some(m@),
                None => line_message(line@) is None,
            },
    {
        let mut lines: Vec<String> = Vec::new();
        lines.push(line.to_owned());
        assert(lines.deep_view().drop_last() =~= Seq::<Seq<char>>::empty());
        let mut messages = Message::messages_from_lines(&lines);
        let ghost all = messages@;
        assert(messages_spec(Seq::<Seq<char>>::empty()) =~= Seq::<MessageView>::empty());
        assert(message_views(all).len() == all.len());
        let found = messages.pop();
        proof {
            if found is Some {
                assert(message_views(all)[0] == all[0]@);
            }
        }
        found
    }

    /// The messages of a whole log, one for each line that is a protocol
    /// line and names an action, in the order of the lines.
    pub fn messages_from_string(contents: String) -> (messages: Vec<Message>)
        ensures
            message_views(messages@) == messages_spec(split_spec(contents@, '\n')),
            messages.len() <= non_empty_lines(split_spec(contents@, '\n')),
            forall|i: int| 0 <= i < messages.len() ==> (#[trigger] messages[i])@.action.len() > 0,
    {
        proof {
            law_messages_bounded_and_named(split_spec(contents@, '\n'));
        }
        let lines = crate::parse_lines(&contents);
        let messages = Message::messages_from_lines(&lines);
        assert forall|i: int| 0 <= i < messages.len() implies (#[trigger] messages[i])@.action.len()
            > 0 by {
            assert(message_views(messages@)[i] == messages[i]@);
        }
        messages
    }
}

/// The pairs of a payload change neither the sender nor the time.
pub proof fn lemma_pairs_keep_sender_and_time(m: MessageView, matches: Seq<Groups>)
    ensures
        with_pairs(m, matches).sender == m.sender,
        with_pairs(m, matches).time == m.time,
    decreases matches.len(),
{
    if matches.len() > 0 {
        lemma_pairs_keep_sender_and_time(m, matches.drop_last());
    }
}

/// Runs of pairs change neither the sender nor the time.
pub proof fn lemma_runs_keep_sender_and_time(m: MessageView, runs: Seq<Seq<Groups>>)
    ensures
        with_runs(m, runs).sender == m.sender,
        with_runs(m, runs).time == m.time,
    decreases runs.len(),
{
    if runs.len() > 0 {
        lemma_runs_keep_sender_and_time(m, runs.drop_last());
        lemma_pairs_keep_sender_and_time(with_runs(m, runs.drop_last()), runs.last());
    }
}

/// A message put together from a line in the form of a received message is
/// the other player's; any other is the local player's. Its time is that of
/// the line as a sent message where the line has that form, else that of the
/// line as a received message.
pub proof fn law_sender_and_time_follow_matches(
    enemy: Option<Groups>,
    enemy_pairs: Seq<Groups>,
    client: Option<Groups>,
    client_runs: Seq<Seq<Groups>>,
)
    ensures
        assembled(enemy, enemy_pairs, client, client_runs).sender == if enemy is Some {
            Sender::Enemy
        } else {
            Sender::Client
        },
        assembled(enemy, enemy_pairs, client, client_runs).time == if client is Some {
            group_text(client, TIMESTAMP as int)
        } else {
            group_text(enemy, TIMESTAMP as int)
        },
{
    let received = match enemy {
        Some(groups) => {
            let start = MessageView {
                sender: Sender::Enemy,
                time: group_spec(groups, TIMESTAMP as int),
                ..blank_spec()
            };
            lemma_pairs_keep_sender_and_time(start, enemy_pairs);
            with_pairs(start, enemy_pairs)
        },
        None => blank_spec(),
    };
    match client {
        Some(groups) => {
            lemma_runs_keep_sender_and_time(
                MessageView { time: group_spec(groups, TIMESTAMP as int), ..received },
                client_runs,
            );
        },
        None => {},
    }
}

/// A line in the form of a received message is read as the other player's.
/// A line in the form of a sent message is read as the local player's,
/// unless it has the form of a received message as well.
pub proof fn law_sender_follows_line_form(line: Seq<char>)
    ensures
        first_captures(ENEMY_LINE@, line) is Some ==> line_reading(line).sender == Sender::Enemy,
        first_captures(ENEMY_LINE@, line) is None ==> line_reading(line).sender == Sender::Client,
        line_message(line) matches Some(m) ==> m.sender == line_reading(line).sender,
{
    let enemy = first_captures(ENEMY_LINE@, line);
    let client = first_captures(CLIENT_LINE@, line);
    law_sender_and_time_follow_matches(
        enemy,
        all_captures(ENEMY_PAIR@, group_text(enemy, ENEMY_PAYLOAD as int)),
        client,
        segment_runs(split_spec(group_text(client, CLIENT_PAYLOAD as int), ',')),
    );
}

/// A line of neither form carries no message.
pub proof fn law_unrecognised_line_carries_nothing(line: Seq<char>)
    requires
        first_captures(ENEMY_LINE@, line) is None,
        first_captures(CLIENT_LINE@, line) is None,
    ensures
        line_message(line) is None,
{
}

/// The number of lines that are not empty.
pub open spec fn non_empty_lines(lines: Seq<Seq<char>>) -> nat
    decreases lines.len(),
{
    if lines.len() == 0 {
        0
    } else if lines.last().len() > 0 {
        non_empty_lines(lines.drop_last()) + 1
    } else {
        non_empty_lines(lines.drop_last())
    }
}

/// There are at most as many messages as there are lines that are not
/// empty, and every message names its action.
pub proof fn law_messages_bounded_and_named(lines: Seq<Seq<char>>)
    ensures
        messages_spec(lines).len() <= non_empty_lines(lines),
        forall|i: int|
            0 <= i < messages_spec(lines).len() ==> (#[trigger] messages_spec(
                lines,
            )[i]).action.len() > 0,
    decreases lines.len(),
{
    if lines.len() > 0 {
        law_messages_bounded_and_named(lines.drop_last());
    }
}

} // verus!
