//! Recognising the Minecraft server's console log.
//!
//! Each line of the server's output is matched against the patterns below;
//! the first that applies decides what, if anything, is relayed to Discord.
//! The parser also follows whether the server has finished starting and who
//! is online.

use vstd::prelude::*;

use crate::pattern::{captures_view, regex_captures, regex_compiles, Pattern};
use crate::players::PlayerSet;
use crate::util::GetSetWrapper;
use crate::text::{concat, contains_char, chars_of, first_char_except, remove_char, split_field, split_field_range};

verus! {

/// A chat line: `[time] [Server thread/INFO]...<player> message`.
pub const CHAT_PATTERN: &'static str = r"^\[[^\]]+\]\s*\[Server thread/INFO\].+\s*<([^>]+)> (.+)";

/// A completed challenge: group 1 is taken as the player's name (the last
/// word start that lets the rest match), group 2 is the challenge's title.
pub const CHALLENGE_PATTERN: &'static str =
    r"^\[[^\]]+\]\s*\[Server thread/INFO\].+\s*\<([A-Za-z-0-9_\-]+).*challenge ([\[A-Za-z 0-9_\-!.\]]+)";

/// A made advancement: group 1 is taken as the player's name (the last word
/// start that lets the rest match), group 2 is the advancement's title.
pub const ADVANCEMENT_PATTERN: &'static str =
    r"^\[[^\]]+\]\s*\[Server thread/INFO\].+\s*\<([A-Za-z-0-9_\-]+).*advancement ([\[A-Za-z 0-9_\-!.\]]+)";

/// A player joining.
pub const JOINED_PATTERN: &'static str =
    r"^\[[^\]]+\]\s*\[Server thread/INFO\].+\s([A-Za-z-0-9_\-]+) joined the game";

/// A player leaving.
pub const LEFT_PATTERN: &'static str =
    r"^\[[^\]]+\]\s*\[Server thread/INFO\].+\s([A-Za-z-0-9_\-]+) left the game";

/// Any other server message that begins with a player name: taken as a death
/// when that player is online.  Group 1 is the text before the colon, group 2
/// the message, group 3 the player.
pub const DEATH_PATTERN: &'static str =
    r"^\[[^\]]+\]\s*\[Server thread/INFO\](.+|):\s(\<([A-Za-z-0-9_\-]+).*)";

/// The server has finished starting.
pub const SERVER_STARTED_PATTERN: &'static str =
    r"^\[[^\]]+\]\s*\[Server thread/INFO\].+\sDone.+! For help, type";

/// The server is shutting down.
pub const SERVER_STOPPING_PATTERN: &'static str =
    r"^\[[^\]]+\]\s*\[Server thread/INFO\].+ (Stopping server|Stopping the server)";

/// What kind of event a relayed message reports.
#[allow(non_camel_case_types)]
#[derive(Clone, Copy, Debug, PartialEq, Eq, Structural)]
pub enum MessageType {
    JOIN,
    LEAVE,
    DEATH,
    CHAT,
    ADVANCEMENT,
    CHALLENGE,
}

/// A message to relay: its kind, its text, and the player it concerns.
#[derive(Debug)]
pub struct ChatMessage {
    message_type: MessageType,
    message_text: String,
    player_name: String,
}

/// A [`ChatMessage`] seen as plain values.
pub struct ChatMessageView {
    pub message_type: MessageType,
    pub message_text: Seq<char>,
    pub player_name: Seq<char>,
}

impl View for ChatMessage {
    type V = ChatMessageView;

    closed spec fn view(&self) -> ChatMessageView {
        ChatMessageView {
            message_type: self.message_type,
            message_text: self.message_text@,
            player_name: self.player_name@,
        }
    }
}

impl ChatMessage {
    /// A message of the given kind, text and player.
    pub fn new(message_type: MessageType, message_text: String, player_name: String) -> (res:
        ChatMessage)
        ensures
            res@ == (ChatMessageView {
                message_type,
                message_text: message_text@,
                player_name: player_name@,
            }),
    {
        ChatMessage { message_type, message_text, player_name }
    }

    /// The player the message concerns.
    pub fn get_player(&self) -> (res: String)
        ensures
            res@ == self@.player_name,
    {
        self.player_name.clone()
    }

    /// The text of the message.
    pub fn get_message_text(&self) -> (res: String)
        ensures
            res@ == self@.message_text,
    {
        self.message_text.clone()
    }

    /// The kind of the message.
    pub fn get_message_type(&self) -> (res: MessageType)
        ensures
            res == self@.message_type,
    {
        self.message_type.clone()
    }
}

/// The capture groups of one pattern on one line, as plain values.
pub type CapturesView = Option<Seq<Option<Seq<char>>>>;

/// The capture groups of one pattern on one line.
pub type Captures = Option<Vec<Option<String>>>;

/// The pattern matched and group `i` took part in the match.
pub open spec fn has_group(c: CapturesView, i: int) -> bool {
    &&& c is Some
    &&& 0 <= i < c.unwrap().len()
    &&& c.unwrap()[i] is Some
}

/// The text of group `i`.
pub open spec fn group(c: CapturesView, i: int) -> Seq<char> {
    c.unwrap()[i].unwrap()
}

/// What every pattern of the parser reports on one line.
pub struct LineMatches {
    pub started: Captures,
    pub stopping: Captures,
    pub chat: Captures,
    pub joined: Captures,
    pub left: Captures,
    pub advancement: Captures,
    pub challenge: Captures,
    pub death: Captures,
}

/// [`LineMatches`] as plain values.
pub struct LineMatchesView {
    pub started: CapturesView,
    pub stopping: CapturesView,
    pub chat: CapturesView,
    pub joined: CapturesView,
    pub left: CapturesView,
    pub advancement: CapturesView,
    pub challenge: CapturesView,
    pub death: CapturesView,
}

impl View for LineMatches {
    type V = LineMatchesView;

    open spec fn view(&self) -> LineMatchesView {
        LineMatchesView {
            started: captures_view(&self.started),
            stopping: captures_view(&self.stopping),
            chat: captures_view(&self.chat),
            joined: captures_view(&self.joined),
            left: captures_view(&self.left),
            advancement: captures_view(&self.advancement),
            challenge: captures_view(&self.challenge),
            death: captures_view(&self.death),
        }
    }
}

/// What the server's patterns report on `line`.
pub open spec fn log_line_matches(line: Seq<char>) -> LineMatchesView {
    LineMatchesView {
        started: regex_captures(SERVER_STARTED_PATTERN@, line),
        stopping: regex_captures(SERVER_STOPPING_PATTERN@, line),
        chat: regex_captures(CHAT_PATTERN@, line),
        joined: regex_captures(JOINED_PATTERN@, line),
        left: regex_captures(LEFT_PATTERN@, line),
        advancement: regex_captures(ADVANCEMENT_PATTERN@, line),
        challenge: regex_captures(CHALLENGE_PATTERN@, line),
        death: regex_captures(DEATH_PATTERN@, line),
    }
}

/// A chat line that is a command: the piece after its third colon, spaces
/// left out, starts with `/`.
pub open spec fn is_slash_command(line: Seq<char>) -> bool {
    match split_field(line, ':', 3) {
        Some(f) => {
            let t = remove_char(f, ' ');
            t.len() > 0 && t[0] == '/'
        },
        None => false,
    }
}

/// A notice from the server itself.
pub open spec fn server_notice(text: Seq<char>) -> ChatMessageView {
    ChatMessageView { message_type: MessageType::DEATH, message_text: text, player_name: "MHF_Grass"@ }
}

/// A message about player `p`.
pub open spec fn player_message(t: MessageType, text: Seq<char>, p: Seq<char>) -> ChatMessageView {
    ChatMessageView { message_type: t, message_text: text, player_name: p }
}

/// The lines on which reading a line fails: a chat line with fewer than three
/// colons, or a capture group that the line's reading needs but that did not
/// take part in the match.
pub open spec fn parse_line_fails(
    logging: bool,
    players: Set<Seq<char>>,
    line: Seq<char>,
    m: LineMatchesView,
) -> bool {
    if !logging && m.started is Some {
        false
    } else if logging && m.stopping is Some {
        false
    } else if m.chat is Some {
        ||| split_field(line, ':', 3) is None
        ||| !is_slash_command(line) && !(has_group(m.chat, 1) && has_group(m.chat, 2))
    } else if m.joined is Some {
        !has_group(m.joined, 1)
    } else if m.left is Some {
        !has_group(m.left, 1)
    } else if m.advancement is Some {
        !(has_group(m.advancement, 1) && has_group(m.advancement, 2))
    } else if m.challenge is Some {
        !(has_group(m.challenge, 1) && has_group(m.challenge, 2))
    } else if m.death is Some && logging {
        ||| !has_group(m.death, 1)
        ||| !group(m.death, 1).contains(':') && !has_group(m.death, 3)
        ||| !group(m.death, 1).contains(':') && players.contains(group(m.death, 3)) && !has_group(
            m.death,
            2,
        )
    } else {
        false
    }
}

/// The reading of one line: whether the server counts as started afterwards,
/// who is online afterwards, and the message to relay with the change in the
/// number of players online.
pub open spec fn parse_line_step(
    logging: bool,
    players: Set<Seq<char>>,
    line: Seq<char>,
    m: LineMatchesView,
) -> (bool, Set<Seq<char>>, Option<(ChatMessageView, i32)>) {
    if !logging && m.started is Some {
        (true, players, Some((server_notice("Server Started"@), 0i32)))
    } else if logging && m.stopping is Some {
        (false, players, Some((server_notice("Server Stopped"@), 0i32)))
    } else if m.chat is Some {
        if is_slash_command(line) {
            (logging, players, None)
        } else {
            (
                logging,
                players,
                Some(
                    (
                        player_message(MessageType::CHAT, group(m.chat, 2), group(m.chat, 1)),
                        0i32,
                    ),
                ),
            )
        }
    } else if m.joined is Some {
        let p = group(m.joined, 1);
        (
            logging,
            players.insert(p),
            Some((player_message(MessageType::JOIN, p + " joined the game"@, p), 1i32)),
        )
    } else if m.left is Some {
        let p = group(m.left, 1);
        (
            logging,
            players.remove(p),
            Some((player_message(MessageType::LEAVE, p + " left the game"@, p), -1i32)),
        )
    } else if m.advancement is Some {
        let p = group(m.advancement, 1);
        let text = p + " has made the advancement "@ + group(m.advancement, 2);
        (logging, players, Some((player_message(MessageType::ADVANCEMENT, text, p), 0i32)))
    } else if m.challenge is Some {
        let p = group(m.challenge, 1);
        let text = p + " has completed the challenge "@ + group(m.challenge, 2);
        (logging, players, Some((player_message(MessageType::CHALLENGE, text, p), 0i32)))
    } else if m.death is Some && logging && !group(m.death, 1).contains(':') {
        let p = group(m.death, 3);
        if players.contains(p) {
            (
                logging,
                players,
                Some((player_message(MessageType::DEATH, group(m.death, 2), p), 0i32)),
            )
        } else {
            (logging, players, None)
        }
    } else {
        (logging, players, None)
    }
}

/// A reading's outcome, as plain values.
pub open spec fn outcome_view(r: &Option<(ChatMessage, i32)>) -> Option<(ChatMessageView, i32)> {
    match r {
        Some((msg, delta)) => Some((msg@, *delta)),
        None => None,
    }
}

/// The text of group `i`.
fn group_text(c: &Captures, i: usize) -> (res: String)
    requires
        has_group(captures_view(c), i as int),
    ensures
        res@ == group(captures_view(c), i as int),
{
    match c {
        Some(groups) => match &groups[i] {
            Some(text) => text.clone(),
            None => String::new(),
        },
        None => String::new(),
    }
}

/// Whether `line` is a slash command; `None` when it has fewer than three
/// colons.
pub fn slash_command(line: &str) -> (res: Option<bool>)
    ensures
        res is Some <==> split_field(line@, ':', 3) is Some,
        res matches Some(b) ==> b == is_slash_command(line@),
{
    let chars = chars_of(line);
    match split_field_range(&chars, ':', 3) {
        Some((a, b)) => match first_char_except(&chars, a, b, ' ') {
            Some(c) => Some(c == '/'),
            None => Some(false),
        },
        None => None,
    }
}

/// Reads the Minecraft server's log, one line at a time.
pub struct LogParser {
    chat_regex: Pattern,
    joined_regex: Pattern,
    left_regex: Pattern,
    advancement_regex: Pattern,
    challenge_regex: Pattern,
    death_regex: Pattern,
    server_started: Pattern,
    server_stopping: Pattern,
    connected_players: PlayerSet,
    start_logging: bool,
}

impl LogParser {
    /// Each pattern is the one named above, and the player set is well formed.
    pub closed spec fn wf(&self) -> bool {
        &&& self.chat_regex.source() == CHAT_PATTERN@
        &&& self.joined_regex.source() == JOINED_PATTERN@
        &&& self.left_regex.source() == LEFT_PATTERN@
        &&& self.advancement_regex.source() == ADVANCEMENT_PATTERN@
        &&& self.challenge_regex.source() == CHALLENGE_PATTERN@
        &&& self.death_regex.source() == DEATH_PATTERN@
        &&& self.server_started.source() == SERVER_STARTED_PATTERN@
        &&& self.server_stopping.source() == SERVER_STOPPING_PATTERN@
        &&& self.connected_players.wf()
    }

    /// Whether the server has finished starting (and not begun stopping).
    pub closed spec fn logging(&self) -> bool {
        self.start_logging
    }

    /// The players online.
    pub closed spec fn players(&self) -> Set<Seq<char>> {
        self.connected_players.view()
    }

    /// Every pattern compiles with the `regex` crate.
    pub open spec fn patterns_compile() -> bool {
        &&& regex_compiles(CHAT_PATTERN@)
        &&& regex_compiles(JOINED_PATTERN@)
        &&& regex_compiles(LEFT_PATTERN@)
        &&& regex_compiles(ADVANCEMENT_PATTERN@)
        &&& regex_compiles(CHALLENGE_PATTERN@)
        &&& regex_compiles(DEATH_PATTERN@)
        &&& regex_compiles(SERVER_STARTED_PATTERN@)
        &&& regex_compiles(SERVER_STOPPING_PATTERN@)
    }

    /// A parser for a server that has not started yet, with nobody online;
    /// `None` when a pattern does not compile.
    pub fn new() -> (res: Option<Self>)
        ensures
            res is Some <==> Self::patterns_compile(),
            res matches Some(p) ==> {
                &&& p.wf()
                &&& !p.logging()
                &&& p.players() == Set::<Seq<char>>::empty()
            },
    {
        let chat = Pattern::compile(CHAT_PATTERN);
        let challenge = Pattern::compile(CHALLENGE_PATTERN);
        let advancement = Pattern::compile(ADVANCEMENT_PATTERN);
        let joined_game = Pattern::compile(JOINED_PATTERN);
        let left_the_game = Pattern::compile(LEFT_PATTERN);
        let death = Pattern::compile(DEATH_PATTERN);
        let start_logging_indicator = Pattern::compile(SERVER_STARTED_PATTERN);
        let server_stop = Pattern::compile(SERVER_STOPPING_PATTERN);
        match (chat, challenge, advancement, joined_game, left_the_game, death, start_logging_indicator, server_stop) {
            (
                Some(chat),
                Some(challenge),
                Some(advancement),
                Some(joined_game),
                Some(left_the_game),
                Some(death),
                Some(start_logging_indicator),
                Some(server_stop),
            ) => Some(
                LogParser {
                    chat_regex: chat,
                    joined_regex: joined_game,
                    left_regex: left_the_game,
                    advancement_regex: advancement,
                    challenge_regex: challenge,
                    death_regex: death,
                    server_started: start_logging_indicator,
                    server_stopping: server_stop,
                    connected_players: PlayerSet::new(),
                    start_logging: false,
                },
            ),
            _ => None,
        }
    }

    /// What every pattern reports on `line`.
    pub fn match_line(&self, line: &str) -> (res: LineMatches)
        requires
            self.wf(),
        ensures
            res@ == log_line_matches(line@),
    {
        LineMatches {
            started: self.server_started.captures(line),
            stopping: self.server_stopping.captures(line),
            chat: self.chat_regex.captures(line),
            joined: self.joined_regex.captures(line),
            left: self.left_regex.captures(line),
            advancement: self.advancement_regex.captures(line),
            challenge: self.challenge_regex.captures(line),
            death: self.death_regex.captures(line),
        }
    }

    /// Whether the group `i` of `c` took part in the match.
    fn present(c: &Captures, i: usize) -> (res: bool)
        ensures
            res == has_group(captures_view(c), i as int),
    {
        match c {
            Some(groups) => i < groups.len() && groups[i].is_some(),
            None => false,
        }
    }

    /// Whether reading `line`, with these matches, would fail.
    pub fn fails_on(&self, line: &str, m: &LineMatches) -> (res: bool)
        requires
            self.wf(),
        ensures
            res == parse_line_fails(self.logging(), self.players(), line@, m@),
    {
        if !self.start_logging && m.started.is_some() {
            false
        } else if self.start_logging && m.stopping.is_some() {
            false
        } else if m.chat.is_some() {
            match slash_command(line) {
                None => true,
                Some(slash) => !slash && !(Self::present(&m.chat, 1) && Self::present(&m.chat, 2)),
            }
        } else if m.joined.is_some() {
            !Self::present(&m.joined, 1)
        } else if m.left.is_some() {
            !Self::present(&m.left, 1)
        } else if m.advancement.is_some() {
            !(Self::present(&m.advancement, 1) && Self::present(&m.advancement, 2))
        } else if m.challenge.is_some() {
            !(Self::present(&m.challenge, 1) && Self::present(&m.challenge, 2))
        } else if m.death.is_some() && self.start_logging {
            if !Self::present(&m.death, 1) {
                true
            } else if contains_char(group_text(&m.death, 1).as_str(), ':') {
                false
            } else if !Self::present(&m.death, 3) {
                true
            } else {
                self.connected_players.contains(&group_text(&m.death, 3)) && !Self::present(
                    &m.death,
                    2,
                )
            }
        } else {
            false
        }
    }

    /// Reads one line, given what every pattern reports on it: the message to
    /// relay, if any, with the change in the number of players online.
    pub fn apply_matches(&mut self, line: &str, m: &LineMatches) -> (res: Option<(ChatMessage, i32)>)
        requires
            old(self).wf(),
            !parse_line_fails(old(self).logging(), old(self).players(), line@, m@),
        ensures
            final(self).wf(),
            (final(self).logging(), final(self).players(), outcome_view(&res)) == parse_line_step(
                old(self).logging(),
                old(self).players(),
                line@,
                m@,
            ),
    {
        if !self.start_logging && m.started.is_some() {
            self.start_logging = true;
            return Some(
                (
                    ChatMessage::new(
                        MessageType::DEATH,
                        String::from_str("Server Started"),
                        String::from_str("MHF_Grass"),
                    ),
                    0,
                ),
            );
        }
        if self.start_logging && m.stopping.is_some() {
            self.start_logging = false;
            return Some(
                (
                    ChatMessage::new(
                        MessageType::DEATH,
                        String::from_str("Server Stopped"),
                        String::from_str("MHF_Grass"),
                    ),
                    0,
                ),
            );
        }
        if m.chat.is_some() {
            match slash_command(line) {
                Some(true) => None,
                Some(false) => {
                    let player_name = group_text(&m.chat, 1);
                    let message_text = group_text(&m.chat, 2);
                    Some((ChatMessage::new(MessageType::CHAT, message_text, player_name), 0))
                },
                None => None,
            }
        } else if m.joined.is_some() {
            let player_name = group_text(&m.joined, 1);
            self.connected_players.insert(player_name.clone());
            let text = concat(player_name.as_str(), " joined the game");
            Some((ChatMessage::new(MessageType::JOIN, text, player_name), 1))
        } else if m.left.is_some() {
            let player_name = group_text(&m.left, 1);
            self.connected_players.remove(&player_name);
            let text = concat(player_name.as_str(), " left the game");
            Some((ChatMessage::new(MessageType::LEAVE, text, player_name), -1))
        } else if m.advancement.is_some() {
            let player_name = group_text(&m.advancement, 1);
            let title = group_text(&m.advancement, 2);
            let head = concat(player_name.as_str(), " has made the advancement ");
            let text = concat(head.as_str(), title.as_str());
            Some((ChatMessage::new(MessageType::ADVANCEMENT, text, player_name), 0))
        } else if m.challenge.is_some() {
            let player_name = group_text(&m.challenge, 1);
            let title = group_text(&m.challenge, 2);
            let head = concat(player_name.as_str(), " has completed the challenge ");
            let text = concat(head.as_str(), title.as_str());
            Some((ChatMessage::new(MessageType::CHALLENGE, text, player_name), 0))
        } else if m.death.is_some() && self.start_logging && !contains_char(
            group_text(&m.death, 1).as_str(),
            ':',
        ) {
            let player_name = group_text(&m.death, 3);
            if self.connected_players.contains(&player_name) {
                let message_text = group_text(&m.death, 2);
                Some((ChatMessage::new(MessageType::DEATH, message_text, player_name), 0))
            } else {
                None
            }
        } else {
            None
        }
    }

    /// Reads one line of the server's log: the message to relay, if any, with
    /// the change in the number of players online.
    pub fn try_parse_line(&mut self, line: String) -> (res: Option<(ChatMessage, i32)>)
        requires
            old(self).wf(),
            !parse_line_fails(old(self).logging(), old(self).players(), line@, log_line_matches(line@)),
        ensures
            final(self).wf(),
            (final(self).logging(), final(self).players(), outcome_view(&res)) == parse_line_step(
                old(self).logging(),
                old(self).players(),
                line@,
                log_line_matches(line@),
            ),
    {
        let m = self.match_line(line.as_str());
        self.apply_matches(line.as_str(), &m)
    }

    /// Reads one line as [`LogParser::try_parse_line`] does, but first tests
    /// whether reading it would fail; then it returns `None` and leaves the
    /// parser as it was.
    pub fn try_parse_line_checked(&mut self, line: String) -> (res: Option<Option<(ChatMessage, i32)>>)
        requires
            old(self).wf(),
        ensures
            final(self).wf(),
            res is None <==> parse_line_fails(old(self).logging(), old(self).players(), line@, log_line_matches(line@)),
            res is None ==> final(self).logging() == old(self).logging() && final(self).players() == old(self).players(),
            res matches Some(r) ==> (final(self).logging(), final(self).players(), outcome_view(&r)) == parse_line_step(
                old(self).logging(),
                old(self).players(),
                line@,
                log_line_matches(line@),
            ),
    {
        let m = self.match_line(line.as_str());
        if self.fails_on(line.as_str(), &m) {
            None
        } else {
            Some(self.try_parse_line(line))
        }
    }
}


/// Counts a change in the number of players online, as reported with a
/// message; no change leaves the count alone.
pub fn record_player_delta(count: &mut GetSetWrapper<i32>, delta: i32)
    requires
        i32::MIN <= old(count)@ + delta <= i32::MAX,
    ensures
        final(count)@ == old(count)@ + delta,
{
    if delta != 0 {
        count.add(delta);
    }
}

/// Whether the server counts as started changes only on its start and stop
/// lines: a start line switches it on when it was off, a stop line off when
/// it was on.
pub proof fn law_logging_follows_start_and_stop(
    logging: bool,
    players: Set<Seq<char>>,
    line: Seq<char>,
    m: LineMatchesView,
)
    ensures
        parse_line_step(logging, players, line, m).0 == if logging {
            m.stopping is None
        } else {
            m.started is Some
        },
{
}

/// Only join and leave lines change who is online, and they are the only
/// lines that change the count: by one up for a join, by one down for a
/// leave.
pub proof fn law_players_change_on_join_and_leave(
    logging: bool,
    players: Set<Seq<char>>,
    line: Seq<char>,
    m: LineMatchesView,
)
    ensures
        ({
            let (_, after, out) = parse_line_step(logging, players, line, m);
            match out {
                Some((msg, delta)) => {
                    &&& msg.message_type == MessageType::JOIN ==> delta == 1 && after
                        == players.insert(msg.player_name)
                    &&& msg.message_type == MessageType::LEAVE ==> delta == -1 && after
                        == players.remove(msg.player_name)
                    &&& msg.message_type != MessageType::JOIN && msg.message_type
                        != MessageType::LEAVE ==> delta == 0 && after == players
                },
                None => after == players,
            }
        }),
{
}

/// A chat line that is a slash command is never relayed.
pub proof fn law_commands_are_not_relayed(
    logging: bool,
    players: Set<Seq<char>>,
    line: Seq<char>,
    m: LineMatchesView,
)
    requires
        !(!logging && m.started is Some),
        !(logging && m.stopping is Some),
        m.chat is Some,
        is_slash_command(line),
    ensures
        parse_line_step(logging, players, line, m) == (logging, players, Option::<(ChatMessageView, i32)>::None),
{
}

/// A death is reported only while the server counts as started, and only of
/// a player who is online; the server's own notices carry its name instead.
pub proof fn law_deaths_only_of_online_players(
    logging: bool,
    players: Set<Seq<char>>,
    line: Seq<char>,
    m: LineMatchesView,
)
    ensures
        match parse_line_step(logging, players, line, m).2 {
            Some((msg, _)) => msg.message_type == MessageType::DEATH ==> {
                ||| msg == server_notice("Server Started"@) && !logging
                ||| msg == server_notice("Server Stopped"@) && logging
                ||| logging && players.contains(msg.player_name)
            },
            None => true,
        },
{
}

/// After a player's join line and then that player's leave line, the player
/// is not online, and the two changes to the count cancel out.
pub proof fn law_join_then_leave(
    logging: bool,
    players: Set<Seq<char>>,
    line1: Seq<char>,
    m1: LineMatchesView,
    line2: Seq<char>,
    m2: LineMatchesView,
    p: Seq<char>,
)
    requires
        ({
            let out1 = parse_line_step(logging, players, line1, m1).2;
            &&& out1 is Some
            &&& out1.unwrap().0.message_type == MessageType::JOIN
            &&& out1.unwrap().0.player_name == p
        }),
        ({
            let (l1, s1, _) = parse_line_step(logging, players, line1, m1);
            let out2 = parse_line_step(l1, s1, line2, m2).2;
            &&& out2 is Some
            &&& out2.unwrap().0.message_type == MessageType::LEAVE
            &&& out2.unwrap().0.player_name == p
        }),
    ensures
        ({
            let (l1, s1, out1) = parse_line_step(logging, players, line1, m1);
            let (l2, s2, out2) = parse_line_step(l1, s1, line2, m2);
            &&& !s2.contains(p)
            &&& s2 == players.remove(p)
            &&& out1.unwrap().1 + out2.unwrap().1 == 0
        }),
{
    let (l1, s1, out1) = parse_line_step(logging, players, line1, m1);
    law_players_change_on_join_and_leave(logging, players, line1, m1);
    law_players_change_on_join_and_leave(l1, s1, line2, m2);
    assert(s1.remove(p) =~= players.remove(p));
}


/// A chat line that is no command, read while neither a start nor a stop
/// line applies, is relayed whole: its text is everything the chat pattern's
/// second group took, its author the first group, and it leaves the state
/// and the count alone.
pub proof fn law_chat_is_relayed_whole(
    logging: bool,
    players: Set<Seq<char>>,
    line: Seq<char>,
    m: LineMatchesView,
)
    requires
        !(!logging && m.started is Some),
        !(logging && m.stopping is Some),
        m.chat is Some,
        !is_slash_command(line),
    ensures
        ({
            let (l, after, out) = parse_line_step(logging, players, line, m);
            &&& l == logging
            &&& after == players
            &&& out is Some
            &&& out.unwrap().1 == 0
            &&& out.unwrap().0.message_type == MessageType::CHAT
            &&& out.unwrap().0.message_text == m.chat.unwrap()[2].unwrap()
            &&& out.unwrap().0.player_name == m.chat.unwrap()[1].unwrap()
        }),
{
}

/// A join is always announced as the player's name followed by
/// " joined the game" and counts one up; a leave as the name followed by
/// " left the game" and counts one down; whether the server counts as
/// started makes no difference.
pub proof fn law_join_and_leave_wording(
    logging: bool,
    players: Set<Seq<char>>,
    line: Seq<char>,
    m: LineMatchesView,
)
    ensures
        ({
            let out = parse_line_step(logging, players, line, m).2;
            &&& out is Some && out.unwrap().0.message_type == MessageType::JOIN ==> {
                &&& out.unwrap().0.message_text == out.unwrap().0.player_name + " joined the game"@
                &&& out.unwrap().1 == 1
            }
            &&& out is Some && out.unwrap().0.message_type == MessageType::LEAVE ==> {
                &&& out.unwrap().0.message_text == out.unwrap().0.player_name + " left the game"@
                &&& out.unwrap().1 == -1
            }
        }),
{
}

/// A join line is announced the same way whether or not the server counts
/// as started.
pub proof fn law_join_ignores_started(
    players: Set<Seq<char>>,
    line: Seq<char>,
    m: LineMatchesView,
)
    requires
        m.started is None,
        m.stopping is None,
        m.chat is None,
        m.joined is Some,
    ensures
        parse_line_step(true, players, line, m).2 == parse_line_step(false, players, line, m).2,
        parse_line_step(true, players, line, m).1 == parse_line_step(false, players, line, m).1,
{
}

} // verus!
