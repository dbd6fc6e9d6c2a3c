//! The first, chat-only reader of the server's log: it finds a player's name
//! tag anywhere in a line and relays the text after it.

use vstd::prelude::*;

use crate::minecraft::{is_slash_command, ChatMessage, ChatMessageView, MessageType};
use crate::pattern::{regex_captures, regex_compiles, Pattern};
use crate::text::{
    after_first, after_first_pair, chars_of, find_from, find_pair_in, remove_char, split_field,
    without_char,
};

verus! {

/// A player's name tag: `<name>`.
pub const NAME_TAG_PATTERN: &'static str = r"<[A-Za-z0-9_-]+>";

/// The text after the first colon, and then after the first space.
pub open spec fn chat_text(line: Seq<char>) -> Option<Seq<char>> {
    match after_first(line, ':') {
        Some(rest) => after_first(rest, ' '),
        None => None,
    }
}

/// The lines on which reading fails: a line with a name tag that has fewer
/// than three colons, or that is no command and holds no `"> "`.
pub open spec fn chat_line_fails(line: Seq<char>, tag: Option<Seq<Option<Seq<char>>>>) -> bool {
    &&& tag is Some
    &&& {
        ||| split_field(line, ':', 3) is None
        ||| !is_slash_command(line) && after_first_pair(line, '>', ' ') is None
    }
}

/// The message read from `line`, given the name tag found in it: nothing for
/// a line without a tag or for a command; else a chat message by the tag's
/// name, its angle brackets taken out, with the text after the first `"> "`.
pub open spec fn chat_line_message(line: Seq<char>, tag: Option<Seq<Option<Seq<char>>>>) -> Option<
    ChatMessageView,
> {
    match tag {
        Some(groups) => if is_slash_command(line) {
            None
        } else {
            Some(
                ChatMessageView {
                    message_type: MessageType::CHAT,
                    message_text: after_first_pair(line, '>', ' ').unwrap(),
                    player_name: remove_char(remove_char(groups[0].unwrap(), '<'), '>'),
                },
            )
        },
        None => None,
    }
}

/// A message's outcome as plain values.
pub open spec fn message_view(r: &Option<ChatMessage>) -> Option<ChatMessageView> {
    match r {
        Some(m) => Some(m@),
        None => None,
    }
}

/// Reads chat lines from the server's log.
pub struct LogParser {
    regex: Pattern,
}

impl LogParser {
    /// The pattern is the name tag.
    pub closed spec fn wf(&self) -> bool {
        self.regex.source() == NAME_TAG_PATTERN@
    }

    /// The text of a chat line: after the first colon, then after the first
    /// space.
    pub fn get_chat_message(line: String) -> (res: String)
        requires
            chat_text(line@) is Some,
        ensures
            res@ == chat_text(line@).unwrap(),
    {
        let chars = chars_of(line.as_str());
        let colon = match find_from(&chars, ':', 0) {
            Some(i) => i,
            None => 0,
        };
        assert(line@.skip(0) =~= line@);
        let rest_start = colon + 1;
        let space = match find_from(&chars, ' ', rest_start) {
            Some(j) => j,
            None => rest_start,
        };
        assert(line@.skip(rest_start as int).skip(space - rest_start + 1) =~= line@.skip(space + 1));
        String::from_str(line.as_str().substring_char(space + 1, chars.len()))
    }

    /// A reader; `None` when the name tag pattern does not compile.
    pub fn new() -> (res: Option<Self>)
        ensures
            res is Some <==> regex_compiles(NAME_TAG_PATTERN@),
            res matches Some(p) ==> p.wf(),
    {
        match Pattern::compile(NAME_TAG_PATTERN) {
            Some(regex) => Some(Self { regex }),
            None => None,
        }
    }

    /// Reads one line, given the name tag found in it.
    pub fn apply_tag(&self, line: &str, tag: &Option<Vec<Option<String>>>) -> (res: Option<ChatMessage>)
        requires
            !chat_line_fails(line@, tag.deep_view()),
            tag matches Some(groups) ==> groups@.len() >= 1 && groups@[0] is Some,
        ensures
            message_view(&res) == chat_line_message(line@, tag.deep_view()),
    {
        match tag {
            Some(groups) => {
                let chars = chars_of(line);
                let slash = match crate::minecraft::slash_command(line) {
                    Some(b) => b,
                    None => false,
                };
                if slash {
                    return None;
                }
                let whole = match &groups[0] {
                    Some(text) => text.clone(),
                    None => String::new(),
                };
                let no_open = without_char(whole.as_str(), '<');
                let player_name = without_char(no_open.as_str(), '>');
                let start = match find_pair_in(&chars, '>', ' ') {
                    Some(i) => i + 2,
                    None => chars.len(),
                };
                let message_text = String::from_str(line.substring_char(start, chars.len()));
                Some(ChatMessage::new(MessageType::CHAT, message_text, player_name))
            },
            None => None,
        }
    }

    /// Reads one line of the server's log: a chat message, if it is one.
    pub fn try_parse_line(&self, line: String) -> (res: Option<ChatMessage>)
        requires
            self.wf(),
            !chat_line_fails(line@, regex_captures(NAME_TAG_PATTERN@, line@)),
        ensures
            message_view(&res) == chat_line_message(line@, regex_captures(NAME_TAG_PATTERN@, line@)),
    {
        let tag = self.regex.captures(line.as_str());
        self.apply_tag(line.as_str(), &tag)
    }

    /// Reads one line as [`LogParser::try_parse_line`] does, but first tests
    /// whether reading it would fail; then it returns `None`.
    pub fn try_parse_line_checked(&self, line: String) -> (res: Option<Option<ChatMessage>>)
        requires
            self.wf(),
        ensures
            res is None <==> chat_line_fails(line@, regex_captures(NAME_TAG_PATTERN@, line@)),
            res matches Some(r) ==> message_view(&r) == chat_line_message(
                line@,
                regex_captures(NAME_TAG_PATTERN@, line@),
            ),
    {
        let tag = self.regex.captures(line.as_str());
        let fails = match &tag {
            Some(_) => match crate::minecraft::slash_command(line.as_str()) {
                None => true,
                Some(true) => false,
                Some(false) => find_pair_in(&chars_of(line.as_str()), '>', ' ').is_none(),
            },
            None => false,
        };
        if fails {
            None
        } else {
            Some(self.try_parse_line(line))
        }
    }
}

} // verus!
