//! What goes to Discord, and what comes back from it.
//!
//! Messages read from the server's log become embeds in the bridge channel;
//! messages posted in that channel become `tellraw` commands for the server's
//! console.

use vstd::prelude::*;

use crate::minecraft::{ChatMessage, MessageType};
use crate::text::{concat, has_prefix};

verus! {

/// Start of the address of a player's face picture.
pub const FACE_URL_START: &'static str = "https://mc-api.io/render/face/";

/// End of the address of a player's face picture.
pub const FACE_URL_END: &'static str = "/java";

/// The author shown on embeds that the server itself reports.
pub const SERVER_AUTHOR: &'static str = "Server";

/// The command prefix that asks for the test embed.
pub const TEST_COMMAND: &'static str = ".poop";

/// The command text up to the author's name.
pub const TELLRAW_OPEN: &'static str = "tellraw @a [\"\",{\"text\":\"<\",\"color\":\"blue\"},{\"text\":\"";

/// The command text between the author's name and the message.
pub const TELLRAW_AFTER_NAME: &'static str = "\"},{\"text\":\">\",\"color\":\"blue\"},{\"text\":\" ";

/// The command text that ends a message without attachments.
pub const TELLRAW_CLOSE: &'static str = "\"}]\n";

/// The command text between a message and the link to its attachments.
pub const TELLRAW_BEFORE_LINK: &'static str = "\"},{\"text\":\"[\",\"color\":\"blue\"},{\"text\":\"see Discord for attachments\",\"clickEvent\":{\"action\":\"open_url\",\"value\":\"";

/// The command text that ends a message with attachments.
pub const TELLRAW_AFTER_LINK: &'static str = "\"}},{\"text\":\"]\",\"color\":\"blue\"}]\n";

/// The address of the picture of `player`'s face.
pub open spec fn face_url(player: Seq<char>) -> Seq<char> {
    FACE_URL_START@ + player + FACE_URL_END@
}

/// The embed colour for each kind of message: Discord's blurple for chat, the
/// same vibrance in other hues for the rest.
pub open spec fn embed_colour(t: MessageType) -> u32 {
    match t {
        MessageType::JOIN => 0x67f257,
        MessageType::LEAVE => 0xf25a57,
        MessageType::DEATH => 0x5f5f5f,
        MessageType::CHAT => 0x5865f2,
        MessageType::ADVANCEMENT => 0xf2f257,
        MessageType::CHALLENGE => 0xb257f2,
    }
}

/// The embed that shows a message read from the server's log.
pub struct MinecraftEmbed {
    pub title: String,
    pub author_name: String,
    pub author_icon_url: String,
    pub colour: u32,
}

/// The address of the picture of `player`'s face.
pub fn face_icon_url(player: &str) -> (res: String)
    ensures
        res@ == face_url(player@),
{
    let head = concat(FACE_URL_START, player);
    concat(head.as_str(), FACE_URL_END)
}

/// The colour of the embed for a message of kind `t`.
pub fn colour_of(t: MessageType) -> (res: u32)
    ensures
        res == embed_colour(t),
{
    match t {
        MessageType::JOIN => 0x67f257,
        MessageType::LEAVE => 0xf25a57,
        MessageType::DEATH => 0x5f5f5f,
        MessageType::CHAT => 0x5865f2,
        MessageType::ADVANCEMENT => 0xf2f257,
        MessageType::CHALLENGE => 0xb257f2,
    }
}

/// The embed for `message`: its text as title, its player's face as the
/// author's picture, the player as author of chat and the server as author
/// of everything else, and the colour of its kind.
pub fn minecraft_embed(message: &ChatMessage) -> (res: MinecraftEmbed)
    ensures
        res.title@ == message@.message_text,
        res.author_icon_url@ == face_url(message@.player_name),
        res.author_name@ == if message@.message_type == MessageType::CHAT {
            message@.player_name
        } else {
            SERVER_AUTHOR@
        },
        res.colour == embed_colour(message@.message_type),
{
    let player = message.get_player();
    let message_type = message.get_message_type();
    let author_icon_url = face_icon_url(player.as_str());
    let author_name = match message_type {
        MessageType::CHAT => player,
        _ => String::from_str(SERVER_AUTHOR),
    };
    MinecraftEmbed {
        title: message.get_message_text(),
        author_name,
        author_icon_url,
        colour: colour_of(message_type),
    }
}

/// The console command that shows a Discord message in the game's chat: the
/// author in blue angle brackets, then the message; with attachments, a
/// space when the message is longer than one byte, and a link to them.
pub open spec fn tellraw_command(
    author: Seq<char>,
    content: Seq<char>,
    attachment_link: Option<Seq<char>>,
    spaced: bool,
) -> Seq<char> {
    let head = TELLRAW_OPEN@ + author + TELLRAW_AFTER_NAME@ + content;
    match attachment_link {
        Some(link) => head + (if spaced {
            " "@
        } else {
            ""@
        }) + TELLRAW_BEFORE_LINK@ + link + TELLRAW_AFTER_LINK@,
        None => head + TELLRAW_CLOSE@,
    }
}

/// The console command for a Discord message from `author`.
pub fn tellraw(author: &str, content: &str, attachment_link: Option<&str>) -> (res: String)
    ensures
        res@ == tellraw_command(author@, content@, attachment_link.deep_view(), content.len() > 1),
{
    let mut res = String::from_str(TELLRAW_OPEN);
    res.append(author);
    res.append(TELLRAW_AFTER_NAME);
    res.append(content);
    match attachment_link {
        Some(link) => {
            if content.len() > 1 {
                res.append(" ");
            } else {
                res.append("");
            }
            res.append(TELLRAW_BEFORE_LINK);
            res.append(link);
            res.append(TELLRAW_AFTER_LINK);
        },
        None => {
            res.append(TELLRAW_CLOSE);
        },
    }
    res
}

/// What to do about a message posted on Discord.
pub enum DiscordAction {
    /// Post the test embed in the channel the message came from.
    SendTestEmbed,
    /// Queue this command for the server's console.
    QueueCommand(String),
    /// Nothing.
    Ignore,
}

/// Answers messages posted on Discord.
pub struct MessageHandler;

impl MessageHandler {
    /// Decides about one Discord message: the test command gets the test
    /// embed; a message from a person in the bridge channel becomes a
    /// `tellraw` command; anything else is ignored.  `attachment_link` is the
    /// message's link when it has attachments.
    pub fn handle_message(
        &self,
        content: &str,
        author_name: &str,
        author_is_bot: bool,
        in_bridge_channel: bool,
        attachment_link: Option<&str>,
    ) -> (res: DiscordAction)
        ensures
            TEST_COMMAND@.is_prefix_of(content@) ==> res is SendTestEmbed,
            !TEST_COMMAND@.is_prefix_of(content@) && !author_is_bot && in_bridge_channel ==> (
            res matches DiscordAction::QueueCommand(cmd) && cmd@ == tellraw_command(
                author_name@,
                content@,
                attachment_link.deep_view(),
                content.len() > 1,
            )),
            !TEST_COMMAND@.is_prefix_of(content@) && !(!author_is_bot && in_bridge_channel)
                ==> res is Ignore,
    {
        if has_prefix(content, TEST_COMMAND) {
            DiscordAction::SendTestEmbed
        } else if !author_is_bot && in_bridge_channel {
            DiscordAction::QueueCommand(tellraw(author_name, content, attachment_link))
        } else {
            DiscordAction::Ignore
        }
    }
}


/// The address of a face picture holds the whole player name between its
/// fixed start and end, so different players get different pictures.
pub proof fn law_face_url_holds_whole_name(p: Seq<char>, q: Seq<char>)
    ensures
        FACE_URL_START@.is_prefix_of(face_url(p)),
        FACE_URL_END@.is_suffix_of(face_url(p)),
        face_url(p).len() == FACE_URL_START@.len() + p.len() + FACE_URL_END@.len(),
        face_url(p).subrange(
            FACE_URL_START@.len() as int,
            face_url(p).len() - FACE_URL_END@.len(),
        ) == p,
        face_url(p) == face_url(q) ==> p == q,
{
    let u = face_url(p);
    let a = FACE_URL_START@.len() as int;
    let e = FACE_URL_END@.len() as int;
    assert(u.subrange(a, u.len() - e) =~= p);
    assert(u.subrange(0, a) =~= FACE_URL_START@);
    assert(u.subrange(u.len() - e, u.len() as int) =~= FACE_URL_END@);
    let v = face_url(q);
    assert(v.subrange(a, v.len() - e) =~= q);
}

/// A command for a Discord message always starts with the author in angle
/// brackets and the whole message; with attachments it always ends with the
/// link to them (after one space exactly when the message is longer than one
/// byte), whatever the message, the empty one included; without attachments
/// it ends right after the message.
pub proof fn law_tellraw_carries_author_text_and_link(
    author: Seq<char>,
    content: Seq<char>,
    attachment_link: Option<Seq<char>>,
    spaced: bool,
)
    ensures
        ({
            let cmd = tellraw_command(author, content, attachment_link, spaced);
            let head = TELLRAW_OPEN@ + author + TELLRAW_AFTER_NAME@ + content;
            &&& head.is_prefix_of(cmd)
            &&& match attachment_link {
                Some(l) => {
                    let tail = TELLRAW_BEFORE_LINK@ + l + TELLRAW_AFTER_LINK@;
                    &&& tail.is_suffix_of(cmd)
                    &&& cmd.len() == head.len() + tail.len() + (if spaced { 1int } else { 0int })
                    &&& spaced ==> cmd[head.len() as int] == ' '
                },
                None => {
                    &&& TELLRAW_CLOSE@.is_suffix_of(cmd)
                    &&& cmd.len() == head.len() + TELLRAW_CLOSE@.len()
                },
            }
        }),
{
    reveal_strlit(" ");
    reveal_strlit("");
    let cmd = tellraw_command(author, content, attachment_link, spaced);
    let head = TELLRAW_OPEN@ + author + TELLRAW_AFTER_NAME@ + content;
    assert(cmd.subrange(0, head.len() as int) =~= head);
    match attachment_link {
        Some(l) => {
            let tail = TELLRAW_BEFORE_LINK@ + l + TELLRAW_AFTER_LINK@;
            let sep: Seq<char> = if spaced { " "@ } else { ""@ };
            assert(cmd =~= head + sep + tail);
            assert(cmd.subrange(cmd.len() - tail.len(), cmd.len() as int) =~= tail);
        },
        None => {
            assert(cmd.subrange(cmd.len() - TELLRAW_CLOSE@.len(), cmd.len() as int) =~= TELLRAW_CLOSE@);
        },
    }
}

} // verus!
