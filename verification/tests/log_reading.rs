use mc_chat_bridge::minecraft::{ChatMessage, LogParser, MessageType};

fn parser() -> LogParser {
    LogParser::new().expect("the log patterns compile")
}

fn read(p: &mut LogParser, line: &str) -> Option<(ChatMessage, i32)> {
    p.try_parse_line_checked(line.to_string()).expect("the line can be read")
}

fn parts(r: Option<(ChatMessage, i32)>) -> Option<(MessageType, String, String, i32)> {
    r.map(|(m, d)| (m.get_message_type(), m.get_message_text(), m.get_player(), d))
}

const STARTED: &str = "[12:00:00] [Server thread/INFO]: Done (3.215s)! For help, type \"help\"";
const STOPPING: &str = "[12:30:00] [Server thread/INFO]: Stopping server";
const JOINED: &str = "[12:00:01] [Server thread/INFO]: Steve joined the game";
const LEFT: &str = "[12:20:00] [Server thread/INFO]: Steve left the game";
const CHAT: &str = "[12:00:02] [Server thread/INFO]: <Steve> hello world";
const DEATH: &str = "[12:10:00] [Server thread/INFO]: Steve fell from a high place";

#[test]
fn start_line_reports_server_started_once() {
    let mut p = parser();
    assert_eq!(
        parts(read(&mut p, STARTED)),
        Some((MessageType::DEATH, "Server Started".to_string(), "MHF_Grass".to_string(), 0))
    );
    assert_eq!(parts(read(&mut p, STARTED)), None);
}

#[test]
fn stop_line_reports_server_stopped_only_after_start() {
    let mut p = parser();
    assert_eq!(parts(read(&mut p, STOPPING)), None);
    read(&mut p, STARTED);
    assert_eq!(
        parts(read(&mut p, STOPPING)),
        Some((MessageType::DEATH, "Server Stopped".to_string(), "MHF_Grass".to_string(), 0))
    );
    assert_eq!(
        parts(read(&mut p, STARTED)),
        Some((MessageType::DEATH, "Server Started".to_string(), "MHF_Grass".to_string(), 0))
    );
}

#[test]
fn chat_line_is_relayed() {
    let mut p = parser();
    assert_eq!(
        parts(read(&mut p, CHAT)),
        Some((MessageType::CHAT, "hello world".to_string(), "Steve".to_string(), 0))
    );
}

#[test]
fn slash_command_is_not_relayed() {
    let mut p = parser();
    let line = "[12:00:03] [Server thread/INFO]: /say <Bob> hi there";
    assert_eq!(parts(read(&mut p, line)), None);
}

#[test]
fn chat_line_with_too_few_colons_cannot_be_read() {
    let mut p = parser();
    let line = "[noon] [Server thread/INFO]: <Steve> hi";
    assert!(p.try_parse_line_checked(line.to_string()).is_none());
}

#[test]
fn join_and_leave_change_the_count() {
    let mut p = parser();
    assert_eq!(
        parts(read(&mut p, JOINED)),
        Some((MessageType::JOIN, "Steve joined the game".to_string(), "Steve".to_string(), 1))
    );
    assert_eq!(
        parts(read(&mut p, LEFT)),
        Some((MessageType::LEAVE, "Steve left the game".to_string(), "Steve".to_string(), -1))
    );
}

#[test]
fn death_reported_only_for_online_player_while_started() {
    let mut p = parser();
    read(&mut p, JOINED);
    assert_eq!(parts(read(&mut p, DEATH)), None);
    read(&mut p, STARTED);
    assert_eq!(
        parts(read(&mut p, DEATH)),
        Some((
            MessageType::DEATH,
            "Steve fell from a high place".to_string(),
            "Steve".to_string(),
            0
        ))
    );
}

#[test]
fn join_then_leave_then_death_is_not_reported() {
    let mut p = parser();
    read(&mut p, STARTED);
    read(&mut p, JOINED);
    read(&mut p, LEFT);
    assert_eq!(parts(read(&mut p, DEATH)), None);
}

/// The name group of these patterns is taken at the last word start that
/// still lets the rest match, so on the server's usual wording it holds "the".
#[test]
fn advancement_and_challenge_lines_are_relayed() {
    let mut p = parser();
    assert_eq!(
        parts(read(&mut p, "[12:05:00] [Server thread/INFO]: Steve has made the advancement [Stone Age]")),
        Some((
            MessageType::ADVANCEMENT,
            "the has made the advancement [Stone Age]".to_string(),
            "the".to_string(),
            0
        ))
    );
    assert_eq!(
        parts(read(&mut p, "[12:06:00] [Server thread/INFO]: Steve has completed the challenge [Monster Hunter]")),
        Some((
            MessageType::CHALLENGE,
            "the has completed the challenge [Monster Hunter]".to_string(),
            "the".to_string(),
            0
        ))
    );
}

#[test]
fn other_lines_are_ignored() {
    let mut p = parser();
    read(&mut p, STARTED);
    assert_eq!(parts(read(&mut p, "[12:00:09] [Server thread/WARN]: Can't keep up!")), None);
    assert_eq!(parts(read(&mut p, "plain output")), None);
}

#[test]
fn unchecked_reading_agrees_with_checked() {
    let mut p = parser();
    let mut q = parser();
    for line in [STARTED, JOINED, CHAT, DEATH, LEFT, STOPPING] {
        assert_eq!(parts(p.try_parse_line(line.to_string())), parts(read(&mut q, line)));
    }
}

#[test]
fn chat_message_getters() {
    let m = ChatMessage::new(MessageType::CHAT, "hi".to_string(), "Alex".to_string());
    assert_eq!(m.get_player(), "Alex");
    assert_eq!(m.get_message_text(), "hi");
    assert_eq!(m.get_message_type(), MessageType::CHAT);
}
