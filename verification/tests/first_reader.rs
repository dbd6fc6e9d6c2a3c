use mc_chat_bridge::log_parser::LogParser;
use mc_chat_bridge::minecraft::MessageType;
use mc_chat_bridge::players::PlayerSet;

#[test]
fn chat_text_after_colon_and_space() {
    assert_eq!(
        LogParser::get_chat_message("[12:00:00] [Server thread/INFO]: <Steve> hi".to_string()),
        "[Server thread/INFO]: <Steve> hi"
    );
    assert_eq!(LogParser::get_chat_message("a:b c".to_string()), "c");
}

#[test]
fn name_tag_line_becomes_chat() {
    let p = LogParser::new().expect("the name tag pattern compiles");
    let m = p
        .try_parse_line("[12:00:00] [Server thread/INFO]: <Steve> hello there".to_string())
        .expect("a chat line");
    assert_eq!(m.get_message_type(), MessageType::CHAT);
    assert_eq!(m.get_player(), "Steve");
    assert_eq!(m.get_message_text(), "hello there");
}

#[test]
fn line_without_tag_is_ignored() {
    let p = LogParser::new().unwrap();
    assert!(p.try_parse_line("[12:00:00] [Server thread/INFO]: Done".to_string()).is_none());
    assert_eq!(
        p.try_parse_line_checked("no tag here".to_string()).map(|r| r.is_none()),
        Some(true)
    );
}

#[test]
fn tagged_line_without_reply_marker_cannot_be_read() {
    let p = LogParser::new().unwrap();
    assert!(p.try_parse_line_checked("[12:00:00] [x]: <Steve>hello".to_string()).is_none());
    assert!(p.try_parse_line_checked("[noon] <Steve> hello".to_string()).is_none());
}

#[test]
fn player_set_holds_each_name_once() {
    let mut s = PlayerSet::new();
    s.insert("Steve".to_string());
    s.insert("Steve".to_string());
    assert!(s.contains(&"Steve".to_string()));
    s.remove(&"Steve".to_string());
    assert!(!s.contains(&"Steve".to_string()));
    s.remove(&"Alex".to_string());
    assert!(!s.contains(&"Alex".to_string()));
}
