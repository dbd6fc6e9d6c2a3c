use mc_chat_bridge::discord::{
    face_icon_url, minecraft_embed, tellraw, DiscordAction, MessageHandler,
};
use mc_chat_bridge::minecraft::{ChatMessage, MessageType};

#[test]
fn face_url_names_the_player() {
    assert_eq!(face_icon_url("Steve"), "https://mc-api.io/render/face/Steve/java");
}

#[test]
fn chat_embed_is_authored_by_the_player() {
    let m = ChatMessage::new(MessageType::CHAT, "hello".to_string(), "Steve".to_string());
    let e = minecraft_embed(&m);
    assert_eq!(e.title, "hello");
    assert_eq!(e.author_name, "Steve");
    assert_eq!(e.author_icon_url, "https://mc-api.io/render/face/Steve/java");
    assert_eq!(e.colour, 0x5865f2);
}

#[test]
fn other_embeds_are_authored_by_the_server() {
    let cases = [
        (MessageType::JOIN, 0x67f257),
        (MessageType::LEAVE, 0xf25a57),
        (MessageType::DEATH, 0x5f5f5f),
        (MessageType::ADVANCEMENT, 0xf2f257),
        (MessageType::CHALLENGE, 0xb257f2),
    ];
    for (t, colour) in cases {
        let m = ChatMessage::new(t, "text".to_string(), "Alex".to_string());
        let e = minecraft_embed(&m);
        assert_eq!(e.author_name, "Server");
        assert_eq!(e.author_icon_url, "https://mc-api.io/render/face/Alex/java");
        assert_eq!(e.colour, colour);
        assert_eq!(e.title, "text");
    }
}

#[test]
fn tellraw_without_attachments() {
    assert_eq!(
        tellraw("Bob", "hi all", None),
        "tellraw @a [\"\",{\"text\":\"<\",\"color\":\"blue\"},{\"text\":\"Bob\"},{\"text\":\">\",\"color\":\"blue\"},{\"text\":\" hi all\"}]\n"
    );
}

#[test]
fn tellraw_with_attachments() {
    let link = "https://discord.com/channels/1/2/3";
    assert_eq!(
        tellraw("Bob", "look", Some(link)),
        format!(
            "tellraw @a [\"\",{{\"text\":\"<\",\"color\":\"blue\"}},{{\"text\":\"{}\"}},{{\"text\":\">\",\"color\":\"blue\"}},{{\"text\":\" {}{}\"}},{{\"text\":\"[\",\"color\":\"blue\"}},{{\"text\":\"see Discord for attachments\",\"clickEvent\":{{\"action\":\"open_url\",\"value\":\"{}\"}}}},{{\"text\":\"]\",\"color\":\"blue\"}}]\n",
            "Bob", "look", " ", link
        )
    );
    assert!(tellraw("Bob", "x", Some(link)).contains("{\"text\":\" x\"},{\"text\":\"[\""));
    assert!(tellraw("Bob", "é", Some(link)).contains("{\"text\":\" é \"},{\"text\":\"[\""));
}

#[test]
fn test_command_gets_the_test_embed() {
    let h = MessageHandler;
    assert!(matches!(h.handle_message(".poop now", "Bob", true, false, None), DiscordAction::SendTestEmbed));
}

#[test]
fn bridge_channel_message_becomes_a_command() {
    let h = MessageHandler;
    match h.handle_message("hi", "Bob", false, true, None) {
        DiscordAction::QueueCommand(cmd) => assert_eq!(cmd, tellraw("Bob", "hi", None)),
        _ => panic!("expected a command"),
    }
}

#[test]
fn bots_and_other_channels_are_ignored() {
    let h = MessageHandler;
    assert!(matches!(h.handle_message("hi", "Bot", true, true, None), DiscordAction::Ignore));
    assert!(matches!(h.handle_message("hi", "Bob", false, false, None), DiscordAction::Ignore));
}
