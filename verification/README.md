# mc_chat_bridge

A bridge between a Minecraft server's console and a Discord channel.

- `src/` is the verified library (Verus):
  - `minecraft.rs` reads the server's log: which lines are relayed, who is
    online, whether the server has finished starting; with its laws.
  - `log_parser.rs` the first, chat-only reader of the log.
  - `discord.rs` the embeds posted to Discord and the `tellraw` commands
    made from Discord messages.
  - `util.rs` the value holder, platform separators, and the launch argument.
  - `players.rs` the set of online players; `text.rs` text scanning;
    `pattern.rs` the trusted items around the `regex` crate.
- `app/` is the program: it starts the server, talks to Discord through
  serenity, and runs the loops.
- `tests/` exercises the library with the real `regex` crate.
