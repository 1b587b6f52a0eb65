# discorss

A chat bot that follows RSS, Atom and JSON feeds for the servers it is in.
Each server keeps a record: the channel where updates are posted, the
webhook that posts them, how often feeds are checked, and the list of
subscribed feed addresses.

## Layout

- `src/` is the library, with its proofs. Every command is written as
  a function from the options the user gave and the server's stored record
  to a reply and, where something changes, the record to store. Commands
  that must talk to the chat service or fetch a feed in the middle are
  split into steps: a first step that decides which call is needed, and a
  second one that takes the call's outcome.
  - `structs/` the server record and its mathematical view;
  - `links.rs` URL checks, through the `url` crate;
  - `feed.rs` whether fetched content is a feed, through `feed-rs`;
  - `feed_input.rs` which fetched texts the feed parser can be handed
    without stopping the program (the program checks each text first);
  - `feed_list.rs` searching and editing the list of feeds;
  - `commands/` one module per command, and `builder.rs` for the command
    descriptions that are registered with the chat service;
  - `events.rs` which command an interaction runs, and registration;
  - `laws.rs` properties of the commands taken together (a subscription
    can be undone, feeds never repeat, a set channel can be unset, ...).
- `app/` is the program: it connects to the chat service with `serenity`,
  keeps the records in a `pickledb` file, fetches feeds with `reqwest`, and
  runs the library's steps.
- `tests/` runs the library on concrete values.

Environment: `BOT_TOKEN`, `DATABASE_FILE_PATH`, and optionally
`LOGS_STORE_FOLDER`.
