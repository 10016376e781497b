# irc_message

What an IRC client shows of the traffic on a connection: which buffer a message
of the wire protocol belongs in, the line of text that stands for it there, and
when it was sent. The library is written in Rust and verified with Verus: each
function states what it returns, and the statements are proved.

- `src/message.rs`: lines of a buffer, and what becomes of a message that comes in
- `src/message/routing.rs`: the buffer that a message belongs in
- `src/message/wording.rs`: the text of its line
- `src/message/laws.rs`: what holds of every message
- `src/proto.rs`, `src/proto/command.rs`: messages of the protocol, by their fields
- `src/user.rs`: nicknames, users, and their standing in a channel
- `src/ctcp.rs`: queries between clients, such as actions
- `src/time.rs`: points in time, over the `chrono` and `timeago` crates
- `src/strings.rs`: searching, joining and reading numbers
- `src/config.rs`: the settings for server messages
- `app/`: the same types in the form in which a client stores them

The functions of `src/time.rs` that are marked `external_body` call the two outside
crates. What they state of these is not proved; each says what that is.

A line on who set a topic holds a date whose year has four digits. A message with a
later one is left out by `dates_fit`, which `Encoded::has_fitting_dates` tests.
