//! The texts the command handlers compute before anything is sent: the
//! fixed links embed, the copy a moved message becomes, the confirmation
//! replies, and the cleaned stock ticker.

use vstd::prelude::*;
use vstd::string::*;

use crate::text::MessageLines;

verus! {

/// The title of the links embed.
pub fn links_title() -> (s: String)
    ensures
        s@ == "Links"@,
{
    String::from_str("Links")
}

/// The body of the links embed: the streaming channels and playlists, in
/// the chat's markup, line by line.
pub open spec fn links_body_text() -> Seq<char> {
    "\n"@ + "**"@ + "Twitch:"@ + "**"@ + "\n"@ + "- Star and Grey: https://www.twitch.tv/star_and_grey"@
        + "\n"@ + "\n"@ + "**"@ + "Youtube:"@ + "**"@ + "\n"@
        + "- Grey Monster: https://www.youtube.com/channel/UCFsWs9C4oDm_JMtmpLFX7eQ"@ + "\n"@
        + "- Emka: https://www.youtube.com/channel/UChUWneEkjNMqLNpp-vQ2DRQ"@ + "\n"@ + "\n"@
        + "__"@ + "Playlists Youtube Grey Monster:"@ + "__"@ + "\n"@ + "["@ + "Path of Exile"@
        + "]("@ + "https://www.youtube.com/playlist?list=PLqxDFE_3dqg4UXiu1jTqLSB0PaN8o7482"@
        + ")"@ + "\n"@ + "["@ + "Nioh 2"@ + "]("@
        + "https://youtube.com/playlist?list=PLqxDFE_3dqg6bhDcYdDHBUb8jkoQlBeiO"@ + ")"@
}

/// Build the body of the links embed.
pub fn links_body() -> (s: String)
    ensures
        s@ == links_body_text(),
{
    let mut m = MessageLines::new();
    m.push_line("");
    m.push_bold_line("Twitch:");
    m.push_line("- Star and Grey: https://www.twitch.tv/star_and_grey");
    m.push_line("");
    m.push_bold_line("Youtube:");
    m.push_line("- Grey Monster: https://www.youtube.com/channel/UCFsWs9C4oDm_JMtmpLFX7eQ");
    m.push_line("- Emka: https://www.youtube.com/channel/UChUWneEkjNMqLNpp-vQ2DRQ");
    m.push_line("");
    m.push_underline_line("Playlists Youtube Grey Monster:");
    m.push_named_link(
        "Path of Exile",
        "https://www.youtube.com/playlist?list=PLqxDFE_3dqg4UXiu1jTqLSB0PaN8o7482",
    );
    m.push_line("");
    m.push_named_link("Nioh 2", "https://youtube.com/playlist?list=PLqxDFE_3dqg6bhDcYdDHBUb8jkoQlBeiO");
    let s = m.build();
    proof {
        reveal_strlit("");
        assert(s@ =~= links_body_text());
    }
    s
}

/// A message is moved only between two different channels; moving it onto
/// its own channel is a no-op.
pub fn move_message_plan(source_channel: u64, target_channel: u64) -> (proceed: bool)
    ensures
        proceed == (source_channel != target_channel),
{
    source_channel != target_channel
}

/// The text a moved message becomes: its content, then the original
/// poster's name on a line of its own.
pub open spec fn moved_message_text(content: Seq<char>, poster: Seq<char>) -> Seq<char> {
    content + "\n"@ + "(Original Poster: "@ + poster + ")"@ + "\n"@
}

/// Build the copy of a moved message.
pub fn build_moved_message(content: &str, poster: &str) -> (s: String)
    ensures
        s@ == moved_message_text(content@, poster@),
{
    let mut m = MessageLines::new();
    m.push_line(content);
    let mut tail = String::from_str("(Original Poster: ");
    tail.append(poster);
    tail.append(")");
    m.push_line(tail.as_str());
    let s = m.build();
    proof {
        assert(s@ =~= moved_message_text(content@, poster@));
    }
    s
}

/// The reply of the member-confirmation command: one text for a member who
/// already holds the role, another for one just confirmed.
pub open spec fn confirmation_text(already_confirmed: bool) -> Seq<char> {
    if already_confirmed {
        "You're already a confirmed member, congratulations."@
    } else {
        "You are now confirmed."@
    }
}

/// Build the member-confirmation reply.
pub fn confirmation_reply(already_confirmed: bool) -> (s: String)
    ensures
        s@ == confirmation_text(already_confirmed),
{
    if already_confirmed {
        String::from_str("You're already a confirmed member, congratulations.")
    } else {
        String::from_str("You are now confirmed.")
    }
}

/// A raw ticker argument with any leading dollar sign removed.
pub open spec fn stripped_ticker(raw: Seq<char>) -> Seq<char> {
    if raw.len() > 0 && raw[0] == '$' {
        raw.subrange(1, raw.len() as int)
    } else {
        raw
    }
}

/// Clean a stock ticker argument: drop a leading dollar sign, and reject
/// an argument with nothing left.
pub fn normalize_ticker(raw: &str) -> (r: Option<String>)
    ensures
        (r is Some) == (stripped_ticker(raw@).len() > 0),
        r is Some ==> r->Some_0@ == stripped_ticker(raw@),
{
    let n = raw.unicode_len();
    let stripped: &str = if n > 0 && raw.get_char(0) == '$' {
        raw.substring_char(1, n)
    } else {
        raw
    };
    if stripped.unicode_len() == 0 {
        None
    } else {
        Some(stripped.to_owned())
    }
}

} // verus!
