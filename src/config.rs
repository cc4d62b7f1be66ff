use vstd::prelude::*;
use vstd::string::StringSliceAdditionalSpecFns;
use crate::provider::has_prefix;
use crate::text::{ascii, ascii_bytes, starts_with};

verus! {

broadcast use vstd::string::group_string_axioms;

/// The prefix of bot commands; such messages are never spoken.
pub const COMMAND_PREFIX: &'static str = "tts!";

/// The voice a user has until they choose one.
pub const DEFAULT_VOICE: &'static str = "tiktok-en_us_002";

/// A guild's settings: the voice channel joined and the text channel read aloud.
#[derive(Clone, Copy, Debug, PartialEq, Eq)]
pub struct Server {
    pub id: i64,
    pub voice_channel: Option<i64>,
    pub text_channel: Option<i64>,
}

/// A user's settings within one guild.
#[derive(Clone, Debug, PartialEq, Eq)]
pub struct User {
    pub id: i64,
    pub server_id: i64,
    pub voice: String,
}

impl Server {
    /// The settings of guild `id`: those stored, or the defaults where none are.
    pub fn from_db(id: i64, stored: Option<Server>) -> (r: Server)
        ensures
            r == match stored {
                Some(s) => s,
                None => Server { id, voice_channel: None, text_channel: None },
            },
    {
        match stored {
            Some(s) => s,
            None => Server { id, voice_channel: None, text_channel: None },
        }
    }

    pub fn update_voice_channel(self, channel_id: i64) -> (r: Server)
        ensures
            r == (Server { voice_channel: Some(channel_id), ..self }),
    {
        Server { voice_channel: Some(channel_id), ..self }
    }

    pub fn update_text_channel(self, channel_id: i64) -> (r: Server)
        ensures
            r == (Server { text_channel: Some(channel_id), ..self }),
    {
        Server { text_channel: Some(channel_id), ..self }
    }
}

impl User {
    /// The settings of user `id` in guild `server_id`: those stored, or the
    /// default voice where none are.
    pub fn from_db(id: i64, server_id: i64, stored: Option<User>) -> (r: User)
        ensures
            match stored {
                Some(u) => r == u,
                None => r.id == id && r.server_id == server_id && r.voice@ == DEFAULT_VOICE@,
            },
    {
        match stored {
            Some(u) => u,
            None => User { id, server_id, voice: DEFAULT_VOICE.to_owned() },
        }
    }

    pub fn update_voice(self, voice: &str) -> (r: User)
        ensures
            r.id == self.id && r.server_id == self.server_id && r.voice@ == voice@,
    {
        User { voice: voice.to_owned(), ..self }
    }
}

/// Whether a message is read aloud: it was posted in the guild's text channel,
/// not by a bot, is not empty, and is not a command.
pub fn is_eligible(text_channel: Option<i64>, channel_id: i64, author_is_bot: bool, content: &str) -> (r:
    bool)
    ensures
        r == (text_channel == Some(channel_id) && !author_is_bot && content@.len() > 0 && !has_prefix(
            content.spec_bytes(),
            ascii(COMMAND_PREFIX@),
        )),
{
    let in_channel = match text_channel {
        Some(t) => t == channel_id,
        None => false,
    };
    if !in_channel || author_is_bot || content.is_empty() {
        return false;
    }
    proof {
        reveal_strlit("tts!");
    }
    !starts_with(content.as_bytes(), ascii_bytes(COMMAND_PREFIX))
}

} // verus!
