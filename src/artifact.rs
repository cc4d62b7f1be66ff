use vstd::prelude::*;
use crate::text::{ascii, decimal, append_ascii, append_decimal};

verus! {

/// Where a message came from: it scopes the name of the artifact.
#[derive(Clone, Copy, Debug, PartialEq, Eq)]
pub struct Context {
    pub guild_id: u64,
    pub channel_id: u64,
    pub author_id: u64,
}

/// The directory, under the artifact root, that holds a context's artifacts:
/// `tts/<guild>/<channel>`.
pub open spec fn dir_of(c: Context) -> Seq<u8> {
    ascii("tts/"@) + decimal(c.guild_id as nat) + ascii("/"@) + decimal(c.channel_id as nat)
}

/// The artifact's file name: `<guild>-<channel>-<author>.mp3`.
pub open spec fn file_of(c: Context) -> Seq<u8> {
    decimal(c.guild_id as nat) + ascii("-"@) + decimal(c.channel_id as nat) + ascii("-"@)
        + decimal(c.author_id as nat) + ascii(".mp3"@)
}

/// The artifact's path: inside the context's directory, or `tts/test.mp3` without one.
pub open spec fn path_of(ctx: Option<Context>) -> Seq<u8> {
    match ctx {
        Some(c) => dir_of(c) + ascii("/"@) + file_of(c),
        None => ascii("tts/test.mp3"@),
    }
}

/// Where an artifact is written before it is renamed to its final path.
pub open spec fn staging_of(path: Seq<u8>) -> Seq<u8> {
    path + ascii(".part"@)
}

/// Builds the directory that holds the artifacts of `c`.
pub fn artifact_dir(c: &Context) -> (r: Vec<u8>)
    ensures
        r@ == dir_of(*c),
{
    let mut r: Vec<u8> = Vec::new();
    proof {
        reveal_strlit("tts/");
        reveal_strlit("/");
    }
    append_ascii(&mut r, "tts/");
    append_decimal(&mut r, c.guild_id);
    append_ascii(&mut r, "/");
    append_decimal(&mut r, c.channel_id);
    r
}

/// Builds the artifact path for a context, or the fixed one without a context.
pub fn artifact_path(ctx: Option<Context>) -> (r: Vec<u8>)
    ensures
        r@ == path_of(ctx),
{
    proof {
        reveal_strlit("tts/test.mp3");
        reveal_strlit("/");
        reveal_strlit("-");
        reveal_strlit(".mp3");
    }
    match ctx {
        None => {
            let mut r: Vec<u8> = Vec::new();
            append_ascii(&mut r, "tts/test.mp3");
            assert(r@ =~= path_of(ctx));
            r
        },
        Some(c) => {
            let mut r = artifact_dir(&c);
            append_ascii(&mut r, "/");
            append_decimal(&mut r, c.guild_id);
            append_ascii(&mut r, "-");
            append_decimal(&mut r, c.channel_id);
            append_ascii(&mut r, "-");
            append_decimal(&mut r, c.author_id);
            append_ascii(&mut r, ".mp3");
            assert(r@ =~= path_of(ctx));
            r
        },
    }
}

/// Builds the staging path of an artifact path.
pub fn staging_path(path: &Vec<u8>) -> (r: Vec<u8>)
    ensures
        r@ == staging_of(path@),
{
    let mut r = path.clone();
    assert(r@ == path@);
    proof {
        reveal_strlit(".part");
    }
    append_ascii(&mut r, ".part");
    r
}

} // verus!
