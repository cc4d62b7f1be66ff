use vstd::prelude::*;
use crate::text::{ascii, ascii_bytes, append_ascii, append_bytes, starts_with};

verus! {

broadcast use vstd::string::group_string_axioms;

/// The speech services a voice selector can name.
#[derive(Clone, Copy, Debug, PartialEq, Eq)]
pub enum Provider {
    /// Answers with JSON that embeds the audio as base64.
    TikTok,
    /// Answers with JSON that points at a hosted audio file.
    Ttsmp3,
    /// Answers with the audio itself.
    Sapi,
}

/// How a provider's parameters travel.
#[derive(Clone, Copy, Debug, PartialEq, Eq)]
pub enum Encoding {
    /// In the query string of a POST.
    Query,
    /// As a url-encoded form body of a POST.
    Form,
}

/// The selector prefix of a provider, separator included.
pub open spec fn tag_of(p: Provider) -> Seq<u8> {
    match p {
        Provider::TikTok => ascii("tiktok-"@),
        Provider::Ttsmp3 => ascii("ttsmp3-"@),
        Provider::Sapi => ascii("sapi-"@),
    }
}

pub open spec fn has_prefix(s: Seq<u8>, t: Seq<u8>) -> bool {
    t.len() <= s.len() && s.subrange(0, t.len() as int) == t
}

/// The provider a selector names, if its prefix is a known one.
pub open spec fn provider_of(s: Seq<u8>) -> Option<Provider> {
    if has_prefix(s, tag_of(Provider::TikTok)) {
        Some(Provider::TikTok)
    } else if has_prefix(s, tag_of(Provider::Ttsmp3)) {
        Some(Provider::Ttsmp3)
    } else if has_prefix(s, tag_of(Provider::Sapi)) {
        Some(Provider::Sapi)
    } else {
        None
    }
}

/// The provider's voice id: everything after the prefix.
pub open spec fn voice_of(s: Seq<u8>, p: Provider) -> Seq<u8> {
    s.subrange(tag_of(p).len() as int, s.len() as int)
}

pub open spec fn url_of(p: Provider) -> Seq<char> {
    match p {
        Provider::TikTok => "https://api16-normal-useast5.us.tiktokv.com/media/api/text/speech/invoke/"@,
        Provider::Ttsmp3 => "https://ttsmp3.com/makemp3_new.php"@,
        Provider::Sapi => "https://sapi.omame.xyz/api/"@,
    }
}

pub open spec fn encoding_of(p: Provider) -> Encoding {
    match p {
        Provider::Ttsmp3 => Encoding::Form,
        _ => Encoding::Query,
    }
}

/// The parameters sent to a provider, as (name, value) pairs in order.
pub open spec fn params_of(p: Provider, voice: Seq<u8>, text: Seq<u8>) -> Seq<(Seq<char>, Seq<u8>)> {
    match p {
        Provider::TikTok => seq![("text_speaker"@, voice), ("req_text"@, text)],
        Provider::Ttsmp3 => seq![("msg"@, text), ("lang"@, voice), ("source"@, ascii("ttsmp3"@))],
        Provider::Sapi => seq![("msg"@, text), ("voice"@, voice)],
    }
}

pub open spec fn params_view(v: Seq<(&'static str, Vec<u8>)>) -> Seq<(Seq<char>, Seq<u8>)> {
    v.map_values(|e: (&'static str, Vec<u8>)| (e.0@, e.1@))
}

/// Selector prefixes never overlap: a selector names at most one provider,
/// and names exactly the one whose prefix it carries.
pub proof fn lemma_one_provider(s: Seq<u8>, p: Provider)
    ensures
        provider_of(s) == Some(p) <==> has_prefix(s, tag_of(p)),
{
    reveal_strlit("tiktok-");
    reveal_strlit("ttsmp3-");
    reveal_strlit("sapi-");
    if has_prefix(s, tag_of(Provider::TikTok)) {
        assert(s[1] == tag_of(Provider::TikTok)[1]);
    }
    if has_prefix(s, tag_of(Provider::Ttsmp3)) {
        assert(s[1] == tag_of(Provider::Ttsmp3)[1]);
        assert(s[0] == tag_of(Provider::Ttsmp3)[0]);
    }
    if has_prefix(s, tag_of(Provider::Sapi)) {
        assert(s[0] == tag_of(Provider::Sapi)[0]);
    }
}

impl Provider {
    /// The provider's endpoint.
    pub fn url(&self) -> (r: &'static str)
        ensures
            r@ == url_of(*self),
    {
        match self {
            Provider::TikTok => "https://api16-normal-useast5.us.tiktokv.com/media/api/text/speech/invoke/",
            Provider::Ttsmp3 => "https://ttsmp3.com/makemp3_new.php",
            Provider::Sapi => "https://sapi.omame.xyz/api/",
        }
    }

    pub fn encoding(&self) -> (r: Encoding)
        ensures
            r == encoding_of(*self),
    {
        match self {
            Provider::Ttsmp3 => Encoding::Form,
            _ => Encoding::Query,
        }
    }

    /// The parameters of one request for `voice` and `text`.
    pub fn params(&self, voice: &[u8], text: &[u8]) -> (r: Vec<(&'static str, Vec<u8>)>)
        ensures
            params_view(r@) == params_of(*self, voice@, text@),
    {
        let mut v: Vec<u8> = Vec::new();
        append_bytes(&mut v, voice);
        let mut t: Vec<u8> = Vec::new();
        append_bytes(&mut t, text);
        assert(v@ =~= voice@ && t@ =~= text@);
        let mut r: Vec<(&'static str, Vec<u8>)> = Vec::new();
        match self {
            Provider::TikTok => {
                r.push(("text_speaker", v));
                r.push(("req_text", t));
            },
            Provider::Ttsmp3 => {
                let mut s: Vec<u8> = Vec::new();
                proof {
                    reveal_strlit("ttsmp3");
                }
                append_ascii(&mut s, "ttsmp3");
                r.push(("msg", t));
                r.push(("lang", v));
                r.push(("source", s));
            },
            Provider::Sapi => {
                r.push(("msg", t));
                r.push(("voice", v));
            },
        }
        assert(params_view(r@) =~= params_of(*self, voice@, text@));
        r
    }
}

/// The provider a selector names, with the voice id it asks for.
pub fn parse_selector(s: &[u8]) -> (r: Option<(Provider, Vec<u8>)>)
    ensures
        match provider_of(s@) {
            None => r is None,
            Some(p) => match r {
                Some((q, v)) => q == p && v@ == voice_of(s@, p),
                None => false,
            },
        },
{
    proof {
        reveal_strlit("tiktok-");
        reveal_strlit("ttsmp3-");
        reveal_strlit("sapi-");
    }
    let p = if starts_with(s, ascii_bytes("tiktok-")) {
        Provider::TikTok
    } else if starts_with(s, ascii_bytes("ttsmp3-")) {
        Provider::Ttsmp3
    } else if starts_with(s, ascii_bytes("sapi-")) {
        Provider::Sapi
    } else {
        return None;
    };
    let start: usize = match p {
        Provider::TikTok => 7,
        Provider::Ttsmp3 => 7,
        Provider::Sapi => 5,
    };
    assert(start == tag_of(p).len());
    let voice = suffix(s, start);
    Some((p, voice))
}

/// The bytes of `s` from `start` to the end.
fn suffix(s: &[u8], start: usize) -> (r: Vec<u8>)
    requires
        start <= s@.len(),
    ensures
        r@ == s@.subrange(start as int, s@.len() as int),
{
    let mut r: Vec<u8> = Vec::new();
    let mut i: usize = start;
    while i < s.len()
        invariant
            start <= i <= s@.len(),
            r@ == s@.subrange(start as int, i as int),
        decreases s@.len() - i,
    {
        r.push(s[i]);
        i = i + 1;
        assert(r@ =~= s@.subrange(start as int, i as int));
    }
    r
}

} // verus!
