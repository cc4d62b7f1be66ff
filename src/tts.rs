use vstd::prelude::*;
use vstd::string::StringSliceAdditionalSpecFns;
use crate::artifact::{Context, dir_of, path_of, staging_of, artifact_dir, artifact_path, staging_path};
use crate::json::{Json, json_of, parse_json, field, int_field, str_field};
use crate::provider::{
    Provider, Encoding, provider_of, voice_of, url_of, encoding_of, params_of, params_view,
    parse_selector,
};
use crate::text::append_bytes;

verus! {

/// Why a synthesis request failed.
#[derive(Debug, PartialEq, Eq)]
pub enum DispatchError {
    /// The selector's prefix names no known provider.
    UnknownProvider,
    /// The provider's own status field reports a failure.
    ProviderError { code: i64, message: String },
    /// The provider answered with a status outside 200..=299, or with none at
    /// all (status 0) where the connection failed.
    TransportError { status: u16 },
    /// The answer does not have the shape the provider documents.
    ParseError,
    /// The artifact directory could not be made.
    IOError,
}

/// Why an artifact could not be produced.
#[derive(Debug, PartialEq, Eq)]
pub enum IOError {
    /// The embedded payload is not valid base64.
    DecodeFailure,
    /// The download of a hosted file failed.
    FetchFailure,
    /// Writing the artifact failed.
    WriteFailure,
}

/// The single outbound call that a request makes, and where its artifact goes.
#[derive(Debug, PartialEq, Eq)]
pub struct Outbound {
    pub provider: Provider,
    pub url: &'static str,
    pub encoding: Encoding,
    pub params: Vec<(&'static str, Vec<u8>)>,
    /// The artifact's final path.
    pub path: Vec<u8>,
    /// The directory to make before the call, where the path is scoped by a context.
    pub directory: Option<Vec<u8>>,
}

/// A provider's answer, normalized: one variant per provider.
#[derive(Debug, PartialEq, Eq)]
pub enum TTS {
    /// The audio is embedded as base64; status fields come with it.
    TikTok { path: Vec<u8>, data: String, message: String, status_code: i64, status_msg: String },
    /// The audio is hosted at `url`.
    TTSMP3 {
        path: Vec<u8>,
        error: i64,
        speaker: String,
        cached: i64,
        tasktype: String,
        url: String,
        mp3: String,
    },
    /// The audio itself.
    OmameSAPI { path: Vec<u8>, data: Vec<u8> },
}

/// Bytes to store under `path`, written first to `staging` and then renamed.
#[derive(Debug, PartialEq, Eq)]
pub struct ArtifactWrite {
    pub path: Vec<u8>,
    pub staging: Vec<u8>,
    pub bytes: Vec<u8>,
}

/// What remains to materialize an artifact.
#[derive(Debug, PartialEq, Eq)]
pub enum Materialize {
    Write(ArtifactWrite),
    /// Download `url`, then hand the answer to `complete_fetch`.
    Fetch { url: String, path: Vec<u8> },
}

/// The bytes that base64 text `s` encodes, if it is valid base64.
pub uninterp spec fn base64_of(s: Seq<u8>) -> Option<Seq<u8>>;

/// Relies on base64::decode (standard alphabet): the bytes that `s` encodes, or an
/// error where `s` is not valid base64. It panics only on lengths within 7 of `usize::MAX`.
#[verifier::external_body]
fn decode_base64(s: &[u8]) -> (r: Option<Vec<u8>>)
    requires
        s@.len() + 7 <= usize::MAX,
    ensures
        match r {
            Some(b) => base64_of(s@) == Some(b@),
            None => base64_of(s@) is None,
        },
{
    base64::decode(s).ok()
}

pub open spec fn success(status: u16) -> bool {
    200 <= status <= 299
}

/// The request that `request` plans for provider `p`.
pub open spec fn planned(o: Outbound, p: Provider, sel: Seq<u8>, text: Seq<u8>, ctx: Option<Context>) -> bool {
    &&& o.provider == p
    &&& o.url@ == url_of(p)
    &&& o.encoding == encoding_of(p)
    &&& params_view(o.params@) == params_of(p, voice_of(sel, p), text)
    &&& o.path@ == path_of(ctx)
    &&& match ctx {
        Some(c) => o.directory matches Some(d) && d@ == dir_of(c),
        None => o.directory is None,
    }
}

/// The base64 payload of a TikTok answer: `data.v_str`.
pub open spec fn payload_of(d: Json) -> Option<String> {
    match field(d, "data"@) {
        Some(inner) => str_field(inner, "v_str"@),
        None => None,
    }
}

/// Whether a TikTok answer has every documented field, with its type: `data`
/// an object, `extra` anything, `message` and `status_msg` strings,
/// `status_code` an integer.
pub open spec fn tiktok_complete(d: Json) -> bool {
    &&& field(d, "data"@) matches Some(Json::Object(_))
    &&& field(d, "extra"@) is Some
    &&& str_field(d, "message"@) is Some
    &&& int_field(d, "status_code"@) is Some
    &&& str_field(d, "status_msg"@) is Some
}

/// What normalizing a TikTok answer yields: a non-zero `status_code` fails with
/// the provider's message whatever `data` holds; success needs `data.v_str`.
pub open spec fn tiktok_result(path: Seq<u8>, doc: Option<Json>, r: Result<TTS, DispatchError>) -> bool {
    match doc {
        Some(d) if tiktok_complete(d) => if int_field(d, "status_code"@)->0 != 0 {
            r matches Err(DispatchError::ProviderError { code, message })
                && code == int_field(d, "status_code"@)->0
                && message == str_field(d, "status_msg"@)->0
        } else if payload_of(d) is Some {
            r matches Ok(TTS::TikTok { path: p, data, message, status_code, status_msg })
                && p@ == path
                && data == payload_of(d)->0
                && message == str_field(d, "message"@)->0
                && status_code == 0
                && status_msg == str_field(d, "status_msg"@)->0
        } else {
            r matches Err(DispatchError::ParseError)
        },
        _ => r matches Err(DispatchError::ParseError),
    }
}

/// Whether a ttsmp3 answer has every documented field but `Error`, with its type.
pub open spec fn ttsmp3_complete(d: Json) -> bool {
    &&& str_field(d, "Speaker"@) is Some
    &&& int_field(d, "Cached"@) is Some
    &&& str_field(d, "tasktype"@) is Some
    &&& str_field(d, "URL"@) is Some
    &&& str_field(d, "MP3"@) is Some
}

/// What normalizing a ttsmp3 answer yields: a non-zero `Error` fails before
/// anything else is read.
pub open spec fn ttsmp3_result(path: Seq<u8>, doc: Option<Json>, r: Result<TTS, DispatchError>) -> bool {
    match doc {
        Some(d) => match int_field(d, "Error"@) {
            Some(e) => if e != 0 {
                r matches Err(DispatchError::ProviderError { code, message })
                    && code == e
                    && message@ == Seq::<char>::empty()
            } else if ttsmp3_complete(d) {
                r matches Ok(TTS::TTSMP3 { path: p, error, speaker, cached, tasktype, url, mp3 })
                    && p@ == path
                    && error == 0
                    && speaker == str_field(d, "Speaker"@)->0
                    && cached == int_field(d, "Cached"@)->0
                    && tasktype == str_field(d, "tasktype"@)->0
                    && url == str_field(d, "URL"@)->0
                    && mp3 == str_field(d, "MP3"@)->0
            } else {
                r matches Err(DispatchError::ParseError)
            },
            None => r matches Err(DispatchError::ParseError),
        },
        None => r matches Err(DispatchError::ParseError),
    }
}

/// What normalizing a provider's answer yields.
pub open spec fn response_result(
    p: Provider,
    path: Seq<u8>,
    status: u16,
    body: Seq<u8>,
    r: Result<TTS, DispatchError>,
) -> bool {
    if !success(status) {
        r matches Err(DispatchError::TransportError { status: s }) && s == status
    } else {
        match p {
            Provider::TikTok => tiktok_result(path, json_of(body), r),
            Provider::Ttsmp3 => ttsmp3_result(path, json_of(body), r),
            Provider::Sapi => r matches Ok(TTS::OmameSAPI { path: q, data }) && q@ == path && data@
                == body,
        }
    }
}

/// The artifact path a result is materialized to.
pub open spec fn path_field(t: TTS) -> Seq<u8> {
    match t {
        TTS::TikTok { path, .. } => path@,
        TTS::TTSMP3 { path, .. } => path@,
        TTS::OmameSAPI { path, .. } => path@,
    }
}

/// Whether `w` writes exactly `bytes` to `path`, by way of its staging path.
pub open spec fn writes(w: ArtifactWrite, path: Seq<u8>, bytes: Seq<u8>) -> bool {
    w.path@ == path && w.staging@ == staging_of(path) && w.bytes@ == bytes
}

/// What `download` yields for a result.
pub open spec fn download_result(t: TTS, r: Result<Materialize, IOError>) -> bool {
    match t {
        TTS::TikTok { path, data, .. } => {
            let s = vstd::utf8::encode_utf8(data@);
            if s.len() + 7 <= usize::MAX && base64_of(s) is Some {
                r matches Ok(Materialize::Write(w)) && writes(w, path@, base64_of(s)->0)
            } else {
                r == Err::<Materialize, IOError>(IOError::DecodeFailure)
            }
        },
        TTS::TTSMP3 { path, url, .. } => r matches Ok(Materialize::Fetch { url: u, path: q }) && u
            == url && q@ == path@,
        TTS::OmameSAPI { path, data } => r matches Ok(Materialize::Write(w)) && writes(
            w,
            path@,
            data@,
        ),
    }
}

fn copy_bytes(b: &Vec<u8>) -> (r: Vec<u8>)
    ensures
        r@ == b@,
{
    let mut r: Vec<u8> = Vec::new();
    append_bytes(&mut r, b.as_slice());
    r
}

/// Reads a TikTok answer; the document is given as parsed.
pub fn normalize_tiktok(path: Vec<u8>, doc: Option<Json>) -> (r: Result<TTS, DispatchError>)
    ensures
        tiktok_result(path@, doc, r),
{
    let d = match doc {
        Some(d) => d,
        None => return Err(DispatchError::ParseError),
    };
    let data = match d.get("data") {
        Some(inner) => match inner {
            Json::Object(_) => inner,
            _ => return Err(DispatchError::ParseError),
        },
        None => return Err(DispatchError::ParseError),
    };
    let extra = d.get("extra");
    let message = d.get_str("message");
    let status_code = d.get_int("status_code");
    let status_msg = d.get_str("status_msg");
    match (extra, message, status_code, status_msg) {
        (Some(_), Some(message), Some(status_code), Some(status_msg)) => {
            if status_code != 0 {
                Err(DispatchError::ProviderError { code: status_code, message: status_msg })
            } else {
                match data.get_str("v_str") {
                    Some(payload) => Ok(
                        TTS::TikTok { path, data: payload, message, status_code, status_msg },
                    ),
                    None => Err(DispatchError::ParseError),
                }
            }
        },
        _ => Err(DispatchError::ParseError),
    }
}

/// Reads a ttsmp3 answer; the document is given as parsed. A non-zero `Error`
/// fails before any other field is read.
pub fn normalize_ttsmp3(path: Vec<u8>, doc: Option<Json>) -> (r: Result<TTS, DispatchError>)
    ensures
        ttsmp3_result(path@, doc, r),
        (doc matches Some(d) && int_field(d, "Error"@) matches Some(e) && e != 0) ==> (r matches Err(
            DispatchError::ProviderError { .. },
        )),
{
    let d = match doc {
        Some(d) => d,
        None => return Err(DispatchError::ParseError),
    };
    let error = match d.get_int("Error") {
        Some(e) => e,
        None => return Err(DispatchError::ParseError),
    };
    if error != 0 {
        return Err(DispatchError::ProviderError { code: error, message: String::new() });
    }
    let speaker = d.get_str("Speaker");
    let cached = d.get_int("Cached");
    let tasktype = d.get_str("tasktype");
    let url = d.get_str("URL");
    let mp3 = d.get_str("MP3");
    match (speaker, cached, tasktype, url, mp3) {
        (Some(speaker), Some(cached), Some(tasktype), Some(url), Some(mp3)) => Ok(
            TTS::TTSMP3 { path, error, speaker, cached, tasktype, url, mp3 },
        ),
        _ => Err(DispatchError::ParseError),
    }
}

/// The artifact write for a decoded payload, or the decode failure.
pub fn materialize_decoded(path: Vec<u8>, decoded: Option<Vec<u8>>) -> (r: Result<Materialize, IOError>)
    ensures
        match decoded {
            Some(b) => r matches Ok(Materialize::Write(w)) && writes(w, path@, b@),
            None => r == Err::<Materialize, IOError>(IOError::DecodeFailure),
        },
{
    match decoded {
        Some(bytes) => {
            let staging = staging_path(&path);
            Ok(Materialize::Write(ArtifactWrite { path, staging, bytes }))
        },
        None => Err(IOError::DecodeFailure),
    }
}

/// The artifact write for a downloaded file, or the fetch failure.
pub fn complete_fetch(path: Vec<u8>, status: u16, body: Vec<u8>) -> (r: Result<ArtifactWrite, IOError>)
    ensures
        success(status) ==> (r matches Ok(w) && writes(w, path@, body@)),
        !success(status) ==> r == Err::<ArtifactWrite, IOError>(IOError::FetchFailure),
{
    if 200 <= status && status <= 299 {
        let staging = staging_path(&path);
        Ok(ArtifactWrite { path, staging, bytes: body })
    } else {
        Err(IOError::FetchFailure)
    }
}

impl TTS {
    /// Plans the request for voice selector `lang` and `text`: the one provider the
    /// selector names, its parameters, and the artifact's path. An unknown prefix
    /// plans nothing.
    pub fn request(lang: &str, text: &str, msg: Option<Context>) -> (r: Result<Outbound, DispatchError>)
        ensures
            match provider_of(lang.spec_bytes()) {
                None => r matches Err(DispatchError::UnknownProvider),
                Some(p) => r matches Ok(o) && planned(o, p, lang.spec_bytes(), text.spec_bytes(), msg),
            },
    {
        let (provider, voice) = match parse_selector(lang.as_bytes()) {
            Some(found) => found,
            None => return Err(DispatchError::UnknownProvider),
        };
        let params = provider.params(voice.as_slice(), text.as_bytes());
        let path = artifact_path(msg);
        let directory = match msg {
            Some(c) => Some(artifact_dir(&c)),
            None => None,
        };
        Ok(Outbound { provider, url: provider.url(), encoding: provider.encoding(), params, path, directory })
    }

    /// Normalizes the provider's answer to the planned request.
    pub fn from_response(plan: &Outbound, status: u16, body: Vec<u8>) -> (r: Result<TTS, DispatchError>)
        ensures
            response_result(plan.provider, plan.path@, status, body@, r),
    {
        if !(200 <= status && status <= 299) {
            return Err(DispatchError::TransportError { status });
        }
        let path = copy_bytes(&plan.path);
        match plan.provider {
            Provider::TikTok => normalize_tiktok(path, parse_json(body.as_slice())),
            Provider::Ttsmp3 => normalize_ttsmp3(path, parse_json(body.as_slice())),
            Provider::Sapi => Ok(TTS::OmameSAPI { path, data: body }),
        }
    }

    /// The artifact path of this result.
    pub fn path(&self) -> (r: &Vec<u8>)
        ensures
            r@ == path_field(*self),
    {
        match self {
            TTS::TikTok { path, .. } => path,
            TTS::TTSMP3 { path, .. } => path,
            TTS::OmameSAPI { path, .. } => path,
        }
    }

    /// What remains to turn this result into an artifact: bytes to write, or a
    /// file to download first.
    pub fn download(self) -> (r: Result<Materialize, IOError>)
        ensures
            download_result(self, r),
    {
        match self {
            TTS::TikTok { path, data, .. } => {
                let s = data.as_str().as_bytes();
                if s.len() > usize::MAX - 7 {
                    return Err(IOError::DecodeFailure);
                }
                materialize_decoded(path, decode_base64(s))
            },
            TTS::TTSMP3 { path, url, .. } => Ok(Materialize::Fetch { url, path }),
            TTS::OmameSAPI { path, data } => {
                let staging = staging_path(&path);
                Ok(Materialize::Write(ArtifactWrite { path, staging, bytes: data }))
            },
        }
    }
}

/// Raw audio passes through unchanged: the artifact that a raw-bytes answer
/// is materialized to holds exactly the bytes the provider sent, at the planned path.
pub proof fn lemma_raw_bytes_round_trip(
    path: Seq<u8>,
    status: u16,
    body: Seq<u8>,
    t: TTS,
    m: Result<Materialize, IOError>,
)
    requires
        response_result(Provider::Sapi, path, status, body, Ok(t)),
        download_result(t, m),
    ensures
        m matches Ok(Materialize::Write(w)) && w.path@ == path && w.bytes@ == body && w.bytes@.len()
            == body.len(),
{
}

/// Requests from the same guild, channel and author name the same artifact, and
/// what is written there replaces it whole: the second write carries its own
/// bytes and nothing else, through the same staging path.
pub proof fn lemma_same_context_same_artifact(
    c: Context,
    o1: Outbound,
    p1: Provider,
    sel1: Seq<u8>,
    text1: Seq<u8>,
    o2: Outbound,
    p2: Provider,
    sel2: Seq<u8>,
    text2: Seq<u8>,
    w: ArtifactWrite,
    bytes: Seq<u8>,
)
    requires
        planned(o1, p1, sel1, text1, Some(c)),
        planned(o2, p2, sel2, text2, Some(c)),
        writes(w, o2.path@, bytes),
    ensures
        o1.path@ == o2.path@,
        w.path@ == o1.path@,
        w.staging@ == staging_of(o1.path@),
        w.bytes@ == bytes,
{
}

} // verus!
