use tts_bot::artifact::{artifact_path, staging_path, Context};
use tts_bot::json::Json;
use tts_bot::provider::{parse_selector, Encoding, Provider};
use tts_bot::tts::{
    complete_fetch, materialize_decoded, normalize_tiktok, normalize_ttsmp3, ArtifactWrite,
    DispatchError, IOError, Materialize, Outbound, TTS,
};

fn plan(lang: &str, text: &str, ctx: Option<Context>) -> Outbound {
    TTS::request(lang, text, ctx).expect("a known provider")
}

fn params(o: &Outbound) -> Vec<(&'static str, String)> {
    o.params
        .iter()
        .map(|(k, v)| (*k, String::from_utf8(v.clone()).unwrap()))
        .collect()
}

const TTSMP3_OK: &str = r#"{"Error": 0, "Speaker": "Justin", "Cached": 1, "tasktype": "Polly", "URL": "https://example/x.mp3", "MP3": "x.mp3"}"#;

#[test]
fn test_tiktok() {
    let text = "Hello, world!";
    let lang = "ttsmp3-Justin";
    let o = plan(lang, text, None);
    assert_eq!(o.provider, Provider::Ttsmp3);
    assert_eq!(o.url, "https://ttsmp3.com/makemp3_new.php");
    assert_eq!(o.encoding, Encoding::Form);
    assert_eq!(
        params(&o),
        vec![
            ("msg", "Hello, world!".to_string()),
            ("lang", "Justin".to_string()),
            ("source", "ttsmp3".to_string())
        ]
    );
    let tts = TTS::from_response(&o, 200, TTSMP3_OK.as_bytes().to_vec()).unwrap();
    match tts.download().unwrap() {
        Materialize::Fetch { url, path } => {
            assert_eq!(url, "https://example/x.mp3");
            assert_eq!(path, b"tts/test.mp3".to_vec());
        }
        other => panic!("expected a fetch, got {:?}", other),
    }
}

#[test]
fn each_prefix_selects_its_provider() {
    let o = plan("tiktok-en_us_002", "Hello, world!", None);
    assert_eq!(o.provider, Provider::TikTok);
    assert_eq!(o.encoding, Encoding::Query);
    assert_eq!(
        o.url,
        "https://api16-normal-useast5.us.tiktokv.com/media/api/text/speech/invoke/"
    );
    assert_eq!(
        params(&o),
        vec![
            ("text_speaker", "en_us_002".to_string()),
            ("req_text", "Hello, world!".to_string())
        ]
    );
    let o = plan("sapi-Justin", "hi", None);
    assert_eq!(o.provider, Provider::Sapi);
    assert_eq!(o.url, "https://sapi.omame.xyz/api/");
    assert_eq!(
        params(&o),
        vec![("msg", "hi".to_string()), ("voice", "Justin".to_string())]
    );
}

#[test]
fn voice_id_is_whole_suffix() {
    assert_eq!(
        parse_selector(b"tiktok-en-us"),
        Some((Provider::TikTok, b"en-us".to_vec()))
    );
    let o = plan("tiktok-a-b", "x", None);
    assert_eq!(params(&o)[0], ("text_speaker", "a-b".to_string()));
    assert_eq!(parse_selector(b"sapi-"), Some((Provider::Sapi, Vec::new())));
    assert_eq!(parse_selector(b"tiktok"), None);
    assert_eq!(parse_selector(b"TikTok-x"), None);
}

#[test]
fn unknown_prefix_is_rejected() {
    assert_eq!(
        TTS::request("foo-bar", "Hello, world!", None),
        Err(DispatchError::UnknownProvider)
    );
    let ctx = Context { guild_id: 1, channel_id: 2, author_id: 3 };
    assert_eq!(
        TTS::request("", "x", Some(ctx)),
        Err(DispatchError::UnknownProvider)
    );
}

#[test]
fn scenario_sapi_without_context() {
    let o = plan("sapi-Justin", "Hello, world!", None);
    assert_eq!(o.provider, Provider::Sapi);
    assert_eq!(o.directory, None);
    let audio = vec![0x49u8, 0x44, 0x33, 0, 7, 255];
    let tts = TTS::from_response(&o, 200, audio.clone()).unwrap();
    assert_eq!(
        tts,
        TTS::OmameSAPI { path: b"tts/test.mp3".to_vec(), data: audio.clone() }
    );
    assert_eq!(
        tts.download(),
        Ok(Materialize::Write(ArtifactWrite {
            path: b"tts/test.mp3".to_vec(),
            staging: b"tts/test.mp3.part".to_vec(),
            bytes: audio,
        }))
    );
}

#[test]
fn raw_bytes_round_trip() {
    let o = plan("sapi-Justin", "x", None);
    for n in [0usize, 1, 1000] {
        let body: Vec<u8> = (0..n).map(|i| (i % 251) as u8).collect();
        let tts = TTS::from_response(&o, 200, body.clone()).unwrap();
        match tts.download().unwrap() {
            Materialize::Write(w) => {
                assert_eq!(w.bytes.len(), n);
                assert_eq!(w.bytes, body);
            }
            other => panic!("expected a write, got {:?}", other),
        }
    }
}

#[test]
fn scenario_ttsmp3_fetches_url() {
    let ctx = Context { guild_id: 10, channel_id: 20, author_id: 30 };
    let o = plan("ttsmp3-Justin", "Hello, world!", Some(ctx));
    assert_eq!(o.directory, Some(b"tts/10/20".to_vec()));
    let tts = TTS::from_response(&o, 200, TTSMP3_OK.as_bytes().to_vec()).unwrap();
    let (url, path) = match tts.download().unwrap() {
        Materialize::Fetch { url, path } => (url, path),
        other => panic!("expected a fetch, got {:?}", other),
    };
    assert_eq!(url, "https://example/x.mp3");
    assert_eq!(path, b"tts/10/20/10-20-30.mp3".to_vec());
    let w = complete_fetch(path, 200, vec![1, 2, 3]).unwrap();
    assert_eq!(w.bytes, vec![1, 2, 3]);
    assert_eq!(w.staging, b"tts/10/20/10-20-30.mp3.part".to_vec());
}

#[test]
fn scenario_ttsmp3_error_fails() {
    let o = plan("ttsmp3-Justin", "Hello, world!", None);
    let body = r#"{"Error": 5, "URL": "https://example/x.mp3"}"#;
    assert_eq!(
        TTS::from_response(&o, 200, body.as_bytes().to_vec()),
        Err(DispatchError::ProviderError { code: 5, message: String::new() })
    );
}

#[test]
fn ttsmp3_error_is_checked_before_other_fields() {
    let doc = Json::Object(vec![("Error".to_string(), Json::Int(-1))]);
    assert_eq!(
        normalize_ttsmp3(b"p".to_vec(), Some(doc)),
        Err(DispatchError::ProviderError { code: -1, message: String::new() })
    );
    let doc = Json::Object(vec![("Error".to_string(), Json::Int(0))]);
    assert_eq!(normalize_ttsmp3(b"p".to_vec(), Some(doc)), Err(DispatchError::ParseError));
    let doc = Json::Object(vec![("Error".to_string(), Json::Str("0".to_string()))]);
    assert_eq!(normalize_ttsmp3(b"p".to_vec(), Some(doc)), Err(DispatchError::ParseError));
}

#[test]
fn tiktok_payload_is_decoded() {
    let o = plan("tiktok-en_us_002", "Hello", None);
    let body = r#"{"data": {"v_str": "SGVsbG8="}, "extra": {"log_id": "x"}, "message": "success", "status_code": 0, "status_msg": ""}"#;
    let tts = TTS::from_response(&o, 200, body.as_bytes().to_vec()).unwrap();
    assert_eq!(
        tts,
        TTS::TikTok {
            path: b"tts/test.mp3".to_vec(),
            data: "SGVsbG8=".to_string(),
            message: "success".to_string(),
            status_code: 0,
            status_msg: String::new(),
        }
    );
    match tts.download().unwrap() {
        Materialize::Write(w) => assert_eq!(w.bytes, b"Hello".to_vec()),
        other => panic!("expected a write, got {:?}", other),
    }
}

#[test]
fn tiktok_status_code_gates_success() {
    let o = plan("tiktok-en_us_002", "Hello", None);
    let body = r#"{"data": {}, "extra": null, "message": "Couldn't load speech", "status_code": 4, "status_msg": "Couldn't load speech. Try again."}"#;
    assert_eq!(
        TTS::from_response(&o, 200, body.as_bytes().to_vec()),
        Err(DispatchError::ProviderError {
            code: 4,
            message: "Couldn't load speech. Try again.".to_string()
        })
    );
    let body = r#"{"data": {}, "extra": null, "message": "success", "status_code": 0, "status_msg": ""}"#;
    assert_eq!(
        TTS::from_response(&o, 200, body.as_bytes().to_vec()),
        Err(DispatchError::ParseError)
    );
    let body = r#"{"data": "x", "extra": null, "message": "m", "status_code": 4, "status_msg": "s"}"#;
    assert_eq!(
        TTS::from_response(&o, 200, body.as_bytes().to_vec()),
        Err(DispatchError::ParseError)
    );
    let body = r#"{"data": {"v_str": ""}, "extra": null, "message": "fail", "status_code": 4, "status_msg": "Try again."}"#;
    assert_eq!(
        TTS::from_response(&o, 200, body.as_bytes().to_vec()),
        Err(DispatchError::ProviderError { code: 4, message: "Try again.".to_string() })
    );
}

#[test]
fn malformed_answers_are_parse_errors() {
    let o = plan("tiktok-en_us_002", "Hello", None);
    assert_eq!(
        TTS::from_response(&o, 200, b"not json".to_vec()),
        Err(DispatchError::ParseError)
    );
    let body = r#"{"data": {"v_str": "AA=="}, "message": "m", "status_code": 0, "status_msg": "s"}"#;
    assert_eq!(
        TTS::from_response(&o, 200, body.as_bytes().to_vec()),
        Err(DispatchError::ParseError)
    );
    assert_eq!(normalize_tiktok(Vec::new(), None), Err(DispatchError::ParseError));
    let o = plan("ttsmp3-Justin", "Hello", None);
    assert_eq!(
        TTS::from_response(&o, 200, b"[1, 2]".to_vec()),
        Err(DispatchError::ParseError)
    );
}

#[test]
fn non_success_status_is_transport_error() {
    for lang in ["tiktok-a", "ttsmp3-b", "sapi-c"] {
        let o = plan(lang, "x", None);
        assert_eq!(
            TTS::from_response(&o, 500, Vec::new()),
            Err(DispatchError::TransportError { status: 500 })
        );
        assert_eq!(
            TTS::from_response(&o, 199, Vec::new()),
            Err(DispatchError::TransportError { status: 199 })
        );
    }
}

#[test]
fn invalid_base64_fails_without_write() {
    let tts = TTS::TikTok {
        path: b"tts/test.mp3".to_vec(),
        data: "not base64!".to_string(),
        message: String::new(),
        status_code: 0,
        status_msg: String::new(),
    };
    assert_eq!(tts.download(), Err(IOError::DecodeFailure));
    assert_eq!(
        materialize_decoded(b"tts/test.mp3".to_vec(), None),
        Err(IOError::DecodeFailure)
    );
}

#[test]
fn fetch_failure_on_bad_status() {
    assert_eq!(complete_fetch(b"p".to_vec(), 404, Vec::new()), Err(IOError::FetchFailure));
    assert_eq!(complete_fetch(b"p".to_vec(), 300, Vec::new()), Err(IOError::FetchFailure));
    assert!(complete_fetch(b"p".to_vec(), 299, Vec::new()).is_ok());
}

#[test]
fn same_context_same_artifact() {
    let ctx = Context { guild_id: 7, channel_id: 8, author_id: 9 };
    let a = plan("sapi-Justin", "first message", Some(ctx));
    let b = plan("tiktok-en_us_002", "second", Some(ctx));
    assert_eq!(a.path, b.path);
    assert_eq!(a.path, b"tts/7/8/7-8-9.mp3".to_vec());
    let first = TTS::from_response(&a, 200, vec![1; 100]).unwrap().download().unwrap();
    let second = TTS::from_response(&a, 200, vec![2; 3]).unwrap().download().unwrap();
    match (first, second) {
        (Materialize::Write(x), Materialize::Write(y)) => {
            assert_eq!(x.path, y.path);
            assert_eq!(y.bytes, vec![2, 2, 2]);
        }
        other => panic!("expected writes, got {:?}", other),
    }
}

#[test]
fn artifact_paths() {
    assert_eq!(artifact_path(None), b"tts/test.mp3".to_vec());
    let ctx = Context { guild_id: 0, channel_id: u64::MAX, author_id: 1234567890 };
    assert_eq!(
        String::from_utf8(artifact_path(Some(ctx))).unwrap(),
        "tts/0/18446744073709551615/0-18446744073709551615-1234567890.mp3"
    );
    assert_eq!(staging_path(&b"a".to_vec()), b"a.part".to_vec());
}
