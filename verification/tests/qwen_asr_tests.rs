use serde_json::Value;
use vibe_coding_voice_native::qwen_asr::{
    audio_append_event, audio_chunks, commit_event, event_id, finish_event, format_qwen_error,
    plan_session, session_update_event, validate_config, QwenAsrConfig, QwenConfigError,
    QwenReceiver, ReceiveStep, ServerEvent, ErrorFields, MAX_APPEND_BYTES, client_event_text,
    session_events, ClientEvent,
};

fn config(key: &str, model: &str, url: &str) -> QwenAsrConfig {
    QwenAsrConfig {
        api_key: key.to_string(),
        model: model.to_string(),
        url: url.to_string(),
        language: " zh ".to_string(),
    }
}

fn obj(pairs: Vec<(&str, Value)>) -> Value {
    let mut m = serde_json::Map::new();
    for (k, v) in pairs {
        m.insert(k.to_string(), v);
    }
    Value::Object(m)
}

#[test]
fn config_checks_in_order() {
    assert_eq!(validate_config(&config(" ", "", "")).unwrap_err(), QwenConfigError::MissingApiKey);
    assert_eq!(validate_config(&config("k", " ", "")).unwrap_err(), QwenConfigError::MissingModel);
    assert_eq!(validate_config(&config("k", "m", "\t")).unwrap_err(), QwenConfigError::MissingUrl);
    assert_eq!(validate_config(&config("k", "m", "ws://x")).unwrap_err(), QwenConfigError::NotWss);
    assert!(validate_config(&config("k", "m", "  wss://x ")).is_ok());
    assert_eq!(QwenConfigError::MissingApiKey.message(), "请先填写 DashScope API Key。");
    assert_eq!(QwenConfigError::MissingModel.message(), "请先填写 Qwen-ASR 模型名。");
    assert_eq!(QwenConfigError::MissingUrl.message(), "请先填写 Qwen-ASR WebSocket 地址。");
    assert_eq!(QwenConfigError::NotWss.message(), "Qwen-ASR WebSocket 地址需要以 wss:// 开头。");
}

#[test]
fn session_plan() {
    let s = plan_session(&config(" sk-1 ", " qwen3-asr-flash-realtime ", " wss://h/api-ws/v1/realtime// "), 10).ok().unwrap();
    assert_eq!(s.endpoint, "wss://h/api-ws/v1/realtime?model=qwen3-asr-flash-realtime");
    assert_eq!(s.authorization, "bearer sk-1");
    assert_eq!(s.language, "zh");
    let s = plan_session(&config("k", "m", "wss://h/p?x=1"), 1).ok().unwrap();
    assert_eq!(s.endpoint, "wss://h/p?x=1&model=m");
    assert_eq!(plan_session(&config("k", "m", "wss://h"), 0).err().unwrap(), "录音音频为空。");
    assert_eq!(plan_session(&config("", "m", "wss://h"), 5).err().unwrap(), "请先填写 DashScope API Key。");
}

#[test]
fn event_ids() {
    assert_eq!(event_id("audio", 1700000000123), "audio_1700000000123");
}

#[test]
fn session_update_matches_serde_json() {
    let expected = obj(vec![
        ("event_id", Value::String("session_1".into())),
        ("type", Value::String("session.update".into())),
        (
            "session",
            obj(vec![
                ("input_audio_format", Value::String("pcm".into())),
                ("sample_rate", Value::from(16000)),
                ("input_audio_transcription", obj(vec![("language", Value::String("z\"h".into()))])),
                ("turn_detection", Value::Null),
            ]),
        ),
    ]);
    assert_eq!(session_update_event("session_1", "z\"h"), expected.to_string());
}

#[test]
fn bare_events_match_serde_json() {
    let c = obj(vec![
        ("event_id", Value::String("commit_5".into())),
        ("type", Value::String("input_audio_buffer.commit".into())),
    ]);
    assert_eq!(commit_event("commit_5"), c.to_string());
    let f = obj(vec![
        ("event_id", Value::String("finish_5".into())),
        ("type", Value::String("session.finish".into())),
    ]);
    assert_eq!(finish_event("finish_5"), f.to_string());
}

#[test]
fn append_event_encodes_audio() {
    let chunk = [0u8, 1, 2, 250, 251];
    let a = obj(vec![
        ("event_id", Value::String("audio_9".into())),
        ("type", Value::String("input_audio_buffer.append".into())),
        ("audio", Value::String("AAEC+vs=".into())),
    ]);
    assert_eq!(audio_append_event("audio_9", &chunk), a.to_string());
    let e = audio_append_event("a", b"Man");
    assert!(e.starts_with("{\"audio\":\"TWFu\","));
    let e = audio_append_event("a", b"Ma");
    assert!(e.starts_with("{\"audio\":\"TWE=\","));
}

#[test]
fn json_literals() {
    assert_eq!(
        commit_event("a\"b\\c\n\u{1}é"),
        "{\"event_id\":\"a\\\"b\\\\c\\n\\u0001é\",\"type\":\"input_audio_buffer.commit\"}"
    );
}

#[test]
fn audio_chunk_ranges() {
    assert!(audio_chunks(0).is_empty());
    assert_eq!(audio_chunks(10), vec![(0, 10)]);
    assert_eq!(audio_chunks(MAX_APPEND_BYTES), vec![(0, MAX_APPEND_BYTES)]);
    assert_eq!(
        audio_chunks(MAX_APPEND_BYTES + 3),
        vec![(0, MAX_APPEND_BYTES), (MAX_APPEND_BYTES, MAX_APPEND_BYTES + 3)]
    );
}

fn fields(code: Option<&str>, message: Option<&str>, param: Option<&str>) -> ErrorFields {
    ErrorFields {
        code: code.map(String::from),
        message: message.map(String::from),
        param: param.map(String::from),
    }
}

#[test]
fn error_formatting() {
    let e = ServerEvent {
        event_type: Some("error".into()),
        transcript: None,
        error_member: Some(fields(Some("invalid_value"), Some("bad"), Some("audio"))),
        top_level: fields(None, None, None),
    };
    assert_eq!(format_qwen_error(&e), "Qwen-ASR 返回错误: invalid_value: bad (audio)");
    let e = ServerEvent {
        event_type: None,
        transcript: None,
        error_member: None,
        top_level: fields(None, None, Some("")),
    };
    assert_eq!(format_qwen_error(&e), "Qwen-ASR 返回错误: unknown: 未知错误");
}

#[test]
fn receiving_a_transcript() {
    let mut r = QwenReceiver::new();
    assert!(matches!(r.on_text_message(r#"{"type":"session.created"}"#), ReceiveStep::Continue));
    assert!(matches!(
        r.on_text_message(r#"{"type":"conversation.item.input_audio_transcription.completed","transcript":"  你好 "}"#),
        ReceiveStep::Continue
    ));
    assert_eq!(r.final_text, "你好");
    assert!(matches!(
        r.on_text_message(r#"{"type":"conversation.item.input_audio_transcription.completed","transcript":7}"#),
        ReceiveStep::Continue
    ));
    assert_eq!(r.final_text, "你好");
    assert!(matches!(r.on_text_message(r#"{"type":"session.finished"}"#), ReceiveStep::Finished));
    assert_eq!(r.finish().ok().unwrap().text, "你好");
}

#[test]
fn receiving_errors() {
    let mut r = QwenReceiver::new();
    match r.on_text_message(r#"{"type":"error","error":{"code":"quota","message":"exceeded"}}"#) {
        ReceiveStep::Failed(m) => assert_eq!(m, "Qwen-ASR 返回错误: quota: exceeded"),
        _ => panic!("expected a failure"),
    }
    match r.on_text_message(r#"{"type":"conversation.item.input_audio_transcription.failed","code":"c","message":"m","param":"p"}"#) {
        ReceiveStep::Failed(m) => assert_eq!(m, "Qwen-ASR 返回错误: c: m (p)"),
        _ => panic!("expected a failure"),
    }
    match r.on_text_message("not json") {
        ReceiveStep::Failed(m) => assert!(m.starts_with("解析 Qwen-ASR 响应失败: not json: ") && m.len() > "解析 Qwen-ASR 响应失败: not json: ".len()),
        _ => panic!("expected a failure"),
    }
    assert_eq!(QwenReceiver::new().finish().err().unwrap(), "Qwen-ASR 没有返回最终识别文本。");
}

#[test]
fn session_event_order() {
    let len = MAX_APPEND_BYTES + 5;
    assert_eq!(
        session_events(len),
        vec![
            ClientEvent::SessionUpdate,
            ClientEvent::Append { start: 0, end: MAX_APPEND_BYTES },
            ClientEvent::Append { start: MAX_APPEND_BYTES, end: len },
            ClientEvent::Commit,
            ClientEvent::Finish,
        ]
    );
    assert_eq!(
        session_events(0),
        vec![ClientEvent::SessionUpdate, ClientEvent::Commit, ClientEvent::Finish]
    );
}

#[test]
fn client_event_texts() {
    let pcm = b"xxMan".to_vec();
    assert_eq!(
        client_event_text(ClientEvent::Append { start: 2, end: 5 }, "zh", &pcm, 7),
        "{\"audio\":\"TWFu\",\"event_id\":\"audio_7\",\"type\":\"input_audio_buffer.append\"}"
    );
    assert_eq!(client_event_text(ClientEvent::SessionUpdate, "zh", &pcm, 7), session_update_event("session_7", "zh"));
    assert_eq!(client_event_text(ClientEvent::Commit, "zh", &pcm, 8), commit_event("commit_8"));
    assert_eq!(client_event_text(ClientEvent::Finish, "zh", &pcm, 9), finish_event("finish_9"));
}

#[test]
fn parsed_events_are_dispatched() {
    let mut r = QwenReceiver::new();
    let completed = ServerEvent {
        event_type: Some("conversation.item.input_audio_transcription.completed".to_string()),
        transcript: Some(" 好 ".to_string()),
        error_member: None,
        top_level: fields(None, None, None),
    };
    assert!(matches!(r.on_event(&completed), ReceiveStep::Continue));
    assert_eq!(r.final_text, "好");
    let failed = ServerEvent {
        event_type: Some("error".to_string()),
        transcript: None,
        error_member: Some(fields(Some("c"), None, Some(""))),
        top_level: fields(None, None, None),
    };
    match r.on_event(&failed) {
        ReceiveStep::Failed(m) => assert_eq!(m, "Qwen-ASR 返回错误: c: 未知错误"),
        _ => panic!("error event did not fail the session"),
    }
    assert_eq!(r.final_text, "好");
}
