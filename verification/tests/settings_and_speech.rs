use base64::Engine;
use glance::config::{
    default_mimo_base_url, default_mimo_model, default_mimo_voice, loaded_config, save_error,
    AppConfig, DoubaoModel, SaveStep, TtsConfig, TtsProvider, CONFIG_FILE_NAME,
};
use glance::mimo_tts::{
    default_model, default_voice, mimo_body, mimo_response, mimo_response_checked, mimo_url,
    MimoTtsRequest,
};
use glance::tts::{
    build_ws_url, default_speaker, finish_message, handshake_step,
    handshake_unanswered, random_ws_key, text_message, ws_host, AudioStep, HandshakeStep,
    TtsCollector, TtsRequest, WsEvent,
};

#[test]
fn default_settings() {
    let c = AppConfig::default();
    assert_eq!(c.doubao_cookie, None);
    assert_eq!(c.doubao_model, DoubaoModel::Doubao);
    assert_eq!(c.shortcut_selection, "Alt+E");
    assert!(!c.middle_click_trigger);
    assert_eq!(c.tts.provider, TtsProvider::Doubao);
    assert_eq!(c.tts.mimo_api_key, None);
    assert_eq!(c.tts.mimo_base_url, "https://api.xiaomimimo.com/v1");
    assert_eq!(c.tts.mimo_voice, "冰糖");
    assert_eq!(c.tts.mimo_model, "mimo-v2.5-tts");
    assert_eq!(c.tts.mimo_voice_design, None);
    assert_eq!(TtsProvider::default(), TtsProvider::Doubao);
    assert_eq!(TtsConfig::default().mimo_voice, default_mimo_voice());
    assert_eq!(default_mimo_base_url(), "https://api.xiaomimimo.com/v1");
    assert_eq!(default_mimo_model(), "mimo-v2.5-tts");
    assert_eq!(CONFIG_FILE_NAME, "config.json");
}

#[test]
fn loading_falls_back_to_defaults() {
    let mut c = AppConfig::default();
    c.doubao_cookie = Some("k".to_string());
    c.doubao_model = DoubaoModel::Volcano;
    let kept = loaded_config(Some(c));
    assert_eq!(kept.doubao_cookie, Some("k".to_string()));
    assert_eq!(kept.doubao_model, DoubaoModel::Volcano);
    let d = loaded_config(None);
    assert_eq!(d.doubao_cookie, None);
    assert_eq!(d.shortcut_selection, "Alt+E");
}

#[test]
fn save_error_messages() {
    assert_eq!(save_error(SaveStep::DataDir, "e"), "获取数据目录失败：e");
    assert_eq!(save_error(SaveStep::CreateDir, "e"), "创建目录失败：e");
    assert_eq!(save_error(SaveStep::Serialize, "e"), "序列化失败：e");
    assert_eq!(save_error(SaveStep::Write, "e"), "写入失败：e");
}

fn mimo(model: &str, design: Option<&str>) -> MimoTtsRequest {
    MimoTtsRequest {
        text: "你好".to_string(),
        voice: default_voice(),
        model: model.to_string(),
        voice_design: design.map(|s| s.to_string()),
    }
}

fn obj(pairs: Vec<(&str, serde_json::Value)>) -> serde_json::Value {
    let mut m = serde_json::Map::new();
    for (k, v) in pairs {
        m.insert(k.to_string(), v);
    }
    serde_json::Value::Object(m)
}

fn s(x: &str) -> serde_json::Value {
    serde_json::Value::String(x.to_string())
}

#[test]
fn mimo_defaults_and_url() {
    assert_eq!(default_voice(), "冰糖");
    assert_eq!(default_model(), "mimo-v2.5-tts");
    assert_eq!(mimo_url("https://api.xiaomimimo.com/v1/"), "https://api.xiaomimimo.com/v1/chat/completions");
    assert_eq!(mimo_url("https://h/v1"), "https://h/v1/chat/completions");
}

#[test]
fn mimo_body_matches_serde_json() {
    let plain = obj(vec![
        ("model", s("mimo-v2.5-tts")),
        ("messages", serde_json::Value::Array(vec![obj(vec![("role", s("assistant")), ("content", s("你好"))])])),
        ("audio", obj(vec![("format", s("wav")), ("voice", s("冰糖"))])),
    ]);
    assert_eq!(mimo_body(&mimo("mimo-v2.5-tts", None)), plain.to_string());
    let design = obj(vec![
        ("model", s("mimo-v2.5-tts-voicedesign")),
        (
            "messages",
            serde_json::Value::Array(vec![
                obj(vec![("role", s("user")), ("content", s("标准播音腔，声音清晰自然"))]),
                obj(vec![("role", s("assistant")), ("content", s("你好"))]),
            ]),
        ),
        ("audio", obj(vec![("format", s("wav"))])),
    ]);
    assert_eq!(mimo_body(&mimo("mimo-v2.5-tts-voicedesign", Some(""))), design.to_string());
    let custom = mimo_body(&mimo("mimo-v2.5-tts-voicedesign", Some("低沉")));
    assert!(custom.contains("\"content\":\"低沉\",\"role\":\"user\""));
}

#[test]
fn mimo_reply_reading() {
    assert_eq!(mimo_response(false, "401 Unauthorized", "no"), Err("MiMo TTS 错误 [401 Unauthorized]：no".to_string()));
    let ok = "{\"choices\":[{\"message\":{\"audio\":{\"data\":\"UklGRg==\"}}}]}";
    assert_eq!(mimo_response(true, "200 OK", ok), Ok("UklGRg==".to_string()));
    let missing = "{\"choices\":{\"0\":{\"message\":{\"audio\":{\"data\":\"x\"}}}}}";
    assert_eq!(mimo_response(true, "200 OK", missing), Err(format!("MiMo 响应中未找到音频数据：{}", missing)));
    let bad = "oops";
    let e = serde_json::from_str::<serde_json::Value>(bad).unwrap_err().to_string();
    assert_eq!(mimo_response(true, "200 OK", bad), Err(format!("解析 MiMo 响应失败：{}，原始：oops", e)));
    let long = format!("{{\"x\":\"{}\"}}", "a".repeat(600));
    assert_eq!(
        mimo_response(true, "200 OK", &long),
        Err(format!("MiMo 响应中未找到音频数据：{}", &long[..500]))
    );
    let cut = format!("{}豆", "a".repeat(199));
    assert_eq!(mimo_response_checked(true, "200 OK", &cut), None);
    assert!(mimo_response_checked(true, "200 OK", ok).is_some());
}

fn tts(rate: i32, pitch: i32) -> TtsRequest {
    TtsRequest { text: "你好".to_string(), speaker: default_speaker(), speech_rate: rate, pitch }
}

#[test]
fn ws_url_and_host() {
    let url = build_ws_url(&tts(-20, 5));
    assert_eq!(
        url,
        "wss://ws-samantha.doubao.com/samantha/audio/tts?speaker=zh_female_taozi_conversation_v4_wvae_bigtts&format=aac&mode=0&speech_rate=-20&pitch=5&language=zh&browser_language=zh-CN&device_platform=web&aid=586864&real_aid=586864&pkg_type=release_version&is_new_user=0&region=CN&sys_region=CN&use-olympus-account=1&samantha_web=1&version=1.38.0&version_code=20800&pc_version=1.38.0"
    );
    assert_eq!(ws_host(&url), Ok("ws-samantha.doubao.com".to_string()));
    assert_eq!(ws_host("/relative/path"), Ok("ws-samantha.doubao.com".to_string()));
    assert!(ws_host("wss://bad host/").unwrap_err().starts_with("URL 解析失败："));
}

#[test]
fn ws_key_is_sixteen_random_bytes() {
    let a = random_ws_key();
    let b = random_ws_key();
    assert_eq!(base64::engine::general_purpose::STANDARD.decode(&a).unwrap().len(), 16);
    assert_eq!(a.len(), 24);
    assert!(a.ends_with("=="));
    assert_ne!(a, b);
}

#[test]
fn session_messages() {
    assert_eq!(text_message("a\"b"), "{\"event\":\"text\",\"podcast_extra\":{\"role\":\"\"},\"text\":\"a\\\"b\"}");
    assert_eq!(finish_message(), "{\"event\":\"finish\"}");
    assert_eq!(handshake_unanswered(), "未收到 open_success 事件");
}

#[test]
fn handshake_steps() {
    assert!(matches!(handshake_step(&WsEvent::Text("{\"event\":\"open_success\"}".to_string())), HandshakeStep::Opened));
    assert!(matches!(handshake_step(&WsEvent::Text("{\"event\":\"hello\"}".to_string())), HandshakeStep::Continue));
    assert!(matches!(handshake_step(&WsEvent::Text("garbage".to_string())), HandshakeStep::Continue));
    assert!(matches!(handshake_step(&WsEvent::Binary(vec![1])), HandshakeStep::Continue));
    match handshake_step(&WsEvent::Text("{\"code\":-7,\"message\":\"block\"}".to_string())) {
        HandshakeStep::Failed(m) => assert_eq!(m, "TTS 服务拒绝：[-7] block"),
        other => panic!("{:?}", other),
    }
    match handshake_step(&WsEvent::Close) {
        HandshakeStep::Failed(m) => assert_eq!(m, "WebSocket 被服务端关闭，可能是 Cookie 无效或请求被限制"),
        other => panic!("{:?}", other),
    }
    match handshake_step(&WsEvent::ReadError("reset".to_string())) {
        HandshakeStep::Failed(m) => assert_eq!(m, "读取消息失败：reset"),
        other => panic!("{:?}", other),
    }
}

#[test]
fn collector_gathers_audio_until_finish() {
    let mut c = TtsCollector::new();
    assert!(matches!(c.on_event(WsEvent::Binary(vec![1, 2])), AudioStep::Continue));
    assert!(matches!(c.on_event(WsEvent::Text("{\"event\":\"sentence_start\",\"code\":9}".to_string())), AudioStep::Continue));
    assert!(matches!(c.on_event(WsEvent::Binary(vec![3])), AudioStep::Continue));
    assert!(matches!(c.on_event(WsEvent::Text("{\"event\":\"finish\"}".to_string())), AudioStep::Continue));
    assert!(matches!(c.on_event(WsEvent::Binary(vec![4])), AudioStep::Stop));
    assert_eq!(c.result(), Ok(base64::engine::general_purpose::STANDARD.encode([1u8, 2, 3])));
    assert_eq!(c.result(), Ok("AQID".to_string()));
}

#[test]
fn collector_errors() {
    let mut c = TtsCollector::new();
    match c.on_event(WsEvent::Text("{\"event\":\"x\",\"code\":45}".to_string())) {
        AudioStep::Failed(m) => assert_eq!(m, "TTS 错误 [45]：未知错误"),
        other => panic!("{:?}", other),
    }
    match c.on_event(WsEvent::ReadError("eof".to_string())) {
        AudioStep::Failed(m) => assert_eq!(m, "读取音频数据失败：eof"),
        other => panic!("{:?}", other),
    }
    assert!(matches!(c.on_event(WsEvent::Close), AudioStep::Stop));
    assert_eq!(c.result(), Err("未收到音频数据".to_string()));
}
