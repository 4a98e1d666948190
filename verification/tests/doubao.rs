use glance::config::DoubaoModel;
use glance::doubao::{
    build_content_json, build_request_body, build_request_body_with_id, get_service_id,
    is_stream_end, parse_error_event, parse_gateway_error, parse_sse_event, request_error,
    status_error, translate_url, REQUEST_TIMEOUT_SECS,
};
use glance::doubao_stream::{classify_line, LineAction, SseDecoder};
use glance::translate::{require_cookie, translation_reply, TranslateError, TranslateRequest, TranslateResult};

fn q(s: &str) -> String {
    serde_json::to_string(s).unwrap()
}

fn request(text: &str, app: &str) -> TranslateRequest {
    TranslateRequest {
        text: text.to_string(),
        source_lang: "auto".to_string(),
        target_lang: "en".to_string(),
        source_app: app.to_string(),
    }
}

fn delta_line(t: &str) -> String {
    let content = format!("{{\"text\":{}}}", q(t));
    let data = format!("{{\"is_delta\":true,\"message\":{{\"content\":{}}}}}", q(&content));
    format!("data: {{\"event_type\":2001,\"event_data\":{}}}\n", q(&data))
}

fn error_line(code: u64, message: &str, detail: &str) -> String {
    let data = format!(
        "{{\"code\":{},\"message\":{},\"error_detail\":{{\"message\":{}}}}}",
        code,
        q(message),
        q(detail)
    );
    format!("data: {{\"event_type\":2005,\"event_data\":{}}}\n", q(&data))
}

#[test]
fn service_ids() {
    assert_eq!(get_service_id(&DoubaoModel::Doubao), "1");
    assert_eq!(get_service_id(&DoubaoModel::Microsoft), "2");
    assert_eq!(get_service_id(&DoubaoModel::Volcano), "3");
}

#[test]
fn content_json_with_and_without_source_app() {
    assert_eq!(
        build_content_json(&request("hello", ""), &DoubaoModel::Doubao),
        "{\"text\":\"hello\",\"target_language\":\"en\",\"scene_id\":3,\"translate_service\":\"1\",\"web_content\":\"\"}"
    );
    assert_eq!(
        build_content_json(&request("a\"b", "code.exe"), &DoubaoModel::Volcano),
        "{\"text\":\"a\\\"b\",\"target_language\":\"en\",\"scene_id\":3,\"translate_service\":\"3\",\"web_content\":\"当前程序名称：code.exe\"}"
    );
}

#[test]
fn request_body_layout() {
    let req = request("hello", "");
    let content = build_content_json(&req, &DoubaoModel::Microsoft);
    let body = build_request_body_with_id(&req, &DoubaoModel::Microsoft, "ID-1");
    let expected = format!(
        "{{\"messages\":[{{\"content\":{},\"content_type\":2501,\"attachments\":[],\"references\":[]}}],\"completion_option\":{{\"is_regen\":false,\"with_suggest\":false,\"need_create_conversation\":false,\"is_replace\":false,\"is_delete\":false,\"memory_type\":2,\"launch_stage\":1,\"event_id\":\"0\",\"origin\":\"https://www.doubao.com\"}},\"reply_id\":\"0\",\"conversation_id\":\"0\",\"section_id\":\"0\",\"local_message_id\":\"ID-1\",\"local_conversation_id\":\"0\"}}",
        q(&content)
    );
    assert_eq!(body, expected);
    let v: serde_json::Value = serde_json::from_str(&body).unwrap();
    assert_eq!(v["messages"][0]["content"].as_str(), Some(content.as_str()));
}

#[test]
fn request_body_gets_a_fresh_uuid() {
    let req = request("hi", "");
    let a = build_request_body(&req, &DoubaoModel::Doubao);
    let b = build_request_body(&req, &DoubaoModel::Doubao);
    let va: serde_json::Value = serde_json::from_str(&a).unwrap();
    let vb: serde_json::Value = serde_json::from_str(&b).unwrap();
    let ida = va["local_message_id"].as_str().unwrap().to_string();
    assert_eq!(ida.len(), 36);
    for (i, c) in ida.chars().enumerate() {
        if [8, 13, 18, 23].contains(&i) {
            assert_eq!(c, '-');
        } else {
            assert!(c.is_ascii_digit() || ('a'..='f').contains(&c));
        }
    }
    assert_eq!(ida.chars().nth(14), Some('4'));
    assert!("89ab".contains(ida.chars().nth(19).unwrap()));
    assert_ne!(ida, vb["local_message_id"].as_str().unwrap());
}

#[test]
fn url_and_timeout() {
    let url = translate_url();
    assert!(url.starts_with("https://www.doubao.com/samantha/chat/completion?language=zh&"));
    assert!(url.ends_with("&pc_version=1.36.0"));
    assert_eq!(REQUEST_TIMEOUT_SECS, 15);
}

#[test]
fn event_classifiers() {
    assert!(is_stream_end("{\"event_type\":2003}"));
    assert!(!is_stream_end("{\"event_type\":2001}"));
    assert!(!is_stream_end("not json"));
    let line = error_line(710022004, "rate limited", "too many");
    let js = line.trim().strip_prefix("data:").unwrap().trim();
    assert_eq!(
        parse_error_event(js),
        Some("豆包 API 错误 [710022004]：rate limited（too many）".to_string())
    );
    let bare = format!("{{\"event_type\":2005,\"event_data\":{}}}", q("{\"code\":\"x\",\"message\":7}"));
    assert_eq!(parse_error_event(&bare), Some("豆包 API 错误 [0]：未知错误（）".to_string()));
    let no_code = format!("{{\"event_type\":2005,\"event_data\":{}}}", q("{\"message\":\"m\"}"));
    assert_eq!(parse_error_event(&no_code), None);
    let dl = delta_line("你好");
    let js = dl.trim().strip_prefix("data:").unwrap().trim();
    assert_eq!(parse_sse_event(js), Some("你好".to_string()));
    let empty = delta_line("");
    assert_eq!(parse_sse_event(empty.trim().strip_prefix("data:").unwrap().trim()), None);
    assert_eq!(
        parse_gateway_error("{\"code\":\"401\",\"message\":\"unauthorized\"}"),
        Some("豆包网关错误 [401]：unauthorized".to_string())
    );
    assert_eq!(
        parse_gateway_error("{\"code\":401,\"message\":null}"),
        Some("豆包网关错误 [未知]：未知错误".to_string())
    );
    assert_eq!(parse_gateway_error("{\"code\":1,\"message\":\"m\",\"event_type\":1}"), None);
}

#[test]
fn line_classification() {
    assert!(matches!(classify_line("   "), LineAction::Skip));
    assert!(matches!(classify_line("data: [DONE]"), LineAction::Skip));
    assert!(matches!(classify_line("data:"), LineAction::Skip));
    assert!(matches!(classify_line("event: error"), LineAction::Skip));
    assert!(matches!(classify_line("data: {\"event_type\":2003}\r"), LineAction::Finish));
    assert!(matches!(classify_line("{\"event_type\":2003}"), LineAction::Finish));
    match classify_line(delta_line("x").trim_end()) {
        LineAction::Delta(t) => assert_eq!(t, "x"),
        other => panic!("unexpected {:?}", other),
    }
}

#[test]
fn decoder_collects_the_translation() {
    let mut d = SseDecoder::new();
    let stream = format!(
        "event: message\n{}{}\ndata: [DONE]\n{}",
        delta_line("Hel"),
        delta_line("lo"),
        "data: {\"event_type\":2003}\n"
    );
    let step = d.feed_bytes(stream.as_bytes());
    assert_eq!(step.deltas, vec!["Hel".to_string(), "lo".to_string()]);
    assert!(step.error.is_none());
    assert!(d.is_finished());
    let after = d.feed_text(&delta_line("ignored"));
    assert!(after.deltas.is_empty());
    match d.finish("你好".to_string()) {
        Ok(r) => {
            assert_eq!(r.original, "你好");
            assert_eq!(r.translation, "Hello");
        }
        Err(e) => panic!("{:?}", e),
    }
}

#[test]
fn decoder_result_does_not_depend_on_chunking() {
    let stream = format!("{}{}{}", delta_line("一"), delta_line("二"), delta_line("三"));
    let mut whole = SseDecoder::new();
    let all = whole.feed_text(&stream);
    let mut pieces = SseDecoder::new();
    let mut got = Vec::new();
    let chars: Vec<char> = stream.chars().collect();
    for chunk in chars.chunks(7) {
        let s: String = chunk.iter().collect();
        got.extend(pieces.feed_text(&s).deltas);
    }
    assert_eq!(all.deltas, got);
    assert_eq!(whole.finish("x".to_string()).unwrap().translation, "一二三");
    assert_eq!(pieces.finish("x".to_string()).unwrap().translation, "一二三");
}

#[test]
fn decoder_bytes_split_inside_a_character() {
    let stream = format!("{}{}{}", delta_line("一"), delta_line("二"), delta_line("三"));
    let bytes = stream.as_bytes();
    let mut whole = SseDecoder::new();
    let all = whole.feed_bytes(bytes).deltas;
    for size in [1, 2, 5, 13] {
        let mut pieces = SseDecoder::new();
        let mut got = Vec::new();
        let mut start = 0;
        while start < bytes.len() {
            let mut end = (start + size).min(bytes.len());
            while !stream.is_char_boundary(end) {
                end += 1;
            }
            got.extend(pieces.feed_bytes(&bytes[start..end]).deltas);
            start = end;
        }
        assert_eq!(got, all);
        assert_eq!(pieces.finish("x".to_string()).unwrap().translation, "一二三");
    }
}

#[test]
fn decoder_reports_errors() {
    let mut d = SseDecoder::new();
    let step = d.feed_text(&format!("{}{}", delta_line("a"), error_line(3, "bad", "")));
    assert_eq!(step.deltas, vec!["a".to_string()]);
    match step.error {
        Some(TranslateError::ApiError { code, message }) => {
            assert_eq!(code, 0);
            assert_eq!(message, "豆包 API 错误 [3]：bad（）");
        }
        other => panic!("{:?}", other),
    }
    let mut g = SseDecoder::new();
    let step = g.feed_text("{\"code\":\"E1\",\"message\":\"gateway\"}\n");
    assert!(matches!(step.error, Some(TranslateError::ApiError { code: 0, .. })));
}

#[test]
fn decoder_without_translation_fails() {
    let mut d = SseDecoder::new();
    let step = d.feed_text("data: {\"event_type\":2003}\n");
    assert!(step.deltas.is_empty());
    match d.finish("t".to_string()) {
        Err(TranslateError::ApiError { code, message }) => {
            assert_eq!(code, 0);
            assert_eq!(message, "翻译结果为空，Cookie 可能已失效，请重新配置");
        }
        other => panic!("{:?}", other),
    }
}

#[test]
fn decoder_decodes_bytes_lossily() {
    let mut d = SseDecoder::new();
    let mut bytes = delta_line("ok").into_bytes();
    bytes.extend_from_slice(&[0xff, b'\n']);
    let step = d.feed_bytes(&bytes);
    assert_eq!(step.deltas, vec!["ok".to_string()]);
    let mut e = SseDecoder::new();
    let line = delta_line("豆");
    let raw = line.as_bytes();
    let cut = line.find('豆').unwrap() + 1;
    let first = e.feed_bytes(&raw[..cut]);
    let second = e.feed_bytes(&raw[cut..]);
    assert!(first.deltas.is_empty());
    assert_eq!(second.deltas, vec!["\u{fffd}\u{fffd}\u{fffd}".to_string()]);
}

#[test]
fn decoder_keeps_an_incomplete_line() {
    let mut d = SseDecoder::new();
    let line = delta_line("半");
    let (a, b) = line.split_at(10);
    assert!(d.feed_text(a).deltas.is_empty());
    assert_eq!(d.feed_text(b).deltas, vec!["半".to_string()]);
}

#[test]
fn error_constructors() {
    match status_error(404, "404 Not Found", &"x".repeat(300)) {
        TranslateError::ApiError { code, message } => {
            assert_eq!(code, 404);
            assert_eq!(message, format!("豆包 API 错误：404 Not Found，响应：{}", "x".repeat(200)));
        }
        other => panic!("{:?}", other),
    }
    assert!(matches!(request_error(true, "t".to_string()), TranslateError::Timeout));
    match request_error(false, "refused".to_string()) {
        TranslateError::NetworkError(m) => assert_eq!(m, "refused"),
        other => panic!("{:?}", other),
    }
}

#[test]
fn debug_text_matches_debug_format() {
    let errors = vec![
        TranslateError::NetworkError("n\"x".to_string()),
        TranslateError::Timeout,
        TranslateError::ApiError { code: 502, message: "豆包\n".to_string() },
        TranslateError::ParseError("p".to_string()),
        TranslateError::ConfigError("c".to_string()),
    ];
    for e in errors {
        assert_eq!(e.debug_text(), format!("{:?}", e));
    }
}

#[test]
fn cookie_requirement_and_reply() {
    assert_eq!(require_cookie(Some("sid=1".to_string())), Ok("sid=1".to_string()));
    assert_eq!(require_cookie(Some(String::new())), Err("请先在设置中配置豆包 Cookie".to_string()));
    assert_eq!(require_cookie(None), Err("请先在设置中配置豆包 Cookie".to_string()));
    let ok = translation_reply(Ok(TranslateResult { original: "a".to_string(), translation: "b".to_string() }));
    assert_eq!(ok.unwrap().translation, "b");
    assert_eq!(translation_reply(Err(TranslateError::Timeout)).unwrap_err(), "Timeout");
}
