use glance::json::{json_array_len, json_bool, json_has, json_i64, json_string_at, json_u64};
use glance::text::{
    chars_of, contains_str, cut_ok, find_newline, has_prefix, last_segment, prefix_chars,
    push_dec, push_dec_signed, str_byte_prefix, str_eq, strip_prefix, trim_end_matches_char,
    trim_str,
};
use glance::doubao::build_content_json;
use glance::config::DoubaoModel;
use glance::translate::TranslateRequest;

#[test]
fn trim_removes_unicode_white_space_at_both_ends() {
    assert_eq!(trim_str(" \t a b \n"), "a b");
    assert_eq!(trim_str("\u{3000}\u{a0}x\u{2028}"), "x");
    assert_eq!(trim_str("   "), "");
    assert_eq!(trim_str(""), "");
    assert_eq!(trim_str("a"), "a");
    for s in [" x ", "\u{85}y\u{2003}", "\r\n z\t", "中 文"] {
        assert_eq!(trim_str(s), s.trim());
    }
}

#[test]
fn decimal_formatting_matches_display() {
    for n in [0u64, 7, 10, 2003, 586864, u64::MAX] {
        let mut s = String::new();
        push_dec(&mut s, n);
        assert_eq!(s, n.to_string());
    }
    for i in [0i64, -1, -42, 123, i64::MIN, i64::MAX] {
        let mut s = String::from("x");
        push_dec_signed(&mut s, i);
        assert_eq!(s, format!("x{}", i));
    }
}

#[test]
fn substring_tests() {
    assert!(contains_str("https://www.doubao.com/chat", "doubao.com"));
    assert!(!contains_str("https://example.com", "doubao.com"));
    assert!(contains_str("abc", ""));
    assert!(has_prefix("data: {}", "data:"));
    assert!(!has_prefix("dat", "data:"));
    assert_eq!(strip_prefix("data: x", "data:"), Some(" x".to_string()));
    assert_eq!(strip_prefix("event: x", "data:"), None);
    assert!(str_eq("[DONE]", "[DONE]"));
    assert!(!str_eq("[DONE]", "[DONE] "));
    assert_eq!(prefix_chars("豆包翻译", 2), "豆包");
    assert_eq!(prefix_chars("ab", 200), "ab");
    assert_eq!(chars_of("a豆"), vec!['a', '豆']);
    assert_eq!(find_newline(&['a', 'b', '\n', 'c']), 2);
    assert_eq!(find_newline(&['a', 'b']), 2);
}

#[test]
fn byte_prefix_cuts_like_slicing() {
    let s = "ab豆包";
    assert!(cut_ok(s, 5));
    assert_eq!(str_byte_prefix(s, 5), &s[..5]);
    assert!(!cut_ok(s, 3));
    assert!(cut_ok(s, 200));
    assert_eq!(str_byte_prefix(s, 200), s);
}

#[test]
fn path_and_url_pieces() {
    assert_eq!(last_segment("C:\\Program Files\\App\\app.exe", '\\'), "app.exe");
    assert_eq!(last_segment("app.exe", '\\'), "app.exe");
    assert_eq!(last_segment("C:\\dir\\", '\\'), "");
    assert_eq!(trim_end_matches_char("https://x/v1///", '/'), "https://x/v1");
    assert_eq!(trim_end_matches_char("https://x/v1", '/'), "https://x/v1");
}


#[test]
fn json_lookups() {
    let doc = r#"{"event_type":2001,"neg":-3,"s":"v","b":true,"arr":[1,{"k":"x"}],"o":{},"n":null,"f":1.5}"#;
    assert_eq!(json_u64(doc, "/event_type"), Some(2001));
    assert_eq!(json_i64(doc, "/neg"), Some(-3));
    assert_eq!(json_u64(doc, "/neg"), None);
    assert_eq!(json_string_at(doc, "/s"), Some("v".to_string()));
    assert_eq!(json_bool(doc, "/b"), Some(true));
    assert_eq!(json_array_len(doc, "/arr"), Some(2));
    assert_eq!(json_string_at(doc, "/arr/1/k"), Some("x".to_string()));
    assert!(json_has(doc, "/o"));
    assert!(!json_has(doc, "/missing"));
    assert!(json_has(doc, "/n"));
    assert_eq!(json_u64(doc, "/f"), None);
    assert_eq!(json_i64(doc, "/f"), None);
    assert_eq!(json_string_at(doc, "/o"), None);
    assert!(json_has(doc, ""));
    assert!(!json_has("not json", ""));
}

fn quoted_text(text: &str) -> String {
    let req = TranslateRequest {
        text: text.to_string(),
        source_lang: String::new(),
        target_lang: String::new(),
        source_app: String::new(),
    };
    let content = build_content_json(&req, &DoubaoModel::Doubao);
    let start = "{\"text\":".len();
    let end = content.find(",\"target_language\"").unwrap();
    content[start..end].to_string()
}

#[test]
fn json_string_escaping() {
    assert_eq!(quoted_text("a\"b\\c\n"), "\"a\\\"b\\\\c\\n\"");
    assert_eq!(quoted_text("豆包/x"), "\"豆包/x\"");
    assert_eq!(quoted_text("\u{1}\u{1f}\u{7f}\u{8}\u{c}\r\t"), "\"\\u0001\\u001f\u{7f}\\b\\f\\r\\t\"");
    for s in ["plain", "quote\"", "\u{0}\u{1b}", "中文"] {
        assert_eq!(quoted_text(s), serde_json::to_string(s).unwrap());
    }
}
