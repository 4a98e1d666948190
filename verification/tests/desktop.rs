use glance::browser::{
    browser_missing, candidate_paths, cdp_command, cookie_wait_step, cookies_reply,
    debug_port_arg, enable_reply, find_doubao_ws_url, login_page, pages_url, pages_ws_url,
    polled_cookies, port_wait_step, user_data_dir_arg, version_url, CookieStep, EnableStep,
    PortStep, COOKIE_POLL_LIMIT, DEBUG_PORT, PORT_POLL_LIMIT,
};
use glance::mouse_hook::{
    hook_installed, hook_removed, mouse_action, start_hook, stop, HookState, MouseAction,
    WM_MBUTTONDOWN, WM_MBUTTONUP,
};
use glance::selection::{
    clamp_to_screen, exe_name, fallback_bounds, get_selected_text, is_translatable,
    popup_position, selection_event, Debouncer, MonitorBounds,
};
use glance::shortcut::{should_register, update_error};
use glance::tray::{click_shows_settings, menu_action, MenuAction};

#[test]
fn browser_candidates_in_order() {
    let bases = vec![Some("C:\\PF".to_string()), None, Some("D:\\L".to_string())];
    let c = candidate_paths(&bases);
    assert_eq!(
        c,
        vec![
            ("C:\\PF".to_string(), "Google\\Chrome\\Application\\chrome.exe".to_string()),
            ("C:\\PF".to_string(), "Microsoft\\Edge\\Application\\msedge.exe".to_string()),
            ("D:\\L".to_string(), "Google\\Chrome\\Application\\chrome.exe".to_string()),
            ("D:\\L".to_string(), "Microsoft\\Edge\\Application\\msedge.exe".to_string()),
        ]
    );
    assert!(candidate_paths(&vec![None, None]).is_empty());
}

#[test]
fn devtools_addresses() {
    assert_eq!(DEBUG_PORT, 9222);
    assert_eq!(debug_port_arg(DEBUG_PORT), "--remote-debugging-port=9222");
    assert_eq!(user_data_dir_arg("/tmp/g"), "--user-data-dir=/tmp/g");
    assert_eq!(login_page(), "https://www.doubao.com");
    assert_eq!(version_url(9222), "http://127.0.0.1:9222/json/version");
    assert_eq!(pages_url(9222), "http://127.0.0.1:9222/json");
    assert_eq!(PORT_POLL_LIMIT, 40);
    assert_eq!(COOKIE_POLL_LIMIT, 600);
    assert_eq!(polled_cookies(Ok("a=1".to_string())), Some("a=1".to_string()));
    assert_eq!(polled_cookies(Ok(String::new())), None);
    assert_eq!(polled_cookies(Err("x".to_string())), None);
}

#[test]
fn finds_the_first_doubao_page() {
    let pages = r#"[{"url":"https://example.com","webSocketDebuggerUrl":"ws://a"},{"url":"https://www.doubao.com/chat","webSocketDebuggerUrl":"ws://b"},{"url":"https://doubao.com/2","webSocketDebuggerUrl":"ws://c"}]"#;
    assert_eq!(find_doubao_ws_url(pages), Ok("ws://b".to_string()));
    let first_without = r#"[{"url":"https://www.doubao.com"},{"url":"https://doubao.com/2","webSocketDebuggerUrl":"ws://c"}]"#;
    assert_eq!(find_doubao_ws_url(first_without), Err("未找到 doubao.com 页面".to_string()));
    assert_eq!(find_doubao_ws_url("[]"), Err("未找到 doubao.com 页面".to_string()));
}

#[test]
fn devtools_commands_and_replies() {
    assert_eq!(cdp_command(1, "Network.enable"), "{\"id\":1,\"method\":\"Network.enable\"}");
    assert_eq!(cdp_command(2, "Network.getAllCookies"), "{\"id\":2,\"method\":\"Network.getAllCookies\"}");
    assert!(matches!(enable_reply("{\"method\":\"Network.x\"}"), EnableStep::Continue));
    assert!(matches!(enable_reply("{\"id\":1,\"result\":{}}"), EnableStep::Ready));
    match enable_reply("{\"id\":1,\"error\":{\"code\":-32000,\"message\":\"no\"}}") {
        EnableStep::Failed(m) => assert_eq!(m, "Network.enable 失败: {\"code\":-32000,\"message\":\"no\"}"),
        other => panic!("{:?}", other),
    }
    assert_eq!(cookies_reply("{\"id\":1}"), None);
    assert_eq!(
        cookies_reply("{\"id\":2,\"result\":{\"cookies\":[{\"name\":\"a\",\"value\":\"1\"},{\"name\":3,\"value\":\"x\"},{\"name\":\"b\",\"value\":\"2\"}]}}"),
        Some(Ok("a=1; b=2".to_string()))
    );
    assert_eq!(cookies_reply("{\"id\":2,\"result\":{\"cookies\":[]}}"), Some(Ok(String::new())));
    assert_eq!(cookies_reply("{\"id\":2,\"result\":{}}"), Some(Err("无法解析 Cookie".to_string())));
    assert_eq!(cookies_reply("{\"id\":2,\"error\":\"e\"}"), Some(Err("CDP 错误: \"e\"".to_string())));
}

#[test]
fn selection_reading() {
    assert_eq!(get_selected_text(Ok("t".to_string())), Ok("t".to_string()));
    assert_eq!(get_selected_text(Err("boom".to_string())), Err("获取选中文本失败：boom".to_string()));
    assert!(is_translatable(" a "));
    assert!(!is_translatable(" \n\t"));
    let e = selection_event(Ok("word".to_string()), 3, 4, "app.exe".to_string()).unwrap();
    assert_eq!((e.text.as_str(), e.x, e.y, e.source_app.as_str()), ("word", 3, 4, "app.exe"));
    assert!(selection_event(Ok("  ".to_string()), 0, 0, String::new()).is_none());
    assert!(selection_event(Err("e".to_string()), 0, 0, String::new()).is_none());
    assert_eq!(exe_name("C:\\Windows\\notepad.exe"), "notepad.exe");
}

#[test]
fn debouncing() {
    let mut d = Debouncer::new();
    assert!(d.trigger(1000));
    assert!(!d.trigger(1200));
    assert_eq!(d.last_ms, 1200);
    assert!(!d.trigger(1499));
    assert!(d.trigger(1799));
    assert!(!d.trigger(100));
}

#[test]
fn window_placement() {
    let b = fallback_bounds();
    assert_eq!(b, MonitorBounds { left: 0, top: 0, right: 1920, bottom: 1080 });
    assert_eq!(clamp_to_screen(1800, 900, 400, 350, b), (1520, 730));
    assert_eq!(clamp_to_screen(-50, -5, 400, 350, b), (0, 0));
    assert_eq!(clamp_to_screen(10, 20, 400, 350, b), (10, 20));
    assert_eq!(clamp_to_screen(0, 0, 3000, 2000, b), (0, 0));
    assert_eq!(popup_position(100, 100, b), (110, 110));
    assert_eq!(popup_position(1900, 1070, b), (1520, 730));
}

#[test]
fn popup_at_an_edge_is_clamped() {
    let b = MonitorBounds { left: -1920, top: 100, right: 0, bottom: 1180 };
    for (x, y) in [(-5, 50), (-1950, 1170), (-500, 90), (-2000, 500)] {
        assert_eq!(popup_position(x, y, b), clamp_to_screen(x + 10, y + 10, 400, 350, b));
    }
    assert_eq!(popup_position(-5, 50, b), (-400, 100));
    assert_eq!(popup_position(-1950, 1170, b), (-1920, 830));
}

#[test]
fn page_list_from_body_bytes() {
    let pages = r#"[{"url":"https://www.doubao.com/chat","webSocketDebuggerUrl":"ws://b"}]"#;
    assert_eq!(pages_ws_url(pages.as_bytes()), Ok("ws://b".to_string()));
    assert_eq!(pages_ws_url(b"[]"), Err("未找到 doubao.com 页面".to_string()));
    let decode = Err("解析失败: error decoding response body".to_string());
    assert_eq!(pages_ws_url(b"{\"url\":\"https://doubao.com\"}"), decode);
    assert_eq!(pages_ws_url(b"not json"), decode);
    assert_eq!(pages_ws_url(&[b'[', 0xff, b']']), decode);
    assert_eq!(pages_ws_url(b""), decode);
}

#[test]
fn polling_the_browser() {
    assert!(matches!(port_wait_step(1, true), PortStep::Ready));
    assert!(matches!(port_wait_step(PORT_POLL_LIMIT, true), PortStep::Ready));
    assert!(matches!(port_wait_step(1, false), PortStep::Retry));
    assert!(matches!(port_wait_step(PORT_POLL_LIMIT - 1, false), PortStep::Retry));
    match port_wait_step(PORT_POLL_LIMIT, false) {
        PortStep::TimedOut(m) => assert_eq!(m, "Chrome 调试端口启动超时"),
        other => panic!("{:?}", other),
    }
    match cookie_wait_step(3, Ok("a=1; b=2".to_string())) {
        CookieStep::Got(c) => assert_eq!(c, "a=1; b=2"),
        other => panic!("{:?}", other),
    }
    assert!(matches!(cookie_wait_step(3, Ok(String::new())), CookieStep::Retry));
    assert!(matches!(cookie_wait_step(COOKIE_POLL_LIMIT - 1, Err("x".to_string())), CookieStep::Retry));
    match cookie_wait_step(COOKIE_POLL_LIMIT, Err("x".to_string())) {
        CookieStep::TimedOut(m) => assert_eq!(m, "获取超时，请确保已在浏览器中登录 doubao.com"),
        other => panic!("{:?}", other),
    }
    assert_eq!(browser_missing(), "未找到 Chrome/Edge");
}

#[test]
fn middle_click_hook() {
    let mut h = HookState::new();
    assert!(start_hook(&mut h));
    hook_installed(&mut h, 77);
    assert_eq!(mouse_action(&h, 0, WM_MBUTTONDOWN), MouseAction::Swallow);
    assert_eq!(mouse_action(&h, 0, WM_MBUTTONUP), MouseAction::SwallowAndTranslate);
    assert_eq!(mouse_action(&h, -1, WM_MBUTTONUP), MouseAction::PassOn);
    assert_eq!(mouse_action(&h, 0, 0x0200), MouseAction::PassOn);
    stop(&mut h);
    assert_eq!(h.hook_handle, 77);
    assert_eq!(mouse_action(&h, 0, WM_MBUTTONUP), MouseAction::PassOn);
    assert!(!start_hook(&mut h));
    assert!(h.enabled);
    hook_removed(&mut h);
    assert_eq!(h.hook_handle, 0);
}

#[test]
fn shortcut_and_tray_decisions() {
    assert!(should_register("Alt+E"));
    assert!(!should_register(""));
    assert_eq!(update_error("bad"), "更新快捷键失败：bad");
    assert_eq!(menu_action("settings"), MenuAction::ShowSettings);
    assert_eq!(menu_action("quit"), MenuAction::Quit);
    assert_eq!(menu_action("other"), MenuAction::Nothing);
    assert!(click_shows_settings(true, true));
    assert!(!click_shows_settings(true, false));
    assert!(!click_shows_settings(false, true));
}
