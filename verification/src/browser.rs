use crate::json::{
    json_array_len, json_at, json_i64, json_quote, json_string_at, json_string_lit,
    json_text_at, json_value_text, kind_array_len, kind_i64, kind_str,
};
use crate::text::{contains, contains_str, dec_nat, push_dec, push_str, utf8_text};
use vstd::prelude::*;
use vstd::utf8::{decode_utf8, valid_utf8};

verus! {

/// The port on which the browser is asked to accept the DevTools protocol.
pub const DEBUG_PORT: u16 = 9222;

/// How many times the DevTools port is polled, half a second apart, before giving up.
pub const PORT_POLL_LIMIT: u32 = 40;

/// How many times the cookies are polled, half a second apart, before giving up.
pub const COOKIE_POLL_LIMIT: u32 = 600;

/// Where Chrome and Edge are installed below a program folder, in the order tried.
pub open spec fn browser_rel_paths() -> Seq<Seq<char>> {
    seq![
        "Google\\Chrome\\Application\\chrome.exe"@,
        "Microsoft\\Edge\\Application\\msedge.exe"@,
    ]
}

/// The places where a browser is looked for: each program folder that is known, in
/// order, with each browser's path below it, in order.
pub open spec fn browser_candidates(bases: Seq<Option<String>>) -> Seq<(Seq<char>, Seq<char>)>
    decreases bases.len(),
{
    if bases.len() == 0 {
        Seq::empty()
    } else {
        browser_candidates(bases.drop_last()) + match bases.last() {
            Some(b) => seq![(b@, browser_rel_paths()[0]), (b@, browser_rel_paths()[1])],
            None => Seq::empty(),
        }
    }
}

/// The views of pairs of strings.
pub open spec fn pair_views(v: Seq<(String, String)>) -> Seq<(Seq<char>, Seq<char>)> {
    v.map_values(|p: (String, String)| (p.0@, p.1@))
}

/// Lists the places where a browser is looked for, as (program folder, path below it).
pub fn candidate_paths(bases: &Vec<Option<String>>) -> (r: Vec<(String, String)>)
    ensures
        pair_views(r@) == browser_candidates(bases@),
{
    let mut r: Vec<(String, String)> = Vec::new();
    for i in 0..bases.len()
        invariant
            pair_views(r@) == browser_candidates(bases@.take(i as int)),
    {
        assert(bases@.take(i + 1).drop_last() =~= bases@.take(i as int));
        let ghost before = r@;
        match &bases[i] {
            Some(b) => {
                r.push((b.clone(), "Google\\Chrome\\Application\\chrome.exe".to_string()));
                r.push((b.clone(), "Microsoft\\Edge\\Application\\msedge.exe".to_string()));
                assert(pair_views(r@) =~= pair_views(before) + seq![
                    (b@, browser_rel_paths()[0]),
                    (b@, browser_rel_paths()[1]),
                ]);
            },
            None => {
                assert(pair_views(r@) =~= pair_views(before) + Seq::<(Seq<char>, Seq<char>)>::empty());
            },
        }
    }
    assert(bases@.take(bases@.len() as int) =~= bases@);
    r
}

/// The argument that opens the DevTools port.
pub fn debug_port_arg(port: u16) -> (r: String)
    ensures
        r@ == "--remote-debugging-port="@ + dec_nat(port as nat),
{
    let mut r = String::new();
    push_str(&mut r, "--remote-debugging-port=");
    push_dec(&mut r, port as u64);
    r
}

/// The argument that gives the browser its own profile folder.
pub fn user_data_dir_arg(dir: &str) -> (r: String)
    ensures
        r@ == "--user-data-dir="@ + dir@,
{
    let mut r = String::new();
    push_str(&mut r, "--user-data-dir=");
    push_str(&mut r, dir);
    r
}

/// The page the browser opens for signing in.
pub fn login_page() -> (r: String)
    ensures
        r@ == "https://www.doubao.com"@,
{
    "https://www.doubao.com".to_string()
}

/// The DevTools address on the local machine with the given path.
pub open spec fn devtools_url(port: u16, path: Seq<char>) -> Seq<char> {
    "http://127.0.0.1:"@ + dec_nat(port as nat) + path
}

/// The DevTools address that answers once the browser is ready.
pub fn version_url(port: u16) -> (r: String)
    ensures
        r@ == devtools_url(port, "/json/version"@),
{
    let mut r = String::new();
    push_str(&mut r, "http://127.0.0.1:");
    push_dec(&mut r, port as u64);
    push_str(&mut r, "/json/version");
    r
}

/// The DevTools address that lists the open pages.
pub fn pages_url(port: u16) -> (r: String)
    ensures
        r@ == devtools_url(port, "/json"@),
{
    let mut r = String::new();
    push_str(&mut r, "http://127.0.0.1:");
    push_dec(&mut r, port as u64);
    push_str(&mut r, "/json");
    r
}

/// The cookies that a poll brings, when they are there: a poll that failed or found no
/// cookies is repeated.
pub fn polled_cookies(poll: Result<String, String>) -> (r: Option<String>)
    ensures
        match poll {
            Ok(c) => if c@.len() > 0 {
                r == Some(c)
            } else {
                r is None
            },
            Err(_) => r is None,
        },
{
    match poll {
        Ok(c) => if c.as_str().is_empty() {
            None
        } else {
            Some(c)
        },
        Err(_) => None,
    }
}

/// The JSON Pointer to the field `key` of the element `i` of the array at `prefix`.
pub open spec fn element_pointer(prefix: Seq<char>, i: nat, key: Seq<char>) -> Seq<char> {
    prefix + "/"@ + dec_nat(i) + "/"@ + key
}

fn element_pointer_of(prefix: &str, i: usize, key: &str) -> (r: String)
    ensures
        r@ == element_pointer(prefix@, i as nat, key@),
{
    let mut r = String::new();
    push_str(&mut r, prefix);
    push_str(&mut r, "/");
    push_dec(&mut r, i as u64);
    push_str(&mut r, "/");
    push_str(&mut r, key);
    r
}

/// Whether the page `i` of a page list is a Doubao page: its address holds "doubao.com".
pub open spec fn is_doubao_page(pages: Seq<char>, i: nat) -> bool {
    match kind_str(json_at(pages, element_pointer(Seq::empty(), i, "url"@))) {
        Some(u) => contains(u, "doubao.com"@),
        None => false,
    }
}

/// The first Doubao page of a page list below index `n`, if any.
pub open spec fn first_doubao_page(pages: Seq<char>, n: nat) -> Option<nat>
    decreases n,
{
    if n == 0 {
        None
    } else {
        match first_doubao_page(pages, (n - 1) as nat) {
            Some(i) => Some(i),
            None => if is_doubao_page(pages, (n - 1) as nat) {
                Some((n - 1) as nat)
            } else {
                None
            },
        }
    }
}

/// The DevTools WebSocket address of the first Doubao page in a page list (a JSON array),
/// or the message that there is none; a first Doubao page without an address counts as
/// none.
pub open spec fn doubao_ws_url(pages: Seq<char>) -> Result<Seq<char>, Seq<char>> {
    let n: nat = match kind_array_len(json_at(pages, Seq::empty())) {
        Some(n) => n as nat,
        None => 0,
    };
    match first_doubao_page(pages, n) {
        Some(i) => match kind_str(
            json_at(pages, element_pointer(Seq::empty(), i, "webSocketDebuggerUrl"@)),
        ) {
            Some(u) => Ok(u),
            None => Err("未找到 doubao.com 页面"@),
        },
        None => Err("未找到 doubao.com 页面"@),
    }
}

/// Once a Doubao page is found below `k`, it stays the first below any larger bound.
proof fn lemma_first_doubao_page_stable(pages: Seq<char>, k: nat, m: nat)
    requires
        k <= m,
        first_doubao_page(pages, k) is Some,
    ensures
        first_doubao_page(pages, m) == first_doubao_page(pages, k),
    decreases m - k,
{
    if k < m {
        lemma_first_doubao_page_stable(pages, k, (m - 1) as nat);
    }
}

/// Finds the DevTools WebSocket address of the first Doubao page in a page list.
pub fn find_doubao_ws_url(pages: &str) -> (r: Result<String, String>)
    ensures
        match r {
            Ok(u) => doubao_ws_url(pages@) == Ok::<Seq<char>, Seq<char>>(u@),
            Err(e) => doubao_ws_url(pages@) == Err::<Seq<char>, Seq<char>>(e@),
        },
{
    proof {
        reveal_strlit("");
    }
    assert(""@ =~= Seq::<char>::empty());
    let n = match json_array_len(pages, "") {
        Some(n) => n,
        None => 0,
    };
    let mut i: usize = 0;
    while i < n
        invariant
            i <= n,
            n as nat == match kind_array_len(json_at(pages@, Seq::empty())) {
                Some(n) => n as nat,
                None => 0,
            },
            first_doubao_page(pages@, i as nat) is None,
        decreases n - i,
    {
        let url = json_string_at(pages, element_pointer_of("", i, "url").as_str());
        let hit = match url {
            Some(u) => contains_str(u.as_str(), "doubao.com"),
            None => false,
        };
        assert(hit == is_doubao_page(pages@, i as nat)) by {
            assert(""@ =~= Seq::<char>::empty()) by {
                reveal_strlit("");
            }
        }
        if hit {
            assert(first_doubao_page(pages@, (i + 1) as nat) == Some(i as nat));
            proof {
                lemma_first_doubao_page_stable(pages@, (i + 1) as nat, n as nat);
            }
            let ws = json_string_at(
                pages,
                element_pointer_of("", i, "webSocketDebuggerUrl").as_str(),
            );
            assert(""@ =~= Seq::<char>::empty()) by {
                reveal_strlit("");
            }
            return match ws {
                Some(u) => Ok(u),
                None => Err("未找到 doubao.com 页面".to_string()),
            };
        }
        i = i + 1;
    }
    Err("未找到 doubao.com 页面".to_string())
}


/// A DevTools command with the given id and method, as JSON.
pub open spec fn cdp_command_json(id: u64, method: Seq<char>) -> Seq<char> {
    "{\"id\":"@ + dec_nat(id as nat) + ",\"method\":"@ + json_string_lit(method) + "}"@
}

/// Writes a DevTools command.
pub fn cdp_command(id: u64, method: &str) -> (r: String)
    ensures
        r@ == cdp_command_json(id, method@),
{
    let mut r = String::new();
    push_str(&mut r, "{\"id\":");
    push_dec(&mut r, id);
    push_str(&mut r, ",\"method\":");
    push_str(&mut r, json_quote(method).as_str());
    push_str(&mut r, "}");
    r
}

/// What a reply does while the DevTools session waits for `Network.enable` (id 1).
#[derive(Debug)]
pub enum EnableStep {
    /// Another message: keep waiting.
    Continue,
    /// The network domain is enabled.
    Ready,
    /// The command failed with this message.
    Failed(String),
}

/// What a reply does while the session waits for `Network.enable`: its answer (id 1)
/// enables the domain, or fails it when it carries an error.
pub open spec fn enable_outcome(t: Seq<char>) -> Option<Result<(), Seq<char>>> {
    if kind_i64(json_at(t, "/id"@)) != Some(1i64) {
        None
    } else if json_at(t, "/error"@) is Some {
        Some(Err("Network.enable 失败: "@ + json_text_at(t, "/error"@)->0))
    } else {
        Some(Ok(()))
    }
}

/// The outcome that an enable step stands for.
pub open spec fn enable_step_view(s: EnableStep) -> Option<Result<(), Seq<char>>> {
    match s {
        EnableStep::Continue => None,
        EnableStep::Ready => Some(Ok(())),
        EnableStep::Failed(m) => Some(Err(m@)),
    }
}

/// Decides what a text reply does while the session waits for `Network.enable`.
pub fn enable_reply(t: &str) -> (r: EnableStep)
    ensures
        enable_step_view(r) == enable_outcome(t@),
{
    match json_i64(t, "/id") {
        Some(id) => {
            if id != 1 {
                return EnableStep::Continue;
            }
        },
        None => {
            return EnableStep::Continue;
        },
    }
    match json_value_text(t, "/error") {
        Some(e) => {
            let mut m = String::new();
            push_str(&mut m, "Network.enable 失败: ");
            push_str(&mut m, e.as_str());
            EnableStep::Failed(m)
        },
        None => EnableStep::Ready,
    }
}

/// The `name=value` text of cookie `i` of a `Network.getAllCookies` reply, when both are
/// strings.
pub open spec fn cookie_pair(t: Seq<char>, i: nat) -> Option<Seq<char>> {
    match (
        kind_str(json_at(t, element_pointer("/result/cookies"@, i, "name"@))),
        kind_str(json_at(t, element_pointer("/result/cookies"@, i, "value"@))),
    ) {
        (Some(n), Some(v)) => Some(n + "="@ + v),
        _ => None,
    }
}

/// The `name=value` texts of the cookies below index `k`, in order, skipping those whose
/// name or value is no string.
pub open spec fn cookie_pairs(t: Seq<char>, k: nat) -> Seq<Seq<char>>
    decreases k,
{
    if k == 0 {
        Seq::empty()
    } else {
        cookie_pairs(t, (k - 1) as nat) + match cookie_pair(t, (k - 1) as nat) {
            Some(p) => seq![p],
            None => Seq::empty(),
        }
    }
}

/// Texts joined with `sep` between each two.
pub open spec fn join(parts: Seq<Seq<char>>, sep: Seq<char>) -> Seq<char>
    decreases parts.len(),
{
    if parts.len() == 0 {
        Seq::empty()
    } else if parts.len() == 1 {
        parts[0]
    } else {
        join(parts.drop_last(), sep) + sep + parts.last()
    }
}

/// What the answer to `Network.getAllCookies` (id 2) gives: the cookies as a `Cookie`
/// header value, or the message of an error or of an answer without a cookie list.
pub open spec fn cookies_outcome(t: Seq<char>) -> Option<Result<Seq<char>, Seq<char>>> {
    if kind_i64(json_at(t, "/id"@)) != Some(2i64) {
        None
    } else if json_at(t, "/error"@) is Some {
        Some(Err("CDP 错误: "@ + json_text_at(t, "/error"@)->0))
    } else {
        match kind_array_len(json_at(t, "/result/cookies"@)) {
            None => Some(Err("无法解析 Cookie"@)),
            Some(n) => Some(Ok(join(cookie_pairs(t, n as nat), "; "@))),
        }
    }
}

/// The pairs of the cookies below `a` come first among those below any larger bound.
proof fn lemma_cookie_pairs_grow(t: Seq<char>, a: nat, b: nat)
    requires
        a <= b,
    ensures
        cookie_pairs(t, a).is_prefix_of(cookie_pairs(t, b)),
    decreases b - a,
{
    if a < b {
        lemma_cookie_pairs_grow(t, a, (b - 1) as nat);
        assert(cookie_pairs(t, b).subrange(0, cookie_pairs(t, (b - 1) as nat).len() as int)
            =~= cookie_pairs(t, (b - 1) as nat));
        assert(cookie_pairs(t, b).subrange(0, cookie_pairs(t, a).len() as int) =~= cookie_pairs(
            t,
            (b - 1) as nat,
        ).subrange(0, cookie_pairs(t, a).len() as int));
    }
}

/// Every cookie of a `Network.getAllCookies` answer whose name and value are strings
/// reaches the `Cookie` text as `name=value`, whatever its other fields (`httpOnly`
/// among them): the answer is the pairs joined with `; `, and the pair of cookie `i`
/// follows, in order, those of the cookies before it. A cookie whose name or value is no
/// string adds nothing.
pub proof fn law_every_cookie_is_kept(t: Seq<char>, i: nat)
    ensures
        ({
            let name = kind_str(json_at(t, element_pointer("/result/cookies"@, i, "name"@)));
            let value = kind_str(json_at(t, element_pointer("/result/cookies"@, i, "value"@)));
            name is Some && value is Some
        }) ==> forall|n: nat|
            i < n ==> #[trigger] cookie_pairs(t, i).push(
                kind_str(json_at(t, element_pointer("/result/cookies"@, i, "name"@)))->0 + "="@
                    + kind_str(json_at(t, element_pointer("/result/cookies"@, i, "value"@)))->0,
            ).is_prefix_of(cookie_pairs(t, n)),
        ({
            let name = kind_str(json_at(t, element_pointer("/result/cookies"@, i, "name"@)));
            let value = kind_str(json_at(t, element_pointer("/result/cookies"@, i, "value"@)));
            name is None || value is None
        }) ==> cookie_pairs(t, i + 1) == cookie_pairs(t, i),
        cookie_pairs(t, 0) == Seq::<Seq<char>>::empty(),
        kind_i64(json_at(t, "/id"@)) == Some(2i64) && json_at(t, "/error"@) is None
            && kind_array_len(json_at(t, "/result/cookies"@)) is Some ==> cookies_outcome(t)
            == Some(
            Ok::<Seq<char>, Seq<char>>(
                join(
                    cookie_pairs(t, kind_array_len(json_at(t, "/result/cookies"@))->0 as nat),
                    "; "@,
                ),
            ),
        ),
{
    let name = kind_str(json_at(t, element_pointer("/result/cookies"@, i, "name"@)));
    let value = kind_str(json_at(t, element_pointer("/result/cookies"@, i, "value"@)));
    if name is Some && value is Some {
        assert forall|n: nat| i < n implies #[trigger] cookie_pairs(t, i).push(
            name->0 + "="@ + value->0,
        ).is_prefix_of(cookie_pairs(t, n)) by {
            assert(cookie_pairs(t, i + 1) =~= cookie_pairs(t, i).push(name->0 + "="@ + value->0));
            lemma_cookie_pairs_grow(t, i + 1, n);
        }
    } else {
        assert(cookie_pairs(t, i + 1) =~= cookie_pairs(t, i));
    }
}

/// The view of an optional result of strings.
pub open spec fn outcome_view(r: Option<Result<String, String>>) -> Option<
    Result<Seq<char>, Seq<char>>,
> {
    match r {
        None => None,
        Some(Ok(s)) => Some(Ok(s@)),
        Some(Err(e)) => Some(Err(e@)),
    }
}

fn read_cookie_pair(t: &str, i: usize) -> (r: Option<String>)
    ensures
        match r {
            Some(p) => cookie_pair(t@, i as nat) == Some(p@),
            None => cookie_pair(t@, i as nat) is None,
        },
{
    let name = json_string_at(t, element_pointer_of("/result/cookies", i, "name").as_str());
    let value = json_string_at(t, element_pointer_of("/result/cookies", i, "value").as_str());
    match (name, value) {
        (Some(n), Some(v)) => {
            let mut p = n;
            push_str(&mut p, "=");
            push_str(&mut p, v.as_str());
            Some(p)
        },
        _ => None,
    }
}

/// Decides what a text reply does while the session waits for the cookies: `None` to keep
/// waiting, or the session's answer.
pub fn cookies_reply(t: &str) -> (r: Option<Result<String, String>>)
    ensures
        outcome_view(r) == cookies_outcome(t@),
{
    match json_i64(t, "/id") {
        Some(id) => {
            if id != 2 {
                return None;
            }
        },
        None => {
            return None;
        },
    }
    if let Some(e) = json_value_text(t, "/error") {
        let mut m = String::new();
        push_str(&mut m, "CDP 错误: ");
        push_str(&mut m, e.as_str());
        return Some(Err(m));
    }
    let n = match json_array_len(t, "/result/cookies") {
        Some(n) => n,
        None => {
            return Some(Err("无法解析 Cookie".to_string()));
        },
    };
    let mut out = String::new();
    let mut count: usize = 0;
    for i in 0..n
        invariant
            out@ == join(cookie_pairs(t@, i as nat), "; "@),
            count == cookie_pairs(t@, i as nat).len(),
            count <= i,
    {
        let ghost before = cookie_pairs(t@, i as nat);
        match read_cookie_pair(t, i) {
            Some(p) => {
                if count > 0 {
                    push_str(&mut out, "; ");
                }
                push_str(&mut out, p.as_str());
                let ghost after = before + seq![p@];
                assert(after.drop_last() =~= before);
                assert(cookie_pairs(t@, (i + 1) as nat) == after);
                count = count + 1;
            },
            None => {
                assert(cookie_pairs(t@, (i + 1) as nat) =~= before);
            },
        }
    }
    Some(Ok(out))
}


/// The message given when the page list cannot be read as a JSON array (what
/// `reqwest` reports for a body that does not decode, after the prefix).
pub open spec fn page_list_error() -> Seq<char> {
    "解析失败: error decoding response body"@
}

/// What the page list's body gives: when it is UTF-8 text holding a JSON array, the
/// DevTools address of its first Doubao page; otherwise the decoding error.
pub open spec fn page_list_ws_url(body: Seq<u8>) -> Result<Seq<char>, Seq<char>> {
    if valid_utf8(body) && kind_array_len(json_at(decode_utf8(body), Seq::empty())) is Some {
        doubao_ws_url(decode_utf8(body))
    } else {
        Err(page_list_error())
    }
}

/// Reads the page list that the DevTools endpoint answered, from its body's bytes, and
/// finds the DevTools address of the first Doubao page in it.
pub fn pages_ws_url(body: &[u8]) -> (r: Result<String, String>)
    ensures
        match r {
            Ok(u) => page_list_ws_url(body@) == Ok::<Seq<char>, Seq<char>>(u@),
            Err(e) => page_list_ws_url(body@) == Err::<Seq<char>, Seq<char>>(e@),
        },
{
    let text = match utf8_text(body) {
        Some(t) => t,
        None => {
            return Err("解析失败: error decoding response body".to_string());
        },
    };
    proof {
        reveal_strlit("");
    }
    assert(""@ =~= Seq::<char>::empty());
    if json_array_len(text, "").is_none() {
        return Err("解析失败: error decoding response body".to_string());
    }
    find_doubao_ws_url(text)
}

/// The message given when neither Chrome nor Edge is installed.
pub fn browser_missing() -> (r: String)
    ensures
        r@ == "未找到 Chrome/Edge"@,
{
    "未找到 Chrome/Edge".to_string()
}

/// What to do after a poll of the DevTools port.
#[derive(Debug)]
pub enum PortStep {
    /// The port answered: go on to the cookies.
    Ready,
    /// Wait half a second and poll again.
    Retry,
    /// Give up with this message.
    TimedOut(String),
}

/// The message given when the DevTools port never answered.
pub open spec fn port_timeout_message() -> Seq<char> {
    "Chrome 调试端口启动超时"@
}

/// Decides what follows the poll number `polls` (counted from one) of the DevTools port,
/// which answered or not: the port is polled at most `PORT_POLL_LIMIT` times.
pub fn port_wait_step(polls: u32, answered: bool) -> (r: PortStep)
    ensures
        answered ==> r is Ready,
        !answered && polls < PORT_POLL_LIMIT ==> r is Retry,
        !answered && polls >= PORT_POLL_LIMIT ==> (r matches PortStep::TimedOut(m)
            && m@ == port_timeout_message()),
{
    if answered {
        PortStep::Ready
    } else if polls < PORT_POLL_LIMIT {
        PortStep::Retry
    } else {
        PortStep::TimedOut("Chrome 调试端口启动超时".to_string())
    }
}

/// What to do after a poll of the cookies.
#[derive(Debug)]
pub enum CookieStep {
    /// The cookies came: they are the answer.
    Got(String),
    /// Wait half a second and poll again.
    Retry,
    /// Give up with this message.
    TimedOut(String),
}

/// The message given when no cookies came in time.
pub open spec fn login_timeout_message() -> Seq<char> {
    "获取超时，请确保已在浏览器中登录 doubao.com"@
}

/// Decides what follows the poll number `polls` (counted from one) of the cookies, given
/// what it brought: non-empty cookies are the answer; a failed or empty poll is repeated,
/// up to `COOKIE_POLL_LIMIT` polls in all.
pub fn cookie_wait_step(polls: u32, poll: Result<String, String>) -> (r: CookieStep)
    ensures
        (poll matches Ok(c) && c@.len() > 0) ==> r == CookieStep::Got(poll->Ok_0),
        !(poll matches Ok(c) && c@.len() > 0) && polls < COOKIE_POLL_LIMIT ==> r is Retry,
        !(poll matches Ok(c) && c@.len() > 0) && polls >= COOKIE_POLL_LIMIT ==> (
        r matches CookieStep::TimedOut(m) && m@ == login_timeout_message()),
{
    match polled_cookies(poll) {
        Some(c) => CookieStep::Got(c),
        None => if polls < COOKIE_POLL_LIMIT {
            CookieStep::Retry
        } else {
            CookieStep::TimedOut("获取超时，请确保已在浏览器中登录 doubao.com".to_string())
        },
    }
}

/// The message given when the session ends before the cookies are answered.
pub fn cdp_no_reply() -> (r: String)
    ensures
        r@ == "CDP 无响应"@,
{
    "CDP 无响应".to_string()
}

} // verus!
