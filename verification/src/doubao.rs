use crate::config::DoubaoModel;
use crate::json::{
    json_at, json_bool, json_escape, json_escaped, json_has, json_quote, json_string_at, json_string_lit, json_u64, kind_bool,
    kind_str, kind_u64,
};
use crate::text::{dec_nat, prefix_chars, push_dec, push_str, take_chars};
use crate::translate::{TranslateError, TranslateRequest};
use vstd::prelude::*;

verus! {

/// The service number that selects a model in a Doubao translation request.
pub open spec fn service_id(model: DoubaoModel) -> Seq<char> {
    match model {
        DoubaoModel::Doubao => "1"@,
        DoubaoModel::Microsoft => "2"@,
        DoubaoModel::Volcano => "3"@,
    }
}

/// The service number of a model.
pub fn get_service_id(model: &DoubaoModel) -> (r: &'static str)
    ensures
        r@ == service_id(*model),
{
    match model {
        DoubaoModel::Doubao => "1",
        DoubaoModel::Microsoft => "2",
        DoubaoModel::Volcano => "3",
    }
}

/// The page context sent with a request: the source program's name, if one is known.
pub open spec fn web_content(source_app: Seq<char>) -> Seq<char> {
    if source_app.len() == 0 {
        Seq::empty()
    } else {
        "当前程序名称："@ + source_app
    }
}

/// The JSON object that describes the translation task.
pub open spec fn content_json(request: TranslateRequest, model: DoubaoModel) -> Seq<char> {
    "{\"text\":"@ + json_string_lit(request.text@) + ",\"target_language\":"@ + json_string_lit(
        request.target_lang@,
    ) + ",\"scene_id\":3,\"translate_service\":"@ + json_string_lit(service_id(model))
        + ",\"web_content\":"@ + json_string_lit(web_content(request.source_app@)) + "}"@
}

/// The JSON body of a translation request whose local message id is `message_id`.
pub open spec fn request_body_json(
    request: TranslateRequest,
    model: DoubaoModel,
    message_id: Seq<char>,
) -> Seq<char> {
    "{\"messages\":[{\"content\":"@ + json_string_lit(content_json(request, model))
        + ",\"content_type\":2501,\"attachments\":[],\"references\":[]}],\"completion_option\":{\"is_regen\":false,\"with_suggest\":false,\"need_create_conversation\":false,\"is_replace\":false,\"is_delete\":false,\"memory_type\":2,\"launch_stage\":1,\"event_id\":\"0\",\"origin\":\"https://www.doubao.com\"},\"reply_id\":\"0\",\"conversation_id\":\"0\",\"section_id\":\"0\",\"local_message_id\":"@
        + json_string_lit(message_id) + ",\"local_conversation_id\":\"0\"}"@
}

fn web_content_of(source_app: &String) -> (r: String)
    ensures
        r@ == web_content(source_app@),
{
    let mut r = String::new();
    if !source_app.as_str().is_empty() {
        push_str(&mut r, "当前程序名称：");
        push_str(&mut r, source_app.as_str());
    }
    assert(r@ =~= web_content(source_app@));
    r
}

/// Writes the JSON object that describes the translation task.
pub fn build_content_json(request: &TranslateRequest, model: &DoubaoModel) -> (r: String)
    ensures
        r@ == content_json(*request, *model),
{
    let web = web_content_of(&request.source_app);
    let mut r = String::new();
    push_str(&mut r, "{\"text\":");
    push_str(&mut r, json_quote(request.text.as_str()).as_str());
    push_str(&mut r, ",\"target_language\":");
    push_str(&mut r, json_quote(request.target_lang.as_str()).as_str());
    push_str(&mut r, ",\"scene_id\":3,\"translate_service\":");
    push_str(&mut r, json_quote(get_service_id(model)).as_str());
    push_str(&mut r, ",\"web_content\":");
    push_str(&mut r, json_quote(web.as_str()).as_str());
    push_str(&mut r, "}");
    assert(r@ =~= content_json(*request, *model));
    r
}

/// Writes the JSON body of a translation request with the given local message id.
pub fn build_request_body_with_id(
    request: &TranslateRequest,
    model: &DoubaoModel,
    message_id: &str,
) -> (r: String)
    ensures
        r@ == request_body_json(*request, *model, message_id@),
{
    let content = build_content_json(request, model);
    let mut r = String::new();
    push_str(&mut r, "{\"messages\":[{\"content\":");
    push_str(&mut r, json_quote(content.as_str()).as_str());
    push_str(
        &mut r,
        ",\"content_type\":2501,\"attachments\":[],\"references\":[]}],\"completion_option\":{\"is_regen\":false,\"with_suggest\":false,\"need_create_conversation\":false,\"is_replace\":false,\"is_delete\":false,\"memory_type\":2,\"launch_stage\":1,\"event_id\":\"0\",\"origin\":\"https://www.doubao.com\"},\"reply_id\":\"0\",\"conversation_id\":\"0\",\"section_id\":\"0\",\"local_message_id\":",
    );
    push_str(&mut r, json_quote(message_id).as_str());
    push_str(&mut r, ",\"local_conversation_id\":\"0\"}");
    assert(r@ =~= request_body_json(*request, *model, message_id@));
    r
}

/// Whether a character is a lower-case hexadecimal digit.
pub open spec fn is_lower_hex(c: char) -> bool {
    (48 <= c as u32 <= 57) || (97 <= c as u32 <= 102)
}

/// Whether a text is a version 4 UUID in its hyphenated lower-case form: 36 characters,
/// hyphens at 8, 13, 18 and 23, lower-case hexadecimal digits elsewhere, the version
/// digit `4` at 14 and a variant digit of `8`, `9`, `a` or `b` at 19.
pub open spec fn is_uuid_v4_text(s: Seq<char>) -> bool {
    &&& s.len() == 36
    &&& forall|i: int|
        0 <= i < 36 ==> if i == 8 || i == 13 || i == 18 || i == 23 {
            #[trigger] s[i] == '-'
        } else {
            is_lower_hex(s[i])
        }
    &&& s[14] == '4'
    &&& (s[19] == '8' || s[19] == '9' || s[19] == 'a' || s[19] == 'b')
}

/// A fresh random version 4 UUID in its hyphenated form (`uuid::Uuid::new_v4().to_string()`).
/// Its random bits rest on chance; the contract states the form that every outcome has:
/// `new_v4` sets the version and variant bits, and `Display` writes the hyphenated
/// lower-case form.
#[verifier::external_body]
fn new_message_id() -> (r: String)
    ensures
        is_uuid_v4_text(r@),
{
    uuid::Uuid::new_v4().to_string()
}

/// Writes the JSON body of a translation request under a fresh random message id, a
/// version 4 UUID.
pub fn build_request_body(request: &TranslateRequest, model: &DoubaoModel) -> (r: String)
    ensures
        exists|id: Seq<char>|
            #[trigger] is_uuid_v4_text(id) && r@ == request_body_json(*request, *model, id),
{
    let id = new_message_id();
    build_request_body_with_id(request, model, id.as_str())
}

/// The address that translation requests are posted to, with its query.
pub open spec fn translate_url_spec() -> Seq<char> {
    "https://www.doubao.com/samantha/chat/completion"@ + "?"@
        + "language=zh&browser_language=zh-CN&device_platform=web&aid=586864&real_aid=586864&pkg_type=release_version&device_id=7603986199175200090&is_new_user=0&region=CN&sys_region=CN&use-olympus-account=1&samantha_web=1&version=1.36.0&version_code=20800&pc_version=1.36.0"@
}

/// The address that translation requests are posted to.
pub fn translate_url() -> (r: String)
    ensures
        r@ == translate_url_spec(),
{
    let mut r = String::new();
    push_str(&mut r, "https://www.doubao.com/samantha/chat/completion");
    push_str(&mut r, "?");
    push_str(
        &mut r,
        "language=zh&browser_language=zh-CN&device_platform=web&aid=586864&real_aid=586864&pkg_type=release_version&device_id=7603986199175200090&is_new_user=0&region=CN&sys_region=CN&use-olympus-account=1&samantha_web=1&version=1.36.0&version_code=20800&pc_version=1.36.0",
    );
    assert(r@ =~= translate_url_spec());
    r
}

/// Whether a stream event closes the reply (`event_type` 2003).
pub open spec fn stream_end(s: Seq<char>) -> bool {
    kind_u64(json_at(s, "/event_type"@)) == Some(2003u64)
}

/// Tests whether a stream event closes the reply.
pub fn is_stream_end(json_str: &str) -> (r: bool)
    ensures
        r == stream_end(json_str@),
{
    match json_u64(json_str, "/event_type") {
        Some(t) => t == 2003,
        None => false,
    }
}

/// The message of an error event (`event_type` 2005) whose `event_data` holds a JSON
/// object with a `code` and a `message`.
pub open spec fn error_event_message(s: Seq<char>) -> Option<Seq<char>> {
    if kind_u64(json_at(s, "/event_type"@)) != Some(2005u64) {
        None
    } else {
        match kind_str(json_at(s, "/event_data"@)) {
            None => None,
            Some(d) => if json_at(d, "/code"@) is None || json_at(d, "/message"@) is None {
                None
            } else {
                let code: u64 = match kind_u64(json_at(d, "/code"@)) {
                    Some(c) => c,
                    None => 0,
                };
                let message = match kind_str(json_at(d, "/message"@)) {
                    Some(m) => m,
                    None => "未知错误"@,
                };
                let detail = match kind_str(json_at(d, "/error_detail/message"@)) {
                    Some(m) => m,
                    None => Seq::empty(),
                };
                Some(
                    "豆包 API 错误 ["@ + dec_nat(code as nat) + "]："@ + message + "（"@ + detail
                        + "）"@,
                )
            },
        }
    }
}

/// Reads the message of an error event.
pub fn parse_error_event(json_str: &str) -> (r: Option<String>)
    ensures
        match r {
            Some(m) => error_event_message(json_str@) == Some(m@),
            None => error_event_message(json_str@) is None,
        },
{
    match json_u64(json_str, "/event_type") {
        Some(t) => {
            if t != 2005 {
                return None;
            }
        },
        None => {
            return None;
        },
    }
    let data = match json_string_at(json_str, "/event_data") {
        Some(d) => d,
        None => {
            return None;
        },
    };
    if !json_has(data.as_str(), "/code") || !json_has(data.as_str(), "/message") {
        return None;
    }
    let code: u64 = match json_u64(data.as_str(), "/code") {
        Some(c) => c,
        None => 0,
    };
    let message = match json_string_at(data.as_str(), "/message") {
        Some(m) => m,
        None => "未知错误".to_string(),
    };
    let detail = match json_string_at(data.as_str(), "/error_detail/message") {
        Some(m) => m,
        None => String::new(),
    };
    let mut r = String::new();
    push_str(&mut r, "豆包 API 错误 [");
    push_dec(&mut r, code);
    push_str(&mut r, "]：");
    push_str(&mut r, message.as_str());
    push_str(&mut r, "（");
    push_str(&mut r, detail.as_str());
    push_str(&mut r, "）");
    assert(r@ =~= error_event_message(json_str@)->0);
    Some(r)
}

/// The text piece of a delta event (`event_type` 2001 with `is_delta` true) whose nested
/// message content carries a non-empty `text`.
pub open spec fn sse_delta(s: Seq<char>) -> Option<Seq<char>> {
    if kind_u64(json_at(s, "/event_type"@)) != Some(2001u64) {
        None
    } else {
        match kind_str(json_at(s, "/event_data"@)) {
            None => None,
            Some(d) => if kind_bool(json_at(d, "/is_delta"@)) != Some(true) {
                None
            } else {
                match kind_str(json_at(d, "/message/content"@)) {
                    None => None,
                    Some(c) => match kind_str(json_at(c, "/text"@)) {
                        None => None,
                        Some(t) => if t.len() == 0 {
                            None
                        } else {
                            Some(t)
                        },
                    },
                }
            },
        }
    }
}

/// Reads the text piece of a delta event.
pub fn parse_sse_event(json_str: &str) -> (r: Option<String>)
    ensures
        match r {
            Some(t) => sse_delta(json_str@) == Some(t@),
            None => sse_delta(json_str@) is None,
        },
{
    match json_u64(json_str, "/event_type") {
        Some(t) => {
            if t != 2001 {
                return None;
            }
        },
        None => {
            return None;
        },
    }
    let data = match json_string_at(json_str, "/event_data") {
        Some(d) => d,
        None => {
            return None;
        },
    };
    match json_bool(data.as_str(), "/is_delta") {
        Some(b) => {
            if !b {
                return None;
            }
        },
        None => {
            return None;
        },
    }
    let content = match json_string_at(data.as_str(), "/message/content") {
        Some(c) => c,
        None => {
            return None;
        },
    };
    let text = match json_string_at(content.as_str(), "/text") {
        Some(t) => t,
        None => {
            return None;
        },
    };
    if text.as_str().is_empty() {
        return None;
    }
    Some(text)
}

/// The message of a gateway error: a document with `code` and `message` but no
/// `event_type`.
pub open spec fn gateway_error(s: Seq<char>) -> Option<Seq<char>> {
    if json_at(s, "/code"@) is Some && json_at(s, "/message"@) is Some && json_at(
        s,
        "/event_type"@,
    ) is None {
        let code = match kind_str(json_at(s, "/code"@)) {
            Some(c) => c,
            None => "未知"@,
        };
        let message = match kind_str(json_at(s, "/message"@)) {
            Some(m) => m,
            None => "未知错误"@,
        };
        Some("豆包网关错误 ["@ + code + "]："@ + message)
    } else {
        None
    }
}

/// Reads the message of a gateway error.
pub fn parse_gateway_error(json_str: &str) -> (r: Option<String>)
    ensures
        match r {
            Some(m) => gateway_error(json_str@) == Some(m@),
            None => gateway_error(json_str@) is None,
        },
{
    if !(json_has(json_str, "/code") && json_has(json_str, "/message") && !json_has(
        json_str,
        "/event_type",
    )) {
        return None;
    }
    let code = match json_string_at(json_str, "/code") {
        Some(c) => c,
        None => "未知".to_string(),
    };
    let message = match json_string_at(json_str, "/message") {
        Some(m) => m,
        None => "未知错误".to_string(),
    };
    let mut r = String::new();
    push_str(&mut r, "豆包网关错误 [");
    push_str(&mut r, code.as_str());
    push_str(&mut r, "]：");
    push_str(&mut r, message.as_str());
    assert(r@ =~= gateway_error(json_str@)->0);
    Some(r)
}


/// How long a translation request may take, in seconds.
pub const REQUEST_TIMEOUT_SECS: u64 = 15;

/// The message of a reply whose HTTP status is no success.
pub open spec fn status_error_message(status: Seq<char>, body: Seq<char>) -> Seq<char> {
    "豆包 API 错误："@ + status + "，响应："@ + take_chars(body, 200)
}

/// The error for a reply whose HTTP status is no success: the status code, and a message
/// with the status as displayed and the first 200 characters of the reply body.
pub fn status_error(code: u16, status: &str, body: &str) -> (r: TranslateError)
    ensures
        r matches TranslateError::ApiError { code: c, message } && c == code && message@
            == status_error_message(status@, body@),
{
    let mut message = String::new();
    push_str(&mut message, "豆包 API 错误：");
    push_str(&mut message, status);
    push_str(&mut message, "，响应：");
    push_str(&mut message, prefix_chars(body, 200).as_str());
    assert(message@ =~= status_error_message(status@, body@));
    TranslateError::ApiError { code, message }
}

/// The error for a request that could not be sent: a timeout, or a network error with the
/// failure's message.
pub fn request_error(is_timeout: bool, detail: String) -> (r: TranslateError)
    ensures
        is_timeout ==> r is Timeout,
        !is_timeout ==> (r matches TranslateError::NetworkError(m) && m == detail),
{
    if is_timeout {
        TranslateError::Timeout
    } else {
        TranslateError::NetworkError(detail)
    }
}


/// A stream event yields a translation piece only when it is a message event (2001)
/// whose `event_data` text says `is_delta: true`; the piece is then the non-empty `text`
/// of its message content. Every such event yields its text, and a message event whose
/// `is_delta` is anything but `true` (such as the full message sent after the deltas)
/// yields nothing.
pub proof fn law_delta_needs_is_delta(s: Seq<char>)
    ensures
        sse_delta(s) is Some ==> {
            let d = kind_str(json_at(s, "/event_data"@));
            let c = kind_str(json_at(d->0, "/message/content"@));
            &&& kind_u64(json_at(s, "/event_type"@)) == Some(2001u64)
            &&& d is Some
            &&& kind_bool(json_at(d->0, "/is_delta"@)) == Some(true)
            &&& c is Some
            &&& kind_str(json_at(c->0, "/text"@)) == sse_delta(s)
            &&& sse_delta(s)->0.len() > 0
        },
        ({
            let d = kind_str(json_at(s, "/event_data"@));
            kind_u64(json_at(s, "/event_type"@)) == Some(2001u64) && d is Some && kind_bool(
                json_at(d->0, "/is_delta"@),
            ) != Some(true)
        }) ==> sse_delta(s) is None,
        ({
            let d = kind_str(json_at(s, "/event_data"@));
            let c = kind_str(json_at(d->0, "/message/content"@));
            let t = kind_str(json_at(c->0, "/text"@));
            &&& kind_u64(json_at(s, "/event_type"@)) == Some(2001u64)
            &&& d is Some
            &&& kind_bool(json_at(d->0, "/is_delta"@)) == Some(true)
            &&& c is Some
            &&& t is Some
            &&& t->0.len() > 0
        }) ==> sse_delta(s) == kind_str(
            json_at(
                kind_str(json_at(kind_str(json_at(s, "/event_data"@))->0, "/message/content"@))->0,
                "/text"@,
            ),
        ),
{
}

/// The task JSON carries the request's text and target language, scene 3, the chosen
/// model's service ("1" for Doubao, "2" for Microsoft, "3" for Volcano) and, as page
/// context, the source program's name after "当前程序名称：", or nothing when it is not
/// known.
pub proof fn law_content_names_the_service(request: TranslateRequest, model: DoubaoModel)
    ensures
        content_json(request, model) == "{\"text\":"@ + json_string_lit(request.text@)
            + ",\"target_language\":"@ + json_string_lit(request.target_lang@)
            + ",\"scene_id\":3"@ + ",\"translate_service\":\""@ + match model {
            DoubaoModel::Doubao => "1"@,
            DoubaoModel::Microsoft => "2"@,
            DoubaoModel::Volcano => "3"@,
        } + "\",\"web_content\":"@ + json_string_lit(
            if request.source_app@.len() == 0 {
                Seq::empty()
            } else {
                "当前程序名称："@ + request.source_app@
            },
        ) + "}"@,
{
    let n = service_id(model);
    reveal_strlit("1");
    reveal_strlit("2");
    reveal_strlit("3");
    assert(n.len() == 1);
    assert(n.drop_first() =~= Seq::<char>::empty());
    assert(n[0] == '1' || n[0] == '2' || n[0] == '3');
    assert(json_escape(n[0]) =~= seq![n[0]]);
    assert(json_escaped(n.drop_first()) =~= Seq::<char>::empty());
    assert(json_escaped(n) =~= n);
    reveal_strlit(",\"scene_id\":3,\"translate_service\":");
    reveal_strlit(",\"scene_id\":3");
    reveal_strlit(",\"translate_service\":\"");
    reveal_strlit(",\"web_content\":");
    reveal_strlit("\",\"web_content\":");
    let a = "{\"text\":"@ + json_string_lit(request.text@) + ",\"target_language\":"@
        + json_string_lit(request.target_lang@);
    let w = json_string_lit(web_content(request.source_app@)) + "}"@;
    assert(",\"scene_id\":3,\"translate_service\":"@ + json_string_lit(n) + ",\"web_content\":"@
        =~= ",\"scene_id\":3"@ + ",\"translate_service\":\""@ + n + "\",\"web_content\":"@);
    assert(content_json(request, model) =~= a + (",\"scene_id\":3,\"translate_service\":"@
        + json_string_lit(n) + ",\"web_content\":"@) + w);
}

} // verus!
