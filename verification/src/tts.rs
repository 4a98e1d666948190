use crate::json::{json_at, json_i64, json_quote, json_string_at, json_string_lit, kind_i64, kind_str};
use crate::text::{dec_int, lemma_dec_int_value, push_dec_signed, push_str, signed_value, str_eq};
use base64::Engine;
use rand::Rng;
use vstd::prelude::*;

verus! {

/// A request to speak a text with Doubao.
#[derive(Clone, Debug)]
pub struct TtsRequest {
    pub text: String,
    pub speaker: String,
    pub speech_rate: i32,
    pub pitch: i32,
}

/// The speaker used when a request names none.
pub open spec fn default_speaker_spec() -> Seq<char> {
    "zh_female_taozi_conversation_v4_wvae_bigtts"@
}

/// The speaker used when a request names none.
pub fn default_speaker() -> (r: String)
    ensures
        r@ == default_speaker_spec(),
{
    "zh_female_taozi_conversation_v4_wvae_bigtts".to_string()
}

/// The WebSocket address of a speech session: the speaker, the AAC format, the rate and
/// the pitch in the query, then the fixed client parameters.
pub open spec fn ws_url(request: TtsRequest) -> Seq<char> {
    "wss://ws-samantha.doubao.com/samantha/audio/tts"@ + "?speaker="@ + request.speaker@
        + "&format="@ + "aac"@ + "&mode=0&speech_rate="@ + dec_int(request.speech_rate as int)
        + "&pitch="@ + dec_int(request.pitch as int) + ws_url_tail()
}

/// The fixed client parameters that end a speech session's address.
pub open spec fn ws_url_tail() -> Seq<char> {
    "&language=zh&browser_language=zh-CN&device_platform=web&aid=586864&real_aid=586864&pkg_type=release_version&is_new_user=0&region=CN&sys_region=CN&use-olympus-account=1&samantha_web=1&version=1.38.0&version_code=20800&pc_version=1.38.0"@
}

/// The session address carries the request's rate and pitch as signed decimals: its query
/// ends with `&speech_rate=`, a text that reads back as the rate, `&pitch=`, a text that
/// reads back as the pitch (with its `-` when lowered), and the fixed client parameters.
pub proof fn law_url_carries_rate_and_pitch(request: TtsRequest)
    ensures
        exists|rate: Seq<char>, pitch: Seq<char>|
            #![trigger signed_value(rate), signed_value(pitch)]
            signed_value(rate) == Some(request.speech_rate as int) && signed_value(pitch) == Some(
                request.pitch as int,
            ) && ("&speech_rate="@ + rate + "&pitch="@ + pitch + ws_url_tail()).is_suffix_of(
                ws_url(request),
            ),
{
    let rate = dec_int(request.speech_rate as int);
    let pitch = dec_int(request.pitch as int);
    lemma_dec_int_value(request.speech_rate as int);
    lemma_dec_int_value(request.pitch as int);
    reveal_strlit("&mode=0&speech_rate=");
    reveal_strlit("&mode=0");
    reveal_strlit("&speech_rate=");
    let head = "wss://ws-samantha.doubao.com/samantha/audio/tts"@ + "?speaker="@ + request.speaker@
        + "&format="@ + "aac"@ + "&mode=0"@;
    let sfx = "&speech_rate="@ + rate + "&pitch="@ + pitch + ws_url_tail();
    assert(ws_url(request) =~= head + sfx);
    assert(ws_url(request).subrange(head.len() as int, ws_url(request).len() as int) =~= sfx);
}

/// Writes the WebSocket address of a speech session.
pub fn build_ws_url(request: &TtsRequest) -> (r: String)
    ensures
        r@ == ws_url(*request),
{
    let mut r = String::new();
    push_str(&mut r, "wss://ws-samantha.doubao.com/samantha/audio/tts");
    push_str(&mut r, "?speaker=");
    push_str(&mut r, request.speaker.as_str());
    push_str(&mut r, "&format=");
    push_str(&mut r, "aac");
    push_str(&mut r, "&mode=0&speech_rate=");
    push_dec_signed(&mut r, request.speech_rate as i64);
    push_str(&mut r, "&pitch=");
    push_dec_signed(&mut r, request.pitch as i64);
    push_str(
        &mut r,
        "&language=zh&browser_language=zh-CN&device_platform=web&aid=586864&real_aid=586864&pkg_type=release_version&is_new_user=0&region=CN&sys_region=CN&use-olympus-account=1&samantha_web=1&version=1.38.0&version_code=20800&pc_version=1.38.0",
    );
    assert(r@ =~= ws_url(*request));
    r
}

/// The character of a six-bit value in the standard base64 alphabet
/// (`A`-`Z`, `a`-`z`, `0`-`9`, `+`, `/`).
pub open spec fn b64_char(n: int) -> char {
    if n < 26 {
        (65 + n) as char
    } else if n < 52 {
        (71 + n) as char
    } else if n < 62 {
        (n - 4) as char
    } else if n == 62 {
        '+'
    } else {
        '/'
    }
}

/// The standard base64 encoding, with padding, of a byte sequence: each three bytes give
/// four characters of six bits each, and a last group of one or two bytes is padded
/// with `=`.
pub open spec fn base64_standard(b: Seq<u8>) -> Seq<char>
    decreases b.len(),
{
    if b.len() == 0 {
        Seq::empty()
    } else if b.len() == 1 {
        seq![b64_char(b[0] as int / 4), b64_char((b[0] as int % 4) * 16), '=', '=']
    } else if b.len() == 2 {
        seq![
            b64_char(b[0] as int / 4),
            b64_char((b[0] as int % 4) * 16 + b[1] as int / 16),
            b64_char((b[1] as int % 16) * 4),
            '=',
        ]
    } else {
        seq![
            b64_char(b[0] as int / 4),
            b64_char((b[0] as int % 4) * 16 + b[1] as int / 16),
            b64_char((b[1] as int % 16) * 4 + b[2] as int / 64),
            b64_char(b[2] as int % 64),
        ] + base64_standard(b.subrange(3, b.len() as int))
    }
}

/// Base64 gives four characters for each started group of three bytes.
pub proof fn lemma_base64_len(b: Seq<u8>)
    ensures
        base64_standard(b).len() == 4 * ((b.len() + 2) / 3),
    decreases b.len(),
{
    if b.len() >= 3 {
        lemma_base64_len(b.subrange(3, b.len() as int));
    }
}

/// Encodes bytes as standard base64 with padding
/// (`base64::engine::general_purpose::STANDARD.encode`), as the contract states.
#[verifier::external_body]
pub(crate) fn base64_encode(bytes: &[u8]) -> (r: String)
    ensures
        r@ == base64_standard(bytes@),
{
    base64::engine::general_purpose::STANDARD.encode(bytes)
}

/// Sixteen random bytes from the thread's generator (`rand::thread_rng().fill`). They rest
/// on chance: the contract states only how many there are.
#[verifier::external_body]
fn random_key_bytes() -> (r: Vec<u8>)
    ensures
        r@.len() == 16,
{
    let mut buf = [0u8; 16];
    rand::thread_rng().fill(&mut buf);
    buf.to_vec()
}

/// A fresh WebSocket key: sixteen random bytes in base64, 24 characters.
pub fn random_ws_key() -> (r: String)
    ensures
        exists|b: Seq<u8>| b.len() == 16 && r@ == base64_standard(b),
        r@.len() == 24,
{
    let bytes = random_key_bytes();
    proof {
        lemma_base64_len(bytes@);
    }
    base64_encode(bytes.as_slice())
}

/// What `http` makes of an address: its host, if it has one, or the message with which
/// it refuses the address.
pub uninterp spec fn uri_host_of(url: Seq<char>) -> Result<Option<Seq<char>>, Seq<char>>;

/// Parses an address as an `http::Uri` and reads its host (`Uri::host`), or gives the
/// parse error's `Display`. The contract names the result and says nothing more of it.
#[verifier::external_body]
fn parse_uri_host(url: &str) -> (r: Result<Option<String>, String>)
    ensures
        match r {
            Ok(Some(h)) => uri_host_of(url@) == Ok::<Option<Seq<char>>, Seq<char>>(Some(h@)),
            Ok(None) => uri_host_of(url@) == Ok::<Option<Seq<char>>, Seq<char>>(None),
            Err(e) => uri_host_of(url@) == Err::<Option<Seq<char>>, Seq<char>>(e@),
        },
{
    match url.parse::<http::Uri>() {
        Ok(u) => Ok(u.host().map(|h| h.to_string())),
        Err(e) => Err(e.to_string()),
    }
}

/// The host to name in the handshake: the address's host, the speech server's when the
/// address has none, or the message of a refused address.
pub open spec fn ws_host_spec(url: Seq<char>) -> Result<Seq<char>, Seq<char>> {
    match uri_host_of(url) {
        Ok(Some(h)) => Ok(h),
        Ok(None) => Ok("ws-samantha.doubao.com"@),
        Err(e) => Err("URL 解析失败："@ + e),
    }
}

/// Reads the host to name in the handshake from the session's address.
pub fn ws_host(url: &str) -> (r: Result<String, String>)
    ensures
        match r {
            Ok(h) => ws_host_spec(url@) == Ok::<Seq<char>, Seq<char>>(h@),
            Err(e) => ws_host_spec(url@) == Err::<Seq<char>, Seq<char>>(e@),
        },
{
    match parse_uri_host(url) {
        Ok(Some(h)) => Ok(h),
        Ok(None) => Ok("ws-samantha.doubao.com".to_string()),
        Err(e) => {
            let mut m = String::new();
            push_str(&mut m, "URL 解析失败：");
            push_str(&mut m, e.as_str());
            Err(m)
        },
    }
}

/// The message that hands the text to the speech server.
pub open spec fn text_message_spec(text: Seq<char>) -> Seq<char> {
    "{\"event\":\"text\",\"podcast_extra\":{\"role\":\"\"},\"text\":"@ + json_string_lit(text)
        + "}"@
}

/// Writes the message that hands the text to the speech server.
pub fn text_message(text: &str) -> (r: String)
    ensures
        r@ == text_message_spec(text@),
{
    let mut r = String::new();
    push_str(&mut r, "{\"event\":\"text\",\"podcast_extra\":{\"role\":\"\"},\"text\":");
    push_str(&mut r, json_quote(text).as_str());
    push_str(&mut r, "}");
    r
}

/// The message that tells the speech server that the text is complete.
pub fn finish_message() -> (r: String)
    ensures
        r@ == "{\"event\":\"finish\"}"@,
{
    "{\"event\":\"finish\"}".to_string()
}

/// A message received on the speech session, or the failure to read one.
#[derive(Debug)]
pub enum WsEvent {
    Text(String),
    Binary(Vec<u8>),
    Close,
    Other,
    ReadError(String),
}

/// The `event` of a text message (empty when absent).
pub open spec fn event_name(t: Seq<char>) -> Seq<char> {
    match kind_str(json_at(t, "/event"@)) {
        Some(e) => e,
        None => Seq::empty(),
    }
}

/// The `code` of a text message (0 when absent).
pub open spec fn event_code(t: Seq<char>) -> i64 {
    match kind_i64(json_at(t, "/code"@)) {
        Some(c) => c,
        None => 0,
    }
}

/// The `message` of a text message ("未知错误" when absent).
pub open spec fn event_message(t: Seq<char>) -> Seq<char> {
    match kind_str(json_at(t, "/message"@)) {
        Some(m) => m,
        None => "未知错误"@,
    }
}

fn read_event_name(t: &str) -> (r: String)
    ensures
        r@ == event_name(t@),
{
    match json_string_at(t, "/event") {
        Some(e) => e,
        None => String::new(),
    }
}

fn read_event_code(t: &str) -> (r: i64)
    ensures
        r == event_code(t@),
{
    match json_i64(t, "/code") {
        Some(c) => c,
        None => 0,
    }
}

fn read_event_message(t: &str) -> (r: String)
    ensures
        r@ == event_message(t@),
{
    match json_string_at(t, "/message") {
        Some(m) => m,
        None => "未知错误".to_string(),
    }
}

/// What a message does while the session waits to be opened.
#[derive(Debug)]
pub enum HandshakeStep {
    /// Keep waiting.
    Continue,
    /// The server opened the session.
    Opened,
    /// The session failed with this message.
    Failed(String),
}

/// What a message does while the session waits to be opened: `open_success` opens it, a
/// text message with a non-zero code, a close or a read failure ends it.
pub open spec fn handshake_outcome(e: WsEvent) -> Option<Result<(), Seq<char>>> {
    match e {
        WsEvent::ReadError(m) => Some(Err("读取消息失败："@ + m@)),
        WsEvent::Text(t) => if event_name(t@) == "open_success"@ {
            Some(Ok(()))
        } else if event_code(t@) != 0 {
            Some(
                Err(
                    "TTS 服务拒绝：["@ + dec_int(event_code(t@) as int) + "] "@ + event_message(
                        t@,
                    ),
                ),
            )
        } else {
            None
        },
        WsEvent::Close => Some(Err("WebSocket 被服务端关闭，可能是 Cookie 无效或请求被限制"@)),
        _ => None,
    }
}

/// The outcome that a handshake step stands for.
pub open spec fn handshake_step_view(s: HandshakeStep) -> Option<Result<(), Seq<char>>> {
    match s {
        HandshakeStep::Continue => None,
        HandshakeStep::Opened => Some(Ok(())),
        HandshakeStep::Failed(m) => Some(Err(m@)),
    }
}

/// Decides what a message does while the session waits to be opened.
pub fn handshake_step(e: &WsEvent) -> (r: HandshakeStep)
    ensures
        handshake_step_view(r) == handshake_outcome(*e),
{
    match e {
        WsEvent::ReadError(m) => {
            let mut s = String::new();
            push_str(&mut s, "读取消息失败：");
            push_str(&mut s, m.as_str());
            HandshakeStep::Failed(s)
        },
        WsEvent::Text(t) => {
            let event = read_event_name(t.as_str());
            let code = read_event_code(t.as_str());
            if str_eq(event.as_str(), "open_success") {
                HandshakeStep::Opened
            } else if code != 0 {
                let mut s = String::new();
                push_str(&mut s, "TTS 服务拒绝：[");
                push_dec_signed(&mut s, code);
                push_str(&mut s, "] ");
                push_str(&mut s, read_event_message(t.as_str()).as_str());
                assert(s@ =~= handshake_outcome(*e)->0->Err_0);
                HandshakeStep::Failed(s)
            } else {
                HandshakeStep::Continue
            }
        },
        WsEvent::Close => HandshakeStep::Failed(
            "WebSocket 被服务端关闭，可能是 Cookie 无效或请求被限制".to_string(),
        ),
        _ => HandshakeStep::Continue,
    }
}

/// The message given when the messages ran out before the session was opened.
pub fn handshake_unanswered() -> (r: String)
    ensures
        r@ == "未收到 open_success 事件"@,
{
    "未收到 open_success 事件".to_string()
}

/// What a message does while the audio is collected.
#[derive(Debug)]
pub enum AudioStep {
    /// Read the next message.
    Continue,
    /// Stop reading.
    Stop,
    /// The session failed with this message.
    Failed(String),
}

/// Collects the audio of a speech session, which ends after the server's `finish`.
pub struct TtsCollector {
    audio: Vec<u8>,
    finished: bool,
}

impl TtsCollector {
    /// The audio collected so far.
    pub closed spec fn audio(&self) -> Seq<u8> {
        self.audio@
    }

    /// Whether the server has said that the audio is complete.
    pub closed spec fn done(&self) -> bool {
        self.finished
    }

    /// A collector that holds no audio yet.
    pub fn new() -> (r: Self)
        ensures
            r.audio() == Seq::<u8>::empty(),
            !r.done(),
    {
        TtsCollector { audio: Vec::new(), finished: false }
    }

    /// Takes one message. After the server's `finish` it stops before reading the next
    /// one; otherwise binary messages add to the audio, `finish` marks the end, a text
    /// message with a non-zero code (other than a sentence mark) or a read failure ends
    /// the session, and a close stops reading.
    pub fn on_event(&mut self, e: WsEvent) -> (r: AudioStep)
        ensures
            old(self).done() ==> (r is Stop && *final(self) == *old(self)),
            !old(self).done() ==> match e {
                WsEvent::Binary(d) => r is Continue && final(self).audio() == old(self).audio()
                    + d@ && !final(self).done(),
                WsEvent::ReadError(m) => (r matches AudioStep::Failed(s) && s@ == "读取音频数据失败："@
                    + m@) && *final(self) == *old(self),
                WsEvent::Text(t) => final(self).audio() == old(self).audio() && if event_name(t@)
                    == "finish"@ {
                    r is Continue && final(self).done()
                } else if event_name(t@) == "sentence_start"@ || event_name(t@)
                    == "sentence_end"@ || event_code(t@) == 0 {
                    r is Continue && !final(self).done()
                } else {
                    (r matches AudioStep::Failed(s) && s@ == "TTS 错误 ["@ + dec_int(
                        event_code(t@) as int,
                    ) + "]："@ + event_message(t@)) && !final(self).done()
                },
                WsEvent::Close => r is Stop && *final(self) == *old(self),
                WsEvent::Other => r is Continue && *final(self) == *old(self),
            },
    {
        if self.finished {
            return AudioStep::Stop;
        }
        match e {
            WsEvent::Binary(d) => {
                let mut d = d;
                self.audio.append(&mut d);
                AudioStep::Continue
            },
            WsEvent::ReadError(m) => {
                let mut s = String::new();
                push_str(&mut s, "读取音频数据失败：");
                push_str(&mut s, m.as_str());
                AudioStep::Failed(s)
            },
            WsEvent::Text(t) => {
                let event = read_event_name(t.as_str());
                let code = read_event_code(t.as_str());
                if str_eq(event.as_str(), "finish") {
                    self.finished = true;
                    AudioStep::Continue
                } else if str_eq(event.as_str(), "sentence_start") || str_eq(
                    event.as_str(),
                    "sentence_end",
                ) || code == 0 {
                    AudioStep::Continue
                } else {
                    let mut s = String::new();
                    push_str(&mut s, "TTS 错误 [");
                    push_dec_signed(&mut s, code);
                    push_str(&mut s, "]：");
                    push_str(&mut s, read_event_message(t.as_str()).as_str());
                    AudioStep::Failed(s)
                }
            },
            WsEvent::Close => AudioStep::Stop,
            WsEvent::Other => AudioStep::Continue,
        }
    }

    /// The session's answer once reading has stopped: the audio in base64, or a message
    /// when none came.
    pub fn result(&self) -> (r: Result<String, String>)
        ensures
            self.audio().len() == 0 ==> (r matches Err(m) && m@ == "未收到音频数据"@),
            self.audio().len() > 0 ==> (r matches Ok(s) && s@ == base64_standard(self.audio())),
    {
        if self.audio.len() == 0 {
            Err("未收到音频数据".to_string())
        } else {
            Ok(base64_encode(self.audio.as_slice()))
        }
    }
}

} // verus!
