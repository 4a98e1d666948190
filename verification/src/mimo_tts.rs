use crate::json::{
    json_array_len, json_at, json_error_text, json_parse_error, json_quote, json_string_at,
    json_string_lit, kind_array_len, kind_str,
};
use crate::text::{
    byte_prefix, cut_ok, cut_on_boundary, lemma_trim_end_char, push_str, str_byte_prefix, str_eq,
    trim_end_char, trim_end_matches_char,
};
use vstd::prelude::*;

verus! {

/// A request to speak a text with MiMo.
#[derive(Clone, Debug)]
pub struct MimoTtsRequest {
    pub text: String,
    pub voice: String,
    pub model: String,
    /// The description of the voice, for the voice design model.
    pub voice_design: Option<String>,
}

/// The voice used when a request names none.
pub fn default_voice() -> (r: String)
    ensures
        r@ == "冰糖"@,
{
    "冰糖".to_string()
}

/// The model used when a request names none.
pub fn default_model() -> (r: String)
    ensures
        r@ == "mimo-v2.5-tts"@,
{
    "mimo-v2.5-tts".to_string()
}

/// The address of the completion service under `base_url`, without its trailing slashes.
pub open spec fn mimo_url_spec(base_url: Seq<char>) -> Seq<char> {
    trim_end_char(base_url, '/') + "/chat/completions"@
}

/// The address that speech requests are posted to.
pub fn mimo_url(base_url: &str) -> (r: String)
    ensures
        r@ == mimo_url_spec(base_url@),
{
    let mut r = trim_end_matches_char(base_url, '/');
    push_str(&mut r, "/chat/completions");
    r
}

/// The service address is the configured base without the slashes at its end, then
/// `/chat/completions`: exactly one slash joins them, whatever slashes the base ends with.
pub proof fn lemma_mimo_url_joins_once(base: Seq<char>)
    ensures
        exists|k: int|
            0 <= k <= base.len() && #[trigger] mimo_url_spec(base) == base.subrange(0, k)
                + "/chat/completions"@ && (k > 0 ==> base[k - 1] != '/') && (forall|j: int|
                k <= j < base.len() ==> base[j] == '/'),
{
    lemma_trim_end_char(base, '/');
    let k = trim_end_char(base, '/').len() as int;
    assert(mimo_url_spec(base) == base.subrange(0, k) + "/chat/completions"@);
    assert(k > 0 ==> base[k - 1] == trim_end_char(base, '/').last());
}

/// Whether a model designs its voice from a description.
pub open spec fn is_voice_design(model: Seq<char>) -> bool {
    model == "mimo-v2.5-tts-voicedesign"@
}

/// The voice description sent to the voice design model: the request's, or a plain
/// announcer's voice when it gives none or an empty one.
pub open spec fn voice_description(d: Option<String>) -> Seq<char> {
    match d {
        Some(s) => if s@.len() > 0 {
            s@
        } else {
            "标准播音腔，声音清晰自然"@
        },
        None => "标准播音腔，声音清晰自然"@,
    }
}

/// The JSON body of a speech request. The voice design model gets the description as the
/// user's message and no voice; the others get the voice.
pub open spec fn mimo_body_json(r: MimoTtsRequest) -> Seq<char> {
    if is_voice_design(r.model@) {
        "{\"audio\":{\"format\":\"wav\"},\"messages\":[{\"content\":"@ + json_string_lit(
            voice_description(r.voice_design),
        ) + ",\"role\":\"user\"},{\"content\":"@ + json_string_lit(r.text@)
            + ",\"role\":\"assistant\"}],\"model\":"@ + json_string_lit(r.model@) + "}"@
    } else {
        "{\"audio\":{\"format\":\"wav\",\"voice\":"@ + json_string_lit(r.voice@)
            + "},\"messages\":[{\"content\":"@ + json_string_lit(r.text@)
            + ",\"role\":\"assistant\"}],\"model\":"@ + json_string_lit(r.model@) + "}"@
    }
}

/// The body of a speech request asks for the request's own voice: for every model but the
/// voice design one, its audio object is the WAV format with the request's voice as a
/// JSON string, and the text follows as the assistant's message. The voice design model
/// gets no voice there, and the voice description (the request's, or the plain
/// announcer's) as the user's message.
pub proof fn law_body_carries_the_voice(r: MimoTtsRequest)
    ensures
        r.model@ != "mimo-v2.5-tts-voicedesign"@ ==> ("{\"audio\":{\"format\":\"wav\","@ + "\"voice\":"@
            + json_string_lit(r.voice@) + "},\"messages\":[{\"content\":"@ + json_string_lit(
            r.text@,
        ) + ",\"role\":\"assistant\"}]"@).is_prefix_of(mimo_body_json(r)),
        r.model@ == "mimo-v2.5-tts-voicedesign"@ ==> ("{\"audio\":{\"format\":\"wav\"},\"messages\":[{\"content\":"@
            + json_string_lit(
            match r.voice_design {
                Some(d) => if d@.len() > 0 {
                    d@
                } else {
                    "标准播音腔，声音清晰自然"@
                },
                None => "标准播音腔，声音清晰自然"@,
            },
        ) + ",\"role\":\"user\"},{\"content\":"@ + json_string_lit(r.text@)
            + ",\"role\":\"assistant\"}]"@).is_prefix_of(mimo_body_json(r)),
{
    let tail = ",\"model\":"@ + json_string_lit(r.model@) + "}"@;
    reveal_strlit(",\"role\":\"assistant\"}],\"model\":");
    reveal_strlit(",\"role\":\"assistant\"}]");
    reveal_strlit(",\"model\":");
    reveal_strlit("{\"audio\":{\"format\":\"wav\",");
    reveal_strlit("\"voice\":");
    reveal_strlit("{\"audio\":{\"format\":\"wav\",\"voice\":");
    if r.model@ != "mimo-v2.5-tts-voicedesign"@ {
        let p = "{\"audio\":{\"format\":\"wav\","@ + "\"voice\":"@ + json_string_lit(r.voice@)
            + "},\"messages\":[{\"content\":"@ + json_string_lit(r.text@)
            + ",\"role\":\"assistant\"}]"@;
        assert(mimo_body_json(r) =~= p + tail);
        assert(mimo_body_json(r).subrange(0, p.len() as int) =~= p);
    } else {
        let p = "{\"audio\":{\"format\":\"wav\"},\"messages\":[{\"content\":"@ + json_string_lit(
            voice_description(r.voice_design),
        ) + ",\"role\":\"user\"},{\"content\":"@ + json_string_lit(r.text@)
            + ",\"role\":\"assistant\"}]"@;
        assert(mimo_body_json(r) =~= p + tail);
        assert(mimo_body_json(r).subrange(0, p.len() as int) =~= p);
    }
}

/// Writes the JSON body of a speech request.
pub fn mimo_body(request: &MimoTtsRequest) -> (r: String)
    ensures
        r@ == mimo_body_json(*request),
{
    let mut r = String::new();
    if str_eq(request.model.as_str(), "mimo-v2.5-tts-voicedesign") {
        let desc: &str = match &request.voice_design {
            Some(d) => if !d.as_str().is_empty() {
                d.as_str()
            } else {
                "标准播音腔，声音清晰自然"
            },
            None => "标准播音腔，声音清晰自然",
        };
        push_str(&mut r, "{\"audio\":{\"format\":\"wav\"},\"messages\":[{\"content\":");
        push_str(&mut r, json_quote(desc).as_str());
        push_str(&mut r, ",\"role\":\"user\"},{\"content\":");
        push_str(&mut r, json_quote(request.text.as_str()).as_str());
        push_str(&mut r, ",\"role\":\"assistant\"}],\"model\":");
        push_str(&mut r, json_quote(request.model.as_str()).as_str());
        push_str(&mut r, "}");
    } else {
        push_str(&mut r, "{\"audio\":{\"format\":\"wav\",\"voice\":");
        push_str(&mut r, json_quote(request.voice.as_str()).as_str());
        push_str(&mut r, "},\"messages\":[{\"content\":");
        push_str(&mut r, json_quote(request.text.as_str()).as_str());
        push_str(&mut r, ",\"role\":\"assistant\"}],\"model\":");
        push_str(&mut r, json_quote(request.model.as_str()).as_str());
        push_str(&mut r, "}");
    }
    assert(r@ =~= mimo_body_json(*request));
    r
}

/// The audio data of a reply: the string at `choices[0].message.audio.data`.
pub open spec fn reply_audio(resp: Seq<char>) -> Option<Seq<char>> {
    if kind_array_len(json_at(resp, "/choices"@)) is Some {
        kind_str(json_at(resp, "/choices/0/message/audio/data"@))
    } else {
        None
    }
}

/// What the speech service's reply gives: the base64 audio data, or the message of what
/// went wrong: a failed status, a body that is no JSON document, or a document without
/// audio data.
pub open spec fn mimo_reply(status_ok: bool, status: Seq<char>, resp: Seq<char>) -> Result<
    Seq<char>,
    Seq<char>,
> {
    if !status_ok {
        Err("MiMo TTS 错误 ["@ + status + "]："@ + resp)
    } else if json_error_text(resp) is Some {
        Err("解析 MiMo 响应失败："@ + json_error_text(resp)->0 + "，原始："@ + byte_prefix(resp, 200))
    } else if reply_audio(resp) is Some {
        Ok(reply_audio(resp)->0)
    } else {
        Err("MiMo 响应中未找到音频数据："@ + byte_prefix(resp, 500))
    }
}

/// Whether reading a reply cuts its text inside a character, where slicing it panics.
pub open spec fn mimo_reply_cuts_char(status_ok: bool, resp: Seq<char>) -> bool {
    status_ok && if json_error_text(resp) is Some {
        !cut_on_boundary(resp, 200)
    } else {
        reply_audio(resp) is None && !cut_on_boundary(resp, 500)
    }
}

/// The view of a result of strings.
pub open spec fn result_view(r: Result<String, String>) -> Result<Seq<char>, Seq<char>> {
    match r {
        Ok(s) => Ok(s@),
        Err(e) => Err(e@),
    }
}

/// Reads the speech service's reply, given whether its status is a success, the status
/// as displayed, and the body.
pub fn mimo_response(status_ok: bool, status: &str, resp_text: &str) -> (r: Result<
    String,
    String,
>)
    requires
        !mimo_reply_cuts_char(status_ok, resp_text@),
    ensures
        result_view(r) == mimo_reply(status_ok, status@, resp_text@),
{
    if !status_ok {
        let mut m = String::new();
        push_str(&mut m, "MiMo TTS 错误 [");
        push_str(&mut m, status);
        push_str(&mut m, "]：");
        push_str(&mut m, resp_text);
        assert(m@ =~= mimo_reply(status_ok, status@, resp_text@)->Err_0);
        return Err(m);
    }
    if let Some(e) = json_parse_error(resp_text) {
        let mut m = String::new();
        push_str(&mut m, "解析 MiMo 响应失败：");
        push_str(&mut m, e.as_str());
        push_str(&mut m, "，原始：");
        push_str(&mut m, str_byte_prefix(resp_text, 200).as_str());
        assert(m@ =~= mimo_reply(status_ok, status@, resp_text@)->Err_0);
        return Err(m);
    }
    if json_array_len(resp_text, "/choices").is_some() {
        if let Some(d) = json_string_at(resp_text, "/choices/0/message/audio/data") {
            return Ok(d);
        }
    }
    let mut m = String::new();
    push_str(&mut m, "MiMo 响应中未找到音频数据：");
    push_str(&mut m, str_byte_prefix(resp_text, 500).as_str());
    assert(m@ =~= mimo_reply(status_ok, status@, resp_text@)->Err_0);
    Err(m)
}

/// Reads the speech service's reply as `mimo_response` does, or gives `None` where the
/// reply's text would have to be cut inside a character.
pub fn mimo_response_checked(status_ok: bool, status: &str, resp_text: &str) -> (r: Option<
    Result<String, String>,
>)
    ensures
        r is None <==> mimo_reply_cuts_char(status_ok, resp_text@),
        r matches Some(x) ==> result_view(x) == mimo_reply(status_ok, status@, resp_text@),
{
    if status_ok {
        if json_parse_error(resp_text).is_some() {
            if !cut_ok(resp_text, 200) {
                return None;
            }
        } else {
            let has_audio = json_array_len(resp_text, "/choices").is_some() && json_string_at(
                resp_text,
                "/choices/0/message/audio/data",
            ).is_some();
            if !has_audio && !cut_ok(resp_text, 500) {
                return None;
            }
        }
    }
    Some(mimo_response(status_ok, status, resp_text))
}

} // verus!
