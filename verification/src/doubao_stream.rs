use crate::doubao::{
    error_event_message, gateway_error, is_stream_end, parse_error_event, parse_gateway_error,
    parse_sse_event, sse_delta, stream_end,
};
use crate::text::{
    chars_from, chars_of, concat_all, find_newline, has_prefix, lemma_concat_all_push,
    lemma_decode_utf8_add, lemma_nl_index, lossy_text, nl_index, push_str, slice_chars, starts_with, str_eq, trim,
    trim_str, utf8_lossy, views,
};
use crate::json::{json_at, kind_bool, kind_str, kind_u64};
use crate::translate::{TranslateError, TranslateResult};
use vstd::prelude::*;
use vstd::utf8::{decode_utf8, valid_utf8};

verus! {

/// The JSON text that a stream line carries: what follows a `data:` prefix, trimmed,
/// or the whole line.
pub open spec fn json_payload(line: Seq<char>) -> Seq<char> {
    if starts_with(line, "data:"@) {
        trim(line.subrange("data:"@.len() as int, line.len() as int))
    } else {
        line
    }
}

/// What one line of the reply stream does to a translation.
pub ghost enum LineEffect {
    /// Nothing: an empty line, a `[DONE]` marker, an `event:` line or an unknown event.
    Skip,
    /// The reply is complete.
    Finish,
    /// The reply reports an error with this message.
    Fail(Seq<char>),
    /// The reply carries this next piece of the translation.
    Delta(Seq<char>),
}

/// What one raw line (before trimming) of the reply stream does.
pub open spec fn line_effect(raw: Seq<char>) -> LineEffect {
    let line = trim(raw);
    let js = json_payload(line);
    if line.len() == 0 || js.len() == 0 || js == "[DONE]"@ || starts_with(line, "event:"@) {
        LineEffect::Skip
    } else if gateway_error(js) is Some {
        LineEffect::Fail(gateway_error(js)->0)
    } else if stream_end(js) {
        LineEffect::Finish
    } else if error_event_message(js) is Some {
        LineEffect::Fail(error_event_message(js)->0)
    } else if sse_delta(js) is Some {
        LineEffect::Delta(sse_delta(js)->0)
    } else {
        LineEffect::Skip
    }
}

/// What reading the complete lines of a buffer gives: the text left over, the
/// translation pieces in order, whether the reply ended, and the error met, if any.
pub ghost struct Drained {
    pub rest: Seq<char>,
    pub deltas: Seq<Seq<char>>,
    pub finished: bool,
    pub error: Option<Seq<char>>,
}

/// Reads the complete lines of `buf` one by one until none is left, the reply ends or an
/// error comes; the text after the last line feed read stays over.
pub open spec fn drain(buf: Seq<char>) -> Drained
    decreases buf.len(),
{
    let p = nl_index(buf);
    if p >= buf.len() {
        Drained { rest: buf, deltas: Seq::empty(), finished: false, error: None }
    } else {
        let line = buf.subrange(0, p as int);
        let rest = buf.subrange(p as int + 1, buf.len() as int);
        match line_effect(line) {
            LineEffect::Skip => drain(rest),
            LineEffect::Finish => Drained {
                rest: rest,
                deltas: Seq::empty(),
                finished: true,
                error: None,
            },
            LineEffect::Fail(m) => Drained {
                rest: rest,
                deltas: Seq::empty(),
                finished: false,
                error: Some(m),
            },
            LineEffect::Delta(t) => {
                let d = drain(rest);
                Drained { deltas: seq![t] + d.deltas, ..d }
            },
        }
    }
}

/// What to do with one line of the reply stream.
#[derive(Debug)]
pub enum LineAction {
    Skip,
    Finish,
    Fail(String),
    Delta(String),
}

/// The effect that an action carries out.
pub open spec fn action_effect(a: LineAction) -> LineEffect {
    match a {
        LineAction::Skip => LineEffect::Skip,
        LineAction::Finish => LineEffect::Finish,
        LineAction::Fail(m) => LineEffect::Fail(m@),
        LineAction::Delta(t) => LineEffect::Delta(t@),
    }
}

/// Decides what one raw line of the reply stream does.
pub fn classify_line(raw: &str) -> (r: LineAction)
    ensures
        action_effect(r) == line_effect(raw@),
{
    let line = trim_str(raw);
    let js = match crate::text::strip_prefix(line.as_str(), "data:") {
        Some(rest) => trim_str(rest.as_str()),
        None => line.clone(),
    };
    assert(js@ == json_payload(line@));
    if line.as_str().is_empty() || js.as_str().is_empty() || str_eq(js.as_str(), "[DONE]")
        || has_prefix(line.as_str(), "event:") {
        return LineAction::Skip;
    }
    if let Some(m) = parse_gateway_error(js.as_str()) {
        return LineAction::Fail(m);
    }
    if is_stream_end(js.as_str()) {
        return LineAction::Finish;
    }
    if let Some(m) = parse_error_event(js.as_str()) {
        return LineAction::Fail(m);
    }
    if let Some(t) = parse_sse_event(js.as_str()) {
        return LineAction::Delta(t);
    }
    LineAction::Skip
}

/// What feeding one piece of the reply gives: the translation pieces to pass on, in
/// order, and the error that ends the translation, if one came.
#[derive(Debug)]
pub struct SseStep {
    pub deltas: Vec<String>,
    pub error: Option<TranslateError>,
}

/// Decodes the server-sent event stream of a Doubao translation reply: it gathers the
/// text into lines, reads each line's event and collects the translation.
pub struct SseDecoder {
    buffer: Vec<char>,
    translation: String,
    finished: bool,
}

impl SseDecoder {
    /// The text received after the last complete line.
    pub closed spec fn pending(&self) -> Seq<char> {
        self.buffer@
    }

    /// The translation collected so far.
    pub closed spec fn translated(&self) -> Seq<char> {
        self.translation@
    }

    /// Whether the reply has ended.
    pub closed spec fn ended(&self) -> bool {
        self.finished
    }

    /// A decoder that has received nothing yet.
    pub fn new() -> (r: Self)
        ensures
            r.pending() == Seq::<char>::empty(),
            r.translated() == Seq::<char>::empty(),
            !r.ended(),
    {
        SseDecoder { buffer: Vec::new(), translation: String::new(), finished: false }
    }

    /// Whether the reply has ended, after which no more of it is read.
    pub fn is_finished(&self) -> (r: bool)
        ensures
            r == self.ended(),
    {
        self.finished
    }

    /// Feeds a piece of the reply's text: reads every line it completes, in order.
    /// After the reply has ended it reads nothing more.
    pub fn feed_text(&mut self, chunk: &str) -> (step: SseStep)
        ensures
            old(self).ended() ==> *final(self) == *old(self) && step.deltas@.len() == 0
                && step.error is None,
            !old(self).ended() ==> ({
                let d = drain(old(self).pending() + chunk@);
                &&& final(self).pending() == d.rest
                &&& final(self).ended() == d.finished
                &&& views(step.deltas@) == d.deltas
                &&& final(self).translated() == old(self).translated() + concat_all(d.deltas)
                &&& match d.error {
                    Some(m) => step.error matches Some(TranslateError::ApiError { code, message })
                        && code == 0 && message@ == m,
                    None => step.error is None,
                }
            }),
    {
        if self.finished {
            return SseStep { deltas: Vec::new(), error: None };
        }
        let mut buf: Vec<char> = Vec::new();
        buf.append(&mut self.buffer);
        let mut more = chars_of(chunk);
        buf.append(&mut more);
        let ghost init = old(self).pending() + chunk@;
        assert(buf@ =~= init);
        let mut deltas: Vec<String> = Vec::new();
        loop
            invariant
                !self.finished,
                !old(self).finished,
                init == old(self).pending() + chunk@,
                drain(init).deltas == views(deltas@) + drain(buf@).deltas,
                drain(init).rest == drain(buf@).rest,
                drain(init).finished == drain(buf@).finished,
                drain(init).error == drain(buf@).error,
                self.translation@ == old(self).translation@ + concat_all(views(deltas@)),
            decreases buf@.len(),
        {
            let p = find_newline(buf.as_slice());
            proof {
                lemma_nl_index(buf@);
            }
            if p >= buf.len() {
                assert(drain(buf@).rest == buf@);
                assert(!drain(buf@).finished);
                assert(drain(buf@).error is None);
                assert(drain(buf@).deltas =~= Seq::<Seq<char>>::empty());
                self.buffer = buf;
                assert(views(deltas@) =~= views(deltas@) + Seq::<Seq<char>>::empty());
                return SseStep { deltas, error: None };
            }
            let line = slice_chars(buf.as_slice(), 0, p);
            let rest = chars_from(buf.as_slice(), p + 1);
            let action = classify_line(line.as_str());
            match action {
                LineAction::Skip => {
                    buf = rest;
                },
                LineAction::Finish => {
                    assert(drain(buf@).finished);
                    assert(drain(buf@).rest == rest@);
                    assert(drain(buf@).deltas =~= Seq::<Seq<char>>::empty());
                    self.buffer = rest;
                    self.finished = true;
                    assert(views(deltas@) =~= views(deltas@) + Seq::<Seq<char>>::empty());
                    return SseStep { deltas, error: None };
                },
                LineAction::Fail(m) => {
                    assert(drain(buf@).error == Some(m@));
                    assert(!drain(buf@).finished);
                    assert(drain(buf@).rest == rest@);
                    assert(drain(buf@).deltas =~= Seq::<Seq<char>>::empty());
                    self.buffer = rest;
                    assert(views(deltas@) =~= views(deltas@) + Seq::<Seq<char>>::empty());
                    return SseStep {
                        deltas,
                        error: Some(TranslateError::ApiError { code: 0, message: m }),
                    };
                },
                LineAction::Delta(t) => {
                    let ghost before = views(deltas@);
                    push_str(&mut self.translation, t.as_str());
                    proof {
                        lemma_concat_all_push(before, t@);
                    }
                    deltas.push(t);
                    assert(views(deltas@) =~= before.push(t@));
                    assert(before.push(t@) + drain(rest@).deltas =~= before + (seq![t@] + drain(
                        rest@,
                    ).deltas));
                    buf = rest;
                },
            }
        }
    }

    /// Feeds a piece of the reply as received: its bytes are decoded as UTF-8, invalid
    /// sequences replaced, and the text fed as `feed_text` does.
    pub fn feed_bytes(&mut self, chunk: &[u8]) -> (step: SseStep)
        ensures
            old(self).ended() ==> *final(self) == *old(self) && step.deltas@.len() == 0
                && step.error is None,
            !old(self).ended() ==> ({
                let d = drain(old(self).pending() + lossy_text(chunk@));
                &&& final(self).pending() == d.rest
                &&& final(self).ended() == d.finished
                &&& views(step.deltas@) == d.deltas
                &&& final(self).translated() == old(self).translated() + concat_all(d.deltas)
                &&& match d.error {
                    Some(m) => step.error matches Some(TranslateError::ApiError { code, message })
                        && code == 0 && message@ == m,
                    None => step.error is None,
                }
            }),
    {
        let text = utf8_lossy(chunk);
        self.feed_text(text.as_str())
    }

    /// Ends the translation once the stream is over: the translation of `original`, or an
    /// error when nothing was translated.
    pub fn finish(self, original: String) -> (r: Result<TranslateResult, TranslateError>)
        ensures
            self.translated().len() == 0 ==> (r matches Err(
                TranslateError::ApiError { code, message },
            ) && code == 0 && message@ == empty_translation_message()),
            self.translated().len() > 0 ==> (r matches Ok(t) && t.original == original
                && t.translation@ == self.translated()),
    {
        if self.translation.as_str().is_empty() {
            Err(
                TranslateError::ApiError {
                    code: 0,
                    message: "翻译结果为空，Cookie 可能已失效，请重新配置".to_string(),
                },
            )
        } else {
            Ok(TranslateResult { original, translation: self.translation })
        }
    }
}

/// A line feed that `x` holds is found at the same place in `x + y`.
proof fn lemma_nl_index_prefix(x: Seq<char>, y: Seq<char>)
    requires
        nl_index(x) < x.len(),
    ensures
        nl_index(x + y) == nl_index(x),
{
    lemma_nl_index(x);
    let p = nl_index(x) as int;
    assert forall|k: int| 0 <= k < p implies (x + y)[k] != '\n' by {
        assert((x + y)[k] == x[k]);
    }
    assert((x + y)[p] == x[p]);
    crate::text::lemma_nl_index_at(x + y, p);
}

/// Cutting the reply's text in two pieces does not change what is read from it. When the
/// first piece `x` ends the reply or brings an error, reading `x + y` gives the same
/// pieces and the same end, with `y` only left over unread. Otherwise reading `x` and then
/// what is left over followed by `y` gives the same pieces, in order, and the same end as
/// reading `x + y` at once.
pub proof fn lemma_drain_split(x: Seq<char>, y: Seq<char>)
    ensures
        drain(x).finished || drain(x).error is Some ==> drain(x + y) == (Drained {
            rest: drain(x).rest + y,
            ..drain(x)
        }),
        !drain(x).finished && drain(x).error is None ==> {
            &&& drain(x + y).deltas == drain(x).deltas + drain(drain(x).rest + y).deltas
            &&& drain(x + y).rest == drain(drain(x).rest + y).rest
            &&& drain(x + y).finished == drain(drain(x).rest + y).finished
            &&& drain(x + y).error == drain(drain(x).rest + y).error
        },
    decreases x.len(),
{
    lemma_nl_index(x);
    let p = nl_index(x);
    if p >= x.len() {
        assert(drain(x).deltas =~= Seq::<Seq<char>>::empty());
        assert(drain(x).deltas + drain(drain(x).rest + y).deltas =~= drain(x + y).deltas);
    } else {
        lemma_nl_index_prefix(x, y);
        let line = x.subrange(0, p as int);
        let xr = x.subrange(p as int + 1, x.len() as int);
        assert((x + y).subrange(0, p as int) =~= line);
        assert((x + y).subrange(p as int + 1, (x + y).len() as int) =~= xr + y);
        match line_effect(line) {
            LineEffect::Skip => {
                lemma_drain_split(xr, y);
            },
            LineEffect::Delta(t) => {
                lemma_drain_split(xr, y);
                assert(drain(x + y).deltas =~= seq![t] + drain(xr + y).deltas);
                assert(drain(x).deltas =~= seq![t] + drain(xr).deltas);
                if !drain(x).finished && drain(x).error is None {
                    assert(drain(x + y).deltas =~= drain(x).deltas + drain(drain(x).rest
                        + y).deltas);
                } else {
                    assert(drain(x + y) == (Drained { rest: drain(x).rest + y, ..drain(x) }));
                }
            },
            _ => {},
        }
    }
}

/// A line of the reply adds to the translation only through a delta event: the piece it
/// adds is the one its event yields, and a message event (2001) whose `is_delta` is
/// anything but `true` leaves the translation as it is.
pub proof fn law_line_delta_only_from_delta_event(raw: Seq<char>)
    ensures
        line_effect(raw) matches LineEffect::Delta(t) ==> sse_delta(json_payload(trim(raw)))
            == Some(t),
        ({
            let js = json_payload(trim(raw));
            let d = kind_str(json_at(js, "/event_data"@));
            kind_u64(json_at(js, "/event_type"@)) == Some(2001u64) && d is Some && kind_bool(
                json_at(d->0, "/is_delta"@),
            ) != Some(true)
        }) ==> line_effect(raw) == LineEffect::Skip,
{
    let js = json_payload(trim(raw));
    crate::doubao::law_delta_needs_is_delta(js);
    reveal_strlit("/event_type");
}

/// Feeding the reply's text in `chunks`, in order, as the translation loop does: each
/// chunk is read after what was left over, and nothing more is read once the reply ends
/// or fails (the chunks not read are kept over, unread).
pub open spec fn run_chunks(buf: Seq<char>, chunks: Seq<Seq<char>>) -> Drained
    decreases chunks.len(),
{
    if chunks.len() == 0 {
        drain(buf)
    } else {
        let d = drain(buf + chunks[0]);
        if d.finished || d.error is Some {
            Drained { rest: d.rest + concat_all(chunks.drop_first()), ..d }
        } else {
            let r = run_chunks(d.rest, chunks.drop_first());
            Drained { deltas: d.deltas + r.deltas, ..r }
        }
    }
}

/// However the reply's text is cut into chunks, feeding them in order reads the same
/// pieces, in order, with the same end and error, as reading the whole text at once.
pub proof fn lemma_run_chunks(buf: Seq<char>, chunks: Seq<Seq<char>>)
    ensures
        run_chunks(buf, chunks) == drain(buf + concat_all(chunks)),
    decreases chunks.len(),
{
    if chunks.len() == 0 {
        assert(buf + concat_all(chunks) =~= buf);
    } else {
        let x = buf + chunks[0];
        let y = concat_all(chunks.drop_first());
        assert(buf + concat_all(chunks) =~= x + y);
        lemma_drain_split(x, y);
        let d = drain(x);
        if !(d.finished || d.error is Some) {
            lemma_run_chunks(d.rest, chunks.drop_first());
            assert(run_chunks(buf, chunks).deltas =~= drain(x + y).deltas);
        }
    }
}

/// The bytes of chunks joined in order.
pub open spec fn joined_bytes(chunks: Seq<Seq<u8>>) -> Seq<u8>
    decreases chunks.len(),
{
    if chunks.len() == 0 {
        Seq::empty()
    } else {
        chunks[0] + joined_bytes(chunks.drop_first())
    }
}

/// The texts that the decoder makes of byte chunks, each decoded on its own.
pub open spec fn chunk_texts(chunks: Seq<Seq<u8>>) -> Seq<Seq<char>>
    decreases chunks.len(),
{
    if chunks.len() == 0 {
        Seq::empty()
    } else {
        seq![lossy_text(chunks[0])] + chunk_texts(chunks.drop_first())
    }
}

/// Byte chunks that are each valid UTF-8 join into valid UTF-8, and their texts join into
/// the text of the joined bytes.
pub proof fn lemma_chunk_texts(chunks: Seq<Seq<u8>>)
    requires
        forall|i: int| 0 <= i < chunks.len() ==> valid_utf8(#[trigger] chunks[i]),
    ensures
        valid_utf8(joined_bytes(chunks)),
        concat_all(chunk_texts(chunks)) == decode_utf8(joined_bytes(chunks)),
    decreases chunks.len(),
{
    if chunks.len() == 0 {
        assert(concat_all(chunk_texts(chunks)) =~= decode_utf8(joined_bytes(chunks)));
    } else {
        let tail = chunks.drop_first();
        assert forall|i: int| 0 <= i < tail.len() implies valid_utf8(#[trigger] tail[i]) by {
            assert(tail[i] == chunks[i + 1]);
        }
        lemma_chunk_texts(tail);
        assert(valid_utf8(chunks[0]));
        lemma_decode_utf8_add(chunks[0], joined_bytes(tail));
        assert(chunk_texts(chunks).drop_first() =~= chunk_texts(tail));
        assert(chunk_texts(chunks)[0] == decode_utf8(chunks[0]));
    }
}

/// However a reply's bytes are cut into chunks, as long as every cut falls between two
/// characters, feeding the chunks in order reads the same pieces, in order, with the same
/// end and error: two such cuttings of the same bytes give the same outcome.
pub proof fn lemma_resplit_bytes(buf: Seq<char>, c1: Seq<Seq<u8>>, c2: Seq<Seq<u8>>)
    requires
        forall|i: int| 0 <= i < c1.len() ==> valid_utf8(#[trigger] c1[i]),
        forall|i: int| 0 <= i < c2.len() ==> valid_utf8(#[trigger] c2[i]),
        joined_bytes(c1) == joined_bytes(c2),
    ensures
        run_chunks(buf, chunk_texts(c1)) == run_chunks(buf, chunk_texts(c2)),
        run_chunks(buf, chunk_texts(c1)) == drain(buf + decode_utf8(joined_bytes(c1))),
{
    lemma_chunk_texts(c1);
    lemma_chunk_texts(c2);
    lemma_run_chunks(buf, chunk_texts(c1));
    lemma_run_chunks(buf, chunk_texts(c2));
}

/// The message given when the reply carried no translation.
pub open spec fn empty_translation_message() -> Seq<char> {
    "翻译结果为空，Cookie 可能已失效，请重新配置"@
}

} // verus!
