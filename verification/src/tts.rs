//! Agent Plan text-to-speech: the request payload, the framing of the
//! newline-delimited reply, the decoding of its audio chunks, the request
//! headers, and the base64 payload that the HTTP server returns.

use base64::Engine;
use vstd::prelude::*;
use vstd::utf8::encode_utf8;

use crate::error::{AgentPlanError, ErrorView, result_view};
use crate::text::lemma_filter_push;

verus! {

broadcast use vstd::string::group_string_axioms;

/// The sample format of synthesized speech.
#[derive(Debug, Clone, Copy, PartialEq, Eq, Structural)]
pub enum AudioFormat {
    Mp3,
    Pcm,
    Wav,
    OggOpus,
}

/// The user block of a speech request.
#[derive(Debug, Clone)]
pub struct TtsUser {
    pub uid: String,
}

/// The audio settings of a speech request.
#[derive(Debug, Clone, Copy)]
pub struct AudioParams {
    pub format: AudioFormat,
    pub sample_rate: u32,
    pub speech_rate: Option<i32>,
    pub loudness_rate: Option<i32>,
}

/// What to say, in which voice, and how to encode it.
#[derive(Debug, Clone)]
pub struct TtsRequestParams {
    pub text: String,
    pub speaker: String,
    pub audio_params: AudioParams,
}

/// A speech synthesis request.
#[derive(Debug, Clone)]
pub struct TtsRequest {
    pub user: TtsUser,
    pub req_params: TtsRequestParams,
}

/// The uid that requests carry unless the caller sets another.
pub open spec fn default_uid() -> Seq<char> {
    "doubao-agent-plan-rs"@
}

impl TtsRequest {
    /// A request to say `text` in the voice `speaker`, as 24 kHz MP3 at the
    /// service's default rate and loudness.
    pub fn new(text: String, speaker: String) -> (r: Self)
        ensures
            r.user.uid@ == default_uid(),
            r.req_params.text == text,
            r.req_params.speaker == speaker,
            r.req_params.audio_params == (AudioParams {
                format: AudioFormat::Mp3,
                sample_rate: 24000,
                speech_rate: None,
                loudness_rate: None,
            }),
    {
        TtsRequest {
            user: TtsUser { uid: "doubao-agent-plan-rs".to_string() },
            req_params: TtsRequestParams {
                text,
                speaker,
                audio_params: AudioParams {
                    format: AudioFormat::Mp3,
                    sample_rate: 24_000,
                    speech_rate: None,
                    loudness_rate: None,
                },
            },
        }
    }
}

/// Synthesized speech with the reply's content type and log id.
#[derive(Debug, Clone)]
pub struct TtsResponse {
    pub audio: Vec<u8>,
    pub content_type: Option<String>,
    pub log_id: Option<String>,
}

/// One line of the speech reply: a status code, a message, and optionally
/// a base64 audio chunk.
#[derive(Debug, Clone)]
pub struct TtsLine {
    pub code: i64,
    pub message: String,
    pub data: Option<String>,
}

/// The code of a final line that carries no audio and is not an error.
pub open spec fn tts_done_code() -> i64 {
    20000000
}

// ---------------------------------------------------------------------
// Framing

/// Splitting `s` at `\n` bytes as far as its end: the completed lines and
/// the line still open.
pub open spec fn split_state(s: Seq<u8>) -> (Seq<Seq<u8>>, Seq<u8>)
    decreases s.len(),
{
    if s.len() == 0 {
        (Seq::empty(), Seq::empty())
    } else {
        let (done, open) = split_state(s.drop_last());
        if s.last() == 0x0a {
            (done.push(open), Seq::empty())
        } else {
            (done, open.push(s.last()))
        }
    }
}

/// The pieces between `\n` bytes, as `<[u8]>::split` gives them (an empty
/// piece after a final `\n` included).
pub open spec fn split_lines(s: Seq<u8>) -> Seq<Seq<u8>> {
    split_state(s).0.push(split_state(s).1)
}

/// Whether a line holds only ASCII whitespace (an empty line does).
pub open spec fn is_blank_line(l: Seq<u8>) -> bool {
    forall|i: int| 0 <= i < l.len() ==> crate::minimax::is_ascii_ws_byte(#[trigger] l[i])
}

/// The lines of a speech reply that hold something besides ASCII
/// whitespace, in order.
pub open spec fn tts_frames(body: Seq<u8>) -> Seq<Seq<u8>> {
    split_lines(body).filter(|l: Seq<u8>| !is_blank_line(l))
}

/// `ls` joined with a `\n` between each two lines.
pub open spec fn join_lines(ls: Seq<Seq<u8>>) -> Seq<u8>
    decreases ls.len(),
{
    if ls.len() == 0 {
        Seq::empty()
    } else if ls.len() == 1 {
        ls[0]
    } else {
        join_lines(ls.drop_last()).push(0x0a) + ls.last()
    }
}

/// Whether `l` holds no `\n` byte.
pub open spec fn no_newline(l: Seq<u8>) -> bool {
    forall|i: int| 0 <= i < l.len() ==> l[i] != 0x0a
}

/// Appending bytes without a `\n` only extends the open line.
proof fn lemma_split_append(s: Seq<u8>, t: Seq<u8>)
    requires
        no_newline(t),
    ensures
        split_state(s + t) == (split_state(s).0, split_state(s).1 + t),
    decreases t.len(),
{
    if t.len() == 0 {
        assert(s + t == s);
        assert(split_state(s).1 + t == split_state(s).1);
    } else {
        let u = t.drop_last();
        lemma_split_append(s, u);
        assert((s + t).drop_last() == s + u);
        assert((s + t).last() == t.last());
        assert((split_state(s).1 + u).push(t.last()) == split_state(s).1 + t);
    }
}

/// Splitting lines that were joined gives them back.
pub proof fn lemma_split_join(ls: Seq<Seq<u8>>)
    requires
        ls.len() >= 1,
        forall|i: int| 0 <= i < ls.len() ==> no_newline(#[trigger] ls[i]),
    ensures
        split_lines(join_lines(ls)) == ls,
    decreases ls.len(),
{
    if ls.len() == 1 {
        lemma_split_append(Seq::empty(), ls[0]);
        assert(Seq::<u8>::empty() + ls[0] == ls[0]);
        assert(Seq::<Seq<u8>>::empty().push(ls[0]) == ls);
    } else {
        let init = ls.drop_last();
        let a = join_lines(init);
        lemma_split_join(init);
        assert(a.push(0x0a).drop_last() == a);
        lemma_split_append(a.push(0x0a), ls.last());
        assert(init.push(ls.last()) == ls);
    }
}

/// Lines made only of whitespace do not matter: two replies whose lines
/// agree once such lines are left out give the same frames, the only part
/// of a reply that is parsed and handed to `decode_tts_lines`.
pub proof fn lemma_blank_lines_do_not_matter(ls1: Seq<Seq<u8>>, ls2: Seq<Seq<u8>>)
    requires
        ls1.len() >= 1,
        ls2.len() >= 1,
        forall|i: int| 0 <= i < ls1.len() ==> no_newline(#[trigger] ls1[i]),
        forall|i: int| 0 <= i < ls2.len() ==> no_newline(#[trigger] ls2[i]),
        ls1.filter(|l: Seq<u8>| !is_blank_line(l)) == ls2.filter(|l: Seq<u8>| !is_blank_line(l)),
    ensures
        tts_frames(join_lines(ls1)) == tts_frames(join_lines(ls2)),
{
    lemma_split_join(ls1);
    lemma_split_join(ls2);
}

fn line_is_blank(l: &Vec<u8>) -> (r: bool)
    ensures
        r == is_blank_line(l@),
{
    let mut i: usize = 0;
    while i < l.len()
        invariant
            0 <= i <= l@.len(),
            forall|j: int| 0 <= j < i ==> crate::minimax::is_ascii_ws_byte(#[trigger] l@[j]),
        decreases l@.len() - i,
    {
        let b = l[i];
        if !(b == 0x20 || b == 0x09 || b == 0x0a || b == 0x0c || b == 0x0d) {
            return false;
        }
        i = i + 1;
    }
    true
}

/// Splits a speech reply into its lines and drops those that hold only
/// ASCII whitespace; each remaining line is one JSON document.
pub fn tts_body_frames(body: &[u8]) -> (r: Vec<Vec<u8>>)
    ensures
        r@.map_values(|l: Vec<u8>| l@) == tts_frames(body@),
{
    let mut frames: Vec<Vec<u8>> = Vec::new();
    let mut open: Vec<u8> = Vec::new();
    let mut i: usize = 0;
    while i < body.len()
        invariant
            0 <= i <= body@.len(),
            frames@.map_values(|l: Vec<u8>| l@) == split_state(body@.take(i as int)).0.filter(
                |l: Seq<u8>| !is_blank_line(l),
            ),
            open@ == split_state(body@.take(i as int)).1,
        decreases body@.len() - i,
    {
        let b = body[i];
        proof {
            assert(body@.take(i + 1).drop_last() == body@.take(i as int));
            lemma_filter_push(
                split_state(body@.take(i as int)).0,
                split_state(body@.take(i as int)).1,
                |l: Seq<u8>| !is_blank_line(l),
            );
        }
        if b == 0x0a {
            let line = open;
            open = Vec::new();
            let blank = line_is_blank(&line);
            let ghost before = frames@;
            if !blank {
                frames.push(line);
                proof {
                    assert(frames@.map_values(|l: Vec<u8>| l@) == before.map_values(
                        |l: Vec<u8>| l@,
                    ).push(line@));
                }
            }
        } else {
            open.push(b);
        }
        i = i + 1;
    }
    proof {
        assert(body@.take(body@.len() as int) == body@);
        lemma_filter_push(split_state(body@).0, split_state(body@).1, |l: Seq<u8>| !is_blank_line(l));
    }
    let blank = line_is_blank(&open);
    let ghost before = frames@;
    if !blank {
        frames.push(open);
        proof {
            assert(frames@.map_values(|l: Vec<u8>| l@) == before.map_values(|l: Vec<u8>| l@).push(
                split_state(body@).1,
            ));
        }
    }
    proof {
        assert(split_lines(body@).drop_last() == split_state(body@).0);
    }
    frames
}


// ---------------------------------------------------------------------
// Audio chunks

/// What the standard base64 engine (`base64::engine::general_purpose::STANDARD`,
/// padded alphabet `A-Z a-z 0-9 + /`) decodes `input` to: the bytes, or the
/// text of its `DecodeError`.
pub uninterp spec fn base64_standard_decode(input: Seq<u8>) -> Result<Seq<u8>, Seq<char>>;

/// What the standard base64 engine encodes `input` to.
pub uninterp spec fn base64_standard_encode(input: Seq<u8>) -> Seq<char>;

/// `STANDARD.decode`: the decoded bytes, or the rendered decode error.
/// Its result is a function of the input alone and is named, not stated.
#[verifier::external_body]
fn decode_base64_standard(input: &[u8]) -> (r: Result<Vec<u8>, String>)
    ensures
        match r {
            Ok(v) => base64_standard_decode(input@) == Ok::<Seq<u8>, Seq<char>>(v@),
            Err(m) => base64_standard_decode(input@) == Err::<Seq<u8>, Seq<char>>(m@),
        },
{
    match base64::engine::general_purpose::STANDARD.decode(input) {
        Ok(v) => Ok(v),
        Err(e) => Err(e.to_string()),
    }
}

/// `STANDARD.encode`, which panics when the padded output length
/// `4 * ceil(n / 3)` does not fit in `usize`; `requires` leaves that out.
/// Its result is a function of the input alone and is named, not stated.
#[verifier::external_body]
fn encode_base64_standard(input: &[u8]) -> (r: String)
    requires
        (input@.len() + 2) / 3 * 4 <= usize::MAX,
    ensures
        r@ == base64_standard_encode(input@),
{
    base64::engine::general_purpose::STANDARD.encode(input)
}

/// The prefix of the message of an audio chunk that is not valid base64.
pub open spec fn bad_chunk_prefix() -> Seq<char> {
    "invalid base64 audio chunk: "@
}

/// The outcome of reading the parsed reply lines `lines` (each a line or
/// the text of its JSON error) after audio `acc` was gathered, line by line
/// in order: a JSON error fails; code 0 with data appends the decoded chunk
/// (failing as `TtsCode` 0 when it is not base64); code 0 without data and
/// the final code 20000000 are passed over; any other code fails with that
/// code and the line's message. At the end, no audio at all is `EmptyAudio`.
pub open spec fn tts_audio_outcome(lines: Seq<Result<TtsLine, String>>, acc: Seq<u8>) -> Result<
    Seq<u8>,
    ErrorView,
>
    decreases lines.len(),
{
    if lines.len() == 0 {
        if acc.len() == 0 {
            Err(ErrorView::EmptyAudio)
        } else {
            Ok(acc)
        }
    } else {
        match lines[0] {
            Err(m) => Err(ErrorView::Json(m@)),
            Ok(l) => if l.code == 0 && l.data is Some {
                match base64_standard_decode(encode_utf8(l.data->0@)) {
                    Ok(chunk) => tts_audio_outcome(lines.drop_first(), acc + chunk),
                    Err(m) => Err(ErrorView::TtsCode { code: 0, message: bad_chunk_prefix() + m }),
                }
            } else if l.code == 0 || l.code == tts_done_code() {
                tts_audio_outcome(lines.drop_first(), acc)
            } else {
                Err(ErrorView::TtsCode { code: l.code, message: l.message@ })
            },
        }
    }
}

/// Gathers the audio of a speech reply from its parsed lines, in order.
pub fn decode_tts_lines(lines: Vec<Result<TtsLine, String>>) -> (r: Result<Vec<u8>, AgentPlanError>)
    ensures
        result_view(r) == tts_audio_outcome(lines@, Seq::empty()),
        forall|i: int|
            0 <= i < lines@.len() && (forall|j: int| 0 <= j < i ==> line_passes(#[trigger] lines@[j]))
                && (#[trigger] lines@[i] matches Ok(l) && l.code != 0 && l.code != 20000000)
                ==> result_view(r) == Err::<Seq<u8>, ErrorView>(
                ErrorView::TtsCode { code: lines@[i]->Ok_0.code, message: lines@[i]->Ok_0.message@ },
            ),
{
    proof {
        assert forall|i: int|
            0 <= i < lines@.len() && (forall|j: int| 0 <= j < i ==> line_passes(#[trigger] lines@[j]))
                && (#[trigger] lines@[i] matches Ok(l) && l.code != 0 && l.code != 20000000)
                implies tts_audio_outcome(lines@, Seq::empty()) == Err::<Seq<u8>, ErrorView>(
                ErrorView::TtsCode { code: lines@[i]->Ok_0.code, message: lines@[i]->Ok_0.message@ },
            ) by {
            let before = lines@.take(i);
            let after = lines@.skip(i + 1);
            assert forall|j: int| 0 <= j < before.len() implies line_passes(#[trigger] before[j]) by {
                assert(before[j] == lines@[j]);
            }
            assert(lines@ == before + seq![lines@[i]] + after);
            lemma_failing_code_is_reported(before, lines@[i]->Ok_0, after, Seq::empty());
        }
    }
    let mut audio: Vec<u8> = Vec::new();
    let mut i: usize = 0;
    proof {
        assert(lines@.skip(0) == lines@);
        assert(audio@ == Seq::<u8>::empty());
    }
    while i < lines.len()
        invariant
            0 <= i <= lines@.len(),
            forall|k: int|
                0 <= k < lines@.len() && (forall|j: int| 0 <= j < k ==> line_passes(#[trigger] lines@[j]))
                    && (#[trigger] lines@[k] matches Ok(l) && l.code != 0 && l.code != 20000000)
                    ==> tts_audio_outcome(lines@, Seq::empty()) == Err::<Seq<u8>, ErrorView>(
                    ErrorView::TtsCode { code: lines@[k]->Ok_0.code, message: lines@[k]->Ok_0.message@ },
                ),
            tts_audio_outcome(lines@, Seq::empty()) == tts_audio_outcome(
                lines@.skip(i as int),
                audio@,
            ),
        decreases lines@.len() - i,
    {
        let ghost rest = lines@.skip(i as int);
        proof {
            assert(rest[0] == lines@[i as int]);
            assert(rest.drop_first() == lines@.skip(i + 1));
        }
        match &lines[i] {
            Err(m) => {
                return Err(AgentPlanError::Json(m.clone()));
            },
            Ok(line) => {
                if line.code == 0 && line.data.is_some() {
                    let data = match &line.data {
                        Some(d) => d,
                        None => {
                            return Err(AgentPlanError::EmptyAudio);
                        },
                    };
                    match decode_base64_standard(data.as_str().as_bytes()) {
                        Ok(chunk) => {
                            let mut chunk = chunk;
                            audio.append(&mut chunk);
                        },
                        Err(m) => {
                            let mut message = "invalid base64 audio chunk: ".to_string();
                            message.append(m.as_str());
                            return Err(AgentPlanError::TtsCode { code: 0, message });
                        },
                    }
                } else if line.code == 0 || line.code == 20000000 {
                } else {
                    return Err(AgentPlanError::TtsCode { code: line.code, message: line.message.clone() });
                }
            },
        }
        i = i + 1;
    }
    proof {
        assert(lines@.skip(i as int).len() == 0);
    }
    if audio.len() == 0 {
        return Err(AgentPlanError::EmptyAudio);
    }
    Ok(audio)
}


/// Whether a parsed reply line lets reading go on: it parsed, its code is
/// 0 or the final 20000000, and audio data on a code-0 line is base64.
pub open spec fn line_passes(x: Result<TtsLine, String>) -> bool {
    &&& x is Ok
    &&& (x->Ok_0.code == 0 || x->Ok_0.code == 20000000)
    &&& (x->Ok_0.code == 0 && x->Ok_0.data is Some) ==> base64_standard_decode(
        encode_utf8(x->Ok_0.data->0@),
    ) is Ok
}

/// The audio a passing line carries: the decoded data of a code-0 line,
/// else nothing.
pub open spec fn line_chunk(x: Result<TtsLine, String>) -> Seq<u8> {
    match x {
        Ok(l) => if l.code == 0 && l.data is Some {
            match base64_standard_decode(encode_utf8(l.data->0@)) {
                Ok(c) => c,
                Err(_) => Seq::empty(),
            }
        } else {
            Seq::empty()
        },
        Err(_) => Seq::empty(),
    }
}

proof fn lemma_passing_rest(before: Seq<Result<TtsLine, String>>)
    requires
        before.len() > 0,
        forall|i: int| 0 <= i < before.len() ==> line_passes(#[trigger] before[i]),
    ensures
        forall|i: int|
            0 <= i < before.drop_first().len() ==> line_passes(#[trigger] before.drop_first()[i]),
{
    assert forall|i: int| 0 <= i < before.drop_first().len() implies line_passes(
        #[trigger] before.drop_first()[i],
    ) by {
        assert(before.drop_first()[i] == before[i + 1]);
    }
}

/// A failing code is reported, whatever came before it: when every earlier
/// line passes, a line whose code is neither 0 nor 20000000 ends the reading
/// with `TtsCode` carrying that line's code and message, however much audio
/// was gathered before it and whatever follows.
pub proof fn lemma_failing_code_is_reported(
    before: Seq<Result<TtsLine, String>>,
    l: TtsLine,
    after: Seq<Result<TtsLine, String>>,
    acc: Seq<u8>,
)
    requires
        forall|i: int| 0 <= i < before.len() ==> line_passes(#[trigger] before[i]),
        l.code != 0,
        l.code != 20000000,
    ensures
        tts_audio_outcome(before + seq![Ok(l)] + after, acc) == Err::<Seq<u8>, ErrorView>(
            ErrorView::TtsCode { code: l.code, message: l.message@ },
        ),
    decreases before.len(),
{
    let lines = before + seq![Ok(l)] + after;
    if before.len() == 0 {
        assert(lines[0] == Ok::<TtsLine, String>(l));
    } else {
        assert(lines[0] == before[0]);
        assert(lines.drop_first() == before.drop_first() + seq![Ok(l)] + after);
        lemma_passing_rest(before);
        assert(line_passes(before[0]));
        let x = before[0]->Ok_0;
        if x.code == 0 && x.data is Some {
            let c = base64_standard_decode(encode_utf8(x.data->0@))->Ok_0;
            lemma_failing_code_is_reported(before.drop_first(), l, after, acc + c);
        } else {
            lemma_failing_code_is_reported(before.drop_first(), l, after, acc);
        }
    }
}

/// A line that did not parse is reported as a JSON error with its text,
/// whatever came before it, when every earlier line passes.
pub proof fn lemma_unparsed_line_is_reported(
    before: Seq<Result<TtsLine, String>>,
    m: String,
    after: Seq<Result<TtsLine, String>>,
    acc: Seq<u8>,
)
    requires
        forall|i: int| 0 <= i < before.len() ==> line_passes(#[trigger] before[i]),
    ensures
        tts_audio_outcome(before + seq![Err(m)] + after, acc) == Err::<Seq<u8>, ErrorView>(
            ErrorView::Json(m@),
        ),
    decreases before.len(),
{
    let lines = before + seq![Err(m)] + after;
    if before.len() == 0 {
        assert(lines[0] == Err::<TtsLine, String>(m));
    } else {
        assert(lines[0] == before[0]);
        assert(lines.drop_first() == before.drop_first() + seq![Err(m)] + after);
        lemma_passing_rest(before);
        assert(line_passes(before[0]));
        let x = before[0]->Ok_0;
        if x.code == 0 && x.data is Some {
            let c = base64_standard_decode(encode_utf8(x.data->0@))->Ok_0;
            lemma_unparsed_line_is_reported(before.drop_first(), m, after, acc + c);
        } else {
            lemma_unparsed_line_is_reported(before.drop_first(), m, after, acc);
        }
    }
}

/// A code-0 line whose data is not base64 is reported as `TtsCode` 0 with
/// the decoder's message after `invalid base64 audio chunk: `, whatever came
/// before it, when every earlier line passes.
pub proof fn lemma_bad_chunk_is_reported(
    before: Seq<Result<TtsLine, String>>,
    l: TtsLine,
    after: Seq<Result<TtsLine, String>>,
    acc: Seq<u8>,
)
    requires
        forall|i: int| 0 <= i < before.len() ==> line_passes(#[trigger] before[i]),
        l.code == 0,
        l.data is Some,
        base64_standard_decode(encode_utf8(l.data->0@)) is Err,
    ensures
        tts_audio_outcome(before + seq![Ok(l)] + after, acc) == Err::<Seq<u8>, ErrorView>(
            ErrorView::TtsCode {
                code: 0,
                message: "invalid base64 audio chunk: "@ + base64_standard_decode(
                    encode_utf8(l.data->0@),
                )->Err_0,
            },
        ),
    decreases before.len(),
{
    let lines = before + seq![Ok(l)] + after;
    if before.len() == 0 {
        assert(lines[0] == Ok::<TtsLine, String>(l));
    } else {
        assert(lines[0] == before[0]);
        assert(lines.drop_first() == before.drop_first() + seq![Ok(l)] + after);
        lemma_passing_rest(before);
        assert(line_passes(before[0]));
        let x = before[0]->Ok_0;
        if x.code == 0 && x.data is Some {
            let c = base64_standard_decode(encode_utf8(x.data->0@))->Ok_0;
            lemma_bad_chunk_is_reported(before.drop_first(), l, after, acc + c);
        } else {
            lemma_bad_chunk_is_reported(before.drop_first(), l, after, acc);
        }
    }
}

/// When every line passes, the audio is what was gathered before followed
/// by the chunks of the lines, in their order, each whole; with no audio at
/// all the reading fails with `EmptyAudio`.
pub proof fn lemma_passing_lines_gather_audio(lines: Seq<Result<TtsLine, String>>, acc: Seq<u8>)
    requires
        forall|i: int| 0 <= i < lines.len() ==> line_passes(#[trigger] lines[i]),
    ensures
        ({
            let audio = acc + lines.map_values(|x: Result<TtsLine, String>| line_chunk(x)).flatten();
            tts_audio_outcome(lines, acc) == if audio.len() == 0 {
                Err::<Seq<u8>, ErrorView>(ErrorView::EmptyAudio)
            } else {
                Ok(audio)
            }
        }),
    decreases lines.len(),
{
    let f = |x: Result<TtsLine, String>| line_chunk(x);
    if lines.len() == 0 {
        assert(lines.map_values(f) == Seq::<Seq<u8>>::empty());
        assert(acc + Seq::<u8>::empty() == acc);
    } else {
        lemma_passing_rest(lines);
        assert(line_passes(lines[0]));
        let c = line_chunk(lines[0]);
        let rest = lines.drop_first();
        assert(lines.map_values(f).first() == c);
        assert(lines.map_values(f).drop_first() == rest.map_values(f));
        lemma_passing_lines_gather_audio(rest, acc + c);
        assert(acc + c + rest.map_values(f).flatten() == acc + (c + rest.map_values(f).flatten()));
    }
}

/// The body that the HTTP server answers a speech request with: the audio
/// in base64 and the reply's content type and log id.
#[derive(Debug, Clone)]
pub struct SpeechPayload {
    pub audio_base64: String,
    pub content_type: Option<String>,
    pub log_id: Option<String>,
}

/// Whether standard base64 of `n` bytes has a length that fits in `usize`.
pub open spec fn base64_fits(n: nat) -> bool {
    (n + 2) / 3 * 4 <= usize::MAX
}

/// Turns synthesized speech into the server's reply body.
pub fn speech_payload(response: TtsResponse) -> (r: SpeechPayload)
    requires
        base64_fits(response.audio@.len()),
    ensures
        r.audio_base64@ == base64_standard_encode(response.audio@),
        r.content_type == response.content_type,
        r.log_id == response.log_id,
{
    SpeechPayload {
        audio_base64: encode_base64_standard(response.audio.as_slice()),
        content_type: response.content_type,
        log_id: response.log_id,
    }
}

} // verus!
