//! The write side of the wire protocol: one call becomes one request line.
//!
//! A request is a single line of structured text, an object with an `action`
//! tag and a `params` object. String parameters are emitted as quoted,
//! escaped string literals; numeric parameters are carried opaquely as their
//! decimal renderings and emitted verbatim; absent optional parameters are
//! emitted as `null`. The exact character sequence of every line is given by
//! the spec functions here, so a caller knows the full wire image of its
//! request.

use vstd::prelude::*;
use vstd::string::StrSliceExecFns;
use vstd::string::StringExecFns;

verus! {

/// Relies on String::push: appends exactly the given character.
#[verifier::external_body]
fn push_char(out: &mut String, c: char)
    ensures
        final(out)@ == old(out)@ + seq![c],
{
    out.push(c);
}

/// The lower-case hexadecimal digit for a value below sixteen.
pub open spec fn hex_digit(d: u32) -> char {
    if d == 0 {
        '0'
    } else if d == 1 {
        '1'
    } else if d == 2 {
        '2'
    } else if d == 3 {
        '3'
    } else if d == 4 {
        '4'
    } else if d == 5 {
        '5'
    } else if d == 6 {
        '6'
    } else if d == 7 {
        '7'
    } else if d == 8 {
        '8'
    } else if d == 9 {
        '9'
    } else if d == 10 {
        'a'
    } else if d == 11 {
        'b'
    } else if d == 12 {
        'c'
    } else if d == 13 {
        'd'
    } else if d == 14 {
        'e'
    } else {
        'f'
    }
}

fn hex_digit_char(d: u32) -> (c: char)
    requires
        d < 16,
    ensures
        c == hex_digit(d),
{
    if d == 0 {
        '0'
    } else if d == 1 {
        '1'
    } else if d == 2 {
        '2'
    } else if d == 3 {
        '3'
    } else if d == 4 {
        '4'
    } else if d == 5 {
        '5'
    } else if d == 6 {
        '6'
    } else if d == 7 {
        '7'
    } else if d == 8 {
        '8'
    } else if d == 9 {
        '9'
    } else if d == 10 {
        'a'
    } else if d == 11 {
        'b'
    } else if d == 12 {
        'c'
    } else if d == 13 {
        'd'
    } else if d == 14 {
        'e'
    } else {
        'f'
    }
}

/// How one character appears inside a string literal of a request line:
/// quote, backslash and the named control characters take a two-character
/// escape, any other control character a `\u00` escape, and everything else
/// stands for itself.
pub open spec fn escape_char(c: char) -> Seq<char> {
    if c == '"' {
        seq!['\\', '"']
    } else if c == '\\' {
        seq!['\\', '\\']
    } else if c == '\n' {
        seq!['\\', 'n']
    } else if c == '\r' {
        seq!['\\', 'r']
    } else if c == '\t' {
        seq!['\\', 't']
    } else if c as u32 == 8 {
        seq!['\\', 'b']
    } else if c as u32 == 12 {
        seq!['\\', 'f']
    } else if (c as u32) < 32 {
        seq!['\\', 'u', '0', '0', hex_digit((c as u32) / 16), hex_digit((c as u32) % 16)]
    } else {
        seq![c]
    }
}

/// A whole character sequence, escaped.
pub open spec fn escaped(s: Seq<char>) -> Seq<char>
    decreases s.len(),
{
    if s.len() == 0 {
        Seq::empty()
    } else {
        escape_char(s[0]) + escaped(s.drop_first())
    }
}

/// Escaping distributes over concatenation.
pub proof fn lemma_escaped_append(a: Seq<char>, b: Seq<char>)
    ensures
        escaped(a + b) == escaped(a) + escaped(b),
    decreases a.len(),
{
    if a.len() == 0 {
        assert(a + b =~= b);
        assert(escaped(a) + escaped(b) =~= escaped(b));
    } else {
        assert((a + b).drop_first() =~= a.drop_first() + b);
        lemma_escaped_append(a.drop_first(), b);
        assert(escaped(a + b) =~= escaped(a) + escaped(b));
    }
}

proof fn lemma_escaped_snoc(s: Seq<char>, i: int)
    requires
        0 <= i < s.len(),
    ensures
        escaped(s.subrange(0, i + 1)) == escaped(s.subrange(0, i)) + escape_char(s[i]),
{
    assert(s.subrange(0, i + 1) =~= s.subrange(0, i) + seq![s[i]]);
    lemma_escaped_append(s.subrange(0, i), seq![s[i]]);
    assert(seq![s[i]].drop_first() =~= Seq::<char>::empty());
    assert(escaped(Seq::<char>::empty()) =~= Seq::<char>::empty());
    assert(escaped(seq![s[i]]) =~= escape_char(s[i]));
}

fn push_escape_char(out: &mut String, c: char)
    ensures
        final(out)@ == old(out)@ + escape_char(c),
{
    let u: u32 = c as u32;
    if c == '"' {
        push_char(out, '\\');
        push_char(out, '"');
    } else if c == '\\' {
        push_char(out, '\\');
        push_char(out, '\\');
    } else if c == '\n' {
        push_char(out, '\\');
        push_char(out, 'n');
    } else if c == '\r' {
        push_char(out, '\\');
        push_char(out, 'r');
    } else if c == '\t' {
        push_char(out, '\\');
        push_char(out, 't');
    } else if u == 8 {
        push_char(out, '\\');
        push_char(out, 'b');
    } else if u == 12 {
        push_char(out, '\\');
        push_char(out, 'f');
    } else if u < 32 {
        push_char(out, '\\');
        push_char(out, 'u');
        push_char(out, '0');
        push_char(out, '0');
        push_char(out, hex_digit_char(u / 16));
        push_char(out, hex_digit_char(u % 16));
    } else {
        push_char(out, c);
    }
    proof {
        assert(final(out)@ =~= old(out)@ + escape_char(c));
    }
}

fn push_escaped(out: &mut String, s: &str)
    ensures
        final(out)@ == old(out)@ + escaped(s@),
{
    let n: usize = s.unicode_len();
    let mut i: usize = 0;
    while i < n
        invariant
            i <= n,
            n == s@.len(),
            out@ == old(out)@ + escaped(s@.subrange(0, i as int)),
        decreases n - i,
    {
        push_escape_char(out, s.get_char(i));
        proof {
            lemma_escaped_snoc(s@, i as int);
        }
        i = i + 1;
    }
    proof {
        assert(s@.subrange(0, n as int) =~= s@);
    }
}

/// A string parameter on the wire: quote, escaped contents, quote.
pub open spec fn quoted(s: Seq<char>) -> Seq<char> {
    seq!['"'] + escaped(s) + seq!['"']
}

fn push_quoted(out: &mut String, s: &str)
    ensures
        final(out)@ == old(out)@ + quoted(s@),
{
    push_char(out, '"');
    push_escaped(out, s);
    push_char(out, '"');
    proof {
        assert(final(out)@ =~= old(out)@ + quoted(s@));
    }
}

/// The wire image of an absent optional parameter.
pub open spec fn null_chars() -> Seq<char> {
    seq!['n', 'u', 'l', 'l']
}

/// An optional string parameter on the wire: the quoted string, or `null`.
pub open spec fn quoted_opt(o: Option<String>) -> Seq<char> {
    match o {
        Option::Some(s) => quoted(s@),
        Option::None => null_chars(),
    }
}

/// An optional raw (numeric) parameter on the wire: its rendering verbatim,
/// or `null`.
pub open spec fn raw_opt(o: Option<String>) -> Seq<char> {
    match o {
        Option::Some(s) => s@,
        Option::None => null_chars(),
    }
}

fn push_null(out: &mut String)
    ensures
        final(out)@ == old(out)@ + null_chars(),
{
    push_char(out, 'n');
    push_char(out, 'u');
    push_char(out, 'l');
    push_char(out, 'l');
    proof {
        assert(final(out)@ =~= old(out)@ + null_chars());
    }
}

fn push_quoted_opt(out: &mut String, o: &Option<String>)
    ensures
        final(out)@ == old(out)@ + quoted_opt(*o),
{
    match o {
        Option::Some(s) => push_quoted(out, s.as_str()),
        Option::None => push_null(out),
    }
}

fn push_raw_opt(out: &mut String, o: &Option<String>)
    ensures
        final(out)@ == old(out)@ + raw_opt(*o),
{
    match o {
        Option::Some(s) => out.append(s.as_str()),
        Option::None => push_null(out),
    }
}

/// A boolean parameter on the wire.
pub open spec fn bool_chars(b: bool) -> Seq<char> {
    if b {
        seq!['t', 'r', 'u', 'e']
    } else {
        seq!['f', 'a', 'l', 's', 'e']
    }
}

fn push_bool(out: &mut String, b: bool)
    ensures
        final(out)@ == old(out)@ + bool_chars(b),
{
    if b {
        push_char(out, 't');
        push_char(out, 'r');
        push_char(out, 'u');
        push_char(out, 'e');
    } else {
        push_char(out, 'f');
        push_char(out, 'a');
        push_char(out, 'l');
        push_char(out, 's');
        push_char(out, 'e');
    }
    proof {
        assert(final(out)@ =~= old(out)@ + bool_chars(b));
    }
}

/// The decimal digit for a value below ten.
pub open spec fn dec_digit(d: nat) -> char {
    if d == 0 {
        '0'
    } else if d == 1 {
        '1'
    } else if d == 2 {
        '2'
    } else if d == 3 {
        '3'
    } else if d == 4 {
        '4'
    } else if d == 5 {
        '5'
    } else if d == 6 {
        '6'
    } else if d == 7 {
        '7'
    } else if d == 8 {
        '8'
    } else {
        '9'
    }
}

/// The decimal rendering of a natural number, most significant digit first,
/// without leading zeros (zero itself is one digit).
pub open spec fn dec_chars(n: nat) -> Seq<char>
    decreases n,
{
    if n < 10 {
        seq![dec_digit(n)]
    } else {
        dec_chars(n / 10) + seq![dec_digit(n % 10)]
    }
}

fn dec_digit_char(d: u32) -> (c: char)
    requires
        d < 10,
    ensures
        c == dec_digit(d as nat),
{
    if d == 0 {
        '0'
    } else if d == 1 {
        '1'
    } else if d == 2 {
        '2'
    } else if d == 3 {
        '3'
    } else if d == 4 {
        '4'
    } else if d == 5 {
        '5'
    } else if d == 6 {
        '6'
    } else if d == 7 {
        '7'
    } else if d == 8 {
        '8'
    } else {
        '9'
    }
}

fn push_u32_dec(out: &mut String, n: u32)
    ensures
        final(out)@ == old(out)@ + dec_chars(n as nat),
    decreases n,
{
    if n < 10 {
        push_char(out, dec_digit_char(n));
    } else {
        push_u32_dec(out, n / 10);
        push_char(out, dec_digit_char(n % 10));
        proof {
            assert(final(out)@ =~= old(out)@ + dec_chars(n as nat));
        }
    }
}

/// The decimal rendering of an integer: a leading minus sign for a negative
/// value, then the digits of its magnitude.
pub open spec fn int_chars(n: int) -> Seq<char> {
    if n < 0 {
        seq!['-'] + dec_chars((-n) as nat)
    } else {
        dec_chars(n as nat)
    }
}

pub(crate) fn push_i32_dec(out: &mut String, n: i32)
    ensures
        final(out)@ == old(out)@ + int_chars(n as int),
{
    if n >= 0 {
        push_u32_dec(out, n as u32);
    } else {
        push_char(out, '-');
        let wide: i64 = n as i64;
        let mag: u32 = (-wide) as u32;
        proof {
            assert(mag as nat == -(n as int));
        }
        push_u32_dec(out, mag);
        proof {
            assert(final(out)@ =~= old(out)@ + int_chars(n as int));
        }
    }
}

/// One synthesis job as this engine carries it: the text, the reference
/// voice, the language tag, the generation parameters, and the output
/// routing. Numeric generation parameters are caller-validated and passed
/// through opaquely, so they are held as their decimal renderings and
/// emitted verbatim on the wire; the caller guarantees the renderings hold
/// no newline.
#[derive(Debug, PartialEq, Eq)]
pub struct SynthesisRequest {
    pub text: String,
    pub speaker_wav: String,
    pub language: String,
    pub speed: String,
    pub temperature: String,
    pub top_k: u32,
    pub top_p: String,
    pub repetition_penalty: String,
    pub export_srt: bool,
    pub custom_output_path: Option<String>,
    pub output_filename: Option<String>,
    pub device: Option<String>,
    pub pause_sentence: Option<String>,
    pub pause_paragraph: Option<String>,
}

/// One logical call against the worker. `Stop` has no wire form: it is a
/// process-level kill, never written to the worker's input.
#[derive(Debug, PartialEq, Eq)]
pub enum SidecarCall {
    Synthesize(SynthesisRequest),
    Warmup(Option<String>),
    Stop,
}

/// The exact request line of a synthesis call.
pub open spec fn synthesize_line(req: SynthesisRequest) -> Seq<char> {
    "{\"action\":\"synthesize\",\"params\":{\"text\":"@ + quoted(req.text@)
        + ",\"speaker_wav\":"@ + quoted(req.speaker_wav@) + ",\"language\":"@ + quoted(
        req.language@,
    ) + ",\"speed\":"@ + req.speed@ + ",\"temperature\":"@ + req.temperature@ + ",\"top_k\":"@
        + dec_chars(req.top_k as nat) + ",\"top_p\":"@ + req.top_p@
        + ",\"repetition_penalty\":"@ + req.repetition_penalty@ + ",\"export_srt\":"@
        + bool_chars(req.export_srt) + ",\"custom_output_path\":"@ + quoted_opt(
        req.custom_output_path,
    ) + ",\"output_filename\":"@ + quoted_opt(req.output_filename) + ",\"device\":"@
        + quoted_opt(req.device) + ",\"pause_sentence\":"@ + raw_opt(req.pause_sentence)
        + ",\"pause_paragraph\":"@ + raw_opt(req.pause_paragraph) + "}}"@
}

/// The exact request line of a warmup call: a fixed parameter set, with the
/// compute-device hint defaulting to automatic selection.
pub open spec fn warmup_line(device: Option<String>) -> Seq<char> {
    "{\"action\":\"warmup\",\"params\":{\"warmup_only\":true,\"preload_all_tts\":false,\"device\":"@
        + quoted(
        match device {
            Option::Some(d) => d@,
            Option::None => "auto"@,
        },
    ) + ",\"export_srt\":false}}"@
}

/// Encodes a synthesis call as its one request line.
pub fn encode_synthesize(req: &SynthesisRequest) -> (r: String)
    ensures
        r@ == synthesize_line(*req),
{
    let mut out = String::new();
    out.append("{\"action\":\"synthesize\",\"params\":{\"text\":");
    push_quoted(&mut out, req.text.as_str());
    out.append(",\"speaker_wav\":");
    push_quoted(&mut out, req.speaker_wav.as_str());
    out.append(",\"language\":");
    push_quoted(&mut out, req.language.as_str());
    out.append(",\"speed\":");
    out.append(req.speed.as_str());
    out.append(",\"temperature\":");
    out.append(req.temperature.as_str());
    out.append(",\"top_k\":");
    push_u32_dec(&mut out, req.top_k);
    out.append(",\"top_p\":");
    out.append(req.top_p.as_str());
    out.append(",\"repetition_penalty\":");
    out.append(req.repetition_penalty.as_str());
    out.append(",\"export_srt\":");
    push_bool(&mut out, req.export_srt);
    out.append(",\"custom_output_path\":");
    push_quoted_opt(&mut out, &req.custom_output_path);
    out.append(",\"output_filename\":");
    push_quoted_opt(&mut out, &req.output_filename);
    out.append(",\"device\":");
    push_quoted_opt(&mut out, &req.device);
    out.append(",\"pause_sentence\":");
    push_raw_opt(&mut out, &req.pause_sentence);
    out.append(",\"pause_paragraph\":");
    push_raw_opt(&mut out, &req.pause_paragraph);
    out.append("}}");
    proof {
        assert(out@ =~= synthesize_line(*req));
    }
    out
}

/// Encodes a warmup call as its one request line.
pub fn encode_warmup(device: &Option<String>) -> (r: String)
    ensures
        r@ == warmup_line(*device),
{
    let mut out = String::new();
    out.append(
        "{\"action\":\"warmup\",\"params\":{\"warmup_only\":true,\"preload_all_tts\":false,\"device\":",
    );
    match device {
        Option::Some(d) => push_quoted(&mut out, d.as_str()),
        Option::None => push_quoted(&mut out, "auto"),
    }
    out.append(",\"export_srt\":false}}");
    proof {
        assert(out@ =~= warmup_line(*device));
    }
    out
}

/// Whether a character sequence is free of newlines, so that it can stand as
/// one line on the wire.
pub open spec fn line_free(s: Seq<char>) -> bool {
    forall|i: int| 0 <= i < s.len() ==> s[i] != '\n'
}

/// Freedom from newlines splits over concatenation.
pub proof fn lemma_line_free_append(a: Seq<char>, b: Seq<char>)
    ensures
        line_free(a + b) == (line_free(a) && line_free(b)),
{
    if line_free(a) && line_free(b) {
        assert forall|i: int| 0 <= i < (a + b).len() implies (a + b)[i] != '\n' by {
            if i < a.len() {
                assert((a + b)[i] == a[i]);
            } else {
                assert((a + b)[i] == b[i - a.len()]);
            }
        }
    }
    if line_free(a + b) {
        assert forall|i: int| 0 <= i < a.len() implies a[i] != '\n' by {
            assert((a + b)[i] == a[i]);
        }
        assert forall|i: int| 0 <= i < b.len() implies b[i] != '\n' by {
            assert((a + b)[i + a.len()] == b[i]);
        }
    }
}

proof fn lemma_escape_char_line_free(c: char)
    ensures
        line_free(escape_char(c)),
{
    if (c as u32) < 32 {
        assert(hex_digit((c as u32) / 16) != '\n');
        assert(hex_digit((c as u32) % 16) != '\n');
    }
}

proof fn lemma_escaped_line_free(s: Seq<char>)
    ensures
        line_free(escaped(s)),
    decreases s.len(),
{
    if s.len() == 0 {
    } else {
        lemma_escape_char_line_free(s[0]);
        lemma_escaped_line_free(s.drop_first());
        lemma_line_free_append(escape_char(s[0]), escaped(s.drop_first()));
    }
}

proof fn lemma_quoted_line_free(s: Seq<char>)
    ensures
        line_free(quoted(s)),
{
    lemma_escaped_line_free(s);
    lemma_line_free_append(seq!['"'], escaped(s));
    lemma_line_free_append(seq!['"'] + escaped(s), seq!['"']);
}

proof fn lemma_null_line_free()
    ensures
        line_free(null_chars()),
{
}

proof fn lemma_bool_line_free(b: bool)
    ensures
        line_free(bool_chars(b)),
{
}

proof fn lemma_dec_chars_line_free(n: nat)
    ensures
        line_free(dec_chars(n)),
    decreases n,
{
    if n < 10 {
        assert(dec_digit(n) != '\n');
    } else {
        lemma_dec_chars_line_free(n / 10);
        assert(dec_digit(n % 10) != '\n');
        lemma_line_free_append(dec_chars(n / 10), seq![dec_digit(n % 10)]);
    }
}

proof fn lemma_quoted_opt_line_free(o: Option<String>)
    ensures
        line_free(quoted_opt(o)),
{
    match o {
        Option::Some(s) => lemma_quoted_line_free(s@),
        Option::None => lemma_null_line_free(),
    }
}

/// A synthesis request line is a single line: whatever the string parameters
/// hold, their escaped forms carry no newline, and as long as the raw
/// numeric renderings carry none either, neither does the whole line.
pub proof fn lemma_synthesize_line_free(req: SynthesisRequest)
    requires
        line_free(req.speed@),
        line_free(req.temperature@),
        line_free(req.top_p@),
        line_free(req.repetition_penalty@),
        req.pause_sentence matches Option::Some(s) ==> line_free(s@),
        req.pause_paragraph matches Option::Some(s) ==> line_free(s@),
    ensures
        line_free(synthesize_line(req)),
{
    assert(line_free("{\"action\":\"synthesize\",\"params\":{\"text\":"@)) by {
        reveal_strlit("{\"action\":\"synthesize\",\"params\":{\"text\":");
    }
    assert(line_free(",\"speaker_wav\":"@)) by {
        reveal_strlit(",\"speaker_wav\":");
    }
    assert(line_free(",\"language\":"@)) by {
        reveal_strlit(",\"language\":");
    }
    assert(line_free(",\"speed\":"@)) by {
        reveal_strlit(",\"speed\":");
    }
    assert(line_free(",\"temperature\":"@)) by {
        reveal_strlit(",\"temperature\":");
    }
    assert(line_free(",\"top_k\":"@)) by {
        reveal_strlit(",\"top_k\":");
    }
    assert(line_free(",\"top_p\":"@)) by {
        reveal_strlit(",\"top_p\":");
    }
    assert(line_free(",\"repetition_penalty\":"@)) by {
        reveal_strlit(",\"repetition_penalty\":");
    }
    assert(line_free(",\"export_srt\":"@)) by {
        reveal_strlit(",\"export_srt\":");
    }
    assert(line_free(",\"custom_output_path\":"@)) by {
        reveal_strlit(",\"custom_output_path\":");
    }
    assert(line_free(",\"output_filename\":"@)) by {
        reveal_strlit(",\"output_filename\":");
    }
    assert(line_free(",\"device\":"@)) by {
        reveal_strlit(",\"device\":");
    }
    assert(line_free(",\"pause_sentence\":"@)) by {
        reveal_strlit(",\"pause_sentence\":");
    }
    assert(line_free(",\"pause_paragraph\":"@)) by {
        reveal_strlit(",\"pause_paragraph\":");
    }
    assert(line_free("}}"@)) by {
        reveal_strlit("}}");
    }
    lemma_quoted_line_free(req.text@);
    lemma_quoted_line_free(req.speaker_wav@);
    lemma_quoted_line_free(req.language@);
    lemma_dec_chars_line_free(req.top_k as nat);
    lemma_bool_line_free(req.export_srt);
    lemma_quoted_opt_line_free(req.custom_output_path);
    lemma_quoted_opt_line_free(req.output_filename);
    lemma_quoted_opt_line_free(req.device);
    match req.pause_sentence {
        Option::Some(_) => {},
        Option::None => lemma_null_line_free(),
    }
    match req.pause_paragraph {
        Option::Some(_) => {},
        Option::None => lemma_null_line_free(),
    }
    lemma_line_free_concat_all(req);
}

proof fn lemma_line_free_concat_all(req: SynthesisRequest)
    requires
        line_free("{\"action\":\"synthesize\",\"params\":{\"text\":"@),
        line_free(",\"speaker_wav\":"@),
        line_free(",\"language\":"@),
        line_free(",\"speed\":"@),
        line_free(",\"temperature\":"@),
        line_free(",\"top_k\":"@),
        line_free(",\"top_p\":"@),
        line_free(",\"repetition_penalty\":"@),
        line_free(",\"export_srt\":"@),
        line_free(",\"custom_output_path\":"@),
        line_free(",\"output_filename\":"@),
        line_free(",\"device\":"@),
        line_free(",\"pause_sentence\":"@),
        line_free(",\"pause_paragraph\":"@),
        line_free("}}"@),
        line_free(quoted(req.text@)),
        line_free(quoted(req.speaker_wav@)),
        line_free(quoted(req.language@)),
        line_free(req.speed@),
        line_free(req.temperature@),
        line_free(dec_chars(req.top_k as nat)),
        line_free(req.top_p@),
        line_free(req.repetition_penalty@),
        line_free(bool_chars(req.export_srt)),
        line_free(quoted_opt(req.custom_output_path)),
        line_free(quoted_opt(req.output_filename)),
        line_free(quoted_opt(req.device)),
        line_free(raw_opt(req.pause_sentence)),
        line_free(raw_opt(req.pause_paragraph)),
    ensures
        line_free(synthesize_line(req)),
{
    let a1 = "{\"action\":\"synthesize\",\"params\":{\"text\":"@ + quoted(req.text@);
    lemma_line_free_append("{\"action\":\"synthesize\",\"params\":{\"text\":"@, quoted(req.text@));
    let a2 = a1 + ",\"speaker_wav\":"@;
    lemma_line_free_append(a1, ",\"speaker_wav\":"@);
    let a3 = a2 + quoted(req.speaker_wav@);
    lemma_line_free_append(a2, quoted(req.speaker_wav@));
    let a4 = a3 + ",\"language\":"@;
    lemma_line_free_append(a3, ",\"language\":"@);
    let a5 = a4 + quoted(req.language@);
    lemma_line_free_append(a4, quoted(req.language@));
    let a6 = a5 + ",\"speed\":"@;
    lemma_line_free_append(a5, ",\"speed\":"@);
    let a7 = a6 + req.speed@;
    lemma_line_free_append(a6, req.speed@);
    let a8 = a7 + ",\"temperature\":"@;
    lemma_line_free_append(a7, ",\"temperature\":"@);
    let a9 = a8 + req.temperature@;
    lemma_line_free_append(a8, req.temperature@);
    let a10 = a9 + ",\"top_k\":"@;
    lemma_line_free_append(a9, ",\"top_k\":"@);
    let a11 = a10 + dec_chars(req.top_k as nat);
    lemma_line_free_append(a10, dec_chars(req.top_k as nat));
    let a12 = a11 + ",\"top_p\":"@;
    lemma_line_free_append(a11, ",\"top_p\":"@);
    let a13 = a12 + req.top_p@;
    lemma_line_free_append(a12, req.top_p@);
    let a14 = a13 + ",\"repetition_penalty\":"@;
    lemma_line_free_append(a13, ",\"repetition_penalty\":"@);
    let a15 = a14 + req.repetition_penalty@;
    lemma_line_free_append(a14, req.repetition_penalty@);
    let a16 = a15 + ",\"export_srt\":"@;
    lemma_line_free_append(a15, ",\"export_srt\":"@);
    let a17 = a16 + bool_chars(req.export_srt);
    lemma_line_free_append(a16, bool_chars(req.export_srt));
    let a18 = a17 + ",\"custom_output_path\":"@;
    lemma_line_free_append(a17, ",\"custom_output_path\":"@);
    let a19 = a18 + quoted_opt(req.custom_output_path);
    lemma_line_free_append(a18, quoted_opt(req.custom_output_path));
    let a20 = a19 + ",\"output_filename\":"@;
    lemma_line_free_append(a19, ",\"output_filename\":"@);
    let a21 = a20 + quoted_opt(req.output_filename);
    lemma_line_free_append(a20, quoted_opt(req.output_filename));
    let a22 = a21 + ",\"device\":"@;
    lemma_line_free_append(a21, ",\"device\":"@);
    let a23 = a22 + quoted_opt(req.device);
    lemma_line_free_append(a22, quoted_opt(req.device));
    let a24 = a23 + ",\"pause_sentence\":"@;
    lemma_line_free_append(a23, ",\"pause_sentence\":"@);
    let a25 = a24 + raw_opt(req.pause_sentence);
    lemma_line_free_append(a24, raw_opt(req.pause_sentence));
    let a26 = a25 + ",\"pause_paragraph\":"@;
    lemma_line_free_append(a25, ",\"pause_paragraph\":"@);
    let a27 = a26 + raw_opt(req.pause_paragraph);
    lemma_line_free_append(a26, raw_opt(req.pause_paragraph));
    lemma_line_free_append(a27, "}}"@);
    assert(synthesize_line(req) == a27 + "}}"@);
}

/// A warmup request line is a single line, whatever the device hint holds.
pub proof fn lemma_warmup_line_free(device: Option<String>)
    ensures
        line_free(warmup_line(device)),
{
    assert(line_free("{\"action\":\"warmup\",\"params\":{\"warmup_only\":true,\"preload_all_tts\":false,\"device\":"@)) by {
        reveal_strlit("{\"action\":\"warmup\",\"params\":{\"warmup_only\":true,\"preload_all_tts\":false,\"device\":");
    }
    assert(line_free(",\"export_srt\":false}}"@)) by {
        reveal_strlit(",\"export_srt\":false}}");
    }
    let d = match device {
        Option::Some(d) => d@,
        Option::None => "auto"@,
    };
    lemma_quoted_line_free(d);
    lemma_line_free_append(
        "{\"action\":\"warmup\",\"params\":{\"warmup_only\":true,\"preload_all_tts\":false,\"device\":"@,
        quoted(d),
    );
    lemma_line_free_append(
        "{\"action\":\"warmup\",\"params\":{\"warmup_only\":true,\"preload_all_tts\":false,\"device\":"@
            + quoted(d),
        ",\"export_srt\":false}}"@,
    );
}

/// Encodes one logical call: the request line of a synthesis or warmup
/// call, and nothing for a stop, which has no wire form.
pub fn encode_call(call: &SidecarCall) -> (r: Option<String>)
    ensures
        call matches SidecarCall::Synthesize(req) ==> (r matches Option::Some(l) && l@
            == synthesize_line(*req)),
        call matches SidecarCall::Warmup(d) ==> (r matches Option::Some(l) && l@ == warmup_line(
            *d,
        )),
        call matches SidecarCall::Stop ==> r is None,
{
    match call {
        SidecarCall::Synthesize(req) => Some(encode_synthesize(req)),
        SidecarCall::Warmup(d) => Some(encode_warmup(d)),
        SidecarCall::Stop => None,
    }
}

/// Frames one request line for delivery: the line, newline-terminated.
pub fn framed(line: &str) -> (r: String)
    ensures
        r@ == line@ + seq!['\n'],
{
    let mut out = String::from_str(line);
    push_char(&mut out, '\n');
    out
}

} // verus!
