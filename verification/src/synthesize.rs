//! Answer Synthesizer: assembles the one completion-service prompt out of
//! the ranked matches and the original question.
//!
//! The matches' texts are serialized as a JSON array of strings (with full
//! string escaping), spliced into a fixed prompt frame together with the
//! question, and sent as a single non-streaming generation request. The
//! network call and the response parsing are the caller's; the answer and
//! its reported duration are read out of the parsed response here.

use vstd::prelude::*;
use vstd::string::StringExecFns;
use vstd::std_specs::iter::IteratorSpec;
use crate::ranker::SimilarityMatch;

verus! {

broadcast use vstd::string::axiom_spec_iter, vstd::string::next_postcondition;

/// One generation request: the model to run, the assembled prompt, and the
/// flag that turns streaming off.
#[derive(Debug)]
pub struct OllamaGenerateRequest {
    pub model: String,
    pub prompt: String,
    pub stream: Option<bool>,
}

/// One embedding request in the generation service's shape: the model and
/// the texts to embed.
#[derive(Debug)]
pub struct OllamaEmbeddingRequest {
    pub model: String,
    pub prompt: Vec<String>,
    pub stream: Option<bool>,
}

/// The generation service's answer: the text of the response with its
/// completion flag, context, and timing metadata in nanoseconds.
#[derive(Debug)]
pub struct OllamaGenerateResponse {
    pub model: String,
    pub created_at: String,
    pub response: String,
    pub done: bool,
    pub context: Vec<i32>,
    pub total_duration: u64,
    pub load_duration: u64,
    pub prompt_eval_count: u64,
    pub prompt_eval_duration: u64,
    pub eval_count: u64,
    pub eval_duration: u64,
}

/// The lower-case hexadecimal digit for a value below 16.
pub open spec fn spec_hex_digit(d: int) -> char {
    if d < 10 {
        crate::text::spec_digit(d)
    } else if d == 10 {
        'a'
    } else if d == 11 {
        'b'
    } else if d == 12 {
        'c'
    } else if d == 13 {
        'd'
    } else if d == 14 {
        'e'
    } else {
        'f'
    }
}

/// The JSON escape of one character: the named escapes for quote,
/// backslash, newline, carriage return and tab; `\u00..` for the other
/// control characters; every other character stands for itself.
pub open spec fn spec_escape_char(c: char) -> Seq<char> {
    if c == '"' {
        seq!['\\', '"']
    } else if c == '\\' {
        seq!['\\', '\\']
    } else if c == '\n' {
        seq!['\\', 'n']
    } else if c == '\r' {
        seq!['\\', 'r']
    } else if c == '\t' {
        seq!['\\', 't']
    } else if (c as u32) < 32 {
        seq!['\\', 'u', '0', '0', spec_hex_digit((c as u32) as int / 16), spec_hex_digit((c as u32) as int % 16)]
    } else {
        seq![c]
    }
}

/// The JSON escape of a whole text.
pub open spec fn spec_escaped(s: Seq<char>) -> Seq<char>
    decreases s.len(),
{
    if s.len() == 0 {
        Seq::empty()
    } else {
        spec_escaped(s.drop_last()) + spec_escape_char(s.last())
    }
}

/// A JSON string literal: the escaped text between double quotes.
pub open spec fn spec_json_string(s: Seq<char>) -> Seq<char> {
    seq!['"'] + spec_escaped(s) + seq!['"']
}

/// The comma-joined JSON string literals of the matches' texts.
pub open spec fn spec_json_items(ms: Seq<SimilarityMatch>) -> Seq<char>
    decreases ms.len(),
{
    if ms.len() == 0 {
        Seq::empty()
    } else if ms.len() == 1 {
        spec_json_string(ms[0].data@)
    } else {
        spec_json_items(ms.drop_last()) + seq![','] + spec_json_string(ms.last().data@)
    }
}

/// The matches' texts as one JSON array of strings.
pub open spec fn spec_json_texts(ms: Seq<SimilarityMatch>) -> Seq<char> {
    seq!['['] + spec_json_items(ms) + seq![']']
}

/// The full prompt: the serialized matches and the original question in a
/// fixed frame.
pub open spec fn spec_prompt(ms: Seq<SimilarityMatch>, query: Seq<char>) -> Seq<char> {
    "Using this JSON data: "@ + spec_json_texts(ms) + ". Respond to this prompt: "@ + query
}

fn push_hex_digit(out: &mut String, d: u32)
    requires
        d < 16,
    ensures
        final(out)@ == old(out)@.push(spec_hex_digit(d as int)),
{
    let c: char = if d == 0 {
        '0'
    } else if d == 1 {
        '1'
    } else if d == 2 {
        '2'
    } else if d == 3 {
        '3'
    } else if d == 4 {
        '4'
    } else if d == 5 {
        '5'
    } else if d == 6 {
        '6'
    } else if d == 7 {
        '7'
    } else if d == 8 {
        '8'
    } else if d == 9 {
        '9'
    } else if d == 10 {
        'a'
    } else if d == 11 {
        'b'
    } else if d == 12 {
        'c'
    } else if d == 13 {
        'd'
    } else if d == 14 {
        'e'
    } else {
        'f'
    };
    out.push(c);
}

fn push_escaped_char(out: &mut String, c: char)
    ensures
        final(out)@ == old(out)@ + spec_escape_char(c),
{
    if c == '"' {
        out.push('\\');
        out.push('"');
    } else if c == '\\' {
        out.push('\\');
        out.push('\\');
    } else if c == '\n' {
        out.push('\\');
        out.push('n');
    } else if c == '\r' {
        out.push('\\');
        out.push('r');
    } else if c == '\t' {
        out.push('\\');
        out.push('t');
    } else if (c as u32) < 32 {
        out.push('\\');
        out.push('u');
        out.push('0');
        out.push('0');
        push_hex_digit(out, (c as u32) / 16);
        push_hex_digit(out, (c as u32) % 16);
    } else {
        out.push(c);
    }
    assert(final(out)@ =~= old(out)@ + spec_escape_char(c));
}

fn push_escaped(out: &mut String, s: &str)
    ensures
        final(out)@ == old(out)@ + spec_escaped(s@),
{
    let ghost start = out@;
    let mut it = s.chars();
    let ghost mut processed: Seq<char> = Seq::empty();
    loop
        invariant
            processed + it.remaining() =~= s@,
            out@ == start + spec_escaped(processed),
        ensures
            out@ == start + spec_escaped(s@),
        decreases s@.len() - processed.len(),
    {
        match it.next() {
            Some(c) => {
                push_escaped_char(out, c);
                proof {
                    let prev = processed;
                    processed = processed.push(c);
                    assert(processed.drop_last() =~= prev);
                    assert(processed.last() == c);
                    assert(spec_escaped(processed) == spec_escaped(prev) + spec_escape_char(c));
                }
            },
            None => {
                proof {
                    assert(processed =~= s@);
                }
                break ;
            },
        }
    }
}

fn push_json_string(out: &mut String, s: &str)
    ensures
        final(out)@ == old(out)@ + spec_json_string(s@),
{
    out.push('"');
    push_escaped(out, s);
    out.push('"');
    assert(final(out)@ =~= old(out)@ + spec_json_string(s@));
}

/// Serializes the matches' texts as a JSON array of strings, in ranking
/// order.
pub fn json_texts(ms: &Vec<SimilarityMatch>) -> (r: String)
    ensures
        r@ == spec_json_texts(ms@),
{
    let mut out = String::new();
    out.push('[');
    let n = ms.len();
    let mut i: usize = 0;
    while i < n
        invariant
            i <= n,
            n == ms@.len(),
            out@ == seq!['['] + spec_json_items(ms@.take(i as int)),
        decreases n - i,
    {
        if i > 0 {
            out.push(',');
        }
        push_json_string(&mut out, ms[i].data.as_str());
        i = i + 1;
        proof {
            assert(ms@.take(i as int).drop_last() =~= ms@.take(i - 1));
            assert(ms@.take(i as int).last() == ms@[i - 1]);
            assert(out@ =~= seq!['['] + spec_json_items(ms@.take(i as int)));
        }
    }
    out.push(']');
    proof {
        assert(ms@.take(n as int) =~= ms@);
        assert(out@ =~= spec_json_texts(ms@));
    }
    out
}

/// Builds the one generation request of the query path: the fixed model,
/// streaming off, and the prompt assembled from the ranked matches and the
/// original question.
pub fn synthesize_request(ms: &Vec<SimilarityMatch>, query: &str) -> (r: OllamaGenerateRequest)
    ensures
        r.model@ == "phi3"@,
        r.stream == Some(false),
        r.prompt@ == spec_prompt(ms@, query@),
{
    let mut prompt = String::from_str("Using this JSON data: ");
    let json = json_texts(ms);
    prompt.append(json.as_str());
    prompt.append(". Respond to this prompt: ");
    prompt.append(query);
    OllamaGenerateRequest { model: String::from_str("phi3"), prompt, stream: Some(false) }
}

/// Reads the synthesized answer out of a parsed generation response: the
/// response text and the reported total duration in nanoseconds.
pub fn synthesize_outcome(resp: OllamaGenerateResponse) -> (r: (String, u64))
    ensures
        r.0@ == resp.response@,
        r.1 == resp.total_duration,
{
    (resp.response, resp.total_duration)
}

} // verus!
