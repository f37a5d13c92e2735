use ragu::ranker::SimilarityMatch;
use ragu::synthesize::{json_texts, synthesize_outcome, synthesize_request, OllamaGenerateResponse};

fn m(id: i64, data: &str) -> SimilarityMatch {
    SimilarityMatch {
        id,
        data: String::from(data),
        score: 0,
    }
}

#[test]
fn json_texts_of_no_matches_is_the_empty_array() {
    assert_eq!(json_texts(&vec![]), "[]");
}

#[test]
fn json_texts_of_one_match() {
    assert_eq!(json_texts(&vec![m(1, "Alice, 30")]), "[\"Alice, 30\"]");
}

#[test]
fn json_texts_joins_with_commas_in_order() {
    let ms = vec![m(1, "a"), m(2, "b"), m(3, "c")];
    assert_eq!(json_texts(&ms), "[\"a\",\"b\",\"c\"]");
}

#[test]
fn json_texts_escapes_special_characters() {
    let ms = vec![m(1, "say \"hi\"\\\n\r\t")];
    assert_eq!(json_texts(&ms), "[\"say \\\"hi\\\"\\\\\\n\\r\\t\"]");
}

#[test]
fn json_texts_escapes_control_characters_as_hex() {
    let ms = vec![m(1, "\u{01}\u{1f}")];
    assert_eq!(json_texts(&ms), "[\"\\u0001\\u001f\"]");
}

#[test]
fn json_texts_passes_other_unicode_through() {
    let ms = vec![m(1, "café ❤")];
    assert_eq!(json_texts(&ms), "[\"café ❤\"]");
}

#[test]
fn synthesize_request_assembles_the_prompt() {
    let ms = vec![m(1, "Alice, 30")];
    let req = synthesize_request(&ms, "who is alice?");
    assert_eq!(req.model, "phi3");
    assert_eq!(req.stream, Some(false));
    assert_eq!(
        req.prompt,
        "Using this JSON data: [\"Alice, 30\"]. Respond to this prompt: who is alice?"
    );
}

#[test]
fn synthesize_outcome_reads_answer_and_duration() {
    let resp = OllamaGenerateResponse {
        model: String::from("phi3"),
        created_at: String::from("now"),
        response: String::from("Alice is 30."),
        done: true,
        context: vec![],
        total_duration: 4_000_000_000,
        load_duration: 1,
        prompt_eval_count: 2,
        prompt_eval_duration: 3,
        eval_count: 4,
        eval_duration: 5,
    };
    let (answer, duration) = synthesize_outcome(resp);
    assert_eq!(answer, "Alice is 30.");
    assert_eq!(duration, 4_000_000_000);
}
