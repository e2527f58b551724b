use lui::normalizer::{remove_think_block, Normalizer};
use lui::output::Output;

fn chunk(text: &str) -> Output {
    Output {
        message: text.to_string(),
        prompt_tokens: None,
        approximate_total: None,
    }
}

fn chunk_with_usage(text: &str, tokens: u64, total: &str) -> Output {
    Output {
        message: text.to_string(),
        prompt_tokens: Some(tokens),
        approximate_total: Some(total.to_string()),
    }
}

fn texts(outputs: &[Output]) -> Vec<String> {
    outputs.iter().map(|o| o.message.clone()).collect()
}

fn think_tokens() -> Vec<Output> {
    vec![
        chunk("<think>"),
        chunk("asdf"),
        chunk(" qwerty"),
        chunk("</think>"),
        chunk("\n\n"),
        chunk("lorem"),
        chunk(" ipsum"),
    ]
}

#[test]
fn complete_mode_removes_the_think_block() {
    let mut normalizer = Normalizer::new(false, true);
    let out = normalizer
        .advance(chunk_with_usage(
            "<think>asdf qwerty</think>\n\nlorem ipsum",
            7,
            "1s",
        ))
        .unwrap();
    assert_eq!(out.message, "lorem ipsum\n");
    assert_eq!(out.prompt_tokens, Some(7));
    assert_eq!(out.approximate_total, Some("1s".to_string()));
}

#[test]
fn complete_mode_keeps_the_think_block_on_request() {
    let mut normalizer = Normalizer::new(true, true);
    let out = normalizer
        .advance(chunk_with_usage(
            "<think>asdf qwerty</think>\n\nlorem ipsum",
            7,
            "1s",
        ))
        .unwrap();
    assert_eq!(out.message, "<think>asdf qwerty</think>\n\nlorem ipsum\n");
    assert_eq!(out.prompt_tokens, Some(7));
    assert_eq!(out.approximate_total, Some("1s".to_string()));
}

#[test]
fn complete_mode_normalizes_trailing_whitespace() {
    let mut normalizer = Normalizer::new(false, true);
    let out = normalizer.advance(chunk("lorem ipsum \t\r\n\n  ")).unwrap();
    assert_eq!(out.message, "lorem ipsum\n");
    let out = normalizer.advance(chunk("")).unwrap();
    assert_eq!(out.message, "\n");
    let out = normalizer.advance(chunk("  x")).unwrap();
    assert_eq!(out.message, "  x\n");
}

#[test]
fn streamed_think_block_is_elided() {
    let mut tokens = think_tokens();
    tokens.push(chunk_with_usage("", 12, "3s"));
    let mut normalizer = Normalizer::new(false, false);
    let out = normalizer.advance_all(tokens);
    assert_eq!(texts(&out), vec!["lorem", " ipsum", "\n"]);
    assert_eq!(out[0].prompt_tokens, None);
    assert_eq!(out[1].prompt_tokens, None);
    assert_eq!(out[2].prompt_tokens, Some(12));
    assert_eq!(out[2].approximate_total, Some("3s".to_string()));
}

#[test]
fn streamed_think_block_is_elided_with_usage_on_the_last_token() {
    let mut tokens = think_tokens();
    tokens[6] = chunk_with_usage(" ipsum", 12, "3s");
    let mut normalizer = Normalizer::new(false, false);
    let out = normalizer.advance_all(tokens);
    assert_eq!(texts(&out), vec!["lorem", " ipsum"]);
    assert_eq!(out[1].prompt_tokens, Some(12));
    assert_eq!(out[1].approximate_total, Some("3s".to_string()));
}

#[test]
fn streamed_think_block_is_kept_on_request() {
    let mut tokens = think_tokens();
    tokens[6] = chunk_with_usage(" ipsum", 12, "3s");
    let expected = tokens.clone();
    let mut normalizer = Normalizer::new(true, false);
    let out = normalizer.advance_all(tokens);
    assert_eq!(out, expected);
    assert_eq!(out[6].message, " ipsum");
    assert_eq!(out[6].prompt_tokens, Some(12));
}

#[test]
fn streamed_empty_final_chunk_becomes_a_line_feed_when_kept() {
    let mut tokens = think_tokens();
    tokens.push(chunk_with_usage("", 12, "3s"));
    let mut normalizer = Normalizer::new(true, false);
    let out = normalizer.advance_all(tokens);
    assert_eq!(out.len(), 8);
    assert_eq!(out[0].message, "<think>");
    assert_eq!(out[3].message, "</think>");
    assert_eq!(out[4].message, "\n\n");
    assert_eq!(out[7].message, "\n");
    assert_eq!(out[7].prompt_tokens, Some(12));
    assert_eq!(out[7].approximate_total, Some("3s".to_string()));
}

#[test]
fn advance_steps_through_the_think_block() {
    let mut normalizer = Normalizer::new(false, false);
    assert_eq!(normalizer.advance(chunk("<think>")), None);
    assert_eq!(normalizer.advance(chunk("<think>")), None);
    assert_eq!(normalizer.advance(chunk("deep thought")), None);
    assert_eq!(normalizer.advance(chunk_with_usage("x", 1, "1s")), None);
    assert_eq!(normalizer.advance(chunk("</think>")), None);
    assert_eq!(normalizer.advance(chunk("\n\n")), None);
    assert_eq!(normalizer.advance(chunk("")), None);
    assert_eq!(normalizer.advance(chunk(" \n answer ")), Some(chunk("answer ")));
    assert_eq!(normalizer.advance(chunk(" \n")), Some(chunk(" \n")));
    assert_eq!(normalizer.advance(chunk("</think>")), Some(chunk("</think>")));
    assert_eq!(normalizer.advance(chunk("")), Some(chunk("\n")));
}

#[test]
fn opening_marker_counts_only_as_the_first_chunk() {
    let mut normalizer = Normalizer::new(false, false);
    assert_eq!(normalizer.advance(chunk("  ")), None);
    assert_eq!(normalizer.advance(chunk("<think>")), Some(chunk("<think>")));
    assert_eq!(normalizer.advance(chunk("</think>")), Some(chunk("</think>")));
}

#[test]
fn opening_marker_must_be_the_whole_chunk() {
    let mut normalizer = Normalizer::new(false, false);
    assert_eq!(
        normalizer.advance(chunk("<think>hm")),
        Some(chunk("<think>hm"))
    );
    assert_eq!(normalizer.advance(chunk("</think>")), Some(chunk("</think>")));
}

#[test]
fn blank_first_chunk_with_usage_goes_out_as_a_line_feed() {
    let mut normalizer = Normalizer::new(false, false);
    assert_eq!(
        normalizer.advance(chunk_with_usage(" \n ", 4, "2s")),
        Some(chunk_with_usage("\n", 4, "2s"))
    );
}

#[test]
fn usage_of_the_last_raw_chunk_reaches_the_last_output() {
    for keep in [false, true] {
        for complete in [false, true] {
            let mut normalizer = Normalizer::new(keep, complete);
            let out = normalizer.advance_all(vec![
                chunk_with_usage("a", 1, "1s"),
                chunk("b"),
                chunk_with_usage("", 9, "9s"),
            ]);
            let last = out.last().unwrap();
            assert_eq!(last.prompt_tokens, Some(9));
            assert_eq!(last.approximate_total, Some("9s".to_string()));
        }
    }
}

#[test]
fn usage_inside_the_think_block_is_lost_with_the_block() {
    let mut normalizer = Normalizer::new(false, false);
    let out = normalizer.advance_all(vec![chunk_with_usage("<think>", 1, "1s")]);
    assert_eq!(out, vec![]);
}

#[test]
fn first_visible_chunk_is_trimmed_once_and_for_all() {
    let mut first = Normalizer::new(false, false);
    let once = first.advance(chunk("\n\n  lorem ")).unwrap();
    assert_eq!(once.message, "lorem ");
    let mut second = Normalizer::new(false, false);
    let twice = second.advance(once.clone()).unwrap();
    assert_eq!(twice, once);
}

#[test]
fn remove_think_block_strips_the_block_and_the_line_breaks_after_it() {
    assert_eq!(
        remove_think_block("<think>asdf qwerty</think>\n\nlorem ipsum"),
        "lorem ipsum"
    );
    assert_eq!(
        remove_think_block("<think>a</think>\r\n\r\n  lorem"),
        "  lorem"
    );
    assert_eq!(remove_think_block("<think></think>"), "");
    assert_eq!(
        remove_think_block("<think>a</think>b</think>c"),
        "b</think>c"
    );
}

#[test]
fn remove_think_block_counts_characters_not_bytes() {
    assert_eq!(
        remove_think_block("<think>\u{e9}t\u{e9} \u{1f600}</think>\n\u{e9}cole"),
        "\u{e9}cole"
    );
}

#[test]
fn remove_think_block_leaves_other_text_alone() {
    assert_eq!(remove_think_block("lorem ipsum"), "lorem ipsum");
    assert_eq!(
        remove_think_block(" <think>a</think>b"),
        " <think>a</think>b"
    );
    assert_eq!(remove_think_block("<think>never closed"), "<think>never closed");
    assert_eq!(remove_think_block("a</think>b"), "a</think>b");
    assert_eq!(remove_think_block(""), "");
}
