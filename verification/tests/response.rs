use lui::output::Output;
use lui::reader::{OutputIter, OutputReader, TokenIter};
use lui::response::{
    complete_output, decode_payload, delta_output, frame_line, get_complete_output, parse_line,
    Frame, LineEvent, StreamError,
};

fn chunk(text: &str) -> Output {
    Output {
        message: text.to_string(),
        prompt_tokens: None,
        approximate_total: None,
    }
}

fn data_line(text: &str) -> String {
    format!(
        "data: {{\"choices\":[{{\"delta\":{{\"content\":\"{}\"}}}}]}}\n",
        text
    )
}

#[test]
fn frame_line_tells_the_four_kinds_of_line_apart() {
    assert_eq!(frame_line(""), Frame::Blank);
    assert_eq!(frame_line("\n"), Frame::Blank);
    assert_eq!(frame_line("\r\n"), Frame::Blank);
    assert_eq!(frame_line("\n\r\n\r"), Frame::Blank);
    assert_eq!(frame_line("data: [DONE]"), Frame::Done);
    assert_eq!(frame_line("data: [DONE]\r\n"), Frame::Done);
    assert_eq!(frame_line("\ndata: [DONE]\n"), Frame::Done);
    assert_eq!(frame_line("data: {}\n"), Frame::Payload("{}"));
    assert_eq!(frame_line("data: \n"), Frame::Payload(""));
    assert_eq!(frame_line("data:  [DONE]\n"), Frame::Payload(" [DONE]"));
    assert_eq!(frame_line("data: [DONE] \n"), Frame::Payload("[DONE] "));
    assert_eq!(frame_line("data:{}\n"), Frame::Malformed("data:{}"));
    assert_eq!(frame_line(" data: {}\n"), Frame::Malformed(" data: {}"));
    assert_eq!(frame_line("event: ping\r\n"), Frame::Malformed("event: ping"));
    assert_eq!(frame_line(" \n"), Frame::Malformed(" "));
    assert_eq!(frame_line("data:"), Frame::Malformed("data:"));
}

#[test]
fn delta_output_defaults_what_is_missing() {
    assert_eq!(delta_output(None, None, None), chunk(""));
    assert_eq!(delta_output(Some("hi"), None, None), chunk("hi"));
    assert_eq!(
        delta_output(None, Some(3), Some("2s")),
        Output {
            message: "".to_string(),
            prompt_tokens: Some(3),
            approximate_total: Some("2s".to_string()),
        }
    );
    assert_eq!(
        delta_output(Some("x"), None, Some("2s")),
        Output {
            message: "x".to_string(),
            prompt_tokens: None,
            approximate_total: Some("2s".to_string()),
        }
    );
}

#[test]
fn complete_output_requires_all_three_fields() {
    assert_eq!(
        complete_output(Some("hi"), Some(3), Some("2s")),
        Ok(Output {
            message: "hi".to_string(),
            prompt_tokens: Some(3),
            approximate_total: Some("2s".to_string()),
        })
    );
    assert_eq!(
        complete_output(None, Some(3), Some("2s")),
        Err("malformed response".to_string())
    );
    assert_eq!(
        complete_output(Some("hi"), None, Some("2s")),
        Err("usage.prompt_tokens is not integer".to_string())
    );
    assert_eq!(
        complete_output(Some("hi"), Some(3), None),
        Err("malformed response".to_string())
    );
    assert_eq!(
        complete_output(None, None, None),
        Err("malformed response".to_string())
    );
    assert_eq!(
        complete_output(Some("hi"), None, None),
        Err("usage.prompt_tokens is not integer".to_string())
    );
}

#[test]
fn parse_line_reads_a_chunk() {
    assert_eq!(
        parse_line("data: {\"choices\":[{\"delta\":{\"content\":\"lorem\"}}]}\n"),
        LineEvent::Chunk(chunk("lorem"))
    );
    assert_eq!(
        parse_line(
            "data: {\"choices\":[{\"delta\":{\"content\":\" ipsum\"}}],\"usage\":{\"prompt_tokens\":42,\"approximate_total\":\"0h0m3s\"}}\r\n"
        ),
        LineEvent::Chunk(Output {
            message: " ipsum".to_string(),
            prompt_tokens: Some(42),
            approximate_total: Some("0h0m3s".to_string()),
        })
    );
}

#[test]
fn parse_line_follows_the_path_to_the_text() {
    let line = "data: {\"content\":\"top\",\"delta\":{\"content\":\"stray\"},\"choices\":[{\"content\":\"flat\",\"message\":{\"content\":\"whole\"},\"delta\":{\"content\":\"first\",\"role\":\"assistant\"}},{\"delta\":{\"content\":\"second\"}}],\"prompt_tokens\":1,\"usage\":{\"prompt_tokens\":2,\"approximate_total\":\"2s\",\"total_tokens\":3},\"approximate_total\":\"1s\"}";
    assert_eq!(
        parse_line(line),
        LineEvent::Chunk(Output {
            message: "first".to_string(),
            prompt_tokens: Some(2),
            approximate_total: Some("2s".to_string()),
        })
    );
}

#[test]
fn parse_line_is_permissive_about_fields() {
    assert_eq!(parse_line("data: {}"), LineEvent::Chunk(chunk("")));
    assert_eq!(parse_line("data: null"), LineEvent::Chunk(chunk("")));
    assert_eq!(parse_line("data: 17"), LineEvent::Chunk(chunk("")));
    assert_eq!(parse_line("data: [1, 2]"), LineEvent::Chunk(chunk("")));
    assert_eq!(parse_line("data: \"text\""), LineEvent::Chunk(chunk("")));
    assert_eq!(
        parse_line("data: {\"choices\":[]}"),
        LineEvent::Chunk(chunk(""))
    );
    assert_eq!(
        parse_line("data: {\"choices\":{\"delta\":{\"content\":\"x\"}}}"),
        LineEvent::Chunk(chunk(""))
    );
    assert_eq!(
        parse_line("data: {\"choices\":[{\"delta\":{\"content\":7}}]}"),
        LineEvent::Chunk(chunk(""))
    );
    assert_eq!(
        parse_line("data: {\"choices\":[{\"delta\":{\"content\":null}}]}"),
        LineEvent::Chunk(chunk(""))
    );
    assert_eq!(
        parse_line(
            "data: {\"usage\":{\"prompt_tokens\":\"many\",\"approximate_total\":12}}"
        ),
        LineEvent::Chunk(chunk(""))
    );
    assert_eq!(
        parse_line(
            "data: {\"usage\":{\"prompt_tokens\":-4,\"approximate_total\":\"1s\"}}"
        ),
        LineEvent::Chunk(Output {
            message: "".to_string(),
            prompt_tokens: None,
            approximate_total: Some("1s".to_string()),
        })
    );
    assert_eq!(
        parse_line("data: {\"usage\":{\"prompt_tokens\":1.5}}"),
        LineEvent::Chunk(chunk(""))
    );
    assert_eq!(
        parse_line("data: {\"usage\":{\"prompt_tokens\":18446744073709551615}}"),
        LineEvent::Chunk(Output {
            message: "".to_string(),
            prompt_tokens: Some(u64::MAX),
            approximate_total: None,
        })
    );
}

#[test]
fn parse_line_decodes_escapes_in_the_text() {
    assert_eq!(
        parse_line("data: {\"choices\":[{\"delta\":{\"content\":\"a\\n\\\"b\\\" \\u00e9\"}}]}"),
        LineEvent::Chunk(chunk("a\n\"b\" \u{e9}"))
    );
}

#[test]
fn parse_line_skips_blank_lines() {
    assert_eq!(parse_line(""), LineEvent::Skip);
    assert_eq!(parse_line("\n"), LineEvent::Skip);
    assert_eq!(parse_line("\r\n"), LineEvent::Skip);
}

#[test]
fn parse_line_stops_at_the_end_sentinel() {
    assert_eq!(parse_line("data: [DONE]"), LineEvent::End);
    assert_eq!(parse_line("data: [DONE]\n"), LineEvent::End);
    assert_eq!(parse_line("data: [DONE]\r\n"), LineEvent::End);
}

#[test]
fn parse_line_reports_a_line_without_the_prefix() {
    assert_eq!(
        parse_line("{\"choices\":[]}\n"),
        LineEvent::Fatal(StreamError::BadLine("{\"choices\":[]}".to_string()))
    );
    assert_eq!(
        parse_line(": keep-alive\r\n"),
        LineEvent::Fatal(StreamError::BadLine(": keep-alive".to_string()))
    );
}

#[test]
fn parse_line_reports_a_payload_that_is_no_json() {
    assert_eq!(
        parse_line("data: {\"choices\":\n"),
        LineEvent::Fatal(StreamError::BadJson("{\"choices\":".to_string()))
    );
    assert_eq!(
        parse_line("data: [DONE]]\n"),
        LineEvent::Fatal(StreamError::BadJson("[DONE]]".to_string()))
    );
    assert_eq!(
        parse_line("data: \n"),
        LineEvent::Fatal(StreamError::BadJson("".to_string()))
    );
    assert_eq!(
        parse_line("data: {} {}\n"),
        LineEvent::Fatal(StreamError::BadJson("{} {}".to_string()))
    );
}

#[test]
fn decode_payload_reads_what_follows_the_prefix() {
    assert_eq!(
        decode_payload("{\"choices\":[{\"delta\":{\"content\":\"x\"}}]}"),
        LineEvent::Chunk(chunk("x"))
    );
    assert_eq!(
        decode_payload("[DONE]"),
        LineEvent::Fatal(StreamError::BadJson("[DONE]".to_string()))
    );
}

#[test]
fn get_complete_output_reads_the_three_fields() {
    let body = "{\"id\":\"x\",\"choices\":[{\"index\":0,\"delta\":{\"content\":\"no\"},\"message\":{\"role\":\"assistant\",\"content\":\"<think>a</think>\\n\\nlorem\"}},{\"message\":{\"content\":\"other\"}}],\"usage\":{\"prompt_tokens\":11,\"approximate_total\":\"0h0m1s\"}}";
    assert_eq!(
        get_complete_output(body),
        Ok(Output {
            message: "<think>a</think>\n\nlorem".to_string(),
            prompt_tokens: Some(11),
            approximate_total: Some("0h0m1s".to_string()),
        })
    );
}

#[test]
fn get_complete_output_refuses_a_body_without_text() {
    assert_eq!(
        get_complete_output("{\"usage\":{\"prompt_tokens\":1,\"approximate_total\":\"1s\"}}"),
        Err("malformed response".to_string())
    );
    assert_eq!(
        get_complete_output(
            "{\"choices\":[{\"message\":{\"content\":5}}],\"usage\":{\"prompt_tokens\":1,\"approximate_total\":\"1s\"}}"
        ),
        Err("malformed response".to_string())
    );
    assert_eq!(
        get_complete_output(
            "{\"choices\":[{\"delta\":{\"content\":\"x\"}}],\"usage\":{\"prompt_tokens\":1,\"approximate_total\":\"1s\"}}"
        ),
        Err("malformed response".to_string())
    );
}

#[test]
fn get_complete_output_refuses_a_token_count_that_is_no_integer() {
    assert_eq!(
        get_complete_output(
            "{\"choices\":[{\"message\":{\"content\":\"x\"}}],\"usage\":{\"prompt_tokens\":\"1\",\"approximate_total\":\"1s\"}}"
        ),
        Err("usage.prompt_tokens is not integer".to_string())
    );
    assert_eq!(
        get_complete_output("{\"choices\":[{\"message\":{\"content\":\"x\"}}]}"),
        Err("usage.prompt_tokens is not integer".to_string())
    );
}

#[test]
fn get_complete_output_refuses_a_body_without_duration() {
    assert_eq!(
        get_complete_output(
            "{\"choices\":[{\"message\":{\"content\":\"x\"}}],\"usage\":{\"prompt_tokens\":1}}"
        ),
        Err("malformed response".to_string())
    );
}

#[test]
fn get_complete_output_reports_a_body_that_is_no_json() {
    assert_eq!(
        get_complete_output("<html>"),
        Err("json: expected value at line 1 column 1".to_string())
    );
    let outcome = get_complete_output("{\"choices\":[");
    let message = outcome.unwrap_err();
    assert!(message.starts_with("json: "), "{}", message);
    assert!(message.len() > "json: ".len());
}

#[test]
fn output_iter_hands_out_its_chunk_once() {
    let mut iter = OutputIter::new(chunk("only"));
    assert!(!iter.is_finished());
    assert_eq!(iter.next(), Some(chunk("only")));
    assert!(iter.is_finished());
    assert_eq!(iter.next(), None);
    assert_eq!(iter.next(), None);
}

#[test]
fn token_iter_yields_nothing_for_a_bad_first_line() {
    let mut iter = TokenIter::from_lines(vec![
        "event: message\n".to_string(),
        data_line("lorem"),
        "data: [DONE]\n".to_string(),
    ]);
    assert_eq!(iter.error(), None);
    assert_eq!(iter.next(), None);
    assert!(iter.is_finished());
    assert_eq!(
        iter.error(),
        Some(&StreamError::BadLine("event: message".to_string()))
    );
    assert_eq!(iter.next(), None);
    assert_eq!(
        iter.error(),
        Some(&StreamError::BadLine("event: message".to_string()))
    );
}

#[test]
fn token_iter_stops_at_the_end_sentinel() {
    let mut iter = TokenIter::from_lines(vec![
        data_line("lorem"),
        "\n".to_string(),
        data_line(" ipsum"),
        "\n".to_string(),
        "data: [DONE]\n".to_string(),
        "\n".to_string(),
        data_line("never"),
    ]);
    assert_eq!(iter.next(), Some(chunk("lorem")));
    assert!(!iter.is_finished());
    assert_eq!(iter.next(), Some(chunk(" ipsum")));
    assert!(!iter.is_finished());
    assert_eq!(iter.next(), None);
    assert!(iter.is_finished());
    assert_eq!(iter.error(), None);
    assert_eq!(iter.next(), None);
}

#[test]
fn token_iter_keeps_the_chunks_before_a_bad_payload() {
    let mut iter = TokenIter::from_lines(vec![
        data_line("lorem"),
        "data: {oops\n".to_string(),
        data_line("never"),
    ]);
    assert_eq!(iter.next(), Some(chunk("lorem")));
    assert_eq!(iter.next(), None);
    assert!(iter.is_finished());
    assert_eq!(
        iter.error(),
        Some(&StreamError::BadJson("{oops".to_string()))
    );
    assert_eq!(iter.next(), None);
}

#[test]
fn token_iter_ends_where_the_lines_end() {
    let mut iter = TokenIter::from_lines(vec![data_line("lorem"), "\r\n".to_string()]);
    assert_eq!(iter.next(), Some(chunk("lorem")));
    assert_eq!(iter.next(), None);
    assert!(iter.is_finished());
    assert_eq!(iter.error(), None);
    let mut empty = TokenIter::from_lines(vec![]);
    assert_eq!(empty.next(), None);
    assert!(empty.is_finished());
}

#[test]
fn token_iter_waits_for_lines_until_it_is_closed() {
    let mut iter = TokenIter::new();
    assert_eq!(iter.next(), None);
    assert!(!iter.is_finished());
    iter.feed("\n".to_string());
    assert_eq!(iter.next(), None);
    assert!(!iter.is_finished());
    iter.feed(data_line("lorem"));
    iter.feed(data_line(" ipsum"));
    assert_eq!(iter.next(), Some(chunk("lorem")));
    assert_eq!(iter.next(), Some(chunk(" ipsum")));
    assert_eq!(iter.next(), None);
    assert!(!iter.is_finished());
    iter.feed(data_line("!"));
    assert_eq!(iter.next(), Some(chunk("!")));
    iter.close();
    assert!(!iter.is_finished());
    assert_eq!(iter.next(), None);
    assert!(iter.is_finished());
    assert_eq!(iter.error(), None);
    iter.feed(data_line("late"));
    assert_eq!(iter.next(), None);
}

#[test]
fn token_iter_finishes_at_the_sentinel_before_it_is_closed() {
    let mut iter = TokenIter::new();
    iter.feed(data_line("lorem"));
    iter.feed("data: [DONE]\n".to_string());
    assert_eq!(iter.next(), Some(chunk("lorem")));
    assert_eq!(iter.next(), None);
    assert!(iter.is_finished());
    assert_eq!(iter.error(), None);
}

#[test]
fn output_reader_reads_either_kind_of_response() {
    let mut complete = OutputReader::Complete(OutputIter::new(chunk("whole")));
    assert!(!complete.is_finished());
    assert_eq!(complete.next(), Some(chunk("whole")));
    assert!(complete.is_finished());
    assert_eq!(complete.next(), None);

    let mut streamed = OutputReader::Streamed(TokenIter::from_lines(vec![
        data_line("a"),
        data_line("b"),
        "data: [DONE]\n".to_string(),
    ]));
    assert_eq!(streamed.next(), Some(chunk("a")));
    assert_eq!(streamed.next(), Some(chunk("b")));
    assert!(!streamed.is_finished());
    assert_eq!(streamed.next(), None);
    assert!(streamed.is_finished());
}
