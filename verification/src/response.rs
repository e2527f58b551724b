//! Decoding of what the server answers: the one JSON body of a complete
//! response, and the `data: ` lines of a streamed one.

use serde_json::Value;
use vstd::prelude::*;
use vstd::string::StringExecFns;
use crate::json::{
    element, error_text, json_document, json_element, json_error_text, json_member, json_text,
    json_unsigned, member, parse_value, str_view, text_of, unsigned_of,
};
use crate::output::{Output, OutputView};
use crate::text::{same_text, strip_prefix, trim, trimmed, CharClass};

verus! {

/// Why a streamed response was cut short.
#[derive(Debug, Clone, PartialEq, Eq)]
pub enum StreamError {
    /// A line that does not begin with `data: `; holds the line.
    BadLine(String),
    /// A payload that is no JSON; holds the payload.
    BadJson(String),
}

/// The mathematical value of a [`StreamError`].
pub enum StreamErrorView {
    BadLine(Seq<char>),
    BadJson(Seq<char>),
}

impl View for StreamError {
    type V = StreamErrorView;

    open spec fn view(&self) -> StreamErrorView {
        match self {
            StreamError::BadLine(line) => StreamErrorView::BadLine(line@),
            StreamError::BadJson(payload) => StreamErrorView::BadJson(payload@),
        }
    }
}

/// The value of an optional error.
pub open spec fn error_view(error: Option<StreamError>) -> Option<StreamErrorView> {
    match error {
        Some(e) => Some(e@),
        None => None,
    }
}

/// What one line of a streamed response amounts to.
#[derive(Debug, Clone, PartialEq, Eq)]
pub enum LineEvent {
    /// A blank line: nothing happens.
    Skip,
    /// The end sentinel: the response is over.
    End,
    /// A line that cannot be read: the response is cut short.
    Fatal(StreamError),
    /// A chunk of the answer.
    Chunk(Output),
}

/// The mathematical value of a [`LineEvent`].
pub enum LineEventView {
    Skip,
    End,
    Fatal(StreamErrorView),
    Chunk(OutputView),
}

impl View for LineEvent {
    type V = LineEventView;

    open spec fn view(&self) -> LineEventView {
        match self {
            LineEvent::Skip => LineEventView::Skip,
            LineEvent::End => LineEventView::End,
            LineEvent::Fatal(e) => LineEventView::Fatal(e@),
            LineEvent::Chunk(o) => LineEventView::Chunk(o@),
        }
    }
}

/// What the frame of a line says, before its payload is read.
#[derive(Debug, Clone, Copy, PartialEq, Eq)]
pub enum Frame<'a> {
    /// A blank line.
    Blank,
    /// A line without the `data: ` prefix; holds the line without its line
    /// breaks.
    Malformed(&'a str),
    /// The end sentinel.
    Done,
    /// A line that carries a payload; holds the payload.
    Payload(&'a str),
}

/// The mathematical value of a [`Frame`].
pub enum FrameView {
    Blank,
    Malformed(Seq<char>),
    Done,
    Payload(Seq<char>),
}

impl<'a> View for Frame<'a> {
    type V = FrameView;

    open spec fn view(&self) -> FrameView {
        match self {
            Frame::Blank => FrameView::Blank,
            Frame::Malformed(line) => FrameView::Malformed(line@),
            Frame::Done => FrameView::Done,
            Frame::Payload(payload) => FrameView::Payload(payload@),
        }
    }
}

/// The prefix of every line that carries data.
pub open spec fn data_prefix() -> Seq<char> {
    "data: "@
}

/// The payload that ends a streamed response.
pub open spec fn done_payload() -> Seq<char> {
    "[DONE]"@
}

/// The frame of `line`: its line breaks are set aside; what is left is
/// blank, or lacks the prefix, or carries the end sentinel or a payload.
pub open spec fn frame_of(line: Seq<char>) -> FrameView {
    let body = trimmed(line, CharClass::LineBreak);
    if body.len() == 0 {
        FrameView::Blank
    } else if !data_prefix().is_prefix_of(body) {
        FrameView::Malformed(body)
    } else if body.skip(data_prefix().len() as int) == done_payload() {
        FrameView::Done
    } else {
        FrameView::Payload(body.skip(data_prefix().len() as int))
    }
}

/// Reads the frame of one line of a streamed response.
pub fn frame_line(line: &str) -> (frame: Frame<'_>)
    ensures
        frame@ == frame_of(line@),
{
    let body = trim(line, CharClass::LineBreak);
    if body.is_empty() {
        return Frame::Blank;
    }
    match strip_prefix(body, "data: ") {
        None => Frame::Malformed(body),
        Some(payload) => {
            if same_text(payload, "[DONE]") {
                Frame::Done
            } else {
                Frame::Payload(payload)
            }
        },
    }
}

/// The chunk that a payload of a streamed response stands for, given the
/// three fields that were found in it: a missing text is the empty text,
/// and a missing usage figure is no usage figure.
pub open spec fn delta_chunk(
    content: Option<Seq<char>>,
    prompt_tokens: Option<u64>,
    approximate_total: Option<Seq<char>>,
) -> OutputView {
    OutputView {
        message: match content {
            Some(text) => text,
            None => Seq::empty(),
        },
        prompt_tokens,
        approximate_total,
    }
}

/// Builds the chunk of a streamed response from the fields of its payload.
pub fn delta_output(
    content: Option<&str>,
    prompt_tokens: Option<u64>,
    approximate_total: Option<&str>,
) -> (output: Output)
    ensures
        output@ == delta_chunk(str_view(content), prompt_tokens, str_view(approximate_total)),
{
    Output {
        message: match content {
            Some(text) => text.to_owned(),
            None => String::new(),
        },
        prompt_tokens,
        approximate_total: match approximate_total {
            Some(text) => Some(text.to_owned()),
            None => None,
        },
    }
}

/// The text at `choices[0].delta.content` of `doc`, where there is one.
pub open spec fn delta_content(doc: Value) -> Option<Seq<char>> {
    json_text(
        json_member(
            json_member(json_element(json_member(doc, "choices"@), 0), "delta"@),
            "content"@,
        ),
    )
}

/// The text at `choices[0].message.content` of `doc`, where there is one.
pub open spec fn message_content(doc: Value) -> Option<Seq<char>> {
    json_text(
        json_member(
            json_member(json_element(json_member(doc, "choices"@), 0), "message"@),
            "content"@,
        ),
    )
}

/// The number at `usage.prompt_tokens` of `doc`, where there is one.
pub open spec fn usage_prompt_tokens(doc: Value) -> Option<u64> {
    json_unsigned(json_member(json_member(doc, "usage"@), "prompt_tokens"@))
}

/// The text at `usage.approximate_total` of `doc`, where there is one.
pub open spec fn usage_approximate_total(doc: Value) -> Option<Seq<char>> {
    json_text(json_member(json_member(doc, "usage"@), "approximate_total"@))
}

/// What a payload amounts to: a chunk where it is JSON, and the end of the
/// response otherwise.
pub open spec fn payload_event(payload: Seq<char>) -> LineEventView {
    match json_document(payload) {
        Ok(doc) => LineEventView::Chunk(
            delta_chunk(
                delta_content(doc),
                usage_prompt_tokens(doc),
                usage_approximate_total(doc),
            ),
        ),
        Err(_) => LineEventView::Fatal(StreamErrorView::BadJson(payload)),
    }
}

/// What a line amounts to.
pub open spec fn line_event(line: Seq<char>) -> LineEventView {
    match frame_of(line) {
        FrameView::Blank => LineEventView::Skip,
        FrameView::Malformed(body) => LineEventView::Fatal(StreamErrorView::BadLine(body)),
        FrameView::Done => LineEventView::End,
        FrameView::Payload(payload) => payload_event(payload),
    }
}

/// Decodes the payload of one line of a streamed response.
pub fn decode_payload(payload: &str) -> (event: LineEvent)
    ensures
        event@ == payload_event(payload@),
{
    match parse_value(payload) {
        Ok(doc) => {
            let first = element(member(&doc, "choices"), 0);
            let content = text_of(member(member(first, "delta"), "content"));
            let usage = member(&doc, "usage");
            let prompt_tokens = unsigned_of(member(usage, "prompt_tokens"));
            let approximate_total = text_of(member(usage, "approximate_total"));
            LineEvent::Chunk(delta_output(content, prompt_tokens, approximate_total))
        },
        Err(_) => LineEvent::Fatal(StreamError::BadJson(payload.to_owned())),
    }
}

/// Decodes one line of a streamed response.
pub fn parse_line(line: &str) -> (event: LineEvent)
    ensures
        event@ == line_event(line@),
{
    match frame_line(line) {
        Frame::Blank => LineEvent::Skip,
        Frame::Malformed(body) => LineEvent::Fatal(StreamError::BadLine(body.to_owned())),
        Frame::Done => LineEvent::End,
        Frame::Payload(payload) => decode_payload(payload),
    }
}

/// The value of the outcome of reading a complete response.
pub open spec fn outcome_view(outcome: Result<Output, String>) -> Result<OutputView, Seq<char>> {
    match outcome {
        Ok(output) => Ok(output@),
        Err(message) => Err(message@),
    }
}

/// The chunk that a complete response stands for, given the three fields
/// that were found in it. All three are required; the text is looked at
/// first, then the token count, then the duration.
pub open spec fn required_chunk(
    content: Option<Seq<char>>,
    prompt_tokens: Option<u64>,
    approximate_total: Option<Seq<char>>,
) -> Result<OutputView, Seq<char>> {
    if content is None {
        Err("malformed response"@)
    } else if prompt_tokens is None {
        Err("usage.prompt_tokens is not integer"@)
    } else if approximate_total is None {
        Err("malformed response"@)
    } else {
        Ok(
            OutputView {
                message: content->0,
                prompt_tokens,
                approximate_total,
            },
        )
    }
}

/// Builds the chunk of a complete response from the fields of its body.
pub fn complete_output(
    content: Option<&str>,
    prompt_tokens: Option<u64>,
    approximate_total: Option<&str>,
) -> (outcome: Result<Output, String>)
    ensures
        outcome_view(outcome) == required_chunk(
            str_view(content),
            prompt_tokens,
            str_view(approximate_total),
        ),
{
    match content {
        None => Err("malformed response".to_owned()),
        Some(message) => match prompt_tokens {
            None => Err("usage.prompt_tokens is not integer".to_owned()),
            Some(count) => match approximate_total {
                None => Err("malformed response".to_owned()),
                Some(total) => Ok(
                    Output {
                        message: message.to_owned(),
                        prompt_tokens: Some(count),
                        approximate_total: Some(total.to_owned()),
                    },
                ),
            },
        },
    }
}

/// What the body of a complete response amounts to: the chunk that its
/// fields stand for where the body is JSON, and the reader's complaint
/// otherwise.
pub open spec fn complete_response(body: Seq<char>) -> Result<OutputView, Seq<char>> {
    match json_document(body) {
        Ok(doc) => required_chunk(
            message_content(doc),
            usage_prompt_tokens(doc),
            usage_approximate_total(doc),
        ),
        Err(error) => Err("json: "@ + json_error_text(error)),
    }
}

/// Reads the complete output from the body of a response to a request that
/// was not streamed.
pub fn get_complete_output(body: &str) -> (outcome: Result<Output, String>)
    ensures
        outcome_view(outcome) == complete_response(body@),
{
    match parse_value(body) {
        Ok(doc) => {
            let first = element(member(&doc, "choices"), 0);
            let content = text_of(member(member(first, "message"), "content"));
            let usage = member(&doc, "usage");
            let prompt_tokens = unsigned_of(member(usage, "prompt_tokens"));
            let approximate_total = text_of(member(usage, "approximate_total"));
            complete_output(content, prompt_tokens, approximate_total)
        },
        Err(error) => {
            let mut message = "json: ".to_owned();
            message.append(error_text(&error).as_str());
            Err(message)
        },
    }
}

} // verus!
