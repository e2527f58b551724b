//! One unit of what the server sends: a fragment of text and, on some
//! chunks, the usage figures of the request.

use vstd::prelude::*;

verus! {

/// A chunk of the model's answer.
#[derive(Debug, Clone, PartialEq, Eq)]
pub struct Output {
    /// A fragment of the answer; may be empty.
    pub message: String,
    /// The number of prompt tokens, on the chunks that report usage.
    pub prompt_tokens: Option<u64>,
    /// The time the request took, as the server words it.
    pub approximate_total: Option<String>,
}

/// The mathematical value of an [`Output`].
pub struct OutputView {
    pub message: Seq<char>,
    pub prompt_tokens: Option<u64>,
    pub approximate_total: Option<Seq<char>>,
}

/// The characters of an optional text.
pub open spec fn text_view(text: Option<String>) -> Option<Seq<char>> {
    match text {
        Some(t) => Some(t@),
        None => None,
    }
}

/// The value of an optional chunk.
pub open spec fn output_view(output: Option<Output>) -> Option<OutputView> {
    match output {
        Some(o) => Some(o@),
        None => None,
    }
}

/// The values of a sequence of chunks, in order.
pub open spec fn output_views(outputs: Seq<Output>) -> Seq<OutputView> {
    outputs.map_values(|o: Output| o@)
}

impl View for Output {
    type V = OutputView;

    open spec fn view(&self) -> OutputView {
        OutputView {
            message: self.message@,
            prompt_tokens: self.prompt_tokens,
            approximate_total: text_view(self.approximate_total),
        }
    }
}

impl OutputView {
    /// Whether the chunk reports any usage figure.
    pub open spec fn has_usage(self) -> bool {
        self.prompt_tokens is Some || self.approximate_total is Some
    }

    /// The same chunk with another text.
    pub open spec fn with_message(self, message: Seq<char>) -> OutputView {
        OutputView { message, ..self }
    }
}

/// A copy of an optional text.
pub fn copy_text(text: &Option<String>) -> (r: Option<String>)
    ensures
        text_view(r) == text_view(*text),
{
    match text {
        Some(t) => Some(t.clone()),
        None => None,
    }
}

impl Output {
    /// Whether the chunk reports any usage figure.
    pub fn has_usage(&self) -> (r: bool)
        ensures
            r == self@.has_usage(),
    {
        self.prompt_tokens.is_some() || self.approximate_total.is_some()
    }

    /// A copy of the chunk.
    pub fn duplicate(&self) -> (r: Output)
        ensures
            r@ == self@,
    {
        Output {
            message: self.message.clone(),
            prompt_tokens: self.prompt_tokens,
            approximate_total: copy_text(&self.approximate_total),
        }
    }
}

} // verus!
