//! The chunks of a response as one sequence, whether the response came
//! whole or line by line.

use vstd::prelude::*;
use crate::output::{output_view, Output, OutputView};
use crate::response::{
    data_prefix, done_payload, error_view, frame_of, line_event, parse_line, FrameView,
    LineEvent, LineEventView, StreamError, StreamErrorView,
};
use crate::text::{text_views, trimmed, CharClass};

verus! {

/// The one chunk of a complete response, handed out once.
pub struct OutputIter {
    output: Option<Output>,
}

impl View for OutputIter {
    type V = Option<OutputView>;

    closed spec fn view(&self) -> Option<OutputView> {
        output_view(self.output)
    }
}

impl OutputIter {
    /// A sequence that holds `output` and nothing else.
    pub fn new(output: Output) -> (r: OutputIter)
        ensures
            r@ == Some(output@),
    {
        OutputIter { output: Some(output) }
    }

    /// Hands out the chunk the first time, and nothing after that.
    pub fn next(&mut self) -> (r: Option<Output>)
        ensures
            output_view(r) == old(self)@,
            final(self)@ is None,
    {
        self.output.take()
    }

    /// Whether the chunk has been handed out.
    pub fn is_finished(&self) -> (r: bool)
        ensures
            r == (self@ is None),
    {
        self.output.is_none()
    }
}

/// What reading lines from the front of a streamed response leads to.
pub struct Pull {
    /// The chunk that was found, if one was.
    pub chunk: Option<OutputView>,
    /// The lines that have not been read.
    pub rest: Seq<Seq<char>>,
    /// Whether the response is over: the end sentinel or a line that
    /// cannot be read was met.
    pub ended: bool,
    /// The error that cut the response short, if one did.
    pub error: Option<StreamErrorView>,
}

/// Reads lines from the front of `lines` up to the first that is not blank.
/// Blank lines are passed over; a chunk is handed out; the end sentinel and
/// a line that cannot be read end the response. Where only blank lines are
/// left, nothing is decided yet.
pub open spec fn pull(lines: Seq<Seq<char>>) -> Pull
    decreases lines.len(),
{
    if lines.len() == 0 {
        Pull { chunk: None, rest: lines, ended: false, error: None }
    } else {
        match line_event(lines[0]) {
            LineEventView::Skip => pull(lines.skip(1)),
            LineEventView::End => Pull {
                chunk: None,
                rest: lines.skip(1),
                ended: true,
                error: None,
            },
            LineEventView::Fatal(e) => Pull {
                chunk: None,
                rest: lines.skip(1),
                ended: true,
                error: Some(e),
            },
            LineEventView::Chunk(c) => Pull {
                chunk: Some(c),
                rest: lines.skip(1),
                ended: false,
                error: None,
            },
        }
    }
}

/// The mathematical value of a [`TokenIter`].
pub struct TokenIterView {
    /// The lines that have come in and have not been read.
    pub pending: Seq<Seq<char>>,
    /// Whether the source has said that no more lines will come.
    pub closed: bool,
    /// Whether the response is over.
    pub finished: bool,
    /// The error that cut the response short, if one did.
    pub error: Option<StreamErrorView>,
}

impl TokenIterView {
    /// The chunk that the next call hands out, if it hands one out.
    pub open spec fn next_chunk(self) -> Option<OutputView> {
        if self.finished {
            None
        } else {
            pull(self.pending).chunk
        }
    }

    /// The state after the next call. A finished sequence stays as it is.
    /// Otherwise the lines that were read are gone, and the sequence is
    /// finished where the response has ended, or where no chunk was found
    /// and no more lines will come.
    pub open spec fn after_next(self) -> TokenIterView {
        if self.finished {
            self
        } else {
            let p = pull(self.pending);
            TokenIterView {
                pending: p.rest,
                closed: self.closed,
                finished: p.ended || (p.chunk is None && self.closed),
                error: p.error,
            }
        }
    }
}

/// The chunks of a streamed response, decoded line by line as the lines
/// come in.
pub struct TokenIter {
    lines: Vec<String>,
    cursor: usize,
    closed: bool,
    finished: bool,
    error: Option<StreamError>,
}

impl View for TokenIter {
    type V = TokenIterView;

    closed spec fn view(&self) -> TokenIterView {
        TokenIterView {
            pending: if self.cursor <= self.lines.len() {
                text_views(self.lines@).skip(self.cursor as int)
            } else {
                Seq::empty()
            },
            closed: self.closed,
            finished: self.finished,
            error: if self.finished {
                error_view(self.error)
            } else {
                None
            },
        }
    }
}

impl TokenIter {
    /// A sequence for a response of which no line has come in yet.
    pub fn new() -> (r: TokenIter)
        ensures
            r@.pending.len() == 0,
            !r@.closed,
            !r@.finished,
            r@.error is None,
    {
        TokenIter { lines: Vec::new(), cursor: 0, closed: false, finished: false, error: None }
    }

    /// A sequence for a response whose lines have all come in.
    pub fn from_lines(lines: Vec<String>) -> (r: TokenIter)
        ensures
            r@.pending == text_views(lines@),
            r@.closed,
            !r@.finished,
            r@.error is None,
    {
        assert(text_views(lines@).skip(0) =~= text_views(lines@));
        TokenIter { lines, cursor: 0, closed: true, finished: false, error: None }
    }

    /// Takes in the next line of the response.
    pub fn feed(&mut self, line: String)
        ensures
            final(self)@.pending == old(self)@.pending.push(line@),
            final(self)@.closed == old(self)@.closed,
            final(self)@.finished == old(self)@.finished,
            final(self)@.error == old(self)@.error,
    {
        if self.cursor >= self.lines.len() {
            self.cursor = 0;
            self.lines.clear();
        }
        self.lines.push(line);
        assert(self@.pending =~= old(self)@.pending.push(line@));
    }

    /// Takes note that no more lines will come.
    pub fn close(&mut self)
        ensures
            final(self)@.pending == old(self)@.pending,
            final(self)@.closed,
            final(self)@.finished == old(self)@.finished,
            final(self)@.error == old(self)@.error,
    {
        self.closed = true;
    }

    /// Whether the response is over.
    pub fn is_finished(&self) -> (r: bool)
        ensures
            r == self@.finished,
    {
        self.finished
    }

    /// The error that cut the response short, if one did.
    pub fn error(&self) -> (r: Option<&StreamError>)
        ensures
            match r {
                Some(e) => self@.error == Some(e@),
                None => self@.error is None,
            },
    {
        if self.finished {
            self.error.as_ref()
        } else {
            None
        }
    }

    /// Reads lines until one holds a chunk, and hands the chunk out.
    /// Returns `None` where the response is over, and also where the lines
    /// that have come in hold no chunk: `is_finished` tells the two apart.
    pub fn next(&mut self) -> (r: Option<Output>)
        ensures
            output_view(r) == old(self)@.next_chunk(),
            final(self)@ == old(self)@.after_next(),
    {
        if self.finished {
            return None;
        }
        let ghost start = self@.pending;
        while self.cursor < self.lines.len()
            invariant
                !self.finished,
                !old(self)@.finished,
                start == old(self)@.pending,
                self.closed == old(self).closed,
                self.lines == old(self).lines,
                pull(self@.pending) == pull(start),
            decreases self.lines.len() - self.cursor,
        {
            let ghost pending = self@.pending;
            assert(pending[0] == self.lines[self.cursor as int]@);
            assert(pending.skip(1) =~= text_views(self.lines@).skip(self.cursor + 1));
            let event = parse_line(self.lines[self.cursor].as_str());
            self.cursor = self.cursor + 1;
            match event {
                LineEvent::Skip => {},
                LineEvent::End => {
                    self.finished = true;
                    self.error = None;
                    return None;
                },
                LineEvent::Fatal(e) => {
                    self.finished = true;
                    self.error = Some(e);
                    return None;
                },
                LineEvent::Chunk(output) => {
                    return Some(output);
                },
            }
        }
        self.finished = self.closed;
        self.error = None;
        None
    }
}

/// The mathematical value of an [`OutputReader`].
pub enum OutputReaderView {
    Complete(Option<OutputView>),
    Streamed(TokenIterView),
}

impl OutputReaderView {
    /// The chunk that the next call hands out, if it hands one out.
    pub open spec fn next_chunk(self) -> Option<OutputView> {
        match self {
            OutputReaderView::Complete(output) => output,
            OutputReaderView::Streamed(tokens) => tokens.next_chunk(),
        }
    }

    /// The state after the next call.
    pub open spec fn after_next(self) -> OutputReaderView {
        match self {
            OutputReaderView::Complete(_) => OutputReaderView::Complete(None),
            OutputReaderView::Streamed(tokens) => OutputReaderView::Streamed(tokens.after_next()),
        }
    }

    /// Whether the response is over.
    pub open spec fn finished(self) -> bool {
        match self {
            OutputReaderView::Complete(output) => output is None,
            OutputReaderView::Streamed(tokens) => tokens.finished,
        }
    }
}

/// The chunks of a response, whichever way the response came.
pub enum OutputReader {
    /// A response that came whole.
    Complete(OutputIter),
    /// A response that comes line by line.
    Streamed(TokenIter),
}

impl View for OutputReader {
    type V = OutputReaderView;

    open spec fn view(&self) -> OutputReaderView {
        match self {
            OutputReader::Complete(output) => OutputReaderView::Complete(output@),
            OutputReader::Streamed(tokens) => OutputReaderView::Streamed(tokens@),
        }
    }
}

impl OutputReader {
    /// Hands out the next chunk of the response, if there is one.
    pub fn next(&mut self) -> (r: Option<Output>)
        ensures
            output_view(r) == old(self)@.next_chunk(),
            final(self)@ == old(self)@.after_next(),
    {
        match self {
            OutputReader::Complete(output) => output.next(),
            OutputReader::Streamed(tokens) => tokens.next(),
        }
    }

    /// Whether the response is over.
    pub fn is_finished(&self) -> (r: bool)
        ensures
            r == self@.finished(),
    {
        match self {
            OutputReader::Complete(output) => output.is_finished(),
            OutputReader::Streamed(tokens) => tokens.is_finished(),
        }
    }
}

/// A streamed response whose first line is not blank and lacks the prefix
/// is over at once: no chunk is handed out, and the line is reported.
pub proof fn lemma_bad_first_line_ends_stream(lines: Seq<Seq<char>>)
    requires
        lines.len() > 0,
        trimmed(lines[0], CharClass::LineBreak).len() > 0,
        !data_prefix().is_prefix_of(trimmed(lines[0], CharClass::LineBreak)),
    ensures
        pull(lines).chunk is None,
        pull(lines).ended,
        pull(lines).error == Some(
            StreamErrorView::BadLine(trimmed(lines[0], CharClass::LineBreak)),
        ),
{
}

/// The end sentinel ends a streamed response without a chunk and without
/// an error, whatever follows it.
pub proof fn lemma_done_ends_stream(lines: Seq<Seq<char>>)
    requires
        lines.len() > 0,
        trimmed(lines[0], CharClass::LineBreak) == data_prefix() + done_payload(),
    ensures
        pull(lines).chunk is None,
        pull(lines).ended,
        pull(lines).error is None,
{
    let body = trimmed(lines[0], CharClass::LineBreak);
    reveal_strlit("data: ");
    reveal_strlit("[DONE]");
    assert(body.subrange(0, data_prefix().len() as int) =~= data_prefix());
    assert(body.skip(data_prefix().len() as int) =~= done_payload());
    assert(frame_of(lines[0]) == FrameView::Done);
}

/// A finished sequence hands out nothing more and stays finished.
pub proof fn lemma_finished_stays_finished(tokens: TokenIterView)
    requires
        tokens.finished,
    ensures
        tokens.next_chunk() is None,
        tokens.after_next() == tokens,
{
}

} // verus!
