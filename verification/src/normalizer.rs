//! Turns the chunks that the server sends into the chunks that the user
//! sees: drops a leading think block, trims the blank space around the
//! answer, and makes sure the answer ends with a line break.

use std::borrow::Cow;
use vstd::prelude::*;
use vstd::string::StrSliceExecFns;
use vstd::string::StringExecFns;
use crate::output::{output_view, output_views, Output, OutputView};
use crate::text::{
    chars_of, find_in, first_occurrence, leading, lemma_trim_end_idempotent,
    lemma_trim_start_idempotent, matches_at, same_text, trailing, trim_end, trim_start,
    trimmed_end, trimmed_start, CharClass,
};

verus! {

/// The marker that opens a think block.
pub open spec fn think_open() -> Seq<char> {
    "<think>"@
}

/// The marker that closes a think block.
pub open spec fn think_close() -> Seq<char> {
    "</think>"@
}

/// `s` without its leading think block: where `s` begins with the opening
/// marker and holds a closing marker, everything up to and including the
/// first closing marker goes, and so do the line breaks that follow it.
/// Any other text stays as it is.
pub open spec fn without_think_block(s: Seq<char>) -> Seq<char> {
    if think_open().is_prefix_of(s) {
        match first_occurrence(s, think_close()) {
            Some(at) => trimmed_start(s.skip(at + think_close().len()), CharClass::LineBreak),
            None => s,
        }
    } else {
        s
    }
}

/// Removes the leading think block from a complete response.
pub fn remove_think_block(message: &str) -> (r: Cow<'_, str>)
    ensures
        r@ == without_think_block(message@),
{
    let chars = chars_of(message);
    let open = chars_of("<think>");
    let close = chars_of("</think>");
    if matches_at(&chars, &open, 0) {
        match find_in(&chars, &close) {
            Some(at) => {
                let rest = message.substring_char(at + close.len(), chars.len());
                Cow::Borrowed(trim_start(rest, CharClass::LineBreak))
            },
            None => Cow::Borrowed(message),
        }
    } else {
        Cow::Borrowed(message)
    }
}

/// The text of a complete response as the user sees it: without the think
/// block unless it is kept, without trailing whitespace, and ended by
/// exactly one line feed.
pub open spec fn complete_text(keep_think_block: bool, s: Seq<char>) -> Seq<char> {
    let body = if keep_think_block {
        s
    } else {
        without_think_block(s)
    };
    trimmed_end(body, CharClass::Whitespace).push('\n')
}

/// A chunk of a streamed response as it goes out: one without text carries
/// a line feed instead, so that the answer ends with a line break, and any
/// other chunk is left as it is.
pub open spec fn ended(raw: OutputView) -> OutputView {
    if raw.message.len() == 0 {
        raw.with_message(seq!['\n'])
    } else {
        raw
    }
}

/// The chunk that goes out for a chunk `raw` of a streamed response that
/// stands outside the think block; `first` says that no chunk has gone out
/// yet. The first chunk that goes out loses its leading whitespace, and a
/// chunk that is blank before anything has gone out is suppressed unless it
/// reports usage.
pub open spec fn visible(first: bool, raw: OutputView) -> Option<OutputView> {
    let text = if first {
        trimmed_start(raw.message, CharClass::Whitespace)
    } else {
        raw.message
    };
    if first && text.len() == 0 && !raw.has_usage() {
        None
    } else {
        Some(ended(raw.with_message(text)))
    }
}

/// The mathematical value of a [`Normalizer`].
pub struct NormalizerView {
    /// Whether the think block stays in the output.
    pub keep_think_block: bool,
    /// Whether the response arrives as one chunk.
    pub is_complete_mode: bool,
    /// Whether any chunk has been taken from the source.
    pub ever_produced_raw_chunk: bool,
    /// The chunk that was handed out last.
    pub last_emitted_chunk: Option<OutputView>,
    /// Whether the opening marker has gone by and the closing one has not.
    pub inside_think_block: bool,
}

impl NormalizerView {
    /// The state before the first chunk.
    pub open spec fn initial(keep_think_block: bool, is_complete_mode: bool) -> NormalizerView {
        NormalizerView {
            keep_think_block,
            is_complete_mode,
            ever_produced_raw_chunk: false,
            last_emitted_chunk: None,
            inside_think_block: false,
        }
    }

    /// What holds of every state that a normalizer reaches: a think block is
    /// only ever open in a streamed response whose think block is elided,
    /// after a chunk has come in and before any has gone out.
    pub open spec fn wf(self) -> bool {
        &&& self.inside_think_block ==> {
            &&& self.elides()
            &&& self.ever_produced_raw_chunk
            &&& self.last_emitted_chunk is None
        }
        &&& self.last_emitted_chunk is Some ==> self.ever_produced_raw_chunk
    }

    /// Whether the think block of a streamed response is elided.
    pub open spec fn elides(self) -> bool {
        !self.is_complete_mode && !self.keep_think_block
    }

    /// Whether `raw` is the opening marker at the very start of a streamed
    /// response whose think block is elided.
    pub open spec fn opens_think_block(self, raw: OutputView) -> bool {
        self.elides() && !self.ever_produced_raw_chunk && raw.message == think_open()
    }

    /// The chunk that goes out for `raw`, if one does.
    pub open spec fn emitted(self, raw: OutputView) -> Option<OutputView> {
        if self.is_complete_mode {
            Some(raw.with_message(complete_text(self.keep_think_block, raw.message)))
        } else if self.keep_think_block {
            Some(ended(raw))
        } else if self.opens_think_block(raw) || self.inside_think_block {
            None
        } else {
            visible(self.last_emitted_chunk is None, raw)
        }
    }

    /// The state after `raw`.
    pub open spec fn after(self, raw: OutputView) -> NormalizerView {
        NormalizerView {
            ever_produced_raw_chunk: true,
            last_emitted_chunk: match self.emitted(raw) {
                Some(o) => Some(o),
                None => self.last_emitted_chunk,
            },
            inside_think_block: self.opens_think_block(raw) || (self.inside_think_block
                && raw.message != think_close()),
            ..self
        }
    }

    /// The state after all of `raws`, taken in order.
    pub open spec fn after_all(self, raws: Seq<OutputView>) -> NormalizerView
        decreases raws.len(),
    {
        if raws.len() == 0 {
            self
        } else {
            self.after_all(raws.drop_last()).after(raws.last())
        }
    }

    /// The chunks that go out for `raws`, in order.
    pub open spec fn emitted_all(self, raws: Seq<OutputView>) -> Seq<OutputView>
        decreases raws.len(),
    {
        if raws.len() == 0 {
            Seq::empty()
        } else {
            let before = self.emitted_all(raws.drop_last());
            match self.after_all(raws.drop_last()).emitted(raws.last()) {
                Some(o) => before.push(o),
                None => before,
            }
        }
    }
}

/// The filter between the chunks of one response and the user.
pub struct Normalizer {
    keep_think_block: bool,
    is_complete_mode: bool,
    ever_produced_raw_chunk: bool,
    last_emitted_chunk: Option<Output>,
    inside_think_block: bool,
}

impl View for Normalizer {
    type V = NormalizerView;

    closed spec fn view(&self) -> NormalizerView {
        NormalizerView {
            keep_think_block: self.keep_think_block,
            is_complete_mode: self.is_complete_mode,
            ever_produced_raw_chunk: self.ever_produced_raw_chunk,
            last_emitted_chunk: output_view(self.last_emitted_chunk),
            inside_think_block: self.inside_think_block,
        }
    }
}

/// Normalizes the one chunk of a complete response.
fn complete_chunk(keep_think_block: bool, raw: Output) -> (r: Output)
    ensures
        r@ == raw@.with_message(complete_text(keep_think_block, raw@.message)),
{
    let mut message = if keep_think_block {
        trim_end(raw.message.as_str(), CharClass::Whitespace).to_owned()
    } else {
        match remove_think_block(raw.message.as_str()) {
            Cow::Borrowed(body) => trim_end(body, CharClass::Whitespace).to_owned(),
            Cow::Owned(body) => trim_end(body.as_str(), CharClass::Whitespace).to_owned(),
        }
    };
    proof {
        reveal_strlit("\n");
    }
    message.append("\n");
    assert(message@ =~= complete_text(keep_think_block, raw@.message));
    Output {
        message,
        prompt_tokens: raw.prompt_tokens,
        approximate_total: raw.approximate_total,
    }
}

/// Puts a line feed into a chunk of a streamed response that has no text.
fn end_chunk(raw: Output) -> (r: Output)
    ensures
        r@ == ended(raw@),
{
    if raw.message.as_str().is_empty() {
        proof {
            reveal_strlit("\n");
        }
        let line_feed = "\n".to_owned();
        assert(line_feed@ =~= seq!['\n']);
        Output {
            message: line_feed,
            prompt_tokens: raw.prompt_tokens,
            approximate_total: raw.approximate_total,
        }
    } else {
        raw
    }
}

/// Normalizes a chunk of a streamed response that stands outside the think
/// block; `first` says that no chunk has gone out yet.
fn visible_chunk(first: bool, raw: Output) -> (r: Option<Output>)
    ensures
        output_view(r) == visible(first, raw@),
{
    if !first {
        assert(raw@.with_message(raw@.message) == raw@);
        return Some(end_chunk(raw));
    }
    let message = trim_start(raw.message.as_str(), CharClass::Whitespace).to_owned();
    if message.as_str().is_empty() && raw.prompt_tokens.is_none()
        && raw.approximate_total.is_none() {
        None
    } else {
        Some(
            end_chunk(
                Output {
                    message,
                    prompt_tokens: raw.prompt_tokens,
                    approximate_total: raw.approximate_total,
                },
            ),
        )
    }
}

impl Normalizer {
    #[verifier::type_invariant]
    spec fn well_formed(self) -> bool {
        self@.wf()
    }

    /// A normalizer for one response, before its first chunk.
    pub fn new(keep_think_block: bool, is_complete_mode: bool) -> (r: Normalizer)
        ensures
            r@ == NormalizerView::initial(keep_think_block, is_complete_mode),
    {
        Normalizer {
            keep_think_block,
            is_complete_mode,
            ever_produced_raw_chunk: false,
            last_emitted_chunk: None,
            inside_think_block: false,
        }
    }

    /// Whether the think block stays in the output.
    pub fn keep_think_block(&self) -> (r: bool)
        ensures
            r == self@.keep_think_block,
    {
        self.keep_think_block
    }

    /// Whether the response arrives as one chunk.
    pub fn is_complete_mode(&self) -> (r: bool)
        ensures
            r == self@.is_complete_mode,
    {
        self.is_complete_mode
    }

    /// Whether any chunk has been taken from the source.
    pub fn ever_produced_raw_chunk(&self) -> (r: bool)
        ensures
            r == self@.ever_produced_raw_chunk,
    {
        self.ever_produced_raw_chunk
    }

    /// Whether the opening marker has gone by and the closing one has not.
    pub fn inside_think_block(&self) -> (r: bool)
        ensures
            r == self@.inside_think_block,
    {
        self.inside_think_block
    }

    /// The chunk that was handed out last, if any was.
    pub fn last_emitted_chunk(&self) -> (r: Option<&Output>)
        ensures
            match r {
                Some(o) => self@.last_emitted_chunk == Some(o@),
                None => self@.last_emitted_chunk is None,
            },
    {
        self.last_emitted_chunk.as_ref()
    }

    /// Takes the next chunk from the source and returns the chunk that goes
    /// out for it, or `None` where it is suppressed.
    pub fn advance(&mut self, raw: Output) -> (out: Option<Output>)
        ensures
            final(self)@ == old(self)@.after(raw@),
            output_view(out) == old(self)@.emitted(raw@),
    {
        proof {
            use_type_invariant(&*self);
        }
        let mut inside = false;
        let out = if self.is_complete_mode {
            Some(complete_chunk(self.keep_think_block, raw))
        } else if self.keep_think_block {
            Some(end_chunk(raw))
        } else if !self.ever_produced_raw_chunk && same_text(raw.message.as_str(), "<think>") {
            inside = true;
            None
        } else if self.inside_think_block {
            inside = !same_text(raw.message.as_str(), "</think>");
            None
        } else {
            visible_chunk(self.last_emitted_chunk.is_none(), raw)
        };
        self.ever_produced_raw_chunk = true;
        self.inside_think_block = inside;
        match &out {
            Some(o) => {
                self.last_emitted_chunk = Some(o.duplicate());
            },
            None => {},
        }
        out
    }

    /// Takes all of `raws` from the source, in order, and returns the chunks
    /// that go out for them.
    pub fn advance_all(&mut self, raws: Vec<Output>) -> (outs: Vec<Output>)
        ensures
            final(self)@ == old(self)@.after_all(output_views(raws@)),
            output_views(outs@) == old(self)@.emitted_all(output_views(raws@)),
    {
        let ghost start = self@;
        let ghost all = output_views(raws@);
        let mut outs: Vec<Output> = Vec::new();
        let mut i: usize = 0;
        assert(all.take(0) =~= Seq::<OutputView>::empty());
        assert(output_views(outs@) =~= Seq::<OutputView>::empty());
        while i < raws.len()
            invariant
                i <= raws.len(),
                all == output_views(raws@),
                self@ == start.after_all(all.take(i as int)),
                output_views(outs@) == start.emitted_all(all.take(i as int)),
            decreases raws.len() - i,
        {
            let ghost before = output_views(outs@);
            assert(all.take(i + 1).drop_last() =~= all.take(i as int));
            assert(all.take(i + 1).last() == raws[i as int]@);
            match self.advance(raws[i].duplicate()) {
                Some(o) => {
                    outs.push(o);
                    assert(output_views(outs@) =~= before.push(o@));
                },
                None => {},
            }
            i += 1;
        }
        assert(all.take(raws.len() as int) =~= all);
        outs
    }
}

/// Every state that follows a well-formed state is well formed.
pub proof fn lemma_after_keeps_wf(s: NormalizerView, raw: OutputView)
    requires
        s.wf(),
    ensures
        s.after(raw).wf(),
        s.after(raw).keep_think_block == s.keep_think_block,
        s.after(raw).is_complete_mode == s.is_complete_mode,
{
}

/// After any chunks, a normalizer that started afresh remembers the last
/// chunk that went out, and remembers none exactly when none went out.
pub proof fn lemma_remembers_last(
    keep_think_block: bool,
    is_complete_mode: bool,
    raws: Seq<OutputView>,
)
    ensures
        ({
            let start = NormalizerView::initial(keep_think_block, is_complete_mode);
            let outs = start.emitted_all(raws);
            let end = start.after_all(raws);
            &&& end.wf()
            &&& end.keep_think_block == keep_think_block
            &&& end.is_complete_mode == is_complete_mode
            &&& outs.len() == 0 ==> end.last_emitted_chunk is None
            &&& outs.len() > 0 ==> end.last_emitted_chunk == Some(outs.last())
        }),
    decreases raws.len(),
{
    if raws.len() > 0 {
        let start = NormalizerView::initial(keep_think_block, is_complete_mode);
        lemma_remembers_last(keep_think_block, is_complete_mode, raws.drop_last());
        lemma_after_keeps_wf(start.after_all(raws.drop_last()), raws.last());
    }
}

/// The usage figures of the last chunk from the source are those of the
/// last chunk that goes out, whenever any chunk goes out at all.
pub proof fn lemma_usage_round_trip(
    keep_think_block: bool,
    is_complete_mode: bool,
    raws: Seq<OutputView>,
)
    requires
        raws.len() > 0,
        NormalizerView::initial(keep_think_block, is_complete_mode).emitted_all(raws).len() > 0,
    ensures
        ({
            let outs = NormalizerView::initial(keep_think_block, is_complete_mode).emitted_all(
                raws,
            );
            &&& outs.last().prompt_tokens == raws.last().prompt_tokens
            &&& outs.last().approximate_total == raws.last().approximate_total
        }),
{
    lemma_remembers_last(keep_think_block, is_complete_mode, raws.drop_last());
}

/// With the think block kept, a streamed response whose chunks all have
/// text goes out as it came in.
pub proof fn lemma_kept_stream_is_unchanged(raws: Seq<OutputView>)
    requires
        forall|i: int| 0 <= i < raws.len() ==> (#[trigger] raws[i]).message.len() > 0,
    ensures
        NormalizerView::initial(true, false).emitted_all(raws) == raws,
    decreases raws.len(),
{
    if raws.len() > 0 {
        let front = raws.drop_last();
        assert forall|i: int| 0 <= i < front.len() implies (#[trigger] front[i]).message.len()
            > 0 by {
            assert(front[i] == raws[i]);
        }
        lemma_kept_stream_is_unchanged(front);
        lemma_remembers_last(true, false, front);
        assert(raws.last() == raws[raws.len() - 1]);
        assert(front.push(raws.last()) =~= raws);
    }
}

/// The text of a complete response is normalized for good: normalized
/// again with its think block kept, it stays as it is.
pub proof fn lemma_complete_text_is_stable(keep_think_block: bool, s: Seq<char>)
    ensures
        complete_text(true, complete_text(keep_think_block, s)) == complete_text(
            keep_think_block,
            s,
        ),
{
    let body = if keep_think_block {
        s
    } else {
        without_think_block(s)
    };
    let kept = trimmed_end(body, CharClass::Whitespace);
    let line = kept.push('\n');
    lemma_trim_end_idempotent(body, CharClass::Whitespace);
    assert(line.drop_last() =~= kept);
    assert(trailing(line, CharClass::Whitespace) == 1);
    assert(trimmed_end(line, CharClass::Whitespace) =~= kept);
}

/// The first chunk that goes out has been trimmed for good: were it to come
/// in again as a first chunk, it would go out unchanged.
pub proof fn lemma_first_visible_is_stable(raw: OutputView)
    ensures
        visible(true, raw) matches Some(o) ==> visible(true, o) == Some(o),
{
    lemma_trim_start_idempotent(raw.message, CharClass::Whitespace);
    let line = seq!['\n'];
    assert(trimmed_start(line, CharClass::Whitespace) =~= Seq::<char>::empty()) by {
        reveal_with_fuel(leading, 2);
        assert(line.skip(1).len() == 0);
    }
}

} // verus!
