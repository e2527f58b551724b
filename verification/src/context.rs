//! The context of a question: what came in on standard input, and the
//! files that were named.

use vstd::prelude::*;
use vstd::string::StringExecFns;
use crate::output::text_view;
use crate::text::{
    decimal, join, same_text, text_views, to_decimal, trim_end, trimmed_end, CharClass,
};

verus! {

pub type Label = String;

pub type Content = String;

/// Holds the context of a request: the anonymous block that came in on
/// standard input, and the named files.
#[derive(Debug, Clone, PartialEq, Eq)]
pub struct Context {
    pub anonymous: Option<String>,
    pub named: Vec<(Label, Content)>,
}

/// The mathematical value of a [`Context`].
pub struct ContextView {
    pub anonymous: Option<Seq<char>>,
    pub named: Seq<(Seq<char>, Seq<char>)>,
}

/// The characters of each label and content, in order.
pub open spec fn named_views(named: Seq<(Label, Content)>) -> Seq<(Seq<char>, Seq<char>)> {
    named.map_values(|file: (Label, Content)| (file.0@, file.1@))
}

impl View for Context {
    type V = ContextView;

    open spec fn view(&self) -> ContextView {
        ContextView { anonymous: text_view(self.anonymous), named: named_views(self.named@) }
    }
}

/// `content` without the line breaks at its end, fenced as a code block.
pub open spec fn fenced(content: Seq<char>) -> Seq<char> {
    "\n\n```\n"@ + trimmed_end(content, CharClass::LineBreak) + "\n```"@
}

/// The message that hands over what came in on standard input.
pub open spec fn unnamed_block(content: Seq<char>) -> Seq<char> {
    "## Unnamed input"@ + fenced(content)
}

/// The message that hands over the file `label`.
pub open spec fn file_block(label: Seq<char>, content: Seq<char>) -> Seq<char> {
    "## File `"@ + label + "`"@ + fenced(content)
}

/// The messages that hand over the files of `named`, in order.
pub open spec fn file_blocks(named: Seq<(Seq<char>, Seq<char>)>) -> Seq<Seq<char>> {
    named.map_values(|file: (Seq<char>, Seq<char>)| file_block(file.0, file.1))
}

impl ContextView {
    /// The line that says what is sent as context: nothing where there is
    /// no context, and otherwise whether standard input is sent and how
    /// many files are.
    pub open spec fn description(self) -> Option<Seq<char>> {
        if self.named.len() == 0 {
            if self.anonymous is Some {
                Some("sending stdin as context"@)
            } else {
                None
            }
        } else if self.anonymous is Some {
            Some("sending stdin and "@ + decimal(self.named.len()) + " files as context"@)
        } else {
            Some("sending "@ + decimal(self.named.len()) + " files as context"@)
        }
    }

    /// The messages that hand over the context: the anonymous block first,
    /// where there is one, then the files in order.
    pub open spec fn messages(self) -> Seq<Seq<char>> {
        let files = file_blocks(self.named);
        match self.anonymous {
            Some(content) => seq![unnamed_block(content)] + files,
            None => files,
        }
    }
}

/// Appends `content`, fenced as a code block, to `heading`.
fn fence(heading: String, content: &str) -> (r: String)
    ensures
        r@ == heading@ + fenced(content@),
{
    let mut block = heading;
    block.append("\n\n```\n");
    block.append(trim_end(content, CharClass::LineBreak));
    block.append("\n```");
    assert(block@ =~= heading@ + fenced(content@));
    block
}

impl Context {
    /// Creates an empty context.
    pub fn new() -> (r: Context)
        ensures
            r@.anonymous is None,
            r@.named.len() == 0,
    {
        Context { anonymous: None, named: Vec::new() }
    }

    /// Converts each block of the context into a Markdown representation
    /// that can be sent to the model.
    pub fn as_messages(&self) -> (r: Vec<String>)
        ensures
            text_views(r@) == self@.messages(),
    {
        let mut result: Vec<String> = Vec::new();
        match &self.anonymous {
            Some(content) => {
                result.push(fence("## Unnamed input".to_owned(), content.as_str()));
            },
            None => {},
        }
        let ghost head = text_views(result@);
        let ghost files = file_blocks(self@.named);
        assert(head + files.take(0) =~= head);
        let mut i: usize = 0;
        while i < self.named.len()
            invariant
                i <= self.named.len(),
                files == file_blocks(self@.named),
                text_views(result@) == head + files.take(i as int),
            decreases self.named.len() - i,
        {
            let ghost before = text_views(result@);
            let mut heading = join("## File `", self.named[i].0.as_str());
            heading.append("`");
            let block = fence(heading, self.named[i].1.as_str());
            assert(block@ =~= files[i as int]);
            result.push(block);
            assert(text_views(result@) =~= before.push(files[i as int]));
            assert(head + files.take(i + 1) =~= (head + files.take(i as int)).push(
                files[i as int],
            ));
            i += 1;
        }
        assert(files.take(self.named.len() as int) =~= files);
        result
    }

    /// Takes in what came in on standard input.
    pub fn set_anonymous(&mut self, content: String)
        ensures
            final(self)@.anonymous == Some(content@),
            final(self)@.named == old(self)@.named,
    {
        self.anonymous = Some(content);
    }

    /// Takes in the file `label`.
    pub fn add_named(&mut self, label: Label, content: Content)
        ensures
            final(self)@.anonymous == old(self)@.anonymous,
            final(self)@.named == old(self)@.named.push((label@, content@)),
    {
        self.named.push((label, content));
        assert(self@.named =~= old(self)@.named.push((label@, content@)));
    }

    /// Says in a line what is sent as context, or `None` where nothing is.
    pub fn describe(&self) -> (r: Option<String>)
        ensures
            text_view(r) == self@.description(),
    {
        let files: usize = self.named.len();
        if files == 0 {
            if self.anonymous.is_some() {
                Some("sending stdin as context".to_owned())
            } else {
                None
            }
        } else {
            let mut line = if self.anonymous.is_some() {
                "sending stdin and ".to_owned()
            } else {
                "sending ".to_owned()
            };
            line.append(to_decimal(files as u64).as_str());
            line.append(" files as context");
            Some(line)
        }
    }
}

/// Where a block of context is read from.
#[derive(Debug, Clone, PartialEq, Eq)]
pub enum Source {
    /// Standard input.
    Stdin,
    /// The files that match a pattern.
    Files(String),
}

/// The mathematical value of a [`Source`].
pub enum SourceView {
    Stdin,
    Files(Seq<char>),
}

impl View for Source {
    type V = SourceView;

    open spec fn view(&self) -> SourceView {
        match self {
            Source::Stdin => SourceView::Stdin,
            Source::Files(pattern) => SourceView::Files(pattern@),
        }
    }
}

/// The values of a sequence of sources, in order.
pub open spec fn source_views(sources: Seq<Source>) -> Seq<SourceView> {
    sources.map_values(|s: Source| s@)
}

/// The patterns that were asked for, in order; none where none were.
pub open spec fn pattern_views(requested: Option<&[String]>) -> Seq<Seq<char>> {
    match requested {
        Some(patterns) => text_views(patterns@),
        None => Seq::empty(),
    }
}

/// The sources that `patterns` stand for, in order.
pub open spec fn listed_sources(patterns: Seq<Seq<char>>) -> Seq<SourceView> {
    patterns.map_values(|p: Seq<char>| source_of(p))
}

/// The source that `pattern` stands for: `-` is standard input, anything
/// else is a pattern for file names.
pub open spec fn source_of(pattern: Seq<char>) -> SourceView {
    if pattern == "-"@ {
        SourceView::Stdin
    } else {
        SourceView::Files(pattern)
    }
}

/// The sources to read, in order: one for each pattern, and standard input
/// at the end where no pattern asks for it and it is no terminal.
pub open spec fn planned_sources(patterns: Seq<Seq<char>>, stdin_is_terminal: bool) -> Seq<
    SourceView,
> {
    let listed = listed_sources(patterns);
    if !stdin_is_terminal && !listed.contains(SourceView::Stdin) {
        listed.push(SourceView::Stdin)
    } else {
        listed
    }
}

/// Lists the sources to read for the given patterns.
pub fn sources(requested: Option<&[String]>, stdin_is_terminal: bool) -> (r: Vec<Source>)
    ensures
        source_views(r@) == planned_sources(pattern_views(requested), stdin_is_terminal),
{
    let mut result: Vec<Source> = Vec::new();
    let mut reads_stdin = false;
    let ghost patterns = pattern_views(requested);
    let ghost listed = listed_sources(patterns);
    match requested {
        Some(given) => {
            let mut i: usize = 0;
            assert(listed.take(0) =~= Seq::<SourceView>::empty());
            while i < given.len()
                invariant
                    i <= given.len(),
                    patterns == text_views(given@),
                    listed == listed_sources(patterns),
                    source_views(result@) == listed.take(i as int),
                    reads_stdin == listed.take(i as int).contains(SourceView::Stdin),
                decreases given.len() - i,
            {
                let ghost before = source_views(result@);
                if same_text(given[i].as_str(), "-") {
                    result.push(Source::Stdin);
                    reads_stdin = true;
                } else {
                    result.push(Source::Files(given[i].clone()));
                }
                assert(source_views(result@) =~= before.push(listed[i as int]));
                assert(listed.take(i + 1) =~= listed.take(i as int).push(listed[i as int]));
                assert(listed.take(i + 1).contains(SourceView::Stdin) == (reads_stdin)) by {
                    let now = listed.take(i + 1);
                    if listed.take(i as int).contains(SourceView::Stdin) {
                        let k = choose|k: int|
                            0 <= k < i && listed.take(i as int)[k] == SourceView::Stdin;
                        assert(now[k] == SourceView::Stdin);
                    }
                    if listed[i as int] == SourceView::Stdin {
                        assert(now[i as int] == SourceView::Stdin);
                    }
                    if now.contains(SourceView::Stdin) {
                        let k = choose|k: int| 0 <= k < i + 1 && now[k] == SourceView::Stdin;
                        if k < i {
                            assert(listed.take(i as int)[k] == SourceView::Stdin);
                        }
                    }
                }
                i += 1;
            }
            assert(listed.take(given.len() as int) =~= listed);
        },
        None => {
            assert(listed =~= Seq::<SourceView>::empty());
        },
    }
    if !stdin_is_terminal && !reads_stdin {
        let ghost before = source_views(result@);
        result.push(Source::Stdin);
        assert(source_views(result@) =~= before.push(SourceView::Stdin));
    }
    result
}

} // verus!
