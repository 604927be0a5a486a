//! The context assembler: the system prompt, made of the persona, the
//! directory tree and one section for each file that has a fragment.

use vstd::prelude::*;
use vstd::string::StringExecFns;

use crate::scanner::FileDescriptor;
use crate::scanner::FileDescriptorView;
use crate::summarizer::strategy;
use crate::summarizer::strategy_for;
use crate::summarizer::Strategy;
use crate::summarizer::LINE_END;
use crate::text::repeat;
use crate::text::repeated;

verus! {

/// The persona that opens the prompt.
pub const PREAMBLE: &'static str =
    "You are a very helpfull techlead of this project, who likes to teach and show code solutions.";

/// The heading above the directory tree.
pub const TREE_HEADING: &'static str =
    "\n Directory tree (excluding /target and hidden directories)\n";

/// What a line of the tree is indented with, once for each level.
pub const INDENT_MARKER: &'static str = "|____";

/// How many levels an entry at this depth is indented: the entries right
/// below the root are not indented, and each level below them adds one.
pub open spec fn indent_levels(depth: nat) -> nat {
    if depth >= 1 {
        (depth - 1) as nat
    } else {
        0
    }
}

/// The line that shows an entry in the tree.
pub open spec fn tree_line(file: FileDescriptorView) -> Seq<char> {
    repeated(INDENT_MARKER@, indent_levels(file.depth)) + file.name + LINE_END@
}

/// The line that opens the section of a file.
pub open spec fn header_line(name: Seq<char>) -> Seq<char> {
    "# "@ + name + LINE_END@
}

/// What follows the header where the chat service summarized the file;
/// `quoted` is the summary as a quoted, escaped string.
pub open spec fn summary_body(name: Seq<char>, quoted: Seq<char>) -> Seq<char> {
    LINE_END@ + " "@ + name + " summary: "@ + quoted + LINE_END@
}

/// What follows the header of a compacted source file.
pub open spec fn source_body(code: Seq<char>) -> Seq<char> {
    code + LINE_END@
}

/// The text that the format `{:?}` gives for a string of these characters.
pub uninterp spec fn debug_form(text: Seq<char>) -> Seq<char>;

/// The section of a file with the given fragment: the header line, then the
/// fragment in the form that belongs to the file's strategy. A file without
/// a strategy has no section.
pub open spec fn section(file: FileDescriptorView, fragment: Seq<char>) -> Seq<char> {
    match strategy_for(file.extension) {
        Some(Strategy::Remote) => header_line(file.name) + summary_body(
            file.name,
            debug_form(fragment),
        ),
        Some(Strategy::Local) => header_line(file.name) + source_body(fragment),
        None => Seq::empty(),
    }
}

/// A scanned entry with the fragment that the summarizer made for it, if it
/// made one.
#[derive(Debug)]
pub struct PromptEntry {
    pub file: FileDescriptor,
    pub fragment: Option<String>,
}

/// A `PromptEntry` as plain values.
pub struct PromptEntryView {
    pub file: FileDescriptorView,
    pub fragment: Option<Seq<char>>,
}

impl View for PromptEntry {
    type V = PromptEntryView;

    open spec fn view(&self) -> PromptEntryView {
        PromptEntryView { file: self.file@, fragment: self.fragment.deep_view() }
    }
}

impl DeepView for PromptEntry {
    type V = PromptEntryView;

    open spec fn deep_view(&self) -> PromptEntryView {
        self@
    }
}

/// The tree of the files: one line for each, in their order.
pub open spec fn tree_of(files: Seq<FileDescriptorView>) -> Seq<char>
    decreases files.len(),
{
    if files.len() == 0 {
        Seq::empty()
    } else {
        tree_of(files.drop_last()) + tree_line(files.last())
    }
}

/// The section of an entry; empty where it has no fragment.
pub open spec fn entry_section(entry: PromptEntryView) -> Seq<char> {
    match entry.fragment {
        Some(fragment) => section(entry.file, fragment),
        None => Seq::empty(),
    }
}

/// The files of the entries, in their order.
pub open spec fn files_of(entries: Seq<PromptEntryView>) -> Seq<FileDescriptorView> {
    entries.map_values(|entry: PromptEntryView| entry.file)
}

/// The sections of the entries, in their order.
pub open spec fn sections_text(entries: Seq<PromptEntryView>) -> Seq<char>
    decreases entries.len(),
{
    if entries.len() == 0 {
        Seq::empty()
    } else {
        sections_text(entries.drop_last()) + entry_section(entries.last())
    }
}

/// The prompt with the given tree and sections.
pub open spec fn prompt_of(tree: Seq<char>, sections: Seq<char>) -> Seq<char> {
    PREAMBLE@ + TREE_HEADING@ + tree + sections
}

/// The system prompt for the entries of a scan and their fragments: the
/// persona, the heading and the tree of all the files, then the sections.
pub open spec fn prompt_text(entries: Seq<PromptEntryView>) -> Seq<char> {
    prompt_of(tree_of(files_of(entries)), sections_text(entries))
}

/// `text` between double quotes, with what it holds escaped: the standard
/// library's `Debug` formatting of `str`, called through `format!` with the
/// format `{:?}`. The contract is believed, not proved. It claims that the
/// characters of `text` determine the result, to which it gives the name
/// `debug_form`, and nothing more.
#[verifier::external_body]
fn debug_quoted(text: &str) -> (r: String)
    ensures
        r@ == debug_form(text@),
{
    format!("{:?}", text)
}

/// The line that shows `file` in the tree.
pub fn render_tree_line(file: &FileDescriptor) -> (r: String)
    ensures
        r@ == tree_line(file@),
{
    let depth = file.depth();
    let levels = if depth >= 1 {
        depth - 1
    } else {
        0
    };
    let mut r = repeat(INDENT_MARKER, levels);
    r.append(file.name());
    r.append(LINE_END);
    r
}

/// The tree of the files: one line for each, in their order.
pub fn render_tree(files: &Vec<FileDescriptor>) -> (r: String)
    ensures
        r@ == tree_of(files.deep_view()),
{
    let ghost all = files.deep_view();
    let mut r = String::new();
    let mut i: usize = 0;
    while i < files.len()
        invariant
            i <= files.len(),
            all == files.deep_view(),
            r@ == tree_of(all.take(i as int)),
        decreases files.len() - i,
    {
        assert(all.take(i + 1).drop_last() == all.take(i as int));
        let line = render_tree_line(&files[i]);
        r.append(line.as_str());
        i += 1;
    }
    assert(all.take(i as int) == all);
    r
}

/// The prompt with the given tree and sections: the persona and the heading
/// go before them.
pub fn render_prompt(tree: &str, sections: &str) -> (r: String)
    ensures
        r@ == prompt_of(tree@, sections@),
{
    let mut r = String::from_str(PREAMBLE);
    r.append(TREE_HEADING);
    r.append(tree);
    r.append(sections);
    r
}

/// The section of a file that the chat service summarized, from the file's
/// name and the summary in its quoted form.
pub fn render_summary_section(name: &str, quoted: &str) -> (r: String)
    ensures
        r@ == header_line(name@) + summary_body(name@, quoted@),
{
    let mut r = String::from_str("# ");
    r.append(name);
    r.append(LINE_END);
    r.append(LINE_END);
    r.append(" ");
    r.append(name);
    r.append(" summary: ");
    r.append(quoted);
    r.append(LINE_END);
    r
}

/// The section of a source file, from the file's name and its compacted
/// lines.
pub fn render_source_section(name: &str, code: &str) -> (r: String)
    ensures
        r@ == header_line(name@) + source_body(code@),
{
    let mut r = String::from_str("# ");
    r.append(name);
    r.append(LINE_END);
    r.append(code);
    r.append(LINE_END);
    r
}

/// The section of `file` with the given fragment; empty where the file has
/// no strategy.
pub fn render_section(file: &FileDescriptor, fragment: &str) -> (r: String)
    ensures
        r@ == section(file@, fragment@),
{
    match strategy(file) {
        Some(Strategy::Remote) => {
            let quoted = debug_quoted(fragment);
            render_summary_section(file.name(), quoted.as_str())
        },
        Some(Strategy::Local) => render_source_section(file.name(), fragment),
        None => String::new(),
    }
}

/// The prompt while it is being put together. Lines of the tree and sections
/// can come in any order; each kind is kept in the order in which it came.
pub struct SystemPromptDraft {
    tree: String,
    sections: String,
}

/// A `SystemPromptDraft` as plain values.
pub struct SystemPromptDraftView {
    pub tree: Seq<char>,
    pub sections: Seq<char>,
}

impl View for SystemPromptDraft {
    type V = SystemPromptDraftView;

    closed spec fn view(&self) -> SystemPromptDraftView {
        SystemPromptDraftView { tree: self.tree@, sections: self.sections@ }
    }
}

impl SystemPromptDraft {
    /// A draft with an empty tree and no section.
    pub fn new() -> (r: SystemPromptDraft)
        ensures
            r@.tree == Seq::<char>::empty(),
            r@.sections == Seq::<char>::empty(),
    {
        SystemPromptDraft { tree: String::new(), sections: String::new() }
    }

    /// A draft with the tree of the files and no section.
    pub fn for_files(files: &Vec<FileDescriptor>) -> (r: SystemPromptDraft)
        ensures
            r@.tree == tree_of(files.deep_view()),
            r@.sections == Seq::<char>::empty(),
    {
        SystemPromptDraft { tree: render_tree(files), sections: String::new() }
    }

    /// Adds the line of `file` at the end of the tree.
    pub fn push_entry(&mut self, file: &FileDescriptor)
        ensures
            final(self)@.tree == old(self)@.tree + tree_line(file@),
            final(self)@.sections == old(self)@.sections,
    {
        let line = render_tree_line(file);
        self.tree.append(line.as_str());
    }

    /// Adds the section of `file`, made of `fragment`, after the sections
    /// that are there. Nothing is added for a file without a strategy.
    pub fn push_section(&mut self, file: &FileDescriptor, fragment: &str)
        ensures
            final(self)@.tree == old(self)@.tree,
            final(self)@.sections == old(self)@.sections + section(file@, fragment@),
    {
        let text = render_section(file, fragment);
        self.sections.append(text.as_str());
    }

    /// The prompt as the draft stands.
    pub fn text(&self) -> (r: String)
        ensures
            r@ == prompt_of(self@.tree, self@.sections),
    {
        render_prompt(self.tree.as_str(), self.sections.as_str())
    }

    /// The finished prompt; the draft is gone.
    pub fn finish(self) -> (r: String)
        ensures
            r@ == prompt_of(self@.tree, self@.sections),
    {
        self.text()
    }
}

/// The system prompt for the entries of a scan, each with its fragment if it
/// has one.
pub fn assemble(entries: &Vec<PromptEntry>) -> (r: String)
    ensures
        r@ == prompt_text(entries.deep_view()),
{
    let ghost all = entries.deep_view();
    let mut draft = SystemPromptDraft::new();
    let mut i: usize = 0;
    while i < entries.len()
        invariant
            i <= entries.len(),
            all == entries.deep_view(),
            draft@.tree == tree_of(files_of(all.take(i as int))),
            draft@.sections == sections_text(all.take(i as int)),
        decreases entries.len() - i,
    {
        assert(all.take(i + 1).drop_last() == all.take(i as int));
        assert(files_of(all.take(i + 1)).drop_last() == files_of(all.take(i as int)));
        let entry = &entries[i];
        draft.push_entry(&entry.file);
        match &entry.fragment {
            Some(fragment) => {
                draft.push_section(&entry.file, fragment.as_str());
            },
            None => {},
        }
        i += 1;
    }
    assert(all.take(i as int) == all);
    draft.finish()
}

/// The two entries show the same in a prompt: they agree in name, depth,
/// extension and fragment.
pub open spec fn same_content(a: PromptEntryView, b: PromptEntryView) -> bool {
    &&& a.file.name == b.file.name
    &&& a.file.depth == b.file.depth
    &&& a.file.extension == b.file.extension
    &&& a.fragment == b.fragment
}

proof fn lemma_same_parts(a: Seq<PromptEntryView>, b: Seq<PromptEntryView>)
    requires
        a.len() == b.len(),
        forall|i: int| 0 <= i < a.len() ==> same_content(#[trigger] a[i], b[i]),
    ensures
        tree_of(files_of(a)) == tree_of(files_of(b)),
        sections_text(a) == sections_text(b),
    decreases a.len(),
{
    if a.len() > 0 {
        lemma_same_parts(a.drop_last(), b.drop_last());
        assert(files_of(a).drop_last() == files_of(a.drop_last()));
        assert(files_of(b).drop_last() == files_of(b.drop_last()));
    }
}

/// The prompt depends on nothing but the names, depths and extensions of
/// the entries and on their fragments: two assemblies that agree in these
/// give the same text, character for character.
pub proof fn lemma_assembly_is_deterministic(a: Seq<PromptEntryView>, b: Seq<PromptEntryView>)
    requires
        a.len() == b.len(),
        forall|i: int| 0 <= i < a.len() ==> same_content(#[trigger] a[i], b[i]),
    ensures
        prompt_text(a) == prompt_text(b),
{
    lemma_same_parts(a, b);
}

} // verus!
