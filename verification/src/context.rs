//! Context assembly, step by step: the builder says what it needs next, the
//! caller gets it, and the builder takes it in.
//!
//! The builder goes through the files of a scan in their order. For each
//! file with a strategy it asks for the lines of the file; a source file is
//! compacted at once, a document goes to the chat service first. A file
//! that cannot be read counts as empty. A call that gives no completion ends
//! the assembly: no prompt is made.

use vstd::prelude::*;

use crate::assembler::entry_section;
use crate::assembler::files_of;
use crate::assembler::prompt_of;
use crate::assembler::prompt_text;
use crate::assembler::section;
use crate::assembler::sections_text;
use crate::assembler::tree_of;
use crate::assembler::PromptEntryView;
use crate::assembler::SystemPromptDraft;
use crate::assembler::SystemPromptDraftView;
use crate::chat::completion_of;
use crate::chat::first_choice;
use crate::chat::ChatRequest;
use crate::chat::ChatRequestView;
use crate::chat::RemoteError;
use crate::chat::RemoteErrorView;
use crate::chat::RemoteOutcome;
use crate::chat::RemoteOutcomeView;
use crate::scanner::readable;
use crate::scanner::readable_entries;
use crate::scanner::scan;
use crate::scanner::scanned;
use crate::scanner::FileDescriptor;
use crate::scanner::FileDescriptorView;
use crate::scanner::WalkEntry;
use crate::summarizer::code_lines;
use crate::summarizer::compact;
use crate::summarizer::join_lines;
use crate::summarizer::strategy;
use crate::summarizer::strategy_for;
use crate::summarizer::summary_request;
use crate::summarizer::summary_request_for;
use crate::summarizer::text_of_lines;
use crate::summarizer::Strategy;

verus! {

/// What the builder waits for.
#[derive(Debug)]
pub enum Stage {
    /// The lines of the file at hand, or the end where no file is left.
    Reading,
    /// The summary of the file at hand, whose text the stage holds.
    Summarizing(String),
    /// Nothing: the call for the file at this path gave no completion, and
    /// the assembly has ended.
    Failed { path: String, error: RemoteError },
}

/// A `Stage` as plain values.
pub enum StageView {
    Reading,
    Summarizing(Seq<char>),
    Failed { path: Seq<char>, error: RemoteErrorView },
}

impl View for Stage {
    type V = StageView;

    open spec fn view(&self) -> StageView {
        match self {
            Stage::Reading => StageView::Reading,
            Stage::Summarizing(text) => StageView::Summarizing(text@),
            Stage::Failed { path, error } => StageView::Failed { path: path@, error: error@ },
        }
    }
}

/// What the caller is to do next.
#[derive(Debug)]
pub enum Action {
    /// Read the lines of the file at this path and hand them to `file_read`.
    ReadFile(String),
    /// Send this request and hand the outcome to `summarized`.
    Summarize(ChatRequest),
    /// Nothing more: this is the prompt.
    Finish(String),
    /// Nothing more: the assembly has failed at the file at this path, for
    /// this reason.
    Fail { path: String, error: RemoteError },
}

/// An `Action` as plain values.
pub enum ActionView {
    ReadFile(Seq<char>),
    Summarize(ChatRequestView),
    Finish(Seq<char>),
    Fail { path: Seq<char>, error: RemoteErrorView },
}

impl View for Action {
    type V = ActionView;

    open spec fn view(&self) -> ActionView {
        match self {
            Action::ReadFile(path) => ActionView::ReadFile(path@),
            Action::Summarize(request) => ActionView::Summarize(request@),
            Action::Finish(prompt) => ActionView::Finish(prompt@),
            Action::Fail { path, error } => ActionView::Fail { path: path@, error: error@ },
        }
    }
}

/// The assembly in progress: the files of the scan, the position of the file
/// at hand, the stage, and the draft of the prompt.
pub struct ContextBuilder {
    files: Vec<FileDescriptor>,
    position: usize,
    stage: Stage,
    draft: SystemPromptDraft,
}

/// A `ContextBuilder` as plain values.
pub struct ContextBuilderView {
    pub files: Seq<FileDescriptorView>,
    pub position: nat,
    pub stage: StageView,
    pub draft: SystemPromptDraftView,
}

impl View for ContextBuilder {
    type V = ContextBuilderView;

    closed spec fn view(&self) -> ContextBuilderView {
        ContextBuilderView {
            files: self.files.deep_view(),
            position: self.position as nat,
            stage: self.stage@,
            draft: self.draft@,
        }
    }
}

/// The position of the first file at or after `from` that has a strategy;
/// the number of files where there is none.
pub open spec fn next_eligible(files: Seq<FileDescriptorView>, from: nat) -> nat
    decreases files.len() - from,
{
    if from >= files.len() {
        files.len()
    } else if strategy_for(files[from as int].extension) is Some {
        from
    } else {
        next_eligible(files, from + 1)
    }
}

/// The lines that were read, or none for a file that could not be read.
pub open spec fn lines_or_none(lines: Option<Seq<Seq<char>>>) -> Seq<Seq<char>> {
    match lines {
        Some(l) => l,
        None => Seq::empty(),
    }
}

/// The builder at the start: at the first file with a strategy, waiting for
/// its lines.
pub open spec fn started(files: Seq<FileDescriptorView>) -> ContextBuilderView {
    ContextBuilderView {
        files,
        position: next_eligible(files, 0),
        stage: StageView::Reading,
        draft: SystemPromptDraftView { tree: tree_of(files), sections: Seq::empty() },
    }
}

/// The builder with one more section, at the next file with a strategy.
pub open spec fn advanced(state: ContextBuilderView, added: Seq<char>) -> ContextBuilderView {
    ContextBuilderView {
        files: state.files,
        position: next_eligible(state.files, state.position + 1),
        stage: StageView::Reading,
        draft: SystemPromptDraftView {
            tree: state.draft.tree,
            sections: state.draft.sections + added,
        },
    }
}

/// The builder in another stage.
pub open spec fn staged(state: ContextBuilderView, stage: StageView) -> ContextBuilderView {
    ContextBuilderView {
        files: state.files,
        position: state.position,
        stage,
        draft: state.draft,
    }
}

/// The builder after the lines of the file at hand came in. A source file
/// gets its section, made of the compacted lines, and the builder moves on;
/// a document waits for its summary. A builder that waits for no lines
/// stays as it is.
pub open spec fn after_read(
    state: ContextBuilderView,
    lines: Option<Seq<Seq<char>>>,
) -> ContextBuilderView {
    if state.stage is Reading && state.position < state.files.len() {
        let file = state.files[state.position as int];
        match strategy_for(file.extension) {
            Some(Strategy::Remote) => staged(
                state,
                StageView::Summarizing(text_of_lines(lines_or_none(lines))),
            ),
            Some(Strategy::Local) => advanced(
                state,
                section(file, text_of_lines(code_lines(lines_or_none(lines)))),
            ),
            None => advanced(state, Seq::empty()),
        }
    } else {
        state
    }
}

/// The builder after the outcome of the call came in. With a completion the
/// file at hand gets its section and the builder moves on; without one the
/// assembly has failed. A builder that waits for no summary stays as it is.
pub open spec fn after_summary(
    state: ContextBuilderView,
    outcome: RemoteOutcomeView,
) -> ContextBuilderView {
    if state.stage is Summarizing && state.position < state.files.len() {
        match completion_of(outcome) {
            Ok(summary) => advanced(state, section(state.files[state.position as int], summary)),
            Err(error) => staged(
                state,
                StageView::Failed { path: state.files[state.position as int].path, error },
            ),
        }
    } else {
        state
    }
}

/// What the caller is to do next.
pub open spec fn action_of(state: ContextBuilderView) -> ActionView {
    match state.stage {
        StageView::Failed { path, error } => ActionView::Fail { path, error },
        StageView::Summarizing(text) => if state.position < state.files.len() {
            ActionView::Summarize(summary_request_for(text))
        } else {
            ActionView::Finish(prompt_of(state.draft.tree, state.draft.sections))
        },
        StageView::Reading => if state.position < state.files.len() {
            ActionView::ReadFile(state.files[state.position as int].path)
        } else {
            ActionView::Finish(prompt_of(state.draft.tree, state.draft.sections))
        },
    }
}

/// What the caller brings for one file: its lines, or none where it could
/// not be read, and the outcome of the call that is to summarize it. The
/// outcome matters for a document only.
pub struct FileInput {
    pub lines: Option<Seq<Seq<char>>>,
    pub outcome: RemoteOutcomeView,
}

/// The fragment that the summarizer makes of a file from what the caller
/// brings for it: the compacted lines of a source file, the completion for a
/// document. A file without a strategy has none, nor has a document whose
/// call gave no completion.
pub open spec fn fragment_of(file: FileDescriptorView, input: FileInput) -> Option<Seq<char>> {
    match strategy_for(file.extension) {
        Some(Strategy::Remote) => match completion_of(input.outcome) {
            Ok(summary) => Some(summary),
            Err(_) => None,
        },
        Some(Strategy::Local) => Some(text_of_lines(code_lines(lines_or_none(input.lines)))),
        None => None,
    }
}

/// The files, each with its fragment.
pub open spec fn entries_of(files: Seq<FileDescriptorView>, inputs: Seq<FileInput>) -> Seq<
    PromptEntryView,
> {
    Seq::new(
        files.len(),
        |i: int| PromptEntryView { file: files[i], fragment: fragment_of(files[i], inputs[i]) },
    )
}

/// The call for file `i` gives no completion, though the file is a document.
pub open spec fn fails_at(files: Seq<FileDescriptorView>, inputs: Seq<FileInput>, i: int) -> bool {
    &&& 0 <= i < files.len()
    &&& strategy_for(files[i].extension) == Some(Strategy::Remote)
    &&& completion_of(inputs[i].outcome) is Err
}

/// The builder after the caller did what the builder asked for the file at
/// hand: it read the file and, for a document, made the call.
pub open spec fn served(state: ContextBuilderView, input: FileInput) -> ContextBuilderView {
    let read = after_read(state, input.lines);
    if read.stage is Summarizing {
        after_summary(read, input.outcome)
    } else {
        read
    }
}

/// The builder after the caller served it file by file, until the builder
/// asks for no more.
pub open spec fn run(state: ContextBuilderView, inputs: Seq<FileInput>) -> ContextBuilderView
    recommends
        inputs.len() == state.files.len(),
    decreases state.files.len() - state.position,
{
    if state.stage is Reading && state.position < state.files.len() {
        let next = served(state, inputs[state.position as int]);
        if next.position > state.position {
            proof {
                lemma_next_eligible(state.files, state.position + 1);
            }
            run(next, inputs)
        } else {
            next
        }
    } else {
        state
    }
}

/// `next_eligible` finds the first file with a strategy at or after `from`:
/// it skips files without one only, and stops within the files.
pub proof fn lemma_next_eligible(files: Seq<FileDescriptorView>, from: nat)
    ensures
        from <= files.len() ==> from <= next_eligible(files, from) <= files.len(),
        next_eligible(files, from) < files.len() ==> strategy_for(
            files[next_eligible(files, from) as int].extension,
        ) is Some,
        forall|i: int|
            from <= i < next_eligible(files, from) ==> strategy_for(
                (#[trigger] files[i]).extension,
            ) is None,
    decreases files.len() - from,
{
    if from < files.len() && strategy_for(files[from as int].extension) is None {
        lemma_next_eligible(files, from + 1);
    }
}

/// Entries without a section add nothing to the sections.
proof fn lemma_sections_skip(entries: Seq<PromptEntryView>, from: int, to: int)
    requires
        0 <= from <= to <= entries.len(),
        forall|i: int| from <= i < to ==> entry_section(#[trigger] entries[i]).len() == 0,
    ensures
        sections_text(entries.take(to)) == sections_text(entries.take(from)),
    decreases to - from,
{
    if from < to {
        lemma_sections_skip(entries, from, to - 1);
        assert(entries.take(to).drop_last() == entries.take(to - 1));
    }
}

/// The files from `from` up to the next one with a strategy have no section.
proof fn lemma_skipped_files_have_no_section(
    files: Seq<FileDescriptorView>,
    inputs: Seq<FileInput>,
    from: nat,
)
    requires
        from <= files.len(),
    ensures
        sections_text(entries_of(files, inputs).take(next_eligible(files, from) as int))
            == sections_text(entries_of(files, inputs).take(from as int)),
{
    let entries = entries_of(files, inputs);
    let to = next_eligible(files, from) as int;
    lemma_next_eligible(files, from);
    assert forall|i: int| from <= i < to implies entry_section(#[trigger] entries[i]).len()
        == 0 by {
        assert(strategy_for(files[i].extension) is None);
    }
    lemma_sections_skip(entries, from as int, to);
}

/// The builder stands at a file with a strategy, or past the last file, and
/// holds the sections of the files before that place.
spec fn on_course(
    state: ContextBuilderView,
    files: Seq<FileDescriptorView>,
    inputs: Seq<FileInput>,
) -> bool {
    &&& state.files == files
    &&& state.stage is Reading
    &&& state.position <= files.len()
    &&& state.position < files.len() ==> strategy_for(
        files[state.position as int].extension,
    ) is Some
    &&& state.draft.tree == tree_of(files)
    &&& state.draft.sections == sections_text(
        entries_of(files, inputs).take(state.position as int),
    )
}

/// No call fails for a file at or after `from` and before `to`.
spec fn none_fails(
    files: Seq<FileDescriptorView>,
    inputs: Seq<FileInput>,
    from: int,
    to: int,
) -> bool {
    forall|i: int| from <= i < to ==> !#[trigger] fails_at(files, inputs, i)
}

/// The stage of an assembly that has failed at file `k`.
spec fn failure_at(files: Seq<FileDescriptorView>, inputs: Seq<FileInput>, k: int) -> StageView {
    StageView::Failed { path: files[k].path, error: completion_of(inputs[k].outcome)->Err_0 }
}

/// Serving the file at hand keeps the builder on course and moves it on,
/// unless the call for that file fails: then the builder has failed there.
proof fn lemma_served_on_course(
    state: ContextBuilderView,
    files: Seq<FileDescriptorView>,
    inputs: Seq<FileInput>,
)
    requires
        on_course(state, files, inputs),
        state.position < files.len(),
        inputs.len() == files.len(),
    ensures
        fails_at(files, inputs, state.position as int) ==> {
            let next = served(state, inputs[state.position as int]);
            &&& next.stage == failure_at(files, inputs, state.position as int)
            &&& next.position == state.position
        },
        !fails_at(files, inputs, state.position as int) ==> {
            let next = served(state, inputs[state.position as int]);
            &&& on_course(next, files, inputs)
            &&& next.position > state.position
        },
{
    let p = state.position as int;
    let entries = entries_of(files, inputs);
    if !fails_at(files, inputs, p) {
        // The section of the file at hand comes in, and the files up to the
        // next one with a strategy bring none.
        assert(entries.take(p + 1).drop_last() == entries.take(p));
        lemma_next_eligible(files, (p + 1) as nat);
        lemma_skipped_files_have_no_section(files, inputs, (p + 1) as nat);
    }
}

/// A builder on course, served to the end, has read every file and holds
/// all the sections, unless a call fails: then it has failed at the first
/// file whose call fails.
proof fn lemma_run_on_course(
    state: ContextBuilderView,
    files: Seq<FileDescriptorView>,
    inputs: Seq<FileInput>,
)
    requires
        on_course(state, files, inputs),
        inputs.len() == files.len(),
    ensures
        none_fails(files, inputs, state.position as int, files.len() as int) ==> {
            &&& on_course(run(state, inputs), files, inputs)
            &&& run(state, inputs).position == files.len()
        },
        forall|k: int|
            state.position <= k < files.len() && #[trigger] fails_at(files, inputs, k)
                && none_fails(files, inputs, state.position as int, k) ==> run(state, inputs).stage
                == failure_at(files, inputs, k),
    decreases files.len() - state.position,
{
    if state.position < files.len() {
        let p = state.position as int;
        lemma_served_on_course(state, files, inputs);
        if !fails_at(files, inputs, p) {
            // A later failure lies at the next file with a strategy or after
            // it, as the files in between are no documents.
            lemma_run_on_course(served(state, inputs[p]), files, inputs);
            lemma_next_eligible(files, (p + 1) as nat);
        }
    }
}

/// The assembly, served to its end, makes the prompt of the files and their
/// fragments: the persona, the tree of all the files, and the sections of
/// the files that have a fragment, in the order of the scan. This holds
/// where every call for a document gives a completion.
pub proof fn lemma_assembly_makes_the_prompt(
    files: Seq<FileDescriptorView>,
    inputs: Seq<FileInput>,
)
    requires
        inputs.len() == files.len(),
        forall|i: int| 0 <= i < files.len() ==> !fails_at(files, inputs, i),
    ensures
        action_of(run(started(files), inputs)) == ActionView::Finish(
            prompt_text(entries_of(files, inputs)),
        ),
{
    let entries = entries_of(files, inputs);
    lemma_next_eligible(files, 0);
    lemma_skipped_files_have_no_section(files, inputs, 0);
    lemma_run_on_course(started(files), files, inputs);
    assert(entries.take(files.len() as int) == entries);
    assert(files_of(entries) == files);
}

/// The assembly ends at the first document whose call gives no completion:
/// the builder then asks for nothing more and reports that failure with the
/// path of the document, and no prompt is made.
pub proof fn lemma_assembly_fails_at_the_first_failure(
    files: Seq<FileDescriptorView>,
    inputs: Seq<FileInput>,
    k: int,
)
    requires
        inputs.len() == files.len(),
        fails_at(files, inputs, k),
        forall|i: int| 0 <= i < k ==> !fails_at(files, inputs, i),
    ensures
        action_of(run(started(files), inputs)) == (ActionView::Fail {
            path: files[k].path,
            error: completion_of(inputs[k].outcome)->Err_0,
        }),
{
    lemma_next_eligible(files, 0);
    lemma_skipped_files_have_no_section(files, inputs, 0);
    lemma_run_on_course(started(files), files, inputs);
}

/// The position of the first file at or after `from` that has a strategy.
fn find_eligible(files: &Vec<FileDescriptor>, from: usize) -> (r: usize)
    ensures
        r == next_eligible(files.deep_view(), from as nat),
{
    let mut i: usize = from;
    while i < files.len() && strategy(&files[i]).is_none()
        invariant
            next_eligible(files.deep_view(), from as nat) == next_eligible(
                files.deep_view(),
                i as nat,
            ),
        decreases files.len() - i,
    {
        i += 1;
    }
    if i < files.len() {
        i
    } else {
        files.len()
    }
}

impl ContextBuilder {
    /// The builder for the files of a scan.
    pub fn start(files: Vec<FileDescriptor>) -> (r: ContextBuilder)
        ensures
            r@ == started(files.deep_view()),
    {
        let position = find_eligible(&files, 0);
        let draft = SystemPromptDraft::for_files(&files);
        ContextBuilder { files, position, stage: Stage::Reading, draft }
    }

    /// The builder for a directory listing as the walk gave it: the entries
    /// that could not be read are passed over, and the rest is scanned.
    pub fn for_listing(entries: &Vec<Option<WalkEntry>>) -> (r: ContextBuilder)
        ensures
            r@ == started(scanned(readable_entries(entries.deep_view()))),
    {
        ContextBuilder::start(scan(&readable(entries)))
    }

    /// What the caller is to do next.
    pub fn action(&self) -> (r: Action)
        ensures
            r@ == action_of(self@),
    {
        match &self.stage {
            Stage::Failed { path, error } => Action::Fail {
                path: path.clone(),
                error: error.clone(),
            },
            Stage::Summarizing(text) => {
                if self.position < self.files.len() {
                    Action::Summarize(summary_request(text.clone()))
                } else {
                    self.finish()
                }
            },
            Stage::Reading => {
                if self.position < self.files.len() {
                    Action::ReadFile(self.files[self.position].path().to_owned())
                } else {
                    self.finish()
                }
            },
        }
    }

    fn finish(&self) -> (r: Action)
        ensures
            r@ == ActionView::Finish(prompt_of(self@.draft.tree, self@.draft.sections)),
    {
        Action::Finish(self.draft.text())
    }

    fn advance(&mut self, fragment: &str)
        requires
            old(self).position < old(self).files.len(),
        ensures
            final(self)@ == advanced(
                old(self)@,
                section(old(self)@.files[old(self)@.position as int], fragment@),
            ),
    {
        self.draft.push_section(&self.files[self.position], fragment);
        self.position = find_eligible(&self.files, self.position + 1);
        self.stage = Stage::Reading;
    }

    /// Takes in the lines of the file at hand; `None` stands for a file that
    /// could not be read, which counts as an empty one.
    pub fn file_read(&mut self, lines: Option<Vec<String>>)
        ensures
            final(self)@ == after_read(old(self)@, lines.deep_view()),
    {
        let waits = match &self.stage {
            Stage::Reading => self.position < self.files.len(),
            _ => false,
        };
        if !waits {
            return ;
        }
        let content = match lines {
            Some(l) => l,
            None => Vec::new(),
        };
        match strategy(&self.files[self.position]) {
            Some(Strategy::Remote) => {
                self.stage = Stage::Summarizing(join_lines(&content));
            },
            Some(Strategy::Local) => {
                let code = compact(&content);
                self.advance(code.as_str());
            },
            None => {
                self.advance("");
            },
        }
    }

    /// Takes in the outcome of the call that was to summarize the file at
    /// hand.
    pub fn summarized(&mut self, outcome: RemoteOutcome)
        ensures
            final(self)@ == after_summary(old(self)@, outcome@),
    {
        let waits = match &self.stage {
            Stage::Summarizing(_) => self.position < self.files.len(),
            _ => false,
        };
        if !waits {
            return ;
        }
        match first_choice(outcome) {
            Ok(summary) => {
                self.advance(summary.as_str());
            },
            Err(e) => {
                let path = self.files[self.position].path().to_owned();
                self.stage = Stage::Failed { path, error: e };
            },
        }
    }
}

} // verus!
