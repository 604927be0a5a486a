//! The file summarizer: which files get a fragment in the prompt, and how
//! the fragment is made.
//!
//! Documentation and build manifests are summarized by the chat service;
//! source files are compacted here.

use vstd::prelude::*;
use vstd::string::StringExecFns;

use crate::chat::ChatRequest;
use crate::chat::ChatRequestView;
use crate::chat::Message;
use crate::chat::MessageView;
use crate::chat::Model;
use crate::chat::Role;
use crate::scanner::FileDescriptor;
use crate::text::same_text;
use crate::text::starts_with;
use crate::text::trim;
use crate::text::trimmed;

verus! {

/// How the fragment of a file is made.
#[derive(Clone, Copy, Debug, PartialEq, Eq, Structural)]
pub enum Strategy {
    /// The chat service summarizes the file.
    Remote,
    /// Comments and blank lines are taken out of the file.
    Local,
}

/// The extension of a document.
pub const DOCUMENT_EXTENSION: &'static str = "md";

/// The extension of a build manifest.
pub const MANIFEST_EXTENSION: &'static str = "toml";

/// The extension of a source file.
pub const SOURCE_EXTENSION: &'static str = "rs";

/// The strategy for a file with this extension; `None` where the file gets no
/// fragment.
pub open spec fn strategy_for(extension: Option<Seq<char>>) -> Option<Strategy> {
    match extension {
        Some(e) => if e == DOCUMENT_EXTENSION@ || e == MANIFEST_EXTENSION@ {
            Some(Strategy::Remote)
        } else if e == SOURCE_EXTENSION@ {
            Some(Strategy::Local)
        } else {
            None
        },
        None => None,
    }
}

/// What begins a comment that fills a line.
pub const COMMENT_MARKER: &'static str = "//";

/// What ends a line.
pub const LINE_END: &'static str = "\n";

/// A line that compaction removes: blank once trimmed, or a comment.
pub open spec fn is_noise(line: Seq<char>) -> bool {
    trimmed(line).len() == 0 || COMMENT_MARKER@.is_prefix_of(trimmed(line))
}

/// The lines that compaction keeps: all but the noise, unchanged and in
/// their order.
pub open spec fn code_lines(lines: Seq<Seq<char>>) -> Seq<Seq<char>>
    decreases lines.len(),
{
    if lines.len() == 0 {
        Seq::empty()
    } else if is_noise(lines.last()) {
        code_lines(lines.drop_last())
    } else {
        code_lines(lines.drop_last()).push(lines.last())
    }
}

/// The lines as one text, each followed by a line end.
pub open spec fn text_of_lines(lines: Seq<Seq<char>>) -> Seq<char>
    decreases lines.len(),
{
    if lines.len() == 0 {
        Seq::empty()
    } else {
        text_of_lines(lines.drop_last()) + lines.last() + LINE_END@
    }
}

/// What the chat service is told to do with a file.
pub const SUMMARY_INSTRUCTION: &'static str =
    "Make a compact summary of the given input. if it is code, then give back only give back the code directly";

/// The request that asks for a summary of `text`.
pub open spec fn summary_request_for(text: Seq<char>) -> ChatRequestView {
    ChatRequestView {
        model: Model::Gpt4Turbo,
        messages: seq![
            MessageView { role: Role::System, content: SUMMARY_INSTRUCTION@ },
            MessageView { role: Role::User, content: text },
        ],
    }
}

/// `at` tells where in `lines` each line of `kept` stands: the positions
/// ascend, each holds the very line that was kept, and they are the
/// positions of the lines that are no noise, all of them.
pub open spec fn keeps_code_only(
    lines: Seq<Seq<char>>,
    kept: Seq<Seq<char>>,
    at: Seq<int>,
) -> bool {
    &&& at.len() == kept.len()
    &&& forall|k: int|
        0 <= k < at.len() ==> 0 <= #[trigger] at[k] < lines.len() && kept[k] == lines[at[k]]
    &&& forall|k: int, l: int| 0 <= k < l < at.len() ==> #[trigger] at[k] < #[trigger] at[l]
    &&& forall|i: int|
        0 <= i < lines.len() ==> (at.contains(i) <==> !is_noise(#[trigger] lines[i]))
}

/// The positions of the lines of `lines` that are no noise, ascending.
spec fn code_positions(lines: Seq<Seq<char>>) -> Seq<int>
    decreases lines.len(),
{
    if lines.len() == 0 {
        Seq::empty()
    } else if is_noise(lines.last()) {
        code_positions(lines.drop_last())
    } else {
        code_positions(lines.drop_last()).push(lines.len() - 1)
    }
}

proof fn lemma_code_positions(lines: Seq<Seq<char>>)
    ensures
        keeps_code_only(lines, code_lines(lines), code_positions(lines)),
    decreases lines.len(),
{
    if lines.len() > 0 {
        let front = lines.drop_last();
        let at0 = code_positions(front);
        let at = code_positions(lines);
        lemma_code_positions(front);
        assert forall|i: int| 0 <= i < lines.len() implies (at.contains(i) <==> !is_noise(
            #[trigger] lines[i],
        )) by {
            if i < front.len() {
                // A position before the last line is among the positions of
                // the front, and the other way round.
                assert(front[i] == lines[i]);
                if at0.contains(i) {
                    let k = choose|k: int| 0 <= k < at0.len() && at0[k] == i;
                    assert(at[k] == i);
                }
                if at.contains(i) {
                    let k = choose|k: int| 0 <= k < at.len() && at[k] == i;
                    assert(at0[k] == i);
                }
            } else if !is_noise(lines.last()) {
                assert(at[at.len() - 1] == i);
            } else if at.contains(i) {
                let k = choose|k: int| 0 <= k < at0.len() && at0[k] == i;
                assert(at0[k] < front.len());
            }
        }
    }
}

/// Compaction removes the noise and nothing else. Of the lines of a file,
/// the result holds exactly those that are neither blank nor a comment once
/// trimmed, each with its exact text, in the order in which they stood.
pub proof fn lemma_compaction_keeps_code_only(lines: Seq<Seq<char>>)
    ensures
        exists|at: Seq<int>| keeps_code_only(lines, code_lines(lines), at),
        forall|k: int|
            0 <= k < code_lines(lines).len() ==> !is_noise(#[trigger] code_lines(lines)[k]),
{
    lemma_code_positions(lines);
    let at = code_positions(lines);
    assert forall|k: int| 0 <= k < code_lines(lines).len() implies !is_noise(
        #[trigger] code_lines(lines)[k],
    ) by {
        assert(at.contains(at[k]));
    }
}

/// The strategy for `file`; `None` where it gets no fragment.
pub fn strategy(file: &FileDescriptor) -> (r: Option<Strategy>)
    ensures
        r == strategy_for(file@.extension),
{
    match file.extension() {
        Some(e) => {
            if same_text(e, DOCUMENT_EXTENSION) || same_text(e, MANIFEST_EXTENSION) {
                Some(Strategy::Remote)
            } else if same_text(e, SOURCE_EXTENSION) {
                Some(Strategy::Local)
            } else {
                None
            }
        },
        None => None,
    }
}

/// Whether compaction removes `line`.
pub fn is_noise_line(line: &str) -> (r: bool)
    ensures
        r == is_noise(line@),
{
    let t = trim(line);
    t.is_empty() || starts_with(t, COMMENT_MARKER)
}

/// The lines as one text, each followed by a line end.
pub fn join_lines(lines: &Vec<String>) -> (r: String)
    ensures
        r@ == text_of_lines(lines.deep_view()),
{
    let ghost all = lines.deep_view();
    let mut r = String::new();
    let mut i: usize = 0;
    while i < lines.len()
        invariant
            i <= lines.len(),
            all == lines.deep_view(),
            r@ == text_of_lines(all.take(i as int)),
        decreases lines.len() - i,
    {
        assert(all.take(i + 1).drop_last() == all.take(i as int));
        r.append(lines[i].as_str());
        r.append(LINE_END);
        i += 1;
    }
    assert(all.take(i as int) == all);
    r
}

/// Local compaction: the lines of a source file without the comments that
/// fill a line and without the blank lines. Every other line is kept as it
/// is, in its place among the others, and followed by a line end.
pub fn compact(lines: &Vec<String>) -> (r: String)
    ensures
        r@ == text_of_lines(code_lines(lines.deep_view())),
{
    let ghost all = lines.deep_view();
    let mut r = String::new();
    let mut i: usize = 0;
    while i < lines.len()
        invariant
            i <= lines.len(),
            all == lines.deep_view(),
            r@ == text_of_lines(code_lines(all.take(i as int))),
        decreases lines.len() - i,
    {
        assert(all.take(i + 1).drop_last() == all.take(i as int));
        if !is_noise_line(lines[i].as_str()) {
            let ghost kept = code_lines(all.take(i as int));
            assert(kept.push(all[i as int]).drop_last() == kept);
            r.append(lines[i].as_str());
            r.append(LINE_END);
        }
        i += 1;
    }
    assert(all.take(i as int) == all);
    r
}

/// The request that asks the chat service for a summary of `text`: the fixed
/// instruction as the system message, the text as the user's.
pub fn summary_request(text: String) -> (r: ChatRequest)
    ensures
        r@ == summary_request_for(text@),
{
    let mut messages: Vec<Message> = Vec::new();
    messages.push(
        Message {
            role: Role::System,
            content: String::from_str(SUMMARY_INSTRUCTION),
        },
    );
    messages.push(Message { role: Role::User, content: text });
    assert(messages.deep_view() =~= summary_request_for(text@).messages);
    ChatRequest { model: Model::Gpt4Turbo, messages }
}

} // verus!
