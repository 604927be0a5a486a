//! The directory scanner: from the depth-first listing of a directory tree to
//! the entries that belong in the prompt.
//!
//! A listing names every entry after its parent and before its next sibling,
//! each with its depth below the root, which has depth 0. The scanner leaves
//! out the root, every entry with an excluded name, and all that lies below
//! such an entry.

use vstd::prelude::*;
use vstd::string::StrSliceExecFns;

use crate::text::chars_of;
use crate::text::same_text;
use crate::text::starts_with;

verus! {

/// One entry of a directory listing, as the walk over the file system met it.
#[derive(Debug)]
pub struct WalkEntry {
    /// Where the entry lies.
    pub path: String,
    /// The last component of the path.
    pub name: String,
    /// How many levels below the root the entry lies; 0 for the root itself.
    pub depth: usize,
    /// Whether the entry is a regular file.
    pub is_file: bool,
}

/// A `WalkEntry` as plain values.
pub struct WalkEntryView {
    pub path: Seq<char>,
    pub name: Seq<char>,
    pub depth: nat,
    pub is_file: bool,
}

impl View for WalkEntry {
    type V = WalkEntryView;

    open spec fn view(&self) -> WalkEntryView {
        WalkEntryView {
            path: self.path@,
            name: self.name@,
            depth: self.depth as nat,
            is_file: self.is_file,
        }
    }
}

impl DeepView for WalkEntry {
    type V = WalkEntryView;

    open spec fn deep_view(&self) -> WalkEntryView {
        self@
    }
}

/// An entry that the scanner yields. Only a file carries an extension.
#[derive(Debug)]
pub struct FileDescriptor {
    path: String,
    name: String,
    depth: usize,
    extension: Option<String>,
}

/// A `FileDescriptor` as plain values.
pub struct FileDescriptorView {
    pub path: Seq<char>,
    pub name: Seq<char>,
    pub depth: nat,
    pub extension: Option<Seq<char>>,
}

impl View for FileDescriptor {
    type V = FileDescriptorView;

    closed spec fn view(&self) -> FileDescriptorView {
        FileDescriptorView {
            path: self.path@,
            name: self.name@,
            depth: self.depth as nat,
            extension: match self.extension {
                Some(e) => Some(e@),
                None => None,
            },
        }
    }
}

impl DeepView for FileDescriptor {
    type V = FileDescriptorView;

    open spec fn deep_view(&self) -> FileDescriptorView {
        self@
    }
}

/// The prefix that marks a hidden entry.
pub const HIDDEN_PREFIX: &'static str = ".";

/// The name of the directory that holds build output.
pub const BUILD_DIRECTORY: &'static str = "target";

/// Whether an entry of this name is left out of the scan.
pub open spec fn excluded(name: Seq<char>) -> bool {
    HIDDEN_PREFIX@.is_prefix_of(name) || name == BUILD_DIRECTORY@
}

/// The position of the last `c` in `s`, or -1 where `s` holds none.
pub open spec fn last_position(s: Seq<char>, c: char) -> int
    decreases s.len(),
{
    if s.len() == 0 {
        -1
    } else if s.last() == c {
        s.len() - 1
    } else {
        last_position(s.drop_last(), c)
    }
}

/// The extension of a file name: what follows its last dot. A name without a
/// dot has none, nor has one whose only dot comes first, nor the name `..`.
pub open spec fn file_extension(name: Seq<char>) -> Option<Seq<char>> {
    let dot = last_position(name, '.');
    if dot <= 0 || name == seq!['.', '.'] {
        None
    } else {
        Some(name.subrange(dot + 1, name.len() as int))
    }
}

/// The descriptor that stands for a listed entry.
pub open spec fn described(entry: WalkEntryView) -> FileDescriptorView {
    FileDescriptorView {
        path: entry.path,
        name: entry.name,
        depth: entry.depth,
        extension: if entry.is_file {
            file_extension(entry.name)
        } else {
            None
        },
    }
}

/// Entry `i` lies below the root and has an excluded name: the scan leaves it
/// out and does not descend into it.
pub open spec fn is_pruning_point(entries: Seq<WalkEntryView>, i: int) -> bool {
    0 <= i < entries.len() && entries[i].depth >= 1 && excluded(entries[i].name)
}

/// Entry `j` is entry `i` or lies in the subtree below it: every entry after
/// `i` up to `j` is deeper than `i`.
pub open spec fn encloses(entries: Seq<WalkEntryView>, i: int, j: int) -> bool {
    &&& 0 <= i <= j < entries.len()
    &&& forall|k: int| i < k <= j ==> (#[trigger] entries[k]).depth > entries[i].depth
}

/// Entry `j` is a pruning point or lies below one.
pub open spec fn is_pruned(entries: Seq<WalkEntryView>, j: int) -> bool {
    exists|i: int| is_pruning_point(entries, i) && #[trigger] encloses(entries, i, j)
}

/// Entry `j` is part of the scan.
pub open spec fn is_yielded(entries: Seq<WalkEntryView>, j: int) -> bool {
    0 <= j < entries.len() && entries[j].depth >= 1 && !is_pruned(entries, j)
}

/// The descriptors of the yielded entries among the first `n`, in the order
/// of the listing.
pub open spec fn scanned_upto(entries: Seq<WalkEntryView>, n: nat) -> Seq<FileDescriptorView>
    decreases n,
{
    if n == 0 {
        Seq::empty()
    } else {
        let before = scanned_upto(entries, (n - 1) as nat);
        if is_yielded(entries, n - 1) {
            before.push(described(entries[n - 1]))
        } else {
            before
        }
    }
}

/// What the scan of a listing yields.
pub open spec fn scanned(entries: Seq<WalkEntryView>) -> Seq<FileDescriptorView> {
    scanned_upto(entries, entries.len())
}

/// Whether an entry of this name is left out of the scan: a hidden entry, or
/// the directory of build output.
pub fn is_excluded(name: &str) -> (r: bool)
    ensures
        r == excluded(name@),
{
    starts_with(name, HIDDEN_PREFIX) || same_text(name, BUILD_DIRECTORY)
}

/// The extension of a file name.
pub fn extension_of(name: &str) -> (r: Option<String>)
    ensures
        r.deep_view() == file_extension(name@),
{
    let v = chars_of(name);
    let n = v.len();
    let mut i: usize = n;
    assert(v@.take(n as int) == v@);
    while i > 0 && v[i - 1] != '.'
        invariant
            i <= n == v.len(),
            last_position(v@, '.') == last_position(v@.take(i as int), '.'),
        decreases i,
    {
        assert(v@.take(i as int).drop_last() == v@.take(i - 1));
        i -= 1;
    }
    // The last dot, if there is one, stands right before `i`.
    if i <= 1 {
        // No dot at all, or the only dot comes first.
        None
    } else if n == 2 && v[0] == '.' {
        assert(v@ == seq!['.', '.']);
        None
    } else {
        assert(v@ != seq!['.', '.']) by {
            if v@.len() == 2 {
                assert(v@[0] != '.');
            }
        }
        Some(name.substring_char(i, n).to_owned())
    }
}

/// The entries that the walk could read, in their order. An entry that it
/// could not read is `None`.
pub open spec fn readable_entries(entries: Seq<Option<WalkEntryView>>) -> Seq<WalkEntryView>
    decreases entries.len(),
{
    if entries.len() == 0 {
        Seq::empty()
    } else {
        match entries.last() {
            Some(entry) => readable_entries(entries.drop_last()).push(entry),
            None => readable_entries(entries.drop_last()),
        }
    }
}

/// The listing without the entries that the walk could not read: those are
/// passed over, and the rest stays in its order.
pub fn readable(entries: &Vec<Option<WalkEntry>>) -> (r: Vec<WalkEntry>)
    ensures
        r.deep_view() == readable_entries(entries.deep_view()),
{
    let ghost all = entries.deep_view();
    let mut out: Vec<WalkEntry> = Vec::new();
    let mut i: usize = 0;
    while i < entries.len()
        invariant
            i <= entries.len(),
            all == entries.deep_view(),
            out.deep_view() == readable_entries(all.take(i as int)),
        decreases entries.len() - i,
    {
        assert(all.take(i + 1).drop_last() == all.take(i as int));
        match &entries[i] {
            Some(entry) => {
                out.push(
                    WalkEntry {
                        path: entry.path.clone(),
                        name: entry.name.clone(),
                        depth: entry.depth,
                        is_file: entry.is_file,
                    },
                );
            },
            None => {},
        }
        i += 1;
    }
    assert(all.take(i as int) == all);
    out
}

/// Some entry after `i` and before `n` is no deeper than `i`: the subtree
/// below `i` has ended before `n`.
spec fn ends_before(entries: Seq<WalkEntryView>, i: int, n: int) -> bool {
    exists|k: int| i < k < n && (#[trigger] entries[k]).depth <= entries[i].depth
}

/// The state of a scan that has read the first `n` entries: `skip` holds the
/// depth of the pruning point whose subtree the scan is in, if it is in one,
/// and `head` is where that pruning point stands.
spec fn scan_state(entries: Seq<WalkEntryView>, n: int, skip: Option<usize>, head: int) -> bool {
    match skip {
        None => forall|i: int|
            0 <= i < n && #[trigger] is_pruning_point(entries, i) ==> ends_before(entries, i, n),
        Some(d) => {
            &&& 0 <= head < n
            &&& is_pruning_point(entries, head)
            &&& entries[head].depth == d
            &&& forall|k: int| head < k < n ==> (#[trigger] entries[k]).depth > d
            &&& forall|i: int|
                0 <= i < head && #[trigger] is_pruning_point(entries, i) ==> ends_before(
                    entries,
                    i,
                    head + 1,
                )
        },
    }
}

/// Where the scan is in no pruned subtree, or entry `n` is no deeper than the
/// pruning point whose subtree the scan is in, the subtree of every pruning
/// point before `n` ends at `n` at the latest: entry `n` is pruned only if
/// it is a pruning point itself.
proof fn lemma_subtrees_have_ended(
    entries: Seq<WalkEntryView>,
    n: int,
    skip: Option<usize>,
    head: int,
)
    requires
        0 <= n < entries.len(),
        scan_state(entries, n, skip, head),
        skip matches Some(d) ==> entries[n].depth <= d,
    ensures
        forall|i: int|
            0 <= i < n && #[trigger] is_pruning_point(entries, i) ==> ends_before(
                entries,
                i,
                n + 1,
            ),
        is_pruned(entries, n) == is_pruning_point(entries, n),
{
    assert forall|i: int| 0 <= i < n && #[trigger] is_pruning_point(entries, i) implies ends_before(
        entries,
        i,
        n + 1,
    ) by {
        if skip is Some && i >= head {
            // `i` is the pruning point at the head of the subtree, or lies in
            // that subtree: entry `n` is no deeper.
            assert(entries[n].depth <= entries[i].depth);
        } else {
            // The subtree below `i` had ended before.
            let end = if skip is Some {
                head + 1
            } else {
                n
            };
            let k = choose|k: int| i < k < end && (#[trigger] entries[k]).depth <= entries[i].depth;
            assert(i < k < n + 1);
        }
    }
    assert forall|i: int| 0 <= i < n && is_pruning_point(entries, i) implies !encloses(
        entries,
        i,
        n,
    ) by {
        let k = choose|k: int| i < k < n + 1 && (#[trigger] entries[k]).depth <= entries[i].depth;
        assert(i < k <= n && !(entries[k].depth > entries[i].depth));
    }
    assert(encloses(entries, n, n));
}

/// The entries that belong in the prompt, in the order of the listing: all
/// but the root, the entries with an excluded name, and what lies below such
/// an entry.
pub fn scan(entries: &Vec<WalkEntry>) -> (r: Vec<FileDescriptor>)
    ensures
        r.deep_view() == scanned(entries.deep_view()),
{
    let ghost listing = entries.deep_view();
    let mut out: Vec<FileDescriptor> = Vec::new();
    let mut skip: Option<usize> = None;
    let ghost mut head: int = 0;
    let mut n: usize = 0;
    while n < entries.len()
        invariant
            n <= entries.len(),
            listing == entries.deep_view(),
            out.deep_view() == scanned_upto(listing, n as nat),
            scan_state(listing, n as int, skip, head),
        decreases entries.len() - n,
    {
        let entry = &entries[n];
        let ghost j = n as int;
        let below = match skip {
            Some(d) => entry.depth > d,
            None => false,
        };
        if below {
            proof {
                assert(encloses(listing, head, j));
            }
        } else {
            proof {
                lemma_subtrees_have_ended(listing, j, skip, head);
            }
            if entry.depth >= 1 && is_excluded(entry.name.as_str()) {
                skip = Some(entry.depth);
                proof {
                    head = j;
                }
            } else {
                skip = None;
                if entry.depth >= 1 {
                    out.push(FileDescriptor::describe(entry));
                }
            }
        }
        n += 1;
    }
    out
}

/// Descriptor `d` stands for entry `j`, which the scan yields.
pub open spec fn stands_for(d: FileDescriptorView, entries: Seq<WalkEntryView>, j: int) -> bool {
    is_yielded(entries, j) && d == described(entries[j])
}

/// Descriptor `d` stands for one of the first `n` entries, which the scan
/// yields.
pub open spec fn has_source(d: FileDescriptorView, entries: Seq<WalkEntryView>, n: int) -> bool {
    exists|j: int| 0 <= j < n && #[trigger] stands_for(d, entries, j)
}

/// What a scan of the first `n` entries holds: each of its descriptors stands
/// for a yielded entry among them, and each yielded entry among them has its
/// descriptor there.
proof fn lemma_scanned_upto(entries: Seq<WalkEntryView>, n: nat)
    requires
        n <= entries.len(),
    ensures
        forall|k: int|
            0 <= k < scanned_upto(entries, n).len() ==> has_source(
                #[trigger] scanned_upto(entries, n)[k],
                entries,
                n as int,
            ),
        forall|j: int|
            0 <= j < n && #[trigger] is_yielded(entries, j) ==> scanned_upto(entries, n).contains(
                described(entries[j]),
            ),
    decreases n,
{
    if n > 0 {
        let before = scanned_upto(entries, (n - 1) as nat);
        let now = scanned_upto(entries, n);
        lemma_scanned_upto(entries, (n - 1) as nat);
        assert forall|k: int| 0 <= k < now.len() implies has_source(
            #[trigger] now[k],
            entries,
            n as int,
        ) by {
            if k < before.len() {
                let j = choose|j: int|
                    0 <= j < n - 1 && #[trigger] stands_for(before[k], entries, j);
                assert(stands_for(now[k], entries, j));
            } else {
                assert(stands_for(now[k], entries, n - 1));
            }
        }
        assert forall|j: int| 0 <= j < n && #[trigger] is_yielded(entries, j) implies now.contains(
            described(entries[j]),
        ) by {
            if j < n - 1 {
                let k = choose|k: int| 0 <= k < before.len() && before[k] == described(entries[j]);
                assert(now[k] == described(entries[j]));
            } else {
                assert(now[now.len() - 1] == described(entries[j]));
            }
        }
    }
}

/// Pruning. Every descriptor of a scan stands for a listed entry below the
/// root whose name is not excluded and which lies in the subtree of no entry
/// with an excluded name; so no descriptor bears an excluded name.
pub proof fn lemma_scan_prunes(entries: Seq<WalkEntryView>)
    ensures
        forall|k: int|
            0 <= k < scanned(entries).len() ==> has_source(
                #[trigger] scanned(entries)[k],
                entries,
                entries.len() as int,
            ),
        forall|j: int| #[trigger]
            is_yielded(entries, j) ==> entries[j].depth >= 1 && !excluded(entries[j].name),
        forall|i: int, j: int|
            is_yielded(entries, j) && is_pruning_point(entries, i) ==> !#[trigger] encloses(
                entries,
                i,
                j,
            ),
        forall|k: int|
            0 <= k < scanned(entries).len() ==> !excluded((#[trigger] scanned(entries)[k]).name),
{
    lemma_scanned_upto(entries, entries.len());
    assert forall|j: int| #[trigger] is_yielded(entries, j) implies !excluded(entries[j].name) by {
        if excluded(entries[j].name) {
            assert(is_pruning_point(entries, j) && encloses(entries, j, j));
        }
    }
    assert forall|k: int| 0 <= k < scanned(entries).len() implies !excluded(
        (#[trigger] scanned(entries)[k]).name,
    ) by {
        let d = scanned(entries)[k];
        let j = choose|j: int| 0 <= j < entries.len() && #[trigger] stands_for(d, entries, j);
        assert(is_yielded(entries, j) && d.name == entries[j].name);
    }
}

/// Nothing else is lost. Every listed entry below the root that is neither a
/// pruning point nor below one has its descriptor in the scan.
pub proof fn lemma_scan_keeps_the_rest(entries: Seq<WalkEntryView>)
    ensures
        forall|j: int| #[trigger]
            is_yielded(entries, j) ==> scanned(entries).contains(described(entries[j])),
{
    lemma_scanned_upto(entries, entries.len());
}

/// A listing that holds no excluded name below the root loses nothing but
/// the root: where the walk itself has pruned, the scan keeps every entry
/// that the walk found.
pub proof fn lemma_scan_keeps_a_pruned_listing(entries: Seq<WalkEntryView>)
    requires
        forall|i: int| !#[trigger] is_pruning_point(entries, i),
    ensures
        forall|j: int|
            0 <= j < entries.len() && (#[trigger] entries[j]).depth >= 1 ==> is_yielded(entries, j)
                && scanned(entries).contains(described(entries[j])),
{
    lemma_scanned_upto(entries, entries.len());
    assert forall|j: int|
        0 <= j < entries.len() && (#[trigger] entries[j]).depth >= 1 implies is_yielded(
        entries,
        j,
    ) by {
        if is_pruned(entries, j) {
            let i = choose|i: int|
                is_pruning_point(entries, i) && #[trigger] encloses(entries, i, j);
            assert(is_pruning_point(entries, i));
        }
    }
}

impl FileDescriptor {
    /// The descriptor that stands for a listed entry.
    pub fn describe(entry: &WalkEntry) -> (r: FileDescriptor)
        ensures
            r@ == described(entry@),
    {
        let extension = if entry.is_file {
            extension_of(entry.name.as_str())
        } else {
            None
        };
        FileDescriptor {
            path: entry.path.clone(),
            name: entry.name.clone(),
            depth: entry.depth,
            extension,
        }
    }

    /// Where the entry lies.
    pub fn path(&self) -> (r: &str)
        ensures
            r@ == self@.path,
    {
        self.path.as_str()
    }

    /// The last component of the path.
    pub fn name(&self) -> (r: &str)
        ensures
            r@ == self@.name,
    {
        self.name.as_str()
    }

    /// How many levels below the root the entry lies.
    pub fn depth(&self) -> (r: usize)
        ensures
            r == self@.depth,
    {
        self.depth
    }

    /// The extension of a file; `None` for a directory and for a file without one.
    pub fn extension(&self) -> (r: Option<&str>)
        ensures
            r.deep_view() == self@.extension,
    {
        match &self.extension {
            Some(e) => Some(e.as_str()),
            None => None,
        }
    }
}

} // verus!
