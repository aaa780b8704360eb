//! The walk over a directory tree, as a machine that is fed one entry at a
//! time.
//!
//! The caller enumerates the tree depth first, parents before their
//! children, and shows every entry to [`Walker::visit`]. The answer says what
//! to do with it: leave it and everything below it, pass on, or examine the
//! file and report back through [`Walker::conclude`]. Nothing that happens to
//! one entry stops the walk.

use crate::entry::hidden_entry;
use crate::entry::is_hidden;
use crate::entry::is_supported_media_file;
use crate::entry::supported;
use crate::entry::Entry;
use crate::entry::Finding;
use crate::error::ErrorKind;
use crate::path::get_relative_path;
use crate::path::relative_path;
use crate::report::Report;
use crate::report::ReportView;
use vstd::prelude::*;
use vstd::string::StringExecFns;

verus! {

/// What the caller is to do with an entry.
#[derive(Debug, Clone, Copy, PartialEq, Eq, Structural)]
pub enum Action {
    /// The entry is hidden, or lies below a hidden one: leave it alone and do
    /// not descend into it.
    Prune,
    /// Nothing more to do with this entry.
    Skip,
    /// A regular file that may be a media file: process it, then report the
    /// outcome with [`Walker::conclude`].
    Examine,
}

/// The state of a walk.
pub struct Walker {
    report: Report,
    root: String,
    pruning: Option<usize>,
}

/// The state of a walk as mathematics sees it.
pub struct WalkerView {
    /// What has been counted and listed so far.
    pub report: ReportView,
    /// The path the walk started from.
    pub root: Seq<char>,
    /// The depth of the hidden entry whose subtree is being passed over.
    pub pruning: Option<usize>,
}

/// One step of a walk: the entry met, and how processing it ends in case it
/// is examined.
#[derive(Debug)]
pub struct Visit {
    pub entry: Entry,
    pub outcome: Result<(), ErrorKind>,
}

/// Whether an entry at `depth` lies below the hidden entry being passed over.
pub open spec fn below(pruning: Option<usize>, depth: usize) -> bool {
    pruning matches Some(d) && depth > d
}

/// What is to be done with an entry, given what is being passed over.
///
/// Hidden entries and all below them are pruned. Of the rest only regular
/// files with a supported extension are examined.
pub open spec fn action_for(pruning: Option<usize>, entry: Entry) -> Action {
    if below(pruning, entry.depth) || hidden_entry(entry) {
        Action::Prune
    } else if entry.finding is File && supported(entry.name@) {
        Action::Examine
    } else {
        Action::Skip
    }
}

impl WalkerView {
    /// A walk from `root` that has met nothing yet.
    pub open spec fn start(root: Seq<char>) -> WalkerView {
        WalkerView { report: ReportView::empty(), root, pruning: None }
    }

    /// The state after an entry has been shown to the walk.
    ///
    /// A pruned entry leaves no trace in the report. An unreadable entry is
    /// listed as a failure. A regular file without a supported extension is
    /// examined and fails at once, for want of metadata. Directories and
    /// other entries change nothing, and a file to examine changes nothing
    /// until its outcome is known.
    pub open spec fn visited(self, entry: Entry) -> WalkerView {
        if below(self.pruning, entry.depth) {
            self
        } else if hidden_entry(entry) {
            WalkerView { pruning: Some(entry.depth), ..self }
        } else {
            let shown = relative_path(self.root, entry.path@);
            let report = match entry.finding {
                Finding::Unreadable(cause) => self.report.with_unreadable(cause@, shown),
                Finding::File => if supported(entry.name@) {
                    self.report
                } else {
                    self.report.with_failure(ErrorKind::MissingMetadata.text(), shown)
                },
                Finding::Directory => self.report,
                Finding::Other => self.report,
            };
            WalkerView { report, pruning: None, ..self }
        }
    }

    /// The state after the outcome of an examined file has been reported.
    pub open spec fn concluded(self, entry: Entry, outcome: Result<(), ErrorKind>) -> WalkerView {
        let report = match outcome {
            Ok(_) => self.report.with_update(),
            Err(e) => self.report.with_failure(e.text(), relative_path(self.root, entry.path@)),
        };
        WalkerView { report, ..self }
    }

    /// The state after one whole step: the entry is shown and, if it is to
    /// be examined, its outcome reported.
    pub open spec fn stepped(self, visit: Visit) -> WalkerView {
        if action_for(self.pruning, visit.entry) is Examine {
            self.visited(visit.entry).concluded(visit.entry, visit.outcome)
        } else {
            self.visited(visit.entry)
        }
    }
}

/// The state of a walk from `root` after the given steps.
pub open spec fn walked(root: Seq<char>, visits: Seq<Visit>) -> WalkerView
    decreases visits.len(),
{
    if visits.len() == 0 {
        WalkerView::start(root)
    } else {
        walked(root, visits.drop_last()).stepped(visits.last())
    }
}

/// The state of a walk that goes on from `state` through the given steps.
pub open spec fn continued(state: WalkerView, visits: Seq<Visit>) -> WalkerView
    decreases visits.len(),
{
    if visits.len() == 0 {
        state
    } else {
        continued(state, visits.drop_last()).stepped(visits.last())
    }
}

/// How many of the steps met a regular file outside every hidden subtree.
pub open spec fn files_met(root: Seq<char>, visits: Seq<Visit>) -> int
    decreases visits.len(),
{
    if visits.len() == 0 {
        0
    } else {
        let before = walked(root, visits.drop_last());
        let entry = visits.last().entry;
        let met = entry.finding is File && !(action_for(before.pruning, entry) is Prune);
        files_met(root, visits.drop_last()) + if met {
            1int
        } else {
            0int
        }
    }
}

/// How many of the steps listed an unreadable entry: those whose entry could
/// not be read and was not pruned.
pub open spec fn unreadable_met(root: Seq<char>, visits: Seq<Visit>) -> int
    decreases visits.len(),
{
    if visits.len() == 0 {
        0
    } else {
        let before = walked(root, visits.drop_last());
        let entry = visits.last().entry;
        let listed = entry.finding is Unreadable && action_for(before.pruning, entry) is Skip;
        unreadable_met(root, visits.drop_last()) + if listed {
            1int
        } else {
            0int
        }
    }
}

impl View for Walker {
    type V = WalkerView;

    closed spec fn view(&self) -> WalkerView {
        WalkerView { report: self.report@, root: self.root@, pruning: self.pruning }
    }
}

impl Walker {
    /// Starts a walk from `root`.
    pub fn new(root: &str) -> (walker: Walker)
        ensures
            walker@ == WalkerView::start(root@),
    {
        Walker { report: Report::default(), root: String::from_str(root), pruning: None }
    }

    /// Whether another entry can be counted.
    pub fn has_room(&self) -> (room: bool)
        ensures
            room == self@.report.has_room(),
    {
        self.report.has_room()
    }

    /// Shows an entry to the walk and says what to do with it.
    pub fn visit(&mut self, entry: &Entry) -> (action: Action)
        requires
            old(self)@.report.has_room(),
        ensures
            action == action_for(old(self)@.pruning, *entry),
            final(self)@ == old(self)@.visited(*entry),
            action is Prune ==> final(self)@.report == old(self)@.report,
            action is Examine ==> final(self)@.report == old(self)@.report,
            old(self)@.report.wf() ==> final(self)@.report.wf(),
    {
        if let Some(d) = self.pruning {
            if entry.depth > d {
                return Action::Prune;
            }
        }
        if entry.name_is_unicode && is_hidden(entry.name.as_str()) {
            self.pruning = Some(entry.depth);
            return Action::Prune;
        }
        self.pruning = None;
        match &entry.finding {
            Finding::Unreadable(cause) => {
                let shown = get_relative_path(self.root.as_str(), entry.path.as_str());
                self.report.record_unreadable(cause.as_str(), shown.as_str());
                Action::Skip
            },
            Finding::File => {
                if is_supported_media_file(entry.name.as_str()) {
                    Action::Examine
                } else {
                    let shown = get_relative_path(self.root.as_str(), entry.path.as_str());
                    self.report.record_failure(&ErrorKind::MissingMetadata, shown.as_str());
                    Action::Skip
                }
            },
            Finding::Directory => Action::Skip,
            Finding::Other => Action::Skip,
        }
    }

    /// Reports how processing an examined file ended: it counts as updated,
    /// or as failed with its cause listed against its path.
    pub fn conclude(&mut self, entry: &Entry, outcome: &Result<(), ErrorKind>)
        requires
            old(self)@.report.has_room(),
        ensures
            final(self)@ == old(self)@.concluded(*entry, *outcome),
            old(self)@.report.wf() ==> final(self)@.report.wf(),
            final(self)@.report.unread() == old(self)@.report.unread(),
    {
        match outcome {
            Ok(_) => self.report.record_update(),
            Err(e) => {
                let shown = get_relative_path(self.root.as_str(), entry.path.as_str());
                self.report.record_failure(e, shown.as_str());
            },
        }
    }

    /// Shows an entry to the walk and, if it is to be examined, reports the
    /// outcome recorded for it.
    pub fn step(&mut self, visit: &Visit)
        requires
            old(self)@.report.has_room(),
        ensures
            final(self)@ == old(self)@.stepped(*visit),
            final(self)@.report.examined <= old(self)@.report.examined + 1,
            final(self)@.report.updated <= old(self)@.report.updated + 1,
            final(self)@.report.failed <= old(self)@.report.failed + 1,
    {
        match self.visit(&visit.entry) {
            Action::Examine => self.conclude(&visit.entry, &visit.outcome),
            Action::Prune => {},
            Action::Skip => {},
        }
    }

    /// The report as it stands.
    pub fn report(&self) -> (report: &Report)
        ensures
            report@ == self@.report,
    {
        &self.report
    }

    /// Ends the walk and hands out its report.
    pub fn finish(self) -> (report: Report)
        ensures
            report@ == self@.report,
    {
        self.report
    }
}

/// Replays a recorded walk from `root` and gives the report it ends with.
pub fn replay(root: &str, visits: &Vec<Visit>) -> (report: Report)
    requires
        visits.len() < i32::MAX,
    ensures
        report@ == walked(root@, visits@).report,
{
    let mut walker = Walker::new(root);
    assert(visits@.take(0) =~= Seq::<Visit>::empty());
    for i in 0..visits.len()
        invariant
            visits.len() < i32::MAX,
            walker@ == walked(root@, visits@.take(i as int)),
            0 <= walker@.report.examined <= i,
            0 <= walker@.report.updated <= i,
            0 <= walker@.report.failed <= i,
    {
        assert(visits@.take(i + 1).drop_last() =~= visits@.take(i as int));
        assert(visits@.take(i + 1).last() == visits@[i as int]);
        walker.step(&visits[i]);
        proof {
            lemma_examined_is_updated_plus_failed(root@, visits@.take(i + 1));
        }
    }
    assert(visits@.take(visits.len() as int) =~= visits@);
    walker.finish()
}

/// While the entries after a hidden one lie deeper than it, the walk keeps
/// passing over a subtree rooted at that entry or above it.
proof fn lemma_still_pruning(root: Seq<char>, visits: Seq<Visit>, j: int, i: int)
    requires
        0 <= j < i <= visits.len(),
        hidden_entry(visits[j].entry),
        forall|k: int| j < k < i ==> visits[k].entry.depth > visits[j].entry.depth,
    ensures
        walked(root, visits.take(i)).pruning matches Some(d) && d <= visits[j].entry.depth,
    decreases i,
{
    assert(visits.take(i).drop_last() =~= visits.take(i - 1));
    assert(visits.take(i).last() == visits[i - 1]);
    if j < i - 1 {
        lemma_still_pruning(root, visits, j, i - 1);
    }
}

/// A hidden entry and everything below it is never examined and leaves no
/// trace in the report.
///
/// The walk lists its entries parents first, so what lies below the entry at
/// `j` are the entries that follow it for as long as they are deeper than it.
/// For each such entry, and for the hidden entry itself, the walk answers
/// `Prune`, and the report after the step is the report before it: nothing
/// counted, no failure listed.
pub proof fn lemma_hidden_subtree_leaves_no_trace(
    root: Seq<char>,
    visits: Seq<Visit>,
    j: int,
    i: int,
)
    requires
        0 <= j <= i < visits.len(),
        hidden_entry(visits[j].entry),
        forall|k: int| j < k <= i ==> visits[k].entry.depth > visits[j].entry.depth,
    ensures
        action_for(walked(root, visits.take(i)).pruning, visits[i].entry) is Prune,
        walked(root, visits.take(i + 1)).report == walked(root, visits.take(i)).report,
{
    assert(visits.take(i + 1).drop_last() =~= visits.take(i));
    assert(visits.take(i + 1).last() == visits[i]);
    if j < i {
        lemma_still_pruning(root, visits, j, i);
    }
}

/// Every examined file is either updated or failed.
///
/// After any walk the report is well formed, and the failures it counts
/// beyond those of examined files are exactly the unreadable entries it
/// listed. So where no entry was unreadable, `examined` equals `updated`
/// plus `failed`.
pub proof fn lemma_examined_is_updated_plus_failed(root: Seq<char>, visits: Seq<Visit>)
    ensures
        walked(root, visits).report.wf(),
        walked(root, visits).report.examined + unreadable_met(root, visits) == walked(
            root,
            visits,
        ).report.updated + walked(root, visits).report.failed,
        (forall|i: int| 0 <= i < visits.len() ==> !(#[trigger] visits[i].entry.finding
            is Unreadable)) ==> walked(root, visits).report.examined == walked(
            root,
            visits,
        ).report.updated + walked(root, visits).report.failed,
    decreases visits.len(),
{
    if visits.len() > 0 {
        lemma_examined_is_updated_plus_failed(root, visits.drop_last());
        lemma_unreadable_met_bounds(root, visits);
        assert forall|i: int| 0 <= i < visits.drop_last().len() implies visits.drop_last()[i]
            == visits[i] by {}
    }
}

/// `examined` counts the regular files that the walk met outside hidden
/// subtrees, and nothing else: no directory, no link, no hidden entry.
pub proof fn lemma_examined_counts_regular_files(root: Seq<char>, visits: Seq<Visit>)
    ensures
        walked(root, visits).report.examined == files_met(root, visits),
    decreases visits.len(),
{
    if visits.len() > 0 {
        lemma_examined_counts_regular_files(root, visits.drop_last());
    }
}

/// A walk is its start, continued through all its steps.
proof fn lemma_walked_is_continued(root: Seq<char>, visits: Seq<Visit>)
    ensures
        walked(root, visits) == continued(WalkerView::start(root), visits),
    decreases visits.len(),
{
    if visits.len() > 0 {
        lemma_walked_is_continued(root, visits.drop_last());
    }
}

/// Going on through two runs of steps is going on through the first, then
/// through the second.
proof fn lemma_continued_in_two(state: WalkerView, first: Seq<Visit>, second: Seq<Visit>)
    ensures
        continued(state, first + second) == continued(continued(state, first), second),
    decreases second.len(),
{
    if second.len() == 0 {
        assert(first + second =~= first);
    } else {
        assert((first + second).drop_last() =~= first + second.drop_last());
        assert((first + second).last() == second.last());
        lemma_continued_in_two(state, first, second.drop_last());
    }
}

/// A hidden entry followed by entries deeper than it changes nothing but
/// what is being passed over.
proof fn lemma_subtree_passed_over(state: WalkerView, subtree: Seq<Visit>)
    requires
        subtree.len() > 0,
        hidden_entry(subtree[0].entry),
        forall|k: int|
            0 < k < subtree.len() ==> (#[trigger] subtree[k]).entry.depth
                > subtree[0].entry.depth,
    ensures
        continued(state, subtree).report == state.report,
        continued(state, subtree).root == state.root,
        continued(state, subtree).pruning == if below(state.pruning, subtree[0].entry.depth) {
            state.pruning
        } else {
            Some(subtree[0].entry.depth)
        },
    decreases subtree.len(),
{
    if subtree.len() == 1 {
        assert(subtree.drop_last() =~= Seq::<Visit>::empty());
    } else {
        let shorter = subtree.drop_last();
        assert(shorter[0] == subtree[0]);
        assert forall|k: int| 0 < k < shorter.len() implies (#[trigger] shorter[k]).entry.depth
            > shorter[0].entry.depth by {
            assert(shorter[k] == subtree[k]);
        }
        lemma_subtree_passed_over(state, shorter);
    }
}

/// A walk reports the same with a hidden subtree as without it.
///
/// `subtree` is a hidden entry followed by what lies below it, and the walk
/// goes on, if at all, with an entry that is no deeper than the hidden one.
/// Then the report of the whole walk is the report of the walk that never
/// met the subtree.
pub proof fn lemma_hidden_subtree_can_be_left_out(
    root: Seq<char>,
    before: Seq<Visit>,
    subtree: Seq<Visit>,
    after: Seq<Visit>,
)
    requires
        subtree.len() > 0,
        hidden_entry(subtree[0].entry),
        forall|k: int|
            0 < k < subtree.len() ==> (#[trigger] subtree[k]).entry.depth
                > subtree[0].entry.depth,
        after.len() > 0 ==> after[0].entry.depth <= subtree[0].entry.depth,
    ensures
        walked(root, before + subtree + after).report == walked(root, before + after).report,
{
    let start = WalkerView::start(root);
    let met = continued(start, before);
    let passed = continued(met, subtree);
    lemma_walked_is_continued(root, before + subtree + after);
    lemma_walked_is_continued(root, before + after);
    lemma_continued_in_two(start, before + subtree, after);
    lemma_continued_in_two(start, before, subtree);
    lemma_continued_in_two(start, before, after);
    lemma_subtree_passed_over(met, subtree);
    if after.len() > 0 {
        let next = seq![after[0]];
        let rest = after.drop_first();
        assert(after =~= next + rest);
        lemma_continued_in_two(met, next, rest);
        lemma_continued_in_two(passed, next, rest);
        assert(next.drop_last() =~= Seq::<Visit>::empty());
        reveal_with_fuel(continued, 2);
        assert(continued(met, next) == met.stepped(after[0]));
        assert(continued(passed, next) == passed.stepped(after[0]));
        assert(passed.stepped(after[0]) == met.stepped(after[0]));
    }
}

/// No more unreadable entries are listed than there are unreadable entries,
/// and none where there are none.
proof fn lemma_unreadable_met_bounds(root: Seq<char>, visits: Seq<Visit>)
    ensures
        0 <= unreadable_met(root, visits),
        (forall|i: int| 0 <= i < visits.len() ==> !(#[trigger] visits[i].entry.finding
            is Unreadable)) ==> unreadable_met(root, visits) == 0,
    decreases visits.len(),
{
    if visits.len() > 0 {
        lemma_unreadable_met_bounds(root, visits.drop_last());
        assert forall|i: int| 0 <= i < visits.drop_last().len() implies visits.drop_last()[i]
            == visits[i] by {}
    }
}

} // verus!
