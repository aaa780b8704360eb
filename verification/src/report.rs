//! The summary of a run: three counters and the list of failures.

use crate::error::ErrorKind;
use vstd::prelude::*;
use vstd::string::StringExecFns;

verus! {

/// The summary of one run.
#[derive(Debug, Clone, PartialEq, Eq)]
pub struct Report {
    /// Regular files that were looked at.
    pub examined: i32,
    /// Files whose time attributes were set.
    pub updated: i32,
    /// Failures: files that could not be updated, and entries that could not
    /// be read.
    pub failed: i32,
    /// One line for each failure, in the order in which they occurred.
    pub errors: Vec<String>,
}

/// A report as mathematics sees it.
pub struct ReportView {
    pub examined: int,
    pub updated: int,
    pub failed: int,
    pub errors: Seq<Seq<char>>,
}

/// The line that reports a failure: its cause, then the path it concerns.
pub open spec fn failure_line(cause: Seq<char>, path: Seq<char>) -> Seq<char> {
    cause + ": in "@ + path
}

impl ReportView {
    /// The report of a run that has seen nothing yet.
    pub open spec fn empty() -> ReportView {
        ReportView { examined: 0, updated: 0, failed: 0, errors: Seq::empty() }
    }

    /// One more file, examined and updated.
    pub open spec fn with_update(self) -> ReportView {
        ReportView { examined: self.examined + 1, updated: self.updated + 1, ..self }
    }

    /// One more file, examined and failed for `cause`.
    pub open spec fn with_failure(self, cause: Seq<char>, path: Seq<char>) -> ReportView {
        ReportView {
            examined: self.examined + 1,
            failed: self.failed + 1,
            errors: self.errors.push(failure_line(cause, path)),
            ..self
        }
    }

    /// One more entry that could not be read. It is a failure, but no file
    /// was examined.
    pub open spec fn with_unreadable(self, cause: Seq<char>, path: Seq<char>) -> ReportView {
        ReportView {
            failed: self.failed + 1,
            errors: self.errors.push(failure_line(cause, path)),
            ..self
        }
    }

    /// The failures that were not failures of a file: entries that could not
    /// be read.
    pub open spec fn unread(self) -> int {
        self.updated + self.failed - self.examined
    }

    /// What holds of every report that a run builds up: no counter is
    /// negative, every failure has its line, and every examined file was
    /// either updated or failed.
    pub open spec fn wf(self) -> bool {
        &&& 0 <= self.examined
        &&& 0 <= self.updated
        &&& self.failed == self.errors.len()
        &&& self.examined <= self.updated + self.failed
    }

    /// Whether every counter can still be raised by one.
    pub open spec fn has_room(self) -> bool {
        &&& self.examined < i32::MAX
        &&& self.updated < i32::MAX
        &&& self.failed < i32::MAX
    }
}

impl View for Report {
    type V = ReportView;

    open spec fn view(&self) -> ReportView {
        ReportView {
            examined: self.examined as int,
            updated: self.updated as int,
            failed: self.failed as int,
            errors: self.errors.deep_view(),
        }
    }
}

impl Default for Report {
    fn default() -> (report: Report)
        ensures
            report@ == ReportView::empty(),
            report@.wf(),
    {
        let report = Report { examined: 0, updated: 0, failed: 0, errors: Vec::new() };
        assert(report.errors.deep_view() =~= Seq::empty());
        report
    }
}

/// Words a failure for the report.
pub fn describe_failure(cause: &str, path: &str) -> (line: String)
    ensures
        line@ == failure_line(cause@, path@),
{
    String::from_str(cause).concat(": in ").concat(path)
}

impl Report {
    /// Whether every counter can still be raised by one.
    pub fn has_room(&self) -> (room: bool)
        ensures
            room == self@.has_room(),
    {
        self.examined < i32::MAX && self.updated < i32::MAX && self.failed < i32::MAX
    }

    fn push_line(&mut self, line: String)
        ensures
            final(self)@.errors == old(self)@.errors.push(line@),
            final(self).examined == old(self).examined,
            final(self).updated == old(self).updated,
            final(self).failed == old(self).failed,
    {
        self.errors.push(line);
        assert(self.errors.deep_view() =~= old(self).errors.deep_view().push(line@));
    }

    /// Counts a file that was examined and updated.
    pub fn record_update(&mut self)
        requires
            old(self)@.has_room(),
        ensures
            final(self)@ == old(self)@.with_update(),
            old(self)@.wf() ==> final(self)@.wf(),
            final(self)@.unread() == old(self)@.unread(),
    {
        self.examined = self.examined + 1;
        self.updated = self.updated + 1;
    }

    /// Counts a file that was examined and failed, and lists why.
    pub fn record_failure(&mut self, cause: &ErrorKind, path: &str)
        requires
            old(self)@.has_room(),
        ensures
            final(self)@ == old(self)@.with_failure(cause.text(), path@),
            old(self)@.wf() ==> final(self)@.wf(),
            final(self)@.unread() == old(self)@.unread(),
    {
        let line = describe_failure(cause.message().as_str(), path);
        self.examined = self.examined + 1;
        self.failed = self.failed + 1;
        self.push_line(line);
    }

    /// Counts an entry that could not be read, and lists why. No file was
    /// examined.
    pub fn record_unreadable(&mut self, cause: &str, path: &str)
        requires
            old(self)@.has_room(),
        ensures
            final(self)@ == old(self)@.with_unreadable(cause@, path@),
            old(self)@.wf() ==> final(self)@.wf(),
            final(self)@.unread() == old(self)@.unread() + 1,
    {
        let line = describe_failure(cause, path);
        self.failed = self.failed + 1;
        self.push_line(line);
    }
}

} // verus!
