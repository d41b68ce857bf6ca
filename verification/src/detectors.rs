//! The lint rules, and the table that finds a rule by its name.

pub mod missing_logs;
pub mod references;
pub mod unused_import;

use vstd::prelude::*;
use vstd::string::*;
use crate::detectors::missing_logs::visitor::{
    missing_logs_after, missing_logs_findings, missing_logs_missing, missing_logs_stopped,
    MissingLogsView, MissingLogsVisitor,
};
use crate::detectors::unused_import::visitor::{
    unused_import_after, unused_import_findings, unused_import_ready, unused_import_stopped,
    UnusedImportView, UnusedImportVisitor,
};
use crate::error::Error;
use crate::keyed::KeyedView;
use crate::project::{EntryView, LinesView, Project};
use crate::visitor::{Event, EventView};

verus! {

/// A rule with what it keeps. Rules share nothing with one another: each
/// value holds its own state.
pub enum Detector {
    UnusedImport(UnusedImportVisitor),
    MissingLogs(MissingLogsVisitor),
}

pub ghost enum DetectorView {
    UnusedImport(UnusedImportView),
    MissingLogs(MissingLogsView),
}

impl View for Detector {
    type V = DetectorView;

    open spec fn view(&self) -> DetectorView {
        match self {
            Detector::UnusedImport(rule) => DetectorView::UnusedImport(rule@),
            Detector::MissingLogs(rule) => DetectorView::MissingLogs(rule@),
        }
    }
}

impl DetectorView {
    /// What the rule misses to take a step, if it misses anything.
    pub open spec fn missing(self, event: EventView) -> Option<Error> {
        match self {
            DetectorView::UnusedImport(rule) => if unused_import_ready(rule, event) {
                None
            } else {
                Some(Error::MissingModuleState)
            },
            DetectorView::MissingLogs(rule) => missing_logs_missing(rule, event),
        }
    }

    /// The rule after a step that it was ready for.
    pub open spec fn after(self, event: EventView) -> DetectorView {
        match self {
            DetectorView::UnusedImport(rule) => DetectorView::UnusedImport(
                unused_import_after(rule, event),
            ),
            DetectorView::MissingLogs(rule) => DetectorView::MissingLogs(
                missing_logs_after(rule, event),
            ),
        }
    }

    /// What the rule reports at a step that it was ready for, given the
    /// lines of the source files.
    pub open spec fn findings(self, event: EventView, lines: LinesView) -> Seq<EntryView> {
        match self {
            DetectorView::UnusedImport(rule) => unused_import_findings(rule, event, lines),
            DetectorView::MissingLogs(rule) => missing_logs_findings(rule, event, lines),
        }
    }

    /// Why a step that the rule was ready for ends the walk, if it does: a
    /// finding whose span has no line.
    pub open spec fn stopped(self, event: EventView, lines: LinesView) -> Option<Error> {
        match self {
            DetectorView::UnusedImport(rule) => unused_import_stopped(rule, event, lines),
            DetectorView::MissingLogs(rule) => missing_logs_stopped(rule, event, lines),
        }
    }
}

/// The rule that the table holds under `name`, as it is before any walk.
pub open spec fn detector_named(name: Seq<char>) -> Option<DetectorView> {
    if name == "unused_import"@ {
        Some(DetectorView::UnusedImport(KeyedView::empty()))
    } else if name == "missing_logs"@ {
        Some(DetectorView::MissingLogs(KeyedView::empty()))
    } else {
        None
    }
}

impl Detector {
    /// A fresh rule of the kind that the table holds under `name`.
    pub fn by_name(name: &str) -> (detector: Option<Detector>)
        ensures
            match detector {
                Some(detector) => detector_named(name@) == Some(detector@),
                None => detector_named(name@).is_none(),
            },
    {
        let wanted = name.to_owned();
        if wanted == String::from_str("unused_import") {
            Some(Detector::UnusedImport(UnusedImportVisitor::new()))
        } else if wanted == String::from_str("missing_logs") {
            Some(Detector::MissingLogs(MissingLogsVisitor::new()))
        } else {
            None
        }
    }

    /// The name that the table holds the rule under.
    pub fn name(&self) -> (name: &'static str)
        ensures
            match self {
                Detector::UnusedImport(_) => name@ == "unused_import"@,
                Detector::MissingLogs(_) => name@ == "missing_logs"@,
            },
    {
        match self {
            Detector::UnusedImport(_) => "unused_import",
            Detector::MissingLogs(_) => "missing_logs",
        }
    }

    /// The names of the table, in its order.
    pub fn names() -> (names: Vec<&'static str>)
        ensures
            names@.len() == 2,
            names@[0]@ == "unused_import"@,
            names@[1]@ == "missing_logs"@,
    {
        let mut names: Vec<&'static str> = Vec::new();
        names.push("unused_import");
        names.push("missing_logs");
        names
    }

    /// Takes one step of a walk.
    ///
    /// A step that the rule is ready for changes what the rule keeps and adds
    /// its findings to the report, each at its line; a finding whose span
    /// has no line ends the step with `Error::LineNotFound`, after the
    /// findings before it. A step that the walk did not prepare changes
    /// nothing and is answered with what the rule misses.
    pub fn handle(&mut self, event: &Event, project: &mut Project) -> (result: Result<(), Error>)
        ensures
            old(project).reported_to(*final(project)),
            match old(self)@.missing(event@) {
                None => {
                    &&& final(self)@ == old(self)@.after(event@)
                    &&& final(project).report@ == old(project).report@ + old(self)@.findings(
                        event@,
                        old(project).lines@,
                    )
                    &&& match old(self)@.stopped(event@, old(project).lines@) {
                        Some(error) => result == Err::<(), Error>(error),
                        None => result is Ok,
                    }
                },
                Some(error) => {
                    &&& result == Err::<(), Error>(error)
                    &&& final(self)@ == old(self)@
                    &&& final(project).report@ == old(project).report@
                },
            },
    {
        match self {
            Detector::UnusedImport(rule) => rule.handle(event, project),
            Detector::MissingLogs(rule) => rule.handle(event, project),
        }
    }
}

} // verus!
