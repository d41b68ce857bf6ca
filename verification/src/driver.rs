//! Running rules over the walk of a module.
//!
//! Every step of the walk is told to every rule, in the order of the rules.
//! The first step that fails ends the walk of that module: what was done so
//! far stays, nothing more is done, and the caller gets the reason. A step
//! fails where a rule has no answer for it, or where a rule has a finding
//! whose span has no line.

use vstd::prelude::*;
use crate::detectors::{Detector, DetectorView};
use crate::error::Error;
use crate::project::{EntryView, LinesView, Project};
use crate::readiness::walks::{law_walk_is_answered, lemma_start_is_steady};
use crate::syntax::item::Module;
use crate::visitor::{Event, EventView};
use crate::walk::{Events, events_view, module_events, walk_module};

verus! {

/// Where a run stands: what the rules keep, what was reported, whether a
/// step has failed, and the lines of the source files, which stay as they
/// are.
pub ghost struct Outcome {
    pub rules: Seq<DetectorView>,
    pub report: Seq<EntryView>,
    pub result: Result<(), Error>,
    pub lines: LinesView,
}

impl Outcome {
    /// Telling `event` to the rule at `place`, unless a step has failed.
    ///
    /// A rule that has no answer changes nothing. A rule that has one takes
    /// the step and reports its findings; where the span of a finding has no
    /// line, the findings before it are reported and the step fails.
    pub open spec fn told(self, event: EventView, place: int) -> Outcome {
        match self.result {
            Err(_) => self,
            Ok(_) => match self.rules[place].missing(event) {
                Some(error) => Outcome { result: Err(error), ..self },
                None => Outcome {
                    rules: self.rules.update(place, self.rules[place].after(event)),
                    report: self.report + self.rules[place].findings(event, self.lines),
                    result: match self.rules[place].stopped(event, self.lines) {
                        Some(error) => Err(error),
                        None => Ok(()),
                    },
                    lines: self.lines,
                },
            },
        }
    }

    /// Telling `event` to the first `count` rules, in order.
    pub open spec fn told_first(self, event: EventView, count: nat) -> Outcome
        decreases count,
    {
        if count == 0 {
            self
        } else {
            self.told_first(event, (count - 1) as nat).told(event, count - 1)
        }
    }

    /// Telling `event` to every rule, in order.
    pub open spec fn told_all(self, event: EventView) -> Outcome {
        self.told_first(event, self.rules.len())
    }

    /// Telling each of `events` to every rule, one event after the other.
    pub open spec fn ran(self, events: Events) -> Outcome
        decreases events.len(),
    {
        if events.len() == 0 {
            self
        } else {
            self.ran(events.drop_last()).told_all(events.last())
        }
    }
}

/// The models of a run of rules.
pub open spec fn detectors_view(detectors: Seq<Detector>) -> Seq<DetectorView> {
    detectors.map_values(|d: Detector| d@)
}

/// Where a run starts: the rules as they are, the report as it is, and no
/// failure.
pub open spec fn start_of(detectors: Seq<Detector>, project: Project) -> Outcome {
    Outcome {
        rules: detectors_view(detectors),
        report: project.report@,
        result: Ok(()),
        lines: project.lines@,
    }
}

/// Once a step has failed, telling more changes nothing.
pub proof fn lemma_failed_stays(outcome: Outcome, event: EventView, count: nat)
    requires
        outcome.result is Err,
    ensures
        outcome.told_first(event, count) == outcome,
    decreases count,
{
    if count > 0 {
        lemma_failed_stays(outcome, event, (count - 1) as nat);
    }
}

/// Telling an event keeps the number of rules.
proof fn lemma_told_keeps_count(outcome: Outcome, event: EventView, count: nat)
    requires
        count <= outcome.rules.len(),
    ensures
        outcome.told_first(event, count).rules.len() == outcome.rules.len(),
    decreases count,
{
    if count > 0 {
        lemma_told_keeps_count(outcome, event, (count - 1) as nat);
    }
}

/// Tells one step of a walk to every rule, in order, up to the first rule
/// that has no answer for it or that has a finding without a line.
pub fn tell(detectors: &mut Vec<Detector>, event: &Event, project: &mut Project) -> (result:
    Result<(), Error>)
    ensures
        old(project).reported_to(*final(project)),
        (Outcome {
            rules: detectors_view(final(detectors)@),
            report: final(project).report@,
            result,
            lines: old(project).lines@,
        }) == start_of(old(detectors)@, *old(project)).told_all(event@),
{
    let ghost start = start_of(detectors@, *project);
    let mut i: usize = 0;
    while i < detectors.len()
        invariant
            i <= detectors.len(),
            detectors.len() == old(detectors).len(),
            start == start_of(old(detectors)@, *old(project)),
            old(project).reported_to(*project),
            (Outcome {
                rules: detectors_view(detectors@),
                report: project.report@,
                result: Ok(()),
                lines: old(project).lines@,
            }) == start.told_first(event@, i as nat),
        decreases detectors.len() - i,
    {
        let ghost before = detectors_view(detectors@);
        match detectors[i].handle(event, project) {
            Ok(_) => {
                assert(detectors_view(detectors@) =~= before.update(
                    i as int,
                    before[i as int].after(event@),
                ));
            },
            Err(error) => {
                proof {
                    if before[i as int].missing(event@).is_some() {
                        assert(detectors_view(detectors@) =~= before);
                    } else {
                        assert(detectors_view(detectors@) =~= before.update(
                            i as int,
                            before[i as int].after(event@),
                        ));
                    }
                    lemma_told_keeps_count(start, event@, i as nat);
                    lemma_failed_stays_from(start, event@, (i + 1) as nat, start.rules.len());
                }
                return Err(error);
            },
        }
        i += 1;
    }
    Ok(())
}

/// Once a step has failed within the first `count` rules, telling the rest
/// changes nothing.
proof fn lemma_failed_stays_from(outcome: Outcome, event: EventView, count: nat, all: nat)
    requires
        count <= all,
        outcome.told_first(event, count).result is Err,
    ensures
        outcome.told_first(event, all) == outcome.told_first(event, count),
    decreases all - count,
{
    if count < all {
        lemma_failed_stays_from(outcome, event, count, (all - 1) as nat);
    }
}

/// Tells each step of a walk to every rule, up to the first step that
/// fails.
pub fn run(detectors: &mut Vec<Detector>, events: &Vec<Event>, project: &mut Project) -> (result:
    Result<(), Error>)
    ensures
        old(project).reported_to(*final(project)),
        (Outcome {
            rules: detectors_view(final(detectors)@),
            report: final(project).report@,
            result,
            lines: old(project).lines@,
        }) == start_of(old(detectors)@, *old(project)).ran(events_view(events@)),
{
    let ghost start = start_of(detectors@, *project);
    let ghost all = events_view(events@);
    assert(all.take(0) =~= Seq::empty());
    let mut i: usize = 0;
    while i < events.len()
        invariant
            i <= events.len(),
            all == events_view(events@),
            start == start_of(old(detectors)@, *old(project)),
            old(project).reported_to(*project),
            (Outcome {
                rules: detectors_view(detectors@),
                report: project.report@,
                result: Ok(()),
                lines: old(project).lines@,
            }) == start.ran(all.take(i as int)),
        decreases events.len() - i,
    {
        assert(all.take(i + 1).drop_last() =~= all.take(i as int));
        assert(all.take(i + 1).last() == events[i as int]@);
        match tell(detectors, &events[i], project) {
            Ok(_) => {},
            Err(error) => {
                proof {
                    lemma_ran_failed_stays(start, all, (i + 1) as int);
                }
                return Err(error);
            },
        }
        i += 1;
    }
    assert(all.take(i as int) =~= all);
    Ok(())
}

/// Once a step has failed within the first `count` events, the rest of the
/// events changes nothing.
proof fn lemma_ran_failed_stays(outcome: Outcome, events: Events, count: int)
    requires
        0 <= count <= events.len(),
        outcome.ran(events.take(count)).result is Err,
    ensures
        outcome.ran(events) == outcome.ran(events.take(count)),
    decreases events.len() - count,
{
    if count < events.len() {
        let shorter = events.drop_last();
        assert(shorter.take(count) =~= events.take(count));
        lemma_ran_failed_stays(outcome, shorter, count);
        lemma_failed_stays(outcome.ran(shorter), events.last(), outcome.ran(shorter).rules.len());
    } else {
        assert(events.take(count) =~= events);
    }
}

/// Walks the module at `path` and tells every step of the walk to every
/// rule.
///
/// The walk prepares every step that it takes, so no rule is left without
/// an answer: the only failure is `Error::LineNotFound`, for a finding
/// whose span has no line.
pub fn analyze(
    detectors: &mut Vec<Detector>,
    path: &str,
    module: &Module,
    project: &mut Project,
) -> (result: Result<(), Error>)
    ensures
        old(project).reported_to(*final(project)),
        (Outcome {
            rules: detectors_view(final(detectors)@),
            report: final(project).report@,
            result,
            lines: old(project).lines@,
        }) == start_of(old(detectors)@, *old(project)).ran(module_events(path@, *module)),
        result is Ok || result == Err::<(), Error>(Error::LineNotFound),
{
    proof {
        lemma_start_is_steady(detectors@, *project);
        law_walk_is_answered(start_of(detectors@, *project), path@, *module);
    }
    let events = walk_module(path, module);
    run(detectors, &events, project)
}

} // verus!
