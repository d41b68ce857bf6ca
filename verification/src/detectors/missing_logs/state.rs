//! What the rule keeps: the writes and the logs of each block, the blocks of
//! each function, the functions of each module.

use vstd::prelude::*;
use vstd::string::*;
use crate::error::Error;
use crate::keyed::{Keyed, KeyedView};
use crate::project::{EntryView, LinesView, Project, Severity};
use crate::span::{Span, SpanView};
use crate::visitor::spans_view;

verus! {

/// A write to storage: the span of the field's name and the span of the
/// value written.
#[derive(Debug, PartialEq, Eq)]
pub struct Write {
    pub field: Span,
    pub value: Span,
}

pub ghost struct WriteView {
    pub field: SpanView,
    pub value: SpanView,
}

impl View for Write {
    type V = WriteView;

    open spec fn view(&self) -> WriteView {
        WriteView { field: self.field@, value: self.value@ }
    }
}

/// Whether one of `spans` is spelled `text`.
pub open spec fn spells(spans: Seq<SpanView>, text: Seq<char>) -> bool {
    exists|i: int| 0 <= i < spans.len() && (#[trigger] spans[i]).text == text
}

/// The fields of those of `written` whose value is not spelled by any of
/// `logged`, in order.
pub open spec fn unlogged_fields(written: Seq<WriteView>, logged: Seq<SpanView>) -> Seq<SpanView>
    decreases written.len(),
{
    if written.len() == 0 {
        Seq::empty()
    } else if spells(logged, written.last().value.text) {
        unlogged_fields(written.drop_last(), logged)
    } else {
        unlogged_fields(written.drop_last(), logged).push(written.last().field)
    }
}

/// The message of the finding about the unlogged write to `field`.
pub open spec fn missing_log_message(field: Seq<char>) -> Seq<char> {
    "The `storage."@ + field + "` value is written without being logged."@
}

/// The finding about the unlogged write to `field` at `line` of the module
/// at `path`.
///
/// It is of medium severity: a write that leaves no log keeps whoever
/// follows the contract from outside in the dark about its state, which
/// weighs more than an import that is not used and less than a loss of
/// funds.
pub open spec fn missing_log_entry(path: Seq<char>, line: nat, field: Seq<char>) -> EntryView {
    EntryView { path, line, severity: Severity::Medium, message: missing_log_message(field) }
}

/// The findings about the unlogged writes to the fields at `fields`, each
/// at the line of the field's name.
pub open spec fn missing_log_entries(
    lines: LinesView,
    path: Seq<char>,
    fields: Seq<SpanView>,
) -> Seq<EntryView> {
    Seq::new(
        fields.len(),
        |i: int| missing_log_entry(path, lines.line_of(path, fields[i]).unwrap(), fields[i].text),
    )
}

/// What the rule keeps about one block.
#[derive(Debug, PartialEq, Eq)]
pub struct BlockState {
    pub written: Vec<Write>,
    pub logged: Vec<Span>,
}

pub ghost struct BlockStateView {
    pub written: Seq<WriteView>,
    pub logged: Seq<SpanView>,
}

impl BlockStateView {
    pub open spec fn empty() -> BlockStateView {
        BlockStateView { written: Seq::empty(), logged: Seq::empty() }
    }

    /// The block after `write` was made in it, if one was.
    pub open spec fn wrote(self, write: Option<WriteView>) -> BlockStateView {
        match write {
            Some(write) => BlockStateView { written: self.written.push(write), ..self },
            None => self,
        }
    }

    /// The block after `value` was logged in it, if something was.
    pub open spec fn logged_value(self, value: Option<SpanView>) -> BlockStateView {
        match value {
            Some(value) => BlockStateView { logged: self.logged.push(value), ..self },
            None => self,
        }
    }

    /// The fields written in the block without their value being logged in
    /// it.
    pub open spec fn unlogged(self) -> Seq<SpanView> {
        unlogged_fields(self.written, self.logged)
    }

    /// What is reported of the block when it is left: one finding for each
    /// field written without its value being logged, in the order of the
    /// writes, up to the first whose span has no line.
    pub open spec fn findings(self, lines: LinesView, path: Seq<char>) -> Seq<EntryView> {
        missing_log_entries(
            lines,
            path,
            self.unlogged().take(lines.located(path, self.unlogged()) as int),
        )
    }

    /// Whether the report ends early: whether the span of a field written
    /// without its value being logged has no line.
    pub open spec fn stopped(self, lines: LinesView, path: Seq<char>) -> bool {
        lines.fails_on(path, self.unlogged())
    }
}

impl View for BlockState {
    type V = BlockStateView;

    open spec fn view(&self) -> BlockStateView {
        BlockStateView {
            written: self.written@.map_values(|w: Write| w@),
            logged: self.logged@.map_values(|s: Span| s@),
        }
    }
}

/// What the rule keeps about one function: its blocks.
pub struct FnState {
    pub block_states: Keyed<BlockState>,
}

pub ghost struct FnStateView {
    pub blocks: KeyedView<BlockStateView>,
}

impl View for FnState {
    type V = FnStateView;

    open spec fn view(&self) -> FnStateView {
        FnStateView { blocks: self.block_states@ }
    }
}

/// What the rule keeps about one module: the names under which the logging
/// function was imported, and its functions.
pub struct ModuleState {
    pub log_names: Vec<String>,
    pub fn_states: Keyed<FnState>,
}

pub ghost struct ModuleStateView {
    pub log_names: Seq<Seq<char>>,
    pub fns: KeyedView<FnStateView>,
}

impl ModuleStateView {
    pub open spec fn empty() -> ModuleStateView {
        ModuleStateView { log_names: Seq::empty(), fns: KeyedView::empty() }
    }
}

impl View for ModuleState {
    type V = ModuleStateView;

    open spec fn view(&self) -> ModuleStateView {
        ModuleStateView {
            log_names: self.log_names@.map_values(|s: String| s@),
            fns: self.fn_states@,
        }
    }
}

/// The message of the finding about the unlogged write to `field`.
pub fn missing_log_text(field: &str) -> (message: String)
    ensures
        message@ == missing_log_message(field@),
{
    let mut message = String::from_str("The `storage.");
    message.append(field);
    message.append("` value is written without being logged.");
    message
}

impl BlockState {
    pub fn new() -> (state: BlockState)
        ensures
            state@ == BlockStateView::empty(),
    {
        let state = BlockState { written: Vec::new(), logged: Vec::new() };
        assert(state@.written =~= Seq::empty());
        assert(state@.logged =~= Seq::empty());
        state
    }

    /// Whether a value spelled like `value` was logged in the block.
    pub fn is_logged(&self, value: &Span) -> (found: bool)
        ensures
            found == spells(self@.logged, value@.text),
    {
        let ghost logged = self@.logged;
        let mut i: usize = 0;
        while i < self.logged.len()
            invariant
                i <= self.logged.len(),
                logged == self@.logged,
                forall|j: int| 0 <= j < i ==> (#[trigger] logged[j]).text != value@.text,
            decreases self.logged.len() - i,
        {
            if self.logged[i].same_text(value) {
                assert(logged[i as int].text == value@.text);
                return true;
            }
            i += 1;
        }
        false
    }

    /// The fields written in the block without their value being logged in
    /// it, in the order of the writes.
    pub fn unlogged(&self) -> (fields: Vec<Span>)
        ensures
            spans_view(fields@) == self@.unlogged(),
    {
        let ghost written = self@.written;
        let ghost logged = self@.logged;
        assert(written.take(0) =~= Seq::empty());
        let mut fields: Vec<Span> = Vec::new();
        assert(spans_view(fields@) =~= Seq::empty());
        let mut i: usize = 0;
        while i < self.written.len()
            invariant
                written == self@.written,
                logged == self@.logged,
                i <= self.written.len(),
                spans_view(fields@) == unlogged_fields(written.take(i as int), logged),
            decreases self.written.len() - i,
        {
            assert(written.take(i + 1).drop_last() =~= written.take(i as int));
            assert(written.take(i + 1).last() == self.written[i as int]@);
            let write = &self.written[i];
            if !self.is_logged(&write.value) {
                let ghost before = spans_view(fields@);
                fields.push(write.field.clone());
                assert(spans_view(fields@) =~= before.push(write.field@));
            }
            i += 1;
        }
        assert(written.take(i as int) =~= written);
        fields
    }

    /// Reports the writes of the block whose value was not logged in it, in
    /// the order of the writes, each at the line of the field's name and
    /// with medium severity.
    ///
    /// The first such field whose span has no line ends the report with
    /// `Error::LineNotFound`: what was reported before it stays, and nothing
    /// is reported of it or after it.
    pub fn report_unlogged(&self, path: &str, project: &mut Project) -> (result: Result<(), Error>)
        ensures
            old(project).reported_to(*final(project)),
            final(project).report@ == old(project).report@ + self@.findings(
                old(project).lines@,
                path@,
            ),
            match result {
                Ok(_) => !self@.stopped(old(project).lines@, path@),
                Err(error) => error == Error::LineNotFound && self@.stopped(
                    old(project).lines@,
                    path@,
                ),
            },
    {
        let fields = self.unlogged();
        let ghost all = spans_view(fields@);
        let ghost lines = project.lines@;
        assert(all.take(0) =~= Seq::empty());
        assert(project.report@ + missing_log_entries(lines, path@, Seq::empty())
            =~= project.report@);
        let mut i: usize = 0;
        while i < fields.len()
            invariant
                all == spans_view(fields@),
                all == self@.unlogged(),
                lines == old(project).lines@,
                i <= fields.len(),
                old(project).reported_to(*project),
                forall|j: int| 0 <= j < i ==> lines.line_of(path@, #[trigger] all[j]).is_some(),
                project.report@ == old(project).report@ + missing_log_entries(
                    lines,
                    path@,
                    all.take(i as int),
                ),
            decreases fields.len() - i,
        {
            assert(all[i as int] == fields[i as int]@);
            let line = match project.lines.span_to_line(path, &fields[i]) {
                Ok(line) => line,
                Err(error) => {
                    proof {
                        lines.lemma_located(path@, all, i as nat);
                    }
                    return Err(error);
                },
            };
            let message = missing_log_text(fields[i].as_str());
            project.report.add_entry(path, line, Severity::Medium, message);
            assert(missing_log_entries(lines, path@, all.take(i + 1)) =~= missing_log_entries(
                lines,
                path@,
                all.take(i as int),
            ).push(missing_log_entry(path@, line as nat, all[i as int].text)));
            assert(project.report@ =~= old(project).report@ + missing_log_entries(
                lines,
                path@,
                all.take(i + 1),
            ));
            i += 1;
        }
        proof {
            lines.lemma_located(path@, all, i as nat);
        }
        Ok(())
    }
}

impl FnState {
    pub fn new() -> (state: FnState)
        ensures
            state@ == (FnStateView { blocks: KeyedView::empty() }),
    {
        FnState { block_states: Keyed::new() }
    }
}

impl ModuleState {
    pub fn new() -> (state: ModuleState)
        ensures
            state@ == ModuleStateView::empty(),
    {
        let state = ModuleState { log_names: Vec::new(), fn_states: Keyed::new() };
        assert(state@.log_names =~= Seq::empty());
        state
    }
}

} // verus!
