//! The rule as a walk sees it: what it does on entering and on leaving each
//! construct.

use vstd::prelude::*;
use crate::detectors::missing_logs::growth::{fns_wf, logs_wf};
use crate::detectors::missing_logs::patterns::{
    log_import, log_import_of, logged_by, logged_span, storage_write, storage_write_of,
};
use crate::detectors::missing_logs::state::{
    BlockState, BlockStateView, FnState, FnStateView, ModuleState, ModuleStateView,
};
use crate::error::Error;
use crate::keyed::{first_key, Keyed, KeyedView};
use crate::project::{EntryView, LinesView, Project};
use crate::span::{Span, SpanView};
use crate::visitor::{
    BlockContext, Event, EventView, ExprContext, FnContext, ModuleContext, Node, NodeView,
    Phase, spans_view, StatementContext, UseContext,
};

verus! {

/// What the rule keeps about every module that a walk has entered.
pub type MissingLogsView = KeyedView<ModuleStateView>;

/// Whether the function with the signature `signature` was entered in the
/// module at `path`.
pub open spec fn has_fn(rule: MissingLogsView, path: Seq<char>, signature: Seq<char>) -> bool {
    rule.contains(path) && rule.get(path).fns.contains(signature)
}

/// Whether the block spelled `block` was entered in that function.
pub open spec fn has_block(
    rule: MissingLogsView,
    path: Seq<char>,
    signature: Seq<char>,
    block: Seq<char>,
) -> bool {
    has_fn(rule, path, signature) && rule.get(path).fns.get(signature).blocks.contains(block)
}

/// What the rule keeps about that block.
pub open spec fn block_of(
    rule: MissingLogsView,
    path: Seq<char>,
    signature: Seq<char>,
    block: Seq<char>,
) -> BlockStateView {
    rule.get(path).fns.get(signature).blocks.get(block)
}

/// The rule with `state` in place of what it keeps about the function.
pub open spec fn with_fn(
    rule: MissingLogsView,
    path: Seq<char>,
    signature: Seq<char>,
    state: FnStateView,
) -> MissingLogsView {
    let module = rule.get(path);
    rule.with(path, ModuleStateView { fns: module.fns.with(signature, state), ..module })
}

/// The rule with `state` in place of what it keeps about the block.
pub open spec fn with_block(
    rule: MissingLogsView,
    path: Seq<char>,
    signature: Seq<char>,
    block: Seq<char>,
    state: BlockStateView,
) -> MissingLogsView {
    let function = rule.get(path).fns.get(signature);
    with_fn(rule, path, signature, FnStateView { blocks: function.blocks.with(block, state) })
}

/// The rule itself.
pub struct MissingLogsVisitor {
    module_states: Keyed<ModuleState>,
}

impl View for MissingLogsVisitor {
    type V = MissingLogsView;

    closed spec fn view(&self) -> MissingLogsView {
        self.module_states@
    }
}

impl Default for MissingLogsVisitor {
    fn default() -> (visitor: MissingLogsVisitor)
        ensures
            visitor@ == MissingLogsView::empty(),
    {
        MissingLogsVisitor::new()
    }
}

impl MissingLogsVisitor {
    /// The functions of the module at place `m`.
    closed spec fn fns_at(self, m: int) -> Keyed<FnState> {
        self.module_states.entries[m].value.fn_states
    }

    /// The blocks of the function at place `f` of that module.
    closed spec fn blocks_at(self, m: int, f: int) -> Keyed<BlockState> {
        self.fns_at(m).entries[f].value.block_states
    }

    /// What is kept about the block at place `b` of that function.
    closed spec fn block_at(self, m: int, f: int, b: int) -> BlockState {
        self.blocks_at(m, f).entries[b].value
    }

    /// Every list that the rule keeps has as many records as keys.
    pub proof fn lemma_wf(self)
        ensures
            logs_wf(self@),
    {
        let rule = self@;
        assert forall|m: int| 0 <= m < rule.values.len() implies fns_wf(
            (#[trigger] rule.values[m]).fns,
        ) by {
            let module = self.module_states.entries[m].value;
            assert(rule.values[m].fns == module.fn_states@);
            assert forall|f: int| 0 <= f < module.fn_states@.values.len() implies (
            #[trigger] module.fn_states@.values[f]).blocks.wf() by {
                assert(module.fn_states@.values[f].blocks
                    == module.fn_states.entries[f].value.block_states@);
            }
        }
    }

    /// The rule before any module was entered.
    pub fn new() -> (visitor: MissingLogsVisitor)
        ensures
            visitor@ == MissingLogsView::empty(),
    {
        MissingLogsVisitor { module_states: Keyed::new() }
    }

    /// Whether the module at `path` was entered.
    pub fn has_module(&self, path: &str) -> (entered: bool)
        ensures
            entered == self@.contains(path@),
    {
        self.module_states.find(path).is_some()
    }

    /// Whether the function with the signature at `signature` was entered in
    /// the module at `path`.
    pub fn has_fn(&self, path: &str, signature: &Span) -> (entered: bool)
        ensures
            entered == has_fn(self@, path@, signature@.text),
    {
        match self.module_states.find(path) {
            Some(m) => {
                let module = &self.module_states.entries[m].value;
                module.fn_states.find(signature.as_str()).is_some()
            },
            None => false,
        }
    }

    /// Whether the block at `block` was entered in that function.
    pub fn has_block(&self, path: &str, signature: &Span, block: &Span) -> (entered: bool)
        ensures
            entered == has_block(self@, path@, signature@.text, block@.text),
    {
        match self.module_states.find(path) {
            Some(m) => {
                let module = &self.module_states.entries[m].value;
                match module.fn_states.find(signature.as_str()) {
                    Some(f) => module.fn_states.entries[f].value.block_states.find(
                        block.as_str(),
                    ).is_some(),
                    None => false,
                }
            },
            None => false,
        }
    }

    /// What the rule keeps about a block, if the block was entered.
    pub fn block_state(&self, path: &str, signature: &Span, block: &Span) -> (state: Option<
        &BlockState,
    >)
        ensures
            match state {
                Some(state) => has_block(self@, path@, signature@.text, block@.text) && state@
                    == block_of(self@, path@, signature@.text, block@.text),
                None => !has_block(self@, path@, signature@.text, block@.text),
            },
    {
        match self.module_states.find(path) {
            Some(m) => {
                let module = &self.module_states.entries[m].value;
                match module.fn_states.find(signature.as_str()) {
                    Some(f) => {
                        let function = &module.fn_states.entries[f].value;
                        match function.block_states.find(block.as_str()) {
                            Some(b) => Some(&function.block_states.entries[b].value),
                            None => None,
                        }
                    },
                    None => None,
                }
            },
            None => None,
        }
    }

    /// The names under which the logging function was imported into the
    /// module at `path`, if the module was entered.
    pub fn log_names(&self, path: &str) -> (names: Option<&Vec<String>>)
        ensures
            match names {
                Some(names) => self@.contains(path@) && names@.map_values(|s: String| s@)
                    == self@.get(path@).log_names,
                None => !self@.contains(path@),
            },
    {
        match self.module_states.find(path) {
            Some(m) => Some(&self.module_states.entries[m].value.log_names),
            None => None,
        }
    }

    /// Entering a module: the rule starts to keep a state for it, unless it
    /// keeps one already.
    pub fn visit_module(&mut self, context: &ModuleContext)
        ensures
            final(self)@ == old(self)@.ensured(context.path@, ModuleStateView::empty()),
            final(self)@.contains(context.path@),
    {
        self.module_states.ensure(context.path, ModuleState::new());
    }

    /// A `use` item: where it imports the logging function, the name it is
    /// imported as is one more name of the logging function in this module.
    pub fn visit_use(&mut self, context: &UseContext)
        requires
            old(self)@.contains(context.path@),
        ensures
            final(self)@ == old(self)@.with(
                context.path@,
                match log_import(context.item_use@.tree) {
                    Some(name) => ModuleStateView {
                        log_names: old(self)@.get(context.path@).log_names.push(name),
                        ..old(self)@.get(context.path@)
                    },
                    None => old(self)@.get(context.path@),
                },
            ),
    {
        let m = match self.module_states.find(context.path) {
            Some(m) => m,
            None => 0,
        };
        match log_import_of(&context.item_use.tree) {
            Some(name) => {
                let ghost before = self.module_states.entries[m as int].value@.log_names;
                self.module_states.entries[m].value.log_names.push(name.name.clone());
                proof {
                    assert(self.module_states.entries[m as int].value@.log_names =~= before.push(
                        name@.name,
                    ));
                    self.module_states.lemma_changed_at(old(self).module_states, m as int);
                }
            },
            None => {
                assert(self@.values =~= old(self)@.with(
                    context.path@,
                    old(self)@.get(context.path@),
                ).values);
            },
        }
    }

    /// Entering a function: the rule starts to keep a state for it, keyed by
    /// the text of its signature, unless it keeps one already.
    pub fn visit_fn(&mut self, context: &FnContext)
        requires
            old(self)@.contains(context.path@),
        ensures
            final(self)@ == old(self)@.with(
                context.path@,
                ModuleStateView {
                    fns: old(self)@.get(context.path@).fns.ensured(
                        context.item_fn.fn_signature.span@.text,
                        FnStateView { blocks: KeyedView::empty() },
                    ),
                    ..old(self)@.get(context.path@)
                },
            ),
            has_fn(final(self)@, context.path@, context.item_fn.fn_signature.span@.text),
    {
        let m = match self.module_states.find(context.path) {
            Some(m) => m,
            None => 0,
        };
        self.module_states.entries[m].value.fn_states.ensure(
            context.item_fn.fn_signature.span.as_str(),
            FnState::new(),
        );
        proof {
            self.module_states.lemma_changed_at(old(self).module_states, m as int);
        }
    }

    /// Entering a block: the rule starts to keep a state for it, keyed by its
    /// text, unless it keeps one already.
    pub fn visit_block(&mut self, context: &BlockContext)
        requires
            has_fn(old(self)@, context.path@, context.item_fn.fn_signature.span@.text),
        ensures
            final(self)@ == with_fn(
                old(self)@,
                context.path@,
                context.item_fn.fn_signature.span@.text,
                FnStateView {
                    blocks: old(self)@.get(context.path@).fns.get(
                        context.item_fn.fn_signature.span@.text,
                    ).blocks.ensured(context.block.span@.text, BlockStateView::empty()),
                },
            ),
            has_block(
                final(self)@,
                context.path@,
                context.item_fn.fn_signature.span@.text,
                context.block.span@.text,
            ),
    {
        let m = match self.module_states.find(context.path) {
            Some(m) => m,
            None => 0,
        };
        let f = match self.module_states.entries[m].value.fn_states.find(
            context.item_fn.fn_signature.span.as_str(),
        ) {
            Some(f) => f,
            None => 0,
        };
        self.module_states.entries[m].value.fn_states.entries[f].value.block_states.ensure(
            context.block.span.as_str(),
            BlockState::new(),
        );
        proof {
            self.module_states.entries[m as int].value.fn_states.lemma_changed_at(
                old(self).module_states.entries[m as int].value.fn_states,
                f as int,
            );
            self.module_states.lemma_changed_at(old(self).module_states, m as int);
        }
    }

    /// Leaving a block: each write made in it whose value was not logged in
    /// it is reported at the line of the field's name. What the rule keeps
    /// stays.
    ///
    /// The first such field whose span has no line ends the report with
    /// `Error::LineNotFound`; what was reported before it stays.
    pub fn leave_block(&self, context: &BlockContext, project: &mut Project) -> (result: Result<
        (),
        Error,
    >)
        requires
            has_block(
                self@,
                context.path@,
                context.item_fn.fn_signature.span@.text,
                context.block.span@.text,
            ),
        ensures
            old(project).reported_to(*final(project)),
            final(project).report@ == old(project).report@ + block_of(
                self@,
                context.path@,
                context.item_fn.fn_signature.span@.text,
                context.block.span@.text,
            ).findings(old(project).lines@, context.path@),
            match result {
                Ok(_) => !block_of(
                    self@,
                    context.path@,
                    context.item_fn.fn_signature.span@.text,
                    context.block.span@.text,
                ).stopped(old(project).lines@, context.path@),
                Err(error) => error == Error::LineNotFound && block_of(
                    self@,
                    context.path@,
                    context.item_fn.fn_signature.span@.text,
                    context.block.span@.text,
                ).stopped(old(project).lines@, context.path@),
            },
    {
        let signature = &context.item_fn.fn_signature.span;
        let places = self.places(context.path, signature, &context.block.span);
        let module = &self.module_states.entries[places.0].value;
        let state = &module.fn_states.entries[places.1].value.block_states.entries[places.2].value;
        state.report_unlogged(context.path, project)
    }

    /// The places of the states of a block that was entered.
    fn places(&self, path: &str, signature: &Span, block: &Span) -> (places: (usize, usize, usize))
        requires
            has_block(self@, path@, signature@.text, block@.text),
        ensures
            places.0 < self.module_states.entries.len(),
            first_key(self@.keys, path@) == Some(places.0 as nat),
            places.1 < self.fns_at(places.0 as int).entries.len(),
            first_key(self@.get(path@).fns.keys, signature@.text) == Some(places.1 as nat),
            places.2 < self.blocks_at(places.0 as int, places.1 as int).entries.len(),
            first_key(self@.get(path@).fns.get(signature@.text).blocks.keys, block@.text) == Some(
                places.2 as nat,
            ),
            self@.get(path@) == self.module_states.entries[places.0 as int].value@,
            self@.get(path@).fns.get(signature@.text)
                == self.fns_at(places.0 as int).entries[places.1 as int].value@,
            block_of(self@, path@, signature@.text, block@.text)
                == self.block_at(places.0 as int, places.1 as int, places.2 as int)@,
    {
        let m = match self.module_states.find(path) {
            Some(m) => m,
            None => 0,
        };
        let module = &self.module_states.entries[m].value;
        let f = match module.fn_states.find(signature.as_str()) {
            Some(f) => f,
            None => 0,
        };
        let b = match module.fn_states.entries[f].value.block_states.find(block.as_str()) {
            Some(b) => b,
            None => 0,
        };
        (m, f, b)
    }

    /// A statement: where it writes to storage, the write is one more write
    /// of the innermost block around it.
    pub fn visit_statement(&mut self, context: &StatementContext)
        requires
            context.blocks.len() > 0,
            has_block(
                old(self)@,
                context.path@,
                context.item_fn.fn_signature.span@.text,
                context.blocks@.last()@.text,
            ),
        ensures
            final(self)@ == with_block(
                old(self)@,
                context.path@,
                context.item_fn.fn_signature.span@.text,
                context.blocks@.last()@.text,
                block_of(
                    old(self)@,
                    context.path@,
                    context.item_fn.fn_signature.span@.text,
                    context.blocks@.last()@.text,
                ).wrote(storage_write(context.statement@)),
            ),
    {
        let block = &context.blocks[context.blocks.len() - 1];
        let (m, f, b) = self.places(context.path, &context.item_fn.fn_signature.span, block);
        match storage_write_of(context.statement) {
            Some(write) => {
                let ghost before = self.block_at(m as int, f as int, b as int)@;
                let function = &mut self.module_states.entries[m].value.fn_states.entries[f];
                function.value.block_states.entries[b].value.written.push(write);
                proof {
                    let after = self.block_at(m as int, f as int, b as int)@;
                    assert(after.written =~= before.written.push(write@));
                    assert(after.logged =~= before.logged);
                    self.lemma_block_changed(*old(self), m, f, b);
                }
            },
            None => {
                proof {
                    self.lemma_block_changed(*old(self), m, f, b);
                }
            },
        }
    }

    /// An expression: where it is a call of the logging function with one
    /// argument, the argument is one more value logged in the innermost
    /// block around it.
    pub fn visit_expr(&mut self, context: &ExprContext)
        requires
            context.blocks.len() > 0,
            has_block(
                old(self)@,
                context.path@,
                context.item_fn.fn_signature.span@.text,
                context.blocks@.last()@.text,
            ),
        ensures
            final(self)@ == with_block(
                old(self)@,
                context.path@,
                context.item_fn.fn_signature.span@.text,
                context.blocks@.last()@.text,
                block_of(
                    old(self)@,
                    context.path@,
                    context.item_fn.fn_signature.span@.text,
                    context.blocks@.last()@.text,
                ).logged_value(logged_by(old(self)@.get(context.path@).log_names, context.expr@)),
            ),
    {
        let block = &context.blocks[context.blocks.len() - 1];
        let (m, f, b) = self.places(context.path, &context.item_fn.fn_signature.span, block);
        let log_names = &self.module_states.entries[m].value.log_names;
        let value = match logged_span(log_names, context.expr) {
            Some(value) => Some(value.clone()),
            None => None,
        };
        match value {
            Some(value) => {
                let ghost before = self.block_at(m as int, f as int, b as int)@;
                let function = &mut self.module_states.entries[m].value.fn_states.entries[f];
                function.value.block_states.entries[b].value.logged.push(value);
                proof {
                    let after = self.block_at(m as int, f as int, b as int)@;
                    assert(after.logged =~= before.logged.push(value@));
                    assert(after.written =~= before.written);
                    self.lemma_block_changed(*old(self), m, f, b);
                }
            },
            None => {
                proof {
                    self.lemma_block_changed(*old(self), m, f, b);
                }
            },
        }
    }

    /// After a change to the block state at the places `m`, `f`, `b` alone,
    /// the view is the old view with the new block state there.
    proof fn lemma_block_changed(self, before: MissingLogsVisitor, m: usize, f: usize, b: usize)
        requires
            m < before.module_states.entries.len(),
            f < before.fns_at(m as int).entries.len(),
            b < before.blocks_at(m as int, f as int).entries.len(),
            self.module_states.entries.len() == before.module_states.entries.len(),
            forall|i: int|
                0 <= i < before.module_states.entries.len() ==> (
                #[trigger] self.module_states.entries[i]).key
                    == before.module_states.entries[i].key,
            forall|i: int|
                0 <= i < before.module_states.entries.len() && i != m ==> (
                #[trigger] self.module_states.entries[i]).value
                    == before.module_states.entries[i].value,
            self.module_states.entries[m as int].value.log_names
                == before.module_states.entries[m as int].value.log_names,
            ({
                let now = self.fns_at(m as int);
                let then = before.fns_at(m as int);
                &&& now.entries.len() == then.entries.len()
                &&& forall|i: int|
                    0 <= i < then.entries.len() ==> (#[trigger] now.entries[i]).key
                        == then.entries[i].key
                &&& forall|i: int|
                    0 <= i < then.entries.len() && i != f ==> (#[trigger] now.entries[i]).value
                        == then.entries[i].value
            }),
            ({
                let now = self.blocks_at(m as int, f as int);
                let then = before.blocks_at(m as int, f as int);
                &&& now.entries.len() == then.entries.len()
                &&& forall|i: int|
                    0 <= i < then.entries.len() ==> (#[trigger] now.entries[i]).key
                        == then.entries[i].key
                &&& forall|i: int|
                    0 <= i < then.entries.len() && i != b ==> (#[trigger] now.entries[i]).value
                        == then.entries[i].value
            }),
        ensures
            self@.keys == before@.keys,
            self@.values == before@.values.update(
                m as int,
                ModuleStateView {
                    log_names: before@.values[m as int].log_names,
                    fns: KeyedView {
                        keys: before@.values[m as int].fns.keys,
                        values: before@.values[m as int].fns.values.update(
                            f as int,
                            FnStateView {
                                blocks: KeyedView {
                                    keys: before@.values[m as int].fns.values[f as int].blocks.keys,
                                    values: before@.values[m as int].fns.values[f as int].blocks.values.update(
                                        b as int,
                                        self.block_at(m as int, f as int, b as int)@,
                                    ),
                                },
                            },
                        ),
                    },
                },
            ),
    {
        let now_module = self.module_states.entries[m as int].value;
        let then_module = before.module_states.entries[m as int].value;
        let now_fn = now_module.fn_states.entries[f as int].value;
        let then_fn = then_module.fn_states.entries[f as int].value;
        now_fn.block_states.lemma_changed_at(then_fn.block_states, b as int);
        now_module.fn_states.lemma_changed_at(then_module.fn_states, f as int);
        self.module_states.lemma_changed_at(before.module_states, m as int);
    }
}

/// What the rule misses to take a step in the function `signature` of the
/// module at `path`: the state of the module, or else that of the function.
pub open spec fn missing_fn(rule: MissingLogsView, path: Seq<char>, signature: Seq<char>) -> Option<
    Error,
> {
    if !rule.contains(path) {
        Some(Error::MissingModuleState)
    } else if !rule.get(path).fns.contains(signature) {
        Some(Error::MissingFnState)
    } else {
        None
    }
}

/// What the rule misses to take a step inside the blocks at `blocks` of
/// that function: what it misses for the function, or else a block around
/// the step, or else the state of the innermost one.
pub open spec fn missing_block(
    rule: MissingLogsView,
    path: Seq<char>,
    signature: Seq<char>,
    blocks: Seq<SpanView>,
) -> Option<Error> {
    match missing_fn(rule, path, signature) {
        Some(error) => Some(error),
        None => if blocks.len() == 0 || !rule.get(path).fns.get(signature).blocks.contains(
            blocks.last().text,
        ) {
            Some(Error::MissingBlockState)
        } else {
            None
        },
    }
}

/// What the rule misses to take a step, if it misses anything.
pub open spec fn missing_logs_missing(rule: MissingLogsView, event: EventView) -> Option<Error> {
    match event.phase {
        Phase::Visit => match event.node {
            NodeView::Use { path, .. } => if rule.contains(path) {
                None
            } else {
                Some(Error::MissingModuleState)
            },
            NodeView::Fn { path, .. } => if rule.contains(path) {
                None
            } else {
                Some(Error::MissingModuleState)
            },
            NodeView::Block { path, item_fn, .. } => missing_fn(
                rule,
                path,
                item_fn.fn_signature.span@.text,
            ),
            NodeView::Statement { path, item_fn, blocks, .. } => missing_block(
                rule,
                path,
                item_fn.fn_signature.span@.text,
                blocks,
            ),
            NodeView::Expr { path, item_fn, blocks, .. } => missing_block(
                rule,
                path,
                item_fn.fn_signature.span@.text,
                blocks,
            ),
            _ => None,
        },
        Phase::Leave => match event.node {
            NodeView::Block { path, item_fn, block } => missing_block(
                rule,
                path,
                item_fn.fn_signature.span@.text,
                seq![block.span@],
            ),
            _ => None,
        },
    }
}

/// The rule after a step that it was ready for.
pub open spec fn missing_logs_after(rule: MissingLogsView, event: EventView) -> MissingLogsView {
    match event.phase {
        Phase::Visit => match event.node {
            NodeView::Module { path } => rule.ensured(path, ModuleStateView::empty()),
            NodeView::Use { path, item_use } => rule.with(
                path,
                match log_import(item_use@.tree) {
                    Some(name) => ModuleStateView {
                        log_names: rule.get(path).log_names.push(name),
                        ..rule.get(path)
                    },
                    None => rule.get(path),
                },
            ),
            NodeView::Fn { path, item_fn } => rule.with(
                path,
                ModuleStateView {
                    fns: rule.get(path).fns.ensured(
                        item_fn.fn_signature.span@.text,
                        FnStateView { blocks: KeyedView::empty() },
                    ),
                    ..rule.get(path)
                },
            ),
            NodeView::Block { path, item_fn, block } => with_fn(
                rule,
                path,
                item_fn.fn_signature.span@.text,
                FnStateView {
                    blocks: rule.get(path).fns.get(item_fn.fn_signature.span@.text).blocks.ensured(
                        block.span@.text,
                        BlockStateView::empty(),
                    ),
                },
            ),
            NodeView::Statement { path, item_fn, blocks, statement } => with_block(
                rule,
                path,
                item_fn.fn_signature.span@.text,
                blocks.last().text,
                block_of(rule, path, item_fn.fn_signature.span@.text, blocks.last().text).wrote(
                    storage_write(statement@),
                ),
            ),
            NodeView::Expr { path, item_fn, blocks, expr } => with_block(
                rule,
                path,
                item_fn.fn_signature.span@.text,
                blocks.last().text,
                block_of(
                    rule,
                    path,
                    item_fn.fn_signature.span@.text,
                    blocks.last().text,
                ).logged_value(logged_by(rule.get(path).log_names, expr@)),
            ),
            _ => rule,
        },
        Phase::Leave => rule,
    }
}

/// What the rule reports at a step: on leaving a block, the writes made in
/// it whose value was not logged in it, up to the first whose field has no
/// line.
pub open spec fn missing_logs_findings(
    rule: MissingLogsView,
    event: EventView,
    lines: LinesView,
) -> Seq<EntryView> {
    match event {
        EventView { phase: Phase::Leave, node: NodeView::Block { path, item_fn, block } } => {
            block_of(rule, path, item_fn.fn_signature.span@.text, block.span@.text).findings(
                lines,
                path,
            )
        },
        _ => Seq::empty(),
    }
}

/// Why a step that the rule was ready for ends the walk, if it does: on
/// leaving a block, a field written without its value being logged whose
/// span has no line.
pub open spec fn missing_logs_stopped(
    rule: MissingLogsView,
    event: EventView,
    lines: LinesView,
) -> Option<Error> {
    match event {
        EventView { phase: Phase::Leave, node: NodeView::Block { path, item_fn, block } } => {
            if block_of(rule, path, item_fn.fn_signature.span@.text, block.span@.text).stopped(
                lines,
                path,
            ) {
                Some(Error::LineNotFound)
            } else {
                None
            }
        },
        _ => None,
    }
}

impl MissingLogsVisitor {
    /// What the rule misses to take a step in a function.
    fn missing_fn(&self, path: &str, signature: &Span) -> (missing: Option<Error>)
        ensures
            missing == missing_fn(self@, path@, signature@.text),
    {
        if !self.has_module(path) {
            Some(Error::MissingModuleState)
        } else if !self.has_fn(path, signature) {
            Some(Error::MissingFnState)
        } else {
            None
        }
    }

    /// What the rule misses to take a step inside blocks of a function.
    fn missing_block(&self, path: &str, signature: &Span, blocks: &Vec<Span>) -> (missing: Option<
        Error,
    >)
        ensures
            missing == missing_block(self@, path@, signature@.text, spans_view(blocks@)),
            missing.is_none() ==> blocks.len() > 0 && has_block(
                self@,
                path@,
                signature@.text,
                blocks@.last()@.text,
            ),
    {
        match self.missing_fn(path, signature) {
            Some(error) => Some(error),
            None => {
                if blocks.len() == 0 {
                    return Some(Error::MissingBlockState);
                }
                assert(spans_view(blocks@).last() == blocks@.last()@);
                if !self.has_block(path, signature, &blocks[blocks.len() - 1]) {
                    Some(Error::MissingBlockState)
                } else {
                    None
                }
            },
        }
    }

    /// Takes one step of a walk.
    ///
    /// A step that the rule is ready for changes what the rule keeps as
    /// `missing_logs_after` says and reports what `missing_logs_findings`
    /// says; it fails exactly where `missing_logs_stopped` gives a reason. A
    /// step that the walk did not prepare changes nothing and is answered
    /// with what `missing_logs_missing` names.
    pub fn handle(&mut self, event: &Event, project: &mut Project) -> (result: Result<(), Error>)
        ensures
            old(project).reported_to(*final(project)),
            match missing_logs_missing(old(self)@, event@) {
                None => {
                    &&& final(self)@ == missing_logs_after(old(self)@, event@)
                    &&& final(project).report@ == old(project).report@ + missing_logs_findings(
                        old(self)@,
                        event@,
                        old(project).lines@,
                    )
                    &&& match missing_logs_stopped(
                        old(self)@,
                        event@,
                        old(project).lines@,
                    ) {
                        Some(error) => result == Err::<(), Error>(error),
                        None => result is Ok,
                    }
                },
                Some(error) => {
                    &&& result == Err::<(), Error>(error)
                    &&& final(self)@ == old(self)@
                    &&& final(project).report@ == old(project).report@
                },
            },
    {
        let ghost reported = project.report@;
        assert(reported + Seq::<EntryView>::empty() =~= reported);
        match event.phase {
            Phase::Visit => match &event.node {
                Node::Module(context) => {
                    self.visit_module(context);
                    Ok(())
                },
                Node::Use(context) => {
                    if !self.has_module(context.path) {
                        return Err(Error::MissingModuleState);
                    }
                    self.visit_use(context);
                    Ok(())
                },
                Node::Fn(context) => {
                    if !self.has_module(context.path) {
                        return Err(Error::MissingModuleState);
                    }
                    self.visit_fn(context);
                    Ok(())
                },
                Node::Block(context) => {
                    match self.missing_fn(context.path, &context.item_fn.fn_signature.span) {
                        Some(error) => Err(error),
                        None => {
                            self.visit_block(context);
                            Ok(())
                        },
                    }
                },
                Node::Statement(context) => {
                    match self.missing_block(
                        context.path,
                        &context.item_fn.fn_signature.span,
                        &context.blocks,
                    ) {
                        Some(error) => Err(error),
                        None => {
                            assert(spans_view(context.blocks@).last() == context.blocks@.last()@);
                            self.visit_statement(context);
                            Ok(())
                        },
                    }
                },
                Node::Expr(context) => {
                    match self.missing_block(
                        context.path,
                        &context.item_fn.fn_signature.span,
                        &context.blocks,
                    ) {
                        Some(error) => Err(error),
                        None => {
                            assert(spans_view(context.blocks@).last() == context.blocks@.last()@);
                            self.visit_expr(context);
                            Ok(())
                        },
                    }
                },
                _ => Ok(()),
            },
            Phase::Leave => match &event.node {
                Node::Block(context) => {
                    if !self.has_module(context.path) {
                        return Err(Error::MissingModuleState);
                    }
                    if !self.has_fn(context.path, &context.item_fn.fn_signature.span) {
                        return Err(Error::MissingFnState);
                    }
                    if !self.has_block(
                        context.path,
                        &context.item_fn.fn_signature.span,
                        &context.block.span,
                    ) {
                        return Err(Error::MissingBlockState);
                    }
                    self.leave_block(context, project)
                },
                _ => Ok(()),
            },
        }
    }
}

} // verus!
