//! A walk prepares every step that it takes.
//!
//! A rule has no answer for a step in a module, a function or a block that
//! was not entered. The walk over a module enters each of them before it
//! takes a step inside, and what a rule keeps only grows; so on the walk of
//! a module every rule has an answer for every step. What can still end a
//! walk early is a finding whose span has no line: a run that ended so is
//! called stopped, and nothing more is asked of it.

pub mod walks;

use vstd::prelude::*;
use crate::detectors::DetectorView;
use crate::detectors::missing_logs::growth::{
    lemma_logs_enter_block, lemma_logs_enter_fn, lemma_logs_enter_module,
    lemma_logs_extend_self, lemma_logs_extend_twice, lemma_logs_stay_entered, lemma_logs_step,
    logs_extend, logs_wf,
};
use crate::detectors::missing_logs::visitor::{has_block, has_fn};
use crate::detectors::unused_import::state::ModuleStateView;
use crate::detectors::unused_import::visitor::{module_after, needs_module};
use crate::driver::{lemma_failed_stays, Outcome};
use crate::error::Error;
use crate::keyed::{
    keys_extend, lemma_first_key_extended, lemma_keys_extend_order, lemma_keys_extend_self,
};
use crate::span::SpanView;
use crate::syntax::expr::Block;
use crate::syntax::item::ItemFn;
use crate::visitor::{EventView, NodeView, Phase};
use crate::walk::{around, Events};

verus! {

impl DetectorView {
    /// Whether every list that the rule keeps has as many records as keys.
    pub open spec fn wf(self) -> bool {
        match self {
            DetectorView::UnusedImport(rule) => rule.wf(),
            DetectorView::MissingLogs(rule) => logs_wf(rule),
        }
    }

    /// Whether `later` is a rule of the same kind that keeps, at its place,
    /// everything that this one keeps.
    pub open spec fn extends_to(self, later: DetectorView) -> bool {
        match (self, later) {
            (DetectorView::UnusedImport(earlier), DetectorView::UnusedImport(later)) => keys_extend(
                earlier.keys,
                later.keys,
            ),
            (DetectorView::MissingLogs(earlier), DetectorView::MissingLogs(later)) => logs_extend(
                earlier,
                later,
            ),
            _ => false,
        }
    }

    /// Whether the module at `path` was entered.
    pub open spec fn in_module(self, path: Seq<char>) -> bool {
        match self {
            DetectorView::UnusedImport(rule) => rule.contains(path),
            DetectorView::MissingLogs(rule) => rule.contains(path),
        }
    }

    /// Whether the function `signature` of that module was entered, as far
    /// as the rule keeps track of functions.
    pub open spec fn in_fn(self, path: Seq<char>, signature: Seq<char>) -> bool {
        match self {
            DetectorView::UnusedImport(rule) => rule.contains(path),
            DetectorView::MissingLogs(rule) => has_fn(rule, path, signature),
        }
    }

    /// Whether the block spelled `block` of that function was entered, as
    /// far as the rule keeps track of blocks.
    pub open spec fn in_block(
        self,
        path: Seq<char>,
        signature: Seq<char>,
        block: Seq<char>,
    ) -> bool {
        match self {
            DetectorView::UnusedImport(rule) => rule.contains(path),
            DetectorView::MissingLogs(rule) => has_block(rule, path, signature, block),
        }
    }

    /// Whether what a step needs was entered: its module for a step on an
    /// item, its function for entering a block, and the innermost block
    /// around it for a step inside a function.
    pub open spec fn prepared(self, event: EventView) -> bool {
        match event.node {
            NodeView::Module { path } => event.phase == Phase::Visit || self.in_module(path),
            NodeView::Use { path, .. } => self.in_module(path),
            NodeView::StructField { path, .. } => self.in_module(path),
            NodeView::EnumField { path, .. } => self.in_module(path),
            NodeView::Fn { path, .. } => self.in_module(path),
            NodeView::StatementLet { path, .. } => self.in_module(path),
            NodeView::Trait { path, .. } => self.in_module(path),
            NodeView::Const { path, .. } => self.in_module(path),
            NodeView::StorageField { path, .. } => self.in_module(path),
            NodeView::ConfigurableField { path, .. } => self.in_module(path),
            NodeView::TypeAlias { path, .. } => self.in_module(path),
            NodeView::TraitType { path, .. } => self.in_module(path),
            NodeView::Block { path, item_fn, block } => match event.phase {
                Phase::Visit => self.in_fn(path, item_fn.fn_signature.span@.text),
                Phase::Leave => self.in_block(
                    path,
                    item_fn.fn_signature.span@.text,
                    block.span@.text,
                ),
            },
            NodeView::Statement { path, item_fn, blocks, .. } => blocks.len() > 0 && self.in_block(
                path,
                item_fn.fn_signature.span@.text,
                blocks.last().text,
            ),
            NodeView::Expr { path, item_fn, blocks, .. } => blocks.len() > 0 && self.in_block(
                path,
                item_fn.fn_signature.span@.text,
                blocks.last().text,
            ),
        }
    }

    /// A rule has an answer for every step that is prepared.
    pub proof fn lemma_answers(self, event: EventView)
        requires
            self.prepared(event),
        ensures
            self.missing(event).is_none(),
    {
    }

    /// A step that a rule has an answer for grows the rule.
    pub proof fn lemma_step(self, event: EventView)
        requires
            self.wf(),
            self.missing(event).is_none(),
        ensures
            self.after(event).wf(),
            self.extends_to(self.after(event)),
    {
        match self {
            DetectorView::UnusedImport(rule) => {
                lemma_keys_extend_self(rule.keys);
                match needs_module(event) {
                    Some(path) => {
                        rule.lemma_with(
                            path,
                            module_after(rule.get(path), event),
                        );
                    },
                    None => {
                        if let NodeView::Module { path } = event.node {
                            rule.lemma_ensured(
                                path,
                                ModuleStateView::empty(),
                            );
                        }
                    },
                }
            },
            DetectorView::MissingLogs(rule) => {
                lemma_logs_step(rule, event);
            },
        }
    }

    /// What was entered stays entered when a rule grows.
    pub proof fn lemma_stays(
        self,
        later: DetectorView,
        path: Seq<char>,
        signature: Seq<char>,
        block: Seq<char>,
    )
        requires
            self.wf(),
            later.wf(),
            self.extends_to(later),
        ensures
            self.in_module(path) ==> later.in_module(path),
            self.in_fn(path, signature) ==> later.in_fn(path, signature),
            self.in_block(path, signature, block) ==> later.in_block(path, signature, block),
    {
        match (self, later) {
            (DetectorView::UnusedImport(earlier), DetectorView::UnusedImport(later)) => {
                if earlier.contains(path) {
                    lemma_first_key_extended(earlier.keys, later.keys, path);
                }
            },
            (DetectorView::MissingLogs(earlier), DetectorView::MissingLogs(later)) => {
                lemma_logs_stay_entered(earlier, later, path, signature, block);
            },
            _ => {},
        }
    }

    /// A rule extends itself.
    pub proof fn lemma_extends_self(self)
        requires
            self.wf(),
        ensures
            self.extends_to(self),
    {
        match self {
            DetectorView::UnusedImport(rule) => {
                lemma_keys_extend_self(rule.keys);
            },
            DetectorView::MissingLogs(rule) => {
                lemma_logs_extend_self(rule);
            },
        }
    }

    /// Extending is transitive.
    pub proof fn lemma_extends_twice(self, second: DetectorView, third: DetectorView)
        requires
            self.wf(),
            second.wf(),
            third.wf(),
            self.extends_to(second),
            second.extends_to(third),
        ensures
            self.extends_to(third),
    {
        match (self, second, third) {
            (
                DetectorView::UnusedImport(first),
                DetectorView::UnusedImport(second),
                DetectorView::UnusedImport(third),
            ) => {
                lemma_keys_extend_order(first.keys, second.keys, third.keys);
            },
            (
                DetectorView::MissingLogs(first),
                DetectorView::MissingLogs(second),
                DetectorView::MissingLogs(third),
            ) => {
                lemma_logs_extend_twice(first, second, third);
            },
            _ => {},
        }
    }

    /// Entering a module, a function or a block leaves it entered.
    pub proof fn lemma_enters(self, event: EventView)
        requires
            self.wf(),
            self.prepared(event),
            event.phase == Phase::Visit,
        ensures
            match event.node {
                NodeView::Module { path } => self.after(event).in_module(path),
                NodeView::Fn { path, item_fn } => self.after(event).in_fn(
                    path,
                    item_fn.fn_signature.span@.text,
                ),
                NodeView::Block { path, item_fn, block } => self.after(event).in_block(
                    path,
                    item_fn.fn_signature.span@.text,
                    block.span@.text,
                ),
                _ => true,
            },
    {
        self.lemma_answers(event);
        self.lemma_step(event);
        match self {
            DetectorView::UnusedImport(rule) => {
                match event.node {
                    NodeView::Module { path } => {
                        rule.lemma_ensured(
                            path,
                            ModuleStateView::empty(),
                        );
                    },
                    NodeView::Fn { path, item_fn } => {
                        self.lemma_stays(self.after(event), path, Seq::empty(), Seq::empty());
                    },
                    NodeView::Block { path, item_fn, block } => {
                        self.lemma_stays(self.after(event), path, Seq::empty(), Seq::empty());
                    },
                    _ => {},
                }
            },
            DetectorView::MissingLogs(rule) => {
                match event.node {
                    NodeView::Module { path } => {
                        lemma_logs_enter_module(rule, path);
                    },
                    NodeView::Fn { path, item_fn } => {
                        lemma_logs_enter_fn(rule, path, item_fn.fn_signature.span@.text);
                    },
                    NodeView::Block { path, item_fn, block } => {
                        lemma_logs_enter_block(
                            rule,
                            path,
                            item_fn.fn_signature.span@.text,
                            block.span@.text,
                        );
                    },
                    _ => {},
                }
            },
        }
    }
}

impl Outcome {
    /// Whether the run was ended by a finding whose span has no line.
    pub open spec fn stopped(self) -> bool {
        self.result == Err::<(), Error>(Error::LineNotFound)
    }

    /// Whether the run is stopped, or no step has failed and every rule is
    /// well formed.
    #[verifier::opaque]
    pub open spec fn steady(self) -> bool {
        ||| self.stopped()
        ||| {
            &&& self.result is Ok
            &&& forall|i: int| 0 <= i < self.rules.len() ==> (#[trigger] self.rules[i]).wf()
        }
    }

    /// Whether `later` is stopped, or neither run is, `later` is steady and
    /// it holds, place by place, rules that extend the rules of this
    /// outcome.
    #[verifier::opaque]
    pub open spec fn grown_to(self, later: Outcome) -> bool {
        ||| later.stopped()
        ||| {
            &&& !self.stopped()
            &&& later.steady()
            &&& later.rules.len() == self.rules.len()
            &&& forall|i: int|
                0 <= i < self.rules.len() ==> self.rules[i].extends_to(#[trigger] later.rules[i])
        }
    }

    /// Whether the run is stopped or every rule is prepared for `event`.
    #[verifier::opaque]
    pub open spec fn prepared(self, event: EventView) -> bool {
        ||| self.stopped()
        ||| forall|i: int| 0 <= i < self.rules.len() ==> (#[trigger] self.rules[i]).prepared(event)
    }

    /// Whether the run is stopped, or it is steady and every rule has
    /// entered the module at `path`.
    #[verifier::opaque]
    pub open spec fn in_module(self, path: Seq<char>) -> bool {
        ||| self.stopped()
        ||| {
            &&& self.steady()
            &&& forall|i: int|
                0 <= i < self.rules.len() ==> (#[trigger] self.rules[i]).in_module(path)
        }
    }

    /// Whether the run is stopped or, besides, every rule has entered the
    /// function `item_fn`.
    #[verifier::opaque]
    pub open spec fn in_fn(self, path: Seq<char>, item_fn: ItemFn) -> bool {
        ||| self.stopped()
        ||| {
            &&& self.in_module(path)
            &&& forall|i: int|
                0 <= i < self.rules.len() ==> (#[trigger] self.rules[i]).in_fn(
                    path,
                    item_fn.fn_signature.span@.text,
                )
        }
    }

    /// Whether the run is stopped or, besides, there is a block around the
    /// place and every rule has entered the innermost one.
    #[verifier::opaque]
    pub open spec fn in_blocks(
        self,
        path: Seq<char>,
        item_fn: ItemFn,
        blocks: Seq<SpanView>,
    ) -> bool {
        ||| self.stopped()
        ||| {
            &&& self.in_fn(path, item_fn)
            &&& blocks.len() > 0
            &&& forall|i: int|
                0 <= i < self.rules.len() ==> (#[trigger] self.rules[i]).in_block(
                    path,
                    item_fn.fn_signature.span@.text,
                    blocks.last().text,
                )
        }
    }

    /// A run inside blocks is inside their function, a run inside a
    /// function is inside its module, and a run inside a module is steady.
    pub proof fn lemma_inside(self, path: Seq<char>, item_fn: ItemFn, blocks: Seq<SpanView>)
        ensures
            self.in_blocks(path, item_fn, blocks) ==> self.in_fn(path, item_fn),
            self.in_fn(path, item_fn) ==> self.in_module(path),
            self.in_module(path) ==> self.steady(),
    {
        reveal(Outcome::in_blocks);
        reveal(Outcome::in_fn);
        reveal(Outcome::in_module);
        reveal(Outcome::steady);
    }

    /// Telling a step to the first rules either stops the run or leaves the
    /// other rules as they are, and gives each of the first what it is
    /// after the step.
    proof fn lemma_told_first(self, event: EventView, count: nat)
        requires
            self.steady(),
            self.prepared(event),
            count <= self.rules.len(),
        ensures
            self.told_first(event, count).rules.len() == self.rules.len(),
            self.stopped() ==> self.told_first(event, count) == self,
            !self.told_first(event, count).stopped() ==> {
                &&& self.told_first(event, count).result is Ok
                &&& forall|i: int|
                    0 <= i < self.rules.len() ==> #[trigger] self.told_first(event, count).rules[i]
                        == (if i < count {
                        self.rules[i].after(event)
                    } else {
                        self.rules[i]
                    })
            },
        decreases count,
    {
        reveal(Outcome::steady);
        reveal(Outcome::prepared);
        if self.stopped() {
            lemma_failed_stays(self, event, count);
        } else if count > 0 {
            self.lemma_told_first(event, (count - 1) as nat);
            let before = self.told_first(event, (count - 1) as nat);
            if !before.stopped() {
                assert(before.rules[count - 1] == self.rules[count - 1]);
                self.rules[count - 1].lemma_answers(event);
            }
        }
    }

    /// A step that every rule is prepared for grows the run and, unless it
    /// stops the run, gives every rule what it is after the step.
    pub proof fn lemma_told_all(self, event: EventView)
        requires
            self.steady(),
            self.prepared(event),
        ensures
            self.grown_to(self.told_all(event)),
            self.told_all(event).rules.len() == self.rules.len(),
            !self.told_all(event).stopped() ==> forall|i: int|
                0 <= i < self.rules.len() ==> #[trigger] self.told_all(event).rules[i]
                    == self.rules[i].after(event),
    {
        reveal(Outcome::steady);
        reveal(Outcome::prepared);
        reveal(Outcome::grown_to);
        self.lemma_told_first(event, self.rules.len());
        let after = self.told_all(event);
        if !after.stopped() {
            assert forall|i: int| 0 <= i < self.rules.len() implies (
            #[trigger] after.rules[i]).wf() && self.rules[i].extends_to(after.rules[i]) by {
                self.rules[i].lemma_answers(event);
                self.rules[i].lemma_step(event);
            }
        }
    }

    /// A run grows to itself.
    pub proof fn lemma_grown_self(self)
        requires
            self.steady(),
        ensures
            self.grown_to(self),
    {
        reveal(Outcome::steady);
        reveal(Outcome::grown_to);
        if !self.stopped() {
            assert forall|i: int| 0 <= i < self.rules.len() implies self.rules[i].extends_to(
                #[trigger] self.rules[i],
            ) by {
                self.rules[i].lemma_extends_self();
            }
        }
    }

    /// Growing is transitive.
    pub proof fn lemma_grown_twice(self, second: Outcome, third: Outcome)
        requires
            self.steady(),
            self.grown_to(second),
            second.grown_to(third),
        ensures
            self.grown_to(third),
    {
        reveal(Outcome::steady);
        reveal(Outcome::grown_to);
        if !third.stopped() {
            assert forall|i: int| 0 <= i < self.rules.len() implies self.rules[i].extends_to(
                #[trigger] third.rules[i],
            ) by {
                assert(self.rules[i].extends_to(second.rules[i]));
                assert(second.rules[i].extends_to(third.rules[i]));
                self.rules[i].lemma_extends_twice(second.rules[i], third.rules[i]);
            }
        }
    }

    /// What was entered stays entered when a run grows.
    pub proof fn lemma_grown_keeps(
        self,
        later: Outcome,
        path: Seq<char>,
        item_fn: ItemFn,
        blocks: Seq<SpanView>,
    )
        requires
            self.steady(),
            self.grown_to(later),
        ensures
            later.steady(),
            self.in_module(path) ==> later.in_module(path),
            self.in_fn(path, item_fn) ==> later.in_fn(path, item_fn),
            self.in_blocks(path, item_fn, blocks) ==> later.in_blocks(path, item_fn, blocks),
    {
        reveal(Outcome::steady);
        reveal(Outcome::grown_to);
        reveal(Outcome::in_module);
        reveal(Outcome::in_fn);
        reveal(Outcome::in_blocks);
        let signature = item_fn.fn_signature.span@.text;
        let block = if blocks.len() > 0 {
            blocks.last().text
        } else {
            Seq::empty()
        };
        if !later.stopped() {
            assert forall|i: int| 0 <= i < self.rules.len() implies (self.rules[i].in_module(path)
                ==> (#[trigger] later.rules[i]).in_module(path)) && (self.rules[i].in_fn(
                path,
                signature,
            ) ==> later.rules[i].in_fn(path, signature)) && (self.rules[i].in_block(
                path,
                signature,
                block,
            ) ==> later.rules[i].in_block(path, signature, block)) by {
                assert(self.rules[i].extends_to(later.rules[i]));
                self.rules[i].lemma_stays(later.rules[i], path, signature, block);
            }
        }
    }

    /// Inside a module every rule is prepared for a step on an item of the
    /// module, and for leaving the module.
    pub proof fn lemma_prepared_in_module(self, path: Seq<char>, event: EventView)
        requires
            self.in_module(path),
            match event.node {
                NodeView::Module { path: at } => at == path,
                NodeView::Use { path: at, .. } => at == path,
                NodeView::StructField { path: at, .. } => at == path,
                NodeView::EnumField { path: at, .. } => at == path,
                NodeView::Fn { path: at, .. } => at == path,
                NodeView::StatementLet { path: at, .. } => at == path,
                NodeView::Trait { path: at, .. } => at == path,
                NodeView::Const { path: at, .. } => at == path,
                NodeView::StorageField { path: at, .. } => at == path,
                NodeView::ConfigurableField { path: at, .. } => at == path,
                NodeView::TypeAlias { path: at, .. } => at == path,
                NodeView::TraitType { path: at, .. } => at == path,
                _ => false,
            },
        ensures
            self.prepared(event),
    {
        reveal(Outcome::in_module);
        reveal(Outcome::prepared);
    }

    /// Inside a function every rule is prepared for entering a block of it.
    pub proof fn lemma_prepared_in_fn(self, path: Seq<char>, item_fn: ItemFn, block: Block)
        requires
            self.in_fn(path, item_fn),
        ensures
            self.prepared(EventView::visit(NodeView::Block { path, item_fn, block })),
    {
        reveal(Outcome::in_fn);
        reveal(Outcome::prepared);
    }

    /// Inside blocks every rule is prepared for a step on a statement or an
    /// expression there, and for leaving the innermost block.
    pub proof fn lemma_prepared_in_blocks(
        self,
        path: Seq<char>,
        item_fn: ItemFn,
        blocks: Seq<SpanView>,
        event: EventView,
    )
        requires
            self.in_blocks(path, item_fn, blocks),
            match event.node {
                NodeView::Statement { path: at, item_fn: around, blocks: seen, .. } => at == path
                    && around == item_fn && seen == blocks,
                NodeView::Expr { path: at, item_fn: around, blocks: seen, .. } => at == path
                    && around == item_fn && seen == blocks,
                NodeView::Block { path: at, item_fn: around, block } => at == path && around
                    == item_fn && block.span@ == blocks.last() && event.phase == Phase::Leave,
                _ => false,
            },
        ensures
            self.prepared(event),
    {
        reveal(Outcome::in_blocks);
        reveal(Outcome::prepared);
    }

    /// Every rule is prepared for entering a module.
    pub proof fn lemma_prepared_for_module(self, path: Seq<char>)
        ensures
            self.prepared(EventView::visit(NodeView::Module { path })),
    {
        reveal(Outcome::prepared);
    }

    /// After a module was entered the run is inside it.
    pub proof fn lemma_entered_module(self, path: Seq<char>)
        requires
            self.steady(),
        ensures
            self.told_all(EventView::visit(NodeView::Module { path })).in_module(path),
    {
        let event = EventView::visit(NodeView::Module { path });
        self.lemma_prepared_for_module(path);
        self.lemma_told_all(event);
        reveal(Outcome::steady);
        reveal(Outcome::grown_to);
        reveal(Outcome::prepared);
        reveal(Outcome::in_module);
        let after = self.told_all(event);
        if !after.stopped() {
            assert forall|i: int| 0 <= i < after.rules.len() implies (
            #[trigger] after.rules[i]).in_module(path) by {
                self.rules[i].lemma_enters(event);
            }
        }
    }

    /// After a function was entered the run is inside it.
    pub proof fn lemma_entered_fn(self, path: Seq<char>, item_fn: ItemFn)
        requires
            self.in_module(path),
        ensures
            self.told_all(EventView::visit(NodeView::Fn { path, item_fn })).in_fn(path, item_fn),
    {
        let event = EventView::visit(NodeView::Fn { path, item_fn });
        self.lemma_inside(path, item_fn, Seq::empty());
        self.lemma_prepared_in_module(path, event);
        self.lemma_told_all(event);
        let after = self.told_all(event);
        self.lemma_grown_keeps(after, path, item_fn, Seq::empty());
        reveal(Outcome::steady);
        reveal(Outcome::prepared);
        reveal(Outcome::in_module);
        reveal(Outcome::in_fn);
        reveal(Outcome::grown_to);
        if !after.stopped() {
            assert forall|i: int| 0 <= i < after.rules.len() implies (
            #[trigger] after.rules[i]).in_fn(path, item_fn.fn_signature.span@.text) by {
                self.rules[i].lemma_enters(event);
            }
        }
    }

    /// After a block was entered the run is inside it.
    pub proof fn lemma_entered_block(
        self,
        path: Seq<char>,
        item_fn: ItemFn,
        blocks: Seq<SpanView>,
        block: Block,
    )
        requires
            self.in_fn(path, item_fn),
        ensures
            self.told_all(EventView::visit(NodeView::Block { path, item_fn, block })).in_blocks(
                path,
                item_fn,
                blocks.push(block.span@),
            ),
    {
        let event = EventView::visit(NodeView::Block { path, item_fn, block });
        self.lemma_inside(path, item_fn, Seq::empty());
        self.lemma_prepared_in_fn(path, item_fn, block);
        self.lemma_told_all(event);
        let after = self.told_all(event);
        self.lemma_grown_keeps(after, path, item_fn, Seq::empty());
        reveal(Outcome::steady);
        reveal(Outcome::prepared);
        reveal(Outcome::in_module);
        reveal(Outcome::in_fn);
        reveal(Outcome::in_blocks);
        reveal(Outcome::grown_to);
        if !after.stopped() {
            assert forall|i: int| 0 <= i < after.rules.len() implies (
            #[trigger] after.rules[i]).in_block(
                path,
                item_fn.fn_signature.span@.text,
                blocks.push(block.span@).last().text,
            ) by {
                self.rules[i].lemma_enters(event);
            }
        }
    }

    /// Running no event changes nothing, and running one event is telling
    /// it to every rule.
    pub proof fn lemma_ran_one(self, event: EventView)
        ensures
            self.ran(Seq::empty()) == self,
            self.ran(seq![event]) == self.told_all(event),
    {
        assert(seq![event].drop_last() =~= Seq::<EventView>::empty());
    }

    /// Running two runs of events one after the other is running the one
    /// run that they make together.
    pub proof fn lemma_ran_concat(self, first: Events, second: Events)
        ensures
            self.ran(first + second) == self.ran(first).ran(second),
        decreases second.len(),
    {
        if second.len() == 0 {
            assert(first + second =~= first);
        } else {
            self.lemma_ran_concat(first, second.drop_last());
            assert((first + second).drop_last() =~= first + second.drop_last());
            assert((first + second).last() == second.last());
        }
    }

    /// Running the walk around a node is entering the node, running the
    /// walks over its parts, and leaving the node.
    pub proof fn lemma_ran_around(self, node: NodeView, parts: Events)
        ensures
            self.ran(around(node, parts)) == self.told_all(EventView::visit(node)).ran(
                parts,
            ).told_all(EventView::leave(node)),
    {
        let visit = seq![EventView::visit(node)];
        let leave = seq![EventView::leave(node)];
        self.lemma_ran_concat(visit + parts, leave);
        self.lemma_ran_concat(visit, parts);
        self.lemma_ran_one(EventView::visit(node));
        self.ran(visit + parts).lemma_ran_one(EventView::leave(node));
    }
}

} // verus!
