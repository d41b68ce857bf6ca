//! The rule as a walk sees it: what it does on entering and on leaving each
//! construct.

use vstd::prelude::*;
use crate::detectors::references::{
    const_refs, expr_refs, let_refs, signature_refs, storage_field_refs, trait_refs,
    trait_type_refs, ty_refs,
};
use crate::detectors::unused_import::state::{ModuleState, ModuleStateView};
use crate::error::Error;
use crate::keyed::{first_key, Keyed, KeyedView};
use crate::project::{EntryView, LinesView, Project};
use crate::visitor::{
    ConfigurableFieldContext, ConstContext, EnumFieldContext, Event, EventView, ExprContext,
    FnContext, ModuleContext, Node, NodeView, Phase, StatementLetContext, StorageFieldContext,
    StructFieldContext, TraitContext, TraitTypeContext, TypeAliasContext, UseContext,
};

verus! {

/// The rule itself: what it keeps about each module that a walk has entered.
pub struct UnusedImportVisitor {
    module_states: Keyed<ModuleState>,
}

impl View for UnusedImportVisitor {
    type V = KeyedView<ModuleStateView>;

    closed spec fn view(&self) -> KeyedView<ModuleStateView> {
        self.module_states@
    }
}

impl Default for UnusedImportVisitor {
    fn default() -> (visitor: UnusedImportVisitor)
        ensures
            visitor@ == KeyedView::<ModuleStateView>::empty(),
    {
        UnusedImportVisitor::new()
    }
}

impl UnusedImportVisitor {
    /// The rule keeps as many states as paths.
    pub proof fn lemma_wf(self)
        ensures
            self@.wf(),
    {
    }

    /// The rule before any module was entered.
    pub fn new() -> (visitor: UnusedImportVisitor)
        ensures
            visitor@ == KeyedView::<ModuleStateView>::empty(),
    {
        UnusedImportVisitor { module_states: Keyed::new() }
    }

    /// Whether the module at `path` was entered.
    pub fn has_module(&self, path: &str) -> (entered: bool)
        ensures
            entered == self@.contains(path@),
    {
        self.module_states.find(path).is_some()
    }

    /// What the rule keeps about the module at `path`, if it was entered.
    pub fn module_state(&self, path: &str) -> (state: Option<&ModuleState>)
        ensures
            match state {
                Some(state) => self@.contains(path@) && state@ == self@.get(path@),
                None => !self@.contains(path@),
            },
    {
        match self.module_states.find(path) {
            Some(place) => Some(&self.module_states.entries[place].value),
            None => None,
        }
    }

    /// The place of the state of a module that was entered.
    fn place(&self, path: &str) -> (place: usize)
        requires
            self@.contains(path@),
        ensures
            place < self.module_states.entries.len(),
            first_key(self@.keys, path@) == Some(place as nat),
            self@.get(path@) == self.module_states.entries[place as int].value@,
            self@.wf(),
    {
        match self.module_states.find(path) {
            Some(place) => place,
            None => 0,
        }
    }

    /// Entering a module: the rule starts to keep a state for it, with no
    /// import registered, unless it keeps one already.
    pub fn visit_module(&mut self, context: &ModuleContext)
        ensures
            final(self)@ == old(self)@.ensured(context.path@, ModuleStateView::empty()),
            final(self)@.contains(context.path@),
    {
        self.module_states.ensure(context.path, ModuleState::new());
    }

    /// Leaving a module: every import that was never used is reported, with
    /// low severity, at the line of its name. What the rule keeps stays.
    ///
    /// The first such name whose span has no line ends the report with
    /// `Error::LineNotFound`; what was reported before it stays.
    pub fn leave_module(&self, context: &ModuleContext, project: &mut Project) -> (result: Result<
        (),
        Error,
    >)
        requires
            self@.contains(context.path@),
        ensures
            old(project).reported_to(*final(project)),
            final(project).report@ == old(project).report@ + self@.get(context.path@).findings(
                old(project).lines@,
                context.path@,
            ),
            match result {
                Ok(_) => !self@.get(context.path@).stopped(old(project).lines@, context.path@),
                Err(error) => error == Error::LineNotFound && self@.get(context.path@).stopped(
                    old(project).lines@,
                    context.path@,
                ),
            },
    {
        let place = self.place(context.path);
        self.module_states.entries[place].value.report_unused(context.path, project)
    }

    /// A `use` item: the names it imports are registered.
    pub fn visit_use(&mut self, context: &UseContext)
        requires
            old(self)@.contains(context.path@),
        ensures
            final(self)@ == old(self)@.with(
                context.path@,
                old(self)@.get(context.path@).imported(context.item_use@.tree),
            ),
    {
        let place = self.place(context.path);
        self.module_states.entries[place].value.import_use_tree(&context.item_use.tree);
        proof {
            self.module_states.lemma_changed_at(old(self).module_states, place as int);
        }
    }

    /// A field of a struct: what its type refers to counts as used.
    pub fn visit_struct_field(&mut self, context: &StructFieldContext)
        requires
            old(self)@.contains(context.path@),
        ensures
            final(self)@ == old(self)@.with(
                context.path@,
                old(self)@.get(context.path@).used_all(ty_refs(context.field.ty@)),
            ),
    {
        let place = self.place(context.path);
        self.module_states.entries[place].value.check_ty_usage(&context.field.ty);
        proof {
            self.module_states.lemma_changed_at(old(self).module_states, place as int);
        }
    }

    /// A variant of an enum: what its type refers to counts as used.
    pub fn visit_enum_field(&mut self, context: &EnumFieldContext)
        requires
            old(self)@.contains(context.path@),
        ensures
            final(self)@ == old(self)@.with(
                context.path@,
                old(self)@.get(context.path@).used_all(ty_refs(context.field.ty@)),
            ),
    {
        let place = self.place(context.path);
        self.module_states.entries[place].value.check_ty_usage(&context.field.ty);
        proof {
            self.module_states.lemma_changed_at(old(self).module_states, place as int);
        }
    }

    /// A function: what its `where` clause and its arguments refer to counts as
    /// used.
    pub fn visit_fn(&mut self, context: &FnContext)
        requires
            old(self)@.contains(context.path@),
        ensures
            final(self)@ == old(self)@.with(
                context.path@,
                old(self)@.get(context.path@).used_all(
                    signature_refs(context.item_fn.fn_signature@),
                ),
            ),
    {
        let place = self.place(context.path);
        self.module_states.entries[place].value.check_signature_usage(
            &context.item_fn.fn_signature,
        );
        proof {
            self.module_states.lemma_changed_at(old(self).module_states, place as int);
        }
    }

    /// A `let`: what its pattern, its type and its expression refer to counts
    /// as used.
    pub fn visit_statement_let(&mut self, context: &StatementLetContext)
        requires
            old(self)@.contains(context.path@),
        ensures
            final(self)@ == old(self)@.with(
                context.path@,
                old(self)@.get(context.path@).used_all(
                    let_refs(
                        context.pattern@,
                        match context.ty {
                            Some(ty) => Some(ty@),
                            None => None,
                        },
                        context.expr@,
                    ),
                ),
            ),
    {
        let place = self.place(context.path);
        self.module_states.entries[place].value.check_let_usage(
            context.pattern,
            context.ty,
            context.expr,
        );
        proof {
            self.module_states.lemma_changed_at(old(self).module_states, place as int);
        }
    }

    /// An expression: the path expressions in it count as uses.
    pub fn visit_expr(&mut self, context: &ExprContext)
        requires
            old(self)@.contains(context.path@),
        ensures
            final(self)@ == old(self)@.with(
                context.path@,
                old(self)@.get(context.path@).used_all(expr_refs(context.expr@)),
            ),
    {
        let place = self.place(context.path);
        self.module_states.entries[place].value.check_expr_usage(context.expr);
        proof {
            self.module_states.lemma_changed_at(old(self).module_states, place as int);
        }
    }

    /// A trait: what its supertraits and its `where` clause refer to counts as
    /// used.
    pub fn visit_trait(&mut self, context: &TraitContext)
        requires
            old(self)@.contains(context.path@),
        ensures
            final(self)@ == old(self)@.with(
                context.path@,
                old(self)@.get(context.path@).used_all(trait_refs(context.item_trait@)),
            ),
    {
        let place = self.place(context.path);
        self.module_states.entries[place].value.check_trait_usage(context.item_trait);
        proof {
            self.module_states.lemma_changed_at(old(self).module_states, place as int);
        }
    }

    /// A constant: what its type and its value refer to counts as used.
    pub fn visit_const(&mut self, context: &ConstContext)
        requires
            old(self)@.contains(context.path@),
        ensures
            final(self)@ == old(self)@.with(
                context.path@,
                old(self)@.get(context.path@).used_all(const_refs(context.item_const@)),
            ),
    {
        let place = self.place(context.path);
        self.module_states.entries[place].value.check_const_usage(context.item_const);
        proof {
            self.module_states.lemma_changed_at(old(self).module_states, place as int);
        }
    }

    /// A storage field: what its type and its first value refer to counts as
    /// used.
    pub fn visit_storage_field(&mut self, context: &StorageFieldContext)
        requires
            old(self)@.contains(context.path@),
        ensures
            final(self)@ == old(self)@.with(
                context.path@,
                old(self)@.get(context.path@).used_all(storage_field_refs(context.field@)),
            ),
    {
        let place = self.place(context.path);
        self.module_states.entries[place].value.check_storage_field_usage(context.field);
        proof {
            self.module_states.lemma_changed_at(old(self).module_states, place as int);
        }
    }

    /// A configurable: what its type and its first value refer to counts as
    /// used.
    pub fn visit_configurable_field(&mut self, context: &ConfigurableFieldContext)
        requires
            old(self)@.contains(context.path@),
        ensures
            final(self)@ == old(self)@.with(
                context.path@,
                old(self)@.get(context.path@).used_all(storage_field_refs(context.field@)),
            ),
    {
        let place = self.place(context.path);
        self.module_states.entries[place].value.check_storage_field_usage(context.field);
        proof {
            self.module_states.lemma_changed_at(old(self).module_states, place as int);
        }
    }

    /// A type alias: what the aliased type refers to counts as used.
    pub fn visit_type_alias(&mut self, context: &TypeAliasContext)
        requires
            old(self)@.contains(context.path@),
        ensures
            final(self)@ == old(self)@.with(
                context.path@,
                old(self)@.get(context.path@).used_all(ty_refs(context.item_type_alias.ty@)),
            ),
    {
        let place = self.place(context.path);
        self.module_states.entries[place].value.check_ty_usage(&context.item_type_alias.ty);
        proof {
            self.module_states.lemma_changed_at(old(self).module_states, place as int);
        }
    }

    /// An associated type: what it refers to counts as used.
    pub fn visit_trait_type(&mut self, context: &TraitTypeContext)
        requires
            old(self)@.contains(context.path@),
        ensures
            final(self)@ == old(self)@.with(
                context.path@,
                old(self)@.get(context.path@).used_all(trait_type_refs(context.item_type@)),
            ),
    {
        let place = self.place(context.path);
        self.module_states.entries[place].value.check_trait_type_usage(context.item_type);
        proof {
            self.module_states.lemma_changed_at(old(self).module_states, place as int);
        }
    }
}


/// What the rule keeps about every module that a walk has entered.
pub type UnusedImportView = KeyedView<ModuleStateView>;

/// The module that a step must have been entered for the rule to take it:
/// every step that the rule acts on, but for entering a module, needs the
/// state of its module.
pub open spec fn needs_module(event: EventView) -> Option<Seq<char>> {
    match event.phase {
        Phase::Visit => match event.node {
            NodeView::Module { .. } | NodeView::Block { .. } | NodeView::Statement { .. } => None,
            NodeView::Use { path, .. } => Some(path),
            NodeView::StructField { path, .. } => Some(path),
            NodeView::EnumField { path, .. } => Some(path),
            NodeView::Fn { path, .. } => Some(path),
            NodeView::StatementLet { path, .. } => Some(path),
            NodeView::Expr { path, .. } => Some(path),
            NodeView::Trait { path, .. } => Some(path),
            NodeView::Const { path, .. } => Some(path),
            NodeView::StorageField { path, .. } => Some(path),
            NodeView::ConfigurableField { path, .. } => Some(path),
            NodeView::TypeAlias { path, .. } => Some(path),
            NodeView::TraitType { path, .. } => Some(path),
        },
        Phase::Leave => match event.node {
            NodeView::Module { path } => Some(path),
            _ => None,
        },
    }
}

/// What a step changes about one module: the names that an import
/// registers, or the texts that the construct refers to, counted as uses.
pub open spec fn module_after(state: ModuleStateView, event: EventView) -> ModuleStateView {
    match event.phase {
        Phase::Visit => match event.node {
            NodeView::Use { item_use, .. } => state.imported(item_use@.tree),
            NodeView::StructField { field, .. } => state.used_all(ty_refs(field.ty@)),
            NodeView::EnumField { field, .. } => state.used_all(ty_refs(field.ty@)),
            NodeView::Fn { item_fn, .. } => state.used_all(signature_refs(item_fn.fn_signature@)),
            NodeView::StatementLet { pattern, ty, expr, .. } => state.used_all(
                let_refs(
                    pattern@,
                    match ty {
                        Some(ty) => Some(ty@),
                        None => None,
                    },
                    expr@,
                ),
            ),
            NodeView::Expr { expr, .. } => state.used_all(expr_refs(expr@)),
            NodeView::Trait { item_trait, .. } => state.used_all(trait_refs(item_trait@)),
            NodeView::Const { item_const, .. } => state.used_all(const_refs(item_const@)),
            NodeView::StorageField { field, .. } => state.used_all(storage_field_refs(field@)),
            NodeView::ConfigurableField { field, .. } => state.used_all(storage_field_refs(field@)),
            NodeView::TypeAlias { item_type_alias, .. } => state.used_all(
                ty_refs(item_type_alias.ty@),
            ),
            NodeView::TraitType { item_type, .. } => state.used_all(trait_type_refs(item_type@)),
            NodeView::Module { .. } | NodeView::Block { .. } | NodeView::Statement { .. } => state,
        },
        Phase::Leave => state,
    }
}

/// The rule after a step that it was ready for.
pub open spec fn unused_import_after(rule: UnusedImportView, event: EventView) -> UnusedImportView {
    match needs_module(event) {
        Some(path) => rule.with(path, module_after(rule.get(path), event)),
        None => match event {
            EventView { phase: Phase::Visit, node: NodeView::Module { path } } => rule.ensured(
                path,
                ModuleStateView::empty(),
            ),
            _ => rule,
        },
    }
}

/// What the rule reports at a step: on leaving a module, the imports that
/// were never used, up to the first whose span has no line.
pub open spec fn unused_import_findings(
    rule: UnusedImportView,
    event: EventView,
    lines: LinesView,
) -> Seq<EntryView> {
    match event {
        EventView { phase: Phase::Leave, node: NodeView::Module { path } } => rule.get(
            path,
        ).findings(lines, path),
        _ => Seq::empty(),
    }
}

/// Why a step that the rule was ready for ends the walk, if it does: on
/// leaving a module, an import that was never used and whose span has no
/// line.
pub open spec fn unused_import_stopped(
    rule: UnusedImportView,
    event: EventView,
    lines: LinesView,
) -> Option<Error> {
    match event {
        EventView { phase: Phase::Leave, node: NodeView::Module { path } } => if rule.get(
            path,
        ).stopped(lines, path) {
            Some(Error::LineNotFound)
        } else {
            None
        },
        _ => None,
    }
}

/// Whether the rule is ready for a step.
pub open spec fn unused_import_ready(rule: UnusedImportView, event: EventView) -> bool {
    match needs_module(event) {
        Some(path) => rule.contains(path),
        None => true,
    }
}

impl UnusedImportVisitor {
    /// Takes one step of a walk.
    ///
    /// A step that the rule is ready for changes what the rule keeps as
    /// `unused_import_after` says and reports what `unused_import_findings`
    /// says; it fails exactly where `unused_import_stopped` gives a reason.
    /// A step in a module that was not entered changes nothing and is
    /// answered with `Error::MissingModuleState`.
    pub fn handle(&mut self, event: &Event, project: &mut Project) -> (result: Result<(), Error>)
        ensures
            old(project).reported_to(*final(project)),
            if unused_import_ready(old(self)@, event@) {
                &&& final(self)@ == unused_import_after(old(self)@, event@)
                &&& final(project).report@ == old(project).report@ + unused_import_findings(
                    old(self)@,
                    event@,
                    old(project).lines@,
                )
                &&& match unused_import_stopped(
                    old(self)@,
                    event@,
                    old(project).lines@,
                ) {
                    Some(error) => result == Err::<(), Error>(error),
                    None => result is Ok,
                }
            } else {
                &&& result == Err::<(), Error>(Error::MissingModuleState)
                &&& final(self)@ == old(self)@
                &&& final(project).report@ == old(project).report@
            },
    {
        let ghost reported = project.report@;
        assert(reported + Seq::<EntryView>::empty() =~= reported);
        match event.phase {
            Phase::Visit => match &event.node {
                Node::Module(context) => {
                    self.visit_module(context);
                    Ok(())
                },
                Node::Use(context) => {
                    if !self.has_module(context.path) {
                        return Err(Error::MissingModuleState);
                    }
                    self.visit_use(context);
                    Ok(())
                },
                Node::StructField(context) => {
                    if !self.has_module(context.path) {
                        return Err(Error::MissingModuleState);
                    }
                    self.visit_struct_field(context);
                    Ok(())
                },
                Node::EnumField(context) => {
                    if !self.has_module(context.path) {
                        return Err(Error::MissingModuleState);
                    }
                    self.visit_enum_field(context);
                    Ok(())
                },
                Node::Fn(context) => {
                    if !self.has_module(context.path) {
                        return Err(Error::MissingModuleState);
                    }
                    self.visit_fn(context);
                    Ok(())
                },
                Node::StatementLet(context) => {
                    if !self.has_module(context.path) {
                        return Err(Error::MissingModuleState);
                    }
                    self.visit_statement_let(context);
                    Ok(())
                },
                Node::Expr(context) => {
                    if !self.has_module(context.path) {
                        return Err(Error::MissingModuleState);
                    }
                    self.visit_expr(context);
                    Ok(())
                },
                Node::Trait(context) => {
                    if !self.has_module(context.path) {
                        return Err(Error::MissingModuleState);
                    }
                    self.visit_trait(context);
                    Ok(())
                },
                Node::Const(context) => {
                    if !self.has_module(context.path) {
                        return Err(Error::MissingModuleState);
                    }
                    self.visit_const(context);
                    Ok(())
                },
                Node::StorageField(context) => {
                    if !self.has_module(context.path) {
                        return Err(Error::MissingModuleState);
                    }
                    self.visit_storage_field(context);
                    Ok(())
                },
                Node::ConfigurableField(context) => {
                    if !self.has_module(context.path) {
                        return Err(Error::MissingModuleState);
                    }
                    self.visit_configurable_field(context);
                    Ok(())
                },
                Node::TypeAlias(context) => {
                    if !self.has_module(context.path) {
                        return Err(Error::MissingModuleState);
                    }
                    self.visit_type_alias(context);
                    Ok(())
                },
                Node::TraitType(context) => {
                    if !self.has_module(context.path) {
                        return Err(Error::MissingModuleState);
                    }
                    self.visit_trait_type(context);
                    Ok(())
                },
                Node::Block(_) | Node::Statement(_) => Ok(()),
            },
            Phase::Leave => match &event.node {
                Node::Module(context) => {
                    if !self.has_module(context.path) {
                        return Err(Error::MissingModuleState);
                    }
                    proof {
                        self.module_states.lemma_wf();
                        self@.lemma_with_same(context.path@);
                    }
                    self.leave_module(context, project)
                },
                _ => Ok(()),
            },
        }
    }
}

} // verus!
