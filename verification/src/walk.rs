//! The walk over a module: which constructs are entered and left, in which
//! order.
//!
//! The walk is depth first. A construct is entered before any of its parts
//! is visited and left after the last of them, so what a rule does on
//! entering comes before anything it does for a part, and what it does on
//! leaving sees everything that the parts brought about.

use vstd::prelude::*;
use crate::span::{Span, SpanView};
use crate::syntax::expr::{Block, Expr, ExprField, ExprKind, MatchBranch, Statement};
use crate::syntax::item::{
    ItemConst, ItemFn, ItemImplItem, ItemKind, ItemTraitItem, Module, StorageField, TraitType,
    TypeField,
};
use crate::visitor::{
    BlockContext, ConfigurableFieldContext, ConstContext, EnumFieldContext, Event, EventView,
    ExprContext, FnContext, ModuleContext, Node, NodeView, Phase, spans_view, StatementContext,
    StatementLetContext, StorageFieldContext, StructFieldContext, TraitContext,
    TraitTypeContext, TypeAliasContext, UseContext,
};

verus! {

pub type Events = Seq<EventView>;

/// Entering `node`, then `parts`, then leaving `node`.
pub open spec fn around(node: NodeView, parts: Events) -> Events {
    seq![EventView::visit(node)] + parts + seq![EventView::leave(node)]
}

/// The walk over an expression: the expression is entered, its parts are
/// walked from left to right, and it is left.
pub open spec fn expr_events(
    path: Seq<char>,
    item_fn: ItemFn,
    blocks: Seq<SpanView>,
    expr: Expr,
) -> Events
    decreases expr,
{
    around(
        NodeView::Expr { path, item_fn, blocks, expr },
        expr_parts_events(path, item_fn, blocks, expr.kind),
    )
}

/// The walks over the parts of an expression, from left to right.
pub open spec fn expr_parts_events(
    path: Seq<char>,
    item_fn: ItemFn,
    blocks: Seq<SpanView>,
    kind: ExprKind,
) -> Events
    decreases kind,
{
    (
        match kind {
            ExprKind::AbiCast { address, .. } => expr_events(path, item_fn, blocks, *address),
            ExprKind::Struct { fields, .. } => fields_events(path, item_fn, blocks, fields@),
            ExprKind::Tuple(elems) => exprs_events(path, item_fn, blocks, elems@),
            ExprKind::Parens(inner) => expr_events(path, item_fn, blocks, *inner),
            ExprKind::Block(block) => block_events(path, item_fn, blocks, block),
            ExprKind::ArraySequence(elems) => exprs_events(path, item_fn, blocks, elems@),
            ExprKind::ArrayRepeat { value, length } => expr_events(path, item_fn, blocks, *value)
                + expr_events(path, item_fn, blocks, *length),
            ExprKind::Asm { registers } => exprs_events(path, item_fn, blocks, registers@),
            ExprKind::Return(value) => opt_expr_events(path, item_fn, blocks, value),
            ExprKind::If { condition, then_block, else_branch, .. } => expr_events(
                path,
                item_fn,
                blocks,
                *condition,
            ) + block_events(path, item_fn, blocks, then_block) + opt_expr_events(
                path,
                item_fn,
                blocks,
                else_branch,
            ),
            ExprKind::Match { value, branches } => expr_events(path, item_fn, blocks, *value)
                + branches_events(path, item_fn, blocks, branches@),
            ExprKind::While { condition, block } => expr_events(path, item_fn, blocks, *condition)
                + block_events(path, item_fn, blocks, block),
            ExprKind::For { iterator, block, .. } => expr_events(path, item_fn, blocks, *iterator)
                + block_events(path, item_fn, blocks, block),
            ExprKind::FuncApp { func, args } => expr_events(path, item_fn, blocks, *func)
                + exprs_events(path, item_fn, blocks, args@),
            ExprKind::Index { target, arg } => expr_events(path, item_fn, blocks, *target)
                + expr_events(path, item_fn, blocks, *arg),
            ExprKind::MethodCall { target, contract_args, args, .. } => expr_events(
                path,
                item_fn,
                blocks,
                *target,
            ) + fields_events(path, item_fn, blocks, contract_args@) + exprs_events(
                path,
                item_fn,
                blocks,
                args@,
            ),
            ExprKind::FieldProjection { target, .. } => expr_events(path, item_fn, blocks, *target),
            ExprKind::TupleFieldProjection { target, .. } => expr_events(
                path,
                item_fn,
                blocks,
                *target,
            ),
            ExprKind::Ref { expr: inner, .. } => expr_events(path, item_fn, blocks, *inner),
            ExprKind::Deref(inner) => expr_events(path, item_fn, blocks, *inner),
            ExprKind::Not(inner) => expr_events(path, item_fn, blocks, *inner),
            ExprKind::Binary { lhs, rhs, .. } => expr_events(path, item_fn, blocks, *lhs)
                + expr_events(path, item_fn, blocks, *rhs),
            ExprKind::Reassignment { target, value } => expr_events(path, item_fn, blocks, *target)
                + expr_events(path, item_fn, blocks, *value),
            ExprKind::Error
            | ExprKind::Path(_)
            | ExprKind::Literal(_)
            | ExprKind::Break
            | ExprKind::Continue => Seq::empty(),
        }
    )
}

/// The walk over an expression that may be absent.
pub open spec fn opt_expr_events(
    path: Seq<char>,
    item_fn: ItemFn,
    blocks: Seq<SpanView>,
    expr: Option<Box<Expr>>,
) -> Events
    decreases expr,
{
    match expr {
        Some(expr) => expr_events(path, item_fn, blocks, *expr),
        None => Seq::empty(),
    }
}

/// The walks over a run of expressions, one after the other.
pub open spec fn exprs_events(
    path: Seq<char>,
    item_fn: ItemFn,
    blocks: Seq<SpanView>,
    exprs: Seq<Expr>,
) -> Events
    decreases exprs,
{
    if exprs.len() == 0 {
        Seq::empty()
    } else {
        exprs_events(path, item_fn, blocks, exprs.drop_last()) + expr_events(
            path,
            item_fn,
            blocks,
            exprs.last(),
        )
    }
}

/// The walks over the values of a run of struct literal fields.
pub open spec fn fields_events(
    path: Seq<char>,
    item_fn: ItemFn,
    blocks: Seq<SpanView>,
    fields: Seq<ExprField>,
) -> Events
    decreases fields,
{
    if fields.len() == 0 {
        Seq::empty()
    } else {
        fields_events(path, item_fn, blocks, fields.drop_last()) + opt_expr_events(
            path,
            item_fn,
            blocks,
            fields.last().value,
        )
    }
}

/// The walks over the bodies of a run of `match` arms.
pub open spec fn branches_events(
    path: Seq<char>,
    item_fn: ItemFn,
    blocks: Seq<SpanView>,
    branches: Seq<MatchBranch>,
) -> Events
    decreases branches,
{
    if branches.len() == 0 {
        Seq::empty()
    } else {
        branches_events(path, item_fn, blocks, branches.drop_last()) + expr_events(
            path,
            item_fn,
            blocks,
            branches.last().body,
        )
    }
}

/// The walk over a statement. A `let` is entered inside its statement, and
/// left after its expression was walked; an item that is declared in a block
/// is walked like an item of the module.
pub open spec fn statement_events(
    path: Seq<char>,
    item_fn: ItemFn,
    blocks: Seq<SpanView>,
    statement: Statement,
) -> Events
    decreases statement,
{
    around(
        NodeView::Statement { path, item_fn, blocks, statement },
        match statement {
            Statement::Let { pattern, ty, expr } => around(
                NodeView::StatementLet { path, pattern, ty, expr },
                expr_events(path, item_fn, blocks, expr),
            ),
            Statement::Expr(expr) => expr_events(path, item_fn, blocks, expr),
            Statement::Item(item) => item_events(path, *item),
            Statement::Error => Seq::empty(),
        },
    )
}

/// The walks over a run of statements, one after the other.
pub open spec fn statements_events(
    path: Seq<char>,
    item_fn: ItemFn,
    blocks: Seq<SpanView>,
    statements: Seq<Statement>,
) -> Events
    decreases statements,
{
    if statements.len() == 0 {
        Seq::empty()
    } else {
        statements_events(path, item_fn, blocks, statements.drop_last()) + statement_events(
            path,
            item_fn,
            blocks,
            statements.last(),
        )
    }
}

/// The walk over a block that stands inside the blocks at `blocks`: its
/// statements and its trailing expression are walked with the block itself
/// as the innermost block around them.
pub open spec fn block_events(
    path: Seq<char>,
    item_fn: ItemFn,
    blocks: Seq<SpanView>,
    block: Block,
) -> Events
    decreases block,
{
    around(
        NodeView::Block { path, item_fn, block },
        statements_events(path, item_fn, blocks.push(block.span@), block.statements@)
            + opt_expr_events(path, item_fn, blocks.push(block.span@), block.final_expr),
    )
}

/// The walk over a function: its body is walked as a block with no block
/// around it.
pub open spec fn fn_events(path: Seq<char>, item_fn: ItemFn) -> Events
    decreases item_fn,
{
    around(
        NodeView::Fn { path, item_fn },
        block_events(path, item_fn, Seq::empty(), item_fn.body),
    )
}

/// The walks over a run of functions.
pub open spec fn fns_events(path: Seq<char>, fns: Seq<ItemFn>) -> Events
    decreases fns,
{
    if fns.len() == 0 {
        Seq::empty()
    } else {
        fns_events(path, fns.drop_last()) + fn_events(path, fns.last())
    }
}

/// Entering and leaving each of a run of struct fields.
pub open spec fn struct_fields_events(path: Seq<char>, fields: Seq<TypeField>) -> Events
    decreases fields.len(),
{
    if fields.len() == 0 {
        Seq::empty()
    } else {
        struct_fields_events(path, fields.drop_last()) + around(
            NodeView::StructField { path, field: fields.last() },
            Seq::empty(),
        )
    }
}

/// Entering and leaving each of a run of enum variants.
pub open spec fn enum_fields_events(path: Seq<char>, fields: Seq<TypeField>) -> Events
    decreases fields.len(),
{
    if fields.len() == 0 {
        Seq::empty()
    } else {
        enum_fields_events(path, fields.drop_last()) + around(
            NodeView::EnumField { path, field: fields.last() },
            Seq::empty(),
        )
    }
}

/// Entering and leaving each of a run of storage fields.
pub open spec fn storage_fields_events(path: Seq<char>, fields: Seq<StorageField>) -> Events
    decreases fields.len(),
{
    if fields.len() == 0 {
        Seq::empty()
    } else {
        storage_fields_events(path, fields.drop_last()) + around(
            NodeView::StorageField { path, field: fields.last() },
            Seq::empty(),
        )
    }
}

/// Entering and leaving each of a run of configurables.
pub open spec fn configurable_fields_events(path: Seq<char>, fields: Seq<StorageField>) -> Events
    decreases fields.len(),
{
    if fields.len() == 0 {
        Seq::empty()
    } else {
        configurable_fields_events(path, fields.drop_last()) + around(
            NodeView::ConfigurableField { path, field: fields.last() },
            Seq::empty(),
        )
    }
}

/// Entering and leaving a constant.
pub open spec fn const_events(path: Seq<char>, item_const: ItemConst) -> Events {
    around(NodeView::Const { path, item_const }, Seq::empty())
}

/// Entering and leaving an associated type.
pub open spec fn trait_type_events(path: Seq<char>, item_type: TraitType) -> Events {
    around(NodeView::TraitType { path, item_type }, Seq::empty())
}

/// The walk over what a trait or an interface declares: its constants and
/// its associated types. A signature without a body is passed over.
pub open spec fn trait_item_events(path: Seq<char>, item: ItemTraitItem) -> Events {
    match item {
        ItemTraitItem::Const(item_const) => const_events(path, item_const),
        ItemTraitItem::Type(item_type) => trait_type_events(path, item_type),
        ItemTraitItem::Fn(_) | ItemTraitItem::Error => Seq::empty(),
    }
}

/// The walks over a run of trait items.
pub open spec fn trait_items_events(path: Seq<char>, items: Seq<ItemTraitItem>) -> Events
    decreases items,
{
    if items.len() == 0 {
        Seq::empty()
    } else {
        trait_items_events(path, items.drop_last()) + trait_item_events(path, items.last())
    }
}

/// The walk over what an implementation holds.
pub open spec fn impl_item_events(path: Seq<char>, item: ItemImplItem) -> Events
    decreases item,
{
    match item {
        ItemImplItem::Fn(item_fn) => fn_events(path, item_fn),
        ItemImplItem::Const(item_const) => const_events(path, item_const),
        ItemImplItem::Type(item_type) => trait_type_events(path, item_type),
    }
}

/// The walks over a run of implementation items.
pub open spec fn impl_items_events(path: Seq<char>, items: Seq<ItemImplItem>) -> Events
    decreases items,
{
    if items.len() == 0 {
        Seq::empty()
    } else {
        impl_items_events(path, items.drop_last()) + impl_item_events(path, items.last())
    }
}

/// The walk over an item.
///
/// - A `use`, a constant and a type alias are entered and left.
/// - A struct, an enum, the storage and the configurables have each of
///   their fields entered and left.
/// - A function is walked with its body.
/// - A trait is entered, its items and then the functions it provides are
///   walked, and it is left.
/// - An implementation has each of its items walked; an interface has its
///   items and then the functions it provides walked.
pub open spec fn item_events(path: Seq<char>, item: ItemKind) -> Events
    decreases item,
{
    match item {
        ItemKind::Use(item_use) => around(NodeView::Use { path, item_use }, Seq::empty()),
        ItemKind::Struct(item) => struct_fields_events(path, item.fields@),
        ItemKind::Enum(item) => enum_fields_events(path, item.fields@),
        ItemKind::Fn(item_fn) => fn_events(path, item_fn),
        ItemKind::Trait(item_trait) => around(
            NodeView::Trait { path, item_trait },
            trait_items_events(path, item_trait.trait_items@) + fns_events(
                path,
                item_trait.trait_defs@,
            ),
        ),
        ItemKind::Impl(item) => impl_items_events(path, item.contents@),
        ItemKind::Abi(item) => trait_items_events(path, item.abi_items@) + fns_events(
            path,
            item.abi_defs@,
        ),
        ItemKind::Const(item_const) => const_events(path, item_const),
        ItemKind::Storage(item) => storage_fields_events(path, item.fields@),
        ItemKind::Configurable(item) => configurable_fields_events(path, item.fields@),
        ItemKind::TypeAlias(item_type_alias) => around(
            NodeView::TypeAlias { path, item_type_alias },
            Seq::empty(),
        ),
        ItemKind::Other => Seq::empty(),
    }
}

/// The walks over a run of items.
pub open spec fn items_events(path: Seq<char>, items: Seq<ItemKind>) -> Events
    decreases items,
{
    if items.len() == 0 {
        Seq::empty()
    } else {
        items_events(path, items.drop_last()) + item_events(path, items.last())
    }
}

/// The walk over a module: the module is entered, its items are walked in
/// order, and it is left.
pub open spec fn module_events(path: Seq<char>, module: Module) -> Events {
    around(NodeView::Module { path }, items_events(path, module.items@))
}


/// The models of a run of events.
pub open spec fn events_view<'a>(events: Seq<Event<'a>>) -> Events {
    events.map_values(|e: Event<'a>| e@)
}

/// Adds one event to the run.
fn emit<'a>(events: &mut Vec<Event<'a>>, phase: Phase, node: Node<'a>)
    ensures
        events_view(final(events)@) == events_view(old(events)@).push(
            EventView { phase, node: node@ },
        ),
{
    let event = Event { phase, node };
    events.push(event);
    assert(events_view(events@) =~= events_view(old(events)@).push(event@));
}

/// Copies of a run of spans.
fn clone_spans(spans: &Vec<Span>) -> (copies: Vec<Span>)
    ensures
        spans_view(copies@) == spans_view(spans@),
{
    let mut copies: Vec<Span> = Vec::new();
    let mut i: usize = 0;
    while i < spans.len()
        invariant
            i <= spans.len(),
            copies.len() == i,
            forall|j: int| 0 <= j < i ==> copies[j]@ == spans[j]@,
        decreases spans.len() - i,
    {
        copies.push(spans[i].clone());
        i += 1;
    }
    assert(spans_view(copies@) =~= spans_view(spans@));
    copies
}

/// Walks a run of expressions.
fn walk_exprs<'a>(
    events: &mut Vec<Event<'a>>,
    path: &'a str,
    item_fn: &'a ItemFn,
    blocks: &Vec<Span>,
    exprs: &'a Vec<Expr>,
)
    ensures
        events_view(final(events)@) == events_view(old(events)@) + exprs_events(
            path@,
            *item_fn,
            spans_view(blocks@),
            exprs@,
        ),
    decreases exprs,
{
    let ghost start = events_view(events@);
    assert(exprs@.take(0) =~= Seq::empty());
    assert(start + Seq::<EventView>::empty() =~= start);
    let mut i: usize = 0;
    while i < exprs.len()
        invariant
            i <= exprs.len(),
            events_view(events@) == start + exprs_events(
                path@,
                *item_fn,
                spans_view(blocks@),
                exprs@.take(i as int),
            ),
        decreases exprs.len() - i,
    {
        assert(exprs@.take(i + 1).drop_last() =~= exprs@.take(i as int));
        assert(exprs@.take(i + 1).last() == exprs[i as int]);
        let ghost done = exprs_events(path@, *item_fn, spans_view(blocks@), exprs@.take(i as int));
        walk_expr(events, path, item_fn, blocks, &exprs[i]);
        assert(events_view(events@) =~= start + (done
            + expr_events(path@, *item_fn, spans_view(blocks@), exprs[i as int])));
        i += 1;
    }
    assert(exprs@.take(i as int) =~= exprs@);
}

/// Walks the values of a run of struct literal fields.
fn walk_fields<'a>(
    events: &mut Vec<Event<'a>>,
    path: &'a str,
    item_fn: &'a ItemFn,
    blocks: &Vec<Span>,
    fields: &'a Vec<ExprField>,
)
    ensures
        events_view(final(events)@) == events_view(old(events)@) + fields_events(
            path@,
            *item_fn,
            spans_view(blocks@),
            fields@,
        ),
    decreases fields,
{
    let ghost start = events_view(events@);
    assert(fields@.take(0) =~= Seq::empty());
    assert(start + Seq::<EventView>::empty() =~= start);
    let mut i: usize = 0;
    while i < fields.len()
        invariant
            i <= fields.len(),
            events_view(events@) == start + fields_events(
                path@,
                *item_fn,
                spans_view(blocks@),
                fields@.take(i as int),
            ),
        decreases fields.len() - i,
    {
        assert(fields@.take(i + 1).drop_last() =~= fields@.take(i as int));
        assert(fields@.take(i + 1).last() == fields[i as int]);
        let ghost done = fields_events(
            path@,
            *item_fn,
            spans_view(blocks@),
            fields@.take(i as int),
        );
        walk_opt_expr(events, path, item_fn, blocks, &fields[i].value);
        assert(events_view(events@) =~= start + (done
            + opt_expr_events(path@, *item_fn, spans_view(blocks@), fields[i as int].value)));
        i += 1;
    }
    assert(fields@.take(i as int) =~= fields@);
}

/// Walks the bodies of a run of `match` arms.
fn walk_branches<'a>(
    events: &mut Vec<Event<'a>>,
    path: &'a str,
    item_fn: &'a ItemFn,
    blocks: &Vec<Span>,
    branches: &'a Vec<MatchBranch>,
)
    ensures
        events_view(final(events)@) == events_view(old(events)@) + branches_events(
            path@,
            *item_fn,
            spans_view(blocks@),
            branches@,
        ),
    decreases branches,
{
    let ghost start = events_view(events@);
    assert(branches@.take(0) =~= Seq::empty());
    assert(start + Seq::<EventView>::empty() =~= start);
    let mut i: usize = 0;
    while i < branches.len()
        invariant
            i <= branches.len(),
            events_view(events@) == start + branches_events(
                path@,
                *item_fn,
                spans_view(blocks@),
                branches@.take(i as int),
            ),
        decreases branches.len() - i,
    {
        assert(branches@.take(i + 1).drop_last() =~= branches@.take(i as int));
        assert(branches@.take(i + 1).last() == branches[i as int]);
        let ghost done = branches_events(
            path@,
            *item_fn,
            spans_view(blocks@),
            branches@.take(i as int),
        );
        walk_expr(events, path, item_fn, blocks, &branches[i].body);
        assert(events_view(events@) =~= start + (done
            + expr_events(path@, *item_fn, spans_view(blocks@), branches[i as int].body)));
        i += 1;
    }
    assert(branches@.take(i as int) =~= branches@);
}

/// Walks a run of statements.
fn walk_statements<'a>(
    events: &mut Vec<Event<'a>>,
    path: &'a str,
    item_fn: &'a ItemFn,
    blocks: &Vec<Span>,
    statements: &'a Vec<Statement>,
)
    ensures
        events_view(final(events)@) == events_view(old(events)@) + statements_events(
            path@,
            *item_fn,
            spans_view(blocks@),
            statements@,
        ),
    decreases statements,
{
    let ghost start = events_view(events@);
    assert(statements@.take(0) =~= Seq::empty());
    assert(start + Seq::<EventView>::empty() =~= start);
    let mut i: usize = 0;
    while i < statements.len()
        invariant
            i <= statements.len(),
            events_view(events@) == start + statements_events(
                path@,
                *item_fn,
                spans_view(blocks@),
                statements@.take(i as int),
            ),
        decreases statements.len() - i,
    {
        assert(statements@.take(i + 1).drop_last() =~= statements@.take(i as int));
        assert(statements@.take(i + 1).last() == statements[i as int]);
        let ghost done = statements_events(
            path@,
            *item_fn,
            spans_view(blocks@),
            statements@.take(i as int),
        );
        walk_statement(events, path, item_fn, blocks, &statements[i]);
        assert(events_view(events@) =~= start + (done
            + statement_events(path@, *item_fn, spans_view(blocks@), statements[i as int])));
        i += 1;
    }
    assert(statements@.take(i as int) =~= statements@);
}

/// Walks an expression, if there is one.
fn walk_opt_expr<'a>(
    events: &mut Vec<Event<'a>>,
    path: &'a str,
    item_fn: &'a ItemFn,
    blocks: &Vec<Span>,
    expr: &'a Option<Box<Expr>>,
)
    ensures
        events_view(final(events)@) == events_view(old(events)@) + opt_expr_events(
            path@,
            *item_fn,
            spans_view(blocks@),
            *expr,
        ),
    decreases expr,
{
    match expr {
        Some(expr) => {
            walk_expr(events, path, item_fn, blocks, expr);
        },
        None => {
            assert(events_view(events@) + Seq::<EventView>::empty() =~= events_view(events@));
        },
    }
}

/// Walks the parts of an `if`, a `match` or a loop.
fn walk_branching<'a>(
    events: &mut Vec<Event<'a>>,
    path: &'a str,
    item_fn: &'a ItemFn,
    blocks: &Vec<Span>,
    expr: &'a Expr,
)
    requires
        expr.kind is If || expr.kind is Match || expr.kind is While || expr.kind is For,
    ensures
        events_view(final(events)@) == events_view(old(events)@) + expr_parts_events(
            path@,
            *item_fn,
            spans_view(blocks@),
            expr.kind,
        ),
    decreases expr, 0nat,
{
    let ghost start = events_view(events@);
    let ghost seen = spans_view(blocks@);
    match &expr.kind {
        ExprKind::If { condition, then_block, else_branch, .. } => {
            walk_expr(events, path, item_fn, blocks, condition);
            walk_block(events, path, item_fn, blocks, then_block);
            walk_opt_expr(events, path, item_fn, blocks, else_branch);
            assert(events_view(events@) =~= start + (expr_events(path@, *item_fn, seen, **condition)
                + block_events(path@, *item_fn, seen, *then_block) + opt_expr_events(
                path@,
                *item_fn,
                seen,
                *else_branch,
            )));
        },
        ExprKind::Match { value, branches } => {
            walk_expr(events, path, item_fn, blocks, value);
            walk_branches(events, path, item_fn, blocks, branches);
            assert(events_view(events@) =~= start + (expr_events(path@, *item_fn, seen, **value)
                + branches_events(path@, *item_fn, seen, branches@)));
        },
        ExprKind::While { condition, block } => {
            walk_expr(events, path, item_fn, blocks, condition);
            walk_block(events, path, item_fn, blocks, block);
            assert(events_view(events@) =~= start + (expr_events(path@, *item_fn, seen, **condition)
                + block_events(path@, *item_fn, seen, *block)));
        },
        ExprKind::For { iterator, block, .. } => {
            walk_expr(events, path, item_fn, blocks, iterator);
            walk_block(events, path, item_fn, blocks, block);
            assert(events_view(events@) =~= start + (expr_events(path@, *item_fn, seen, **iterator)
                + block_events(path@, *item_fn, seen, *block)));
        },
        _ => {},
    }
}

/// Walks the parts of a call, an index, a repeated array, an operator with
/// two operands or an assignment.
fn walk_operands<'a>(
    events: &mut Vec<Event<'a>>,
    path: &'a str,
    item_fn: &'a ItemFn,
    blocks: &Vec<Span>,
    expr: &'a Expr,
)
    requires
        expr.kind is FuncApp || expr.kind is MethodCall || expr.kind is Index
            || expr.kind is ArrayRepeat || expr.kind is Binary || expr.kind is Reassignment,
    ensures
        events_view(final(events)@) == events_view(old(events)@) + expr_parts_events(
            path@,
            *item_fn,
            spans_view(blocks@),
            expr.kind,
        ),
    decreases expr, 0nat,
{
    let ghost start = events_view(events@);
    let ghost seen = spans_view(blocks@);
    match &expr.kind {
        ExprKind::ArrayRepeat { value, length } => {
            walk_expr(events, path, item_fn, blocks, value);
            walk_expr(events, path, item_fn, blocks, length);
            assert(events_view(events@) =~= start + (expr_events(path@, *item_fn, seen, **value)
                + expr_events(path@, *item_fn, seen, **length)));
        },
        ExprKind::FuncApp { func, args } => {
            walk_expr(events, path, item_fn, blocks, func);
            walk_exprs(events, path, item_fn, blocks, args);
            assert(events_view(events@) =~= start + (expr_events(path@, *item_fn, seen, **func)
                + exprs_events(path@, *item_fn, seen, args@)));
        },
        ExprKind::Index { target, arg } => {
            walk_expr(events, path, item_fn, blocks, target);
            walk_expr(events, path, item_fn, blocks, arg);
            assert(events_view(events@) =~= start + (expr_events(path@, *item_fn, seen, **target)
                + expr_events(path@, *item_fn, seen, **arg)));
        },
        ExprKind::MethodCall { target, contract_args, args, .. } => {
            walk_expr(events, path, item_fn, blocks, target);
            walk_fields(events, path, item_fn, blocks, contract_args);
            walk_exprs(events, path, item_fn, blocks, args);
            assert(events_view(events@) =~= start + (expr_events(path@, *item_fn, seen, **target)
                + fields_events(path@, *item_fn, seen, contract_args@) + exprs_events(
                path@,
                *item_fn,
                seen,
                args@,
            )));
        },
        ExprKind::Binary { lhs, rhs, .. } => {
            walk_expr(events, path, item_fn, blocks, lhs);
            walk_expr(events, path, item_fn, blocks, rhs);
            assert(events_view(events@) =~= start + (expr_events(path@, *item_fn, seen, **lhs)
                + expr_events(path@, *item_fn, seen, **rhs)));
        },
        ExprKind::Reassignment { target, value } => {
            walk_expr(events, path, item_fn, blocks, target);
            walk_expr(events, path, item_fn, blocks, value);
            assert(events_view(events@) =~= start + (expr_events(path@, *item_fn, seen, **target)
                + expr_events(path@, *item_fn, seen, **value)));
        },
        _ => {},
    }
}

/// Walks an expression.
fn walk_expr<'a>(
    events: &mut Vec<Event<'a>>,
    path: &'a str,
    item_fn: &'a ItemFn,
    blocks: &Vec<Span>,
    expr: &'a Expr,
)
    ensures
        events_view(final(events)@) == events_view(old(events)@) + expr_events(
            path@,
            *item_fn,
            spans_view(blocks@),
            *expr,
        ),
    decreases expr, 1nat,
{
    let ghost start = events_view(events@);
    let ghost seen = spans_view(blocks@);
    let ghost node = NodeView::Expr { path: path@, item_fn: *item_fn, blocks: seen, expr: *expr };
    emit(
        events,
        Phase::Visit,
        Node::Expr(ExprContext { path, item_fn, blocks: clone_spans(blocks), expr }),
    );
    let ghost entered = events_view(events@);
    assert(entered + Seq::<EventView>::empty() =~= entered);
    match &expr.kind {
        ExprKind::AbiCast { address, .. } => {
            walk_expr(events, path, item_fn, blocks, address);
        },
        ExprKind::Struct { fields, .. } => {
            walk_fields(events, path, item_fn, blocks, fields);
        },
        ExprKind::Tuple(elems) => {
            walk_exprs(events, path, item_fn, blocks, elems);
        },
        ExprKind::Parens(inner) => {
            walk_expr(events, path, item_fn, blocks, inner);
        },
        ExprKind::Block(block) => {
            walk_block(events, path, item_fn, blocks, block);
        },
        ExprKind::ArraySequence(elems) => {
            walk_exprs(events, path, item_fn, blocks, elems);
        },
        ExprKind::Asm { registers } => {
            walk_exprs(events, path, item_fn, blocks, registers);
        },
        ExprKind::Return(value) => {
            walk_opt_expr(events, path, item_fn, blocks, value);
        },
        ExprKind::If { .. }
        | ExprKind::Match { .. }
        | ExprKind::While { .. }
        | ExprKind::For { .. } => {
            walk_branching(events, path, item_fn, blocks, expr);
        },
        ExprKind::FuncApp { .. }
        | ExprKind::MethodCall { .. }
        | ExprKind::Index { .. }
        | ExprKind::ArrayRepeat { .. }
        | ExprKind::Binary { .. }
        | ExprKind::Reassignment { .. } => {
            walk_operands(events, path, item_fn, blocks, expr);
        },
        ExprKind::FieldProjection { target, .. } => {
            walk_expr(events, path, item_fn, blocks, target);
        },
        ExprKind::TupleFieldProjection { target, .. } => {
            walk_expr(events, path, item_fn, blocks, target);
        },
        ExprKind::Ref { expr: inner, .. } => {
            walk_expr(events, path, item_fn, blocks, inner);
        },
        ExprKind::Deref(inner) => {
            walk_expr(events, path, item_fn, blocks, inner);
        },
        ExprKind::Not(inner) => {
            walk_expr(events, path, item_fn, blocks, inner);
        },
        ExprKind::Error
        | ExprKind::Path(_)
        | ExprKind::Literal(_)
        | ExprKind::Break
        | ExprKind::Continue => {},
    }
    assert(events_view(events@) == entered + expr_parts_events(path@, *item_fn, seen, expr.kind));
    emit(
        events,
        Phase::Leave,
        Node::Expr(ExprContext { path, item_fn, blocks: clone_spans(blocks), expr }),
    );
    assert(events_view(events@) =~= start + around(
        node,
        expr_parts_events(path@, *item_fn, seen, expr.kind),
    ));
}

/// Walks a statement.
fn walk_statement<'a>(
    events: &mut Vec<Event<'a>>,
    path: &'a str,
    item_fn: &'a ItemFn,
    blocks: &Vec<Span>,
    statement: &'a Statement,
)
    ensures
        events_view(final(events)@) == events_view(old(events)@) + statement_events(
            path@,
            *item_fn,
            spans_view(blocks@),
            *statement,
        ),
    decreases statement,
{
    let ghost start = events_view(events@);
    let ghost seen = spans_view(blocks@);
    let ghost node = NodeView::Statement {
        path: path@,
        item_fn: *item_fn,
        blocks: seen,
        statement: *statement,
    };
    emit(
        events,
        Phase::Visit,
        Node::Statement(StatementContext { path, item_fn, blocks: clone_spans(blocks), statement }),
    );
    let ghost entered = events_view(events@);
    assert(entered + Seq::<EventView>::empty() =~= entered);
    let ghost parts: Events;
    match statement {
        Statement::Let { pattern, ty, expr } => {
            let ghost inner = NodeView::StatementLet {
                path: path@,
                pattern: *pattern,
                ty: *ty,
                expr: *expr,
            };
            emit(
                events,
                Phase::Visit,
                Node::StatementLet(StatementLetContext { path, pattern, ty, expr }),
            );
            walk_expr(events, path, item_fn, blocks, expr);
            emit(
                events,
                Phase::Leave,
                Node::StatementLet(StatementLetContext { path, pattern, ty, expr }),
            );
            proof {
                parts = around(inner, expr_events(path@, *item_fn, seen, *expr));
            }
            assert(events_view(events@) =~= entered + parts);
        },
        Statement::Expr(expr) => {
            walk_expr(events, path, item_fn, blocks, expr);
            proof {
                parts = expr_events(path@, *item_fn, seen, *expr);
            }
        },
        Statement::Item(item) => {
            walk_item(events, path, item);
            proof {
                parts = item_events(path@, **item);
            }
        },
        Statement::Error => {
            proof {
                parts = Seq::empty();
            }
        },
    }
    emit(
        events,
        Phase::Leave,
        Node::Statement(StatementContext { path, item_fn, blocks: clone_spans(blocks), statement }),
    );
    assert(events_view(events@) =~= start + around(node, parts));
}

/// Walks a block that stands inside the blocks at `blocks`.
fn walk_block<'a>(
    events: &mut Vec<Event<'a>>,
    path: &'a str,
    item_fn: &'a ItemFn,
    blocks: &Vec<Span>,
    block: &'a Block,
)
    ensures
        events_view(final(events)@) == events_view(old(events)@) + block_events(
            path@,
            *item_fn,
            spans_view(blocks@),
            *block,
        ),
    decreases block,
{
    let ghost start = events_view(events@);
    let ghost node = NodeView::Block { path: path@, item_fn: *item_fn, block: *block };
    emit(events, Phase::Visit, Node::Block(BlockContext { path, item_fn, block }));
    let ghost entered = events_view(events@);
    let mut inner = clone_spans(blocks);
    inner.push(block.span.clone());
    assert(spans_view(inner@) =~= spans_view(blocks@).push(block.span@));
    walk_statements(events, path, item_fn, &inner, &block.statements);
    walk_opt_expr(events, path, item_fn, &inner, &block.final_expr);
    let ghost parts = statements_events(path@, *item_fn, spans_view(inner@), block.statements@)
        + opt_expr_events(path@, *item_fn, spans_view(inner@), block.final_expr);
    assert(events_view(events@) =~= entered + parts);
    emit(events, Phase::Leave, Node::Block(BlockContext { path, item_fn, block }));
    assert(events_view(events@) =~= start + around(node, parts));
}

/// Walks a function.
fn walk_fn<'a>(events: &mut Vec<Event<'a>>, path: &'a str, item_fn: &'a ItemFn)
    ensures
        events_view(final(events)@) == events_view(old(events)@) + fn_events(path@, *item_fn),
    decreases item_fn,
{
    let ghost start = events_view(events@);
    let ghost node = NodeView::Fn { path: path@, item_fn: *item_fn };
    emit(events, Phase::Visit, Node::Fn(FnContext { path, item_fn }));
    let blocks: Vec<Span> = Vec::new();
    assert(spans_view(blocks@) =~= Seq::empty());
    walk_block(events, path, item_fn, &blocks, &item_fn.body);
    emit(events, Phase::Leave, Node::Fn(FnContext { path, item_fn }));
    assert(events_view(events@) =~= start + around(
        node,
        block_events(path@, *item_fn, Seq::empty(), item_fn.body),
    ));
}

/// Walks a run of functions.
fn walk_fns<'a>(
    events: &mut Vec<Event<'a>>, path: &'a str, fns: &'a Vec<ItemFn>
)
    ensures
        events_view(final(events)@) == events_view(old(events)@) + fns_events(path@, fns@),
    decreases fns,
{
    let ghost start = events_view(events@);
    assert(fns@.take(0) =~= Seq::empty());
    assert(start + Seq::<EventView>::empty() =~= start);
    let mut i: usize = 0;
    while i < fns.len()
        invariant
            i <= fns.len(),
            events_view(events@) == start + fns_events(path@, fns@.take(i as int)),
        decreases fns.len() - i,
    {
        assert(fns@.take(i + 1).drop_last() =~= fns@.take(i as int));
        assert(fns@.take(i + 1).last() == fns[i as int]);
        let ghost done = fns_events(path@, fns@.take(i as int));
        walk_fn(events, path, &fns[i]);
        assert(events_view(events@) =~= start + (done + fn_events(path@, fns[i as int])));
        i += 1;
    }
    assert(fns@.take(i as int) =~= fns@);
}

/// Enters and leaves each field of a struct.
fn walk_struct_fields<'a>(events: &mut Vec<Event<'a>>, path: &'a str, fields: &'a Vec<TypeField>)
    ensures
        events_view(
            final(events)@,
        ) == events_view(old(events)@) + struct_fields_events(path@, fields@),
{
    let ghost start = events_view(events@);
    assert(fields@.take(0) =~= Seq::empty());
    assert(start + Seq::<EventView>::empty() =~= start);
    let mut i: usize = 0;
    while i < fields.len()
        invariant
            i <= fields.len(),
            events_view(events@) == start + struct_fields_events(path@, fields@.take(i as int)),
        decreases fields.len() - i,
    {
        assert(fields@.take(i + 1).drop_last() =~= fields@.take(i as int));
        assert(fields@.take(i + 1).last() == fields[i as int]);
        let ghost node = NodeView::StructField { path: path@, field: fields[i as int] };
        emit(
            events,
            Phase::Visit,
            Node::StructField(StructFieldContext { path, field: &fields[i] }),
        );
        emit(
            events,
            Phase::Leave,
            Node::StructField(StructFieldContext { path, field: &fields[i] }),
        );
        assert(events_view(events@) =~= start + (struct_fields_events(path@, fields@.take(i as int))
            + around(node, Seq::empty())));
        i += 1;
    }
    assert(fields@.take(i as int) =~= fields@);
}

/// Enters and leaves each variant of an enum.
fn walk_enum_fields<'a>(events: &mut Vec<Event<'a>>, path: &'a str, fields: &'a Vec<TypeField>)
    ensures
        events_view(
            final(events)@,
        ) == events_view(old(events)@) + enum_fields_events(path@, fields@),
{
    let ghost start = events_view(events@);
    assert(fields@.take(0) =~= Seq::empty());
    assert(start + Seq::<EventView>::empty() =~= start);
    let mut i: usize = 0;
    while i < fields.len()
        invariant
            i <= fields.len(),
            events_view(events@) == start + enum_fields_events(path@, fields@.take(i as int)),
        decreases fields.len() - i,
    {
        assert(fields@.take(i + 1).drop_last() =~= fields@.take(i as int));
        assert(fields@.take(i + 1).last() == fields[i as int]);
        let ghost node = NodeView::EnumField { path: path@, field: fields[i as int] };
        emit(events, Phase::Visit, Node::EnumField(EnumFieldContext { path, field: &fields[i] }));
        emit(events, Phase::Leave, Node::EnumField(EnumFieldContext { path, field: &fields[i] }));
        assert(events_view(events@) =~= start + (enum_fields_events(path@, fields@.take(i as int))
            + around(node, Seq::empty())));
        i += 1;
    }
    assert(fields@.take(i as int) =~= fields@);
}

/// Enters and leaves each storage field.
fn walk_storage_fields<'a>(
    events: &mut Vec<Event<'a>>,
    path: &'a str,
    fields: &'a Vec<StorageField>,
)
    ensures
        events_view(
            final(events)@,
        ) == events_view(old(events)@) + storage_fields_events(path@, fields@),
{
    let ghost start = events_view(events@);
    assert(fields@.take(0) =~= Seq::empty());
    assert(start + Seq::<EventView>::empty() =~= start);
    let mut i: usize = 0;
    while i < fields.len()
        invariant
            i <= fields.len(),
            events_view(events@) == start + storage_fields_events(path@, fields@.take(i as int)),
        decreases fields.len() - i,
    {
        assert(fields@.take(i + 1).drop_last() =~= fields@.take(i as int));
        assert(fields@.take(i + 1).last() == fields[i as int]);
        let ghost node = NodeView::StorageField { path: path@, field: fields[i as int] };
        emit(
            events,
            Phase::Visit,
            Node::StorageField(StorageFieldContext { path, field: &fields[i] }),
        );
        emit(
            events,
            Phase::Leave,
            Node::StorageField(StorageFieldContext { path, field: &fields[i] }),
        );
        let ghost done = storage_fields_events(path@, fields@.take(i as int));
        assert(events_view(events@) =~= start + (done + around(node, Seq::empty())));
        i += 1;
    }
    assert(fields@.take(i as int) =~= fields@);
}

/// Enters and leaves each configurable.
fn walk_configurable_fields<'a>(
    events: &mut Vec<Event<'a>>,
    path: &'a str,
    fields: &'a Vec<StorageField>,
)
    ensures
        events_view(
            final(events)@,
        ) == events_view(old(events)@) + configurable_fields_events(path@, fields@),
{
    let ghost start = events_view(events@);
    assert(fields@.take(0) =~= Seq::empty());
    assert(start + Seq::<EventView>::empty() =~= start);
    let mut i: usize = 0;
    while i < fields.len()
        invariant
            i <= fields.len(),
            events_view(events@) == start + configurable_fields_events(
                path@,
                fields@.take(i as int),
            ),
        decreases fields.len() - i,
    {
        assert(fields@.take(i + 1).drop_last() =~= fields@.take(i as int));
        assert(fields@.take(i + 1).last() == fields[i as int]);
        let ghost node = NodeView::ConfigurableField { path: path@, field: fields[i as int] };
        emit(
            events,
            Phase::Visit,
            Node::ConfigurableField(ConfigurableFieldContext { path, field: &fields[i] }),
        );
        emit(
            events,
            Phase::Leave,
            Node::ConfigurableField(ConfigurableFieldContext { path, field: &fields[i] }),
        );
        let ghost done = configurable_fields_events(path@, fields@.take(i as int));
        assert(events_view(events@) =~= start + (done + around(node, Seq::empty())));
        i += 1;
    }
    assert(fields@.take(i as int) =~= fields@);
}

/// Enters and leaves a constant.
fn walk_const<'a>(events: &mut Vec<Event<'a>>, path: &'a str, item_const: &'a ItemConst)
    ensures
        events_view(final(events)@) == events_view(old(events)@) + const_events(path@, *item_const),
{
    let ghost start = events_view(events@);
    emit(events, Phase::Visit, Node::Const(ConstContext { path, item_const }));
    emit(events, Phase::Leave, Node::Const(ConstContext { path, item_const }));
    assert(events_view(events@) =~= start + const_events(path@, *item_const));
}

/// Enters and leaves an associated type.
fn walk_trait_type<'a>(events: &mut Vec<Event<'a>>, path: &'a str, item_type: &'a TraitType)
    ensures
        events_view(final(events)@) == events_view(old(events)@) + trait_type_events(
            path@,
            *item_type,
        ),
{
    let ghost start = events_view(events@);
    emit(events, Phase::Visit, Node::TraitType(TraitTypeContext { path, item_type }));
    emit(events, Phase::Leave, Node::TraitType(TraitTypeContext { path, item_type }));
    assert(events_view(events@) =~= start + trait_type_events(path@, *item_type));
}

/// Walks what a trait or an interface declares.
fn walk_trait_item<'a>(events: &mut Vec<Event<'a>>, path: &'a str, item: &'a ItemTraitItem)
    ensures
        events_view(final(events)@) == events_view(old(events)@) + trait_item_events(path@, *item),
{
    match item {
        ItemTraitItem::Const(item_const) => {
            walk_const(events, path, item_const);
        },
        ItemTraitItem::Type(item_type) => {
            walk_trait_type(events, path, item_type);
        },
        ItemTraitItem::Fn(_) | ItemTraitItem::Error => {
            assert(events_view(events@) + Seq::<EventView>::empty() =~= events_view(events@));
        },
    }
}

/// Walks what an implementation holds.
fn walk_impl_item<'a>(events: &mut Vec<Event<'a>>, path: &'a str, item: &'a ItemImplItem)
    ensures
        events_view(final(events)@) == events_view(old(events)@) + impl_item_events(path@, *item),
    decreases item,
{
    match item {
        ItemImplItem::Fn(item_fn) => {
            walk_fn(events, path, item_fn);
        },
        ItemImplItem::Const(item_const) => {
            walk_const(events, path, item_const);
        },
        ItemImplItem::Type(item_type) => {
            walk_trait_type(events, path, item_type);
        },
    }
}

/// Walks a run of trait items.
fn walk_trait_items<'a>(
    events: &mut Vec<Event<'a>>, path: &'a str, items: &'a Vec<ItemTraitItem>
)
    ensures
        events_view(
            final(events)@,
        ) == events_view(old(events)@) + trait_items_events(path@, items@),
{
    let ghost start = events_view(events@);
    assert(items@.take(0) =~= Seq::empty());
    assert(start + Seq::<EventView>::empty() =~= start);
    let mut i: usize = 0;
    while i < items.len()
        invariant
            i <= items.len(),
            events_view(events@) == start + trait_items_events(path@, items@.take(i as int)),
        decreases items.len() - i,
    {
        assert(items@.take(i + 1).drop_last() =~= items@.take(i as int));
        assert(items@.take(i + 1).last() == items[i as int]);
        let ghost done = trait_items_events(path@, items@.take(i as int));
        walk_trait_item(events, path, &items[i]);
        assert(events_view(events@) =~= start + (done + trait_item_events(path@, items[i as int])));
        i += 1;
    }
    assert(items@.take(i as int) =~= items@);
}

/// Walks a run of implementation items.
fn walk_impl_items<'a>(
    events: &mut Vec<Event<'a>>, path: &'a str, items: &'a Vec<ItemImplItem>
)
    ensures
        events_view(final(events)@) == events_view(old(events)@) + impl_items_events(path@, items@),
    decreases items,
{
    let ghost start = events_view(events@);
    assert(items@.take(0) =~= Seq::empty());
    assert(start + Seq::<EventView>::empty() =~= start);
    let mut i: usize = 0;
    while i < items.len()
        invariant
            i <= items.len(),
            events_view(events@) == start + impl_items_events(path@, items@.take(i as int)),
        decreases items.len() - i,
    {
        assert(items@.take(i + 1).drop_last() =~= items@.take(i as int));
        assert(items@.take(i + 1).last() == items[i as int]);
        let ghost done = impl_items_events(path@, items@.take(i as int));
        walk_impl_item(events, path, &items[i]);
        assert(events_view(events@) =~= start + (done + impl_item_events(path@, items[i as int])));
        i += 1;
    }
    assert(items@.take(i as int) =~= items@);
}

/// Walks an item.
fn walk_item<'a>(events: &mut Vec<Event<'a>>, path: &'a str, item: &'a ItemKind)
    ensures
        events_view(final(events)@) == events_view(old(events)@) + item_events(path@, *item),
    decreases item,
{
    let ghost start = events_view(events@);
    match item {
        ItemKind::Use(item_use) => {
            emit(events, Phase::Visit, Node::Use(UseContext { path, item_use }));
            emit(events, Phase::Leave, Node::Use(UseContext { path, item_use }));
            assert(events_view(events@) =~= start + item_events(path@, *item));
        },
        ItemKind::Struct(item_struct) => {
            walk_struct_fields(events, path, &item_struct.fields);
        },
        ItemKind::Enum(item_enum) => {
            walk_enum_fields(events, path, &item_enum.fields);
        },
        ItemKind::Fn(item_fn) => {
            walk_fn(events, path, item_fn);
        },
        ItemKind::Trait(item_trait) => {
            emit(events, Phase::Visit, Node::Trait(TraitContext { path, item_trait }));
            walk_trait_items(events, path, &item_trait.trait_items);
            walk_fns(events, path, &item_trait.trait_defs);
            emit(events, Phase::Leave, Node::Trait(TraitContext { path, item_trait }));
            assert(events_view(events@) =~= start + item_events(path@, *item));
        },
        ItemKind::Impl(item_impl) => {
            walk_impl_items(events, path, &item_impl.contents);
        },
        ItemKind::Abi(item_abi) => {
            walk_trait_items(events, path, &item_abi.abi_items);
            walk_fns(events, path, &item_abi.abi_defs);
            assert(events_view(events@) =~= start + item_events(path@, *item));
        },
        ItemKind::Const(item_const) => {
            walk_const(events, path, item_const);
        },
        ItemKind::Storage(item_storage) => {
            walk_storage_fields(events, path, &item_storage.fields);
        },
        ItemKind::Configurable(item_configurable) => {
            walk_configurable_fields(events, path, &item_configurable.fields);
        },
        ItemKind::TypeAlias(item_type_alias) => {
            emit(events, Phase::Visit, Node::TypeAlias(TypeAliasContext { path, item_type_alias }));
            emit(events, Phase::Leave, Node::TypeAlias(TypeAliasContext { path, item_type_alias }));
            assert(events_view(events@) =~= start + item_events(path@, *item));
        },
        ItemKind::Other => {
            assert(start + Seq::<EventView>::empty() =~= start);
        },
    }
}

/// Walks a run of items.
fn walk_items<'a>(
    events: &mut Vec<Event<'a>>, path: &'a str, items: &'a Vec<ItemKind>
)
    ensures
        events_view(final(events)@) == events_view(old(events)@) + items_events(path@, items@),
    decreases items,
{
    let ghost start = events_view(events@);
    assert(items@.take(0) =~= Seq::empty());
    assert(start + Seq::<EventView>::empty() =~= start);
    let mut i: usize = 0;
    while i < items.len()
        invariant
            i <= items.len(),
            events_view(events@) == start + items_events(path@, items@.take(i as int)),
        decreases items.len() - i,
    {
        assert(items@.take(i + 1).drop_last() =~= items@.take(i as int));
        assert(items@.take(i + 1).last() == items[i as int]);
        let ghost done = items_events(path@, items@.take(i as int));
        walk_item(events, path, &items[i]);
        assert(events_view(events@) =~= start + (done + item_events(path@, items[i as int])));
        i += 1;
    }
    assert(items@.take(i as int) =~= items@);
}

/// The walk over the module at `path`: every step of it, in order.
pub fn walk_module<'a>(path: &'a str, module: &'a Module) -> (events: Vec<Event<'a>>)
    ensures
        events_view(events@) == module_events(path@, *module),
{
    let mut events: Vec<Event<'a>> = Vec::new();
    assert(events_view(events@) =~= Seq::empty());
    emit(&mut events, Phase::Visit, Node::Module(ModuleContext { path }));
    walk_items(&mut events, path, &module.items);
    emit(&mut events, Phase::Leave, Node::Module(ModuleContext { path }));
    assert(events_view(events@) =~= module_events(path@, *module));
    events
}

} // verus!
