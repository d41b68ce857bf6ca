//! The walk over a module, part by part: each part leaves every rule with
//! an answer for the next.

use vstd::prelude::*;
use crate::detectors::Detector;
use crate::driver::{Outcome, start_of};
use crate::project::Project;
use crate::span::SpanView;
use crate::syntax::expr::{Block, Expr, ExprField, ExprKind, MatchBranch, Statement};
use crate::syntax::item::{
    ItemFn, ItemImplItem, ItemKind, ItemTrait, ItemTraitItem, Module, StorageField, TypeField,
};
use crate::visitor::{EventView, NodeView};
use crate::walk::{
    around, block_events, branches_events, configurable_fields_events, enum_fields_events,
    Events, expr_events, expr_parts_events, exprs_events, fields_events, fn_events, fns_events,
    impl_item_events, impl_items_events, item_events, items_events, module_events,
    opt_expr_events, statement_events, statements_events, storage_fields_events,
    struct_fields_events, trait_item_events, trait_items_events,
};

verus! {

/// Two walks that each grow the run grow it together.
proof fn lemma_then(run: Outcome, first: Events, second: Events)
    requires
        run.steady(),
        run.grown_to(run.ran(first)),
        run.ran(first).grown_to(run.ran(first).ran(second)),
    ensures
        run.ran(first + second) == run.ran(first).ran(second),
        run.grown_to(run.ran(first + second)),
{
    run.lemma_ran_concat(first, second);
    run.lemma_grown_twice(run.ran(first), run.ran(first).ran(second));
}

/// Entering a node, walking its parts and leaving it grows the run, where
/// every rule is prepared for each of the three.
proof fn lemma_walk_around(run: Outcome, node: NodeView, parts: Events)
    requires
        run.steady(),
        run.prepared(EventView::visit(node)),
        run.told_all(EventView::visit(node)).grown_to(
            run.told_all(EventView::visit(node)).ran(parts),
        ),
        run.told_all(EventView::visit(node)).ran(parts).prepared(EventView::leave(node)),
    ensures
        run.grown_to(run.ran(around(node, parts))),
{
    run.lemma_ran_around(node, parts);
    run.lemma_told_all(EventView::visit(node));
    let entered = run.told_all(EventView::visit(node));
    let walked = entered.ran(parts);
    run.lemma_grown_keeps(entered, arbitrary(), arbitrary(), Seq::empty());
    entered.lemma_grown_keeps(walked, arbitrary(), arbitrary(), Seq::empty());
    walked.lemma_told_all(EventView::leave(node));
    run.lemma_grown_twice(entered, walked);
    run.lemma_grown_twice(walked, walked.told_all(EventView::leave(node)));
}

/// Whether `node` is an item or a field of the module at `path` that has no
/// part to walk.
pub open spec fn is_leaf_in(node: NodeView, path: Seq<char>) -> bool {
    match node {
        NodeView::Use { path: at, .. } => at == path,
        NodeView::StructField { path: at, .. } => at == path,
        NodeView::EnumField { path: at, .. } => at == path,
        NodeView::Const { path: at, .. } => at == path,
        NodeView::StorageField { path: at, .. } => at == path,
        NodeView::ConfigurableField { path: at, .. } => at == path,
        NodeView::TypeAlias { path: at, .. } => at == path,
        NodeView::TraitType { path: at, .. } => at == path,
        _ => false,
    }
}

/// Entering and leaving a node that needs its module alone grows the run.
proof fn lemma_walk_leaf(run: Outcome, path: Seq<char>, node: NodeView)
    requires
        run.in_module(path),
        is_leaf_in(node, path),
    ensures
        run.grown_to(run.ran(around(node, Seq::empty()))),
{
    run.lemma_inside(path, arbitrary(), Seq::empty());
    run.lemma_prepared_in_module(path, EventView::visit(node));
    run.lemma_told_all(EventView::visit(node));
    let entered = run.told_all(EventView::visit(node));
    run.lemma_grown_keeps(entered, path, arbitrary(), Seq::empty());
    entered.lemma_ran_one(EventView::visit(node));
    entered.lemma_grown_self();
    entered.lemma_prepared_in_module(path, EventView::leave(node));
    lemma_walk_around(run, node, Seq::empty());
}

/// The walk over an expression grows the run.
proof fn lemma_walk_expr(
    run: Outcome,
    path: Seq<char>,
    item_fn: ItemFn,
    blocks: Seq<SpanView>,
    expr: Expr,
)
    requires
        run.in_blocks(path, item_fn, blocks),
    ensures
        run.grown_to(run.ran(expr_events(path, item_fn, blocks, expr))),
    decreases expr,
{
    let node = NodeView::Expr { path, item_fn, blocks, expr };
    let parts = expr_parts_events(path, item_fn, blocks, expr.kind);
    run.lemma_inside(path, item_fn, blocks);
    run.lemma_prepared_in_blocks(path, item_fn, blocks, EventView::visit(node));
    run.lemma_told_all(EventView::visit(node));
    let entered = run.told_all(EventView::visit(node));
    run.lemma_grown_keeps(entered, path, item_fn, blocks);
    lemma_walk_parts(entered, path, item_fn, blocks, expr.kind);
    entered.lemma_grown_keeps(entered.ran(parts), path, item_fn, blocks);
    entered.ran(parts).lemma_prepared_in_blocks(path, item_fn, blocks, EventView::leave(node));
    lemma_walk_around(run, node, parts);
}

/// The walk over an expression that may be absent grows the run.
proof fn lemma_walk_opt_expr(
    run: Outcome,
    path: Seq<char>,
    item_fn: ItemFn,
    blocks: Seq<SpanView>,
    expr: Option<Box<Expr>>,
)
    requires
        run.in_blocks(path, item_fn, blocks),
    ensures
        run.grown_to(run.ran(opt_expr_events(path, item_fn, blocks, expr))),
    decreases expr,
{
    run.lemma_inside(path, item_fn, blocks);
    match expr {
        Some(expr) => {
            lemma_walk_expr(run, path, item_fn, blocks, *expr);
        },
        None => {
            run.lemma_grown_self();
        },
    }
}

/// The walks over the parts of an expression grow the run.
proof fn lemma_walk_parts(
    run: Outcome,
    path: Seq<char>,
    item_fn: ItemFn,
    blocks: Seq<SpanView>,
    kind: ExprKind,
)
    requires
        run.in_blocks(path, item_fn, blocks),
    ensures
        run.grown_to(run.ran(expr_parts_events(path, item_fn, blocks, kind))),
    decreases kind,
{
    run.lemma_inside(path, item_fn, blocks);
    match kind {
        ExprKind::AbiCast { address, .. } => {
            lemma_walk_expr(run, path, item_fn, blocks, *address);
        },
        ExprKind::Struct { fields, .. } => {
            lemma_walk_fields(run, path, item_fn, blocks, fields@);
        },
        ExprKind::Tuple(elems) => {
            lemma_walk_exprs(run, path, item_fn, blocks, elems@);
        },
        ExprKind::Parens(inner) => {
            lemma_walk_expr(run, path, item_fn, blocks, *inner);
        },
        ExprKind::Block(block) => {
            lemma_walk_block(run, path, item_fn, blocks, block);
        },
        ExprKind::ArraySequence(elems) => {
            lemma_walk_exprs(run, path, item_fn, blocks, elems@);
        },
        ExprKind::ArrayRepeat { value, length } => {
            let first = expr_events(path, item_fn, blocks, *value);
            lemma_walk_expr(run, path, item_fn, blocks, *value);
            run.lemma_grown_keeps(run.ran(first), path, item_fn, blocks);
            lemma_walk_expr(run.ran(first), path, item_fn, blocks, *length);
            lemma_then(run, first, expr_events(path, item_fn, blocks, *length));
        },
        ExprKind::Asm { registers } => {
            lemma_walk_exprs(run, path, item_fn, blocks, registers@);
        },
        ExprKind::Return(value) => {
            lemma_walk_opt_expr(run, path, item_fn, blocks, value);
        },
        ExprKind::If { condition, then_block, else_branch, .. } => {
            let first = expr_events(path, item_fn, blocks, *condition);
            let second = block_events(path, item_fn, blocks, then_block);
            let third = opt_expr_events(path, item_fn, blocks, else_branch);
            lemma_walk_expr(run, path, item_fn, blocks, *condition);
            run.lemma_grown_keeps(run.ran(first), path, item_fn, blocks);
            run.ran(first).lemma_inside(path, item_fn, blocks);
            lemma_walk_block(run.ran(first), path, item_fn, blocks, then_block);
            lemma_then(run, first, second);
            run.lemma_grown_keeps(run.ran(first + second), path, item_fn, blocks);
            lemma_walk_opt_expr(run.ran(first + second), path, item_fn, blocks, else_branch);
            lemma_then(run, first + second, third);
        },
        ExprKind::Match { value, branches } => {
            let first = expr_events(path, item_fn, blocks, *value);
            lemma_walk_expr(run, path, item_fn, blocks, *value);
            run.lemma_grown_keeps(run.ran(first), path, item_fn, blocks);
            lemma_walk_branches(run.ran(first), path, item_fn, blocks, branches@);
            lemma_then(run, first, branches_events(path, item_fn, blocks, branches@));
        },
        ExprKind::While { condition, block } => {
            let first = expr_events(path, item_fn, blocks, *condition);
            lemma_walk_expr(run, path, item_fn, blocks, *condition);
            run.lemma_grown_keeps(run.ran(first), path, item_fn, blocks);
            run.ran(first).lemma_inside(path, item_fn, blocks);
            lemma_walk_block(run.ran(first), path, item_fn, blocks, block);
            lemma_then(run, first, block_events(path, item_fn, blocks, block));
        },
        ExprKind::For { iterator, block, .. } => {
            let first = expr_events(path, item_fn, blocks, *iterator);
            lemma_walk_expr(run, path, item_fn, blocks, *iterator);
            run.lemma_grown_keeps(run.ran(first), path, item_fn, blocks);
            run.ran(first).lemma_inside(path, item_fn, blocks);
            lemma_walk_block(run.ran(first), path, item_fn, blocks, block);
            lemma_then(run, first, block_events(path, item_fn, blocks, block));
        },
        ExprKind::FuncApp { func, args } => {
            let first = expr_events(path, item_fn, blocks, *func);
            lemma_walk_expr(run, path, item_fn, blocks, *func);
            run.lemma_grown_keeps(run.ran(first), path, item_fn, blocks);
            lemma_walk_exprs(run.ran(first), path, item_fn, blocks, args@);
            lemma_then(run, first, exprs_events(path, item_fn, blocks, args@));
        },
        ExprKind::Index { target, arg } => {
            let first = expr_events(path, item_fn, blocks, *target);
            lemma_walk_expr(run, path, item_fn, blocks, *target);
            run.lemma_grown_keeps(run.ran(first), path, item_fn, blocks);
            lemma_walk_expr(run.ran(first), path, item_fn, blocks, *arg);
            lemma_then(run, first, expr_events(path, item_fn, blocks, *arg));
        },
        ExprKind::MethodCall { target, contract_args, args, .. } => {
            let first = expr_events(path, item_fn, blocks, *target);
            let second = fields_events(path, item_fn, blocks, contract_args@);
            let third = exprs_events(path, item_fn, blocks, args@);
            lemma_walk_expr(run, path, item_fn, blocks, *target);
            run.lemma_grown_keeps(run.ran(first), path, item_fn, blocks);
            lemma_walk_fields(run.ran(first), path, item_fn, blocks, contract_args@);
            lemma_then(run, first, second);
            run.lemma_grown_keeps(run.ran(first + second), path, item_fn, blocks);
            lemma_walk_exprs(run.ran(first + second), path, item_fn, blocks, args@);
            lemma_then(run, first + second, third);
        },
        ExprKind::FieldProjection { target, .. } => {
            lemma_walk_expr(run, path, item_fn, blocks, *target);
        },
        ExprKind::TupleFieldProjection { target, .. } => {
            lemma_walk_expr(run, path, item_fn, blocks, *target);
        },
        ExprKind::Ref { expr: inner, .. } => {
            lemma_walk_expr(run, path, item_fn, blocks, *inner);
        },
        ExprKind::Deref(inner) => {
            lemma_walk_expr(run, path, item_fn, blocks, *inner);
        },
        ExprKind::Not(inner) => {
            lemma_walk_expr(run, path, item_fn, blocks, *inner);
        },
        ExprKind::Binary { lhs, rhs, .. } => {
            let first = expr_events(path, item_fn, blocks, *lhs);
            lemma_walk_expr(run, path, item_fn, blocks, *lhs);
            run.lemma_grown_keeps(run.ran(first), path, item_fn, blocks);
            lemma_walk_expr(run.ran(first), path, item_fn, blocks, *rhs);
            lemma_then(run, first, expr_events(path, item_fn, blocks, *rhs));
        },
        ExprKind::Reassignment { target, value } => {
            let first = expr_events(path, item_fn, blocks, *target);
            lemma_walk_expr(run, path, item_fn, blocks, *target);
            run.lemma_grown_keeps(run.ran(first), path, item_fn, blocks);
            lemma_walk_expr(run.ran(first), path, item_fn, blocks, *value);
            lemma_then(run, first, expr_events(path, item_fn, blocks, *value));
        },
        ExprKind::Error
        | ExprKind::Path(_)
        | ExprKind::Literal(_)
        | ExprKind::Break
        | ExprKind::Continue => {
            run.lemma_grown_self();
        },
    }
}

/// The walks over a run of expressions grow the run.
proof fn lemma_walk_exprs(
    run: Outcome,
    path: Seq<char>,
    item_fn: ItemFn,
    blocks: Seq<SpanView>,
    exprs: Seq<Expr>,
)
    requires
        run.in_blocks(path, item_fn, blocks),
    ensures
        run.grown_to(run.ran(exprs_events(path, item_fn, blocks, exprs))),
    decreases exprs,
{
    run.lemma_inside(path, item_fn, blocks);
    if exprs.len() == 0 {
        run.lemma_grown_self();
    } else {
        let earlier = exprs_events(path, item_fn, blocks, exprs.drop_last());
        lemma_walk_exprs(run, path, item_fn, blocks, exprs.drop_last());
        let middle = run.ran(earlier);
        run.lemma_grown_keeps(middle, path, item_fn, blocks);
        lemma_walk_expr(middle, path, item_fn, blocks, exprs.last());
        lemma_then(run, earlier, expr_events(path, item_fn, blocks, exprs.last()));
    }
}

/// The walks over the values of a run of struct literal fields grow the run.
proof fn lemma_walk_fields(
    run: Outcome,
    path: Seq<char>,
    item_fn: ItemFn,
    blocks: Seq<SpanView>,
    fields: Seq<ExprField>,
)
    requires
        run.in_blocks(path, item_fn, blocks),
    ensures
        run.grown_to(run.ran(fields_events(path, item_fn, blocks, fields))),
    decreases fields,
{
    run.lemma_inside(path, item_fn, blocks);
    if fields.len() == 0 {
        run.lemma_grown_self();
    } else {
        let earlier = fields_events(path, item_fn, blocks, fields.drop_last());
        lemma_walk_fields(run, path, item_fn, blocks, fields.drop_last());
        let middle = run.ran(earlier);
        run.lemma_grown_keeps(middle, path, item_fn, blocks);
        lemma_walk_opt_expr(middle, path, item_fn, blocks, fields.last().value);
        lemma_then(run, earlier, opt_expr_events(path, item_fn, blocks, fields.last().value));
    }
}

/// The walks over the bodies of a run of `match` arms grow the run.
proof fn lemma_walk_branches(
    run: Outcome,
    path: Seq<char>,
    item_fn: ItemFn,
    blocks: Seq<SpanView>,
    branches: Seq<MatchBranch>,
)
    requires
        run.in_blocks(path, item_fn, blocks),
    ensures
        run.grown_to(run.ran(branches_events(path, item_fn, blocks, branches))),
    decreases branches,
{
    run.lemma_inside(path, item_fn, blocks);
    if branches.len() == 0 {
        run.lemma_grown_self();
    } else {
        let earlier = branches_events(path, item_fn, blocks, branches.drop_last());
        lemma_walk_branches(run, path, item_fn, blocks, branches.drop_last());
        let middle = run.ran(earlier);
        run.lemma_grown_keeps(middle, path, item_fn, blocks);
        lemma_walk_expr(middle, path, item_fn, blocks, branches.last().body);
        lemma_then(run, earlier, expr_events(path, item_fn, blocks, branches.last().body));
    }
}

/// The walks over a run of statements grow the run.
proof fn lemma_walk_statements(
    run: Outcome,
    path: Seq<char>,
    item_fn: ItemFn,
    blocks: Seq<SpanView>,
    statements: Seq<Statement>,
)
    requires
        run.in_blocks(path, item_fn, blocks),
    ensures
        run.grown_to(run.ran(statements_events(path, item_fn, blocks, statements))),
    decreases statements,
{
    run.lemma_inside(path, item_fn, blocks);
    if statements.len() == 0 {
        run.lemma_grown_self();
    } else {
        let earlier = statements_events(path, item_fn, blocks, statements.drop_last());
        lemma_walk_statements(run, path, item_fn, blocks, statements.drop_last());
        let middle = run.ran(earlier);
        run.lemma_grown_keeps(middle, path, item_fn, blocks);
        lemma_walk_statement(middle, path, item_fn, blocks, statements.last());
        lemma_then(run, earlier, statement_events(path, item_fn, blocks, statements.last()));
    }
}

/// The walk over a statement grows the run.
proof fn lemma_walk_statement(
    run: Outcome,
    path: Seq<char>,
    item_fn: ItemFn,
    blocks: Seq<SpanView>,
    statement: Statement,
)
    requires
        run.in_blocks(path, item_fn, blocks),
    ensures
        run.grown_to(run.ran(statement_events(path, item_fn, blocks, statement))),
    decreases statement,
{
    let node = NodeView::Statement { path, item_fn, blocks, statement };
    run.lemma_inside(path, item_fn, blocks);
    run.lemma_prepared_in_blocks(path, item_fn, blocks, EventView::visit(node));
    run.lemma_told_all(EventView::visit(node));
    let entered = run.told_all(EventView::visit(node));
    run.lemma_grown_keeps(entered, path, item_fn, blocks);
    entered.lemma_inside(path, item_fn, blocks);
    let parts: Events = match statement {
        Statement::Let { pattern, ty, expr } => around(
            NodeView::StatementLet { path, pattern, ty, expr },
            expr_events(path, item_fn, blocks, expr),
        ),
        Statement::Expr(expr) => expr_events(path, item_fn, blocks, expr),
        Statement::Item(item) => item_events(path, *item),
        Statement::Error => Seq::empty(),
    };
    match statement {
        Statement::Let { pattern, ty, expr } => {
            let bound = NodeView::StatementLet { path, pattern, ty, expr };
            entered.lemma_prepared_in_module(path, EventView::visit(bound));
            entered.lemma_told_all(EventView::visit(bound));
            let inside = entered.told_all(EventView::visit(bound));
            entered.lemma_grown_keeps(inside, path, item_fn, blocks);
            lemma_walk_expr(inside, path, item_fn, blocks, expr);
            let walked = inside.ran(expr_events(path, item_fn, blocks, expr));
            inside.lemma_inside(path, item_fn, blocks);
            inside.lemma_grown_keeps(walked, path, item_fn, blocks);
            walked.lemma_inside(path, item_fn, blocks);
            walked.lemma_prepared_in_module(path, EventView::leave(bound));
            lemma_walk_around(entered, bound, expr_events(path, item_fn, blocks, expr));
        },
        Statement::Expr(expr) => {
            lemma_walk_expr(entered, path, item_fn, blocks, expr);
        },
        Statement::Item(item) => {
            lemma_walk_item(entered, path, *item);
        },
        Statement::Error => {
            entered.lemma_grown_self();
        },
    }
    entered.lemma_grown_keeps(entered.ran(parts), path, item_fn, blocks);
    entered.ran(parts).lemma_prepared_in_blocks(path, item_fn, blocks, EventView::leave(node));
    lemma_walk_around(run, node, parts);
}

/// The walk over a block grows the run.
proof fn lemma_walk_block(
    run: Outcome,
    path: Seq<char>,
    item_fn: ItemFn,
    blocks: Seq<SpanView>,
    block: Block,
)
    requires
        run.in_fn(path, item_fn),
    ensures
        run.grown_to(run.ran(block_events(path, item_fn, blocks, block))),
    decreases block,
{
    let node = NodeView::Block { path, item_fn, block };
    let inner = blocks.push(block.span@);
    let first = statements_events(path, item_fn, inner, block.statements@);
    let second = opt_expr_events(path, item_fn, inner, block.final_expr);
    run.lemma_inside(path, item_fn, blocks);
    run.lemma_prepared_in_fn(path, item_fn, block);
    run.lemma_entered_block(path, item_fn, blocks, block);
    let entered = run.told_all(EventView::visit(node));
    entered.lemma_inside(path, item_fn, inner);
    lemma_walk_statements(entered, path, item_fn, inner, block.statements@);
    entered.lemma_grown_keeps(entered.ran(first), path, item_fn, inner);
    lemma_walk_opt_expr(entered.ran(first), path, item_fn, inner, block.final_expr);
    lemma_then(entered, first, second);
    entered.lemma_grown_keeps(entered.ran(first + second), path, item_fn, inner);
    entered.ran(first + second).lemma_prepared_in_blocks(
        path,
        item_fn,
        inner,
        EventView::leave(node),
    );
    lemma_walk_around(run, node, first + second);
}

/// The walk over a function grows the run.
proof fn lemma_walk_fn(run: Outcome, path: Seq<char>, item_fn: ItemFn)
    requires
        run.in_module(path),
    ensures
        run.grown_to(run.ran(fn_events(path, item_fn))),
    decreases item_fn,
{
    let node = NodeView::Fn { path, item_fn };
    let parts = block_events(path, item_fn, Seq::empty(), item_fn.body);
    run.lemma_inside(path, item_fn, Seq::empty());
    run.lemma_prepared_in_module(path, EventView::visit(node));
    run.lemma_entered_fn(path, item_fn);
    let entered = run.told_all(EventView::visit(node));
    entered.lemma_inside(path, item_fn, Seq::empty());
    lemma_walk_block(entered, path, item_fn, Seq::empty(), item_fn.body);
    entered.lemma_grown_keeps(entered.ran(parts), path, item_fn, Seq::empty());
    entered.ran(parts).lemma_inside(path, item_fn, Seq::empty());
    entered.ran(parts).lemma_prepared_in_module(path, EventView::leave(node));
    lemma_walk_around(run, node, parts);
}

/// The walks over a run of functions grow the run.
proof fn lemma_walk_fns(
    run: Outcome, path: Seq<char>, fns: Seq<ItemFn>
)
    requires
        run.in_module(path),
    ensures
        run.grown_to(run.ran(fns_events(path, fns))),
    decreases fns,
{
    run.lemma_inside(path, arbitrary(), Seq::empty());
    if fns.len() == 0 {
        run.lemma_grown_self();
    } else {
        let earlier = fns_events(path, fns.drop_last());
        lemma_walk_fns(run, path, fns.drop_last());
        let middle = run.ran(earlier);
        run.lemma_grown_keeps(middle, path, arbitrary(), Seq::empty());
        lemma_walk_fn(middle, path, fns.last());
        lemma_then(run, earlier, fn_events(path, fns.last()));
    }
}

/// Entering and leaving each field of a struct grows the run.
proof fn lemma_walk_struct_fields(run: Outcome, path: Seq<char>, fields: Seq<TypeField>)
    requires
        run.in_module(path),
    ensures
        run.grown_to(run.ran(struct_fields_events(path, fields))),
    decreases fields.len(),
{
    run.lemma_inside(path, arbitrary(), Seq::empty());
    if fields.len() == 0 {
        run.lemma_grown_self();
    } else {
        let earlier = struct_fields_events(path, fields.drop_last());
        let node = NodeView::StructField { path, field: fields.last() };
        lemma_walk_struct_fields(run, path, fields.drop_last());
        let middle = run.ran(earlier);
        run.lemma_grown_keeps(middle, path, arbitrary(), Seq::empty());
        lemma_walk_leaf(middle, path, node);
        lemma_then(run, earlier, around(node, Seq::empty()));
    }
}

/// Entering and leaving each variant of an enum grows the run.
proof fn lemma_walk_enum_fields(run: Outcome, path: Seq<char>, fields: Seq<TypeField>)
    requires
        run.in_module(path),
    ensures
        run.grown_to(run.ran(enum_fields_events(path, fields))),
    decreases fields.len(),
{
    run.lemma_inside(path, arbitrary(), Seq::empty());
    if fields.len() == 0 {
        run.lemma_grown_self();
    } else {
        let earlier = enum_fields_events(path, fields.drop_last());
        let node = NodeView::EnumField { path, field: fields.last() };
        lemma_walk_enum_fields(run, path, fields.drop_last());
        let middle = run.ran(earlier);
        run.lemma_grown_keeps(middle, path, arbitrary(), Seq::empty());
        lemma_walk_leaf(middle, path, node);
        lemma_then(run, earlier, around(node, Seq::empty()));
    }
}

/// Entering and leaving each storage field grows the run.
proof fn lemma_walk_storage_fields(run: Outcome, path: Seq<char>, fields: Seq<StorageField>)
    requires
        run.in_module(path),
    ensures
        run.grown_to(run.ran(storage_fields_events(path, fields))),
    decreases fields.len(),
{
    run.lemma_inside(path, arbitrary(), Seq::empty());
    if fields.len() == 0 {
        run.lemma_grown_self();
    } else {
        let earlier = storage_fields_events(path, fields.drop_last());
        let node = NodeView::StorageField { path, field: fields.last() };
        lemma_walk_storage_fields(run, path, fields.drop_last());
        let middle = run.ran(earlier);
        run.lemma_grown_keeps(middle, path, arbitrary(), Seq::empty());
        lemma_walk_leaf(middle, path, node);
        lemma_then(run, earlier, around(node, Seq::empty()));
    }
}

/// Entering and leaving each configurable grows the run.
proof fn lemma_walk_configurable_fields(run: Outcome, path: Seq<char>, fields: Seq<StorageField>)
    requires
        run.in_module(path),
    ensures
        run.grown_to(run.ran(configurable_fields_events(path, fields))),
    decreases fields.len(),
{
    run.lemma_inside(path, arbitrary(), Seq::empty());
    if fields.len() == 0 {
        run.lemma_grown_self();
    } else {
        let earlier = configurable_fields_events(path, fields.drop_last());
        let node = NodeView::ConfigurableField { path, field: fields.last() };
        lemma_walk_configurable_fields(run, path, fields.drop_last());
        let middle = run.ran(earlier);
        run.lemma_grown_keeps(middle, path, arbitrary(), Seq::empty());
        lemma_walk_leaf(middle, path, node);
        lemma_then(run, earlier, around(node, Seq::empty()));
    }
}

/// The walk over a trait item grows the run.
proof fn lemma_walk_trait_item(run: Outcome, path: Seq<char>, item: ItemTraitItem)
    requires
        run.in_module(path),
    ensures
        run.grown_to(run.ran(trait_item_events(path, item))),
{
    run.lemma_inside(path, arbitrary(), Seq::empty());
    match item {
        ItemTraitItem::Const(item_const) => {
            lemma_walk_leaf(run, path, NodeView::Const { path, item_const });
        },
        ItemTraitItem::Type(item_type) => {
            lemma_walk_leaf(run, path, NodeView::TraitType { path, item_type });
        },
        ItemTraitItem::Fn(_) | ItemTraitItem::Error => {
            run.lemma_grown_self();
        },
    }
}

/// The walk over an implementation item grows the run.
proof fn lemma_walk_impl_item(run: Outcome, path: Seq<char>, item: ItemImplItem)
    requires
        run.in_module(path),
    ensures
        run.grown_to(run.ran(impl_item_events(path, item))),
    decreases item,
{
    match item {
        ItemImplItem::Fn(item_fn) => {
            lemma_walk_fn(run, path, item_fn);
        },
        ItemImplItem::Const(item_const) => {
            lemma_walk_leaf(run, path, NodeView::Const { path, item_const });
        },
        ItemImplItem::Type(item_type) => {
            lemma_walk_leaf(run, path, NodeView::TraitType { path, item_type });
        },
    }
}

/// The walks over a run of trait items grow the run.
proof fn lemma_walk_trait_items(
    run: Outcome, path: Seq<char>, items: Seq<ItemTraitItem>
)
    requires
        run.in_module(path),
    ensures
        run.grown_to(run.ran(trait_items_events(path, items))),
    decreases items.len(),
{
    run.lemma_inside(path, arbitrary(), Seq::empty());
    if items.len() == 0 {
        run.lemma_grown_self();
    } else {
        let earlier = trait_items_events(path, items.drop_last());
        lemma_walk_trait_items(run, path, items.drop_last());
        let middle = run.ran(earlier);
        run.lemma_grown_keeps(middle, path, arbitrary(), Seq::empty());
        lemma_walk_trait_item(middle, path, items.last());
        lemma_then(run, earlier, trait_item_events(path, items.last()));
    }
}

/// The walks over a run of implementation items grow the run.
proof fn lemma_walk_impl_items(
    run: Outcome, path: Seq<char>, items: Seq<ItemImplItem>
)
    requires
        run.in_module(path),
    ensures
        run.grown_to(run.ran(impl_items_events(path, items))),
    decreases items,
{
    run.lemma_inside(path, arbitrary(), Seq::empty());
    if items.len() == 0 {
        run.lemma_grown_self();
    } else {
        let earlier = impl_items_events(path, items.drop_last());
        lemma_walk_impl_items(run, path, items.drop_last());
        let middle = run.ran(earlier);
        run.lemma_grown_keeps(middle, path, arbitrary(), Seq::empty());
        lemma_walk_impl_item(middle, path, items.last());
        lemma_then(run, earlier, impl_item_events(path, items.last()));
    }
}

/// The walk over a trait grows the run.
proof fn lemma_walk_trait(run: Outcome, path: Seq<char>, item_trait: ItemTrait)
    requires
        run.in_module(path),
    ensures
        run.grown_to(
            run.ran(
                around(
                    NodeView::Trait { path, item_trait },
                    trait_items_events(path, item_trait.trait_items@) + fns_events(
                        path,
                        item_trait.trait_defs@,
                    ),
                ),
            ),
        ),
    decreases item_trait,
{
    let node = NodeView::Trait { path, item_trait };
    let first = trait_items_events(path, item_trait.trait_items@);
    let second = fns_events(path, item_trait.trait_defs@);
    run.lemma_inside(path, arbitrary(), Seq::empty());
    run.lemma_prepared_in_module(path, EventView::visit(node));
    run.lemma_told_all(EventView::visit(node));
    let entered = run.told_all(EventView::visit(node));
    run.lemma_grown_keeps(entered, path, arbitrary(), Seq::empty());
    lemma_walk_trait_items(entered, path, item_trait.trait_items@);
    entered.lemma_grown_keeps(entered.ran(first), path, arbitrary(), Seq::empty());
    lemma_walk_fns(entered.ran(first), path, item_trait.trait_defs@);
    lemma_then(entered, first, second);
    entered.lemma_grown_keeps(entered.ran(first + second), path, arbitrary(), Seq::empty());
    entered.ran(first + second).lemma_prepared_in_module(path, EventView::leave(node));
    lemma_walk_around(run, node, first + second);
}

/// The walk over an item grows the run.
proof fn lemma_walk_item(run: Outcome, path: Seq<char>, item: ItemKind)
    requires
        run.in_module(path),
    ensures
        run.grown_to(run.ran(item_events(path, item))),
    decreases item,
{
    run.lemma_inside(path, arbitrary(), Seq::empty());
    match item {
        ItemKind::Use(item_use) => {
            lemma_walk_leaf(run, path, NodeView::Use { path, item_use });
        },
        ItemKind::Struct(item) => {
            lemma_walk_struct_fields(run, path, item.fields@);
        },
        ItemKind::Enum(item) => {
            lemma_walk_enum_fields(run, path, item.fields@);
        },
        ItemKind::Fn(item_fn) => {
            lemma_walk_fn(run, path, item_fn);
        },
        ItemKind::Trait(item_trait) => {
            lemma_walk_trait(run, path, item_trait);
        },
        ItemKind::Impl(item) => {
            lemma_walk_impl_items(run, path, item.contents@);
        },
        ItemKind::Abi(item) => {
            let first = trait_items_events(path, item.abi_items@);
            lemma_walk_trait_items(run, path, item.abi_items@);
            run.lemma_grown_keeps(run.ran(first), path, arbitrary(), Seq::empty());
            lemma_walk_fns(run.ran(first), path, item.abi_defs@);
            lemma_then(run, first, fns_events(path, item.abi_defs@));
        },
        ItemKind::Const(item_const) => {
            lemma_walk_leaf(run, path, NodeView::Const { path, item_const });
        },
        ItemKind::Storage(item) => {
            lemma_walk_storage_fields(run, path, item.fields@);
        },
        ItemKind::Configurable(item) => {
            lemma_walk_configurable_fields(run, path, item.fields@);
        },
        ItemKind::TypeAlias(item_type_alias) => {
            lemma_walk_leaf(run, path, NodeView::TypeAlias { path, item_type_alias });
        },
        ItemKind::Other => {
            run.lemma_grown_self();
        },
    }
}

/// The walks over a run of items grow the run.
proof fn lemma_walk_items(
    run: Outcome, path: Seq<char>, items: Seq<ItemKind>
)
    requires
        run.in_module(path),
    ensures
        run.grown_to(run.ran(items_events(path, items))),
    decreases items,
{
    run.lemma_inside(path, arbitrary(), Seq::empty());
    if items.len() == 0 {
        run.lemma_grown_self();
    } else {
        let earlier = items_events(path, items.drop_last());
        lemma_walk_items(run, path, items.drop_last());
        let middle = run.ran(earlier);
        run.lemma_grown_keeps(middle, path, arbitrary(), Seq::empty());
        lemma_walk_item(middle, path, items.last());
        lemma_then(run, earlier, item_events(path, items.last()));
    }
}

/// On the walk of a module every rule has an answer for every step.
///
/// Whatever the module and whatever the rules kept before, a run that no
/// step has failed in and whose rules are well formed goes through the whole
/// walk without a rule that has no answer: the walk ends without a failure,
/// and every rule keeps afterwards, at its place, every module, function and
/// block that it kept before, or it was ended by a finding whose span has no
/// line.
pub proof fn law_walk_is_answered(run: Outcome, path: Seq<char>, module: Module)
    requires
        run.steady(),
    ensures
        run.ran(module_events(path, module)).result is Ok || run.ran(
            module_events(path, module),
        ).stopped(),
        run.grown_to(run.ran(module_events(path, module))),
{
    let node = NodeView::Module { path };
    let parts = items_events(path, module.items@);
    run.lemma_prepared_for_module(path);
    run.lemma_entered_module(path);
    let entered = run.told_all(EventView::visit(node));
    entered.lemma_inside(path, arbitrary(), Seq::empty());
    lemma_walk_items(entered, path, module.items@);
    entered.lemma_grown_keeps(entered.ran(parts), path, arbitrary(), Seq::empty());
    entered.ran(parts).lemma_prepared_in_module(path, EventView::leave(node));
    lemma_walk_around(run, node, parts);
    reveal(Outcome::grown_to);
    reveal(Outcome::steady);
}

/// A run over any rules, with no failure yet, is steady.
pub proof fn lemma_start_is_steady(detectors: Seq<Detector>, project: Project)
    ensures
        start_of(detectors, project).steady(),
{
    reveal(Outcome::steady);
    let start = start_of(detectors, project);
    assert forall|i: int| 0 <= i < start.rules.len() implies (#[trigger] start.rules[i]).wf() by {
        match detectors[i] {
            Detector::UnusedImport(rule) => {
                rule.lemma_wf();
            },
            Detector::MissingLogs(rule) => {
                rule.lemma_wf();
            },
        }
    }
}

} // verus!
