//! What in a piece of syntax can refer to an imported name.
//!
//! Each function gives the texts that a walk meets, in the order it meets
//! them: a node first, then its parts from left to right. A path expression
//! refers by its first segment, generic arguments included; a constructor or
//! struct pattern by its whole path; a path type by the name of its first
//! segment, then by its generic arguments and by what stands in its
//! qualified root. The length of an array type is an expression like any
//! other.

use vstd::prelude::*;
use crate::syntax::expr::{
    BlockView, ExprFieldView, ExprKindView, ExprView, MatchBranchView, PatternFieldView,
    PatternView, StatementView,
};
use crate::syntax::item::{
    FnArgsView, FnArgView, FnSignatureView, ItemConstView, ItemTraitView, StorageFieldView,
    TraitsView, TraitTypeView, WhereBoundView,
};
use crate::syntax::ty::{PathRootView, PathView, TyView};

verus! {

pub type Texts = Seq<Seq<char>>;

/// The references of a path type.
pub open spec fn path_type_refs(path: PathView) -> Texts
    decreases path,
{
    seq![path.prefix.name.span.text] + (match path.prefix.generics {
        Some(args) => tys_refs(args),
        None => Seq::empty(),
    }) + (match path.root {
        PathRootView::Qualified { ty, as_trait } => ty_refs(*ty) + (match as_trait {
            Some(path) => path_type_refs(*path),
            None => Seq::empty(),
        }),
        _ => Seq::empty(),
    })
}

/// The references of a written type.
pub open spec fn ty_refs(ty: TyView) -> Texts
    decreases ty,
{
    match ty {
        TyView::Path(path) => path_type_refs(path),
        TyView::Tuple(elems) => tys_refs(elems),
        TyView::Array { ty, length } => ty_refs(*ty) + expr_refs(*length),
        TyView::Ptr(inner) => ty_refs(*inner),
        TyView::Slice(inner) => ty_refs(*inner),
        TyView::Ref { ty: inner, .. } => ty_refs(*inner),
        TyView::StringSlice
        | TyView::StringArray { .. }
        | TyView::Infer
        | TyView::Never => Seq::empty(),
    }
}

/// The references of a run of types, in order.
pub open spec fn tys_refs(tys: Seq<TyView>) -> Texts
    decreases tys,
{
    if tys.len() == 0 {
        Seq::empty()
    } else {
        tys_refs(tys.drop_last()) + ty_refs(tys.last())
    }
}

/// The references of the types of a run of optional types.
pub open spec fn opt_ty_refs(ty: Option<TyView>) -> Texts {
    match ty {
        Some(ty) => ty_refs(ty),
        None => Seq::empty(),
    }
}

/// The references of a pattern.
pub open spec fn pattern_refs(pattern: PatternView) -> Texts
    decreases pattern,
{
    match pattern {
        PatternView::Or { lhs, rhs } => pattern_refs(*lhs) + pattern_refs(*rhs),
        PatternView::Constructor { path, args } => seq![path.span.text] + patterns_refs(args),
        PatternView::Struct { path, fields } => seq![path.span.text] + pattern_fields_refs(fields),
        PatternView::Tuple(elems) => patterns_refs(elems),
        PatternView::Wildcard
        | PatternView::AmbiguousSingleIdent(_)
        | PatternView::Var { .. }
        | PatternView::Literal(_)
        | PatternView::Constant(_)
        | PatternView::Error => Seq::empty(),
    }
}

/// The references of a run of patterns, in order.
pub open spec fn patterns_refs(patterns: Seq<PatternView>) -> Texts
    decreases patterns,
{
    if patterns.len() == 0 {
        Seq::empty()
    } else {
        patterns_refs(patterns.drop_last()) + pattern_refs(patterns.last())
    }
}

/// The references of a field of a struct pattern.
pub open spec fn pattern_field_refs(field: PatternFieldView) -> Texts
    decreases field,
{
    match field {
        PatternFieldView::Field { pattern: Some(pattern), .. } => pattern_refs(*pattern),
        _ => Seq::empty(),
    }
}

/// The references of the fields of a struct pattern, in order.
pub open spec fn pattern_fields_refs(fields: Seq<PatternFieldView>) -> Texts
    decreases fields,
{
    if fields.len() == 0 {
        Seq::empty()
    } else {
        pattern_fields_refs(fields.drop_last()) + pattern_field_refs(fields.last())
    }
}

/// The references of an expression that may be absent.
pub open spec fn opt_expr_refs(expr: Option<Box<ExprView>>) -> Texts
    decreases expr,
{
    match expr {
        Some(expr) => expr_refs(*expr),
        None => Seq::empty(),
    }
}

/// The references of a run of expressions, in order.
pub open spec fn exprs_refs(exprs: Seq<ExprView>) -> Texts
    decreases exprs,
{
    if exprs.len() == 0 {
        Seq::empty()
    } else {
        exprs_refs(exprs.drop_last()) + expr_refs(exprs.last())
    }
}

/// The references of the values of a run of struct literal fields, in
/// order.
pub open spec fn fields_refs(fields: Seq<ExprFieldView>) -> Texts
    decreases fields,
{
    if fields.len() == 0 {
        Seq::empty()
    } else {
        fields_refs(fields.drop_last()) + opt_expr_refs(fields.last().value)
    }
}

/// The references of the bodies of a run of `match` arms, in order.
pub open spec fn branches_refs(branches: Seq<MatchBranchView>) -> Texts
    decreases branches,
{
    if branches.len() == 0 {
        Seq::empty()
    } else {
        branches_refs(branches.drop_last()) + expr_refs(branches.last().body)
    }
}

/// The references of a statement: those of the expression of a `let` or of
/// an expression statement. An item inside a block is walked on its own.
pub open spec fn statement_refs(statement: StatementView) -> Texts
    decreases statement,
{
    match statement {
        StatementView::Let { expr, .. } => expr_refs(expr),
        StatementView::Expr(expr) => expr_refs(expr),
        StatementView::Item(_) | StatementView::Error => Seq::empty(),
    }
}

/// The references of a run of statements, in order.
pub open spec fn statements_refs(statements: Seq<StatementView>) -> Texts
    decreases statements,
{
    if statements.len() == 0 {
        Seq::empty()
    } else {
        statements_refs(statements.drop_last()) + statement_refs(statements.last())
    }
}

/// The references of a block: its statements, then its trailing expression.
pub open spec fn block_refs(block: BlockView) -> Texts
    decreases block,
{
    statements_refs(block.statements) + opt_expr_refs(block.final_expr)
}

/// The references of an expression: the path expressions in it.
pub open spec fn expr_refs(expr: ExprView) -> Texts
    decreases expr,
{
    match expr.kind {
        ExprKindView::Path(path) => seq![path.prefix.span.text],
        ExprKindView::AbiCast { address, .. } => expr_refs(*address),
        ExprKindView::Struct { fields, .. } => fields_refs(fields),
        ExprKindView::Tuple(elems) => exprs_refs(elems),
        ExprKindView::Parens(inner) => expr_refs(*inner),
        ExprKindView::Block(block) => block_refs(block),
        ExprKindView::ArraySequence(elems) => exprs_refs(elems),
        ExprKindView::ArrayRepeat { value, length } => expr_refs(*value) + expr_refs(*length),
        ExprKindView::Asm { registers } => exprs_refs(registers),
        ExprKindView::Return(value) => opt_expr_refs(value),
        ExprKindView::If { condition, then_block, else_branch, .. } => expr_refs(*condition)
            + block_refs(then_block) + opt_expr_refs(else_branch),
        ExprKindView::Match { value, branches } => expr_refs(*value) + branches_refs(branches),
        ExprKindView::While { condition, block } => expr_refs(*condition) + block_refs(block),
        ExprKindView::For { iterator, block, .. } => expr_refs(*iterator) + block_refs(block),
        ExprKindView::FuncApp { func, args } => expr_refs(*func) + exprs_refs(args),
        ExprKindView::Index { target, arg } => expr_refs(*target) + expr_refs(*arg),
        ExprKindView::MethodCall { target, contract_args, args, .. } => expr_refs(*target)
            + fields_refs(contract_args) + exprs_refs(args),
        ExprKindView::FieldProjection { target, .. } => expr_refs(*target),
        ExprKindView::TupleFieldProjection { target, .. } => expr_refs(*target),
        ExprKindView::Ref { expr: inner, .. } => expr_refs(*inner),
        ExprKindView::Deref(inner) => expr_refs(*inner),
        ExprKindView::Not(inner) => expr_refs(*inner),
        ExprKindView::Binary { lhs, rhs, .. } => expr_refs(*lhs) + expr_refs(*rhs),
        ExprKindView::Reassignment { target, value } => expr_refs(*target) + expr_refs(*value),
        ExprKindView::Error
        | ExprKindView::Literal(_)
        | ExprKindView::Break
        | ExprKindView::Continue => Seq::empty(),
    }
}


/// The references of a run of path types, in order.
pub open spec fn paths_refs(paths: Seq<PathView>) -> Texts
    decreases paths.len(),
{
    if paths.len() == 0 {
        Seq::empty()
    } else {
        paths_refs(paths.drop_last()) + path_type_refs(paths.last())
    }
}

/// The references of the traits of a bound.
pub open spec fn traits_refs(traits: TraitsView) -> Texts {
    path_type_refs(traits.prefix) + paths_refs(traits.suffixes)
}

/// The references of the bounds of a `where` clause, in order.
pub open spec fn bounds_refs(bounds: Seq<WhereBoundView>) -> Texts
    decreases bounds.len(),
{
    if bounds.len() == 0 {
        Seq::empty()
    } else {
        bounds_refs(bounds.drop_last()) + traits_refs(bounds.last().bounds)
    }
}

/// The references of a `where` clause that may be absent.
pub open spec fn where_refs(clause: Option<Seq<WhereBoundView>>) -> Texts {
    match clause {
        Some(bounds) => bounds_refs(bounds),
        None => Seq::empty(),
    }
}

/// The references of the arguments of a function, in order: each argument's
/// pattern, then its type.
pub open spec fn args_refs(args: Seq<FnArgView>) -> Texts
    decreases args.len(),
{
    if args.len() == 0 {
        Seq::empty()
    } else {
        args_refs(args.drop_last()) + (pattern_refs(args.last().pattern) + ty_refs(args.last().ty))
    }
}

/// The references of a function's signature: its `where` clause, then the
/// arguments that are written out.
pub open spec fn signature_refs(signature: FnSignatureView) -> Texts {
    where_refs(signature.where_clause) + (match signature.arguments {
        FnArgsView::Static(args) => args_refs(args),
        FnArgsView::NonStatic { args: Some(args) } => args_refs(args),
        FnArgsView::NonStatic { args: None } => Seq::empty(),
    })
}

/// The references of a `let`: its pattern, its type where one is written,
/// then its expression.
pub open spec fn let_refs(pattern: PatternView, ty: Option<TyView>, expr: ExprView) -> Texts {
    pattern_refs(pattern) + opt_ty_refs(ty) + expr_refs(expr)
}

/// The references of the head of a trait: its supertraits, then its `where`
/// clause.
pub open spec fn trait_refs(item: ItemTraitView) -> Texts {
    (match item.super_traits {
        Some(traits) => traits_refs(traits),
        None => Seq::empty(),
    }) + where_refs(item.where_clause)
}

/// The references of a constant: its type, then its value.
pub open spec fn const_refs(item: ItemConstView) -> Texts {
    opt_ty_refs(item.ty) + (match item.expr {
        Some(expr) => expr_refs(expr),
        None => Seq::empty(),
    })
}

/// The references of a storage field or a configurable: its type, then the
/// expression that gives its first value.
pub open spec fn storage_field_refs(field: StorageFieldView) -> Texts {
    ty_refs(field.ty) + expr_refs(field.initializer)
}

/// The references of an associated type.
pub open spec fn trait_type_refs(item: TraitTypeView) -> Texts {
    opt_ty_refs(item.ty)
}

} // verus!
