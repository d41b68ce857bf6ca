//! What a rule is told at each step of a walk over a module.
//!
//! A walk enters a construct before it visits the construct's parts and
//! leaves it after the last of them. Every context names the module by its
//! path; the ones below a function also name the function, and a statement
//! or an expression comes with the spans of the blocks around it, outermost
//! first.

use vstd::prelude::*;
use crate::span::{Span, SpanView};
use crate::syntax::expr::{Block, Expr, Pattern, Statement};
use crate::syntax::item::{
    ItemConst, ItemFn, ItemTrait, ItemTypeAlias, ItemUse, StorageField, TraitType, TypeField,
};
use crate::syntax::ty::Ty;

verus! {

pub struct ModuleContext<'a> {
    pub path: &'a str,
}

pub struct UseContext<'a> {
    pub path: &'a str,
    pub item_use: &'a ItemUse,
}

pub struct StructFieldContext<'a> {
    pub path: &'a str,
    pub field: &'a TypeField,
}

pub struct EnumFieldContext<'a> {
    pub path: &'a str,
    pub field: &'a TypeField,
}

pub struct FnContext<'a> {
    pub path: &'a str,
    pub item_fn: &'a ItemFn,
}

pub struct StatementLetContext<'a> {
    pub path: &'a str,
    pub pattern: &'a Pattern,
    pub ty: &'a Option<Ty>,
    pub expr: &'a Expr,
}

pub struct ExprContext<'a> {
    pub path: &'a str,
    pub item_fn: &'a ItemFn,
    pub blocks: Vec<Span>,
    pub expr: &'a Expr,
}

pub struct TraitContext<'a> {
    pub path: &'a str,
    pub item_trait: &'a ItemTrait,
}

pub struct ConstContext<'a> {
    pub path: &'a str,
    pub item_const: &'a ItemConst,
}

pub struct StorageFieldContext<'a> {
    pub path: &'a str,
    pub field: &'a StorageField,
}

pub struct ConfigurableFieldContext<'a> {
    pub path: &'a str,
    pub field: &'a StorageField,
}

pub struct TypeAliasContext<'a> {
    pub path: &'a str,
    pub item_type_alias: &'a ItemTypeAlias,
}

pub struct TraitTypeContext<'a> {
    pub path: &'a str,
    pub item_type: &'a TraitType,
}

pub struct BlockContext<'a> {
    pub path: &'a str,
    pub item_fn: &'a ItemFn,
    pub block: &'a Block,
}

pub struct StatementContext<'a> {
    pub path: &'a str,
    pub item_fn: &'a ItemFn,
    pub blocks: Vec<Span>,
    pub statement: &'a Statement,
}

/// A construct that a walk enters and leaves, with its context.
pub enum Node<'a> {
    Module(ModuleContext<'a>),
    Use(UseContext<'a>),
    StructField(StructFieldContext<'a>),
    EnumField(EnumFieldContext<'a>),
    Fn(FnContext<'a>),
    StatementLet(StatementLetContext<'a>),
    Expr(ExprContext<'a>),
    Trait(TraitContext<'a>),
    Const(ConstContext<'a>),
    StorageField(StorageFieldContext<'a>),
    ConfigurableField(ConfigurableFieldContext<'a>),
    TypeAlias(TypeAliasContext<'a>),
    TraitType(TraitTypeContext<'a>),
    Block(BlockContext<'a>),
    Statement(StatementContext<'a>),
}

/// Whether a construct is entered or left.
#[derive(Clone, Copy, Debug, PartialEq, Eq, Structural)]
pub enum Phase {
    Visit,
    Leave,
}

/// One step of a walk.
pub struct Event<'a> {
    pub phase: Phase,
    pub node: Node<'a>,
}

/// The model of a node: the path as text, the construct itself, and the
/// spans of the blocks around it.
#[allow(inconsistent_fields)]
pub ghost enum NodeView {
    Module { path: Seq<char> },
    Use { path: Seq<char>, item_use: ItemUse },
    StructField { path: Seq<char>, field: TypeField },
    EnumField { path: Seq<char>, field: TypeField },
    Fn { path: Seq<char>, item_fn: ItemFn },
    StatementLet { path: Seq<char>, pattern: Pattern, ty: Option<Ty>, expr: Expr },
    Expr { path: Seq<char>, item_fn: ItemFn, blocks: Seq<SpanView>, expr: Expr },
    Trait { path: Seq<char>, item_trait: ItemTrait },
    Const { path: Seq<char>, item_const: ItemConst },
    StorageField { path: Seq<char>, field: StorageField },
    ConfigurableField { path: Seq<char>, field: StorageField },
    TypeAlias { path: Seq<char>, item_type_alias: ItemTypeAlias },
    TraitType { path: Seq<char>, item_type: TraitType },
    Block { path: Seq<char>, item_fn: ItemFn, block: Block },
    Statement { path: Seq<char>, item_fn: ItemFn, blocks: Seq<SpanView>, statement: Statement },
}

pub ghost struct EventView {
    pub phase: Phase,
    pub node: NodeView,
}

impl EventView {
    pub open spec fn visit(node: NodeView) -> EventView {
        EventView { phase: Phase::Visit, node }
    }

    pub open spec fn leave(node: NodeView) -> EventView {
        EventView { phase: Phase::Leave, node }
    }
}

/// The models of a run of spans.
pub open spec fn spans_view(spans: Seq<Span>) -> Seq<SpanView> {
    spans.map_values(|s: Span| s@)
}

impl<'a> View for Node<'a> {
    type V = NodeView;

    open spec fn view(&self) -> NodeView {
        match self {
            Node::Module(c) => NodeView::Module { path: c.path@ },
            Node::Use(c) => NodeView::Use { path: c.path@, item_use: *c.item_use },
            Node::StructField(c) => NodeView::StructField { path: c.path@, field: *c.field },
            Node::EnumField(c) => NodeView::EnumField { path: c.path@, field: *c.field },
            Node::Fn(c) => NodeView::Fn { path: c.path@, item_fn: *c.item_fn },
            Node::StatementLet(c) => NodeView::StatementLet {
                path: c.path@,
                pattern: *c.pattern,
                ty: *c.ty,
                expr: *c.expr,
            },
            Node::Expr(c) => NodeView::Expr {
                path: c.path@,
                item_fn: *c.item_fn,
                blocks: spans_view(c.blocks@),
                expr: *c.expr,
            },
            Node::Trait(c) => NodeView::Trait { path: c.path@, item_trait: *c.item_trait },
            Node::Const(c) => NodeView::Const { path: c.path@, item_const: *c.item_const },
            Node::StorageField(c) => NodeView::StorageField { path: c.path@, field: *c.field },
            Node::ConfigurableField(c) => NodeView::ConfigurableField {
                path: c.path@,
                field: *c.field,
            },
            Node::TypeAlias(c) => NodeView::TypeAlias {
                path: c.path@,
                item_type_alias: *c.item_type_alias,
            },
            Node::TraitType(c) => NodeView::TraitType { path: c.path@, item_type: *c.item_type },
            Node::Block(c) => NodeView::Block {
                path: c.path@,
                item_fn: *c.item_fn,
                block: *c.block,
            },
            Node::Statement(c) => NodeView::Statement {
                path: c.path@,
                item_fn: *c.item_fn,
                blocks: spans_view(c.blocks@),
                statement: *c.statement,
            },
        }
    }
}

impl<'a> View for Event<'a> {
    type V = EventView;

    open spec fn view(&self) -> EventView {
        EventView { phase: self.phase, node: self.node@ }
    }
}

} // verus!
