//! Expressions, statements and patterns.

use vstd::prelude::*;
use crate::span::{Ident, IdentView, Span, SpanView};
use crate::syntax::item::{ItemKind, ItemKindView};
use crate::syntax::ty::{Path, PathSegment, PathSegmentView, PathView, Ty, TyView};

verus! {

/// The four kinds of literal.
#[derive(Clone, Copy, Debug, PartialEq, Eq)]
pub enum Literal {
    String,
    Char,
    Int,
    Bool,
}

/// The binary operators.
#[derive(Clone, Copy, Debug, PartialEq, Eq)]
pub enum BinaryOp {
    Mul,
    Div,
    Pow,
    Modulo,
    Add,
    Sub,
    Shl,
    Shr,
    BitAnd,
    BitXor,
    BitOr,
    Equal,
    NotEqual,
    LessThan,
    GreaterThan,
    LessThanEq,
    GreaterThanEq,
    LogicalAnd,
    LogicalOr,
}

impl BinaryOp {
    /// Whether the operator is one of the arithmetic, shift and bitwise
    /// operators, whose result has the type of the left operand. The others
    /// compare or combine truth values.
    pub open spec fn arithmetic(self) -> bool {
        match self {
            BinaryOp::Equal
            | BinaryOp::NotEqual
            | BinaryOp::LessThan
            | BinaryOp::GreaterThan
            | BinaryOp::LessThanEq
            | BinaryOp::GreaterThanEq
            | BinaryOp::LogicalAnd
            | BinaryOp::LogicalOr => false,
            _ => true,
        }
    }

    pub fn is_arithmetic(&self) -> (r: bool)
        ensures
            r == self.arithmetic(),
    {
        match self {
            BinaryOp::Equal
            | BinaryOp::NotEqual
            | BinaryOp::LessThan
            | BinaryOp::GreaterThan
            | BinaryOp::LessThanEq
            | BinaryOp::GreaterThanEq
            | BinaryOp::LogicalAnd
            | BinaryOp::LogicalOr => false,
            _ => true,
        }
    }
}

/// A field of a struct literal: `name: value`, or `name` alone.
#[derive(Debug, PartialEq, Eq)]
pub struct ExprField {
    pub name: Ident,
    pub value: Option<Box<Expr>>,
}

/// One arm of a `match`. An arm written with braces has a block expression
/// as its body.
#[derive(Debug, PartialEq, Eq)]
pub struct MatchBranch {
    pub pattern: Pattern,
    pub body: Expr,
}

/// The contents of a pair of braces: statements, then an optional trailing
/// expression that gives the block its value.
#[derive(Debug, PartialEq, Eq)]
pub struct Block {
    pub statements: Vec<Statement>,
    pub final_expr: Option<Box<Expr>>,
    pub span: Span,
}

#[derive(Debug, PartialEq, Eq)]
pub enum Statement {
    Let { pattern: Pattern, ty: Option<Ty>, expr: Expr },
    /// An item declared inside a block.
    Item(Box<ItemKind>),
    Expr(Expr),
    /// A statement that could not be parsed.
    Error,
}

/// A field of a struct pattern.
#[derive(Debug, PartialEq, Eq)]
pub enum PatternField {
    /// `..`
    Rest,
    Field { name: Ident, pattern: Option<Box<Pattern>> },
}

#[derive(Debug, PartialEq, Eq)]
pub enum Pattern {
    Or { lhs: Box<Pattern>, rhs: Box<Pattern> },
    Wildcard,
    /// A single identifier, which binds a variable or names an enum variant.
    AmbiguousSingleIdent(Ident),
    Var { mutable: bool, name: Ident },
    Literal(Literal),
    Constant(Path),
    Constructor { path: Path, args: Vec<Pattern> },
    Struct { path: Path, fields: Vec<PatternField> },
    Tuple(Vec<Pattern>),
    /// A pattern that could not be parsed.
    Error,
}

/// An expression and the span it was written at.
#[derive(Debug, PartialEq, Eq)]
pub struct Expr {
    pub kind: ExprKind,
    pub span: Span,
}

#[allow(inconsistent_fields)]
#[derive(Debug, PartialEq, Eq)]
pub enum ExprKind {
    /// An expression that could not be parsed.
    Error,
    Path(Path),
    Literal(Literal),
    AbiCast { name: Path, address: Box<Expr> },
    Struct { path: Path, fields: Vec<ExprField> },
    /// A tuple; the empty tuple is the unit value.
    Tuple(Vec<Expr>),
    Parens(Box<Expr>),
    Block(Block),
    /// `[a, b, c]`
    ArraySequence(Vec<Expr>),
    /// `[value; length]`
    ArrayRepeat { value: Box<Expr>, length: Box<Expr> },
    /// An assembly block, with the expressions its registers start from.
    Asm { registers: Vec<Expr> },
    Return(Option<Box<Expr>>),
    /// `if condition` or `if let pattern = condition`, with an `else` that is
    /// a block or another `if`.
    If {
        pattern: Option<Box<Pattern>>,
        condition: Box<Expr>,
        then_block: Block,
        else_branch: Option<Box<Expr>>,
    },
    Match { value: Box<Expr>, branches: Vec<MatchBranch> },
    While { condition: Box<Expr>, block: Block },
    For { pattern: Box<Pattern>, iterator: Box<Expr>, block: Block },
    FuncApp { func: Box<Expr>, args: Vec<Expr> },
    Index { target: Box<Expr>, arg: Box<Expr> },
    MethodCall {
        target: Box<Expr>,
        name: PathSegment,
        contract_args: Vec<ExprField>,
        args: Vec<Expr>,
    },
    FieldProjection { target: Box<Expr>, name: Ident },
    TupleFieldProjection { target: Box<Expr>, field: usize },
    Ref { mutable: bool, expr: Box<Expr> },
    Deref(Box<Expr>),
    Not(Box<Expr>),
    Binary { op: BinaryOp, lhs: Box<Expr>, rhs: Box<Expr> },
    Reassignment { target: Box<Expr>, value: Box<Expr> },
    Break,
    Continue,
}

pub ghost struct ExprFieldView {
    pub name: IdentView,
    pub value: Option<Box<ExprView>>,
}

pub ghost struct MatchBranchView {
    pub pattern: PatternView,
    pub body: ExprView,
}

pub ghost struct BlockView {
    pub statements: Seq<StatementView>,
    pub final_expr: Option<Box<ExprView>>,
    pub span: SpanView,
}

pub ghost enum StatementView {
    Let { pattern: PatternView, ty: Option<TyView>, expr: ExprView },
    Item(Box<ItemKindView>),
    Expr(ExprView),
    Error,
}

pub ghost enum PatternFieldView {
    Rest,
    Field { name: IdentView, pattern: Option<Box<PatternView>> },
}

pub ghost enum PatternView {
    Or { lhs: Box<PatternView>, rhs: Box<PatternView> },
    Wildcard,
    AmbiguousSingleIdent(IdentView),
    Var { mutable: bool, name: IdentView },
    Literal(Literal),
    Constant(PathView),
    Constructor { path: PathView, args: Seq<PatternView> },
    Struct { path: PathView, fields: Seq<PatternFieldView> },
    Tuple(Seq<PatternView>),
    Error,
}

pub ghost struct ExprView {
    pub kind: ExprKindView,
    pub span: SpanView,
}

#[allow(inconsistent_fields)]
pub ghost enum ExprKindView {
    Error,
    Path(PathView),
    Literal(Literal),
    AbiCast { name: PathView, address: Box<ExprView> },
    Struct { path: PathView, fields: Seq<ExprFieldView> },
    Tuple(Seq<ExprView>),
    Parens(Box<ExprView>),
    Block(BlockView),
    ArraySequence(Seq<ExprView>),
    ArrayRepeat { value: Box<ExprView>, length: Box<ExprView> },
    Asm { registers: Seq<ExprView> },
    Return(Option<Box<ExprView>>),
    If {
        pattern: Option<Box<PatternView>>,
        condition: Box<ExprView>,
        then_block: BlockView,
        else_branch: Option<Box<ExprView>>,
    },
    Match { value: Box<ExprView>, branches: Seq<MatchBranchView> },
    While { condition: Box<ExprView>, block: BlockView },
    For { pattern: Box<PatternView>, iterator: Box<ExprView>, block: BlockView },
    FuncApp { func: Box<ExprView>, args: Seq<ExprView> },
    Index { target: Box<ExprView>, arg: Box<ExprView> },
    MethodCall {
        target: Box<ExprView>,
        name: PathSegmentView,
        contract_args: Seq<ExprFieldView>,
        args: Seq<ExprView>,
    },
    FieldProjection { target: Box<ExprView>, name: IdentView },
    TupleFieldProjection { target: Box<ExprView>, field: nat },
    Ref { mutable: bool, expr: Box<ExprView> },
    Deref(Box<ExprView>),
    Not(Box<ExprView>),
    Binary { op: BinaryOp, lhs: Box<ExprView>, rhs: Box<ExprView> },
    Reassignment { target: Box<ExprView>, value: Box<ExprView> },
    Break,
    Continue,
}

impl ExprField {
    pub open spec fn model(self) -> ExprFieldView
        decreases self,
    {
        ExprFieldView {
            name: self.name@,
            value: match self.value {
                Some(value) => Some(Box::new(value.model())),
                None => None,
            },
        }
    }

    /// The models of a run of fields, in order.
    pub open spec fn models(fields: Seq<ExprField>) -> Seq<ExprFieldView>
        decreases fields,
    {
        Seq::new(
            fields.len(),
            |i: int|
                if 0 <= i < fields.len() {
                    fields[i].model()
                } else {
                    arbitrary()
                },
        )
    }
}

impl MatchBranch {
    pub open spec fn model(self) -> MatchBranchView
        decreases self,
    {
        MatchBranchView { pattern: self.pattern.model(), body: self.body.model() }
    }

    /// The models of a run of arms, in order.
    pub open spec fn models(branches: Seq<MatchBranch>) -> Seq<MatchBranchView>
        decreases branches,
    {
        Seq::new(
            branches.len(),
            |i: int|
                if 0 <= i < branches.len() {
                    branches[i].model()
                } else {
                    arbitrary()
                },
        )
    }
}

impl Block {
    pub open spec fn model(self) -> BlockView
        decreases self,
    {
        BlockView {
            statements: Statement::models(self.statements@),
            final_expr: match self.final_expr {
                Some(expr) => Some(Box::new(expr.model())),
                None => None,
            },
            span: self.span@,
        }
    }
}

impl Statement {
    pub open spec fn model(self) -> StatementView
        decreases self,
    {
        match self {
            Statement::Let { pattern, ty, expr } => StatementView::Let {
                pattern: pattern.model(),
                ty: match ty {
                    Some(ty) => Some(ty.model()),
                    None => None,
                },
                expr: expr.model(),
            },
            Statement::Item(item) => StatementView::Item(Box::new(item.model())),
            Statement::Expr(expr) => StatementView::Expr(expr.model()),
            Statement::Error => StatementView::Error,
        }
    }

    /// The models of a run of statements, in order.
    pub open spec fn models(statements: Seq<Statement>) -> Seq<StatementView>
        decreases statements,
    {
        Seq::new(
            statements.len(),
            |i: int|
                if 0 <= i < statements.len() {
                    statements[i].model()
                } else {
                    arbitrary()
                },
        )
    }
}

impl PatternField {
    pub open spec fn model(self) -> PatternFieldView
        decreases self,
    {
        match self {
            PatternField::Rest => PatternFieldView::Rest,
            PatternField::Field { name, pattern } => PatternFieldView::Field {
                name: name@,
                pattern: match pattern {
                    Some(pattern) => Some(Box::new(pattern.model())),
                    None => None,
                },
            },
        }
    }

    /// The models of a run of pattern fields, in order.
    pub open spec fn models(fields: Seq<PatternField>) -> Seq<PatternFieldView>
        decreases fields,
    {
        Seq::new(
            fields.len(),
            |i: int|
                if 0 <= i < fields.len() {
                    fields[i].model()
                } else {
                    arbitrary()
                },
        )
    }
}

impl Pattern {
    pub open spec fn model(self) -> PatternView
        decreases self,
    {
        match self {
            Pattern::Or { lhs, rhs } => PatternView::Or {
                lhs: Box::new(lhs.model()),
                rhs: Box::new(rhs.model()),
            },
            Pattern::Wildcard => PatternView::Wildcard,
            Pattern::AmbiguousSingleIdent(name) => PatternView::AmbiguousSingleIdent(name@),
            Pattern::Var { mutable, name } => PatternView::Var { mutable, name: name@ },
            Pattern::Literal(literal) => PatternView::Literal(literal),
            Pattern::Constant(path) => PatternView::Constant(path.model()),
            Pattern::Constructor { path, args } => PatternView::Constructor {
                path: path.model(),
                args: Pattern::models(args@),
            },
            Pattern::Struct { path, fields } => PatternView::Struct {
                path: path.model(),
                fields: PatternField::models(fields@),
            },
            Pattern::Tuple(elems) => PatternView::Tuple(Pattern::models(elems@)),
            Pattern::Error => PatternView::Error,
        }
    }

    /// The models of a run of patterns, in order.
    pub open spec fn models(patterns: Seq<Pattern>) -> Seq<PatternView>
        decreases patterns,
    {
        Seq::new(
            patterns.len(),
            |i: int|
                if 0 <= i < patterns.len() {
                    patterns[i].model()
                } else {
                    arbitrary()
                },
        )
    }
}

impl Expr {
    pub open spec fn model(self) -> ExprView
        decreases self,
    {
        ExprView { kind: self.kind.model(), span: self.span@ }
    }

    /// The models of a run of expressions, in order.
    pub open spec fn models(exprs: Seq<Expr>) -> Seq<ExprView>
        decreases exprs,
    {
        Seq::new(
            exprs.len(),
            |i: int|
                if 0 <= i < exprs.len() {
                    exprs[i].model()
                } else {
                    arbitrary()
                },
        )
    }
}

impl ExprKind {
    pub open spec fn model(self) -> ExprKindView
        decreases self,
    {
        match self {
            ExprKind::Error => ExprKindView::Error,
            ExprKind::Path(path) => ExprKindView::Path(path.model()),
            ExprKind::Literal(literal) => ExprKindView::Literal(literal),
            ExprKind::AbiCast { name, address } => ExprKindView::AbiCast {
                name: name.model(),
                address: Box::new(address.model()),
            },
            ExprKind::Struct { path, fields } => ExprKindView::Struct {
                path: path.model(),
                fields: ExprField::models(fields@),
            },
            ExprKind::Tuple(elems) => ExprKindView::Tuple(Expr::models(elems@)),
            ExprKind::Parens(inner) => ExprKindView::Parens(Box::new(inner.model())),
            ExprKind::Block(block) => ExprKindView::Block(block.model()),
            ExprKind::ArraySequence(elems) => ExprKindView::ArraySequence(Expr::models(elems@)),
            ExprKind::ArrayRepeat { value, length } => ExprKindView::ArrayRepeat {
                value: Box::new(value.model()),
                length: Box::new(length.model()),
            },
            ExprKind::Asm { registers } => ExprKindView::Asm {
                registers: Expr::models(registers@),
            },
            ExprKind::Return(value) => ExprKindView::Return(
                match value {
                    Some(value) => Some(Box::new(value.model())),
                    None => None,
                },
            ),
            ExprKind::If { pattern, condition, then_block, else_branch } => ExprKindView::If {
                pattern: match pattern {
                    Some(pattern) => Some(Box::new(pattern.model())),
                    None => None,
                },
                condition: Box::new(condition.model()),
                then_block: then_block.model(),
                else_branch: match else_branch {
                    Some(branch) => Some(Box::new(branch.model())),
                    None => None,
                },
            },
            ExprKind::Match { value, branches } => ExprKindView::Match {
                value: Box::new(value.model()),
                branches: MatchBranch::models(branches@),
            },
            ExprKind::While { condition, block } => ExprKindView::While {
                condition: Box::new(condition.model()),
                block: block.model(),
            },
            ExprKind::For { pattern, iterator, block } => ExprKindView::For {
                pattern: Box::new(pattern.model()),
                iterator: Box::new(iterator.model()),
                block: block.model(),
            },
            ExprKind::FuncApp { func, args } => ExprKindView::FuncApp {
                func: Box::new(func.model()),
                args: Expr::models(args@),
            },
            ExprKind::Index { target, arg } => ExprKindView::Index {
                target: Box::new(target.model()),
                arg: Box::new(arg.model()),
            },
            ExprKind::MethodCall { target, name, contract_args, args } => ExprKindView::MethodCall {
                target: Box::new(target.model()),
                name: name.model(),
                contract_args: ExprField::models(contract_args@),
                args: Expr::models(args@),
            },
            ExprKind::FieldProjection { target, name } => ExprKindView::FieldProjection {
                target: Box::new(target.model()),
                name: name@,
            },
            ExprKind::TupleFieldProjection { target, field } => ExprKindView::TupleFieldProjection {
                target: Box::new(target.model()),
                field: field as nat,
            },
            ExprKind::Ref { mutable, expr } => ExprKindView::Ref {
                mutable,
                expr: Box::new(expr.model()),
            },
            ExprKind::Deref(expr) => ExprKindView::Deref(Box::new(expr.model())),
            ExprKind::Not(expr) => ExprKindView::Not(Box::new(expr.model())),
            ExprKind::Binary { op, lhs, rhs } => ExprKindView::Binary {
                op,
                lhs: Box::new(lhs.model()),
                rhs: Box::new(rhs.model()),
            },
            ExprKind::Reassignment { target, value } => ExprKindView::Reassignment {
                target: Box::new(target.model()),
                value: Box::new(value.model()),
            },
            ExprKind::Break => ExprKindView::Break,
            ExprKind::Continue => ExprKindView::Continue,
        }
    }
}

impl View for ExprField {
    type V = ExprFieldView;

    open spec fn view(&self) -> ExprFieldView {
        self.model()
    }
}

impl View for MatchBranch {
    type V = MatchBranchView;

    open spec fn view(&self) -> MatchBranchView {
        self.model()
    }
}

impl View for Block {
    type V = BlockView;

    open spec fn view(&self) -> BlockView {
        self.model()
    }
}

impl View for Statement {
    type V = StatementView;

    open spec fn view(&self) -> StatementView {
        self.model()
    }
}

impl View for PatternField {
    type V = PatternFieldView;

    open spec fn view(&self) -> PatternFieldView {
        self.model()
    }
}

impl View for Pattern {
    type V = PatternView;

    open spec fn view(&self) -> PatternView {
        self.model()
    }
}

impl View for Expr {
    type V = ExprView;

    open spec fn view(&self) -> ExprView {
        self.model()
    }
}

impl View for ExprKind {
    type V = ExprKindView;

    open spec fn view(&self) -> ExprKindView {
        self.model()
    }
}


impl ExprField {
    /// Copies of a run of fields, in order.
    pub fn clone_all(fields: &Vec<ExprField>) -> (copies: Vec<ExprField>)
        ensures
            ExprField::models(copies@) == ExprField::models(fields@),
        decreases fields,
    {
        let mut copies: Vec<ExprField> = Vec::new();
        let mut i: usize = 0;
        while i < fields.len()
            invariant
                i <= fields.len(),
                copies.len() == i,
                forall|j: int| 0 <= j < i ==> copies[j]@ == fields[j]@,
            decreases fields.len() - i,
        {
            copies.push(fields[i].clone());
            i += 1;
        }
        assert(ExprField::models(copies@) =~= ExprField::models(fields@));
        copies
    }
}

impl MatchBranch {
    /// Copies of a run of arms, in order.
    pub fn clone_all(branches: &Vec<MatchBranch>) -> (copies: Vec<MatchBranch>)
        ensures
            MatchBranch::models(copies@) == MatchBranch::models(branches@),
        decreases branches,
    {
        let mut copies: Vec<MatchBranch> = Vec::new();
        let mut i: usize = 0;
        while i < branches.len()
            invariant
                i <= branches.len(),
                copies.len() == i,
                forall|j: int| 0 <= j < i ==> copies[j]@ == branches[j]@,
            decreases branches.len() - i,
        {
            copies.push(branches[i].clone());
            i += 1;
        }
        assert(MatchBranch::models(copies@) =~= MatchBranch::models(branches@));
        copies
    }
}

impl Statement {
    /// Copies of a run of statements, in order.
    pub fn clone_all(statements: &Vec<Statement>) -> (copies: Vec<Statement>)
        ensures
            Statement::models(copies@) == Statement::models(statements@),
        decreases statements,
    {
        let mut copies: Vec<Statement> = Vec::new();
        let mut i: usize = 0;
        while i < statements.len()
            invariant
                i <= statements.len(),
                copies.len() == i,
                forall|j: int| 0 <= j < i ==> copies[j]@ == statements[j]@,
            decreases statements.len() - i,
        {
            copies.push(statements[i].clone());
            i += 1;
        }
        assert(Statement::models(copies@) =~= Statement::models(statements@));
        copies
    }
}

impl PatternField {
    /// Copies of a run of pattern fields, in order.
    pub fn clone_all(fields: &Vec<PatternField>) -> (copies: Vec<PatternField>)
        ensures
            PatternField::models(copies@) == PatternField::models(fields@),
        decreases fields,
    {
        let mut copies: Vec<PatternField> = Vec::new();
        let mut i: usize = 0;
        while i < fields.len()
            invariant
                i <= fields.len(),
                copies.len() == i,
                forall|j: int| 0 <= j < i ==> copies[j]@ == fields[j]@,
            decreases fields.len() - i,
        {
            copies.push(fields[i].clone());
            i += 1;
        }
        assert(PatternField::models(copies@) =~= PatternField::models(fields@));
        copies
    }
}

impl Pattern {
    /// Copies of a run of patterns, in order.
    pub fn clone_all(patterns: &Vec<Pattern>) -> (copies: Vec<Pattern>)
        ensures
            Pattern::models(copies@) == Pattern::models(patterns@),
        decreases patterns,
    {
        let mut copies: Vec<Pattern> = Vec::new();
        let mut i: usize = 0;
        while i < patterns.len()
            invariant
                i <= patterns.len(),
                copies.len() == i,
                forall|j: int| 0 <= j < i ==> copies[j]@ == patterns[j]@,
            decreases patterns.len() - i,
        {
            copies.push(patterns[i].clone());
            i += 1;
        }
        assert(Pattern::models(copies@) =~= Pattern::models(patterns@));
        copies
    }
}

impl Expr {
    /// Copies of a run of expressions, in order.
    pub fn clone_all(exprs: &Vec<Expr>) -> (copies: Vec<Expr>)
        ensures
            Expr::models(copies@) == Expr::models(exprs@),
        decreases exprs,
    {
        let mut copies: Vec<Expr> = Vec::new();
        let mut i: usize = 0;
        while i < exprs.len()
            invariant
                i <= exprs.len(),
                copies.len() == i,
                forall|j: int| 0 <= j < i ==> copies[j]@ == exprs[j]@,
            decreases exprs.len() - i,
        {
            copies.push(exprs[i].clone());
            i += 1;
        }
        assert(Expr::models(copies@) =~= Expr::models(exprs@));
        copies
    }
}

impl Clone for ExprField {
    fn clone(&self) -> (copy: ExprField)
        ensures
            copy@ == self@,
        decreases self,
    {
        ExprField {
            name: self.name.clone(),
            value: match &self.value {
                Some(value) => Some(Box::new((**value).clone())),
                None => None,
            },
        }
    }
}

impl Clone for MatchBranch {
    fn clone(&self) -> (copy: MatchBranch)
        ensures
            copy@ == self@,
        decreases self,
    {
        MatchBranch { pattern: self.pattern.clone(), body: self.body.clone() }
    }
}

impl Clone for Block {
    fn clone(&self) -> (copy: Block)
        ensures
            copy@ == self@,
        decreases self,
    {
        Block {
            statements: Statement::clone_all(&self.statements),
            final_expr: match &self.final_expr {
                Some(expr) => Some(Box::new((**expr).clone())),
                None => None,
            },
            span: self.span.clone(),
        }
    }
}

impl Clone for Statement {
    fn clone(&self) -> (copy: Statement)
        ensures
            copy@ == self@,
        decreases self,
    {
        match self {
            Statement::Let { pattern, ty, expr } => Statement::Let {
                pattern: pattern.clone(),
                ty: match ty {
                    Some(ty) => Some(ty.clone()),
                    None => None,
                },
                expr: expr.clone(),
            },
            Statement::Item(item) => Statement::Item(Box::new((**item).clone())),
            Statement::Expr(expr) => Statement::Expr(expr.clone()),
            Statement::Error => Statement::Error,
        }
    }
}

impl Clone for PatternField {
    fn clone(&self) -> (copy: PatternField)
        ensures
            copy@ == self@,
        decreases self,
    {
        match self {
            PatternField::Rest => PatternField::Rest,
            PatternField::Field { name, pattern } => PatternField::Field {
                name: name.clone(),
                pattern: match pattern {
                    Some(pattern) => Some(Box::new((**pattern).clone())),
                    None => None,
                },
            },
        }
    }
}

impl Clone for Pattern {
    fn clone(&self) -> (copy: Pattern)
        ensures
            copy@ == self@,
        decreases self,
    {
        match self {
            Pattern::Or { lhs, rhs } => Pattern::Or {
                lhs: Box::new((**lhs).clone()),
                rhs: Box::new((**rhs).clone()),
            },
            Pattern::Wildcard => Pattern::Wildcard,
            Pattern::AmbiguousSingleIdent(name) => Pattern::AmbiguousSingleIdent(name.clone()),
            Pattern::Var { mutable, name } => Pattern::Var {
                mutable: *mutable,
                name: name.clone(),
            },
            Pattern::Literal(literal) => Pattern::Literal(*literal),
            Pattern::Constant(path) => Pattern::Constant(path.clone()),
            Pattern::Constructor { path, args } => Pattern::Constructor {
                path: path.clone(),
                args: Pattern::clone_all(args),
            },
            Pattern::Struct { path, fields } => Pattern::Struct {
                path: path.clone(),
                fields: PatternField::clone_all(fields),
            },
            Pattern::Tuple(elems) => Pattern::Tuple(Pattern::clone_all(elems)),
            Pattern::Error => Pattern::Error,
        }
    }
}

impl Clone for Expr {
    fn clone(&self) -> (copy: Expr)
        ensures
            copy@ == self@,
        decreases self,
    {
        Expr { kind: self.kind.clone(), span: self.span.clone() }
    }
}

impl Clone for ExprKind {
    fn clone(&self) -> (copy: ExprKind)
        ensures
            copy@ == self@,
        decreases self,
    {
        match self {
            ExprKind::Error => ExprKind::Error,
            ExprKind::Path(path) => ExprKind::Path(path.clone()),
            ExprKind::Literal(literal) => ExprKind::Literal(*literal),
            ExprKind::AbiCast { name, address } => ExprKind::AbiCast {
                name: name.clone(),
                address: Box::new((**address).clone()),
            },
            ExprKind::Struct { path, fields } => ExprKind::Struct {
                path: path.clone(),
                fields: ExprField::clone_all(fields),
            },
            ExprKind::Tuple(elems) => ExprKind::Tuple(Expr::clone_all(elems)),
            ExprKind::Parens(inner) => ExprKind::Parens(Box::new((**inner).clone())),
            ExprKind::Block(block) => ExprKind::Block(block.clone()),
            ExprKind::ArraySequence(elems) => ExprKind::ArraySequence(Expr::clone_all(elems)),
            ExprKind::ArrayRepeat { value, length } => ExprKind::ArrayRepeat {
                value: Box::new((**value).clone()),
                length: Box::new((**length).clone()),
            },
            ExprKind::Asm { registers } => ExprKind::Asm { registers: Expr::clone_all(registers) },
            ExprKind::Return(value) => ExprKind::Return(
                match value {
                    Some(value) => Some(Box::new((**value).clone())),
                    None => None,
                },
            ),
            ExprKind::If { pattern, condition, then_block, else_branch } => ExprKind::If {
                pattern: match pattern {
                    Some(pattern) => Some(Box::new((**pattern).clone())),
                    None => None,
                },
                condition: Box::new((**condition).clone()),
                then_block: then_block.clone(),
                else_branch: match else_branch {
                    Some(branch) => Some(Box::new((**branch).clone())),
                    None => None,
                },
            },
            ExprKind::Match { value, branches } => ExprKind::Match {
                value: Box::new((**value).clone()),
                branches: MatchBranch::clone_all(branches),
            },
            ExprKind::While { condition, block } => ExprKind::While {
                condition: Box::new((**condition).clone()),
                block: block.clone(),
            },
            ExprKind::For { pattern, iterator, block } => ExprKind::For {
                pattern: Box::new((**pattern).clone()),
                iterator: Box::new((**iterator).clone()),
                block: block.clone(),
            },
            ExprKind::FuncApp { func, args } => ExprKind::FuncApp {
                func: Box::new((**func).clone()),
                args: Expr::clone_all(args),
            },
            ExprKind::Index { target, arg } => ExprKind::Index {
                target: Box::new((**target).clone()),
                arg: Box::new((**arg).clone()),
            },
            ExprKind::MethodCall { target, name, contract_args, args } => ExprKind::MethodCall {
                target: Box::new((**target).clone()),
                name: name.clone(),
                contract_args: ExprField::clone_all(contract_args),
                args: Expr::clone_all(args),
            },
            ExprKind::FieldProjection { target, name } => ExprKind::FieldProjection {
                target: Box::new((**target).clone()),
                name: name.clone(),
            },
            ExprKind::TupleFieldProjection { target, field } => ExprKind::TupleFieldProjection {
                target: Box::new((**target).clone()),
                field: *field,
            },
            ExprKind::Ref { mutable, expr } => ExprKind::Ref {
                mutable: *mutable,
                expr: Box::new((**expr).clone()),
            },
            ExprKind::Deref(expr) => ExprKind::Deref(Box::new((**expr).clone())),
            ExprKind::Not(expr) => ExprKind::Not(Box::new((**expr).clone())),
            ExprKind::Binary { op, lhs, rhs } => ExprKind::Binary {
                op: *op,
                lhs: Box::new((**lhs).clone()),
                rhs: Box::new((**rhs).clone()),
            },
            ExprKind::Reassignment { target, value } => ExprKind::Reassignment {
                target: Box::new((**target).clone()),
                value: Box::new((**value).clone()),
            },
            ExprKind::Break => ExprKind::Break,
            ExprKind::Continue => ExprKind::Continue,
        }
    }
}

} // verus!
