use sway_analyzer::error::Error;
use sway_analyzer::project::Project;
use sway_analyzer::scope::{AstScope, AstVariable, AstVariableKind};
use sway_analyzer::span::{Ident, Span};
use sway_analyzer::syntax::expr::{
    BinaryOp, Block, Expr, ExprField, ExprKind, Literal, MatchBranch, Pattern, Statement,
};
use sway_analyzer::syntax::item::{ItemKind, ItemStruct, TypeField};
use sway_analyzer::syntax::ty::{Path, PathRoot, PathSegment, Ty};

fn expr(kind: ExprKind) -> Expr {
    Expr { kind, span: Span::dummy() }
}

fn boxed(kind: ExprKind) -> Box<Expr> {
    Box::new(expr(kind))
}

fn literal(literal: Literal) -> Expr {
    expr(ExprKind::Literal(literal))
}

fn name(text: &str) -> Expr {
    expr(ExprKind::Path(Path::named(text)))
}

fn block(final_expr: Option<Expr>) -> Block {
    Block {
        statements: vec![Statement::Expr(literal(Literal::String))],
        final_expr: final_expr.map(Box::new),
        span: Span::dummy(),
    }
}

fn u64_ty() -> Ty {
    Ty::named("u64")
}

fn bool_ty() -> Ty {
    Ty::named("bool")
}

fn local(scope: &mut AstScope, name: &str, ty: Ty) {
    scope.declare(AstVariable { kind: AstVariableKind::Local, name: name.to_string(), ty });
}

fn stored(scope: &mut AstScope, name: &str, ty: Ty) {
    scope.declare(AstVariable { kind: AstVariableKind::Storage, name: name.to_string(), ty });
}

fn type_of(expr: &Expr) -> Result<Ty, Error> {
    AstScope::new().get_expr_ty(expr, &Project::new())
}

fn project() -> Project {
    let mut project = Project::new();
    project.resolver.declare(vec!["u64".to_string()], ItemKind::Other);
    project.resolver.declare(vec!["bool".to_string()], ItemKind::Other);
    project.resolver.declare(
        vec!["Point".to_string()],
        ItemKind::Struct(ItemStruct {
            name: Ident::new_no_span("Point"),
            fields: vec![
                TypeField { name: Ident::new_no_span("x"), ty: u64_ty() },
                TypeField { name: Ident::new_no_span("flag"), ty: bool_ty() },
                TypeField { name: Ident::new_no_span("x"), ty: Ty::StringSlice },
            ],
        }),
    );
    project
}

fn storage_key(inner: Ty) -> Ty {
    Ty::Path(Path {
        root: PathRoot::Local,
        prefix: PathSegment::named("core"),
        suffix: vec![
            PathSegment::named("storage"),
            PathSegment {
                name: Ident::new_no_span("StorageKey"),
                generics: Some(vec![inner]),
                span: Span::dummy(),
            },
        ],
        span: Span::dummy(),
    })
}

#[test]
fn literals_have_their_types() {
    assert_eq!(type_of(&literal(Literal::String)), Ok(Ty::StringSlice));
    assert_eq!(type_of(&literal(Literal::Int)), Ok(u64_ty()));
    assert_eq!(type_of(&literal(Literal::Bool)), Ok(bool_ty()));
    assert_eq!(type_of(&literal(Literal::Char)), Err(Error::CharLiteral));
}

#[test]
fn the_made_up_types_are_plain_paths_without_a_place() {
    let ty = type_of(&literal(Literal::Int)).unwrap();
    assert_eq!(
        ty,
        Ty::Path(Path {
            root: PathRoot::Local,
            prefix: PathSegment {
                name: Ident { name: "u64".to_string(), span: Span::new("", 0, 0) },
                generics: None,
                span: Span::new("", 0, 0),
            },
            suffix: vec![],
            span: Span::new("", 0, 0),
        })
    );
    assert_eq!(Ty::unit(), Ty::Tuple(vec![]));
}

#[test]
fn a_known_local_has_its_declared_type() {
    let mut scope = AstScope::new();
    local(&mut scope, "amount", Ty::Tuple(vec![u64_ty(), bool_ty()]));
    assert_eq!(
        scope.get_expr_ty(&name("amount"), &Project::new()),
        Ok(Ty::Tuple(vec![u64_ty(), bool_ty()]))
    );
    assert_eq!(scope.get_expr_ty(&name("other"), &Project::new()), Err(Error::UnknownPath));
}

#[test]
fn a_path_expression_does_not_see_storage() {
    let mut scope = AstScope::new();
    stored(&mut scope, "balance", u64_ty());
    assert_eq!(scope.get_expr_ty(&name("balance"), &Project::new()), Err(Error::UnknownPath));
}

#[test]
fn only_a_bare_name_is_looked_up() {
    let mut scope = AstScope::new();
    local(&mut scope, "a", u64_ty());
    let longer = expr(ExprKind::Path(Path {
        suffix: vec![PathSegment::named("b")],
        ..Path::named("a")
    }));
    assert_eq!(scope.get_expr_ty(&longer, &Project::new()), Err(Error::UnknownPath));
    let rooted = expr(ExprKind::Path(Path { root: PathRoot::Global, ..Path::named("a") }));
    assert_eq!(scope.get_expr_ty(&rooted, &Project::new()), Err(Error::UnknownPath));
}

#[test]
fn a_shadowing_local_gives_its_own_type() {
    let mut scope = AstScope::new();
    local(&mut scope, "x", u64_ty());
    scope.enter();
    local(&mut scope, "x", bool_ty());
    assert_eq!(scope.get_expr_ty(&name("x"), &Project::new()), Ok(bool_ty()));
    scope.leave();
    assert_eq!(scope.get_expr_ty(&name("x"), &Project::new()), Ok(u64_ty()));
}

#[test]
fn an_abi_cast_has_the_type_of_its_abi() {
    let cast = expr(ExprKind::AbiCast {
        name: Path::named("Token"),
        address: Box::new(literal(Literal::Char)),
    });
    assert_eq!(type_of(&cast), Ok(Ty::named("Token")));
}

#[test]
fn a_struct_literal_has_the_type_its_first_segment_names() {
    let prefix = PathSegment {
        name: Ident::new(Span::new("Point", 4, 9)),
        generics: Some(vec![u64_ty()]),
        span: Span::new("Point::<u64>", 4, 16),
    };
    let written = expr(ExprKind::Struct {
        path: Path {
            root: PathRoot::Global,
            prefix: PathSegment {
                name: Ident::new(Span::new("Point", 4, 9)),
                generics: Some(vec![u64_ty()]),
                span: Span::new("Point::<u64>", 4, 16),
            },
            suffix: vec![PathSegment::named("Tail")],
            span: Span::new("::Point::<u64>::Tail", 2, 22),
        },
        fields: vec![ExprField { name: Ident::new_no_span("x"), value: None }],
    });
    assert_eq!(
        type_of(&written),
        Ok(Ty::Path(Path {
            root: PathRoot::Global,
            prefix,
            suffix: vec![],
            span: Span::new("Point::<u64>", 4, 16),
        }))
    );
}

#[test]
fn a_tuple_has_the_tuple_of_its_elements_types() {
    assert_eq!(type_of(&expr(ExprKind::Tuple(vec![]))), Ok(Ty::unit()));
    assert_eq!(
        type_of(&expr(ExprKind::Tuple(vec![literal(Literal::Int)]))),
        Ok(Ty::Tuple(vec![u64_ty()]))
    );
    let three = expr(ExprKind::Tuple(vec![
        literal(Literal::Int),
        literal(Literal::Bool),
        literal(Literal::String),
    ]));
    assert_eq!(type_of(&three), Ok(Ty::Tuple(vec![u64_ty(), bool_ty(), Ty::StringSlice])));
}

#[test]
fn a_tuple_types_its_later_elements_before_its_first() {
    let both_fail = expr(ExprKind::Tuple(vec![
        literal(Literal::Char),
        literal(Literal::Int),
        expr(ExprKind::Error),
    ]));
    assert_eq!(type_of(&both_fail), Err(Error::MalformedExpr));
    let first_fails = expr(ExprKind::Tuple(vec![literal(Literal::Char), literal(Literal::Int)]));
    assert_eq!(type_of(&first_fails), Err(Error::CharLiteral));
    let two_later_fail = expr(ExprKind::Tuple(vec![
        literal(Literal::Int),
        name("missing"),
        literal(Literal::Char),
    ]));
    assert_eq!(type_of(&two_later_fail), Err(Error::UnknownPath));
}

#[test]
fn wrappers_have_the_type_of_what_they_hold() {
    let inner = || boxed(ExprKind::Literal(Literal::Bool));
    assert_eq!(type_of(&expr(ExprKind::Parens(inner()))), Ok(bool_ty()));
    assert_eq!(type_of(&expr(ExprKind::Ref { mutable: true, expr: inner() })), Ok(bool_ty()));
    assert_eq!(type_of(&expr(ExprKind::Deref(inner()))), Ok(bool_ty()));
    assert_eq!(type_of(&expr(ExprKind::Not(inner()))), Ok(bool_ty()));
    assert_eq!(
        type_of(&expr(ExprKind::Not(boxed(ExprKind::Literal(Literal::Char))))),
        Err(Error::CharLiteral)
    );
}

#[test]
fn a_block_has_the_type_of_its_trailing_expression() {
    assert_eq!(type_of(&expr(ExprKind::Block(block(Some(literal(Literal::Int)))))), Ok(u64_ty()));
    assert_eq!(type_of(&expr(ExprKind::Block(block(None)))), Ok(Ty::unit()));
}

#[test]
fn an_if_has_the_type_of_its_first_block() {
    let with_value = expr(ExprKind::If {
        pattern: None,
        condition: boxed(ExprKind::Literal(Literal::Char)),
        then_block: block(Some(literal(Literal::Bool))),
        else_branch: Some(boxed(ExprKind::Block(block(Some(literal(Literal::Int)))))),
    });
    assert_eq!(type_of(&with_value), Ok(bool_ty()));
    let without = expr(ExprKind::If {
        pattern: Some(Box::new(Pattern::Wildcard)),
        condition: boxed(ExprKind::Literal(Literal::Bool)),
        then_block: block(None),
        else_branch: None,
    });
    assert_eq!(type_of(&without), Ok(Ty::unit()));
}

#[test]
fn a_match_has_the_type_of_its_first_branch() {
    let arm = |body: Expr| MatchBranch { pattern: Pattern::Wildcard, body };
    let value = || boxed(ExprKind::Literal(Literal::Int));
    let by_expr = expr(ExprKind::Match {
        value: value(),
        branches: vec![arm(literal(Literal::String)), arm(literal(Literal::Char))],
    });
    assert_eq!(type_of(&by_expr), Ok(Ty::StringSlice));
    let by_block = expr(ExprKind::Match {
        value: value(),
        branches: vec![arm(expr(ExprKind::Block(block(Some(literal(Literal::Bool))))))],
    });
    assert_eq!(type_of(&by_block), Ok(bool_ty()));
    let by_empty_block = expr(ExprKind::Match {
        value: value(),
        branches: vec![arm(expr(ExprKind::Block(block(None))))],
    });
    assert_eq!(type_of(&by_empty_block), Ok(Ty::unit()));
    let none = expr(ExprKind::Match { value: value(), branches: vec![] });
    assert_eq!(type_of(&none), Ok(Ty::unit()));
}

#[test]
fn an_array_has_the_type_of_its_first_element() {
    let sequence = expr(
        ExprKind::ArraySequence(vec![literal(Literal::Bool), literal(Literal::Char)]),
    );
    assert_eq!(type_of(&sequence), Ok(bool_ty()));
    assert_eq!(type_of(&expr(ExprKind::ArraySequence(vec![]))), Ok(Ty::unit()));
    let repeat = expr(ExprKind::ArrayRepeat {
        value: boxed(ExprKind::Literal(Literal::Int)),
        length: boxed(ExprKind::Literal(Literal::Char)),
    });
    assert_eq!(type_of(&repeat), Ok(u64_ty()));
}

#[test]
fn statements_without_a_value_have_the_unit_type() {
    let int = || boxed(ExprKind::Literal(Literal::Int));
    let units = vec![
        expr(ExprKind::Asm { registers: vec![literal(Literal::Char)] }),
        expr(ExprKind::Return(Some(int()))),
        expr(ExprKind::Return(None)),
        expr(ExprKind::While { condition: int(), block: block(Some(literal(Literal::Int))) }),
        expr(ExprKind::For {
            pattern: Box::new(Pattern::Wildcard),
            iterator: int(),
            block: block(Some(literal(Literal::Int))),
        }),
        expr(ExprKind::Reassignment { target: int(), value: int() }),
        expr(ExprKind::Break),
        expr(ExprKind::Continue),
    ];
    for unit in units.iter() {
        assert_eq!(type_of(unit), Ok(Ty::Tuple(vec![])));
    }
}

#[test]
fn operators_have_the_type_of_their_left_operand_or_bool() {
    let arithmetic = [
        BinaryOp::Mul,
        BinaryOp::Div,
        BinaryOp::Pow,
        BinaryOp::Modulo,
        BinaryOp::Add,
        BinaryOp::Sub,
        BinaryOp::Shl,
        BinaryOp::Shr,
        BinaryOp::BitAnd,
        BinaryOp::BitXor,
        BinaryOp::BitOr,
    ];
    let others = [
        BinaryOp::Equal,
        BinaryOp::NotEqual,
        BinaryOp::LessThan,
        BinaryOp::GreaterThan,
        BinaryOp::LessThanEq,
        BinaryOp::GreaterThanEq,
        BinaryOp::LogicalAnd,
        BinaryOp::LogicalOr,
    ];
    let binary = |op: BinaryOp, lhs: Literal, rhs: Literal| {
        expr(ExprKind::Binary {
            op,
            lhs: boxed(ExprKind::Literal(lhs)),
            rhs: boxed(ExprKind::Literal(rhs)),
        })
    };
    for op in arithmetic {
        assert!(op.is_arithmetic());
        assert_eq!(type_of(&binary(op, Literal::String, Literal::Char)), Ok(Ty::StringSlice));
        assert_eq!(type_of(&binary(op, Literal::Char, Literal::Int)), Err(Error::CharLiteral));
    }
    for op in others {
        assert!(!op.is_arithmetic());
        assert_eq!(type_of(&binary(op, Literal::Char, Literal::Char)), Ok(bool_ty()));
    }
}

#[test]
fn the_constructs_without_an_answer_say_so() {
    assert_eq!(type_of(&expr(ExprKind::Error)), Err(Error::MalformedExpr));
    let call = expr(ExprKind::FuncApp { func: Box::new(name("f")), args: vec![] });
    assert_eq!(type_of(&call), Err(Error::FunctionCall));
    let method = |target: Literal| {
        expr(ExprKind::MethodCall {
            target: boxed(ExprKind::Literal(target)),
            name: PathSegment::named("len"),
            contract_args: vec![],
            args: vec![],
        })
    };
    assert_eq!(type_of(&method(Literal::String)), Err(Error::MethodCall));
    assert_eq!(type_of(&method(Literal::Char)), Err(Error::CharLiteral));
}

#[test]
fn signatures_are_not_looked_up() {
    let scope = AstScope::new();
    let project = project();
    let args = vec![literal(Literal::Int)];
    assert_eq!(
        scope.get_fn_signature(&project, &PathSegment::named("f"), &args),
        Err(Error::FunctionCall)
    );
    assert_eq!(
        scope.get_impl_fn_signature(&project, &u64_ty(), &PathSegment::named("f"), &args),
        Err(Error::MethodCall)
    );
}

#[test]
fn an_index_has_the_element_type_of_the_array() {
    let mut scope = AstScope::new();
    local(
        &mut scope,
        "values",
        Ty::Array { ty: Box::new(bool_ty()), length: Box::new(literal(Literal::Int)) },
    );
    local(&mut scope, "count", u64_ty());
    let index = |target: &str| {
        expr(ExprKind::Index {
            target: Box::new(name(target)),
            arg: boxed(ExprKind::Literal(Literal::Char)),
        })
    };
    assert_eq!(scope.get_expr_ty(&index("values"), &Project::new()), Ok(bool_ty()));
    assert_eq!(scope.get_expr_ty(&index("count"), &Project::new()), Err(Error::NotAnArray));
    assert_eq!(scope.get_expr_ty(&index("missing"), &Project::new()), Err(Error::UnknownPath));
}

#[test]
fn a_numbered_projection_has_the_type_of_that_element() {
    let mut scope = AstScope::new();
    local(&mut scope, "pair", Ty::Tuple(vec![u64_ty(), bool_ty(), Ty::StringSlice]));
    local(&mut scope, "unit", Ty::Tuple(vec![]));
    local(&mut scope, "count", u64_ty());
    let project = Project::new();
    let field = |target: &str, field: usize| {
        expr(ExprKind::TupleFieldProjection { target: Box::new(name(target)), field })
    };
    assert_eq!(scope.get_expr_ty(&field("pair", 0), &project), Ok(u64_ty()));
    assert_eq!(scope.get_expr_ty(&field("pair", 1), &project), Ok(bool_ty()));
    assert_eq!(scope.get_expr_ty(&field("pair", 2), &project), Ok(Ty::StringSlice));
    assert_eq!(scope.get_expr_ty(&field("pair", 3), &project), Err(Error::TupleIndexOutOfRange));
    assert_eq!(
        scope.get_expr_ty(&field("pair", usize::MAX), &project),
        Err(Error::TupleIndexOutOfRange)
    );
    assert_eq!(scope.get_expr_ty(&field("unit", 0), &project), Err(Error::EmptyTuple));
    assert_eq!(scope.get_expr_ty(&field("count", 0), &project), Err(Error::NotATuple));
    assert_eq!(scope.get_expr_ty(&field("missing", 0), &project), Err(Error::UnknownPath));
}

#[test]
fn a_storage_field_has_the_storage_key_of_its_full_type() {
    let mut scope = AstScope::new();
    stored(&mut scope, "balance", u64_ty());
    stored(&mut scope, "pair", Ty::Tuple(vec![u64_ty(), bool_ty()]));
    stored(&mut scope, "odd", Ty::named("Unknown"));
    local(&mut scope, "total", u64_ty());
    let project = project();
    let read = |field: &str| {
        expr(ExprKind::FieldProjection {
            target: Box::new(name("storage")),
            name: Ident::new_no_span(field),
        })
    };
    assert_eq!(scope.get_expr_ty(&read("balance"), &project), Ok(storage_key(u64_ty())));
    assert_eq!(
        scope.get_expr_ty(&read("pair"), &project),
        Ok(storage_key(Ty::Tuple(vec![u64_ty(), bool_ty()])))
    );
    assert_eq!(scope.get_expr_ty(&read("odd"), &project), Err(Error::UnresolvedType));
    assert_eq!(scope.get_expr_ty(&read("total"), &project), Err(Error::UnknownStorageField));
    assert_eq!(scope.get_expr_ty(&read("missing"), &project), Err(Error::UnknownStorageField));
    assert_eq!(Ty::storage_key(bool_ty()), storage_key(bool_ty()));
}

#[test]
fn a_local_called_storage_does_not_stand_in_the_way_of_storage() {
    let mut scope = AstScope::new();
    local(&mut scope, "storage", u64_ty());
    stored(&mut scope, "balance", bool_ty());
    let read = expr(ExprKind::FieldProjection {
        target: Box::new(name("storage")),
        name: Ident::new_no_span("balance"),
    });
    assert_eq!(scope.get_expr_ty(&read, &project()), Ok(storage_key(bool_ty())));
}

#[test]
fn a_field_projection_has_the_declared_type_of_the_field() {
    let mut scope = AstScope::new();
    local(&mut scope, "p", Ty::named("Point"));
    local(&mut scope, "n", u64_ty());
    local(&mut scope, "q", Ty::named("Unknown"));
    let project = project();
    let field = |target: &str, field: &str| {
        expr(ExprKind::FieldProjection {
            target: Box::new(name(target)),
            name: Ident::new(Span::new(field, 50, 50 + field.len())),
        })
    };
    assert_eq!(scope.get_expr_ty(&field("p", "x"), &project), Ok(u64_ty()));
    assert_eq!(scope.get_expr_ty(&field("p", "flag"), &project), Ok(bool_ty()));
    assert_eq!(scope.get_expr_ty(&field("p", "z"), &project), Err(Error::UnknownField));
    assert_eq!(scope.get_expr_ty(&field("n", "x"), &project), Err(Error::NotAStruct));
    assert_eq!(scope.get_expr_ty(&field("q", "x"), &project), Err(Error::NotAStruct));
    assert_eq!(scope.get_expr_ty(&field("missing", "x"), &project), Err(Error::UnknownPath));
}

#[test]
fn a_path_that_is_not_the_bare_storage_root_is_an_ordinary_target() {
    let mut scope = AstScope::new();
    stored(&mut scope, "x", bool_ty());
    let rooted = expr(ExprKind::FieldProjection {
        target: boxed(ExprKind::Path(Path { root: PathRoot::Global, ..Path::named("storage") })),
        name: Ident::new_no_span("x"),
    });
    assert_eq!(scope.get_expr_ty(&rooted, &project()), Err(Error::UnknownPath));
    let longer = expr(ExprKind::FieldProjection {
        target: boxed(ExprKind::Path(Path {
            suffix: vec![PathSegment::named("inner")],
            ..Path::named("storage")
        })),
        name: Ident::new_no_span("x"),
    });
    assert_eq!(scope.get_expr_ty(&longer, &project()), Err(Error::UnknownPath));
}

#[test]
fn a_type_the_resolver_knows_is_fully_qualified_as_it_stands() {
    let scope = AstScope::new();
    let project = project();
    assert_eq!(scope.get_full_ty(&project, &u64_ty()), Ok(u64_ty()));
    let written = Ty::Path(Path {
        root: PathRoot::Local,
        prefix: PathSegment {
            name: Ident::new(Span::new("Point", 3, 8)),
            generics: Some(vec![Ty::named("Unknown")]),
            span: Span::new("Point<Unknown>", 3, 17),
        },
        suffix: vec![],
        span: Span::new("Point<Unknown>", 3, 17),
    });
    assert_eq!(scope.get_full_ty(&project, &written), Ok(written));
}

#[test]
fn an_unknown_path_type_has_no_full_form() {
    let scope = AstScope::new();
    assert_eq!(scope.get_full_ty(&project(), &Ty::named("Unknown")), Err(Error::UnresolvedType));
    assert_eq!(scope.get_full_ty(&Project::new(), &u64_ty()), Err(Error::UnresolvedType));
}

#[test]
fn compound_types_are_qualified_part_by_part() {
    let scope = AstScope::new();
    let project = project();
    let length = || Box::new(name("N"));
    let compound = Ty::Tuple(vec![
        Ty::Array { ty: Box::new(u64_ty()), length: length() },
        Ty::Ptr(Box::new(bool_ty())),
        Ty::Slice(Box::new(Ty::named("Point"))),
        Ty::Ref { mutable: true, ty: Box::new(Ty::Tuple(vec![])) },
        Ty::StringSlice,
        Ty::StringArray { length: length() },
        Ty::Infer,
        Ty::Never,
    ]);
    let expected = Ty::Tuple(vec![
        Ty::Array { ty: Box::new(u64_ty()), length: length() },
        Ty::Ptr(Box::new(bool_ty())),
        Ty::Slice(Box::new(Ty::named("Point"))),
        Ty::Ref { mutable: true, ty: Box::new(Ty::Tuple(vec![])) },
        Ty::StringSlice,
        Ty::StringArray { length: length() },
        Ty::Infer,
        Ty::Never,
    ]);
    assert_eq!(scope.get_full_ty(&project, &compound), Ok(expected));
}

#[test]
fn an_unknown_part_leaves_the_whole_without_a_full_form() {
    let scope = AstScope::new();
    let project = project();
    let unknown = || Box::new(Ty::named("Unknown"));
    let length = || Box::new(literal(Literal::Int));
    let parts = vec![
        Ty::Tuple(vec![u64_ty(), *unknown(), bool_ty()]),
        Ty::Array { ty: unknown(), length: length() },
        Ty::Ptr(unknown()),
        Ty::Slice(unknown()),
        Ty::Ref { mutable: false, ty: unknown() },
    ];
    for part in parts.iter() {
        assert_eq!(scope.get_full_ty(&project, part), Err(Error::UnresolvedType));
    }
}

#[test]
fn every_error_has_a_description() {
    let errors = [
        Error::MalformedExpr,
        Error::UnknownPath,
        Error::CharLiteral,
        Error::FunctionCall,
        Error::MethodCall,
        Error::NotAnArray,
        Error::UnknownStorageField,
        Error::NotAStruct,
        Error::UnknownField,
        Error::NotATuple,
        Error::EmptyTuple,
        Error::TupleIndexOutOfRange,
        Error::UnresolvedType,
    ];
    let mut seen: Vec<&str> = vec![];
    for error in errors {
        let text = error.describe();
        assert!(!text.is_empty());
        assert!(!seen.contains(&text));
        seen.push(text);
    }
}

#[test]
fn a_copy_of_a_type_equals_the_type() {
    let written = Ty::Tuple(vec![
        Ty::Array {
            ty: Box::new(storage_key(u64_ty())),
            length: Box::new(expr(ExprKind::Block(block(Some(name("N")))))),
        },
        Ty::Path(Path {
            root: PathRoot::Qualified {
                ty: Box::new(Ty::named("Owner")),
                as_trait: Some(Box::new(Path::named("Trait"))),
            },
            ..Path::named("Item")
        }),
    ]);
    assert_eq!(written.clone(), written);
}

#[test]
fn qualifying_a_fully_qualified_type_gives_it_back() {
    let scope = AstScope::new();
    let project = project();
    let written = [
        u64_ty(),
        Ty::StringSlice,
        Ty::Tuple(vec![]),
        Ty::Tuple(vec![
            Ty::Array { ty: Box::new(Ty::named("Point")), length: Box::new(name("N")) },
            Ty::Ref { mutable: false, ty: Box::new(Ty::Slice(Box::new(bool_ty()))) },
            Ty::Ptr(Box::new(Ty::Tuple(vec![u64_ty(), Ty::Never]))),
        ]),
    ];
    for ty in &written {
        let full = scope.get_full_ty(&project, ty).unwrap();
        assert_eq!(&full, ty);
        assert_eq!(scope.get_full_ty(&project, &full), Ok(full.clone()));
    }
    let unknown = Ty::Tuple(vec![u64_ty(), Ty::named("Unknown")]);
    assert_eq!(scope.get_full_ty(&project, &unknown), Err(Error::UnresolvedType));
}
