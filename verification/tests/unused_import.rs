use sway_analyzer::detectors::unused_import::state::{unused_message, ModuleState, Usage};
use sway_analyzer::detectors::unused_import::visitor::UnusedImportVisitor;
use sway_analyzer::error::Error;
use sway_analyzer::project::{Entry, LineRange, Project, Severity};
use sway_analyzer::span::{Ident, Span};
use sway_analyzer::syntax::expr::{
    BinaryOp, Block, Expr, ExprField, ExprKind, Literal, MatchBranch, Pattern, PatternField,
    Statement,
};
use sway_analyzer::syntax::item::{
    FnArg, FnArgs, FnSignature, ItemConst, ItemFn, ItemTrait, ItemTypeAlias, ItemUse,
    StorageField, TraitType, Traits, TypeField, UseTree, WhereBound,
};
use sway_analyzer::syntax::ty::{Path, PathRoot, PathSegment, Ty};
use sway_analyzer::visitor::{
    ConfigurableFieldContext, ConstContext, EnumFieldContext, ExprContext, FnContext,
    ModuleContext, StatementLetContext, StorageFieldContext, StructFieldContext, TraitContext,
    TraitTypeContext, TypeAliasContext, UseContext,
};

const MODULE: &str = "test/unused_import/src/main.sw";

/// A project whose files have lines of ten bytes each: the offset `n` is on
/// line `n / 10 + 1`.
fn project() -> Project {
    let mut project = Project::new();
    for path in [MODULE, "a.sw", "b.sw", "first.sw", "second.sw"] {
        let ranges = (0..1000).map(|n| LineRange { start: n * 10, end: n * 10 + 10 }).collect();
        project.lines.add_file(path, ranges);
    }
    project
}

fn span(text: &str, start: usize) -> Span {
    Span::new(text, start, start + text.len())
}

fn ident(text: &str, start: usize) -> Ident {
    Ident::new(span(text, start))
}

fn segment(name: &str, start: usize) -> PathSegment {
    PathSegment { name: ident(name, start), generics: None, span: span(name, start) }
}

fn path(name: &str, start: usize) -> Path {
    Path {
        root: PathRoot::Local,
        prefix: segment(name, start),
        suffix: vec![],
        span: span(name, start),
    }
}

fn path_expr(name: &str, start: usize) -> Expr {
    Expr { kind: ExprKind::Path(path(name, start)), span: span(name, start) }
}

fn expr(kind: ExprKind) -> Expr {
    Expr { kind, span: Span::dummy() }
}

fn int_literal() -> Expr {
    expr(ExprKind::Literal(Literal::Int))
}

fn block(statements: Vec<Statement>, final_expr: Option<Expr>) -> Block {
    Block { statements, final_expr: final_expr.map(Box::new), span: Span::dummy() }
}

fn ty(name: &str, start: usize) -> Ty {
    Ty::Path(path(name, start))
}

fn name_tree(name: &str, start: usize) -> UseTree {
    UseTree::Name { name: ident(name, start) }
}

fn path_tree(prefix: &str, suffix: UseTree) -> UseTree {
    UseTree::Path { prefix: ident(prefix, 0), suffix: Box::new(suffix) }
}

/// `use a::b::NAME;` with `NAME` at `start`.
fn plain_import(name: &str, start: usize) -> ItemUse {
    ItemUse { tree: path_tree("a", path_tree("b", name_tree(name, start))) }
}

fn function(signature: FnSignature) -> ItemFn {
    ItemFn { fn_signature: signature, body: block(vec![], None) }
}

fn signature(arguments: FnArgs, where_clause: Option<Vec<WhereBound>>) -> FnSignature {
    FnSignature {
        name: ident("f", 0),
        arguments,
        return_type: None,
        where_clause,
        span: span("fn f()", 0),
    }
}

fn usage(text: &str, start: usize, count: u32) -> Usage {
    Usage { span: span(text, start), count }
}

fn state_with(names: &[(&str, usize)]) -> ModuleState {
    let mut state = ModuleState::new();
    for (name, start) in names {
        state.register(span(name, *start));
    }
    state
}

fn counts(state: &ModuleState) -> Vec<(String, u32)> {
    state.usage_states.iter().map(|u| (u.span.text.clone(), u.count)).collect()
}

fn entered() -> UnusedImportVisitor {
    let mut visitor = UnusedImportVisitor::new();
    visitor.visit_module(&ModuleContext { path: MODULE });
    visitor
}

fn findings(visitor: &UnusedImportVisitor) -> Vec<Entry> {
    let mut project = project();
    assert_eq!(visitor.leave_module(&ModuleContext { path: MODULE }, &mut project), Ok(()));
    project.report.entries
}

fn unused_entry(name: &str, start: usize) -> Entry {
    Entry {
        path: MODULE.to_string(),
        line: start / 10 + 1,
        severity: Severity::Low,
        message: format!("Found unused import: `{}`. Consider removing any unused imports.", name),
    }
}

fn see(visitor: &mut UnusedImportVisitor, expr: &Expr) {
    let item_fn = function(signature(FnArgs::Static(vec![]), None));
    visitor.visit_expr(&ExprContext { path: MODULE, item_fn: &item_fn, blocks: vec![], expr });
}

#[test]
fn test_unused_import() {
    let detector = "unused_import";
    let mut visitor = entered();
    let imports = [
        plain_import("ZERO_B256", 22),
        plain_import("log", 50),
        plain_import("mint", 75),
    ];
    for item_use in imports.iter() {
        visitor.visit_use(&UseContext { path: MODULE, item_use });
    }
    see(&mut visitor, &path_expr("log", 200));
    let entries = findings(&visitor);
    assert_eq!(detector, "unused_import");
    assert_eq!(entries.len(), 2);
    assert_eq!(entries, vec![unused_entry("ZERO_B256", 22), unused_entry("mint", 75)]);
}

#[test]
fn the_message_names_the_import() {
    assert_eq!(
        unused_message("Vec"),
        "Found unused import: `Vec`. Consider removing any unused imports."
    );
    assert_eq!(
        unused_message(""),
        "Found unused import: ``. Consider removing any unused imports."
    );
}

#[test]
fn a_module_without_imports_has_no_finding() {
    let mut visitor = entered();
    assert!(findings(&visitor).is_empty());
    see(&mut visitor, &path_expr("anything", 10));
    assert!(findings(&visitor).is_empty());
}

#[test]
fn an_import_that_nothing_refers_to_is_reported_once() {
    let mut visitor = entered();
    let item_use = plain_import("C", 11);
    visitor.visit_use(&UseContext { path: MODULE, item_use: &item_use });
    see(&mut visitor, &path_expr("D", 40));
    assert_eq!(findings(&visitor), vec![unused_entry("C", 11)]);
}

#[test]
fn an_import_that_something_refers_to_is_not_reported() {
    let mut visitor = entered();
    let item_use = plain_import("C", 11);
    visitor.visit_use(&UseContext { path: MODULE, item_use: &item_use });
    see(&mut visitor, &path_expr("C", 40));
    assert!(findings(&visitor).is_empty());
    see(&mut visitor, &path_expr("C", 60));
    see(&mut visitor, &path_expr("C", 80));
    assert!(findings(&visitor).is_empty());
    assert_eq!(counts(visitor.module_state(MODULE).unwrap()), vec![("C".to_string(), 3)]);
}

#[test]
fn a_renamed_import_counts_under_its_alias_only() {
    let mut visitor = entered();
    let item_use = ItemUse {
        tree: path_tree(
            "a",
            UseTree::Rename { name: ident("B", 7), alias: ident("C", 12) },
        ),
    };
    visitor.visit_use(&UseContext { path: MODULE, item_use: &item_use });
    see(&mut visitor, &path_expr("B", 40));
    assert_eq!(findings(&visitor), vec![unused_entry("C", 12)]);
    see(&mut visitor, &path_expr("C", 50));
    assert!(findings(&visitor).is_empty());
}

#[test]
fn a_glob_import_is_never_reported() {
    let mut visitor = entered();
    let item_use = ItemUse { tree: path_tree("a", UseTree::Glob) };
    visitor.visit_use(&UseContext { path: MODULE, item_use: &item_use });
    assert!(findings(&visitor).is_empty());
    assert!(visitor.module_state(MODULE).unwrap().usage_states.is_empty());
}

#[test]
fn a_malformed_import_registers_nothing() {
    let mut state = ModuleState::new();
    state.import_use_tree(&UseTree::Error);
    state.import_use_tree(&path_tree("a", UseTree::Error));
    assert!(state.usage_states.is_empty());
}

#[test]
fn a_group_registers_every_leaf_in_order() {
    let mut state = ModuleState::new();
    state.import_use_tree(&path_tree(
        "a",
        UseTree::Group {
            imports: vec![
                name_tree("B", 8),
                UseTree::Rename { name: ident("C", 11), alias: ident("D", 16) },
                UseTree::Glob,
                path_tree("e", UseTree::Group { imports: vec![name_tree("F", 25), name_tree("G", 28)] }),
            ],
        },
    ));
    assert_eq!(
        state.usage_states,
        vec![usage("B", 8, 0), usage("D", 16, 0), usage("F", 25, 0), usage("G", 28, 0)]
    );
}

#[test]
fn registering_a_spelling_again_keeps_its_counter_and_its_span() {
    let mut state = state_with(&[("A", 5), ("B", 9)]);
    state.check_span_usage(&span("A", 40));
    state.check_span_usage(&span("A", 50));
    assert_eq!(state.usage_states, vec![usage("A", 5, 2), usage("B", 9, 0)]);
    state.register(span("A", 70));
    assert_eq!(state.usage_states, vec![usage("A", 5, 2), usage("B", 9, 0)]);
    state.register(span("B", 80));
    assert_eq!(state.usage_states, vec![usage("A", 5, 2), usage("B", 9, 0)]);
}

#[test]
fn no_two_registered_names_are_spelled_alike() {
    let mut state = ModuleState::new();
    state.import_use_tree(&path_tree(
        "a",
        UseTree::Group {
            imports: vec![
                name_tree("B", 8),
                name_tree("B", 11),
                UseTree::Rename { name: ident("C", 14), alias: ident("B", 19) },
                name_tree("D", 22),
            ],
        },
    ));
    state.check_span_usage(&span("B", 40));
    state.register(span("D", 50));
    assert_eq!(state.usage_states, vec![usage("B", 8, 1), usage("D", 22, 0)]);
    assert_eq!(state.unused(), vec![span("D", 22)]);
}

#[test]
fn a_name_without_a_line_ends_the_report_and_keeps_what_came_before() {
    let state = state_with(&[("Z", 12), ("A", 20_000), ("M", 31)]);
    let mut project = project();
    project.report.add_entry("other.sw", 1, Severity::High, "before".to_string());
    assert_eq!(state.report_unused(MODULE, &mut project), Err(Error::LineNotFound));
    assert_eq!(project.report.entries.len(), 2);
    assert_eq!(project.report.entries[0].message, "before");
    assert_eq!(project.report.entries[1], unused_entry("Z", 12));
    assert_eq!(counts(&state), vec![("Z".to_string(), 0), ("A".to_string(), 0), ("M".to_string(), 0)]);
}

#[test]
fn leaving_a_module_of_an_unknown_file_fails_on_its_first_finding() {
    let mut visitor = UnusedImportVisitor::new();
    visitor.visit_module(&ModuleContext { path: "unknown.sw" });
    let mut project = project();
    assert_eq!(visitor.leave_module(&ModuleContext { path: "unknown.sw" }, &mut project), Ok(()));
    visitor.visit_use(&UseContext { path: "unknown.sw", item_use: &plain_import("X", 0) });
    assert_eq!(
        visitor.leave_module(&ModuleContext { path: "unknown.sw" }, &mut project),
        Err(Error::LineNotFound)
    );
    assert!(project.report.entries.is_empty());
    assert!(visitor.has_module("unknown.sw"));
}

#[test]
fn a_used_name_needs_no_line() {
    let mut state = state_with(&[("A", 20_000), ("B", 9)]);
    state.check_span_usage(&span("A", 3));
    let mut project = project();
    assert_eq!(state.report_unused(MODULE, &mut project), Ok(()));
    assert_eq!(project.report.entries, vec![unused_entry("B", 9)]);
}

#[test]
fn a_use_is_matched_by_text_and_not_by_place() {
    let mut state = state_with(&[("Foo", 5)]);
    state.check_span_usage(&span("Foo", 999));
    state.check_span_usage(&span("foo", 5));
    state.check_span_usage(&span("Fo", 5));
    assert_eq!(state.usage_states, vec![usage("Foo", 5, 1)]);
}

#[test]
fn the_counter_stops_at_its_largest_value() {
    let mut state = ModuleState { usage_states: vec![usage("A", 0, u32::MAX - 1)] };
    state.check_span_usage(&span("A", 10));
    assert_eq!(state.usage_states[0].count, u32::MAX);
    state.check_span_usage(&span("A", 10));
    assert_eq!(state.usage_states[0].count, u32::MAX);
}

#[test]
fn findings_come_in_the_order_of_registration() {
    let state = state_with(&[("Z", 1), ("A", 2), ("M", 3)]);
    let mut project = project();
    project.report.add_entry("other.sw", 1, Severity::High, "before".to_string());
    assert_eq!(state.report_unused(MODULE, &mut project), Ok(()));
    assert_eq!(project.report.entries.len(), 4);
    assert_eq!(project.report.entries[0].message, "before");
    assert_eq!(
        project.report.entries[1..],
        [unused_entry("Z", 1), unused_entry("A", 2), unused_entry("M", 3)]
    );
}

#[test]
fn every_path_expression_in_an_expression_counts() {
    let names = ["A", "B", "C", "D", "E", "F", "G", "H", "I", "J", "K", "L", "M", "N", "O", "P"];
    let mut state = state_with(&names.iter().map(|n| (*n, 0)).collect::<Vec<_>>());
    state.register(span("unseen", 0));
    let p = |name: &str| Box::new(path_expr(name, 100));
    let whole = expr(ExprKind::Block(block(
        vec![
            Statement::Let { pattern: Pattern::Wildcard, ty: None, expr: *p("A") },
            Statement::Expr(expr(ExprKind::If {
                pattern: None,
                condition: p("B"),
                then_block: block(vec![], Some(*p("C"))),
                else_branch: Some(Box::new(expr(ExprKind::Block(block(vec![], Some(*p("D"))))))),
            })),
            Statement::Item(Box::new(sway_analyzer::syntax::item::ItemKind::Other)),
            Statement::Error,
        ],
        Some(expr(ExprKind::Tuple(vec![
            expr(ExprKind::Match {
                value: p("E"),
                branches: vec![MatchBranch { pattern: Pattern::Wildcard, body: *p("F") }],
            }),
            expr(ExprKind::MethodCall {
                target: p("G"),
                name: segment("call", 0),
                contract_args: vec![ExprField { name: ident("gas", 0), value: Some(p("H")) }],
                args: vec![*p("I"), int_literal()],
            }),
            expr(ExprKind::Binary { op: BinaryOp::Add, lhs: p("J"), rhs: p("K") }),
            expr(ExprKind::Struct {
                path: path("unseen", 0),
                fields: vec![
                    ExprField { name: ident("x", 0), value: Some(p("L")) },
                    ExprField { name: ident("unseen", 0), value: None },
                ],
            }),
            expr(ExprKind::While { condition: p("M"), block: block(vec![], None) }),
            expr(ExprKind::ArrayRepeat { value: p("N"), length: p("O") }),
            expr(ExprKind::Reassignment { target: p("P"), value: Box::new(int_literal()) }),
        ]))),
    )));
    state.check_expr_usage(&whole);
    let mut expected: Vec<(String, u32)> = names.iter().map(|n| (n.to_string(), 1)).collect();
    expected.push(("unseen".to_string(), 0));
    assert_eq!(counts(&state), expected);
}

#[test]
fn the_remaining_expression_forms_are_walked_too() {
    let names = ["A", "B", "C", "D", "E", "F", "G", "H", "I", "J", "K", "L"];
    let mut state = state_with(&names.iter().map(|n| (*n, 0)).collect::<Vec<_>>());
    let p = |name: &str| Box::new(path_expr(name, 100));
    let whole = expr(ExprKind::ArraySequence(vec![
        expr(ExprKind::AbiCast { name: path("Abi", 0), address: p("A") }),
        expr(ExprKind::Parens(p("B"))),
        expr(ExprKind::Asm { registers: vec![*p("C")] }),
        expr(ExprKind::Return(Some(p("D")))),
        expr(ExprKind::Return(None)),
        expr(ExprKind::For {
            pattern: Box::new(Pattern::Wildcard),
            iterator: p("E"),
            block: block(vec![Statement::Expr(*p("F"))], None),
        }),
        expr(ExprKind::FuncApp { func: p("G"), args: vec![*p("H")] }),
        expr(ExprKind::Index { target: p("I"), arg: p("J") }),
        expr(ExprKind::FieldProjection { target: p("K"), name: ident("x", 0) }),
        expr(ExprKind::TupleFieldProjection { target: p("L"), field: 0 }),
        expr(ExprKind::Ref { mutable: false, expr: p("A") }),
        expr(ExprKind::Deref(p("B"))),
        expr(ExprKind::Not(p("C"))),
        expr(ExprKind::Error),
        expr(ExprKind::Break),
        expr(ExprKind::Continue),
        int_literal(),
    ]));
    state.check_expr_usage(&whole);
    let expected: Vec<(String, u32)> = names
        .iter()
        .map(|n| (n.to_string(), if ["A", "B", "C"].contains(n) { 2 } else { 1 }))
        .collect();
    assert_eq!(counts(&state), expected);
}

#[test]
fn a_path_expression_refers_by_its_first_segment_with_its_generics() {
    let mut state = state_with(&[("Vec", 0), ("Vec::<u64>", 0), ("new", 0)]);
    let call = Expr {
        kind: ExprKind::Path(Path {
            root: PathRoot::Local,
            prefix: PathSegment {
                name: ident("Vec", 30),
                generics: Some(vec![Ty::named("u64")]),
                span: span("Vec::<u64>", 30),
            },
            suffix: vec![segment("new", 42)],
            span: span("Vec::<u64>::new", 30),
        }),
        span: span("Vec::<u64>::new", 30),
    };
    state.check_expr_usage(&call);
    assert_eq!(
        counts(&state),
        vec![("Vec".to_string(), 0), ("Vec::<u64>".to_string(), 1), ("new".to_string(), 0)]
    );
}

#[test]
fn constructor_and_struct_patterns_refer_by_their_path() {
    let mut state = state_with(&[("Some", 0), ("Point", 0), ("Inner", 0), ("x", 0), ("LIMIT", 0)]);
    let pattern = Pattern::Tuple(vec![
        Pattern::Or {
            lhs: Box::new(Pattern::Constructor { path: path("Some", 10), args: vec![Pattern::Wildcard] }),
            rhs: Box::new(Pattern::Constructor {
                path: path("Some", 20),
                args: vec![Pattern::Constructor { path: path("Inner", 25), args: vec![] }],
            }),
        },
        Pattern::Struct {
            path: path("Point", 40),
            fields: vec![
                PatternField::Field {
                    name: ident("x", 46),
                    pattern: Some(Box::new(Pattern::Constructor { path: path("Inner", 49), args: vec![] })),
                },
                PatternField::Field { name: ident("x", 60), pattern: None },
                PatternField::Rest,
            ],
        },
        Pattern::Var { mutable: true, name: ident("x", 70) },
        Pattern::AmbiguousSingleIdent(ident("x", 72)),
        Pattern::Constant(path("LIMIT", 74)),
        Pattern::Literal(Literal::Int),
        Pattern::Error,
    ]);
    state.check_pattern_usage(&pattern);
    assert_eq!(
        counts(&state),
        vec![
            ("Some".to_string(), 2),
            ("Point".to_string(), 1),
            ("Inner".to_string(), 2),
            ("x".to_string(), 0),
            ("LIMIT".to_string(), 0),
        ]
    );
}

#[test]
fn a_path_type_refers_by_name_generics_and_root() {
    let mut state = state_with(&[("Map", 0), ("Key", 0), ("Value", 0), ("Owner", 0), ("Trait", 0), ("Tail", 0)]);
    let written = Path {
        root: PathRoot::Qualified {
            ty: Box::new(ty("Owner", 1)),
            as_trait: Some(Box::new(path("Trait", 10))),
        },
        prefix: PathSegment {
            name: ident("Map", 20),
            generics: Some(vec![ty("Key", 24), ty("Value", 29)]),
            span: span("Map<Key, Value>", 20),
        },
        suffix: vec![segment("Tail", 40)],
        span: span("<Owner as Trait>::Map<Key, Value>::Tail", 0),
    };
    state.check_path_type_usage(&written);
    assert_eq!(
        counts(&state),
        vec![
            ("Map".to_string(), 1),
            ("Key".to_string(), 1),
            ("Value".to_string(), 1),
            ("Owner".to_string(), 1),
            ("Trait".to_string(), 1),
            ("Tail".to_string(), 0),
        ]
    );
}

#[test]
fn a_qualified_root_without_a_trait_counts_its_type_only() {
    let mut state = state_with(&[("Owner", 0), ("Item", 0)]);
    let written = Path {
        root: PathRoot::Qualified { ty: Box::new(ty("Owner", 1)), as_trait: None },
        prefix: segment("Item", 10),
        suffix: vec![],
        span: span("<Owner>::Item", 0),
    };
    state.check_path_type_usage(&written);
    assert_eq!(counts(&state), vec![("Owner".to_string(), 1), ("Item".to_string(), 1)]);
    let mut state = state_with(&[("Item", 0)]);
    state.check_path_type_usage(&Path { root: PathRoot::Global, ..path("Item", 2) });
    assert_eq!(counts(&state), vec![("Item".to_string(), 1)]);
}

#[test]
fn every_form_of_type_is_walked() {
    let mut state = state_with(&[("A", 0), ("B", 0), ("C", 0), ("D", 0), ("E", 0), ("F", 0), ("N", 0), ("M", 0)]);
    let written = Ty::Tuple(vec![
        ty("A", 1),
        Ty::Array { ty: Box::new(ty("B", 5)), length: Box::new(path_expr("N", 8)) },
        Ty::Ptr(Box::new(ty("C", 12))),
        Ty::Slice(Box::new(ty("D", 16))),
        Ty::Ref { mutable: true, ty: Box::new(ty("E", 20)) },
        Ty::StringArray { length: Box::new(path_expr("M", 30)) },
        Ty::StringSlice,
        Ty::Infer,
        Ty::Never,
        Ty::Tuple(vec![]),
    ]);
    state.check_ty_usage(&written);
    assert_eq!(
        counts(&state),
        vec![
            ("A".to_string(), 1),
            ("B".to_string(), 1),
            ("C".to_string(), 1),
            ("D".to_string(), 1),
            ("E".to_string(), 1),
            ("F".to_string(), 0),
            ("N".to_string(), 1),
            ("M".to_string(), 0),
        ]
    );
}

#[test]
fn a_function_counts_its_where_clause_and_its_arguments() {
    let mut visitor = entered();
    for (i, name) in ["Bound", "Extra", "Shape", "Arg", "Ret", "T"].iter().enumerate() {
        visitor.visit_use(&UseContext { path: MODULE, item_use: &plain_import(name, 10 * i) });
    }
    let bounds = vec![WhereBound {
        ty_name: ident("T", 90),
        bounds: Traits { prefix: path("Bound", 93), suffixes: vec![path("Extra", 101)] },
    }];
    let arguments = FnArgs::Static(vec![FnArg {
        pattern: Pattern::Constructor { path: path("Shape", 110), args: vec![Pattern::Wildcard] },
        ty: ty("Arg", 120),
    }]);
    let mut sig = signature(arguments, Some(bounds));
    sig.return_type = Some(ty("Ret", 130));
    let item_fn = function(sig);
    visitor.visit_fn(&FnContext { path: MODULE, item_fn: &item_fn });
    assert_eq!(findings(&visitor), vec![unused_entry("Ret", 40), unused_entry("T", 50)]);
}

#[test]
fn a_method_counts_the_arguments_after_self() {
    let mut visitor = entered();
    visitor.visit_use(&UseContext { path: MODULE, item_use: &plain_import("Arg", 0) });
    visitor.visit_use(&UseContext { path: MODULE, item_use: &plain_import("Bound", 10) });
    let only_self = function(signature(
        FnArgs::NonStatic { args: None },
        Some(vec![WhereBound {
            ty_name: ident("T", 90),
            bounds: Traits { prefix: path("Bound", 93), suffixes: vec![] },
        }]),
    ));
    visitor.visit_fn(&FnContext { path: MODULE, item_fn: &only_self });
    assert_eq!(findings(&visitor), vec![unused_entry("Arg", 0)]);
    let with_more = function(signature(
        FnArgs::NonStatic {
            args: Some(vec![FnArg { pattern: Pattern::Wildcard, ty: ty("Arg", 120) }]),
        },
        None,
    ));
    visitor.visit_fn(&FnContext { path: MODULE, item_fn: &with_more });
    assert!(findings(&visitor).is_empty());
}

#[test]
fn a_let_counts_its_pattern_its_type_and_its_expression() {
    let mut visitor = entered();
    for (i, name) in ["Wrap", "Kind", "make", "other"].iter().enumerate() {
        visitor.visit_use(&UseContext { path: MODULE, item_use: &plain_import(name, 10 * i) });
    }
    let pattern = Pattern::Constructor { path: path("Wrap", 50), args: vec![] };
    let written = Some(ty("Kind", 60));
    let value = expr(ExprKind::FuncApp { func: Box::new(path_expr("make", 70)), args: vec![] });
    visitor.visit_statement_let(&StatementLetContext {
        path: MODULE,
        pattern: &pattern,
        ty: &written,
        expr: &value,
    });
    assert_eq!(findings(&visitor), vec![unused_entry("other", 30)]);
}

#[test]
fn fields_aliases_constants_and_traits_count_what_they_refer_to() {
    let names = ["S", "E", "A", "CT", "cv", "ST", "sv", "GT", "gv", "TT", "Super", "Bound", "none"];
    let mut visitor = entered();
    for (i, name) in names.iter().enumerate() {
        visitor.visit_use(&UseContext { path: MODULE, item_use: &plain_import(name, 10 * i) });
    }
    let field = TypeField { name: ident("f", 0), ty: ty("S", 200) };
    visitor.visit_struct_field(&StructFieldContext { path: MODULE, field: &field });
    let variant = TypeField { name: ident("V", 0), ty: ty("E", 210) };
    visitor.visit_enum_field(&EnumFieldContext { path: MODULE, field: &variant });
    let alias = ItemTypeAlias { name: ident("Alias", 0), ty: ty("A", 220) };
    visitor.visit_type_alias(&TypeAliasContext { path: MODULE, item_type_alias: &alias });
    let constant = ItemConst {
        name: ident("K", 0),
        ty: Some(ty("CT", 230)),
        expr: Some(path_expr("cv", 240)),
    };
    visitor.visit_const(&ConstContext { path: MODULE, item_const: &constant });
    let stored = StorageField {
        name: ident("s", 0),
        ty: ty("ST", 250),
        initializer: path_expr("sv", 260),
    };
    visitor.visit_storage_field(&StorageFieldContext { path: MODULE, field: &stored });
    let configurable = StorageField {
        name: ident("c", 0),
        ty: ty("GT", 270),
        initializer: path_expr("gv", 280),
    };
    visitor.visit_configurable_field(
        &ConfigurableFieldContext { path: MODULE, field: &configurable },
    );
    let associated = TraitType { name: ident("Out", 0), ty: Some(ty("TT", 290)) };
    visitor.visit_trait_type(&TraitTypeContext { path: MODULE, item_type: &associated });
    let bare = TraitType { name: ident("In", 0), ty: None };
    visitor.visit_trait_type(&TraitTypeContext { path: MODULE, item_type: &bare });
    let item_trait = ItemTrait {
        name: ident("T", 0),
        where_clause: Some(vec![WhereBound {
            ty_name: ident("X", 0),
            bounds: Traits { prefix: path("Bound", 300), suffixes: vec![] },
        }]),
        super_traits: Some(Traits { prefix: path("Super", 310), suffixes: vec![] }),
        trait_items: vec![],
        trait_defs: vec![],
    };
    visitor.visit_trait(&TraitContext { path: MODULE, item_trait: &item_trait });
    assert_eq!(findings(&visitor), vec![unused_entry("none", 120)]);
}

#[test]
fn a_constant_without_type_or_value_counts_nothing() {
    let mut visitor = entered();
    visitor.visit_use(&UseContext { path: MODULE, item_use: &plain_import("X", 0) });
    let constant = ItemConst { name: ident("X", 50), ty: None, expr: None };
    visitor.visit_const(&ConstContext { path: MODULE, item_const: &constant });
    assert_eq!(findings(&visitor), vec![unused_entry("X", 0)]);
}

#[test]
fn modules_are_kept_apart() {
    let mut visitor = UnusedImportVisitor::new();
    assert!(!visitor.has_module("a.sw"));
    assert!(visitor.module_state("a.sw").is_none());
    visitor.visit_module(&ModuleContext { path: "a.sw" });
    visitor.visit_module(&ModuleContext { path: "b.sw" });
    assert!(visitor.has_module("a.sw"));
    assert!(visitor.has_module("b.sw"));
    assert!(!visitor.has_module("c.sw"));
    visitor.visit_use(&UseContext { path: "a.sw", item_use: &plain_import("X", 0) });
    visitor.visit_use(&UseContext { path: "b.sw", item_use: &plain_import("X", 7) });
    let item_fn = function(signature(FnArgs::Static(vec![]), None));
    let seen = path_expr("X", 30);
    visitor.visit_expr(&ExprContext { path: "b.sw", item_fn: &item_fn, blocks: vec![], expr: &seen });
    let mut project = project();
    assert_eq!(visitor.leave_module(&ModuleContext { path: "a.sw" }, &mut project), Ok(()));
    assert_eq!(visitor.leave_module(&ModuleContext { path: "b.sw" }, &mut project), Ok(()));
    assert_eq!(project.report.entries.len(), 1);
    assert_eq!(project.report.entries[0].path, "a.sw");
    assert_eq!(project.report.entries[0].line, 1);
}

#[test]
fn entering_a_module_again_keeps_its_state() {
    let mut visitor = entered();
    visitor.visit_use(&UseContext { path: MODULE, item_use: &plain_import("X", 0) });
    visitor.visit_module(&ModuleContext { path: MODULE });
    assert_eq!(findings(&visitor), vec![unused_entry("X", 0)]);
}
