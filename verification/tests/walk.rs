use sway_analyzer::detectors::missing_logs::visitor::MissingLogsVisitor;
use sway_analyzer::detectors::unused_import::visitor::UnusedImportVisitor;
use sway_analyzer::detectors::Detector;
use sway_analyzer::driver::{analyze, run, tell};
use sway_analyzer::error::Error;
use sway_analyzer::project::{Entry, LineRange, Project, Severity};
use sway_analyzer::span::{Ident, Span};
use sway_analyzer::syntax::expr::{Block, Expr, ExprKind, Literal, MatchBranch, Pattern, Statement};
use sway_analyzer::syntax::item::{
    FnArgs, FnSignature, ItemAbi, ItemConfigurable, ItemConst, ItemEnum, ItemFn, ItemImpl,
    ItemImplItem, ItemKind, ItemStorage, ItemStruct, ItemTrait, ItemTraitItem, ItemTypeAlias,
    ItemUse, Module, StorageField, TraitType, TypeField, UseTree,
};
use sway_analyzer::syntax::ty::{Path, PathRoot, PathSegment, Ty};
use sway_analyzer::visitor::{
    BlockContext, Event, ExprContext, FnContext, ModuleContext, Node, Phase, StatementContext,
    UseContext,
};
use sway_analyzer::walk::walk_module;

const MODULE: &str = "src/main.sw";

/// A project whose files have lines of ten bytes each: the offset `n` is on
/// line `n / 10 + 1`.
fn project() -> Project {
    let mut project = Project::new();
    for path in [MODULE, "a.sw", "b.sw", "first.sw", "second.sw"] {
        let ranges = (0..1000).map(|n| LineRange { start: n * 10, end: n * 10 + 10 }).collect();
        project.lines.add_file(path, ranges);
    }
    project
}

fn span(text: &str, start: usize) -> Span {
    Span::new(text, start, start + text.len())
}

fn ident(text: &str, start: usize) -> Ident {
    Ident::new(span(text, start))
}

fn segment(name: &str, start: usize) -> PathSegment {
    PathSegment { name: ident(name, start), generics: None, span: span(name, start) }
}

fn path_expr(names: &[&str], start: usize) -> Expr {
    let text = names.join("::");
    let mut at = start;
    let mut segments = vec![];
    for name in names {
        segments.push(segment(name, at));
        at += name.len() + 2;
    }
    let prefix = segments.remove(0);
    Expr {
        kind: ExprKind::Path(Path {
            root: PathRoot::Local,
            prefix,
            suffix: segments,
            span: span(&text, start),
        }),
        span: span(&text, start),
    }
}

fn named_ty(name: &str, start: usize) -> Ty {
    Ty::Path(Path {
        root: PathRoot::Local,
        prefix: segment(name, start),
        suffix: vec![],
        span: span(name, start),
    })
}

fn labelled(label: &str, kind: ExprKind) -> Expr {
    Expr { kind, span: span(label, 0) }
}

fn block(label: &str, statements: Vec<Statement>, final_expr: Option<Expr>) -> Block {
    Block { statements, final_expr: final_expr.map(Box::new), span: span(label, 0) }
}

fn function(name: &str, body: Block) -> ItemFn {
    ItemFn {
        fn_signature: FnSignature {
            name: ident(name, 3),
            arguments: FnArgs::Static(vec![]),
            return_type: None,
            where_clause: None,
            span: span(&format!("fn {}()", name), 0),
        },
        body,
    }
}

fn import(names: &[&str], start: usize) -> ItemUse {
    let mut tree = UseTree::Name { name: ident(names[names.len() - 1], start) };
    for name in names[..names.len() - 1].iter().rev() {
        tree = UseTree::Path { prefix: ident(name, 0), suffix: Box::new(tree) };
    }
    ItemUse { tree }
}

/// `storage.FIELD.write(VALUE);`
fn write_statement(field: &str, value: &str, start: usize) -> Statement {
    Statement::Expr(Expr {
        kind: ExprKind::MethodCall {
            target: Box::new(Expr {
                kind: ExprKind::FieldProjection {
                    target: Box::new(path_expr(&["storage"], start)),
                    name: ident(field, start + 8),
                },
                span: span(&format!("storage.{}", field), start),
            }),
            name: segment("write", start + 9 + field.len()),
            contract_args: vec![],
            args: vec![path_expr(&[value], start + 15 + field.len())],
        },
        span: span(&format!("storage.{}.write({})", field, value), start),
    })
}

fn log_call(callee: &[&str], value: &str, start: usize) -> Expr {
    let func = path_expr(callee, start);
    let arg = path_expr(&[value], start + func.span.text.len() + 1);
    let text = format!("{}({})", func.span.text, value);
    Expr { kind: ExprKind::FuncApp { func: Box::new(func), args: vec![arg] }, span: span(&text, start) }
}

/// One line per step: the phase, the kind of node, and what tells the node
/// apart from others of its kind.
fn trace(events: &[Event]) -> Vec<String> {
    events
        .iter()
        .map(|event| {
            let phase = match event.phase {
                Phase::Visit => "visit",
                Phase::Leave => "leave",
            };
            let blocks = |blocks: &Vec<Span>| {
                blocks.iter().map(|b| b.text.clone()).collect::<Vec<_>>().join(">")
            };
            let node = match &event.node {
                Node::Module(c) => format!("module {}", c.path),
                Node::Use(c) => format!("use {:?}", leaf(&c.item_use.tree)),
                Node::StructField(c) => format!("struct_field {}", c.field.name.name),
                Node::EnumField(c) => format!("enum_field {}", c.field.name.name),
                Node::Fn(c) => format!("fn {}", c.item_fn.fn_signature.name.name),
                Node::StatementLet(c) => format!("let {}", c.expr.span.text),
                Node::Expr(c) => format!(
                    "expr {} in {} [{}]",
                    c.expr.span.text,
                    c.item_fn.fn_signature.name.name,
                    blocks(&c.blocks)
                ),
                Node::Trait(c) => format!("trait {}", c.item_trait.name.name),
                Node::Const(c) => format!("const {}", c.item_const.name.name),
                Node::StorageField(c) => format!("storage_field {}", c.field.name.name),
                Node::ConfigurableField(c) => format!("configurable_field {}", c.field.name.name),
                Node::TypeAlias(c) => format!("type_alias {}", c.item_type_alias.name.name),
                Node::TraitType(c) => format!("trait_type {}", c.item_type.name.name),
                Node::Block(c) => format!(
                    "block {} in {}",
                    c.block.span.text,
                    c.item_fn.fn_signature.name.name
                ),
                Node::Statement(c) => format!(
                    "statement in {} [{}]",
                    c.item_fn.fn_signature.name.name,
                    blocks(&c.blocks)
                ),
            };
            format!("{} {}", phase, node)
        })
        .collect()
}

fn leaf(tree: &UseTree) -> String {
    match tree {
        UseTree::Path { suffix, .. } => leaf(suffix),
        UseTree::Name { name } => name.name.clone(),
        _ => String::new(),
    }
}

fn lines(text: &str) -> Vec<String> {
    text.lines().map(|l| l.trim().to_string()).filter(|l| !l.is_empty()).collect()
}

#[test]
fn an_empty_module_is_entered_and_left() {
    let module = Module { items: vec![] };
    let events = walk_module(MODULE, &module);
    assert_eq!(trace(&events), lines("visit module src/main.sw\nleave module src/main.sw"));
}

#[test]
fn items_are_walked_in_order_between_entering_and_leaving_the_module() {
    let int = || labelled("1", ExprKind::Literal(Literal::Int));
    let field = |name: &str| TypeField { name: ident(name, 0), ty: Ty::named("u64") };
    let stored = |name: &str| StorageField { name: ident(name, 0), ty: Ty::named("u64"), initializer: int() };
    let constant = |name: &str| ItemConst { name: ident(name, 0), ty: None, expr: Some(int()) };
    let signature = function("sig", block("{}", vec![], None)).fn_signature;
    let module = Module {
        items: vec![
            ItemKind::Use(import(&["a", "B"], 7)),
            ItemKind::Struct(ItemStruct { name: ident("S", 0), fields: vec![field("x"), field("y")] }),
            ItemKind::Enum(ItemEnum { name: ident("E", 0), fields: vec![field("V")] }),
            ItemKind::Other,
            ItemKind::Const(constant("K")),
            ItemKind::Storage(ItemStorage { fields: vec![stored("s")] }),
            ItemKind::Configurable(ItemConfigurable { fields: vec![stored("c")] }),
            ItemKind::TypeAlias(ItemTypeAlias { name: ident("A", 0), ty: Ty::named("u64") }),
            ItemKind::Fn(function("f", block("{f}", vec![], None))),
            ItemKind::Trait(ItemTrait {
                name: ident("T", 0),
                where_clause: None,
                super_traits: None,
                trait_items: vec![
                    ItemTraitItem::Fn(signature),
                    ItemTraitItem::Const(constant("TK")),
                    ItemTraitItem::Type(TraitType { name: ident("TT", 0), ty: None }),
                    ItemTraitItem::Error,
                ],
                trait_defs: vec![function("t", block("{t}", vec![], None))],
            }),
            ItemKind::Impl(ItemImpl {
                ty: Ty::named("S"),
                contents: vec![
                    ItemImplItem::Fn(function("i", block("{i}", vec![], None))),
                    ItemImplItem::Const(constant("IK")),
                    ItemImplItem::Type(TraitType { name: ident("IT", 0), ty: None }),
                ],
            }),
            ItemKind::Abi(ItemAbi {
                name: ident("Abi", 0),
                abi_items: vec![ItemTraitItem::Const(constant("AK"))],
                abi_defs: vec![function("a", block("{a}", vec![], None))],
            }),
        ],
    };
    let events = walk_module(MODULE, &module);
    assert_eq!(
        trace(&events),
        lines(
            r#"
            visit module src/main.sw
            visit use "B"
            leave use "B"
            visit struct_field x
            leave struct_field x
            visit struct_field y
            leave struct_field y
            visit enum_field V
            leave enum_field V
            visit const K
            leave const K
            visit storage_field s
            leave storage_field s
            visit configurable_field c
            leave configurable_field c
            visit type_alias A
            leave type_alias A
            visit fn f
            visit block {f} in f
            leave block {f} in f
            leave fn f
            visit trait T
            visit const TK
            leave const TK
            visit trait_type TT
            leave trait_type TT
            visit fn t
            visit block {t} in t
            leave block {t} in t
            leave fn t
            leave trait T
            visit fn i
            visit block {i} in i
            leave block {i} in i
            leave fn i
            visit const IK
            leave const IK
            visit trait_type IT
            leave trait_type IT
            visit const AK
            leave const AK
            visit fn a
            visit block {a} in a
            leave block {a} in a
            leave fn a
            leave module src/main.sw
            "#
        )
    );
}

#[test]
fn a_construct_is_entered_before_its_parts_and_left_after_them() {
    let x = || labelled("x", ExprKind::Literal(Literal::Int));
    let y = || labelled("y", ExprKind::Literal(Literal::Int));
    let body = block(
        "{body}",
        vec![
            Statement::Let { pattern: Pattern::Wildcard, ty: None, expr: x() },
            Statement::Expr(labelled(
                "if",
                ExprKind::If {
                    pattern: None,
                    condition: Box::new(labelled("c", ExprKind::Literal(Literal::Bool))),
                    then_block: block(
                        "{then}",
                        vec![Statement::Item(Box::new(ItemKind::Other))],
                        Some(x()),
                    ),
                    else_branch: Some(Box::new(labelled(
                        "else",
                        ExprKind::Block(block("{else}", vec![], Some(y()))),
                    ))),
                },
            )),
            Statement::Error,
        ],
        Some(labelled("x+y", ExprKind::Binary {
            op: sway_analyzer::syntax::expr::BinaryOp::Add,
            lhs: Box::new(x()),
            rhs: Box::new(y()),
        })),
    );
    let module = Module { items: vec![ItemKind::Fn(function("f", body))] };
    let events = walk_module(MODULE, &module);
    assert_eq!(
        trace(&events),
        lines(
            r#"
            visit module src/main.sw
            visit fn f
            visit block {body} in f
            visit statement in f [{body}]
            visit let x
            visit expr x in f [{body}]
            leave expr x in f [{body}]
            leave let x
            leave statement in f [{body}]
            visit statement in f [{body}]
            visit expr if in f [{body}]
            visit expr c in f [{body}]
            leave expr c in f [{body}]
            visit block {then} in f
            visit statement in f [{body}>{then}]
            leave statement in f [{body}>{then}]
            visit expr x in f [{body}>{then}]
            leave expr x in f [{body}>{then}]
            leave block {then} in f
            visit expr else in f [{body}]
            visit block {else} in f
            visit expr y in f [{body}>{else}]
            leave expr y in f [{body}>{else}]
            leave block {else} in f
            leave expr else in f [{body}]
            leave expr if in f [{body}]
            leave statement in f [{body}]
            visit statement in f [{body}]
            leave statement in f [{body}]
            visit expr x+y in f [{body}]
            visit expr x in f [{body}]
            leave expr x in f [{body}]
            visit expr y in f [{body}]
            leave expr y in f [{body}]
            leave expr x+y in f [{body}]
            leave block {body} in f
            leave fn f
            leave module src/main.sw
            "#
        )
    );
}

#[test]
fn every_part_of_an_expression_is_walked_from_left_to_right() {
    let e = |label: &str| labelled(label, ExprKind::Literal(Literal::Int));
    let b = |label: &str| Box::new(e(label));
    let field = |name: &str, value: Option<&str>| sway_analyzer::syntax::expr::ExprField {
        name: ident(name, 0),
        value: value.map(|v| Box::new(e(v))),
    };
    let whole = labelled(
        "all",
        ExprKind::Tuple(vec![
            labelled("abi", ExprKind::AbiCast { name: Path::named("Abi"), address: b("a1") }),
            labelled("struct", ExprKind::Struct {
                path: Path::named("S"),
                fields: vec![field("f", Some("s1")), field("g", None), field("h", Some("s2"))],
            }),
            labelled("parens", ExprKind::Parens(b("n1"))),
            labelled("seq", ExprKind::ArraySequence(vec![e("q1"), e("q2")])),
            labelled("repeat", ExprKind::ArrayRepeat { value: b("r1"), length: b("r2") }),
            labelled("asm", ExprKind::Asm { registers: vec![e("m1")] }),
            labelled("return", ExprKind::Return(Some(b("t1")))),
            labelled("match", ExprKind::Match {
                value: b("v1"),
                branches: vec![
                    MatchBranch { pattern: Pattern::Wildcard, body: e("v2") },
                    MatchBranch { pattern: Pattern::Wildcard, body: e("v3") },
                ],
            }),
            labelled("while", ExprKind::While { condition: b("w1"), block: block("{w}", vec![], None) }),
            labelled("for", ExprKind::For {
                pattern: Box::new(Pattern::Wildcard),
                iterator: b("o1"),
                block: block("{o}", vec![], None),
            }),
            labelled("call", ExprKind::FuncApp { func: b("c1"), args: vec![e("c2"), e("c3")] }),
            labelled("index", ExprKind::Index { target: b("i1"), arg: b("i2") }),
            labelled("method", ExprKind::MethodCall {
                target: b("d1"),
                name: segment("m", 0),
                contract_args: vec![field("gas", Some("d2"))],
                args: vec![e("d3")],
            }),
            labelled("field", ExprKind::FieldProjection { target: b("f1"), name: ident("x", 0) }),
            labelled("tuple_field", ExprKind::TupleFieldProjection { target: b("g1"), field: 0 }),
            labelled("ref", ExprKind::Ref { mutable: false, expr: b("h1") }),
            labelled("deref", ExprKind::Deref(b("j1"))),
            labelled("not", ExprKind::Not(b("k1"))),
            labelled("assign", ExprKind::Reassignment { target: b("l1"), value: b("l2") }),
            labelled("error", ExprKind::Error),
            labelled("break", ExprKind::Break),
            labelled("continue", ExprKind::Continue),
            labelled("path", ExprKind::Path(Path::named("n"))),
            labelled("bare_return", ExprKind::Return(None)),
        ]),
    );
    let module = Module { items: vec![ItemKind::Fn(function("f", block("{}", vec![], Some(whole))))] };
    let events = walk_module(MODULE, &module);
    let visited: Vec<String> = events
        .iter()
        .filter_map(|event| match (&event.phase, &event.node) {
            (Phase::Visit, Node::Expr(c)) => Some(c.expr.span.text.clone()),
            (Phase::Visit, Node::Block(c)) => Some(c.block.span.text.clone()),
            _ => None,
        })
        .collect();
    let expected = "{} all abi a1 struct s1 s2 parens n1 seq q1 q2 repeat r1 r2 asm m1 return t1 \
                    match v1 v2 v3 while w1 {w} for o1 {o} call c1 c2 c3 index i1 i2 method d1 d2 d3 \
                    field f1 tuple_field g1 ref h1 deref j1 not k1 assign l1 l2 error break continue \
                    path bare_return";
    assert_eq!(visited, expected.split_whitespace().map(|s| s.to_string()).collect::<Vec<_>>());
    let visits = events.iter().filter(|e| e.phase == Phase::Visit).count();
    let leaves = events.iter().filter(|e| e.phase == Phase::Leave).count();
    assert_eq!(visits, leaves);
}

fn sample_module() -> Module {
    let body = block(
        "{ outer }",
        vec![
            write_statement("owner", "new_owner", 100),
            Statement::Expr(log_call(&["log"], "new_owner", 130)),
            Statement::Expr(labelled(
                "{ inner }",
                ExprKind::Block(block("{ inner }", vec![write_statement("total", "sum", 160)], None)),
            )),
            Statement::Expr(log_call(&["log"], "sum", 190)),
        ],
        None,
    );
    Module {
        items: vec![
            ItemKind::Use(import(&["std", "logging", "log"], 18)),
            ItemKind::Use(import(&["std", "token", "mint"], 40)),
            ItemKind::Struct(ItemStruct {
                name: ident("Wallet", 60),
                fields: vec![TypeField { name: ident("id", 70), ty: named_ty("Identity", 74) }],
            }),
            ItemKind::Use(import(&["std", "identity", "Identity"], 90)),
            ItemKind::Fn(function("set", body)),
        ],
    }
}

fn unused(name: &str, start: usize) -> Entry {
    Entry {
        path: MODULE.to_string(),
        line: start / 10 + 1,
        severity: Severity::Low,
        message: format!("Found unused import: `{}`. Consider removing any unused imports.", name),
    }
}

fn unlogged(field: &str, start: usize) -> Entry {
    Entry {
        path: MODULE.to_string(),
        line: start / 10 + 1,
        severity: Severity::Medium,
        message: format!("The `storage.{}` value is written without being logged.", field),
    }
}

#[test]
fn the_table_finds_the_rules_by_name() {
    assert!(!UnusedImportVisitor::default().has_module(MODULE));
    assert!(!MissingLogsVisitor::default().has_module(MODULE));
    assert_eq!(Detector::names(), vec!["unused_import", "missing_logs"]);
    for name in Detector::names() {
        assert_eq!(Detector::by_name(name).unwrap().name(), name);
    }
    assert!(matches!(Detector::by_name("unused_import"), Some(Detector::UnusedImport(_))));
    assert!(matches!(Detector::by_name("missing_logs"), Some(Detector::MissingLogs(_))));
    assert!(Detector::by_name("unknown").is_none());
    assert!(Detector::by_name("").is_none());
    assert!(Detector::by_name("Unused_Import").is_none());
}

#[test]
fn unused_imports_of_a_whole_module_are_found() {
    let mut detectors = vec![Detector::by_name("unused_import").unwrap()];
    let mut project = project();
    assert_eq!(analyze(&mut detectors, MODULE, &sample_module(), &mut project), Ok(()));
    assert_eq!(project.report.entries, vec![unused("mint", 40), unused("Identity", 90)]);
}

#[test]
fn an_import_is_registered_when_its_item_is_entered_and_not_before() {
    let mut module = sample_module();
    module.items.swap(2, 3);
    let mut detectors = vec![Detector::by_name("unused_import").unwrap()];
    let mut project = project();
    assert_eq!(analyze(&mut detectors, MODULE, &module, &mut project), Ok(()));
    assert_eq!(project.report.entries, vec![unused("mint", 40)]);
}

#[test]
fn unlogged_writes_of_a_whole_module_are_found() {
    let mut detectors = vec![Detector::by_name("missing_logs").unwrap()];
    let mut project = project();
    assert_eq!(analyze(&mut detectors, MODULE, &sample_module(), &mut project), Ok(()));
    assert_eq!(project.report.entries, vec![unlogged("total", 168)]);
}

#[test]
fn every_rule_is_told_every_step_and_keeps_its_own_state() {
    let mut detectors: Vec<Detector> =
        Detector::names().iter().map(|name| Detector::by_name(name).unwrap()).collect();
    let mut project = project();
    assert_eq!(analyze(&mut detectors, MODULE, &sample_module(), &mut project), Ok(()));
    assert_eq!(
        project.report.entries,
        vec![unlogged("total", 168), unused("mint", 40), unused("Identity", 90)]
    );
    let Detector::UnusedImport(unused_import) = &detectors[0] else { panic!() };
    assert!(unused_import.has_module(MODULE));
    let Detector::MissingLogs(missing_logs) = &detectors[1] else { panic!() };
    assert_eq!(missing_logs.log_names(MODULE).unwrap(), &vec!["log".to_string()]);
}

#[test]
fn several_modules_are_kept_apart() {
    let mut detectors = vec![Detector::by_name("unused_import").unwrap()];
    let mut project = project();
    let first = Module { items: vec![ItemKind::Use(import(&["a", "X"], 7))] };
    let second = Module {
        items: vec![
            ItemKind::Use(import(&["a", "X"], 9)),
            ItemKind::Const(ItemConst { name: ident("K", 20), ty: Some(named_ty("X", 23)), expr: None }),
        ],
    };
    assert_eq!(analyze(&mut detectors, "first.sw", &first, &mut project), Ok(()));
    assert_eq!(analyze(&mut detectors, "second.sw", &second, &mut project), Ok(()));
    assert_eq!(project.report.entries.len(), 1);
    assert_eq!(project.report.entries[0].path, "first.sw");
}

#[test]
fn a_step_that_was_not_prepared_ends_the_run() {
    let item_use = import(&["a", "X"], 7);
    let events = vec![
        Event { phase: Phase::Visit, node: Node::Module(ModuleContext { path: "a.sw" }) },
        Event { phase: Phase::Visit, node: Node::Use(UseContext { path: "a.sw", item_use: &item_use }) },
        Event { phase: Phase::Visit, node: Node::Use(UseContext { path: "b.sw", item_use: &item_use }) },
        Event { phase: Phase::Leave, node: Node::Module(ModuleContext { path: "a.sw" }) },
    ];
    let mut detectors = vec![Detector::by_name("unused_import").unwrap()];
    let mut project = project();
    assert_eq!(run(&mut detectors, &events, &mut project), Err(Error::MissingModuleState));
    assert!(project.report.entries.is_empty());
    assert_eq!(run(&mut detectors, &events[..2].iter().map(copy).collect(), &mut project), Ok(()));
    assert_eq!(tell(&mut detectors, &events[3], &mut project), Ok(()));
    assert_eq!(project.report.entries.len(), 1);
}

fn copy<'a>(event: &Event<'a>) -> Event<'a> {
    let node = match &event.node {
        Node::Module(c) => Node::Module(ModuleContext { path: c.path }),
        Node::Use(c) => Node::Use(UseContext { path: c.path, item_use: c.item_use }),
        _ => unreachable!(),
    };
    Event { phase: event.phase, node }
}

#[test]
fn a_failing_rule_stops_the_rules_after_it() {
    let item_fn = function("f", block("{f}", vec![], None));
    let event = Event {
        phase: Phase::Visit,
        node: Node::Block(BlockContext { path: "a.sw", item_fn: &item_fn, block: &item_fn.body }),
    };
    let mut detectors = vec![
        Detector::by_name("unused_import").unwrap(),
        Detector::by_name("missing_logs").unwrap(),
        Detector::by_name("unused_import").unwrap(),
    ];
    let mut project = project();
    let enter = Event { phase: Phase::Visit, node: Node::Module(ModuleContext { path: "a.sw" }) };
    assert_eq!(tell(&mut detectors, &event, &mut project), Err(Error::MissingModuleState));
    assert_eq!(tell(&mut detectors, &enter, &mut project), Ok(()));
    assert_eq!(tell(&mut detectors, &event, &mut project), Err(Error::MissingFnState));
}

#[test]
fn the_missing_logs_rule_names_what_it_misses() {
    let item_fn = function("f", block("{f}", vec![], None));
    let statement = write_statement("a", "v", 0);
    let value = log_call(&["log"], "v", 0);
    let path = "a.sw";
    let module = || Event { phase: Phase::Visit, node: Node::Module(ModuleContext { path }) };
    let function_event = || Event { phase: Phase::Visit, node: Node::Fn(FnContext { path, item_fn: &item_fn }) };
    let block_event = |phase: Phase| Event {
        phase,
        node: Node::Block(BlockContext { path, item_fn: &item_fn, block: &item_fn.body }),
    };
    let statement_event = |blocks: Vec<Span>| Event {
        phase: Phase::Visit,
        node: Node::Statement(StatementContext { path, item_fn: &item_fn, blocks, statement: &statement }),
    };
    let expr_event = |blocks: Vec<Span>| Event {
        phase: Phase::Visit,
        node: Node::Expr(ExprContext { path, item_fn: &item_fn, blocks, expr: &value }),
    };
    let inside = || vec![item_fn.body.span.clone()];
    let mut rule = Detector::by_name("missing_logs").unwrap();
    let mut project = project();
    let unprepared = |rule: &mut Detector, project: &mut Project, error: Error| {
        assert_eq!(rule.handle(&function_event(), project).err().filter(|_| error == Error::MissingModuleState), if error == Error::MissingModuleState { Some(error) } else { None });
        assert_eq!(rule.handle(&block_event(Phase::Leave), project), Err(error));
        assert_eq!(rule.handle(&statement_event(inside()), project), Err(error));
        assert_eq!(rule.handle(&expr_event(inside()), project), Err(error));
    };
    unprepared(&mut rule, &mut project, Error::MissingModuleState);
    assert_eq!(rule.handle(&block_event(Phase::Visit), &mut project), Err(Error::MissingModuleState));
    assert_eq!(rule.handle(&module(), &mut project), Ok(()));
    assert_eq!(rule.handle(&block_event(Phase::Visit), &mut project), Err(Error::MissingFnState));
    assert_eq!(rule.handle(&block_event(Phase::Leave), &mut project), Err(Error::MissingFnState));
    assert_eq!(rule.handle(&statement_event(inside()), &mut project), Err(Error::MissingFnState));
    assert_eq!(rule.handle(&function_event(), &mut project), Ok(()));
    unprepared(&mut rule, &mut project, Error::MissingBlockState);
    assert_eq!(rule.handle(&block_event(Phase::Visit), &mut project), Ok(()));
    assert_eq!(rule.handle(&statement_event(vec![]), &mut project), Err(Error::MissingBlockState));
    assert_eq!(rule.handle(&expr_event(vec![]), &mut project), Err(Error::MissingBlockState));
    assert_eq!(rule.handle(&statement_event(inside()), &mut project), Ok(()));
    assert_eq!(rule.handle(&expr_event(inside()), &mut project), Ok(()));
    assert!(project.report.entries.is_empty());
    assert_eq!(rule.handle(&block_event(Phase::Leave), &mut project), Ok(()));
    assert_eq!(project.report.entries.len(), 1);
}

#[test]
fn steps_that_a_rule_does_not_act_on_change_nothing() {
    let item_fn = function("f", block("{f}", vec![], None));
    let mut rule = Detector::by_name("unused_import").unwrap();
    let mut project = project();
    let ignored = [
        Event { phase: Phase::Leave, node: Node::Fn(FnContext { path: "a.sw", item_fn: &item_fn }) },
        Event {
            phase: Phase::Visit,
            node: Node::Block(BlockContext { path: "a.sw", item_fn: &item_fn, block: &item_fn.body }),
        },
        Event {
            phase: Phase::Leave,
            node: Node::Block(BlockContext { path: "a.sw", item_fn: &item_fn, block: &item_fn.body }),
        },
    ];
    for event in ignored.iter() {
        assert_eq!(rule.handle(event, &mut project), Ok(()));
    }
    let Detector::UnusedImport(visitor) = &rule else { panic!() };
    assert!(!visitor.has_module("a.sw"));
    assert!(project.report.entries.is_empty());
}

#[test]
fn an_item_in_a_block_is_walked_like_an_item_of_the_module() {
    let inner = function("inner", block("{inner}", vec![], None));
    let body = block(
        "{outer}",
        vec![
            Statement::Item(Box::new(ItemKind::Use(import(&["a", "B"], 7)))),
            Statement::Item(Box::new(ItemKind::Fn(inner))),
        ],
        None,
    );
    let module = Module { items: vec![ItemKind::Fn(function("outer", body))] };
    let events = walk_module(MODULE, &module);
    assert_eq!(
        trace(&events),
        lines(
            r#"
            visit module src/main.sw
            visit fn outer
            visit block {outer} in outer
            visit statement in outer [{outer}]
            visit use "B"
            leave use "B"
            leave statement in outer [{outer}]
            visit statement in outer [{outer}]
            visit fn inner
            visit block {inner} in inner
            leave block {inner} in inner
            leave fn inner
            leave statement in outer [{outer}]
            leave block {outer} in outer
            leave fn outer
            leave module src/main.sw
            "#
        )
    );
}

#[test]
fn an_import_in_a_block_is_registered_and_reported() {
    let body = block(
        "{body}",
        vec![
            Statement::Item(Box::new(ItemKind::Use(import(&["a", "Seen"], 20)))),
            Statement::Item(Box::new(ItemKind::Use(import(&["a", "Unseen"], 40)))),
            Statement::Expr(path_expr(&["Seen"], 60)),
        ],
        None,
    );
    let module = Module { items: vec![ItemKind::Fn(function("f", body))] };
    let mut detectors = vec![Detector::by_name("unused_import").unwrap()];
    let mut project = project();
    assert_eq!(analyze(&mut detectors, MODULE, &module, &mut project), Ok(()));
    assert_eq!(project.report.entries, vec![unused("Unseen", 40)]);
}

#[test]
fn a_function_in_a_block_has_blocks_of_its_own() {
    let inner = function(
        "inner",
        block("{ inner }", vec![write_statement("total", "sum", 160)], None),
    );
    let body = block(
        "{ outer }",
        vec![
            Statement::Item(Box::new(ItemKind::Fn(inner))),
            Statement::Expr(log_call(&["std", "logging", "log"], "sum", 190)),
        ],
        None,
    );
    let module = Module { items: vec![ItemKind::Fn(function("outer", body))] };
    let mut detectors = vec![Detector::by_name("missing_logs").unwrap()];
    let mut project = project();
    assert_eq!(analyze(&mut detectors, MODULE, &module, &mut project), Ok(()));
    assert_eq!(project.report.entries, vec![unlogged("total", 168)]);
}

#[test]
fn a_finding_without_a_line_ends_the_walk() {
    let mut detectors: Vec<Detector> =
        Detector::names().iter().map(|name| Detector::by_name(name).unwrap()).collect();
    let mut unknown = Project::new();
    assert_eq!(
        analyze(&mut detectors, MODULE, &sample_module(), &mut unknown),
        Err(Error::LineNotFound)
    );
    assert!(unknown.report.entries.is_empty());
    let mut detectors = vec![Detector::by_name("unused_import").unwrap()];
    let mut short = Project::new();
    short.lines.add_file(MODULE, vec![LineRange { start: 0, end: 50 }]);
    assert_eq!(
        analyze(&mut detectors, MODULE, &sample_module(), &mut short),
        Err(Error::LineNotFound)
    );
    assert_eq!(
        short.report.entries,
        vec![Entry {
            path: MODULE.to_string(),
            line: 1,
            severity: Severity::Low,
            message: "Found unused import: `mint`. Consider removing any unused imports."
                .to_string(),
        }]
    );
}

#[test]
fn a_walk_without_findings_needs_no_lines() {
    let mut detectors: Vec<Detector> =
        Detector::names().iter().map(|name| Detector::by_name(name).unwrap()).collect();
    let mut unknown = Project::new();
    assert_eq!(analyze(&mut detectors, MODULE, &Module { items: vec![] }, &mut unknown), Ok(()));
    assert!(unknown.report.entries.is_empty());
}

#[test]
fn a_rule_that_fails_on_a_line_stops_the_rules_after_it() {
    let mut detectors: Vec<Detector> =
        Detector::names().iter().map(|name| Detector::by_name(name).unwrap()).collect();
    let module = Module { items: vec![ItemKind::Use(import(&["a", "X"], 7))] };
    let events = walk_module(MODULE, &module);
    let mut unknown = Project::new();
    let last = events.len() - 1;
    for event in &events[..last] {
        assert_eq!(tell(&mut detectors, event, &mut unknown), Ok(()));
    }
    assert_eq!(tell(&mut detectors, &events[last], &mut unknown), Err(Error::LineNotFound));
    let Detector::UnusedImport(first) = &detectors[0] else { panic!() };
    assert!(first.has_module(MODULE));
    assert_eq!(detectors[1].handle(&events[last], &mut unknown), Ok(()));
}
