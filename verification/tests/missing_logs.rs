use sway_analyzer::detectors::missing_logs::patterns::{
    log_import_of, logged_span, names_log, storage_write_of,
};
use sway_analyzer::detectors::missing_logs::state::{missing_log_text, BlockState, Write};
use sway_analyzer::detectors::missing_logs::visitor::MissingLogsVisitor;
use sway_analyzer::error::Error;
use sway_analyzer::project::{Entry, LineRange, Project, Severity};
use sway_analyzer::span::{Ident, Span};
use sway_analyzer::syntax::expr::{Block, Expr, ExprKind, Literal, Statement};
use sway_analyzer::syntax::item::{FnArgs, FnSignature, ItemFn, ItemUse, UseTree};
use sway_analyzer::syntax::ty::{Path, PathRoot, PathSegment};
use sway_analyzer::visitor::{
    BlockContext, ExprContext, FnContext, ModuleContext, StatementContext, UseContext,
};

const MODULE: &str = "test/missing_logs/src/main.sw";

/// A project whose files have lines of ten bytes each: the offset `n` is on
/// line `n / 10 + 1`.
fn project() -> Project {
    let mut project = Project::new();
    for path in [MODULE, "a.sw", "b.sw", "first.sw", "second.sw"] {
        let ranges = (0..1000).map(|n| LineRange { start: n * 10, end: n * 10 + 10 }).collect();
        project.lines.add_file(path, ranges);
    }
    project
}

fn span(text: &str, start: usize) -> Span {
    Span::new(text, start, start + text.len())
}

fn ident(text: &str, start: usize) -> Ident {
    Ident::new(span(text, start))
}

fn segment(name: &str, start: usize) -> PathSegment {
    PathSegment { name: ident(name, start), generics: None, span: span(name, start) }
}

fn path(names: &[&str], start: usize) -> Path {
    let text = names.join("::");
    let mut at = start;
    let mut segments = vec![];
    for name in names {
        segments.push(segment(name, at));
        at += name.len() + 2;
    }
    let prefix = segments.remove(0);
    Path { root: PathRoot::Local, prefix, suffix: segments, span: span(&text, start) }
}

fn path_expr(names: &[&str], start: usize) -> Expr {
    let path = path(names, start);
    let span = path.span.clone();
    Expr { kind: ExprKind::Path(path), span }
}

fn block(text: &str, start: usize) -> Block {
    Block { statements: vec![], final_expr: None, span: span(text, start) }
}

fn function(signature: &str, start: usize) -> ItemFn {
    ItemFn {
        fn_signature: FnSignature {
            name: ident("f", start + 3),
            arguments: FnArgs::Static(vec![]),
            return_type: None,
            where_clause: None,
            span: span(signature, start),
        },
        body: block("{ }", start + signature.len() + 1),
    }
}

/// `storage.FIELD.write(VALUE);`
fn write_statement(field: &str, value: &str, start: usize) -> Statement {
    let field_at = start + 8;
    let value_at = field_at + field.len() + 7;
    let text = format!("storage.{}.write({})", field, value);
    Statement::Expr(Expr {
        kind: ExprKind::MethodCall {
            target: Box::new(Expr {
                kind: ExprKind::FieldProjection {
                    target: Box::new(path_expr(&["storage"], start)),
                    name: ident(field, field_at),
                },
                span: span(&format!("storage.{}", field), start),
            }),
            name: segment("write", field_at + field.len() + 1),
            contract_args: vec![],
            args: vec![path_expr(&[value], value_at)],
        },
        span: span(&text, start),
    })
}

/// `CALLEE(ARG)`
fn call(callee: &[&str], arg: Expr, start: usize) -> Expr {
    let func = path_expr(callee, start);
    let text = format!("{}({})", func.span.text, arg.span.text);
    Expr {
        kind: ExprKind::FuncApp { func: Box::new(func), args: vec![arg] },
        span: span(&text, start),
    }
}

fn log_use(leaf: UseTree) -> ItemUse {
    ItemUse {
        tree: UseTree::Path {
            prefix: ident("std", 4),
            suffix: Box::new(UseTree::Path { prefix: ident("logging", 9), suffix: Box::new(leaf) }),
        },
    }
}

fn unlogged(field: &str, start: usize) -> Entry {
    Entry {
        path: MODULE.to_string(),
        line: start / 10 + 1,
        severity: Severity::Medium,
        message: format!("The `storage.{}` value is written without being logged.", field),
    }
}

struct Walk {
    visitor: MissingLogsVisitor,
    item_fn: ItemFn,
    blocks: Vec<Span>,
    project: Project,
}

impl Walk {
    fn new() -> Walk {
        let mut visitor = MissingLogsVisitor::new();
        visitor.visit_module(&ModuleContext { path: MODULE });
        let item_fn = function("fn f()", 100);
        visitor.visit_fn(&FnContext { path: MODULE, item_fn: &item_fn });
        Walk { visitor, item_fn, blocks: vec![], project: project() }
    }

    fn import(&mut self, item_use: &ItemUse) {
        self.visitor.visit_use(&UseContext { path: MODULE, item_use });
    }

    fn enter(&mut self, block: &Block) {
        self.visitor.visit_block(&BlockContext { path: MODULE, item_fn: &self.item_fn, block });
        self.blocks.push(block.span.clone());
    }

    fn leave(&mut self, block: &Block) {
        self.blocks.pop();
        let context = BlockContext { path: MODULE, item_fn: &self.item_fn, block };
        assert_eq!(self.visitor.leave_block(&context, &mut self.project), Ok(()));
    }

    fn statement(&mut self, statement: &Statement) {
        self.visitor.visit_statement(&StatementContext {
            path: MODULE,
            item_fn: &self.item_fn,
            blocks: self.blocks.clone(),
            statement,
        });
    }

    fn expr(&mut self, expr: &Expr) {
        self.visitor.visit_expr(&ExprContext {
            path: MODULE,
            item_fn: &self.item_fn,
            blocks: self.blocks.clone(),
            expr,
        });
    }

    fn entries(&self) -> &Vec<Entry> {
        &self.project.report.entries
    }
}

#[test]
fn the_message_names_the_field() {
    assert_eq!(
        missing_log_text("owner"),
        "The `storage.owner` value is written without being logged."
    );
}

#[test]
fn a_write_that_is_logged_in_its_block_is_not_reported() {
    let mut walk = Walk::new();
    walk.import(&log_use(UseTree::Name { name: ident("log", 18) }));
    let body = block("{ body }", 110);
    walk.enter(&body);
    walk.statement(&write_statement("owner", "new_owner", 120));
    walk.expr(&call(&["log"], path_expr(&["new_owner"], 164), 160));
    walk.leave(&body);
    assert!(walk.entries().is_empty());
}

#[test]
fn a_write_that_is_not_logged_is_reported_once() {
    let mut walk = Walk::new();
    walk.import(&log_use(UseTree::Name { name: ident("log", 18) }));
    let body = block("{ body }", 110);
    walk.enter(&body);
    walk.statement(&write_statement("owner", "new_owner", 120));
    walk.leave(&body);
    assert_eq!(walk.entries(), &vec![unlogged("owner", 128)]);
}

#[test]
fn a_log_of_another_value_does_not_count() {
    let mut walk = Walk::new();
    walk.import(&log_use(UseTree::Name { name: ident("log", 18) }));
    let body = block("{ body }", 110);
    walk.enter(&body);
    walk.statement(&write_statement("owner", "new_owner", 120));
    walk.expr(&call(&["log"], path_expr(&["old_owner"], 164), 160));
    walk.leave(&body);
    assert_eq!(walk.entries(), &vec![unlogged("owner", 128)]);
}

#[test]
fn the_full_path_logs_like_an_imported_name() {
    let mut by_alias = Walk::new();
    by_alias.import(&log_use(UseTree::Rename { name: ident("log", 18), alias: ident("emit", 25) }));
    let mut by_path = Walk::new();
    let body = block("{ body }", 110);
    for walk in [&mut by_alias, &mut by_path] {
        walk.enter(&body);
        walk.statement(&write_statement("owner", "new_owner", 120));
    }
    by_alias.expr(&call(&["emit"], path_expr(&["new_owner"], 165), 160));
    by_path.expr(&call(&["std", "logging", "log"], path_expr(&["new_owner"], 178), 160));
    by_alias.leave(&body);
    by_path.leave(&body);
    assert!(by_alias.entries().is_empty());
    assert!(by_path.entries().is_empty());
    assert_eq!(
        by_alias.visitor.block_state(
            MODULE,
            &by_alias.item_fn.fn_signature.span,
            &body.span,
        ).unwrap().logged,
        vec![span("new_owner", 165)]
    );
    assert_eq!(
        by_path.visitor.block_state(
            MODULE,
            &by_path.item_fn.fn_signature.span,
            &body.span,
        ).unwrap().logged,
        vec![span("new_owner", 178)]
    );
}

#[test]
fn a_name_that_was_not_imported_does_not_log() {
    let mut walk = Walk::new();
    walk.import(&log_use(UseTree::Rename { name: ident("log", 18), alias: ident("emit", 25) }));
    let body = block("{ body }", 110);
    walk.enter(&body);
    walk.statement(&write_statement("owner", "new_owner", 120));
    walk.expr(&call(&["log"], path_expr(&["new_owner"], 164), 160));
    walk.leave(&body);
    assert_eq!(walk.entries(), &vec![unlogged("owner", 128)]);
}

#[test]
fn a_log_in_another_block_does_not_count() {
    let mut walk = Walk::new();
    walk.import(&log_use(UseTree::Name { name: ident("log", 18) }));
    let outer = block("{ outer }", 110);
    let inner = block("{ inner }", 130);
    let sibling = block("{ sibling }", 150);
    walk.enter(&outer);
    walk.expr(&call(&["log"], path_expr(&["new_owner"], 116), 112));
    walk.enter(&inner);
    walk.statement(&write_statement("owner", "new_owner", 132));
    walk.leave(&inner);
    walk.enter(&sibling);
    walk.expr(&call(&["log"], path_expr(&["new_owner"], 156), 152));
    walk.leave(&sibling);
    walk.leave(&outer);
    assert_eq!(walk.entries(), &vec![unlogged("owner", 140)]);
}

#[test]
fn a_write_in_the_outer_block_is_not_covered_by_a_log_further_in() {
    let mut walk = Walk::new();
    let outer = block("{ outer }", 110);
    let inner = block("{ inner }", 130);
    walk.enter(&outer);
    walk.statement(&write_statement("total", "sum", 112));
    walk.enter(&inner);
    walk.expr(&call(&["std", "logging", "log"], path_expr(&["sum"], 150), 132));
    walk.leave(&inner);
    walk.leave(&outer);
    assert_eq!(walk.entries(), &vec![unlogged("total", 120)]);
}

#[test]
fn every_unlogged_write_of_a_block_is_reported_in_order() {
    let mut walk = Walk::new();
    let body = block("{ body }", 110);
    walk.enter(&body);
    walk.statement(&write_statement("a", "x", 120));
    walk.statement(&write_statement("b", "y", 140));
    walk.statement(&write_statement("c", "x", 160));
    walk.statement(&write_statement("d", "z", 180));
    walk.expr(&call(&["std", "logging", "log"], path_expr(&["y"], 210), 200));
    walk.leave(&body);
    assert_eq!(
        walk.entries(),
        &vec![unlogged("a", 128), unlogged("c", 168), unlogged("d", 188)]
    );
}

#[test]
fn a_log_before_the_write_counts_as_well() {
    let mut walk = Walk::new();
    let body = block("{ body }", 110);
    walk.enter(&body);
    walk.expr(&call(&["std", "logging", "log"], path_expr(&["v"], 130), 112));
    walk.statement(&write_statement("a", "v", 140));
    walk.leave(&body);
    assert!(walk.entries().is_empty());
}

#[test]
fn the_logged_value_is_matched_by_its_whole_text() {
    let mut walk = Walk::new();
    let body = block("{ body }", 110);
    walk.enter(&body);
    walk.statement(&write_statement("a", "v", 120));
    let sum = Expr {
        kind: ExprKind::Parens(Box::new(path_expr(&["v"], 151))),
        span: span("(v)", 150),
    };
    walk.expr(&call(&["std", "logging", "log"], sum, 132));
    walk.leave(&body);
    assert_eq!(walk.entries(), &vec![unlogged("a", 128)]);
}

#[test]
fn only_the_logging_function_imports_a_log_name() {
    let name = |text: &str| UseTree::Name { name: ident(text, 18) };
    assert_eq!(log_import_of(&log_use(name("log")).tree).map(|i| i.name.as_str()), Some("log"));
    let renamed = log_use(UseTree::Rename { name: ident("log", 18), alias: ident("emit", 25) });
    assert_eq!(log_import_of(&renamed.tree).map(|i| i.name.as_str()), Some("emit"));
    assert!(log_import_of(&log_use(name("other")).tree).is_none());
    let other_renamed = log_use(UseTree::Rename { name: ident("other", 18), alias: ident("log", 27) });
    assert!(log_import_of(&other_renamed.tree).is_none());
    assert!(log_import_of(&log_use(UseTree::Glob).tree).is_none());
    assert!(log_import_of(&log_use(UseTree::Group { imports: vec![name("log")] }).tree).is_none());
    assert!(log_import_of(&name("log")).is_none());
    let shallow = UseTree::Path { prefix: ident("std", 4), suffix: Box::new(name("log")) };
    assert!(log_import_of(&shallow).is_none());
    let elsewhere = UseTree::Path {
        prefix: ident("core", 4),
        suffix: Box::new(UseTree::Path { prefix: ident("logging", 9), suffix: Box::new(name("log")) }),
    };
    assert!(log_import_of(&elsewhere).is_none());
    let other_module = UseTree::Path {
        prefix: ident("std", 4),
        suffix: Box::new(UseTree::Path { prefix: ident("token", 9), suffix: Box::new(name("log")) }),
    };
    assert!(log_import_of(&other_module).is_none());
}

#[test]
fn imports_add_log_names_in_order() {
    let mut walk = Walk::new();
    assert!(walk.visitor.log_names(MODULE).unwrap().is_empty());
    walk.import(&log_use(UseTree::Name { name: ident("log", 18) }));
    walk.import(&log_use(UseTree::Name { name: ident("other", 18) }));
    walk.import(&log_use(UseTree::Rename { name: ident("log", 18), alias: ident("emit", 25) }));
    assert_eq!(walk.visitor.log_names(MODULE).unwrap(), &vec!["log".to_string(), "emit".to_string()]);
    assert!(walk.visitor.log_names("other.sw").is_none());
}

#[test]
fn a_log_path_is_a_known_name_or_the_full_path() {
    let names = vec!["log".to_string(), "emit".to_string()];
    assert!(names_log(&names, &path(&["log"], 0)));
    assert!(names_log(&names, &path(&["emit"], 0)));
    assert!(!names_log(&names, &path(&["print"], 0)));
    assert!(names_log(&names, &path(&["std", "logging", "log"], 0)));
    assert!(names_log(&vec![], &path(&["std", "logging", "log"], 0)));
    assert!(!names_log(&vec![], &path(&["log"], 0)));
    assert!(!names_log(&names, &path(&["std", "logging", "emit"], 0)));
    assert!(!names_log(&names, &path(&["std", "log"], 0)));
    assert!(!names_log(&names, &path(&["logging", "log"], 0)));
    assert!(!names_log(&names, &path(&["core", "logging", "log"], 0)));
    assert!(!names_log(&names, &path(&["std", "logs", "log"], 0)));
    assert!(!names_log(&names, &path(&["a", "std", "logging", "log"], 0)));
}

#[test]
fn only_a_call_with_one_argument_logs() {
    let names = vec!["log".to_string()];
    let arg = || path_expr(&["v"], 10);
    let one = call(&["log"], arg(), 0);
    assert_eq!(logged_span(&names, &one), Some(&span("v", 10)));
    let none = Expr {
        kind: ExprKind::FuncApp { func: Box::new(path_expr(&["log"], 0)), args: vec![] },
        span: span("log()", 0),
    };
    assert_eq!(logged_span(&names, &none), None);
    let two = Expr {
        kind: ExprKind::FuncApp { func: Box::new(path_expr(&["log"], 0)), args: vec![arg(), arg()] },
        span: span("log(v, v)", 0),
    };
    assert_eq!(logged_span(&names, &two), None);
    let through_parens = Expr {
        kind: ExprKind::FuncApp {
            func: Box::new(Expr {
                kind: ExprKind::Parens(Box::new(path_expr(&["log"], 1))),
                span: span("(log)", 0),
            }),
            args: vec![arg()],
        },
        span: span("(log)(v)", 0),
    };
    assert_eq!(logged_span(&names, &through_parens), None);
    assert_eq!(logged_span(&names, &path_expr(&["log"], 0)), None);
    let literal = Expr { kind: ExprKind::Literal(Literal::Int), span: span("42", 4) };
    assert_eq!(logged_span(&names, &call(&["log"], literal, 0)), Some(&span("42", 4)));
}

#[test]
fn a_storage_write_is_a_write_call_on_a_storage_field() {
    assert_eq!(
        storage_write_of(&write_statement("owner", "new_owner", 20)),
        Some(Write { field: span("owner", 28), value: span("new_owner", 40) })
    );
    let rebuilt = |change: &dyn Fn(&mut ExprKind)| {
        let mut statement = write_statement("owner", "new_owner", 20);
        if let Statement::Expr(expr) = &mut statement {
            change(&mut expr.kind);
        }
        statement
    };
    let other_method = rebuilt(&|kind| {
        if let ExprKind::MethodCall { name, .. } = kind {
            *name = segment("read", 34);
        }
    });
    assert_eq!(storage_write_of(&other_method), None);
    let no_argument = rebuilt(&|kind| {
        if let ExprKind::MethodCall { args, .. } = kind {
            args.clear();
        }
    });
    assert_eq!(storage_write_of(&no_argument), None);
    let two_arguments = rebuilt(&|kind| {
        if let ExprKind::MethodCall { args, .. } = kind {
            args.push(path_expr(&["more"], 60));
        }
    });
    assert_eq!(storage_write_of(&two_arguments), None);
    let literal_value = rebuilt(&|kind| {
        if let ExprKind::MethodCall { args, .. } = kind {
            args[0] = Expr { kind: ExprKind::Literal(Literal::Int), span: span("1", 40) };
        }
    });
    assert_eq!(storage_write_of(&literal_value), None);
    let long_value = rebuilt(&|kind| {
        if let ExprKind::MethodCall { args, .. } = kind {
            args[0] = path_expr(&["a", "b"], 40);
        }
    });
    assert_eq!(storage_write_of(&long_value), None);
    let other_root = rebuilt(&|kind| {
        if let ExprKind::MethodCall { target, .. } = kind {
            if let ExprKind::FieldProjection { target, .. } = &mut target.kind {
                **target = path_expr(&["state"], 20);
            }
        }
    });
    assert_eq!(storage_write_of(&other_root), None);
    let no_field = rebuilt(&|kind| {
        if let ExprKind::MethodCall { target, .. } = kind {
            **target = path_expr(&["storage"], 20);
        }
    });
    assert_eq!(storage_write_of(&no_field), None);
    let item = sway_analyzer::syntax::item::ItemKind::Other;
    assert_eq!(storage_write_of(&Statement::Item(Box::new(item))), None);
    assert_eq!(storage_write_of(&Statement::Error), None);
    assert_eq!(storage_write_of(&Statement::Expr(path_expr(&["x"], 0))), None);
}

#[test]
fn a_let_is_not_a_storage_write() {
    let Statement::Expr(expr) = write_statement("owner", "new_owner", 20) else { panic!() };
    let bound = Statement::Let {
        pattern: sway_analyzer::syntax::expr::Pattern::Wildcard,
        ty: None,
        expr,
    };
    assert_eq!(storage_write_of(&bound), None);
}

#[test]
fn the_state_follows_the_nesting_of_the_source() {
    let mut visitor = MissingLogsVisitor::new();
    let f = function("fn f()", 0);
    let g = function("fn g()", 50);
    let body = block("{ body }", 10);
    assert!(!visitor.has_module(MODULE));
    assert!(!visitor.has_fn(MODULE, &f.fn_signature.span));
    visitor.visit_module(&ModuleContext { path: MODULE });
    assert!(visitor.has_module(MODULE));
    assert!(!visitor.has_fn(MODULE, &f.fn_signature.span));
    visitor.visit_fn(&FnContext { path: MODULE, item_fn: &f });
    assert!(visitor.has_fn(MODULE, &f.fn_signature.span));
    assert!(!visitor.has_fn(MODULE, &g.fn_signature.span));
    assert!(!visitor.has_block(MODULE, &f.fn_signature.span, &body.span));
    visitor.visit_block(&BlockContext { path: MODULE, item_fn: &f, block: &body });
    assert!(visitor.has_block(MODULE, &f.fn_signature.span, &body.span));
    assert!(!visitor.has_block(MODULE, &g.fn_signature.span, &body.span));
    assert!(!visitor.has_block("other.sw", &f.fn_signature.span, &body.span));
    assert_eq!(
        visitor.block_state(MODULE, &f.fn_signature.span, &body.span),
        Some(&BlockState { written: vec![], logged: vec![] })
    );
    assert!(visitor.block_state(MODULE, &g.fn_signature.span, &body.span).is_none());
}

#[test]
fn functions_with_the_same_block_text_are_kept_apart() {
    let mut visitor = MissingLogsVisitor::new();
    visitor.visit_module(&ModuleContext { path: MODULE });
    let f = function("fn f()", 0);
    let g = function("fn g()", 50);
    let body = block("{ body }", 10);
    let mut project = project();
    for item_fn in [&f, &g] {
        visitor.visit_fn(&FnContext { path: MODULE, item_fn });
        visitor.visit_block(&BlockContext { path: MODULE, item_fn, block: &body });
    }
    let blocks = vec![body.span.clone()];
    let write = write_statement("a", "v", 20);
    visitor.visit_statement(
        &StatementContext { path: MODULE, item_fn: &f, blocks: blocks.clone(), statement: &write },
    );
    let logged = call(&["std", "logging", "log"], path_expr(&["v"], 90), 70);
    visitor.visit_expr(
        &ExprContext { path: MODULE, item_fn: &g, blocks: blocks.clone(), expr: &logged },
    );
    let left = visitor.leave_block(&BlockContext { path: MODULE, item_fn: &g, block: &body }, &mut project);
    assert_eq!(left, Ok(()));
    assert!(project.report.entries.is_empty());
    let left = visitor.leave_block(&BlockContext { path: MODULE, item_fn: &f, block: &body }, &mut project);
    assert_eq!(left, Ok(()));
    assert_eq!(project.report.entries, vec![unlogged("a", 28)]);
}

#[test]
fn blocks_are_keyed_by_their_text() {
    let mut walk = Walk::new();
    let first = block("{ same }", 110);
    let second = block("{ same }", 150);
    walk.enter(&first);
    walk.statement(&write_statement("a", "v", 112));
    walk.leave(&first);
    assert_eq!(walk.entries(), &vec![unlogged("a", 120)]);
    walk.enter(&second);
    walk.leave(&second);
    assert_eq!(walk.entries(), &vec![unlogged("a", 120), unlogged("a", 120)]);
}

#[test]
fn findings_are_appended_to_what_was_reported_before() {
    let state = BlockState {
        written: vec![Write { field: span("a", 1), value: span("v", 5) }],
        logged: vec![span("w", 9)],
    };
    assert!(!state.is_logged(&span("v", 0)));
    assert!(state.is_logged(&span("w", 0)));
    let mut project = project();
    project.report.add_entry("other.sw", 1, Severity::High, "before".to_string());
    assert_eq!(state.report_unlogged(MODULE, &mut project), Ok(()));
    assert_eq!(project.report.entries.len(), 2);
    assert_eq!(project.report.entries[0].message, "before");
    assert_eq!(project.report.entries[1], unlogged("a", 1));
}

#[test]
fn a_finding_names_the_line_of_the_field_and_is_of_medium_severity() {
    let state = BlockState {
        written: vec![Write { field: span("counter", 61), value: span("x", 75) }],
        logged: vec![],
    };
    let mut project = project();
    assert_eq!(state.report_unlogged(MODULE, &mut project), Ok(()));
    assert_eq!(
        project.report.entries,
        vec![Entry {
            path: MODULE.to_string(),
            line: 7,
            severity: Severity::Medium,
            message: "The `storage.counter` value is written without being logged.".to_string(),
        }]
    );
}

#[test]
fn a_field_without_a_line_ends_the_report_and_keeps_what_came_before() {
    let state = BlockState {
        written: vec![
            Write { field: span("a", 11), value: span("v", 15) },
            Write { field: span("b", 20_000), value: span("w", 25) },
            Write { field: span("c", 31), value: span("x", 35) },
        ],
        logged: vec![],
    };
    assert_eq!(state.unlogged(), vec![span("a", 11), span("b", 20_000), span("c", 31)]);
    let mut project = project();
    assert_eq!(state.report_unlogged(MODULE, &mut project), Err(Error::LineNotFound));
    assert_eq!(project.report.entries, vec![unlogged("a", 11)]);
    assert_eq!(state.written.len(), 3);
    assert!(state.logged.is_empty());
}

#[test]
fn leaving_a_block_fails_where_an_unlogged_field_has_no_line() {
    let mut visitor = MissingLogsVisitor::new();
    visitor.visit_module(&ModuleContext { path: MODULE });
    let f = function("fn f()", 0);
    let body = block("{ body }", 10);
    visitor.visit_fn(&FnContext { path: MODULE, item_fn: &f });
    visitor.visit_block(&BlockContext { path: MODULE, item_fn: &f, block: &body });
    let write = write_statement("a", "v", 20);
    visitor.visit_statement(&StatementContext {
        path: MODULE,
        item_fn: &f,
        blocks: vec![body.span.clone()],
        statement: &write,
    });
    let before = visitor.block_state(MODULE, &f.fn_signature.span, &body.span).unwrap().written.len();
    let mut unknown = Project::new();
    let context = BlockContext { path: MODULE, item_fn: &f, block: &body };
    assert_eq!(visitor.leave_block(&context, &mut unknown), Err(Error::LineNotFound));
    assert!(unknown.report.entries.is_empty());
    let after = visitor.block_state(MODULE, &f.fn_signature.span, &body.span).unwrap();
    assert_eq!(after.written.len(), before);
    assert!(after.logged.is_empty());
    let mut known = project();
    assert_eq!(visitor.leave_block(&context, &mut known), Ok(()));
    assert_eq!(known.report.entries, vec![unlogged("a", 28)]);
}
