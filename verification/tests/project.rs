use sway_analyzer::error::Error;
use sway_analyzer::project::{Entry, LineRange, Lines, Project, Report, Resolver, Severity};
use sway_analyzer::span::{Ident, Span};
use sway_analyzer::syntax::item::{ItemKind, ItemStruct, TypeField};
use sway_analyzer::syntax::ty::{Path, PathRoot, PathSegment, Ty};

fn segment(name: &str) -> PathSegment {
    PathSegment::named(name)
}

fn path_ty(root: PathRoot, names: &[&str]) -> Ty {
    Ty::Path(Path {
        root,
        prefix: segment(names[0]),
        suffix: names[1..].iter().map(|n| segment(n)).collect(),
        span: Span::dummy(),
    })
}

fn point() -> ItemKind {
    ItemKind::Struct(ItemStruct {
        name: Ident::new_no_span("Point"),
        fields: vec![
            TypeField { name: Ident::new_no_span("x"), ty: Ty::named("u64") },
            TypeField { name: Ident::new_no_span("y"), ty: Ty::named("u64") },
        ],
    })
}

#[test]
fn a_new_report_is_empty() {
    assert!(Report::new().entries.is_empty());
    let project = Project::new();
    assert!(project.report.entries.is_empty());
    assert!(project.resolver.declarations.is_empty());
    assert!(project.lines.files.is_empty());
}

#[test]
fn entries_are_appended_in_order() {
    let mut report = Report::new();
    report.add_entry("a.sw", 3, Severity::High, "first".to_string());
    report.add_entry("b.sw", 7, Severity::Medium, "second".to_string());
    assert_eq!(
        report.entries,
        vec![
            Entry {
                path: "a.sw".to_string(),
                line: 3,
                severity: Severity::High,
                message: "first".to_string(),
            },
            Entry {
                path: "b.sw".to_string(),
                line: 7,
                severity: Severity::Medium,
                message: "second".to_string(),
            },
        ]
    );
}

#[test]
fn an_empty_resolver_knows_nothing() {
    let resolver = Resolver::new();
    assert!(resolver.resolve_ty(&Ty::named("u64")).is_none());
}

#[test]
fn a_type_resolves_by_the_names_of_its_path() {
    let mut resolver = Resolver::new();
    resolver.declare(vec!["u64".to_string()], ItemKind::Other);
    resolver.declare(vec!["geometry".to_string(), "Point".to_string()], point());
    assert_eq!(resolver.resolve_ty(&Ty::named("u64")), Some(&ItemKind::Other));
    assert_eq!(
        resolver.resolve_ty(&path_ty(PathRoot::Local, &["geometry", "Point"])),
        Some(&point())
    );
    assert!(resolver.resolve_ty(&Ty::named("Point")).is_none());
    assert!(resolver.resolve_ty(&path_ty(PathRoot::Local, &["geometry"])).is_none());
    assert!(resolver.resolve_ty(&path_ty(PathRoot::Local, &["geometry", "Point", "x"])).is_none());
}

#[test]
fn generic_arguments_play_no_part_in_resolution() {
    let mut resolver = Resolver::new();
    resolver.declare(vec!["Option".to_string()], ItemKind::Other);
    let ty = Ty::Path(Path {
        root: PathRoot::Local,
        prefix: PathSegment {
            name: Ident::new_no_span("Option"),
            generics: Some(vec![Ty::named("u64")]),
            span: Span::dummy(),
        },
        suffix: vec![],
        span: Span::dummy(),
    });
    assert_eq!(resolver.resolve_ty(&ty), Some(&ItemKind::Other));
}

#[test]
fn the_first_declaration_under_a_path_wins() {
    let mut resolver = Resolver::new();
    resolver.declare(vec!["Point".to_string()], point());
    resolver.declare(vec!["Point".to_string()], ItemKind::Other);
    assert_eq!(resolver.resolve_ty(&Ty::named("Point")), Some(&point()));
}

#[test]
fn only_a_path_from_its_first_segment_resolves() {
    let mut resolver = Resolver::new();
    resolver.declare(vec!["u64".to_string()], ItemKind::Other);
    assert!(resolver.resolve_ty(&path_ty(PathRoot::Global, &["u64"])).is_none());
    assert!(resolver.resolve_ty(&Ty::Tuple(vec![Ty::named("u64")])).is_none());
    assert!(resolver.resolve_ty(&Ty::StringSlice).is_none());
    assert!(resolver.resolve_ty(&Ty::Ptr(Box::new(Ty::named("u64")))).is_none());
}

#[test]
fn path_names_are_compared_in_full() {
    let path = Path {
        root: PathRoot::Local,
        prefix: segment("std"),
        suffix: vec![segment("logging"), segment("log")],
        span: Span::dummy(),
    };
    let names = |v: &[&str]| v.iter().map(|s| s.to_string()).collect::<Vec<_>>();
    assert!(path.is_named(&names(&["std", "logging", "log"])));
    assert!(!path.is_named(&names(&["std", "logging"])));
    assert!(!path.is_named(&names(&["std", "logging", "log", "x"])));
    assert!(!path.is_named(&names(&["std", "logging", "lag"])));
    assert!(!path.is_named(&names(&["core", "logging", "log"])));
    assert!(!path.is_named(&names(&[])));
}

fn range(start: usize, end: usize) -> LineRange {
    LineRange { start, end }
}

#[test]
fn a_span_is_on_the_first_line_that_holds_its_start() {
    let mut lines = Lines::new();
    lines.add_file("a.sw", vec![range(0, 12), range(12, 13), range(13, 40)]);
    assert_eq!(lines.span_to_line("a.sw", &Span::new("x", 0, 1)), Ok(1));
    assert_eq!(lines.span_to_line("a.sw", &Span::new("x", 11, 30)), Ok(1));
    assert_eq!(lines.span_to_line("a.sw", &Span::new("x", 12, 13)), Ok(2));
    assert_eq!(lines.span_to_line("a.sw", &Span::new("x", 13, 14)), Ok(3));
    assert_eq!(lines.span_to_line("a.sw", &Span::new("x", 39, 45)), Ok(3));
    let mut project = Project::new();
    project.lines = lines;
    assert_eq!(project.span_to_line("a.sw", &Span::new("x", 12, 13)), Ok(2));
}

#[test]
fn a_span_that_starts_on_no_line_has_none() {
    let mut lines = Lines::new();
    assert_eq!(lines.span_to_line("a.sw", &Span::new("x", 0, 1)), Err(Error::LineNotFound));
    lines.add_file("a.sw", vec![range(0, 12), range(20, 30), range(30, 30)]);
    lines.add_file("empty.sw", vec![]);
    assert_eq!(lines.span_to_line("a.sw", &Span::new("x", 12, 13)), Err(Error::LineNotFound));
    assert_eq!(lines.span_to_line("a.sw", &Span::new("x", 30, 31)), Err(Error::LineNotFound));
    assert_eq!(lines.span_to_line("a.sw", &Span::new("x", 19, 25)), Err(Error::LineNotFound));
    assert_eq!(lines.span_to_line("a.sw", &Span::new("x", 20, 25)), Ok(2));
    assert_eq!(lines.span_to_line("b.sw", &Span::new("x", 0, 1)), Err(Error::LineNotFound));
    assert_eq!(lines.span_to_line("empty.sw", &Span::new("x", 0, 1)), Err(Error::LineNotFound));
    assert_eq!(Error::LineNotFound.describe(), "span that starts on no known line");
}

#[test]
fn of_two_files_under_one_path_the_first_counts() {
    let mut lines = Lines::new();
    lines.add_file("a.sw", vec![range(0, 5)]);
    lines.add_file("a.sw", vec![range(5, 9), range(0, 5)]);
    lines.add_file("b.sw", vec![range(0, 9), range(0, 9)]);
    assert_eq!(lines.files.len(), 3);
    assert_eq!(lines.span_to_line("a.sw", &Span::new("x", 2, 3)), Ok(1));
    assert_eq!(lines.span_to_line("a.sw", &Span::new("x", 6, 7)), Err(Error::LineNotFound));
    assert_eq!(lines.span_to_line("b.sw", &Span::new("x", 2, 3)), Ok(1));
}
