use sway_analyzer::scope::{AstScope, AstVariable, AstVariableKind, VariableId};
use sway_analyzer::syntax::ty::Ty;

fn variable(kind: AstVariableKind, name: &str, ty: Ty) -> AstVariable {
    AstVariable { kind, name: name.to_string(), ty }
}

#[test]
fn lookup_in_an_empty_tree_finds_nothing() {
    let scope = AstScope::new();
    assert_eq!(scope.current(), 0);
    assert_eq!(scope.get_variable("x", false), None);
    assert_eq!(scope.get_variable("x", true), None);
}

#[test]
fn lookup_finds_a_local_by_name() {
    let mut scope = AstScope::new();
    let id = scope.declare(variable(AstVariableKind::Local, "x", Ty::named("u64")));
    assert_eq!(id, VariableId { scope: 0, slot: 0 });
    assert_eq!(scope.get_variable("x", false), Some(id));
    assert_eq!(scope.get_variable("y", false), None);
}

#[test]
fn lookup_never_crosses_between_storage_and_other_names() {
    let mut scope = AstScope::new();
    let stored = scope.declare(variable(AstVariableKind::Storage, "balance", Ty::named("u64")));
    let local = scope.declare(variable(AstVariableKind::Local, "balance", Ty::named("bool")));
    assert_eq!(scope.get_variable("balance", true), Some(stored));
    assert_eq!(scope.get_variable("balance", false), Some(local));
    assert_eq!(scope.variable(stored).unwrap().kind, AstVariableKind::Storage);
    assert_eq!(scope.variable(local).unwrap().kind, AstVariableKind::Local);
}

#[test]
fn storage_query_misses_where_only_a_local_has_the_name() {
    let mut scope = AstScope::new();
    scope.declare(variable(AstVariableKind::Local, "total", Ty::named("u64")));
    assert_eq!(scope.get_variable("total", true), None);
}

#[test]
fn local_query_misses_where_only_storage_has_the_name() {
    let mut scope = AstScope::new();
    scope.declare(variable(AstVariableKind::Storage, "total", Ty::named("u64")));
    assert_eq!(scope.get_variable("total", false), None);
}

#[test]
fn every_kind_but_storage_is_on_the_local_side() {
    let kinds = [
        AstVariableKind::Constant,
        AstVariableKind::Configurable,
        AstVariableKind::Parameter,
        AstVariableKind::Local,
    ];
    for kind in kinds {
        let mut scope = AstScope::new();
        let id = scope.declare(variable(kind, "n", Ty::named("u64")));
        assert_eq!(scope.get_variable("n", false), Some(id));
        assert_eq!(scope.get_variable("n", true), None);
    }
}

#[test]
fn the_most_recent_of_two_locals_shadows_the_other() {
    let mut scope = AstScope::new();
    let first = scope.declare(variable(AstVariableKind::Local, "x", Ty::named("u64")));
    let second = scope.declare(variable(AstVariableKind::Local, "x", Ty::named("bool")));
    assert_ne!(first, second);
    assert_eq!(scope.get_variable("x", false), Some(second));
    assert_eq!(scope.variable(second).unwrap().ty, Ty::named("bool"));
}

#[test]
fn a_miss_is_handed_to_the_parent() {
    let mut scope = AstScope::new();
    let outer = scope.declare(variable(AstVariableKind::Constant, "LIMIT", Ty::named("u64")));
    let function = scope.enter();
    assert_eq!(function, 1);
    scope.declare(variable(AstVariableKind::Parameter, "amount", Ty::named("u64")));
    let block = scope.enter();
    assert_eq!(block, 2);
    assert_eq!(scope.current(), 2);
    assert_eq!(scope.get_variable("LIMIT", false), Some(outer));
    assert_eq!(scope.get_variable("amount", false), Some(VariableId { scope: 1, slot: 0 }));
}

#[test]
fn an_inner_declaration_shadows_an_outer_one() {
    let mut scope = AstScope::new();
    let outer = scope.declare(variable(AstVariableKind::Local, "x", Ty::named("u64")));
    scope.enter();
    let inner = scope.declare(variable(AstVariableKind::Local, "x", Ty::named("bool")));
    assert_eq!(scope.get_variable("x", false), Some(inner));
    scope.leave();
    assert_eq!(scope.get_variable("x", false), Some(outer));
}

#[test]
fn sibling_scopes_share_their_parent_and_not_each_other() {
    let mut scope = AstScope::new();
    let shared = scope.declare(variable(AstVariableKind::Local, "shared", Ty::named("u64")));
    scope.enter();
    scope.declare(variable(AstVariableKind::Local, "left", Ty::named("u64")));
    scope.leave();
    scope.enter();
    assert_eq!(scope.current(), 2);
    assert_eq!(scope.get_variable("shared", false), Some(shared));
    assert_eq!(scope.get_variable("left", false), None);
}

#[test]
fn leaving_the_root_changes_nothing() {
    let mut scope = AstScope::new();
    scope.leave();
    assert_eq!(scope.current(), 0);
}

#[test]
fn an_id_that_names_no_record_gives_none() {
    let scope = AstScope::new();
    assert!(scope.variable(VariableId { scope: 0, slot: 0 }).is_none());
    assert!(scope.variable(VariableId { scope: 3, slot: 0 }).is_none());
}

#[test]
fn a_lookup_gives_the_record_itself() {
    let mut scope = AstScope::new();
    scope.declare(variable(AstVariableKind::Local, "x", Ty::named("u64")));
    let first = scope.get_variable("x", false).unwrap();
    let second = scope.get_variable("x", false).unwrap();
    assert_eq!(first, second);
    assert!(std::ptr::eq(scope.variable(first).unwrap(), scope.variable(second).unwrap()));
}

fn import(name: &str) -> sway_analyzer::syntax::item::ItemUse {
    sway_analyzer::syntax::item::ItemUse {
        tree: sway_analyzer::syntax::item::UseTree::Name {
            name: sway_analyzer::span::Ident::new_no_span(name),
        },
    }
}

fn signature(name: &str) -> sway_analyzer::syntax::item::FnSignature {
    sway_analyzer::syntax::item::FnSignature {
        name: sway_analyzer::span::Ident::new_no_span(name),
        arguments: sway_analyzer::syntax::item::FnArgs::Static(vec![]),
        return_type: None,
        where_clause: None,
        span: sway_analyzer::span::Span::dummy(),
    }
}

#[test]
fn imports_in_sight_start_with_the_outermost_scope() {
    let mut scope = AstScope::new();
    assert!(scope.uses_in_sight().is_empty());
    scope.add_use(import("a"));
    scope.add_use(import("b"));
    scope.enter();
    scope.add_use(import("c"));
    scope.leave();
    scope.enter();
    scope.add_use(import("d"));
    scope.enter();
    scope.add_use(import("e"));
    assert_eq!(
        scope.uses_in_sight(),
        vec![&import("a"), &import("b"), &import("d"), &import("e")]
    );
    scope.leave();
    scope.leave();
    assert_eq!(scope.uses_in_sight(), vec![&import("a"), &import("b")]);
}

#[test]
fn functions_are_recorded_in_the_current_scope() {
    let mut scope = AstScope::new();
    scope.add_function(signature("f"));
    assert_eq!(scope.parent(), None);
    scope.enter();
    assert_eq!(scope.parent(), Some(0));
    assert!(scope.functions().is_empty());
    scope.add_function(signature("g"));
    scope.add_function(signature("h"));
    assert_eq!(scope.functions(), &vec![signature("g"), signature("h")]);
    scope.leave();
    assert_eq!(scope.functions(), &vec![signature("f")]);
}

#[test]
fn defaults_are_fresh() {
    let scope = AstScope::default();
    assert_eq!(scope.current(), 0);
    assert_eq!(scope.get_variable("x", false), None);
    let record = variable(AstVariableKind::Parameter, "x", Ty::named("u64"));
    assert_eq!(record.clone(), record);
}

#[test]
fn a_change_to_a_record_is_seen_through_every_id_of_it() {
    let mut scope = AstScope::new();
    scope.declare(variable(AstVariableKind::Local, "x", Ty::Infer));
    scope.enter();
    let first = scope.get_variable("x", false).unwrap();
    let second = scope.get_variable("x", false).unwrap();
    assert!(scope.retype(first, Ty::named("u64")));
    assert_eq!(scope.variable(second).unwrap().ty, Ty::named("u64"));
    assert_eq!(scope.get_variable("x", false), Some(first));
    assert_eq!(scope.variable(first).unwrap().kind, AstVariableKind::Local);
    assert_eq!(scope.variable(first).unwrap().name, "x");
    assert!(!scope.retype(VariableId { scope: 9, slot: 0 }, Ty::Never));
    assert!(!scope.retype(VariableId { scope: 0, slot: 9 }, Ty::Never));
    assert_eq!(scope.variable(first).unwrap().ty, Ty::named("u64"));
}
