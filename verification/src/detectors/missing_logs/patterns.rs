//! The shapes of source that the rule looks for: an import of the logging
//! function, a call of it, and a write to storage.

use vstd::prelude::*;
use crate::detectors::missing_logs::state::{Write, WriteView};
use crate::span::{Ident, Span, SpanView};
use crate::syntax::expr::{Expr, ExprKind, ExprKindView, ExprView, Statement, StatementView};
use crate::syntax::item::{UseTree, UseTreeView};
use crate::syntax::ty::{Path, PathRoot, PathView};

verus! {

/// The name under which an import tree brings in the logging function:
/// `log` for `std::logging::log`, the alias for `std::logging::log as alias`.
/// Any other tree does not import it.
pub open spec fn log_import(tree: UseTreeView) -> Option<Seq<char>> {
    match tree {
        UseTreeView::Path { prefix: first, suffix } => match *suffix {
            UseTreeView::Path { prefix: second, suffix } => {
                if first.name == "std"@ && second.name == "logging"@ {
                    match *suffix {
                        UseTreeView::Name { name } => if name.name == "log"@ {
                            Some(name.name)
                        } else {
                            None
                        },
                        UseTreeView::Rename { name, alias } => if name.name == "log"@ {
                            Some(alias.name)
                        } else {
                            None
                        },
                        _ => None,
                    }
                } else {
                    None
                }
            },
            _ => None,
        },
        _ => None,
    }
}

/// Whether a path names the logging function: a single segment under one of
/// the names it was imported as, or `std::logging::log` in full.
pub open spec fn is_log_path(log_names: Seq<Seq<char>>, path: PathView) -> bool {
    if path.suffix.len() == 0 {
        log_names.contains(path.prefix.name.name)
    } else {
        &&& path.suffix.len() == 2
        &&& path.prefix.name.name == "std"@
        &&& path.suffix[0].name.name == "logging"@
        &&& path.suffix[1].name.name == "log"@
    }
}

/// The span of the value that an expression logs: the one argument of a call
/// of the logging function.
pub open spec fn logged_by(log_names: Seq<Seq<char>>, expr: ExprView) -> Option<SpanView> {
    match expr.kind {
        ExprKindView::FuncApp { func, args } => match func.kind {
            ExprKindView::Path(path) => if args.len() == 1 && is_log_path(log_names, path) {
                Some(args[0].span)
            } else {
                None
            },
            _ => None,
        },
        _ => None,
    }
}

/// The write that a statement makes to storage: `storage.FIELD.write(VALUE);`
/// with a bare name for `VALUE`.
pub open spec fn storage_write(statement: StatementView) -> Option<WriteView> {
    match statement {
        StatementView::Expr(expr) => match expr.kind {
            ExprKindView::MethodCall { target, name, args, .. } => match target.kind {
                ExprKindView::FieldProjection { target: root, name: field } => {
                    if root.kind.is_storage() && name.name.name == "write"@ && args.len() == 1 {
                        match args[0].kind {
                            ExprKindView::Path(value) => if value.root is Local
                                && value.suffix.len() == 0 {
                                Some(WriteView { field: field.span, value: value.prefix.name.span })
                            } else {
                                None
                            },
                            _ => None,
                        }
                    } else {
                        None
                    }
                },
                _ => None,
            },
            _ => None,
        },
        _ => None,
    }
}

/// The name under which `tree` brings in the logging function.
pub fn log_import_of(tree: &UseTree) -> (name: Option<&Ident>)
    ensures
        match name {
            Some(name) => log_import(tree@) == Some(name@.name),
            None => log_import(tree@).is_none(),
        },
{
    if let UseTree::Path { prefix: first, suffix } = tree {
        if let UseTree::Path { prefix: second, suffix: leaf } = &**suffix {
            assert(tree@->Path_suffix->Path_suffix == leaf@) by {
                assert(tree@->Path_suffix == suffix@);
            }
            assert(tree@->Path_suffix->Path_prefix == second@) by {
                assert(tree@->Path_suffix == suffix@);
            }
            if first.is_named("std") && second.is_named("logging") {
                match &**leaf {
                    UseTree::Name { name } => {
                        if name.is_named("log") {
                            return Some(name);
                        }
                    },
                    UseTree::Rename { name, alias } => {
                        if name.is_named("log") {
                            return Some(alias);
                        }
                    },
                    _ => {},
                }
            }
            return None;
        }
        assert(tree@->Path_suffix == suffix@);
    }
    None
}

/// Whether `name` is one of `names`.
fn includes(names: &Vec<String>, name: &Ident) -> (found: bool)
    ensures
        found == names@.map_values(|s: String| s@).contains(name@.name),
{
    let ghost all = names@.map_values(|s: String| s@);
    let mut i: usize = 0;
    while i < names.len()
        invariant
            i <= names.len(),
            all == names@.map_values(|s: String| s@),
            forall|j: int| 0 <= j < i ==> all[j] != name@.name,
        decreases names.len() - i,
    {
        if names[i] == name.name {
            assert(all[i as int] == name@.name);
            return true;
        }
        i += 1;
    }
    false
}

/// Whether `path` names the logging function.
pub fn names_log(log_names: &Vec<String>, path: &Path) -> (named: bool)
    ensures
        named == is_log_path(log_names@.map_values(|s: String| s@), path@),
{
    assert(path@.prefix == path.prefix@);
    assert(path@.suffix.len() == path.suffix.len());
    if path.suffix.len() == 0 {
        includes(log_names, &path.prefix.name)
    } else if path.suffix.len() == 2 {
        assert(path@.suffix[0] == path.suffix[0]@);
        assert(path@.suffix[1] == path.suffix[1]@);
        path.prefix.name.is_named("std") && path.suffix[0].name.is_named("logging")
            && path.suffix[1].name.is_named("log")
    } else {
        false
    }
}

/// The span of the value that `expr` logs, if it logs one.
pub fn logged_span<'a>(log_names: &Vec<String>, expr: &'a Expr) -> (value: Option<&'a Span>)
    ensures
        match value {
            Some(value) => logged_by(log_names@.map_values(|s: String| s@), expr@) == Some(value@),
            None => logged_by(log_names@.map_values(|s: String| s@), expr@).is_none(),
        },
{
    assert(expr@.kind == expr.kind@);
    if let ExprKind::FuncApp { func, args } = &expr.kind {
        assert(func@.kind == func.kind@);
        if let ExprKind::Path(path) = &func.kind {
            assert(func.kind@ == ExprKindView::Path(path@));
            if args.len() == 1 && names_log(log_names, path) {
                assert(Expr::models(args@)[0] == args[0]@);
                return Some(&args[0].span);
            }
        }
    }
    None
}

/// The write that `statement` makes to storage, if it makes one.
pub fn storage_write_of(statement: &Statement) -> (write: Option<Write>)
    ensures
        match write {
            Some(write) => storage_write(statement@) == Some(write@),
            None => storage_write(statement@).is_none(),
        },
{
    if let Statement::Expr(expr) = statement {
        assert(expr@.kind == expr.kind@);
        if let ExprKind::MethodCall { target, name, args, .. } = &expr.kind {
            assert(expr.kind@->MethodCall_name == name@);
            assert(target@.kind == target.kind@);
            if let ExprKind::FieldProjection { target: root, name: field } = &target.kind {
                assert(root@.kind == root.kind@);
                if root.kind.is_storage_root() && name.name.is_named("write") && args.len() == 1 {
                    assert(Expr::models(args@)[0] == args[0]@);
                    assert(args[0]@.kind == args[0].kind@);
                    if let ExprKind::Path(value) = &args[0].kind {
                        assert(args[0].kind@ == ExprKindView::Path(value@));
                        assert(value@.prefix == value.prefix@);
                        assert(value@.root == value.root@);
                        assert(value@.suffix.len() == value.suffix.len());
                        let local = match value.root {
                            PathRoot::Local => true,
                            _ => false,
                        };
                        if local && value.suffix.len() == 0 {
                            return Some(
                                Write {
                                    field: field.span.clone(),
                                    value: value.prefix.name.span.clone(),
                                },
                            );
                        }
                    }
                }
            }
        }
    }
    None
}

} // verus!
