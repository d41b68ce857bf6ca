//! Counting uses: every construct that can refer to an imported name is
//! matched against the registered names.

use vstd::prelude::*;
use crate::detectors::references::{
    args_refs, block_refs, bounds_refs, branches_refs, const_refs, expr_refs, exprs_refs,
    fields_refs, let_refs, opt_expr_refs, opt_ty_refs, path_type_refs, paths_refs,
    pattern_field_refs, pattern_fields_refs, pattern_refs, patterns_refs, signature_refs,
    statement_refs, statements_refs, storage_field_refs, Texts, trait_refs, trait_type_refs,
    traits_refs, ty_refs, tys_refs, where_refs,
};
use crate::detectors::unused_import::state::{ModuleState, ModuleStateView};
use crate::syntax::expr::{
    Block, Expr, ExprField, ExprKind, ExprKindView, ExprView, MatchBranch, Pattern,
    PatternField, Statement,
};
use crate::syntax::item::{
    FnArg, FnArgs, FnArgsView, FnSignature, ItemConst, ItemTrait, StorageField, Traits,
    TraitType, WhereBound, WhereBoundView,
};
use crate::syntax::ty::{Path, PathRoot, PathRootView, Ty, TyView};

verus! {

/// Seeing two runs of texts one after the other is seeing the one run that
/// they make together.
pub proof fn lemma_used_all_concat(state: ModuleStateView, first: Texts, second: Texts)
    ensures
        state.used_all(first + second) == state.used_all(first).used_all(second),
    decreases second.len(),
{
    if second.len() == 0 {
        assert(first + second =~= first);
    } else {
        lemma_used_all_concat(state, first, second.drop_last());
        assert((first + second).drop_last() =~= first + second.drop_last());
        assert((first + second).last() == second.last());
    }
}

/// Seeing a run of one text is seeing that text.
pub proof fn lemma_used_all_one(state: ModuleStateView, text: Seq<char>)
    ensures
        state.used_all(seq![text]) == state.used(text),
{
    assert(seq![text].drop_last() =~= Seq::<Seq<char>>::empty());
    assert(state.used_all(Seq::<Seq<char>>::empty()) == state);
}

impl ModuleState {
    /// Counts what a run of types refers to.
    fn check_tys_usage(&mut self, tys: &Vec<Ty>)
        ensures
            final(self)@ == old(self)@.used_all(tys_refs(Ty::models(tys@))),
        decreases tys,
    {
        let ghost all = Ty::models(tys@);
        assert(all.take(0) =~= Seq::empty());
        let mut i: usize = 0;
        while i < tys.len()
            invariant
                all == Ty::models(tys@),
                i <= tys.len(),
                self@ == old(self)@.used_all(tys_refs(all.take(i as int))),
            decreases tys.len() - i,
        {
            assert(all.take(i + 1).drop_last() =~= all.take(i as int));
            assert(all.take(i + 1).last() == tys[i as int]@);
            proof {
                lemma_used_all_concat(
                    old(self)@,
                    tys_refs(all.take(i as int)),
                    ty_refs(tys[i as int]@),
                );
            }
            self.check_ty_usage(&tys[i]);
            i += 1;
        }
        assert(all.take(i as int) =~= all);
    }

    /// Counts what a run of patterns refers to.
    fn check_patterns_usage(&mut self, patterns: &Vec<Pattern>)
        ensures
            final(self)@ == old(self)@.used_all(patterns_refs(Pattern::models(patterns@))),
        decreases patterns,
    {
        let ghost all = Pattern::models(patterns@);
        assert(all.take(0) =~= Seq::empty());
        let mut i: usize = 0;
        while i < patterns.len()
            invariant
                all == Pattern::models(patterns@),
                i <= patterns.len(),
                self@ == old(self)@.used_all(patterns_refs(all.take(i as int))),
            decreases patterns.len() - i,
        {
            assert(all.take(i + 1).drop_last() =~= all.take(i as int));
            assert(all.take(i + 1).last() == patterns[i as int]@);
            proof {
                lemma_used_all_concat(
                    old(self)@,
                    patterns_refs(all.take(i as int)),
                    pattern_refs(patterns[i as int]@),
                );
            }
            self.check_pattern_usage(&patterns[i]);
            i += 1;
        }
        assert(all.take(i as int) =~= all);
    }

    /// Counts what the fields of a struct pattern refer to.
    fn check_pattern_fields_usage(&mut self, fields: &Vec<PatternField>)
        ensures
            final(self)@ == old(self)@.used_all(pattern_fields_refs(PatternField::models(fields@))),
        decreases fields,
    {
        let ghost all = PatternField::models(fields@);
        assert(all.take(0) =~= Seq::empty());
        let mut i: usize = 0;
        while i < fields.len()
            invariant
                all == PatternField::models(fields@),
                i <= fields.len(),
                self@ == old(self)@.used_all(pattern_fields_refs(all.take(i as int))),
            decreases fields.len() - i,
        {
            assert(all.take(i + 1).drop_last() =~= all.take(i as int));
            assert(all.take(i + 1).last() == fields[i as int]@);
            proof {
                lemma_used_all_concat(
                    old(self)@,
                    pattern_fields_refs(all.take(i as int)),
                    pattern_field_refs(fields[i as int]@),
                );
            }
            self.check_pattern_field_usage(&fields[i]);
            i += 1;
        }
        assert(all.take(i as int) =~= all);
    }

    /// Counts what a run of expressions refers to.
    fn check_exprs_usage(&mut self, exprs: &Vec<Expr>)
        ensures
            final(self)@ == old(self)@.used_all(exprs_refs(Expr::models(exprs@))),
        decreases exprs,
    {
        let ghost all = Expr::models(exprs@);
        assert(all.take(0) =~= Seq::empty());
        let mut i: usize = 0;
        while i < exprs.len()
            invariant
                all == Expr::models(exprs@),
                i <= exprs.len(),
                self@ == old(self)@.used_all(exprs_refs(all.take(i as int))),
            decreases exprs.len() - i,
        {
            assert(all.take(i + 1).drop_last() =~= all.take(i as int));
            assert(all.take(i + 1).last() == exprs[i as int]@);
            proof {
                lemma_used_all_concat(
                    old(self)@,
                    exprs_refs(all.take(i as int)),
                    expr_refs(exprs[i as int]@),
                );
            }
            self.check_expr_usage(&exprs[i]);
            i += 1;
        }
        assert(all.take(i as int) =~= all);
    }

    /// Counts what the values of a run of struct literal fields refer to.
    fn check_fields_usage(&mut self, fields: &Vec<ExprField>)
        ensures
            final(self)@ == old(self)@.used_all(fields_refs(ExprField::models(fields@))),
        decreases fields,
    {
        let ghost all = ExprField::models(fields@);
        assert(all.take(0) =~= Seq::empty());
        let mut i: usize = 0;
        while i < fields.len()
            invariant
                all == ExprField::models(fields@),
                i <= fields.len(),
                self@ == old(self)@.used_all(fields_refs(all.take(i as int))),
            decreases fields.len() - i,
        {
            assert(all.take(i + 1).drop_last() =~= all.take(i as int));
            assert(all.take(i + 1).last() == fields[i as int]@);
            proof {
                lemma_used_all_concat(
                    old(self)@,
                    fields_refs(all.take(i as int)),
                    opt_expr_refs(fields[i as int]@.value),
                );
            }
            self.check_opt_expr_usage(&fields[i].value);
            i += 1;
        }
        assert(all.take(i as int) =~= all);
    }

    /// Counts what the bodies of a run of `match` arms refer to.
    fn check_branches_usage(&mut self, branches: &Vec<MatchBranch>)
        ensures
            final(self)@ == old(self)@.used_all(branches_refs(MatchBranch::models(branches@))),
        decreases branches,
    {
        let ghost all = MatchBranch::models(branches@);
        assert(all.take(0) =~= Seq::empty());
        let mut i: usize = 0;
        while i < branches.len()
            invariant
                all == MatchBranch::models(branches@),
                i <= branches.len(),
                self@ == old(self)@.used_all(branches_refs(all.take(i as int))),
            decreases branches.len() - i,
        {
            assert(all.take(i + 1).drop_last() =~= all.take(i as int));
            assert(all.take(i + 1).last() == branches[i as int]@);
            proof {
                lemma_used_all_concat(
                    old(self)@,
                    branches_refs(all.take(i as int)),
                    expr_refs(branches[i as int]@.body),
                );
            }
            self.check_expr_usage(&branches[i].body);
            i += 1;
        }
        assert(all.take(i as int) =~= all);
    }

    /// Counts what a run of statements refers to.
    fn check_statements_usage(&mut self, statements: &Vec<Statement>)
        ensures
            final(self)@ == old(self)@.used_all(statements_refs(Statement::models(statements@))),
        decreases statements,
    {
        let ghost all = Statement::models(statements@);
        assert(all.take(0) =~= Seq::empty());
        let mut i: usize = 0;
        while i < statements.len()
            invariant
                all == Statement::models(statements@),
                i <= statements.len(),
                self@ == old(self)@.used_all(statements_refs(all.take(i as int))),
            decreases statements.len() - i,
        {
            assert(all.take(i + 1).drop_last() =~= all.take(i as int));
            assert(all.take(i + 1).last() == statements[i as int]@);
            proof {
                lemma_used_all_concat(
                    old(self)@,
                    statements_refs(all.take(i as int)),
                    statement_refs(statements[i as int]@),
                );
            }
            self.check_statement_usage(&statements[i]);
            i += 1;
        }
        assert(all.take(i as int) =~= all);
    }

    /// Counts what a field of a struct pattern refers to.
    fn check_pattern_field_usage(&mut self, field: &PatternField)
        ensures
            final(self)@ == old(self)@.used_all(pattern_field_refs(field@)),
        decreases field,
    {
        match field {
            PatternField::Field { pattern: Some(pattern), .. } => {
                self.check_pattern_usage(pattern);
            },
            _ => {},
        }
    }

    /// Counts what an expression refers to, if there is one.
    fn check_opt_expr_usage(&mut self, expr: &Option<Box<Expr>>)
        ensures
            final(self)@ == old(self)@.used_all(
                opt_expr_refs(
                    match expr {
                        Some(expr) => Some(Box::new(expr@)),
                        None => None,
                    },
                ),
            ),
        decreases expr,
    {
        match expr {
            Some(expr) => {
                self.check_expr_usage(expr);
            },
            None => {},
        }
    }

    /// Counts what a statement refers to.
    fn check_statement_usage(&mut self, statement: &Statement)
        ensures
            final(self)@ == old(self)@.used_all(statement_refs(statement@)),
        decreases statement,
    {
        match statement {
            Statement::Let { expr, .. } => {
                self.check_expr_usage(expr);
            },
            Statement::Expr(expr) => {
                self.check_expr_usage(expr);
            },
            Statement::Item(_) | Statement::Error => {},
        }
    }

    /// Counts what a block refers to.
    fn check_block_usage(&mut self, block: &Block)
        ensures
            final(self)@ == old(self)@.used_all(block_refs(block@)),
        decreases block,
    {
        proof {
            lemma_used_all_concat(
                old(self)@,
                statements_refs(block@.statements),
                opt_expr_refs(block@.final_expr),
            );
        }
        self.check_statements_usage(&block.statements);
        self.check_opt_expr_usage(&block.final_expr);
    }

    /// Counts what an `if`, a `match` or a loop refers to.
    #[verifier::rlimit(30)]
    fn check_branching_usage(&mut self, expr: &Expr)
        requires
            expr.kind is If || expr.kind is Match || expr.kind is While || expr.kind is For,
        ensures
            final(self)@ == old(self)@.used_all(expr_refs(expr@)),
        decreases expr, 0nat,
    {
        assert(expr@.kind == expr.kind@);
        let ghost before = self@;
        match &expr.kind {
            ExprKind::If { condition, then_block, else_branch, .. } => {
                assert(expr.kind@->If_then_block == then_block@);
                let ghost else_view: Option<Box<ExprView>> = match else_branch {
                    Some(branch) => Some(Box::new(branch@)),
                    None => None,
                };
                proof {
                    lemma_used_all_concat(
                        before,
                        expr_refs(condition@) + block_refs(then_block@),
                        opt_expr_refs(else_view),
                    );
                    lemma_used_all_concat(before, expr_refs(condition@), block_refs(then_block@));
                }
                self.check_expr_usage(condition);
                self.check_block_usage(then_block);
                self.check_opt_expr_usage(else_branch);
            },
            ExprKind::Match { value, branches } => {
                proof {
                    lemma_used_all_concat(
                        before,
                        expr_refs(value@),
                        branches_refs(MatchBranch::models(branches@)),
                    );
                }
                self.check_expr_usage(value);
                self.check_branches_usage(branches);
            },
            ExprKind::While { condition, block } => {
                assert(expr.kind@->While_block == block@);
                proof {
                    lemma_used_all_concat(before, expr_refs(condition@), block_refs(block@));
                }
                self.check_expr_usage(condition);
                self.check_block_usage(block);
            },
            ExprKind::For { iterator, block, .. } => {
                assert(expr.kind@->For_block == block@);
                proof {
                    lemma_used_all_concat(before, expr_refs(iterator@), block_refs(block@));
                }
                self.check_expr_usage(iterator);
                self.check_block_usage(block);
            },
            _ => {},
        }
    }

    /// Counts what a call, an index, a repeated array, an operator with two
    /// operands or an assignment refers to.
    #[verifier::rlimit(30)]
    fn check_operands_usage(&mut self, expr: &Expr)
        requires
            expr.kind is FuncApp || expr.kind is MethodCall || expr.kind is Index
                || expr.kind is ArrayRepeat || expr.kind is Binary || expr.kind is Reassignment,
        ensures
            final(self)@ == old(self)@.used_all(expr_refs(expr@)),
        decreases expr, 0nat,
    {
        assert(expr@.kind == expr.kind@);
        let ghost before = self@;
        match &expr.kind {
            ExprKind::ArrayRepeat { value, length } => {
                proof {
                    lemma_used_all_concat(before, expr_refs(value@), expr_refs(length@));
                }
                self.check_expr_usage(value);
                self.check_expr_usage(length);
            },
            ExprKind::FuncApp { func, args } => {
                proof {
                    lemma_used_all_concat(
                        before,
                        expr_refs(func@),
                        exprs_refs(Expr::models(args@)),
                    );
                }
                self.check_expr_usage(func);
                self.check_exprs_usage(args);
            },
            ExprKind::Index { target, arg } => {
                proof {
                    lemma_used_all_concat(before, expr_refs(target@), expr_refs(arg@));
                }
                self.check_expr_usage(target);
                self.check_expr_usage(arg);
            },
            ExprKind::MethodCall { target, contract_args, args, .. } => {
                proof {
                    lemma_used_all_concat(
                        before,
                        expr_refs(target@) + fields_refs(ExprField::models(contract_args@)),
                        exprs_refs(Expr::models(args@)),
                    );
                    lemma_used_all_concat(
                        before,
                        expr_refs(target@),
                        fields_refs(ExprField::models(contract_args@)),
                    );
                }
                self.check_expr_usage(target);
                self.check_fields_usage(contract_args);
                self.check_exprs_usage(args);
            },
            ExprKind::Binary { lhs, rhs, .. } => {
                proof {
                    lemma_used_all_concat(before, expr_refs(lhs@), expr_refs(rhs@));
                }
                self.check_expr_usage(lhs);
                self.check_expr_usage(rhs);
            },
            ExprKind::Reassignment { target, value } => {
                proof {
                    lemma_used_all_concat(before, expr_refs(target@), expr_refs(value@));
                }
                self.check_expr_usage(target);
                self.check_expr_usage(value);
            },
            _ => {},
        }
    }

    /// Counts every path expression in `expr` as a use of the import that is
    /// spelled like its first segment.
    #[verifier::rlimit(30)]
    pub fn check_expr_usage(&mut self, expr: &Expr)
        ensures
            final(self)@ == old(self)@.used_all(expr_refs(expr@)),
        decreases expr, 1nat,
    {
        assert(expr@.kind == expr.kind@);
        let ghost before = self@;
        match &expr.kind {
            ExprKind::Path(path) => {
                assert(expr.kind@ == ExprKindView::Path(path@));
                assert(path@.prefix == path.prefix@);
                proof {
                    lemma_used_all_one(before, path.prefix.span@.text);
                }
                self.check_span_usage(&path.prefix.span);
            },
            ExprKind::AbiCast { address, .. } => {
                self.check_expr_usage(address);
            },
            ExprKind::Struct { fields, .. } => {
                self.check_fields_usage(fields);
            },
            ExprKind::Tuple(elems) => {
                self.check_exprs_usage(elems);
            },
            ExprKind::Parens(inner) => {
                self.check_expr_usage(inner);
            },
            ExprKind::Block(block) => {
                assert(expr.kind@ == ExprKindView::Block(block@));
                self.check_block_usage(block);
            },
            ExprKind::ArraySequence(elems) => {
                self.check_exprs_usage(elems);
            },
            ExprKind::Asm { registers } => {
                self.check_exprs_usage(registers);
            },
            ExprKind::Return(value) => {
                self.check_opt_expr_usage(value);
            },
            ExprKind::If { .. }
            | ExprKind::Match { .. }
            | ExprKind::While { .. }
            | ExprKind::For { .. } => {
                self.check_branching_usage(expr);
            },
            ExprKind::FuncApp { .. }
            | ExprKind::MethodCall { .. }
            | ExprKind::Index { .. }
            | ExprKind::ArrayRepeat { .. }
            | ExprKind::Binary { .. }
            | ExprKind::Reassignment { .. } => {
                self.check_operands_usage(expr);
            },
            ExprKind::FieldProjection { target, .. } => {
                self.check_expr_usage(target);
            },
            ExprKind::TupleFieldProjection { target, .. } => {
                self.check_expr_usage(target);
            },
            ExprKind::Ref { expr: inner, .. } => {
                self.check_expr_usage(inner);
            },
            ExprKind::Deref(inner) => {
                self.check_expr_usage(inner);
            },
            ExprKind::Not(inner) => {
                self.check_expr_usage(inner);
            },
            ExprKind::Error | ExprKind::Literal(_) | ExprKind::Break | ExprKind::Continue => {},
        }
    }

    /// Counts every constructor and struct pattern in `pattern` as a use of
    /// the import that is spelled like its path.
    pub fn check_pattern_usage(&mut self, pattern: &Pattern)
        ensures
            final(self)@ == old(self)@.used_all(pattern_refs(pattern@)),
        decreases pattern,
    {
        let ghost before = self@;
        match pattern {
            Pattern::Or { lhs, rhs } => {
                proof {
                    lemma_used_all_concat(before, pattern_refs(lhs@), pattern_refs(rhs@));
                }
                self.check_pattern_usage(lhs);
                self.check_pattern_usage(rhs);
            },
            Pattern::Constructor { path, args } => {
                assert(pattern@->Constructor_path == path@);
                proof {
                    lemma_used_all_one(before, path.span@.text);
                    lemma_used_all_concat(
                        before,
                        seq![path.span@.text],
                        patterns_refs(Pattern::models(args@)),
                    );
                }
                self.check_span_usage(&path.span);
                self.check_patterns_usage(args);
            },
            Pattern::Struct { path, fields } => {
                assert(pattern@->Struct_path == path@);
                proof {
                    lemma_used_all_one(before, path.span@.text);
                    lemma_used_all_concat(
                        before,
                        seq![path.span@.text],
                        pattern_fields_refs(PatternField::models(fields@)),
                    );
                }
                self.check_span_usage(&path.span);
                self.check_pattern_fields_usage(fields);
            },
            Pattern::Tuple(elems) => {
                self.check_patterns_usage(elems);
            },
            Pattern::Wildcard
            | Pattern::AmbiguousSingleIdent(_)
            | Pattern::Var { .. }
            | Pattern::Literal(_)
            | Pattern::Constant(_)
            | Pattern::Error => {},
        }
    }

    /// Counts a path type as a use of the import that is spelled like the
    /// name of its first segment, and counts what its generic arguments and
    /// its qualified root refer to.
    pub fn check_path_type_usage(&mut self, path: &Path)
        ensures
            final(self)@ == old(self)@.used_all(path_type_refs(path@)),
        decreases path,
    {
        let ghost before = self@;
        let ghost name = seq![path.prefix.name.span@.text];
        let ghost generics: Texts = match path.prefix@.generics {
            Some(args) => tys_refs(args),
            None => Seq::empty(),
        };
        let ghost root: Texts = match path.root@ {
            PathRootView::Qualified { ty, as_trait } => ty_refs(*ty) + (match as_trait {
                Some(path) => path_type_refs(*path),
                None => Seq::empty(),
            }),
            _ => Seq::empty(),
        };
        proof {
            assert(path@.prefix == path.prefix@);
            assert(path@.root == path.root@);
            assert(path_type_refs(path@) == name + generics + root);
            lemma_used_all_one(before, path.prefix.name.span@.text);
            lemma_used_all_concat(before, name + generics, root);
            lemma_used_all_concat(before, name, generics);
        }
        self.check_span_usage(&path.prefix.name.span);
        match &path.prefix.generics {
            Some(args) => {
                self.check_tys_usage(args);
            },
            None => {},
        }
        match &path.root {
            PathRoot::Qualified { ty, as_trait } => {
                let ghost middle = self@;
                let ghost rest: Texts = match path.root@ {
                    PathRootView::Qualified { as_trait: Some(path), .. } => path_type_refs(*path),
                    _ => Seq::empty(),
                };
                proof {
                    lemma_used_all_concat(middle, ty_refs(ty@), rest);
                }
                self.check_ty_usage(ty);
                match as_trait {
                    Some(as_trait) => {
                        self.check_path_type_usage(as_trait);
                    },
                    None => {},
                }
            },
            _ => {},
        }
    }

    /// Counts what a written type refers to.
    pub fn check_ty_usage(&mut self, ty: &Ty)
        ensures
            final(self)@ == old(self)@.used_all(ty_refs(ty@)),
        decreases ty,
    {
        let ghost before = self@;
        match ty {
            Ty::Path(path) => {
                self.check_path_type_usage(path);
            },
            Ty::Tuple(elems) => {
                self.check_tys_usage(elems);
            },
            Ty::Array { ty: elem, length } => {
                proof {
                    lemma_used_all_concat(before, ty_refs(elem@), expr_refs(length@));
                }
                self.check_ty_usage(elem);
                self.check_expr_usage(length);
            },
            Ty::Ptr(inner) => {
                self.check_ty_usage(inner);
            },
            Ty::Slice(inner) => {
                self.check_ty_usage(inner);
            },
            Ty::Ref { ty: inner, .. } => {
                self.check_ty_usage(inner);
            },
            Ty::StringSlice | Ty::StringArray { .. } | Ty::Infer | Ty::Never => {},
        }
    }
}


impl ModuleState {
    /// Counts what a run of path types refers to.
    fn check_paths_usage(&mut self, paths: &Vec<Path>)
        ensures
            final(self)@ == old(self)@.used_all(paths_refs(Path::models(paths@))),
    {
        let ghost all = Path::models(paths@);
        assert(all.take(0) =~= Seq::empty());
        let mut i: usize = 0;
        while i < paths.len()
            invariant
                all == Path::models(paths@),
                i <= paths.len(),
                self@ == old(self)@.used_all(paths_refs(all.take(i as int))),
            decreases paths.len() - i,
        {
            assert(all.take(i + 1).drop_last() =~= all.take(i as int));
            assert(all.take(i + 1).last() == paths[i as int]@);
            proof {
                lemma_used_all_concat(
                    old(self)@,
                    paths_refs(all.take(i as int)),
                    path_type_refs(paths[i as int]@),
                );
            }
            self.check_path_type_usage(&paths[i]);
            i += 1;
        }
        assert(all.take(i as int) =~= all);
    }

    /// Counts what the traits of a bound refer to.
    pub fn check_traits_usage(&mut self, traits: &Traits)
        ensures
            final(self)@ == old(self)@.used_all(traits_refs(traits@)),
    {
        proof {
            lemma_used_all_concat(
                old(self)@,
                path_type_refs(traits@.prefix),
                paths_refs(traits@.suffixes),
            );
        }
        self.check_path_type_usage(&traits.prefix);
        self.check_paths_usage(&traits.suffixes);
    }

    /// Counts what the bounds of a `where` clause refer to.
    fn check_bounds_usage(&mut self, bounds: &Vec<WhereBound>)
        ensures
            final(self)@ == old(self)@.used_all(
                bounds_refs(WhereBound::models(bounds@)),
            ),
    {
        let ghost all = WhereBound::models(bounds@);
        assert(all.take(0) =~= Seq::empty());
        let mut i: usize = 0;
        while i < bounds.len()
            invariant
                all == WhereBound::models(bounds@),
                i <= bounds.len(),
                self@ == old(self)@.used_all(bounds_refs(all.take(i as int))),
            decreases bounds.len() - i,
        {
            assert(all.take(i + 1).drop_last() =~= all.take(i as int));
            assert(all.take(i + 1).last() == bounds[i as int]@);
            proof {
                lemma_used_all_concat(
                    old(self)@,
                    bounds_refs(all.take(i as int)),
                    traits_refs(bounds[i as int]@.bounds),
                );
            }
            self.check_traits_usage(&bounds[i].bounds);
            i += 1;
        }
        assert(all.take(i as int) =~= all);
    }

    /// Counts what a `where` clause refers to, if there is one.
    pub fn check_where_usage(&mut self, clause: &Option<Vec<WhereBound>>)
        ensures
            final(self)@ == old(self)@.used_all(
                where_refs(
                    match clause {
                        Some(bounds) => Some(WhereBound::models(bounds@)),
                        None => None,
                    },
                ),
            ),
    {
        match clause {
            Some(bounds) => {
                self.check_bounds_usage(bounds);
            },
            None => {},
        }
    }

    /// Counts what the arguments of a function refer to.
    fn check_args_usage(&mut self, args: &Vec<FnArg>)
        ensures
            final(self)@ == old(self)@.used_all(args_refs(FnArg::models(args@))),
    {
        let ghost all = FnArg::models(args@);
        assert(all.take(0) =~= Seq::empty());
        let mut i: usize = 0;
        while i < args.len()
            invariant
                all == FnArg::models(args@),
                i <= args.len(),
                self@ == old(self)@.used_all(args_refs(all.take(i as int))),
            decreases args.len() - i,
        {
            assert(all.take(i + 1).drop_last() =~= all.take(i as int));
            assert(all.take(i + 1).last() == args[i as int]@);
            let ghost before = self@;
            proof {
                lemma_used_all_concat(
                    old(self)@,
                    args_refs(all.take(i as int)),
                    pattern_refs(args[i as int]@.pattern) + ty_refs(args[i as int]@.ty),
                );
                lemma_used_all_concat(
                    before,
                    pattern_refs(args[i as int]@.pattern),
                    ty_refs(args[i as int]@.ty),
                );
            }
            self.check_pattern_usage(&args[i].pattern);
            self.check_ty_usage(&args[i].ty);
            i += 1;
        }
        assert(all.take(i as int) =~= all);
    }

    /// Counts what a function's signature refers to.
    pub fn check_signature_usage(&mut self, signature: &FnSignature)
        ensures
            final(self)@ == old(self)@.used_all(signature_refs(signature@)),
    {
        let ghost written: Texts = match signature@.arguments {
            FnArgsView::Static(args) => args_refs(args),
            FnArgsView::NonStatic { args: Some(args) } => args_refs(args),
            FnArgsView::NonStatic { args: None } => Seq::empty(),
        };
        proof {
            lemma_used_all_concat(old(self)@, where_refs(signature@.where_clause), written);
        }
        self.check_where_usage(&signature.where_clause);
        match &signature.arguments {
            FnArgs::Static(args) => {
                self.check_args_usage(args);
            },
            FnArgs::NonStatic { args: Some(args) } => {
                self.check_args_usage(args);
            },
            FnArgs::NonStatic { args: None } => {},
        }
    }
}


impl ModuleState {
    /// Counts what a type refers to, if one is written.
    pub fn check_opt_ty_usage(&mut self, ty: &Option<Ty>)
        ensures
            final(self)@ == old(self)@.used_all(
                opt_ty_refs(
                    match ty {
                        Some(ty) => Some(ty@),
                        None => None,
                    },
                ),
            ),
    {
        match ty {
            Some(ty) => {
                self.check_ty_usage(ty);
            },
            None => {},
        }
    }

    /// Counts what a `let` refers to.
    pub fn check_let_usage(&mut self, pattern: &Pattern, ty: &Option<Ty>, expr: &Expr)
        ensures
            final(self)@ == old(self)@.used_all(
                let_refs(
                    pattern@,
                    match ty {
                        Some(ty) => Some(ty@),
                        None => None,
                    },
                    expr@,
                ),
            ),
    {
        let ghost ty_view: Option<TyView> = match ty {
            Some(ty) => Some(ty@),
            None => None,
        };
        proof {
            lemma_used_all_concat(
                old(self)@,
                pattern_refs(pattern@) + opt_ty_refs(ty_view),
                expr_refs(expr@),
            );
            lemma_used_all_concat(old(self)@, pattern_refs(pattern@), opt_ty_refs(ty_view));
        }
        self.check_pattern_usage(pattern);
        self.check_opt_ty_usage(ty);
        self.check_expr_usage(expr);
    }

    /// Counts what the head of a trait refers to.
    pub fn check_trait_usage(&mut self, item: &ItemTrait)
        ensures
            final(self)@ == old(self)@.used_all(trait_refs(item@)),
    {
        let ghost supers: Texts = match &item.super_traits {
            Some(traits) => traits_refs(traits@),
            None => Seq::empty(),
        };
        let ghost clause: Option<Seq<WhereBoundView>> = match &item.where_clause {
            Some(bounds) => Some(WhereBound::models(bounds@)),
            None => None,
        };
        proof {
            lemma_used_all_concat(old(self)@, supers, where_refs(clause));
        }
        match &item.super_traits {
            Some(traits) => {
                self.check_traits_usage(traits);
            },
            None => {},
        }
        self.check_where_usage(&item.where_clause);
    }

    /// Counts what a constant refers to.
    pub fn check_const_usage(&mut self, item: &ItemConst)
        ensures
            final(self)@ == old(self)@.used_all(const_refs(item@)),
    {
        let ghost written: Texts = match &item.ty {
            Some(ty) => ty_refs(ty@),
            None => Seq::empty(),
        };
        let ghost value: Texts = match &item.expr {
            Some(expr) => expr_refs(expr@),
            None => Seq::empty(),
        };
        proof {
            lemma_used_all_concat(old(self)@, written, value);
        }
        match &item.ty {
            Some(ty) => {
                self.check_ty_usage(ty);
            },
            None => {},
        }
        match &item.expr {
            Some(expr) => {
                self.check_expr_usage(expr);
            },
            None => {},
        }
    }

    /// Counts what a storage field or a configurable refers to.
    pub fn check_storage_field_usage(&mut self, field: &StorageField)
        ensures
            final(self)@ == old(self)@.used_all(storage_field_refs(field@)),
    {
        proof {
            lemma_used_all_concat(old(self)@, ty_refs(field.ty@), expr_refs(field.initializer@));
        }
        self.check_ty_usage(&field.ty);
        self.check_expr_usage(&field.initializer);
    }

    /// Counts what an associated type refers to.
    pub fn check_trait_type_usage(&mut self, item: &TraitType)
        ensures
            final(self)@ == old(self)@.used_all(trait_type_refs(item@)),
    {
        match &item.ty {
            Some(ty) => {
                self.check_ty_usage(ty);
            },
            None => {},
        }
    }
}

} // verus!
