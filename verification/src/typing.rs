//! Type resolution: the fully qualified form of a written type, and the type
//! of an expression.
//!
//! The engine is partial on purpose. Where it has no answer it says which
//! construct stood in the way instead of guessing.

use vstd::prelude::*;
use crate::error::Error;
use crate::project::{Project, ResolverView};
use crate::scope::{AstScope, AstScopeView, law_lookup_keeps_sides};
use crate::span::{Ident, IdentView, Span, SpanView};
use crate::syntax::expr::{
    Block, BlockView, Expr, ExprKind, ExprKindView, ExprView, Literal, MatchBranch,
};
use crate::syntax::item::{
    FnSignature, FnSignatureView, ItemKind, ItemKindView, TypeField, TypeFieldView,
};
use crate::syntax::ty::{
    Path, PathRoot, PathRootView, PathSegment, PathSegmentView, PathView, Ty, TyView,
};

verus! {

/// A type that was found, as its model, or the reason why none was.
pub open spec fn ty_outcome(result: Result<Ty, Error>) -> Result<TyView, Error> {
    match result {
        Ok(ty) => Ok(ty@),
        Err(error) => Err(error),
    }
}

/// A signature that was found, as its model, or the reason why none was.
pub open spec fn signature_outcome(result: Result<&FnSignature, Error>) -> Result<
    FnSignatureView,
    Error,
> {
    match result {
        Ok(signature) => Ok(signature@),
        Err(error) => Err(error),
    }
}

/// The first of `fields` that is called `name`, if one is.
pub open spec fn first_field(fields: Seq<TypeFieldView>, name: Seq<char>) -> Option<TypeFieldView>
    decreases fields.len(),
{
    if fields.len() == 0 {
        None
    } else if fields[0].name.name == name {
        Some(fields[0])
    } else {
        first_field(fields.skip(1), name)
    }
}

impl TyView {
    /// The 64-bit unsigned integer type: the type of an integer literal.
    pub open spec fn u64() -> TyView {
        TyView::named("u64"@)
    }

    /// The type of truth values.
    pub open spec fn boolean() -> TyView {
        TyView::named("bool"@)
    }

    /// `core::storage::StorageKey<inner>`: what reading a storage field
    /// gives, in place of the field's own type.
    pub open spec fn storage_key(inner: TyView) -> TyView {
        TyView::Path(
            PathView {
                root: PathRootView::Local,
                prefix: PathSegmentView::named("core"@),
                suffix: seq![
                    PathSegmentView::named("storage"@),
                    PathSegmentView {
                        name: IdentView::unlocated("StorageKey"@),
                        generics: Some(seq![inner]),
                        span: SpanView::dummy(),
                    },
                ],
                span: SpanView::dummy(),
            },
        )
    }
}

impl Ty {
    /// `core::storage::StorageKey<inner>`.
    pub fn storage_key(inner: Ty) -> (ty: Ty)
        ensures
            ty@ == TyView::storage_key(inner@),
    {
        let mut generics: Vec<Ty> = Vec::new();
        generics.push(inner);
        assert(Ty::models(generics@) =~= seq![inner@]);
        let key = PathSegment {
            name: Ident::new_no_span("StorageKey"),
            generics: Some(generics),
            span: Span::dummy(),
        };
        let ghost key_view = key@;
        assert(key_view.generics == Some(seq![inner@]));
        let storage = PathSegment::named("storage");
        let mut suffix: Vec<PathSegment> = Vec::new();
        suffix.push(storage);
        suffix.push(key);
        assert(suffix@[0]@ == PathSegmentView::named("storage"@));
        assert(suffix@[1]@ == key_view);
        assert(PathSegment::models(suffix@) =~= seq![PathSegmentView::named("storage"@), key_view]);
        let path = Path {
            root: PathRoot::Local,
            prefix: PathSegment::named("core"),
            suffix,
            span: Span::dummy(),
        };
        assert(path@.suffix == seq![PathSegmentView::named("storage"@), key_view]);
        Ty::Path(path)
    }
}

impl ResolverView {
    /// The fully qualified form of `ty`.
    ///
    /// A type that the resolver knows stands as it is. Of the others, a
    /// tuple, an array, a pointer, a slice and a reference are qualified part
    /// by part, a path that the resolver does not know has no answer, and
    /// the remaining types stand as they are.
    pub open spec fn full_ty(self, ty: TyView) -> Result<TyView, Error>
        decreases ty,
    {
        if self.resolve(ty).is_some() {
            Ok(ty)
        } else {
            match ty {
                TyView::Path(_) => Err(Error::UnresolvedType),
                TyView::Tuple(elems) => match self.full_tys(elems) {
                    Ok(tys) => Ok(TyView::Tuple(tys)),
                    Err(error) => Err(error),
                },
                TyView::Array { ty: elem, length } => match self.full_ty(*elem) {
                    Ok(elem) => Ok(TyView::Array { ty: Box::new(elem), length }),
                    Err(error) => Err(error),
                },
                TyView::Ptr(inner) => match self.full_ty(*inner) {
                    Ok(inner) => Ok(TyView::Ptr(Box::new(inner))),
                    Err(error) => Err(error),
                },
                TyView::Slice(inner) => match self.full_ty(*inner) {
                    Ok(inner) => Ok(TyView::Slice(Box::new(inner))),
                    Err(error) => Err(error),
                },
                TyView::Ref { mutable, ty: inner } => match self.full_ty(*inner) {
                    Ok(inner) => Ok(TyView::Ref { mutable, ty: Box::new(inner) }),
                    Err(error) => Err(error),
                },
                TyView::StringSlice
                | TyView::StringArray { .. }
                | TyView::Infer
                | TyView::Never => Ok(ty),
            }
        }
    }

    /// The fully qualified forms of `tys`, in order; where some have none,
    /// the reason given for the first of them.
    pub open spec fn full_tys(self, tys: Seq<TyView>) -> Result<Seq<TyView>, Error>
        decreases tys,
    {
        if tys.len() == 0 {
            Ok(Seq::empty())
        } else {
            match self.full_ty(tys[0]) {
                Err(error) => Err(error),
                Ok(first) => match self.full_tys(tys.skip(1)) {
                    Err(error) => Err(error),
                    Ok(rest) => Ok(seq![first] + rest),
                },
            }
        }
    }
}

impl ResolverView {
    /// Full qualification is a fixed point: a type that the resolver knows is
    /// its own fully qualified form, and the fully qualified form of any
    /// type is fully qualified, that is, qualifying it again gives it back.
    pub proof fn law_full_ty_is_a_fixed_point(self, ty: TyView)
        ensures
            self.resolve(ty).is_some() ==> self.full_ty(ty) == Ok::<TyView, Error>(ty),
            match self.full_ty(ty) {
                Ok(full) => self.full_ty(full) == Ok::<TyView, Error>(full),
                Err(_) => true,
            },
        decreases ty,
    {
        if self.resolve(ty).is_none() {
            match ty {
                TyView::Tuple(elems) => {
                    self.lemma_full_tys_are_fixed(elems);
                },
                TyView::Array { ty: elem, .. } => {
                    self.law_full_ty_is_a_fixed_point(*elem);
                },
                TyView::Ptr(inner) => {
                    self.law_full_ty_is_a_fixed_point(*inner);
                },
                TyView::Slice(inner) => {
                    self.law_full_ty_is_a_fixed_point(*inner);
                },
                TyView::Ref { ty: inner, .. } => {
                    self.law_full_ty_is_a_fixed_point(*inner);
                },
                _ => {},
            }
        }
    }

    /// The fully qualified forms of a run of types are fully qualified.
    proof fn lemma_full_tys_are_fixed(self, tys: Seq<TyView>)
        ensures
            match self.full_tys(tys) {
                Ok(full) => self.full_tys(full) == Ok::<Seq<TyView>, Error>(full),
                Err(_) => true,
            },
        decreases tys,
    {
        if tys.len() > 0 {
            self.law_full_ty_is_a_fixed_point(tys[0]);
            self.lemma_full_tys_are_fixed(tys.skip(1));
            if let Ok(full) = self.full_tys(tys) {
                let first = self.full_ty(tys[0]).unwrap();
                let rest = self.full_tys(tys.skip(1)).unwrap();
                assert(full[0] == first);
                assert(full.skip(1) =~= rest);
            }
        }
    }
}

impl ExprKindView {
    /// Whether this is the bare path `storage`, the root of every storage
    /// access.
    pub open spec fn is_storage(self) -> bool {
        match self {
            ExprKindView::Path(path) => {
                &&& path.root is Local
                &&& path.prefix.name.name == "storage"@
                &&& path.suffix.len() == 0
            },
            _ => false,
        }
    }
}

impl TyView {
    /// The type of an element of an array of this type.
    pub open spec fn array_element(self) -> Result<TyView, Error> {
        match self {
            TyView::Array { ty, .. } => Ok(*ty),
            _ => Err(Error::NotAnArray),
        }
    }

    /// The type of element number `field` of a tuple of this type.
    pub open spec fn tuple_element(self, field: nat) -> Result<TyView, Error> {
        match self {
            TyView::Tuple(elems) => {
                if elems.len() == 0 {
                    Err(Error::EmptyTuple)
                } else if field < elems.len() {
                    Ok(elems[field as int])
                } else {
                    Err(Error::TupleIndexOutOfRange)
                }
            },
            _ => Err(Error::NotATuple),
        }
    }

    /// The type that a struct literal with this path has: the path up to and
    /// including its first segment.
    pub open spec fn of_struct_literal(path: PathView) -> TyView {
        TyView::Path(
            PathView {
                root: path.root,
                prefix: path.prefix,
                suffix: Seq::empty(),
                span: path.prefix.span,
            },
        )
    }
}

impl ResolverView {
    /// The declared type of the field `name` of the struct that `ty`
    /// resolves to.
    pub open spec fn field_ty(self, ty: TyView, name: Seq<char>) -> Result<TyView, Error> {
        match self.resolve(ty) {
            Some(declaration) => match declaration.item {
                ItemKindView::Struct(item) => match first_field(item.fields, name) {
                    Some(field) => Ok(field.ty),
                    None => Err(Error::UnknownField),
                },
                _ => Err(Error::NotAStruct),
            },
            None => Err(Error::NotAStruct),
        }
    }

    /// The type that a call has whose signature is `signature`: the fully
    /// qualified return type, the unit type where none is written.
    pub open spec fn return_ty(self, signature: FnSignatureView) -> Result<TyView, Error> {
        self.full_ty(
            match signature.return_type {
                Some(ty) => ty,
                None => TyView::unit(),
            },
        )
    }
}

impl AstScopeView {
    /// The signature of the free function that a call names. Signatures are
    /// not looked up: there is never an answer.
    pub open spec fn fn_signature(
        self,
        resolver: ResolverView,
        fn_name: PathSegmentView,
        args: Seq<ExprView>,
    ) -> Result<FnSignatureView, Error> {
        Err(Error::FunctionCall)
    }

    /// The signature of the method that a call on a value of type `ty`
    /// names. Signatures are not looked up through implementations: there is
    /// never an answer.
    pub open spec fn impl_fn_signature(
        self,
        resolver: ResolverView,
        ty: TyView,
        fn_name: PathSegmentView,
        args: Seq<ExprView>,
    ) -> Result<FnSignatureView, Error> {
        Err(Error::MethodCall)
    }

    /// The type of a path expression: the declared type of the variable that
    /// it names, where it is a bare name and names one.
    pub open spec fn path_ty(self, path: PathView) -> Result<TyView, Error> {
        if path.root is Local && path.suffix.len() == 0 {
            match self.lookup(path.prefix.name.name, false) {
                Some(place) => Ok(self.variable(place).ty),
                None => Err(Error::UnknownPath),
            }
        } else {
            Err(Error::UnknownPath)
        }
    }

    /// The type of `storage.NAME`: the storage key of the fully qualified
    /// type that the storage declaration of `name` gives.
    pub open spec fn storage_ty(self, resolver: ResolverView, name: Seq<char>) -> Result<
        TyView,
        Error,
    > {
        match self.lookup(name, true) {
            None => Err(Error::UnknownStorageField),
            Some(place) => match resolver.full_ty(self.variable(place).ty) {
                Err(error) => Err(error),
                Ok(ty) => Ok(TyView::storage_key(ty)),
            },
        }
    }

    /// The type of a method call on a target of type `target_ty`.
    pub open spec fn method_call_ty(
        self,
        resolver: ResolverView,
        target_ty: TyView,
        name: PathSegmentView,
        args: Seq<ExprView>,
    ) -> Result<TyView, Error> {
        match self.impl_fn_signature(resolver, target_ty, name, args) {
            Err(error) => Err(error),
            Ok(signature) => resolver.return_ty(signature),
        }
    }

    /// The type of a block: that of its trailing expression, or the unit type
    /// where it has none.
    pub open spec fn block_ty(
        self,
        resolver: ResolverView,
        block: BlockView,
    ) -> Result<TyView, Error>
        decreases block,
    {
        match block.final_expr {
            Some(expr) => self.expr_ty(resolver, *expr),
            None => Ok(TyView::unit()),
        }
    }

    /// The types of `exprs`, in order; where some have none, the reason given
    /// for the first of them.
    pub open spec fn expr_tys(self, resolver: ResolverView, exprs: Seq<ExprView>) -> Result<
        Seq<TyView>,
        Error,
    >
        decreases exprs,
    {
        if exprs.len() == 0 {
            Ok(Seq::empty())
        } else {
            match self.expr_ty(resolver, exprs[0]) {
                Err(error) => Err(error),
                Ok(first) => match self.expr_tys(resolver, exprs.skip(1)) {
                    Err(error) => Err(error),
                    Ok(rest) => Ok(seq![first] + rest),
                },
            }
        }
    }

    /// The type of the tuple of `elems`. The elements after the first are
    /// typed before the first is.
    pub open spec fn tuple_ty(self, resolver: ResolverView, elems: Seq<ExprView>) -> Result<
        TyView,
        Error,
    >
        decreases elems, 1nat,
    {
        if elems.len() == 0 {
            Ok(TyView::unit())
        } else {
            match self.expr_tys(resolver, elems.skip(1)) {
                Err(error) => Err(error),
                Ok(tail) => match self.expr_ty(resolver, elems[0]) {
                    Err(error) => Err(error),
                    Ok(head) => Ok(TyView::Tuple(seq![head] + tail)),
                },
            }
        }
    }

    /// The type of `expr`, seen from the current scope.
    pub open spec fn expr_ty(self, resolver: ResolverView, expr: ExprView) -> Result<TyView, Error>
        decreases expr,
    {
        match expr.kind {
            ExprKindView::Error => Err(Error::MalformedExpr),
            ExprKindView::Path(path) => self.path_ty(path),
            ExprKindView::Literal(literal) => match literal {
                Literal::String => Ok(TyView::StringSlice),
                Literal::Char => Err(Error::CharLiteral),
                Literal::Int => Ok(TyView::u64()),
                Literal::Bool => Ok(TyView::boolean()),
            },
            ExprKindView::AbiCast { name, .. } => Ok(TyView::Path(name)),
            ExprKindView::Struct { path, .. } => Ok(TyView::of_struct_literal(path)),
            ExprKindView::Tuple(elems) => self.tuple_ty(resolver, elems),
            ExprKindView::Parens(inner) => self.expr_ty(resolver, *inner),
            ExprKindView::Block(block) => self.block_ty(resolver, block),
            ExprKindView::ArraySequence(elems) => {
                if elems.len() == 0 {
                    Ok(TyView::unit())
                } else {
                    self.expr_ty(resolver, elems[0])
                }
            },
            ExprKindView::ArrayRepeat { value, .. } => self.expr_ty(resolver, *value),
            ExprKindView::Asm { .. } => Ok(TyView::unit()),
            ExprKindView::Return(_) => Ok(TyView::unit()),
            ExprKindView::If { then_block, .. } => self.block_ty(resolver, then_block),
            ExprKindView::Match { branches, .. } => {
                if branches.len() == 0 {
                    Ok(TyView::unit())
                } else {
                    self.expr_ty(resolver, branches[0].body)
                }
            },
            ExprKindView::While { .. } => Ok(TyView::unit()),
            ExprKindView::For { .. } => Ok(TyView::unit()),
            ExprKindView::FuncApp { .. } => Err(Error::FunctionCall),
            ExprKindView::Index { target, .. } => match self.expr_ty(resolver, *target) {
                Err(error) => Err(error),
                Ok(target_ty) => target_ty.array_element(),
            },
            ExprKindView::MethodCall { target, name, args, .. } => match self.expr_ty(
                resolver,
                *target,
            ) {
                Err(error) => Err(error),
                Ok(target_ty) => self.method_call_ty(resolver, target_ty, name, args),
            },
            ExprKindView::FieldProjection { target, name } => {
                if target.kind.is_storage() {
                    self.storage_ty(resolver, name.name)
                } else {
                    match self.expr_ty(resolver, *target) {
                        Err(error) => Err(error),
                        Ok(target_ty) => resolver.field_ty(target_ty, name.name),
                    }
                }
            },
            ExprKindView::TupleFieldProjection { target, field } => match self.expr_ty(
                resolver,
                *target,
            ) {
                Err(error) => Err(error),
                Ok(target_ty) => target_ty.tuple_element(field),
            },
            ExprKindView::Ref { expr: inner, .. } => self.expr_ty(resolver, *inner),
            ExprKindView::Deref(inner) => self.expr_ty(resolver, *inner),
            ExprKindView::Not(inner) => self.expr_ty(resolver, *inner),
            ExprKindView::Binary { op, lhs, .. } => {
                if op.arithmetic() {
                    self.expr_ty(resolver, *lhs)
                } else {
                    Ok(TyView::boolean())
                }
            },
            ExprKindView::Reassignment { .. } => Ok(TyView::unit()),
            ExprKindView::Break => Ok(TyView::unit()),
            ExprKindView::Continue => Ok(TyView::unit()),
        }
    }
}


/// The first of `fields` that is called `name`, if one is.
fn find_field<'a>(fields: &'a Vec<TypeField>, name: &Ident) -> (found: Option<&'a TypeField>)
    ensures
        match found {
            Some(field) => first_field(TypeField::models(fields@), name@.name) == Some(
                field@,
            ),
            None => first_field(TypeField::models(fields@), name@.name).is_none(),
        },
{
    let ghost all = TypeField::models(fields@);
    assert(all.skip(0) =~= all);
    let mut i: usize = 0;
    while i < fields.len()
        invariant
            i <= fields.len(),
            all == TypeField::models(fields@),
            first_field(all, name@.name) == first_field(all.skip(i as int), name@.name),
        decreases fields.len() - i,
    {
        let field = &fields[i];
        assert(all.skip(i as int)[0] == field@);
        assert(all.skip(i as int).skip(1) =~= all.skip(i + 1));
        if field.name.name == name.name {
            return Some(field);
        }
        i += 1;
    }
    None
}

impl AstScope {
    /// The fully qualified form of `ty`: see [`ResolverView::full_ty`].
    #[verifier::loop_isolation(false)]
    pub fn get_full_ty(&self, project: &Project, ty: &Ty) -> (result: Result<Ty, Error>)
        ensures
            ty_outcome(result) == project.resolver@.full_ty(ty@),
        decreases ty,
    {
        let ghost resolver = project.resolver@;
        if project.resolver.resolve_ty(ty).is_some() {
            return Ok(ty.clone());
        }
        match ty {
            Ty::Path(_) => Err(Error::UnresolvedType),
            Ty::Tuple(elems) => {
                let ghost all = Ty::models(elems@);
                assert(all.skip(0) =~= all);
                let mut tys: Vec<Ty> = Vec::new();
                let mut i: usize = 0;
                while i < elems.len()
                    invariant
                        *ty is Tuple,
                        ty->Tuple_0 == *elems,
                        i <= elems.len(),
                        resolver.full_tys(all) == match resolver.full_tys(all.skip(i as int)) {
                            Ok(rest) => Ok(Ty::models(tys@) + rest),
                            Err(error) => Err(error),
                        },
                    decreases elems.len() - i,
                {
                    assert(all.skip(i as int)[0] == elems[i as int]@);
                    assert(all.skip(i as int).skip(1) =~= all.skip(i + 1));
                    match self.get_full_ty(project, &elems[i]) {
                        Ok(full) => {
                            let ghost before = Ty::models(tys@);
                            tys.push(full);
                            assert(Ty::models(tys@) =~= before.push(full@));
                            assert forall|rest: Seq<TyView>|
                                before.push(full@) + rest =~= before + (seq![full@] + rest) by {}
                        },
                        Err(error) => {
                            return Err(error);
                        },
                    }
                    i += 1;
                }
                assert(all.skip(i as int) =~= Seq::empty());
                assert(Ty::models(tys@) + Seq::<TyView>::empty() =~= Ty::models(tys@));
                Ok(Ty::Tuple(tys))
            },
            Ty::Array { ty: elem, length } => match self.get_full_ty(project, elem) {
                Ok(full) => Ok(
                    Ty::Array { ty: Box::new(full), length: Box::new((**length).clone()) },
                ),
                Err(error) => Err(error),
            },
            Ty::Ptr(inner) => match self.get_full_ty(project, inner) {
                Ok(full) => Ok(Ty::Ptr(Box::new(full))),
                Err(error) => Err(error),
            },
            Ty::Slice(inner) => match self.get_full_ty(project, inner) {
                Ok(full) => Ok(Ty::Slice(Box::new(full))),
                Err(error) => Err(error),
            },
            Ty::Ref { mutable, ty: inner } => match self.get_full_ty(project, inner) {
                Ok(full) => Ok(Ty::Ref { mutable: *mutable, ty: Box::new(full) }),
                Err(error) => Err(error),
            },
            Ty::StringSlice | Ty::StringArray { .. } | Ty::Infer | Ty::Never => Ok(ty.clone()),
        }
    }

    /// The signature of the free function that a call names: see
    /// [`AstScopeView::fn_signature`].
    pub fn get_fn_signature(
        &self,
        project: &Project,
        fn_name: &PathSegment,
        args: &Vec<Expr>,
    ) -> (result: Result<&FnSignature, Error>)
        ensures
            signature_outcome(result) == self@.fn_signature(
                project.resolver@,
                fn_name@,
                Expr::models(args@),
            ),
    {
        Err(Error::FunctionCall)
    }

    /// The signature of the method that a call on a value of type `ty`
    /// names: see [`AstScopeView::impl_fn_signature`].
    pub fn get_impl_fn_signature(
        &self,
        project: &Project,
        ty: &Ty,
        fn_name: &PathSegment,
        args: &Vec<Expr>,
    ) -> (result: Result<&FnSignature, Error>)
        ensures
            signature_outcome(result) == self@.impl_fn_signature(
                project.resolver@,
                ty@,
                fn_name@,
                Expr::models(args@),
            ),
    {
        Err(Error::MethodCall)
    }
}


impl ExprKind {
    /// Whether this is the bare path `storage`.
    pub fn is_storage_root(&self) -> (r: bool)
        ensures
            r == self@.is_storage(),
    {
        match self {
            ExprKind::Path(path) => {
                assert(self@ == ExprKindView::Path(path@));
                assert(path@.prefix.name == path.prefix.name@);
                assert(path@.suffix.len() == path.suffix.len());
                assert(path@.root == path.root@);
                let named = path.prefix.name.is_named("storage");
                match path.root {
                    PathRoot::Local => named && path.suffix.len() == 0,
                    _ => false,
                }
            },
            _ => false,
        }
    }
}

impl Ty {
    /// The type of an element of an array of this type.
    pub fn into_array_element(self) -> (result: Result<Ty, Error>)
        ensures
            ty_outcome(result) == self@.array_element(),
    {
        match self {
            Ty::Array { ty, .. } => Ok(*ty),
            _ => Err(Error::NotAnArray),
        }
    }

    /// The type of element number `field` of a tuple of this type.
    pub fn tuple_element(&self, field: usize) -> (result: Result<Ty, Error>)
        ensures
            ty_outcome(result) == self@.tuple_element(field as nat),
    {
        match self {
            Ty::Tuple(elems) => {
                assert(self@ == TyView::Tuple(Ty::models(elems@)));
                if elems.len() == 0 {
                    Err(Error::EmptyTuple)
                } else if field < elems.len() {
                    assert(Ty::models(elems@)[field as int] == elems[field as int]@);
                    Ok(elems[field].clone())
                } else {
                    Err(Error::TupleIndexOutOfRange)
                }
            },
            _ => {
                assert(!(self@ is Tuple));
                Err(Error::NotATuple)
            },
        }
    }

    /// The type that a struct literal with this path has.
    pub fn of_struct_literal(path: &Path) -> (ty: Ty)
        ensures
            ty@ == TyView::of_struct_literal(path@),
    {
        let suffix: Vec<PathSegment> = Vec::new();
        assert(PathSegment::models(suffix@) =~= Seq::empty());
        let built = Path {
            root: path.root.clone(),
            prefix: path.prefix.clone(),
            suffix,
            span: path.prefix.span.clone(),
        };
        assert(built@.root == path@.root);
        assert(built@.prefix == path@.prefix);
        assert(built@.suffix == Seq::<PathSegmentView>::empty());
        assert(built@.span == path@.prefix.span);
        Ty::Path(built)
    }
}

impl Project {
    /// The declared type of the field `name` of the struct that `ty`
    /// resolves to.
    pub fn field_ty(&self, ty: &Ty, name: &Ident) -> (result: Result<Ty, Error>)
        ensures
            ty_outcome(result) == self.resolver@.field_ty(ty@, name@.name),
    {
        match self.resolver.resolve_ty(ty) {
            Some(ItemKind::Struct(item)) => match find_field(&item.fields, name) {
                Some(field) => Ok(field.ty.clone()),
                None => Err(Error::UnknownField),
            },
            _ => Err(Error::NotAStruct),
        }
    }
}

impl AstScope {
    /// The type of a path expression.
    fn get_path_ty(&self, path: &Path) -> (result: Result<Ty, Error>)
        requires
            self@.wf(),
        ensures
            ty_outcome(result) == self@.path_ty(path@),
    {
        match path.root {
            PathRoot::Local => {},
            _ => {
                return Err(Error::UnknownPath);
            },
        }
        if path.suffix.len() != 0 {
            return Err(Error::UnknownPath);
        }
        match self.get_variable(path.prefix.name.as_str(), false) {
            Some(id) => {
                proof {
                    law_lookup_keeps_sides(self@, path.prefix.name@.name, false);
                }
                match self.variable(id) {
                    Some(variable) => Ok(variable.ty.clone()),
                    None => Err(Error::UnknownPath),
                }
            },
            None => Err(Error::UnknownPath),
        }
    }

    /// The type of `storage.NAME`.
    fn get_storage_ty(&self, project: &Project, name: &Ident) -> (result: Result<Ty, Error>)
        requires
            self@.wf(),
        ensures
            ty_outcome(result) == self@.storage_ty(project.resolver@, name@.name),
    {
        let id = match self.get_variable(name.as_str(), true) {
            Some(id) => id,
            None => {
                return Err(Error::UnknownStorageField);
            },
        };
        proof {
            law_lookup_keeps_sides(self@, name@.name, true);
        }
        match self.variable(id) {
            Some(variable) => match self.get_full_ty(project, &variable.ty) {
                Ok(ty) => Ok(Ty::storage_key(ty)),
                Err(error) => Err(error),
            },
            None => Err(Error::UnknownStorageField),
        }
    }

    /// The type of a method call on a target of type `target_ty`.
    fn get_method_call_ty(
        &self,
        project: &Project,
        target_ty: &Ty,
        name: &PathSegment,
        args: &Vec<Expr>,
    ) -> (result: Result<Ty, Error>)
        ensures
            ty_outcome(result) == self@.method_call_ty(
                project.resolver@,
                target_ty@,
                name@,
                Expr::models(args@),
            ),
    {
        match self.get_impl_fn_signature(project, target_ty, name, args) {
            Ok(signature) => {
                let ty = match &signature.return_type {
                    Some(ty) => ty.clone(),
                    None => Ty::unit(),
                };
                self.get_full_ty(project, &ty)
            },
            Err(error) => Err(error),
        }
    }

    /// The type of a block.
    fn get_block_ty(&self, block: &Block, project: &Project) -> (result: Result<Ty, Error>)
        requires
            self@.wf(),
        ensures
            ty_outcome(result) == self@.block_ty(project.resolver@, block@),
        decreases block,
    {
        match &block.final_expr {
            Some(expr) => self.get_expr_ty(expr, project),
            None => Ok(Ty::unit()),
        }
    }

    /// The type of the tuple of `elems`.
    fn get_tuple_ty(&self, elems: &Vec<Expr>, project: &Project) -> (result: Result<Ty, Error>)
        requires
            self@.wf(),
        ensures
            ty_outcome(result) == self@.tuple_ty(project.resolver@, Expr::models(elems@)),
        decreases elems,
    {
        let ghost resolver = project.resolver@;
        if elems.len() == 0 {
            return Ok(Ty::unit());
        }
        let ghost tail = Expr::models(elems@).skip(1);
        assert(tail.skip(0) =~= tail);
        let mut tys: Vec<Ty> = Vec::new();
        let mut i: usize = 1;
        while i < elems.len()
            invariant
                self@.wf(),
                resolver == project.resolver@,
                tail == Expr::models(elems@).skip(1),
                1 <= i <= elems.len(),
                self@.expr_tys(resolver, tail) == match self@.expr_tys(resolver, tail.skip(i - 1)) {
                    Ok(rest) => Ok(Ty::models(tys@) + rest),
                    Err(error) => Err(error),
                },
            decreases elems.len() - i,
        {
            assert(tail.skip(i - 1)[0] == elems[i as int]@);
            assert(tail.skip(i - 1).skip(1) =~= tail.skip(i as int));
            match self.get_expr_ty(&elems[i], project) {
                Ok(ty) => {
                    let ghost before = Ty::models(tys@);
                    tys.push(ty);
                    assert(Ty::models(tys@) =~= before.push(ty@));
                    assert forall|rest: Seq<TyView>|
                        before.push(ty@) + rest =~= before + (seq![ty@] + rest) by {}
                },
                Err(error) => {
                    return Err(error);
                },
            }
            i += 1;
        }
        assert(tail.skip(i - 1) =~= Seq::empty());
        assert(Ty::models(tys@) + Seq::<TyView>::empty() =~= Ty::models(tys@));
        match self.get_expr_ty(&elems[0], project) {
            Ok(head) => {
                let ghost rest = Ty::models(tys@);
                tys.insert(0, head);
                assert(Ty::models(tys@) =~= seq![head@] + rest);
                Ok(Ty::Tuple(tys))
            },
            Err(error) => Err(error),
        }
    }

    /// The type of `expr`, seen from the current scope: see
    /// [`AstScopeView::expr_ty`].
    ///
    /// - A bare name that a variable declares has the variable's declared
    ///   type.
    /// - A string literal is a string slice, an integer literal a `u64`, a
    ///   truth value a `bool`.
    /// - A struct literal has the type that its path names.
    /// - A tuple has the tuple of its elements' types; a sequence of array
    ///   elements has the type of the first, an index the element type of
    ///   the array, a numbered projection the type of that element.
    /// - Parentheses, references, dereferences and negations have the type
    ///   of what they hold; an arithmetic operator has the type of its left
    ///   operand; a comparison or a logical operator is a `bool`.
    /// - A block, an `if` and a `match` have the type of the trailing
    ///   expression of the block, of the first branch, or the unit type.
    /// - `storage.NAME` has the type `core::storage::StorageKey` of the
    ///   field's fully qualified type; any other field projection has the
    ///   declared type of the field in the struct that the target's type
    ///   resolves to.
    /// - Assignments, jumps, loops and assembly blocks have the unit type.
    pub fn get_expr_ty(&self, expr: &Expr, project: &Project) -> (result: Result<Ty, Error>)
        requires
            self@.wf(),
        ensures
            ty_outcome(result) == self@.expr_ty(project.resolver@, expr@),
        decreases expr,
    {
        assert(expr@.kind == expr.kind@);
        match &expr.kind {
            ExprKind::Error => Err(Error::MalformedExpr),
            ExprKind::Path(path) => self.get_path_ty(path),
            ExprKind::Literal(literal) => match literal {
                Literal::String => Ok(Ty::StringSlice),
                Literal::Char => Err(Error::CharLiteral),
                Literal::Int => Ok(Ty::named("u64")),
                Literal::Bool => Ok(Ty::named("bool")),
            },
            ExprKind::AbiCast { name, .. } => Ok(Ty::Path(name.clone())),
            ExprKind::Struct { path, .. } => Ok(Ty::of_struct_literal(path)),
            ExprKind::Tuple(elems) => self.get_tuple_ty(elems, project),
            ExprKind::Parens(inner) => self.get_expr_ty(inner, project),
            ExprKind::Block(block) => {
                assert(expr.kind@ == ExprKindView::Block(block@));
                self.get_block_ty(block, project)
            },
            ExprKind::ArraySequence(elems) => {
                if elems.len() == 0 {
                    Ok(Ty::unit())
                } else {
                    assert(Expr::models(elems@)[0] == elems[0]@);
                    self.get_expr_ty(&elems[0], project)
                }
            },
            ExprKind::ArrayRepeat { value, .. } => self.get_expr_ty(value, project),
            ExprKind::Asm { .. } => Ok(Ty::unit()),
            ExprKind::Return(_) => Ok(Ty::unit()),
            ExprKind::If { then_block, .. } => {
                assert(expr.kind@->If_then_block == then_block@);
                self.get_block_ty(then_block, project)
            },
            ExprKind::Match { branches, .. } => {
                if branches.len() == 0 {
                    Ok(Ty::unit())
                } else {
                    assert(MatchBranch::models(branches@)[0] == branches[0]@);
                    assert(branches[0]@.body == branches[0].body@);
                    self.get_expr_ty(&branches[0].body, project)
                }
            },
            ExprKind::While { .. } => Ok(Ty::unit()),
            ExprKind::For { .. } => Ok(Ty::unit()),
            ExprKind::FuncApp { .. } => Err(Error::FunctionCall),
            ExprKind::Index { target, .. } => match self.get_expr_ty(target, project) {
                Ok(target_ty) => target_ty.into_array_element(),
                Err(error) => Err(error),
            },
            ExprKind::MethodCall { target, name, args, .. } => {
                assert(expr.kind@->MethodCall_name == name@);
                match self.get_expr_ty(target, project) {
                    Ok(target_ty) => self.get_method_call_ty(project, &target_ty, name, args),
                    Err(error) => Err(error),
                }
            },
            ExprKind::FieldProjection { target, name } => {
                assert(target@.kind == target.kind@);
                if target.kind.is_storage_root() {
                    self.get_storage_ty(project, name)
                } else {
                    match self.get_expr_ty(target, project) {
                        Ok(target_ty) => project.field_ty(&target_ty, name),
                        Err(error) => Err(error),
                    }
                }
            },
            ExprKind::TupleFieldProjection { target, field } => match self.get_expr_ty(
                target,
                project,
            ) {
                Ok(target_ty) => target_ty.tuple_element(*field),
                Err(error) => Err(error),
            },
            ExprKind::Ref { expr: inner, .. } => self.get_expr_ty(inner, project),
            ExprKind::Deref(inner) => self.get_expr_ty(inner, project),
            ExprKind::Not(inner) => self.get_expr_ty(inner, project),
            ExprKind::Binary { op, lhs, .. } => {
                if op.is_arithmetic() {
                    self.get_expr_ty(lhs, project)
                } else {
                    Ok(Ty::named("bool"))
                }
            },
            ExprKind::Reassignment { .. } => Ok(Ty::unit()),
            ExprKind::Break => Ok(Ty::unit()),
            ExprKind::Continue => Ok(Ty::unit()),
        }
    }
}

} // verus!
