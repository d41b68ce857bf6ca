//! Written types and the paths that name them.

use vstd::prelude::*;
use crate::span::{Ident, IdentView, Span, SpanView};
use crate::syntax::expr::{Expr, ExprView};

verus! {

/// What stands in front of a path's first segment.
#[derive(Debug, PartialEq, Eq)]
pub enum PathRoot {
    /// Nothing: the path starts at its first segment.
    Local,
    /// A leading `::`.
    Global,
    /// `<ty as Trait>::`, the trait being optional.
    Qualified { ty: Box<Ty>, as_trait: Option<Box<Path>> },
}

/// One segment of a path: a name, its generic arguments if it has any, and
/// the span of the two together.
#[derive(Debug, PartialEq, Eq)]
pub struct PathSegment {
    pub name: Ident,
    pub generics: Option<Vec<Ty>>,
    pub span: Span,
}

/// A path, as it names a type or stands in an expression or a pattern.
#[derive(Debug, PartialEq, Eq)]
pub struct Path {
    pub root: PathRoot,
    pub prefix: PathSegment,
    pub suffix: Vec<PathSegment>,
    pub span: Span,
}

/// A type as it is written in the source.
#[derive(Debug, PartialEq, Eq)]
pub enum Ty {
    Path(Path),
    /// A tuple type; the empty tuple is the unit type.
    Tuple(Vec<Ty>),
    Array { ty: Box<Ty>, length: Box<Expr> },
    StringSlice,
    StringArray { length: Box<Expr> },
    Infer,
    Ptr(Box<Ty>),
    Slice(Box<Ty>),
    Ref { mutable: bool, ty: Box<Ty> },
    Never,
}

pub ghost enum PathRootView {
    Local,
    Global,
    Qualified { ty: Box<TyView>, as_trait: Option<Box<PathView>> },
}

pub ghost struct PathSegmentView {
    pub name: IdentView,
    pub generics: Option<Seq<TyView>>,
    pub span: SpanView,
}

pub ghost struct PathView {
    pub root: PathRootView,
    pub prefix: PathSegmentView,
    pub suffix: Seq<PathSegmentView>,
    pub span: SpanView,
}

pub ghost enum TyView {
    Path(PathView),
    Tuple(Seq<TyView>),
    Array { ty: Box<TyView>, length: Box<ExprView> },
    StringSlice,
    StringArray { length: Box<ExprView> },
    Infer,
    Ptr(Box<TyView>),
    Slice(Box<TyView>),
    Ref { mutable: bool, ty: Box<TyView> },
    Never,
}

impl PathRoot {
    pub open spec fn model(self) -> PathRootView
        decreases self,
    {
        match self {
            PathRoot::Local => PathRootView::Local,
            PathRoot::Global => PathRootView::Global,
            PathRoot::Qualified { ty, as_trait } => PathRootView::Qualified {
                ty: Box::new(ty.model()),
                as_trait: match as_trait {
                    Some(path) => Some(Box::new(path.model())),
                    None => None,
                },
            },
        }
    }
}

impl PathSegment {
    pub open spec fn model(self) -> PathSegmentView
        decreases self,
    {
        PathSegmentView {
            name: self.name@,
            generics: match self.generics {
                Some(args) => Some(Ty::models(args@)),
                None => None,
            },
            span: self.span@,
        }
    }

    /// The models of a run of segments, in order.
    pub open spec fn models(segments: Seq<PathSegment>) -> Seq<PathSegmentView>
        decreases segments,
    {
        Seq::new(
            segments.len(),
            |i: int|
                if 0 <= i < segments.len() {
                    segments[i].model()
                } else {
                    arbitrary()
                },
        )
    }
}

impl Path {
    pub open spec fn model(self) -> PathView
        decreases self,
    {
        PathView {
            root: self.root.model(),
            prefix: self.prefix.model(),
            suffix: PathSegment::models(self.suffix@),
            span: self.span@,
        }
    }

    /// The models of a run of paths, in order.
    pub open spec fn models(paths: Seq<Path>) -> Seq<PathView>
        decreases paths,
    {
        Seq::new(
            paths.len(),
            |i: int|
                if 0 <= i < paths.len() {
                    paths[i].model()
                } else {
                    arbitrary()
                },
        )
    }
}

impl Ty {
    pub open spec fn model(self) -> TyView
        decreases self,
    {
        match self {
            Ty::Path(path) => TyView::Path(path.model()),
            Ty::Tuple(elems) => TyView::Tuple(Ty::models(elems@)),
            Ty::Array { ty, length } => TyView::Array {
                ty: Box::new(ty.model()),
                length: Box::new(length.model()),
            },
            Ty::StringSlice => TyView::StringSlice,
            Ty::StringArray { length } => TyView::StringArray { length: Box::new(length.model()) },
            Ty::Infer => TyView::Infer,
            Ty::Ptr(ty) => TyView::Ptr(Box::new(ty.model())),
            Ty::Slice(ty) => TyView::Slice(Box::new(ty.model())),
            Ty::Ref { mutable, ty } => TyView::Ref { mutable, ty: Box::new(ty.model()) },
            Ty::Never => TyView::Never,
        }
    }

    /// The models of a run of types, in order.
    pub open spec fn models(tys: Seq<Ty>) -> Seq<TyView>
        decreases tys,
    {
        Seq::new(
            tys.len(),
            |i: int|
                if 0 <= i < tys.len() {
                    tys[i].model()
                } else {
                    arbitrary()
                },
        )
    }
}

impl View for PathRoot {
    type V = PathRootView;

    open spec fn view(&self) -> PathRootView {
        self.model()
    }
}

impl View for PathSegment {
    type V = PathSegmentView;

    open spec fn view(&self) -> PathSegmentView {
        self.model()
    }
}

impl View for Path {
    type V = PathView;

    open spec fn view(&self) -> PathView {
        self.model()
    }
}

impl View for Ty {
    type V = TyView;

    open spec fn view(&self) -> TyView {
        self.model()
    }
}


impl PathSegment {
    /// Copies of a run of segments, in order.
    pub fn clone_all(segments: &Vec<PathSegment>) -> (copies: Vec<PathSegment>)
        ensures
            PathSegment::models(copies@) == PathSegment::models(segments@),
        decreases segments,
    {
        let mut copies: Vec<PathSegment> = Vec::new();
        let mut i: usize = 0;
        while i < segments.len()
            invariant
                i <= segments.len(),
                copies.len() == i,
                forall|j: int| 0 <= j < i ==> copies[j]@ == segments[j]@,
            decreases segments.len() - i,
        {
            copies.push(segments[i].clone());
            i += 1;
        }
        assert(PathSegment::models(copies@) =~= PathSegment::models(segments@));
        copies
    }
}

impl Ty {
    /// Copies of a run of types, in order.
    pub fn clone_all(tys: &Vec<Ty>) -> (copies: Vec<Ty>)
        ensures
            Ty::models(copies@) == Ty::models(tys@),
        decreases tys,
    {
        let mut copies: Vec<Ty> = Vec::new();
        let mut i: usize = 0;
        while i < tys.len()
            invariant
                i <= tys.len(),
                copies.len() == i,
                forall|j: int| 0 <= j < i ==> copies[j]@ == tys[j]@,
            decreases tys.len() - i,
        {
            copies.push(tys[i].clone());
            i += 1;
        }
        assert(Ty::models(copies@) =~= Ty::models(tys@));
        copies
    }

    /// The unit type, written `()`.
    pub fn unit() -> (ty: Ty)
        ensures
            ty@ == TyView::unit(),
    {
        let elems: Vec<Ty> = Vec::new();
        assert(Ty::models(elems@) =~= Seq::empty());
        Ty::Tuple(elems)
    }

    /// The type named by the single identifier `name`, with no place in the
    /// source.
    pub fn named(name: &str) -> (ty: Ty)
        ensures
            ty@ == TyView::named(name@),
    {
        Ty::Path(Path::named(name))
    }
}

impl TyView {
    pub open spec fn unit() -> TyView {
        TyView::Tuple(Seq::empty())
    }

    pub open spec fn named(name: Seq<char>) -> TyView {
        TyView::Path(PathView::named(name))
    }
}

impl PathSegmentView {
    /// The segment `name`, without generic arguments and with no place in the
    /// source.
    pub open spec fn named(name: Seq<char>) -> PathSegmentView {
        PathSegmentView {
            name: IdentView::unlocated(name),
            generics: None,
            span: SpanView::dummy(),
        }
    }
}

impl PathView {
    /// The path of the one segment `name`, with no place in the source.
    pub open spec fn named(name: Seq<char>) -> PathView {
        PathView {
            root: PathRootView::Local,
            prefix: PathSegmentView::named(name),
            suffix: Seq::empty(),
            span: SpanView::dummy(),
        }
    }
}

impl PathSegment {
    pub fn named(name: &str) -> (segment: PathSegment)
        ensures
            segment@ == PathSegmentView::named(name@),
    {
        PathSegment { name: Ident::new_no_span(name), generics: None, span: Span::dummy() }
    }
}

impl Path {
    /// Copies of a run of paths, in order.
    pub fn clone_all(paths: &Vec<Path>) -> (copies: Vec<Path>)
        ensures
            Path::models(copies@) == Path::models(paths@),
        decreases paths,
    {
        let mut copies: Vec<Path> = Vec::new();
        let mut i: usize = 0;
        while i < paths.len()
            invariant
                i <= paths.len(),
                copies.len() == i,
                forall|j: int| 0 <= j < i ==> copies[j]@ == paths[j]@,
            decreases paths.len() - i,
        {
            copies.push(paths[i].clone());
            i += 1;
        }
        assert(Path::models(copies@) =~= Path::models(paths@));
        copies
    }

    pub fn named(name: &str) -> (path: Path)
        ensures
            path@ == PathView::named(name@),
    {
        let suffix: Vec<PathSegment> = Vec::new();
        assert(PathSegment::models(suffix@) =~= Seq::empty());
        Path {
            root: PathRoot::Local,
            prefix: PathSegment::named(name),
            suffix,
            span: Span::dummy(),
        }
    }
}

impl Clone for PathRoot {
    fn clone(&self) -> (copy: PathRoot)
        ensures
            copy@ == self@,
        decreases self,
    {
        match self {
            PathRoot::Local => PathRoot::Local,
            PathRoot::Global => PathRoot::Global,
            PathRoot::Qualified { ty, as_trait } => PathRoot::Qualified {
                ty: Box::new((**ty).clone()),
                as_trait: match as_trait {
                    Some(path) => Some(Box::new((**path).clone())),
                    None => None,
                },
            },
        }
    }
}

impl Clone for PathSegment {
    fn clone(&self) -> (copy: PathSegment)
        ensures
            copy@ == self@,
        decreases self,
    {
        PathSegment {
            name: self.name.clone(),
            generics: match &self.generics {
                Some(args) => Some(Ty::clone_all(args)),
                None => None,
            },
            span: self.span.clone(),
        }
    }
}

impl Clone for Path {
    fn clone(&self) -> (copy: Path)
        ensures
            copy@ == self@,
        decreases self,
    {
        Path {
            root: self.root.clone(),
            prefix: self.prefix.clone(),
            suffix: PathSegment::clone_all(&self.suffix),
            span: self.span.clone(),
        }
    }
}

impl Clone for Ty {
    fn clone(&self) -> (copy: Ty)
        ensures
            copy@ == self@,
        decreases self,
    {
        match self {
            Ty::Path(path) => Ty::Path(path.clone()),
            Ty::Tuple(elems) => Ty::Tuple(Ty::clone_all(elems)),
            Ty::Array { ty, length } => Ty::Array {
                ty: Box::new((**ty).clone()),
                length: Box::new((**length).clone()),
            },
            Ty::StringSlice => Ty::StringSlice,
            Ty::StringArray { length } => Ty::StringArray { length: Box::new((**length).clone()) },
            Ty::Infer => Ty::Infer,
            Ty::Ptr(ty) => Ty::Ptr(Box::new((**ty).clone())),
            Ty::Slice(ty) => Ty::Slice(Box::new((**ty).clone())),
            Ty::Ref { mutable, ty } => Ty::Ref { mutable: *mutable, ty: Box::new((**ty).clone()) },
            Ty::Never => Ty::Never,
        }
    }
}

} // verus!
