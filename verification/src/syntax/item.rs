//! Items: what a module declares.

use vstd::prelude::*;
use crate::span::{Ident, IdentView, Span, SpanView};
use crate::syntax::expr::{Block, BlockView, Expr, ExprView, Pattern, PatternView};
use crate::syntax::ty::{Path, PathView, Ty, TyView};

verus! {

/// The tree of names behind a `use`.
#[derive(Debug, PartialEq, Eq)]
pub enum UseTree {
    /// `{a, b, c}`
    Group { imports: Vec<UseTree> },
    /// A name that ends a path.
    Name { name: Ident },
    /// `name as alias`
    Rename { name: Ident, alias: Ident },
    /// `*`
    Glob,
    /// `prefix::suffix`
    Path { prefix: Ident, suffix: Box<UseTree> },
    /// An import that could not be parsed.
    Error,
}

pub ghost enum UseTreeView {
    Group { imports: Seq<UseTreeView> },
    Name { name: IdentView },
    Rename { name: IdentView, alias: IdentView },
    Glob,
    Path { prefix: IdentView, suffix: Box<UseTreeView> },
    Error,
}

impl UseTree {
    pub open spec fn model(self) -> UseTreeView
        decreases self,
    {
        match self {
            UseTree::Group { imports } => UseTreeView::Group {
                imports: UseTree::models(imports@),
            },
            UseTree::Name { name } => UseTreeView::Name {
                name: name@,
            },
            UseTree::Rename { name, alias } => UseTreeView::Rename {
                name: name@,
                alias: alias@,
            },
            UseTree::Glob => UseTreeView::Glob,
            UseTree::Path { prefix, suffix } => UseTreeView::Path {
                prefix: prefix@,
                suffix: Box::new(suffix.model()),
            },
            UseTree::Error => UseTreeView::Error,
        }
    }

    /// The models of a run of import trees, in order.
    pub open spec fn models(trees: Seq<UseTree>) -> Seq<UseTreeView>
        decreases trees,
    {
        Seq::new(
            trees.len(),
            |i: int|
                if 0 <= i < trees.len() {
                    trees[i].model()
                } else {
                    arbitrary()
                },
        )
    }

    /// Copies of a run of import trees, in order.
    pub fn clone_all(trees: &Vec<UseTree>) -> (copies: Vec<UseTree>)
        ensures
            UseTree::models(copies@) == UseTree::models(trees@),
        decreases trees,
    {
        let mut copies: Vec<UseTree> = Vec::new();
        let mut i: usize = 0;
        while i < trees.len()
            invariant
                i <= trees.len(),
                copies.len() == i,
                forall|j: int| 0 <= j < i ==> copies[j]@ == trees[j]@,
            decreases trees.len() - i,
        {
            copies.push(trees[i].clone());
            i += 1;
        }
        assert(UseTree::models(copies@) =~= UseTree::models(trees@));
        copies
    }
}

impl View for UseTree {
    type V = UseTreeView;

    open spec fn view(&self) -> UseTreeView {
        self.model()
    }
}

impl Clone for UseTree {
    fn clone(&self) -> (copy: UseTree)
        ensures
            copy@ == self@,
        decreases self,
    {
        match self {
            UseTree::Group { imports } => UseTree::Group {
                imports: UseTree::clone_all(imports),
            },
            UseTree::Name { name } => UseTree::Name {
                name: name.clone(),
            },
            UseTree::Rename { name, alias } => UseTree::Rename {
                name: name.clone(),
                alias: alias.clone(),
            },
            UseTree::Glob => UseTree::Glob,
            UseTree::Path { prefix, suffix } => UseTree::Path {
                prefix: prefix.clone(),
                suffix: Box::new((**suffix).clone()),
            },
            UseTree::Error => UseTree::Error,
        }
    }
}

/// A `use` item.
#[derive(Debug, PartialEq, Eq)]
pub struct ItemUse {
    pub tree: UseTree,
}

pub ghost struct ItemUseView {
    pub tree: UseTreeView,
}

impl ItemUse {
    pub open spec fn model(self) -> ItemUseView
        decreases self,
    {
        ItemUseView {
            tree: self.tree.model(),
        }
    }
}

impl View for ItemUse {
    type V = ItemUseView;

    open spec fn view(&self) -> ItemUseView {
        self.model()
    }
}

impl Clone for ItemUse {
    fn clone(&self) -> (copy: ItemUse)
        ensures
            copy@ == self@,
        decreases self,
    {
        ItemUse {
            tree: self.tree.clone(),
        }
    }
}

/// A named field with its declared type: a field of a struct, or a variant of
/// an enum with its payload.
#[derive(Debug, PartialEq, Eq)]
pub struct TypeField {
    pub name: Ident,
    pub ty: Ty,
}

pub ghost struct TypeFieldView {
    pub name: IdentView,
    pub ty: TyView,
}

impl TypeField {
    pub open spec fn model(self) -> TypeFieldView
        decreases self,
    {
        TypeFieldView {
            name: self.name@,
            ty: self.ty.model(),
        }
    }

    /// The models of a run of fields, in order.
    pub open spec fn models(fields: Seq<TypeField>) -> Seq<TypeFieldView>
        decreases fields,
    {
        Seq::new(
            fields.len(),
            |i: int|
                if 0 <= i < fields.len() {
                    fields[i].model()
                } else {
                    arbitrary()
                },
        )
    }

    /// Copies of a run of fields, in order.
    pub fn clone_all(fields: &Vec<TypeField>) -> (copies: Vec<TypeField>)
        ensures
            TypeField::models(copies@) == TypeField::models(fields@),
        decreases fields,
    {
        let mut copies: Vec<TypeField> = Vec::new();
        let mut i: usize = 0;
        while i < fields.len()
            invariant
                i <= fields.len(),
                copies.len() == i,
                forall|j: int| 0 <= j < i ==> copies[j]@ == fields[j]@,
            decreases fields.len() - i,
        {
            copies.push(fields[i].clone());
            i += 1;
        }
        assert(TypeField::models(copies@) =~= TypeField::models(fields@));
        copies
    }
}

impl View for TypeField {
    type V = TypeFieldView;

    open spec fn view(&self) -> TypeFieldView {
        self.model()
    }
}

impl Clone for TypeField {
    fn clone(&self) -> (copy: TypeField)
        ensures
            copy@ == self@,
        decreases self,
    {
        TypeField {
            name: self.name.clone(),
            ty: self.ty.clone(),
        }
    }
}

#[derive(Debug, PartialEq, Eq)]
pub struct ItemStruct {
    pub name: Ident,
    pub fields: Vec<TypeField>,
}

pub ghost struct ItemStructView {
    pub name: IdentView,
    pub fields: Seq<TypeFieldView>,
}

impl ItemStruct {
    pub open spec fn model(self) -> ItemStructView
        decreases self,
    {
        ItemStructView {
            name: self.name@,
            fields: TypeField::models(self.fields@),
        }
    }
}

impl View for ItemStruct {
    type V = ItemStructView;

    open spec fn view(&self) -> ItemStructView {
        self.model()
    }
}

impl Clone for ItemStruct {
    fn clone(&self) -> (copy: ItemStruct)
        ensures
            copy@ == self@,
        decreases self,
    {
        ItemStruct {
            name: self.name.clone(),
            fields: TypeField::clone_all(&self.fields),
        }
    }
}

#[derive(Debug, PartialEq, Eq)]
pub struct ItemEnum {
    pub name: Ident,
    pub fields: Vec<TypeField>,
}

pub ghost struct ItemEnumView {
    pub name: IdentView,
    pub fields: Seq<TypeFieldView>,
}

impl ItemEnum {
    pub open spec fn model(self) -> ItemEnumView
        decreases self,
    {
        ItemEnumView {
            name: self.name@,
            fields: TypeField::models(self.fields@),
        }
    }
}

impl View for ItemEnum {
    type V = ItemEnumView;

    open spec fn view(&self) -> ItemEnumView {
        self.model()
    }
}

impl Clone for ItemEnum {
    fn clone(&self) -> (copy: ItemEnum)
        ensures
            copy@ == self@,
        decreases self,
    {
        ItemEnum {
            name: self.name.clone(),
            fields: TypeField::clone_all(&self.fields),
        }
    }
}

/// The traits of a bound: `First + Second + ...`.
#[derive(Debug, PartialEq, Eq)]
pub struct Traits {
    pub prefix: Path,
    pub suffixes: Vec<Path>,
}

pub ghost struct TraitsView {
    pub prefix: PathView,
    pub suffixes: Seq<PathView>,
}

impl Traits {
    pub open spec fn model(self) -> TraitsView
        decreases self,
    {
        TraitsView {
            prefix: self.prefix.model(),
            suffixes: Path::models(self.suffixes@),
        }
    }
}

impl View for Traits {
    type V = TraitsView;

    open spec fn view(&self) -> TraitsView {
        self.model()
    }
}

impl Clone for Traits {
    fn clone(&self) -> (copy: Traits)
        ensures
            copy@ == self@,
        decreases self,
    {
        Traits {
            prefix: self.prefix.clone(),
            suffixes: Path::clone_all(&self.suffixes),
        }
    }
}

/// One bound of a `where` clause: `ty_name: bounds`.
#[derive(Debug, PartialEq, Eq)]
pub struct WhereBound {
    pub ty_name: Ident,
    pub bounds: Traits,
}

pub ghost struct WhereBoundView {
    pub ty_name: IdentView,
    pub bounds: TraitsView,
}

impl WhereBound {
    pub open spec fn model(self) -> WhereBoundView
        decreases self,
    {
        WhereBoundView {
            ty_name: self.ty_name@,
            bounds: self.bounds.model(),
        }
    }

    /// The models of a run of bounds, in order.
    pub open spec fn models(bounds: Seq<WhereBound>) -> Seq<WhereBoundView>
        decreases bounds,
    {
        Seq::new(
            bounds.len(),
            |i: int|
                if 0 <= i < bounds.len() {
                    bounds[i].model()
                } else {
                    arbitrary()
                },
        )
    }

    /// Copies of a run of bounds, in order.
    pub fn clone_all(bounds: &Vec<WhereBound>) -> (copies: Vec<WhereBound>)
        ensures
            WhereBound::models(copies@) == WhereBound::models(bounds@),
        decreases bounds,
    {
        let mut copies: Vec<WhereBound> = Vec::new();
        let mut i: usize = 0;
        while i < bounds.len()
            invariant
                i <= bounds.len(),
                copies.len() == i,
                forall|j: int| 0 <= j < i ==> copies[j]@ == bounds[j]@,
            decreases bounds.len() - i,
        {
            copies.push(bounds[i].clone());
            i += 1;
        }
        assert(WhereBound::models(copies@) =~= WhereBound::models(bounds@));
        copies
    }
}

impl View for WhereBound {
    type V = WhereBoundView;

    open spec fn view(&self) -> WhereBoundView {
        self.model()
    }
}

impl Clone for WhereBound {
    fn clone(&self) -> (copy: WhereBound)
        ensures
            copy@ == self@,
        decreases self,
    {
        WhereBound {
            ty_name: self.ty_name.clone(),
            bounds: self.bounds.clone(),
        }
    }
}

/// An argument of a function: `pattern: ty`.
#[derive(Debug, PartialEq, Eq)]
pub struct FnArg {
    pub pattern: Pattern,
    pub ty: Ty,
}

pub ghost struct FnArgView {
    pub pattern: PatternView,
    pub ty: TyView,
}

impl FnArg {
    pub open spec fn model(self) -> FnArgView
        decreases self,
    {
        FnArgView {
            pattern: self.pattern.model(),
            ty: self.ty.model(),
        }
    }

    /// The models of a run of arguments, in order.
    pub open spec fn models(args: Seq<FnArg>) -> Seq<FnArgView>
        decreases args,
    {
        Seq::new(
            args.len(),
            |i: int|
                if 0 <= i < args.len() {
                    args[i].model()
                } else {
                    arbitrary()
                },
        )
    }

    /// Copies of a run of arguments, in order.
    pub fn clone_all(args: &Vec<FnArg>) -> (copies: Vec<FnArg>)
        ensures
            FnArg::models(copies@) == FnArg::models(args@),
        decreases args,
    {
        let mut copies: Vec<FnArg> = Vec::new();
        let mut i: usize = 0;
        while i < args.len()
            invariant
                i <= args.len(),
                copies.len() == i,
                forall|j: int| 0 <= j < i ==> copies[j]@ == args[j]@,
            decreases args.len() - i,
        {
            copies.push(args[i].clone());
            i += 1;
        }
        assert(FnArg::models(copies@) =~= FnArg::models(args@));
        copies
    }
}

impl View for FnArg {
    type V = FnArgView;

    open spec fn view(&self) -> FnArgView {
        self.model()
    }
}

impl Clone for FnArg {
    fn clone(&self) -> (copy: FnArg)
        ensures
            copy@ == self@,
        decreases self,
    {
        FnArg {
            pattern: self.pattern.clone(),
            ty: self.ty.clone(),
        }
    }
}

/// The arguments of a function, which either starts with `self` or does not.
#[derive(Debug, PartialEq, Eq)]
pub enum FnArgs {
    Static(Vec<FnArg>),
    /// `self` first; `args` is what follows it, if anything is written there.
    NonStatic { args: Option<Vec<FnArg>> },
}

pub ghost enum FnArgsView {
    Static(Seq<FnArgView>),
    NonStatic { args: Option<Seq<FnArgView>> },
}

impl FnArgs {
    pub open spec fn model(self) -> FnArgsView
        decreases self,
    {
        match self {
            FnArgs::Static(inner) => FnArgsView::Static(FnArg::models(inner@)),
            FnArgs::NonStatic { args } => FnArgsView::NonStatic {
                args: match args {
                    Some(inner) => Some(FnArg::models(inner@)),
                    None => None,
                },
            },
        }
    }
}

impl View for FnArgs {
    type V = FnArgsView;

    open spec fn view(&self) -> FnArgsView {
        self.model()
    }
}

impl Clone for FnArgs {
    fn clone(&self) -> (copy: FnArgs)
        ensures
            copy@ == self@,
        decreases self,
    {
        match self {
            FnArgs::Static(inner) => FnArgs::Static(FnArg::clone_all(inner)),
            FnArgs::NonStatic { args } => FnArgs::NonStatic {
                args: match args {
                    Some(inner) => Some(FnArg::clone_all(inner)),
                    None => None,
                },
            },
        }
    }
}

/// The signature of a function, and the span it was written at.
#[derive(Debug, PartialEq, Eq)]
pub struct FnSignature {
    pub name: Ident,
    pub arguments: FnArgs,
    pub return_type: Option<Ty>,
    pub where_clause: Option<Vec<WhereBound>>,
    pub span: Span,
}

pub ghost struct FnSignatureView {
    pub name: IdentView,
    pub arguments: FnArgsView,
    pub return_type: Option<TyView>,
    pub where_clause: Option<Seq<WhereBoundView>>,
    pub span: SpanView,
}

impl FnSignature {
    pub open spec fn model(self) -> FnSignatureView
        decreases self,
    {
        FnSignatureView {
            name: self.name@,
            arguments: self.arguments.model(),
            return_type: match self.return_type {
                Some(inner) => Some(inner.model()),
                None => None,
            },
            where_clause: match self.where_clause {
                Some(inner) => Some(WhereBound::models(inner@)),
                None => None,
            },
            span: self.span@,
        }
    }
}

impl View for FnSignature {
    type V = FnSignatureView;

    open spec fn view(&self) -> FnSignatureView {
        self.model()
    }
}

impl Clone for FnSignature {
    fn clone(&self) -> (copy: FnSignature)
        ensures
            copy@ == self@,
        decreases self,
    {
        FnSignature {
            name: self.name.clone(),
            arguments: self.arguments.clone(),
            return_type: match &self.return_type {
                Some(inner) => Some(inner.clone()),
                None => None,
            },
            where_clause: match &self.where_clause {
                Some(inner) => Some(WhereBound::clone_all(inner)),
                None => None,
            },
            span: self.span.clone(),
        }
    }
}

/// A function with its body.
#[derive(Debug, PartialEq, Eq)]
pub struct ItemFn {
    pub fn_signature: FnSignature,
    pub body: Block,
}

pub ghost struct ItemFnView {
    pub fn_signature: FnSignatureView,
    pub body: BlockView,
}

impl ItemFn {
    pub open spec fn model(self) -> ItemFnView
        decreases self,
    {
        ItemFnView {
            fn_signature: self.fn_signature.model(),
            body: self.body.model(),
        }
    }

    /// The models of a run of functions, in order.
    pub open spec fn models(fns: Seq<ItemFn>) -> Seq<ItemFnView>
        decreases fns,
    {
        Seq::new(
            fns.len(),
            |i: int|
                if 0 <= i < fns.len() {
                    fns[i].model()
                } else {
                    arbitrary()
                },
        )
    }

    /// Copies of a run of functions, in order.
    pub fn clone_all(fns: &Vec<ItemFn>) -> (copies: Vec<ItemFn>)
        ensures
            ItemFn::models(copies@) == ItemFn::models(fns@),
        decreases fns,
    {
        let mut copies: Vec<ItemFn> = Vec::new();
        let mut i: usize = 0;
        while i < fns.len()
            invariant
                i <= fns.len(),
                copies.len() == i,
                forall|j: int| 0 <= j < i ==> copies[j]@ == fns[j]@,
            decreases fns.len() - i,
        {
            copies.push(fns[i].clone());
            i += 1;
        }
        assert(ItemFn::models(copies@) =~= ItemFn::models(fns@));
        copies
    }
}

impl View for ItemFn {
    type V = ItemFnView;

    open spec fn view(&self) -> ItemFnView {
        self.model()
    }
}

impl Clone for ItemFn {
    fn clone(&self) -> (copy: ItemFn)
        ensures
            copy@ == self@,
        decreases self,
    {
        ItemFn {
            fn_signature: self.fn_signature.clone(),
            body: self.body.clone(),
        }
    }
}

#[derive(Debug, PartialEq, Eq)]
pub struct ItemConst {
    pub name: Ident,
    pub ty: Option<Ty>,
    pub expr: Option<Expr>,
}

pub ghost struct ItemConstView {
    pub name: IdentView,
    pub ty: Option<TyView>,
    pub expr: Option<ExprView>,
}

impl ItemConst {
    pub open spec fn model(self) -> ItemConstView
        decreases self,
    {
        ItemConstView {
            name: self.name@,
            ty: match self.ty {
                Some(inner) => Some(inner.model()),
                None => None,
            },
            expr: match self.expr {
                Some(inner) => Some(inner.model()),
                None => None,
            },
        }
    }
}

impl View for ItemConst {
    type V = ItemConstView;

    open spec fn view(&self) -> ItemConstView {
        self.model()
    }
}

impl Clone for ItemConst {
    fn clone(&self) -> (copy: ItemConst)
        ensures
            copy@ == self@,
        decreases self,
    {
        ItemConst {
            name: self.name.clone(),
            ty: match &self.ty {
                Some(inner) => Some(inner.clone()),
                None => None,
            },
            expr: match &self.expr {
                Some(inner) => Some(inner.clone()),
                None => None,
            },
        }
    }
}

/// An associated type of a trait or of an implementation.
#[derive(Debug, PartialEq, Eq)]
pub struct TraitType {
    pub name: Ident,
    pub ty: Option<Ty>,
}

pub ghost struct TraitTypeView {
    pub name: IdentView,
    pub ty: Option<TyView>,
}

impl TraitType {
    pub open spec fn model(self) -> TraitTypeView
        decreases self,
    {
        TraitTypeView {
            name: self.name@,
            ty: match self.ty {
                Some(inner) => Some(inner.model()),
                None => None,
            },
        }
    }
}

impl View for TraitType {
    type V = TraitTypeView;

    open spec fn view(&self) -> TraitTypeView {
        self.model()
    }
}

impl Clone for TraitType {
    fn clone(&self) -> (copy: TraitType)
        ensures
            copy@ == self@,
        decreases self,
    {
        TraitType {
            name: self.name.clone(),
            ty: match &self.ty {
                Some(inner) => Some(inner.clone()),
                None => None,
            },
        }
    }
}

/// What a trait declares between its braces.
#[derive(Debug, PartialEq, Eq)]
pub enum ItemTraitItem {
    Fn(FnSignature),
    Const(ItemConst),
    Type(TraitType),
    /// A trait item that could not be parsed.
    Error,
}

pub ghost enum ItemTraitItemView {
    Fn(FnSignatureView),
    Const(ItemConstView),
    Type(TraitTypeView),
    Error,
}

impl ItemTraitItem {
    pub open spec fn model(self) -> ItemTraitItemView
        decreases self,
    {
        match self {
            ItemTraitItem::Fn(inner) => ItemTraitItemView::Fn(inner.model()),
            ItemTraitItem::Const(inner) => ItemTraitItemView::Const(inner.model()),
            ItemTraitItem::Type(inner) => ItemTraitItemView::Type(inner.model()),
            ItemTraitItem::Error => ItemTraitItemView::Error,
        }
    }

    /// The models of a run of trait items, in order.
    pub open spec fn models(items: Seq<ItemTraitItem>) -> Seq<ItemTraitItemView>
        decreases items,
    {
        Seq::new(
            items.len(),
            |i: int|
                if 0 <= i < items.len() {
                    items[i].model()
                } else {
                    arbitrary()
                },
        )
    }

    /// Copies of a run of trait items, in order.
    pub fn clone_all(items: &Vec<ItemTraitItem>) -> (copies: Vec<ItemTraitItem>)
        ensures
            ItemTraitItem::models(copies@) == ItemTraitItem::models(items@),
        decreases items,
    {
        let mut copies: Vec<ItemTraitItem> = Vec::new();
        let mut i: usize = 0;
        while i < items.len()
            invariant
                i <= items.len(),
                copies.len() == i,
                forall|j: int| 0 <= j < i ==> copies[j]@ == items[j]@,
            decreases items.len() - i,
        {
            copies.push(items[i].clone());
            i += 1;
        }
        assert(ItemTraitItem::models(copies@) =~= ItemTraitItem::models(items@));
        copies
    }
}

impl View for ItemTraitItem {
    type V = ItemTraitItemView;

    open spec fn view(&self) -> ItemTraitItemView {
        self.model()
    }
}

impl Clone for ItemTraitItem {
    fn clone(&self) -> (copy: ItemTraitItem)
        ensures
            copy@ == self@,
        decreases self,
    {
        match self {
            ItemTraitItem::Fn(inner) => ItemTraitItem::Fn(inner.clone()),
            ItemTraitItem::Const(inner) => ItemTraitItem::Const(inner.clone()),
            ItemTraitItem::Type(inner) => ItemTraitItem::Type(inner.clone()),
            ItemTraitItem::Error => ItemTraitItem::Error,
        }
    }
}

#[derive(Debug, PartialEq, Eq)]
pub struct ItemTrait {
    pub name: Ident,
    pub where_clause: Option<Vec<WhereBound>>,
    pub super_traits: Option<Traits>,
    pub trait_items: Vec<ItemTraitItem>,
    /// The functions that the trait provides with a body.
    pub trait_defs: Vec<ItemFn>,
}

pub ghost struct ItemTraitView {
    pub name: IdentView,
    pub where_clause: Option<Seq<WhereBoundView>>,
    pub super_traits: Option<TraitsView>,
    pub trait_items: Seq<ItemTraitItemView>,
    pub trait_defs: Seq<ItemFnView>,
}

impl ItemTrait {
    pub open spec fn model(self) -> ItemTraitView
        decreases self,
    {
        ItemTraitView {
            name: self.name@,
            where_clause: match self.where_clause {
                Some(inner) => Some(WhereBound::models(inner@)),
                None => None,
            },
            super_traits: match self.super_traits {
                Some(inner) => Some(inner.model()),
                None => None,
            },
            trait_items: ItemTraitItem::models(self.trait_items@),
            trait_defs: ItemFn::models(self.trait_defs@),
        }
    }
}

impl View for ItemTrait {
    type V = ItemTraitView;

    open spec fn view(&self) -> ItemTraitView {
        self.model()
    }
}

impl Clone for ItemTrait {
    fn clone(&self) -> (copy: ItemTrait)
        ensures
            copy@ == self@,
        decreases self,
    {
        ItemTrait {
            name: self.name.clone(),
            where_clause: match &self.where_clause {
                Some(inner) => Some(WhereBound::clone_all(inner)),
                None => None,
            },
            super_traits: match &self.super_traits {
                Some(inner) => Some(inner.clone()),
                None => None,
            },
            trait_items: ItemTraitItem::clone_all(&self.trait_items),
            trait_defs: ItemFn::clone_all(&self.trait_defs),
        }
    }
}

/// What an implementation holds between its braces.
#[derive(Debug, PartialEq, Eq)]
pub enum ItemImplItem {
    Fn(ItemFn),
    Const(ItemConst),
    Type(TraitType),
}

pub ghost enum ItemImplItemView {
    Fn(ItemFnView),
    Const(ItemConstView),
    Type(TraitTypeView),
}

impl ItemImplItem {
    pub open spec fn model(self) -> ItemImplItemView
        decreases self,
    {
        match self {
            ItemImplItem::Fn(inner) => ItemImplItemView::Fn(inner.model()),
            ItemImplItem::Const(inner) => ItemImplItemView::Const(inner.model()),
            ItemImplItem::Type(inner) => ItemImplItemView::Type(inner.model()),
        }
    }

    /// The models of a run of implementation items, in order.
    pub open spec fn models(items: Seq<ItemImplItem>) -> Seq<ItemImplItemView>
        decreases items,
    {
        Seq::new(
            items.len(),
            |i: int|
                if 0 <= i < items.len() {
                    items[i].model()
                } else {
                    arbitrary()
                },
        )
    }

    /// Copies of a run of implementation items, in order.
    pub fn clone_all(items: &Vec<ItemImplItem>) -> (copies: Vec<ItemImplItem>)
        ensures
            ItemImplItem::models(copies@) == ItemImplItem::models(items@),
        decreases items,
    {
        let mut copies: Vec<ItemImplItem> = Vec::new();
        let mut i: usize = 0;
        while i < items.len()
            invariant
                i <= items.len(),
                copies.len() == i,
                forall|j: int| 0 <= j < i ==> copies[j]@ == items[j]@,
            decreases items.len() - i,
        {
            copies.push(items[i].clone());
            i += 1;
        }
        assert(ItemImplItem::models(copies@) =~= ItemImplItem::models(items@));
        copies
    }
}

impl View for ItemImplItem {
    type V = ItemImplItemView;

    open spec fn view(&self) -> ItemImplItemView {
        self.model()
    }
}

impl Clone for ItemImplItem {
    fn clone(&self) -> (copy: ItemImplItem)
        ensures
            copy@ == self@,
        decreases self,
    {
        match self {
            ItemImplItem::Fn(inner) => ItemImplItem::Fn(inner.clone()),
            ItemImplItem::Const(inner) => ItemImplItem::Const(inner.clone()),
            ItemImplItem::Type(inner) => ItemImplItem::Type(inner.clone()),
        }
    }
}

#[derive(Debug, PartialEq, Eq)]
pub struct ItemImpl {
    pub ty: Ty,
    pub contents: Vec<ItemImplItem>,
}

pub ghost struct ItemImplView {
    pub ty: TyView,
    pub contents: Seq<ItemImplItemView>,
}

impl ItemImpl {
    pub open spec fn model(self) -> ItemImplView
        decreases self,
    {
        ItemImplView {
            ty: self.ty.model(),
            contents: ItemImplItem::models(self.contents@),
        }
    }
}

impl View for ItemImpl {
    type V = ItemImplView;

    open spec fn view(&self) -> ItemImplView {
        self.model()
    }
}

impl Clone for ItemImpl {
    fn clone(&self) -> (copy: ItemImpl)
        ensures
            copy@ == self@,
        decreases self,
    {
        ItemImpl {
            ty: self.ty.clone(),
            contents: ItemImplItem::clone_all(&self.contents),
        }
    }
}

#[derive(Debug, PartialEq, Eq)]
pub struct ItemAbi {
    pub name: Ident,
    pub abi_items: Vec<ItemTraitItem>,
    pub abi_defs: Vec<ItemFn>,
}

pub ghost struct ItemAbiView {
    pub name: IdentView,
    pub abi_items: Seq<ItemTraitItemView>,
    pub abi_defs: Seq<ItemFnView>,
}

impl ItemAbi {
    pub open spec fn model(self) -> ItemAbiView
        decreases self,
    {
        ItemAbiView {
            name: self.name@,
            abi_items: ItemTraitItem::models(self.abi_items@),
            abi_defs: ItemFn::models(self.abi_defs@),
        }
    }
}

impl View for ItemAbi {
    type V = ItemAbiView;

    open spec fn view(&self) -> ItemAbiView {
        self.model()
    }
}

impl Clone for ItemAbi {
    fn clone(&self) -> (copy: ItemAbi)
        ensures
            copy@ == self@,
        decreases self,
    {
        ItemAbi {
            name: self.name.clone(),
            abi_items: ItemTraitItem::clone_all(&self.abi_items),
            abi_defs: ItemFn::clone_all(&self.abi_defs),
        }
    }
}

/// A field of the contract's storage, or a configurable: a name, its type and
/// the expression that gives its first value.
#[derive(Debug, PartialEq, Eq)]
pub struct StorageField {
    pub name: Ident,
    pub ty: Ty,
    pub initializer: Expr,
}

pub ghost struct StorageFieldView {
    pub name: IdentView,
    pub ty: TyView,
    pub initializer: ExprView,
}

impl StorageField {
    pub open spec fn model(self) -> StorageFieldView
        decreases self,
    {
        StorageFieldView {
            name: self.name@,
            ty: self.ty.model(),
            initializer: self.initializer.model(),
        }
    }

    /// The models of a run of storage fields, in order.
    pub open spec fn models(fields: Seq<StorageField>) -> Seq<StorageFieldView>
        decreases fields,
    {
        Seq::new(
            fields.len(),
            |i: int|
                if 0 <= i < fields.len() {
                    fields[i].model()
                } else {
                    arbitrary()
                },
        )
    }

    /// Copies of a run of storage fields, in order.
    pub fn clone_all(fields: &Vec<StorageField>) -> (copies: Vec<StorageField>)
        ensures
            StorageField::models(copies@) == StorageField::models(fields@),
        decreases fields,
    {
        let mut copies: Vec<StorageField> = Vec::new();
        let mut i: usize = 0;
        while i < fields.len()
            invariant
                i <= fields.len(),
                copies.len() == i,
                forall|j: int| 0 <= j < i ==> copies[j]@ == fields[j]@,
            decreases fields.len() - i,
        {
            copies.push(fields[i].clone());
            i += 1;
        }
        assert(StorageField::models(copies@) =~= StorageField::models(fields@));
        copies
    }
}

impl View for StorageField {
    type V = StorageFieldView;

    open spec fn view(&self) -> StorageFieldView {
        self.model()
    }
}

impl Clone for StorageField {
    fn clone(&self) -> (copy: StorageField)
        ensures
            copy@ == self@,
        decreases self,
    {
        StorageField {
            name: self.name.clone(),
            ty: self.ty.clone(),
            initializer: self.initializer.clone(),
        }
    }
}

#[derive(Debug, PartialEq, Eq)]
pub struct ItemStorage {
    pub fields: Vec<StorageField>,
}

pub ghost struct ItemStorageView {
    pub fields: Seq<StorageFieldView>,
}

impl ItemStorage {
    pub open spec fn model(self) -> ItemStorageView
        decreases self,
    {
        ItemStorageView {
            fields: StorageField::models(self.fields@),
        }
    }
}

impl View for ItemStorage {
    type V = ItemStorageView;

    open spec fn view(&self) -> ItemStorageView {
        self.model()
    }
}

impl Clone for ItemStorage {
    fn clone(&self) -> (copy: ItemStorage)
        ensures
            copy@ == self@,
        decreases self,
    {
        ItemStorage {
            fields: StorageField::clone_all(&self.fields),
        }
    }
}

#[derive(Debug, PartialEq, Eq)]
pub struct ItemConfigurable {
    pub fields: Vec<StorageField>,
}

pub ghost struct ItemConfigurableView {
    pub fields: Seq<StorageFieldView>,
}

impl ItemConfigurable {
    pub open spec fn model(self) -> ItemConfigurableView
        decreases self,
    {
        ItemConfigurableView {
            fields: StorageField::models(self.fields@),
        }
    }
}

impl View for ItemConfigurable {
    type V = ItemConfigurableView;

    open spec fn view(&self) -> ItemConfigurableView {
        self.model()
    }
}

impl Clone for ItemConfigurable {
    fn clone(&self) -> (copy: ItemConfigurable)
        ensures
            copy@ == self@,
        decreases self,
    {
        ItemConfigurable {
            fields: StorageField::clone_all(&self.fields),
        }
    }
}

#[derive(Debug, PartialEq, Eq)]
pub struct ItemTypeAlias {
    pub name: Ident,
    pub ty: Ty,
}

pub ghost struct ItemTypeAliasView {
    pub name: IdentView,
    pub ty: TyView,
}

impl ItemTypeAlias {
    pub open spec fn model(self) -> ItemTypeAliasView
        decreases self,
    {
        ItemTypeAliasView {
            name: self.name@,
            ty: self.ty.model(),
        }
    }
}

impl View for ItemTypeAlias {
    type V = ItemTypeAliasView;

    open spec fn view(&self) -> ItemTypeAliasView {
        self.model()
    }
}

impl Clone for ItemTypeAlias {
    fn clone(&self) -> (copy: ItemTypeAlias)
        ensures
            copy@ == self@,
        decreases self,
    {
        ItemTypeAlias {
            name: self.name.clone(),
            ty: self.ty.clone(),
        }
    }
}

/// An item of a module, or of a block.
#[derive(Debug, PartialEq, Eq)]
pub enum ItemKind {
    Use(ItemUse),
    Struct(ItemStruct),
    Enum(ItemEnum),
    Fn(ItemFn),
    Trait(ItemTrait),
    Impl(ItemImpl),
    Abi(ItemAbi),
    Const(ItemConst),
    Storage(ItemStorage),
    Configurable(ItemConfigurable),
    TypeAlias(ItemTypeAlias),
    /// A submodule declaration, or an item that could not be parsed.
    Other,
}

pub ghost enum ItemKindView {
    Use(ItemUseView),
    Struct(ItemStructView),
    Enum(ItemEnumView),
    Fn(ItemFnView),
    Trait(ItemTraitView),
    Impl(ItemImplView),
    Abi(ItemAbiView),
    Const(ItemConstView),
    Storage(ItemStorageView),
    Configurable(ItemConfigurableView),
    TypeAlias(ItemTypeAliasView),
    Other,
}

impl ItemKind {
    pub open spec fn model(self) -> ItemKindView
        decreases self,
    {
        match self {
            ItemKind::Use(inner) => ItemKindView::Use(inner.model()),
            ItemKind::Struct(inner) => ItemKindView::Struct(inner.model()),
            ItemKind::Enum(inner) => ItemKindView::Enum(inner.model()),
            ItemKind::Fn(inner) => ItemKindView::Fn(inner.model()),
            ItemKind::Trait(inner) => ItemKindView::Trait(inner.model()),
            ItemKind::Impl(inner) => ItemKindView::Impl(inner.model()),
            ItemKind::Abi(inner) => ItemKindView::Abi(inner.model()),
            ItemKind::Const(inner) => ItemKindView::Const(inner.model()),
            ItemKind::Storage(inner) => ItemKindView::Storage(inner.model()),
            ItemKind::Configurable(inner) => ItemKindView::Configurable(inner.model()),
            ItemKind::TypeAlias(inner) => ItemKindView::TypeAlias(inner.model()),
            ItemKind::Other => ItemKindView::Other,
        }
    }

    /// The models of a run of items, in order.
    pub open spec fn models(items: Seq<ItemKind>) -> Seq<ItemKindView>
        decreases items,
    {
        Seq::new(
            items.len(),
            |i: int|
                if 0 <= i < items.len() {
                    items[i].model()
                } else {
                    arbitrary()
                },
        )
    }

    /// Copies of a run of items, in order.
    pub fn clone_all(items: &Vec<ItemKind>) -> (copies: Vec<ItemKind>)
        ensures
            ItemKind::models(copies@) == ItemKind::models(items@),
        decreases items,
    {
        let mut copies: Vec<ItemKind> = Vec::new();
        let mut i: usize = 0;
        while i < items.len()
            invariant
                i <= items.len(),
                copies.len() == i,
                forall|j: int| 0 <= j < i ==> copies[j]@ == items[j]@,
            decreases items.len() - i,
        {
            copies.push(items[i].clone());
            i += 1;
        }
        assert(ItemKind::models(copies@) =~= ItemKind::models(items@));
        copies
    }
}

impl View for ItemKind {
    type V = ItemKindView;

    open spec fn view(&self) -> ItemKindView {
        self.model()
    }
}

impl Clone for ItemKind {
    fn clone(&self) -> (copy: ItemKind)
        ensures
            copy@ == self@,
        decreases self,
    {
        match self {
            ItemKind::Use(inner) => ItemKind::Use(inner.clone()),
            ItemKind::Struct(inner) => ItemKind::Struct(inner.clone()),
            ItemKind::Enum(inner) => ItemKind::Enum(inner.clone()),
            ItemKind::Fn(inner) => ItemKind::Fn(inner.clone()),
            ItemKind::Trait(inner) => ItemKind::Trait(inner.clone()),
            ItemKind::Impl(inner) => ItemKind::Impl(inner.clone()),
            ItemKind::Abi(inner) => ItemKind::Abi(inner.clone()),
            ItemKind::Const(inner) => ItemKind::Const(inner.clone()),
            ItemKind::Storage(inner) => ItemKind::Storage(inner.clone()),
            ItemKind::Configurable(inner) => ItemKind::Configurable(inner.clone()),
            ItemKind::TypeAlias(inner) => ItemKind::TypeAlias(inner.clone()),
            ItemKind::Other => ItemKind::Other,
        }
    }
}

/// One source file: the items it declares, in order.
#[derive(Debug, PartialEq, Eq)]
pub struct Module {
    pub items: Vec<ItemKind>,
}

pub ghost struct ModuleView {
    pub items: Seq<ItemKindView>,
}

impl Module {
    pub open spec fn model(self) -> ModuleView
        decreases self,
    {
        ModuleView {
            items: ItemKind::models(self.items@),
        }
    }
}

impl View for Module {
    type V = ModuleView;

    open spec fn view(&self) -> ModuleView {
        self.model()
    }
}

impl Clone for Module {
    fn clone(&self) -> (copy: Module)
        ensures
            copy@ == self@,
        decreases self,
    {
        Module {
            items: ItemKind::clone_all(&self.items),
        }
    }
}

} // verus!
