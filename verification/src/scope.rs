//! Lexical scopes: which declaration a name refers to, from where.

use vstd::prelude::*;
use crate::syntax::item::{FnSignature, FnSignatureView, ItemUse, UseTreeView};
use crate::syntax::ty::{Ty, TyView};

verus! {

/// What kind of declaration introduced a name.
#[derive(Clone, Copy, Debug, PartialEq, Eq, Structural)]
pub enum AstVariableKind {
    Constant,
    Storage,
    Configurable,
    Parameter,
    Local,
}

/// A declared name with its kind and its declared type.
#[derive(Debug, PartialEq, Eq)]
pub struct AstVariable {
    pub kind: AstVariableKind,
    pub name: String,
    pub ty: Ty,
}

pub ghost struct AstVariableView {
    pub kind: AstVariableKind,
    pub name: Seq<char>,
    pub ty: TyView,
}

impl View for AstVariable {
    type V = AstVariableView;

    open spec fn view(&self) -> AstVariableView {
        AstVariableView { kind: self.kind, name: self.name@, ty: self.ty@ }
    }
}

impl Clone for AstVariable {
    fn clone(&self) -> (copy: AstVariable)
        ensures
            copy@ == self@,
    {
        AstVariable { kind: self.kind, name: self.name.clone(), ty: self.ty.clone() }
    }
}

impl AstVariableView {
    /// Storage names and all other names live apart: a query is for one side
    /// or the other.
    pub open spec fn is_storage(self) -> bool {
        self.kind == AstVariableKind::Storage
    }

    /// Whether this is a declaration of `name` on the side that is asked for.
    pub open spec fn answers(self, name: Seq<char>, is_storage: bool) -> bool {
        self.is_storage() == is_storage && self.name == name
    }
}

/// Names one variable record of a scope tree: the scope that declares it, and
/// its place among that scope's declarations. Two holders of the same id
/// speak of the same record.
#[derive(Clone, Copy, Debug, PartialEq, Eq, Structural)]
pub struct VariableId {
    pub scope: usize,
    pub slot: usize,
}

/// The place of a variable record in a tree of any size.
pub ghost struct Place {
    pub scope: nat,
    pub slot: nat,
}

impl View for VariableId {
    type V = Place;

    open spec fn view(&self) -> Place {
        Place { scope: self.scope as nat, slot: self.slot as nat }
    }
}

/// One scope: its declarations in the order they were made, and the scope
/// around it.
struct Frame {
    parent: Option<usize>,
    uses: Vec<ItemUse>,
    variables: Vec<AstVariable>,
    functions: Vec<FnSignature>,
}

pub ghost struct FrameView {
    pub parent: Option<nat>,
    pub uses: Seq<UseTreeView>,
    pub variables: Seq<AstVariableView>,
    pub functions: Seq<FnSignatureView>,
}

impl FrameView {
    /// A scope inside `parent` in which nothing is declared yet.
    pub open spec fn empty(parent: Option<nat>) -> FrameView {
        FrameView { parent, uses: Seq::empty(), variables: Seq::empty(), functions: Seq::empty() }
    }
}

impl Frame {
    spec fn model(self) -> FrameView {
        FrameView {
            parent: match self.parent {
                Some(p) => Some(p as nat),
                None => None,
            },
            uses: self.uses@.map_values(|u: ItemUse| u@.tree),
            variables: self.variables@.map_values(|v: AstVariable| v@),
            functions: self.functions@.map_values(|f: FnSignature| f@),
        }
    }
}

/// The place of the most recent declaration in `variables` that answers the
/// query, if there is one.
pub open spec fn last_declared(variables: Seq<AstVariableView>, name: Seq<char>, is_storage: bool)
    -> Option<nat>
    decreases variables.len(),
{
    if variables.len() == 0 {
        None
    } else if variables.last().answers(name, is_storage) {
        Some((variables.len() - 1) as nat)
    } else {
        last_declared(variables.drop_last(), name, is_storage)
    }
}

/// A tree of scopes with one of them current.
///
/// Scope 0 is the root. Every other scope was opened inside one that already
/// existed, so a scope's parent has a smaller index than the scope itself:
/// that is what `wf` of the view says, and every tree that this module hands
/// out is well formed.
pub struct AstScope {
    frames: Vec<Frame>,
    current: usize,
}

pub ghost struct AstScopeView {
    pub frames: Seq<FrameView>,
    pub current: nat,
}

impl AstScopeView {
    pub open spec fn wf(self) -> bool {
        &&& self.current < self.frames.len()
        &&& forall|i: int|
            0 <= i < self.frames.len() ==> match (#[trigger] self.frames[i]).parent {
                Some(p) => p < i,
                None => true,
            }
    }

    /// The tree of one root scope with nothing declared.
    pub open spec fn root() -> AstScopeView {
        AstScopeView { frames: seq![FrameView::empty(None)], current: 0 }
    }

    pub open spec fn has_variable(self, place: Place) -> bool {
        &&& place.scope < self.frames.len()
        &&& place.slot < self.frames[place.scope as int].variables.len()
    }

    pub open spec fn variable(self, place: Place) -> AstVariableView
        recommends
            self.has_variable(place),
    {
        self.frames[place.scope as int].variables[place.slot as int]
    }

    /// Where the next declaration in the current scope will stand.
    pub open spec fn next_place(self) -> Place {
        Place { scope: self.current, slot: self.frames[self.current as int].variables.len() }
    }

    /// The declaration that `name` refers to from `scope`: the most recent
    /// one in `scope` itself and, where there is none, what the name refers
    /// to from the parent of `scope`. Only declarations on the side asked for
    /// count.
    pub open spec fn lookup_from(self, scope: nat, name: Seq<char>, is_storage: bool) -> Option<
        Place,
    >
        decreases scope,
    {
        if scope >= self.frames.len() {
            None
        } else {
            match last_declared(self.frames[scope as int].variables, name, is_storage) {
                Some(slot) => Some(Place { scope, slot }),
                None => match self.frames[scope as int].parent {
                    Some(parent) => if parent < scope {
                        self.lookup_from(parent, name, is_storage)
                    } else {
                        None
                    },
                    None => None,
                },
            }
        }
    }

    /// The declaration that `name` refers to from the current scope.
    pub open spec fn lookup(self, name: Seq<char>, is_storage: bool) -> Option<Place> {
        self.lookup_from(self.current, name, is_storage)
    }

    /// The imports in sight from `scope`: those of the scopes around it,
    /// outermost first, then its own, each scope's in the order they were
    /// recorded.
    pub open spec fn uses_from(self, scope: nat) -> Seq<UseTreeView>
        decreases scope,
    {
        if scope >= self.frames.len() {
            Seq::empty()
        } else {
            (match self.frames[scope as int].parent {
                Some(parent) => if parent < scope {
                    self.uses_from(parent)
                } else {
                    Seq::empty()
                },
                None => Seq::empty(),
            }) + self.frames[scope as int].uses
        }
    }

    /// The imports in sight from the current scope.
    pub open spec fn uses_in_sight(self) -> Seq<UseTreeView> {
        self.uses_from(self.current)
    }

    /// The tree after a new scope was opened inside the current one and made
    /// current.
    pub open spec fn entered(self) -> AstScopeView {
        AstScopeView {
            frames: self.frames.push(FrameView::empty(Some(self.current))),
            current: self.frames.len(),
        }
    }

    /// The tree after the current scope was left for its parent. The root
    /// has no parent and stays current.
    pub open spec fn left(self) -> AstScopeView {
        AstScopeView {
            frames: self.frames,
            current: match self.frames[self.current as int].parent {
                Some(parent) => parent,
                None => self.current,
            },
        }
    }

    /// The tree after `variable` was declared in the current scope.
    pub open spec fn declared(self, variable: AstVariableView) -> AstScopeView {
        let frame = self.frames[self.current as int];
        AstScopeView {
            frames: self.frames.update(
                self.current as int,
                FrameView { variables: frame.variables.push(variable), ..frame },
            ),
            current: self.current,
        }
    }

    /// The tree after the record at `place` was given the type `ty`.
    pub open spec fn retyped(self, place: Place, ty: TyView) -> AstScopeView
        recommends
            self.has_variable(place),
    {
        let frame = self.frames[place.scope as int];
        let variable = frame.variables[place.slot as int];
        AstScopeView {
            frames: self.frames.update(
                place.scope as int,
                FrameView {
                    variables: frame.variables.update(
                        place.slot as int,
                        AstVariableView { ty, ..variable },
                    ),
                    ..frame
                },
            ),
            current: self.current,
        }
    }

    /// The tree after an import was recorded in the current scope.
    pub open spec fn imported(self, tree: UseTreeView) -> AstScopeView {
        let frame = self.frames[self.current as int];
        AstScopeView {
            frames: self.frames.update(
                self.current as int,
                FrameView { uses: frame.uses.push(tree), ..frame },
            ),
            current: self.current,
        }
    }

    /// The tree after a function signature was recorded in the current scope.
    pub open spec fn with_function(self, signature: FnSignatureView) -> AstScopeView {
        let frame = self.frames[self.current as int];
        AstScopeView {
            frames: self.frames.update(
                self.current as int,
                FrameView { functions: frame.functions.push(signature), ..frame },
            ),
            current: self.current,
        }
    }
}

impl View for AstScope {
    type V = AstScopeView;

    closed spec fn view(&self) -> AstScopeView {
        AstScopeView {
            frames: self.frames@.map_values(|f: Frame| f.model()),
            current: self.current as nat,
        }
    }
}

impl Default for AstScope {
    fn default() -> (scope: AstScope)
        ensures
            scope@ == AstScopeView::root(),
            scope@.wf(),
    {
        AstScope::new()
    }
}

impl AstScope {
    /// A tree of one root scope with nothing declared.
    pub fn new() -> (scope: AstScope)
        ensures
            scope@ == AstScopeView::root(),
            scope@.wf(),
    {
        let mut frames: Vec<Frame> = Vec::new();
        frames.push(
            Frame { parent: None, uses: Vec::new(), variables: Vec::new(), functions: Vec::new() },
        );
        let scope = AstScope { frames, current: 0 };
        assert(scope@.frames =~= seq![FrameView::empty(None)]) by {
            assert(scope.frames[0].model().uses =~= Seq::empty());
            assert(scope.frames[0].model().variables =~= Seq::empty());
            assert(scope.frames[0].model().functions =~= Seq::empty());
        }
        scope
    }

    /// The index of the current scope.
    pub fn current(&self) -> (index: usize)
        ensures
            index == self@.current,
    {
        self.current
    }

    /// Opens a scope inside the current one, makes it current and gives its
    /// index.
    pub fn enter(&mut self) -> (index: usize)
        requires
            old(self)@.wf(),
        ensures
            final(self)@.wf(),
            final(self)@ == old(self)@.entered(),
            index == final(self)@.current,
    {
        let index = self.frames.len();
        let frame = Frame {
            parent: Some(self.current),
            uses: Vec::new(),
            variables: Vec::new(),
            functions: Vec::new(),
        };
        proof {
            assert(frame.model().uses =~= Seq::empty());
            assert(frame.model().variables =~= Seq::empty());
            assert(frame.model().functions =~= Seq::empty());
        }
        self.frames.push(frame);
        self.current = index;
        proof {
            assert(self@.frames =~= old(self)@.entered().frames);
        }
        index
    }

    /// Leaves the current scope for its parent. At the root nothing changes.
    pub fn leave(&mut self)
        requires
            old(self)@.wf(),
        ensures
            final(self)@.wf(),
            final(self)@ == old(self)@.left(),
    {
        match self.frames[self.current].parent {
            Some(parent) => {
                assert(old(self)@.frames[old(self)@.current as int].parent == Some(parent as nat));
                self.current = parent;
            },
            None => {
                assert(old(self)@.frames[old(self)@.current as int].parent.is_none());
            },
        }
    }

    /// Declares `variable` in the current scope, after everything declared
    /// there before, and gives the id of its record.
    pub fn declare(&mut self, variable: AstVariable) -> (id: VariableId)
        requires
            old(self)@.wf(),
        ensures
            final(self)@.wf(),
            final(self)@ == old(self)@.declared(variable@),
            id@ == old(self)@.next_place(),
    {
        let current = self.current;
        let slot = self.frames[current].variables.len();
        let ghost before = self.frames[current as int];
        self.frames[current].variables.push(variable);
        proof {
            let after = self.frames[current as int];
            assert(after.model().variables =~= before.model().variables.push(variable@));
            assert(self@.frames =~= old(self)@.declared(variable@).frames);
        }
        VariableId { scope: current, slot }
    }

    /// Records an import in the current scope.
    pub fn add_use(&mut self, item_use: ItemUse)
        requires
            old(self)@.wf(),
        ensures
            final(self)@.wf(),
            final(self)@ == old(self)@.imported(item_use@.tree),
    {
        let current = self.current;
        let ghost before = self.frames[current as int];
        self.frames[current].uses.push(item_use);
        proof {
            let after = self.frames[current as int];
            assert(after.model().uses =~= before.model().uses.push(item_use@.tree));
            assert(self@.frames =~= old(self)@.imported(item_use@.tree).frames);
        }
    }

    /// Records a function signature in the current scope.
    pub fn add_function(&mut self, signature: FnSignature)
        requires
            old(self)@.wf(),
        ensures
            final(self)@.wf(),
            final(self)@ == old(self)@.with_function(signature@),
    {
        let current = self.current;
        let ghost before = self.frames[current as int];
        self.frames[current].functions.push(signature);
        proof {
            let after = self.frames[current as int];
            assert(after.model().functions =~= before.model().functions.push(signature@));
            assert(self@.frames =~= old(self)@.with_function(signature@).frames);
        }
    }

    /// The imports in sight from `scope`.
    fn uses_from(&self, scope: usize) -> (uses: Vec<&ItemUse>)
        requires
            self@.wf(),
            scope < self.frames.len(),
        ensures
            uses@.map_values(|u: &ItemUse| u@.tree) == self@.uses_from(scope as nat),
        decreases scope,
    {
        let frame = &self.frames[scope];
        let mut uses: Vec<&ItemUse> = match frame.parent {
            Some(parent) => {
                assert(self@.frames[scope as int].parent == Some(parent as nat));
                self.uses_from(parent)
            },
            None => {
                assert(self@.frames[scope as int].parent.is_none());
                Vec::new()
            },
        };
        let ghost around = uses@.map_values(|u: &ItemUse| u@.tree);
        let ghost own = self@.frames[scope as int].uses;
        assert(own == frame.model().uses);
        assert(around + own.take(0) =~= around);
        let mut i: usize = 0;
        while i < frame.uses.len()
            invariant
                i <= frame.uses.len(),
                own == frame.uses@.map_values(|u: ItemUse| u@.tree),
                uses@.map_values(|u: &ItemUse| u@.tree) == around + own.take(i as int),
            decreases frame.uses.len() - i,
        {
            let ghost before = uses@.map_values(|u: &ItemUse| u@.tree);
            uses.push(&frame.uses[i]);
            let ghost added = frame.uses[i as int]@.tree;
            assert(uses@.map_values(|u: &ItemUse| u@.tree) =~= before.push(added));
            assert(own.take(i + 1) =~= own.take(i as int).push(own[i as int]));
            assert(before.push(own[i as int]) =~= around + own.take(i + 1));
            i += 1;
        }
        assert(own.take(i as int) =~= own);
        uses
    }

    /// The imports in sight from the current scope: those of the scopes
    /// around it, outermost first, then its own.
    pub fn uses_in_sight(&self) -> (uses: Vec<&ItemUse>)
        requires
            self@.wf(),
        ensures
            uses@.map_values(|u: &ItemUse| u@.tree) == self@.uses_in_sight(),
    {
        self.uses_from(self.current)
    }

    /// The function signatures recorded in the current scope.
    pub fn functions(&self) -> (functions: &Vec<FnSignature>)
        requires
            self@.wf(),
        ensures
            functions@.map_values(|f: FnSignature| f@)
                == self@.frames[self@.current as int].functions,
    {
        let frame = &self.frames[self.current];
        assert(self@.frames[self.current as int] == frame.model());
        &frame.functions
    }

    /// The index of the scope around the current one, if there is one.
    pub fn parent(&self) -> (parent: Option<usize>)
        requires
            self@.wf(),
        ensures
            match parent {
                Some(parent) => self@.frames[self@.current as int].parent == Some(parent as nat),
                None => self@.frames[self@.current as int].parent.is_none(),
            },
    {
        let frame = &self.frames[self.current];
        assert(self@.frames[self.current as int] == frame.model());
        frame.parent
    }

    /// Gives the record that `id` names the type `ty`, and says whether the
    /// tree has a record there. Whoever holds the id sees the new type from
    /// then on.
    pub fn retype(&mut self, id: VariableId, ty: Ty) -> (changed: bool)
        requires
            old(self)@.wf(),
        ensures
            final(self)@.wf(),
            changed == old(self)@.has_variable(id@),
            final(self)@ == if changed {
                old(self)@.retyped(id@, ty@)
            } else {
                old(self)@
            },
    {
        if id.scope < self.frames.len() && id.slot < self.frames[id.scope].variables.len() {
            let ghost before = self.frames[id.scope as int];
            self.frames[id.scope].variables[id.slot].ty = ty;
            proof {
                let after = self.frames[id.scope as int];
                assert(after.model().variables =~= before.model().variables.update(
                    id.slot as int,
                    AstVariableView { ty: ty@, ..before.model().variables[id.slot as int] },
                ));
                assert(after.model().uses =~= before.model().uses);
                assert(after.model().functions =~= before.model().functions);
                assert(self@.frames =~= old(self)@.retyped(id@, ty@).frames);
            }
            true
        } else {
            false
        }
    }

    /// The record that `id` names, if the tree has one there.
    pub fn variable(&self, id: VariableId) -> (record: Option<&AstVariable>)
        ensures
            match record {
                Some(variable) => self@.has_variable(id@) && variable@ == self@.variable(id@),
                None => !self@.has_variable(id@),
            },
    {
        if id.scope < self.frames.len() && id.slot < self.frames[id.scope].variables.len() {
            Some(&self.frames[id.scope].variables[id.slot])
        } else {
            None
        }
    }

    /// Looks `name` up from the current scope outwards.
    ///
    /// In each scope the most recent declaration wins; a scope that has none
    /// hands the query to its parent. Storage names are found only when
    /// `is_storage` is set, all other names only when it is not.
    #[verifier::loop_isolation(false)]
    pub fn get_variable(&self, name: &str, is_storage: bool) -> (found: Option<VariableId>)
        requires
            self@.wf(),
        ensures
            match found {
                Some(id) => self@.lookup(name@, is_storage) == Some(id@),
                None => self@.lookup(name@, is_storage).is_none(),
            },
    {
        let wanted = name.to_owned();
        let mut scope = self.current;
        loop
            invariant
                self@.wf(),
                wanted@ == name@,
                scope < self.frames.len(),
                self@.lookup(name@, is_storage) == self@.lookup_from(
                    scope as nat,
                    name@,
                    is_storage,
                ),
            decreases scope,
        {
            let frame = &self.frames[scope];
            let ghost declared = self@.frames[scope as int].variables;
            assert(declared == frame.model().variables);
            assert(declared.take(declared.len() as int) =~= declared);
            let mut i = frame.variables.len();
            while i > 0
                invariant
                    i <= frame.variables.len(),
                    wanted@ == name@,
                    declared == frame.variables@.map_values(|v: AstVariable| v@),
                    last_declared(declared, name@, is_storage) == last_declared(
                        declared.take(i as int),
                        name@,
                        is_storage,
                    ),
                decreases i,
            {
                i -= 1;
                let variable = &frame.variables[i];
                assert(declared.take(i + 1).last() == variable@);
                assert(declared.take(i + 1).drop_last() =~= declared.take(i as int));
                if (variable.kind == AstVariableKind::Storage) == is_storage && variable.name
                    == wanted {
                    return Some(VariableId { scope, slot: i });
                }
            }
            assert(declared.take(0) =~= Seq::empty());
            match frame.parent {
                Some(parent) => {
                    assert(self@.frames[scope as int].parent == Some(parent as nat));
                    scope = parent;
                },
                None => {
                    return None;
                },
            }
        }
    }
}

/// What `last_declared` finds is a declaration that answers the query, and
/// none after it does.
pub proof fn lemma_last_declared(variables: Seq<AstVariableView>, name: Seq<char>, is_storage: bool)
    ensures
        match last_declared(variables, name, is_storage) {
            Some(slot) => {
                &&& slot < variables.len()
                &&& variables[slot as int].answers(name, is_storage)
                &&& forall|later: int|
                    slot < later < variables.len() ==> !(#[trigger] variables[later]).answers(
                        name,
                        is_storage,
                    )
            },
            None => forall|i: int|
                0 <= i < variables.len() ==> !(#[trigger] variables[i]).answers(name, is_storage),
        },
    decreases variables.len(),
{
    if variables.len() > 0 && !variables.last().answers(name, is_storage) {
        let earlier = variables.drop_last();
        lemma_last_declared(earlier, name, is_storage);
        assert forall|i: int| 0 <= i < earlier.len() implies earlier[i] == variables[i] by {}
        match last_declared(earlier, name, is_storage) {
            Some(slot) => {
                assert forall|later: int| slot < later < variables.len() implies !(
                #[trigger] variables[later]).answers(name, is_storage) by {
                    if later < earlier.len() {
                        assert(!earlier[later].answers(name, is_storage));
                    }
                }
            },
            None => {
                assert forall|i: int| 0 <= i < variables.len() implies !(
                #[trigger] variables[i]).answers(name, is_storage) by {
                    if i < earlier.len() {
                        assert(!earlier[i].answers(name, is_storage));
                    }
                }
            },
        }
    }
}

/// A query for one side never finds a declaration of the other, even where a
/// storage declaration and another one share a name: what a lookup finds is a
/// record of the tree, it is declared under the name asked for, and it is a
/// storage declaration exactly if storage was asked for.
pub proof fn law_lookup_keeps_sides(scopes: AstScopeView, name: Seq<char>, is_storage: bool)
    requires
        scopes.wf(),
    ensures
        match scopes.lookup(name, is_storage) {
            Some(place) => {
                &&& scopes.has_variable(place)
                &&& scopes.variable(place).name == name
                &&& scopes.variable(place).is_storage() == is_storage
            },
            None => true,
        },
{
    lemma_lookup_from_keeps_sides(scopes, scopes.current, name, is_storage);
}

proof fn lemma_lookup_from_keeps_sides(
    scopes: AstScopeView,
    scope: nat,
    name: Seq<char>,
    is_storage: bool,
)
    ensures
        match scopes.lookup_from(scope, name, is_storage) {
            Some(place) => {
                &&& scopes.has_variable(place)
                &&& scopes.variable(place).name == name
                &&& scopes.variable(place).is_storage() == is_storage
            },
            None => true,
        },
    decreases scope,
{
    if scope < scopes.frames.len() {
        lemma_last_declared(scopes.frames[scope as int].variables, name, is_storage);
        if last_declared(scopes.frames[scope as int].variables, name, is_storage).is_none() {
            if let Some(parent) = scopes.frames[scope as int].parent {
                if parent < scope {
                    lemma_lookup_from_keeps_sides(scopes, parent, name, is_storage);
                }
            }
        }
    }
}

/// The declaration made last is the one a name refers to: once `variable` is
/// declared in the current scope, a lookup of its name on its side finds that
/// very record, whatever was declared before.
pub proof fn lemma_declared_is_found(scopes: AstScopeView, variable: AstVariableView)
    requires
        scopes.wf(),
    ensures
        scopes.declared(variable).wf(),
        scopes.declared(variable).lookup(variable.name, variable.is_storage()) == Some(
            scopes.next_place(),
        ),
{
    let after = scopes.declared(variable);
    assert(after.frames[after.current as int].variables.last() == variable);
}

/// What a lookup finds is the record itself and no copy of it: once the type
/// of a record has changed, the record that any id of it names shows the new
/// type, and lookups find what they found before.
pub proof fn law_lookup_is_an_alias(
    scopes: AstScopeView,
    place: Place,
    ty: TyView,
    name: Seq<char>,
    is_storage: bool,
)
    requires
        scopes.wf(),
        scopes.has_variable(place),
    ensures
        scopes.retyped(place, ty).wf(),
        scopes.retyped(place, ty).has_variable(place),
        scopes.retyped(place, ty).variable(place).ty == ty,
        scopes.retyped(place, ty).lookup(name, is_storage) == scopes.lookup(name, is_storage),
{
    lemma_retyped_lookup(scopes, place, ty, scopes.current, name, is_storage);
}

proof fn lemma_retyped_last_declared(
    variables: Seq<AstVariableView>,
    slot: int,
    ty: TyView,
    name: Seq<char>,
    is_storage: bool,
)
    requires
        0 <= slot < variables.len(),
    ensures
        last_declared(
            variables.update(slot, AstVariableView { ty, ..variables[slot] }),
            name,
            is_storage,
        ) == last_declared(variables, name, is_storage),
    decreases variables.len(),
{
    let changed = variables.update(slot, AstVariableView { ty, ..variables[slot] });
    if slot == variables.len() - 1 {
        assert(changed.drop_last() =~= variables.drop_last());
    } else {
        assert(changed.drop_last() =~= variables.drop_last().update(
            slot,
            AstVariableView { ty, ..variables.drop_last()[slot] },
        ));
        lemma_retyped_last_declared(variables.drop_last(), slot, ty, name, is_storage);
    }
}

proof fn lemma_retyped_lookup(
    scopes: AstScopeView,
    place: Place,
    ty: TyView,
    scope: nat,
    name: Seq<char>,
    is_storage: bool,
)
    requires
        scopes.has_variable(place),
    ensures
        scopes.retyped(place, ty).lookup_from(scope, name, is_storage) == scopes.lookup_from(
            scope,
            name,
            is_storage,
        ),
    decreases scope,
{
    if scope < scopes.frames.len() {
        if scope == place.scope {
            lemma_retyped_last_declared(
                scopes.frames[scope as int].variables,
                place.slot as int,
                ty,
                name,
                is_storage,
            );
        }
        if let Some(parent) = scopes.frames[scope as int].parent {
            if parent < scope {
                lemma_retyped_lookup(scopes, place, ty, parent, name, is_storage);
            }
        }
    }
}

/// Shadowing: of two declarations of one name in the same scope, both storage
/// or both not (two locals, say), a lookup finds the second.
pub proof fn law_shadowing(scopes: AstScopeView, first: AstVariableView, second: AstVariableView)
    requires
        scopes.wf(),
        first.name == second.name,
        first.is_storage() == second.is_storage(),
    ensures
        scopes.declared(first).declared(second).lookup(first.name, first.is_storage()) == Some(
            scopes.declared(first).next_place(),
        ),
        scopes.declared(first).next_place() != scopes.next_place(),
{
    lemma_declared_is_found(scopes, first);
    lemma_declared_is_found(scopes.declared(first), second);
}

} // verus!
