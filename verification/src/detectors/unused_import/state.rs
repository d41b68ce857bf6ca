//! What the rule keeps about a module: the imported names and how often
//! each was seen in use.

use vstd::prelude::*;
use vstd::string::*;
use crate::error::Error;
use crate::project::{EntryView, LinesView, Project, Severity};
use crate::span::{Span, SpanView};
use crate::syntax::item::{UseTree, UseTreeView};
use crate::visitor::spans_view;

verus! {

/// An imported name and how often it was seen in use.
#[derive(Debug, PartialEq, Eq)]
pub struct Usage {
    pub span: Span,
    pub count: u32,
}

pub ghost struct UsageView {
    pub span: SpanView,
    pub count: nat,
}

impl View for Usage {
    type V = UsageView;

    open spec fn view(&self) -> UsageView {
        UsageView { span: self.span@, count: self.count as nat }
    }
}

/// The place of the first of `usages` whose name is spelled `text`.
pub open spec fn first_spelled(usages: Seq<UsageView>, text: Seq<char>) -> Option<nat>
    decreases usages.len(),
{
    if usages.len() == 0 {
        None
    } else if usages[0].span.text == text {
        Some(0)
    } else {
        match first_spelled(usages.skip(1), text) {
            Some(place) => Some(place + 1),
            None => None,
        }
    }
}

/// What `first_spelled` finds is a place among `usages`.
pub proof fn lemma_first_spelled(usages: Seq<UsageView>, text: Seq<char>)
    ensures
        match first_spelled(usages, text) {
            Some(place) => place < usages.len() && usages[place as int].span.text == text,
            None => true,
        },
    decreases usages.len(),
{
    if usages.len() > 0 && usages[0].span.text != text {
        lemma_first_spelled(usages.skip(1), text);
    }
}

/// One more than `count`, as far as the counter goes.
pub open spec fn counted_up(count: nat) -> nat {
    if count < u32::MAX {
        count + 1
    } else {
        count
    }
}

/// What one module's imports look like to the rule: the imported names in
/// the order they were first registered, each with its counter.
///
/// In a state that the rule builds no two names are spelled alike: that is
/// `distinct`, which holds of the empty state and which registering and
/// counting keep.
pub ghost struct ModuleStateView {
    pub usages: Seq<UsageView>,
}

impl ModuleStateView {
    pub open spec fn empty() -> ModuleStateView {
        ModuleStateView { usages: Seq::empty() }
    }

    /// Whether no two registered names are spelled alike.
    pub open spec fn distinct(self) -> bool {
        forall|i: int, j: int|
            0 <= i < j < self.usages.len() ==> (#[trigger] self.usages[i]).span.text != (
            #[trigger] self.usages[j]).span.text
    }

    /// The state after the name at `span` was registered: a counter at 0
    /// under that spelling, after the names registered before. A name that
    /// is spelled like one registered before is that name: it is registered
    /// once, and its counter stays where it is.
    pub open spec fn registered(self, span: SpanView) -> ModuleStateView {
        match first_spelled(self.usages, span.text) {
            Some(_) => self,
            None => ModuleStateView { usages: self.usages.push(UsageView { span, count: 0 }) },
        }
    }

    /// The state after something spelled `text` was seen: the name spelled
    /// so, if there is one, counts one use more. Nothing else changes.
    pub open spec fn used(self, text: Seq<char>) -> ModuleStateView {
        match first_spelled(self.usages, text) {
            Some(place) => ModuleStateView {
                usages: self.usages.update(
                    place as int,
                    UsageView {
                        span: self.usages[place as int].span,
                        count: counted_up(self.usages[place as int].count),
                    },
                ),
            },
            None => self,
        }
    }

    /// The state after everything in `texts` was seen, in order.
    pub open spec fn used_all(self, texts: Seq<Seq<char>>) -> ModuleStateView
        decreases texts.len(),
    {
        if texts.len() == 0 {
            self
        } else {
            self.used_all(texts.drop_last()).used(texts.last())
        }
    }

    /// The state after the names of an import tree were registered: every
    /// name of a group, the name that ends a path, the alias in place of a
    /// renamed name. A glob and a malformed import register nothing.
    pub open spec fn imported(self, tree: UseTreeView) -> ModuleStateView
        decreases tree,
    {
        match tree {
            UseTreeView::Group { imports } => self.imported_all(imports),
            UseTreeView::Name { name } => self.registered(name.span),
            UseTreeView::Rename { alias, .. } => self.registered(alias.span),
            UseTreeView::Glob => self,
            UseTreeView::Path { suffix, .. } => self.imported(*suffix),
            UseTreeView::Error => self,
        }
    }

    /// The state after the names of each of `trees` were registered, in
    /// order.
    pub open spec fn imported_all(self, trees: Seq<UseTreeView>) -> ModuleStateView
        decreases trees,
    {
        if trees.len() == 0 {
            self
        } else {
            self.imported_all(trees.drop_last()).imported(trees.last())
        }
    }

    /// The spans of the names that were never seen in use, in the order they
    /// were registered.
    pub open spec fn unused(self) -> Seq<SpanView> {
        unused_spans(self.usages)
    }

    /// What is reported of the module at `path` when it is left: one finding
    /// for each name that was never seen in use, in the order of the names,
    /// up to the first whose span has no line.
    pub open spec fn findings(self, lines: LinesView, path: Seq<char>) -> Seq<EntryView> {
        unused_import_entries(
            lines,
            path,
            self.unused().take(lines.located(path, self.unused()) as int),
        )
    }

    /// Whether the report ends early: whether the span of a name that was
    /// never seen in use has no line.
    pub open spec fn stopped(self, lines: LinesView, path: Seq<char>) -> bool {
        lines.fails_on(path, self.unused())
    }
}

/// Where no name is spelled `text`, `first_spelled` finds none, and the
/// other way round.
pub proof fn lemma_not_spelled(usages: Seq<UsageView>, text: Seq<char>)
    ensures
        first_spelled(usages, text).is_none() <==> forall|i: int|
            0 <= i < usages.len() ==> (#[trigger] usages[i]).span.text != text,
    decreases usages.len(),
{
    if usages.len() > 0 {
        let rest = usages.skip(1);
        lemma_not_spelled(rest, text);
        if usages[0].span.text != text {
            if first_spelled(usages, text).is_none() {
                assert forall|i: int| 0 <= i < usages.len() implies (
                #[trigger] usages[i]).span.text != text by {
                    if i > 0 {
                        assert(usages[i] == rest[i - 1]);
                    }
                }
            } else {
                lemma_first_spelled(rest, text);
                let place = first_spelled(rest, text).unwrap();
                assert(usages[place as int + 1] == rest[place as int]);
            }
        }
    }
}

/// Registering a name keeps the registered names spelled apart.
pub proof fn law_registered_keeps_distinct(state: ModuleStateView, span: SpanView)
    requires
        state.distinct(),
    ensures
        state.registered(span).distinct(),
{
    lemma_not_spelled(state.usages, span.text);
}

/// Counting a use keeps the registered names spelled apart.
pub proof fn law_used_keeps_distinct(state: ModuleStateView, text: Seq<char>)
    requires
        state.distinct(),
    ensures
        state.used(text).distinct(),
{
    lemma_first_spelled(state.usages, text);
}

/// Counting uses keeps the registered names spelled apart.
pub proof fn law_used_all_keeps_distinct(state: ModuleStateView, texts: Seq<Seq<char>>)
    requires
        state.distinct(),
    ensures
        state.used_all(texts).distinct(),
    decreases texts.len(),
{
    if texts.len() > 0 {
        law_used_all_keeps_distinct(state, texts.drop_last());
        law_used_keeps_distinct(state.used_all(texts.drop_last()), texts.last());
    }
}

/// Registering the names of an import tree keeps the registered names
/// spelled apart, also where the tree names one spelling twice.
pub proof fn law_imported_keeps_distinct(state: ModuleStateView, tree: UseTreeView)
    requires
        state.distinct(),
    ensures
        state.imported(tree).distinct(),
    decreases tree,
{
    match tree {
        UseTreeView::Group { imports } => {
            lemma_imported_all_keeps_distinct(state, imports);
        },
        UseTreeView::Name { name } => {
            law_registered_keeps_distinct(state, name.span);
        },
        UseTreeView::Rename { alias, .. } => {
            law_registered_keeps_distinct(state, alias.span);
        },
        UseTreeView::Glob => {},
        UseTreeView::Path { suffix, .. } => {
            law_imported_keeps_distinct(state, *suffix);
        },
        UseTreeView::Error => {},
    }
}

/// Registering the names of a run of import trees keeps the registered
/// names spelled apart.
pub proof fn lemma_imported_all_keeps_distinct(state: ModuleStateView, trees: Seq<UseTreeView>)
    requires
        state.distinct(),
    ensures
        state.imported_all(trees).distinct(),
    decreases trees,
{
    if trees.len() > 0 {
        lemma_imported_all_keeps_distinct(state, trees.drop_last());
        law_imported_keeps_distinct(state.imported_all(trees.drop_last()), trees.last());
    }
}

/// The spans of those of `usages` whose counter is still at 0, in order.
pub open spec fn unused_spans(usages: Seq<UsageView>) -> Seq<SpanView>
    decreases usages.len(),
{
    if usages.len() == 0 {
        Seq::empty()
    } else if usages.last().count == 0 {
        unused_spans(usages.drop_last()).push(usages.last().span)
    } else {
        unused_spans(usages.drop_last())
    }
}

/// The message of the finding about the unused import `name`.
pub open spec fn unused_import_message(name: Seq<char>) -> Seq<char> {
    "Found unused import: `"@ + name + "`. Consider removing any unused imports."@
}

/// The finding about the unused import `name` at `line` of the module at
/// `path`. It is of low severity.
pub open spec fn unused_import_entry(path: Seq<char>, line: nat, name: Seq<char>) -> EntryView {
    EntryView { path, line, severity: Severity::Low, message: unused_import_message(name) }
}

/// The findings about the imports at `spans` in the module at `path`, each
/// at the line of its span.
pub open spec fn unused_import_entries(
    lines: LinesView,
    path: Seq<char>,
    spans: Seq<SpanView>,
) -> Seq<EntryView> {
    Seq::new(
        spans.len(),
        |i: int| unused_import_entry(path, lines.line_of(path, spans[i]).unwrap(), spans[i].text),
    )
}

/// What the rule keeps about one module.
#[derive(Debug, PartialEq, Eq)]
pub struct ModuleState {
    pub usage_states: Vec<Usage>,
}

impl View for ModuleState {
    type V = ModuleStateView;

    open spec fn view(&self) -> ModuleStateView {
        ModuleStateView { usages: self.usage_states@.map_values(|u: Usage| u@) }
    }
}

impl ModuleState {
    pub fn new() -> (state: ModuleState)
        ensures
            state@ == ModuleStateView::empty(),
            state@.distinct(),
    {
        let state = ModuleState { usage_states: Vec::new() };
        assert(state@.usages =~= Seq::empty());
        state
    }

    /// The place of the name that is spelled like `span`, if one is
    /// registered.
    fn find(&self, span: &Span) -> (found: Option<usize>)
        ensures
            match found {
                Some(place) => first_spelled(self@.usages, span@.text) == Some(place as nat)
                    && place < self.usage_states.len(),
                None => first_spelled(self@.usages, span@.text).is_none(),
            },
    {
        let ghost all = self@.usages;
        assert(all.skip(0) =~= all);
        let mut i: usize = 0;
        while i < self.usage_states.len()
            invariant
                i <= self.usage_states.len(),
                all == self@.usages,
                first_spelled(all, span@.text) == match first_spelled(
                    all.skip(i as int),
                    span@.text,
                ) {
                    Some(place) => Some((place + i) as nat),
                    None => None,
                },
            decreases self.usage_states.len() - i,
        {
            assert(all.skip(i as int)[0] == self.usage_states[i as int]@);
            assert(all.skip(i as int).skip(1) =~= all.skip(i + 1));
            if self.usage_states[i].span.same_text(span) {
                return Some(i);
            }
            i += 1;
        }
        None
    }

    /// Registers the imported name at `span` with a counter at 0, unless a
    /// name of that spelling is registered already.
    pub fn register(&mut self, span: Span)
        ensures
            final(self)@ == old(self)@.registered(span@),
            old(self)@.distinct() ==> final(self)@.distinct(),
    {
        proof {
            if self@.distinct() {
                law_registered_keeps_distinct(self@, span@);
            }
        }
        match self.find(&span) {
            Some(_) => {},
            None => {
                self.usage_states.push(Usage { span, count: 0 });
                assert(self@.usages =~= old(self)@.registered(span@).usages);
            },
        }
    }

    /// Counts a use of the import that is spelled like `span`, if there is
    /// one.
    pub fn check_span_usage(&mut self, span: &Span)
        ensures
            final(self)@ == old(self)@.used(span@.text),
            old(self)@.distinct() ==> final(self)@.distinct(),
    {
        proof {
            if self@.distinct() {
                law_used_keeps_distinct(self@, span@.text);
            }
        }
        match self.find(span) {
            Some(place) => {
                let count = self.usage_states[place].count;
                self.usage_states[place].count = count.saturating_add(1);
                assert(self@.usages =~= old(self)@.used(span@.text).usages);
            },
            None => {},
        }
    }

    /// Registers the names that `use_tree` imports.
    pub fn import_use_tree(&mut self, use_tree: &UseTree)
        ensures
            final(self)@ == old(self)@.imported(use_tree@),
            old(self)@.distinct() ==> final(self)@.distinct(),
        decreases use_tree,
    {
        proof {
            if self@.distinct() {
                law_imported_keeps_distinct(self@, use_tree@);
            }
        }
        match use_tree {
            UseTree::Group { imports } => {
                let ghost trees = UseTree::models(imports@);
                assert(trees.take(0) =~= Seq::empty());
                let mut i: usize = 0;
                while i < imports.len()
                    invariant
                        *use_tree is Group,
                        use_tree->imports == *imports,
                        trees == UseTree::models(imports@),
                        i <= imports.len(),
                        self@ == old(self)@.imported_all(trees.take(i as int)),
                    decreases imports.len() - i,
                {
                    assert(trees.take(i + 1).drop_last() =~= trees.take(i as int));
                    assert(trees.take(i + 1).last() == imports[i as int]@);
                    self.import_use_tree(&imports[i]);
                    i += 1;
                }
                assert(trees.take(i as int) =~= trees);
            },
            UseTree::Name { name } => {
                self.register(name.span.clone());
            },
            UseTree::Rename { alias, .. } => {
                self.register(alias.span.clone());
            },
            UseTree::Glob => {},
            UseTree::Path { suffix, .. } => {
                self.import_use_tree(suffix);
            },
            UseTree::Error => {},
        }
    }
}

impl ModuleState {
    /// The spans of the names that were never seen in use, in the order they
    /// were registered.
    pub fn unused(&self) -> (spans: Vec<Span>)
        ensures
            spans_view(spans@) == self@.unused(),
    {
        let ghost usages = self@.usages;
        assert(usages.take(0) =~= Seq::empty());
        let mut spans: Vec<Span> = Vec::new();
        assert(spans_view(spans@) =~= Seq::empty());
        let mut i: usize = 0;
        while i < self.usage_states.len()
            invariant
                usages == self@.usages,
                i <= self.usage_states.len(),
                spans_view(spans@) == unused_spans(usages.take(i as int)),
            decreases self.usage_states.len() - i,
        {
            assert(usages.take(i + 1).drop_last() =~= usages.take(i as int));
            assert(usages.take(i + 1).last() == self.usage_states[i as int]@);
            let usage = &self.usage_states[i];
            if usage.count == 0 {
                let ghost before = spans_view(spans@);
                spans.push(usage.span.clone());
                assert(spans_view(spans@) =~= before.push(usage.span@));
            }
            i += 1;
        }
        assert(usages.take(i as int) =~= usages);
        spans
    }

    /// Reports the imports that were never used, in the order they were
    /// registered, each at the line of its name and with low severity.
    ///
    /// The first name whose span has no line ends the report with
    /// `Error::LineNotFound`: what was reported before it stays, and nothing
    /// is reported of it or after it.
    pub fn report_unused(&self, path: &str, project: &mut Project) -> (result: Result<(), Error>)
        ensures
            old(project).reported_to(*final(project)),
            final(project).report@ == old(project).report@ + self@.findings(
                old(project).lines@,
                path@,
            ),
            match result {
                Ok(_) => !self@.stopped(old(project).lines@, path@),
                Err(error) => error == Error::LineNotFound && self@.stopped(
                    old(project).lines@,
                    path@,
                ),
            },
    {
        let spans = self.unused();
        let ghost all = spans_view(spans@);
        let ghost lines = project.lines@;
        assert(all.take(0) =~= Seq::empty());
        assert(project.report@ + unused_import_entries(lines, path@, Seq::empty())
            =~= project.report@);
        let mut i: usize = 0;
        while i < spans.len()
            invariant
                all == spans_view(spans@),
                all == self@.unused(),
                lines == old(project).lines@,
                i <= spans.len(),
                old(project).reported_to(*project),
                forall|j: int| 0 <= j < i ==> lines.line_of(path@, #[trigger] all[j]).is_some(),
                project.report@ == old(project).report@ + unused_import_entries(
                    lines,
                    path@,
                    all.take(i as int),
                ),
            decreases spans.len() - i,
        {
            assert(all[i as int] == spans[i as int]@);
            let line = match project.lines.span_to_line(path, &spans[i]) {
                Ok(line) => line,
                Err(error) => {
                    proof {
                        lines.lemma_located(path@, all, i as nat);
                    }
                    return Err(error);
                },
            };
            let message = unused_message(spans[i].as_str());
            project.report.add_entry(path, line, Severity::Low, message);
            assert(unused_import_entries(lines, path@, all.take(i + 1)) =~= unused_import_entries(
                lines,
                path@,
                all.take(i as int),
            ).push(unused_import_entry(path@, line as nat, all[i as int].text)));
            assert(project.report@ =~= old(project).report@ + unused_import_entries(
                lines,
                path@,
                all.take(i + 1),
            ));
            i += 1;
        }
        proof {
            lines.lemma_located(path@, all, i as nat);
        }
        Ok(())
    }
}

/// The message of the finding about the unused import `name`.
pub fn unused_message(name: &str) -> (message: String)
    ensures
        message@ == unused_import_message(name@),
{
    let mut message = String::from_str("Found unused import: `");
    message.append(name);
    message.append("`. Consider removing any unused imports.");
    message
}

} // verus!
