//! What holds of the rule, whatever the module.

use vstd::prelude::*;
use crate::detectors::references::{
    const_refs, expr_refs, let_refs, signature_refs, storage_field_refs, Texts, trait_refs,
    trait_type_refs, ty_refs,
};
use crate::detectors::unused_import::state::{
    first_spelled, law_imported_keeps_distinct, law_used_all_keeps_distinct,
    lemma_first_spelled, ModuleStateView, unused_import_entries, unused_import_entry,
    unused_import_message, unused_spans, UsageView,
};
use crate::detectors::unused_import::visitor::{module_after, unused_import_after, UnusedImportView};
use crate::project::{EntryView, LinesView, Severity};
use crate::span::{IdentView, SpanView};
use crate::syntax::item::UseTreeView;
use crate::visitor::{EventView, NodeView, Phase};

verus! {

/// The import tree of `use first::second::leaf;`.
pub open spec fn plain_import(first: IdentView, second: IdentView, leaf: IdentView) -> UseTreeView {
    UseTreeView::Path {
        prefix: first,
        suffix: Box::new(
            UseTreeView::Path {
                prefix: second,
                suffix: Box::new(UseTreeView::Name { name: leaf }),
            },
        ),
    }
}

/// The import tree of `use first::name as alias;`.
pub open spec fn renamed_import(
    first: IdentView,
    name: IdentView,
    alias: IdentView,
) -> UseTreeView {
    UseTreeView::Path {
        prefix: first,
        suffix: Box::new(UseTreeView::Rename { name, alias }),
    }
}

/// The import tree of `use first::*;`.
pub open spec fn glob_import(first: IdentView) -> UseTreeView {
    UseTreeView::Path { prefix: first, suffix: Box::new(UseTreeView::Glob) }
}

/// Whether something spelled `text` is among `seen`.
pub open spec fn seen_text(seen: Texts, text: Seq<char>) -> bool {
    exists|i: int| 0 <= i < seen.len() && seen[i] == text
}

/// Where nothing is registered, seeing things registers nothing.
proof fn lemma_nothing_registered(seen: Texts)
    ensures
        ModuleStateView::empty().used_all(seen) == ModuleStateView::empty(),
    decreases seen.len(),
{
    if seen.len() > 0 {
        lemma_nothing_registered(seen.drop_last());
    }
}

/// What seeing things does to a single registered name: its counter alone
/// changes; it stays as it is if the name's spelling was not seen, and it is
/// above 0 if it was.
proof fn lemma_one_registered(span: SpanView, count: nat, seen: Texts)
    ensures
        ({
            let start = ModuleStateView { usages: seq![UsageView { span, count }] };
            let after = start.used_all(seen);
            &&& after.usages.len() == 1
            &&& after.usages[0].span == span
            &&& !seen_text(seen, span.text) ==> after.usages[0].count == count
            &&& seen_text(seen, span.text) ==> after.usages[0].count > 0
            &&& count > 0 ==> after.usages[0].count > 0
        }),
    decreases seen.len(),
{
    let start = ModuleStateView { usages: seq![UsageView { span, count }] };
    if seen.len() > 0 {
        let earlier = seen.drop_last();
        lemma_one_registered(span, count, earlier);
        let middle = start.used_all(earlier);
        assert(middle.usages.skip(1) =~= Seq::<UsageView>::empty());
        assert(first_spelled(middle.usages.skip(1), seen.last()).is_none());
        if seen_text(seen, span.text) {
            let i = choose|i: int| 0 <= i < seen.len() && seen[i] == span.text;
            if i < earlier.len() {
                assert(earlier[i] == span.text);
            }
        }
        if seen_text(earlier, span.text) {
            let i = choose|i: int| 0 <= i < earlier.len() && earlier[i] == span.text;
            assert(seen[i] == span.text);
        }
    }
}

/// The names of a single registration that were never used.
proof fn lemma_unused_of_one(usage: UsageView)
    ensures
        unused_spans(seq![usage]) == if usage.count == 0 {
            seq![usage.span]
        } else {
            Seq::<SpanView>::empty()
        },
{
    reveal_with_fuel(unused_spans, 2);
    assert(seq![usage].drop_last() =~= Seq::<UsageView>::empty());
    assert(seq![usage].last() == usage);
    assert(Seq::<SpanView>::empty().push(usage.span) =~= seq![usage.span]);
}

/// A state in which every name was used reports nothing.
proof fn lemma_reports_none(state: ModuleStateView, lines: LinesView, path: Seq<char>)
    requires
        state.unused() == Seq::<SpanView>::empty(),
    ensures
        state.findings(lines, path) == Seq::<EntryView>::empty(),
        !state.stopped(lines, path),
{
    lines.lemma_located_few(path, arbitrary());
    assert(state.unused().take(0) =~= Seq::<SpanView>::empty());
    assert(unused_import_entries(lines, path, Seq::empty()) =~= Seq::empty());
}

/// A state in which one name was never used reports that name at its line,
/// or fails where it has none.
proof fn lemma_reports_one(
    state: ModuleStateView,
    lines: LinesView,
    path: Seq<char>,
    span: SpanView,
)
    requires
        state.unused() == seq![span],
    ensures
        state.findings(lines, path) == match lines.line_of(path, span) {
            Some(line) => seq![unused_import_entry(path, line, span.text)],
            None => Seq::<EntryView>::empty(),
        },
        state.stopped(lines, path) == lines.line_of(path, span).is_none(),
{
    lines.lemma_located_few(path, span);
    let spans = seq![span];
    assert(spans.take(0) =~= Seq::<SpanView>::empty());
    assert(spans.take(1) =~= spans);
    assert(unused_import_entries(lines, path, Seq::empty()) =~= Seq::empty());
    match lines.line_of(path, span) {
        Some(line) => {
            assert(unused_import_entries(lines, path, spans) =~= seq![
                unused_import_entry(path, line, span.text),
            ]);
        },
        None => {},
    }
}

/// A module without imports has no finding, whatever was seen in it.
pub proof fn law_no_imports_no_findings(lines: LinesView, path: Seq<char>, seen: Texts)
    ensures
        ModuleStateView::empty().used_all(seen).findings(lines, path) == Seq::<EntryView>::empty(),
        !ModuleStateView::empty().used_all(seen).stopped(lines, path),
{
    lemma_nothing_registered(seen);
    lemma_reports_none(ModuleStateView::empty(), lines, path);
}

/// An import `use first::second::leaf;` that nothing refers to afterwards
/// gives exactly one finding: of low severity, at the line of `leaf`, with a
/// message that names it. Where `leaf` has no line, the report fails
/// instead.
pub proof fn law_unreferenced_import_is_reported(
    lines: LinesView,
    path: Seq<char>,
    first: IdentView,
    second: IdentView,
    leaf: IdentView,
    seen: Texts,
)
    requires
        !seen_text(seen, leaf.span.text),
    ensures
        ModuleStateView::empty().imported(plain_import(first, second, leaf)).used_all(
            seen,
        ).findings(lines, path) == match lines.line_of(path, leaf.span) {
            Some(line) => seq![
                EntryView {
                    path,
                    line,
                    severity: Severity::Low,
                    message: unused_import_message(leaf.span.text),
                },
            ],
            None => Seq::<EntryView>::empty(),
        },
        ModuleStateView::empty().imported(plain_import(first, second, leaf)).used_all(
            seen,
        ).stopped(lines, path) == lines.line_of(path, leaf.span).is_none(),
{
    let imported = ModuleStateView::empty().imported(plain_import(first, second, leaf));
    assert(imported == ModuleStateView::empty().registered(leaf.span)) by {
        reveal_with_fuel(ModuleStateView::imported, 3);
    }
    lemma_imports_one(plain_import(first, second, leaf), leaf.span);
    lemma_one_registered(leaf.span, 0, seen);
    let after = imported.used_all(seen);
    assert(after.usages =~= seq![after.usages[0]]);
    lemma_unused_of_one(after.usages[0]);
    lemma_reports_one(after, lines, path, leaf.span);
}

/// An import `use first::second::leaf;` that something spelled like `leaf`
/// refers to afterwards gives no finding, however much else is seen.
pub proof fn law_referenced_import_is_not_reported(
    lines: LinesView,
    path: Seq<char>,
    first: IdentView,
    second: IdentView,
    leaf: IdentView,
    seen: Texts,
)
    requires
        seen_text(seen, leaf.span.text),
    ensures
        ModuleStateView::empty().imported(plain_import(first, second, leaf)).used_all(
            seen,
        ).findings(lines, path) == Seq::<EntryView>::empty(),
        !ModuleStateView::empty().imported(plain_import(first, second, leaf)).used_all(
            seen,
        ).stopped(lines, path),
{
    let imported = ModuleStateView::empty().imported(plain_import(first, second, leaf));
    assert(imported == ModuleStateView::empty().registered(leaf.span)) by {
        reveal_with_fuel(ModuleStateView::imported, 3);
    }
    lemma_imports_one(plain_import(first, second, leaf), leaf.span);
    lemma_one_registered(leaf.span, 0, seen);
    let after = imported.used_all(seen);
    assert(after.usages =~= seq![after.usages[0]]);
    lemma_unused_of_one(after.usages[0]);
    lemma_reports_none(after, lines, path);
}

/// An import `use first::name as alias;` is used under `alias` only: it is
/// reported, at the line of `alias`, exactly if nothing spelled like `alias`
/// is seen, and seeing something spelled like `name`, where the two differ,
/// changes nothing.
pub proof fn law_renamed_import_counts_alias(
    lines: LinesView,
    path: Seq<char>,
    first: IdentView,
    name: IdentView,
    alias: IdentView,
    seen: Texts,
)
    ensures
        ModuleStateView::empty().imported(renamed_import(first, name, alias)).used_all(
            seen,
        ).findings(lines, path) == if seen_text(seen, alias.span.text) {
            Seq::<EntryView>::empty()
        } else {
            match lines.line_of(path, alias.span) {
                Some(line) => seq![unused_import_entry(path, line, alias.span.text)],
                None => Seq::<EntryView>::empty(),
            }
        },
        name.span.text != alias.span.text ==> ModuleStateView::empty().imported(
            renamed_import(first, name, alias),
        ).used(name.span.text) == ModuleStateView::empty().imported(
            renamed_import(first, name, alias),
        ),
{
    let imported = ModuleStateView::empty().imported(renamed_import(first, name, alias));
    assert(imported == ModuleStateView::empty().registered(alias.span)) by {
        reveal_with_fuel(ModuleStateView::imported, 2);
    }
    lemma_imports_one(renamed_import(first, name, alias), alias.span);
    lemma_one_registered(alias.span, 0, seen);
    let after = imported.used_all(seen);
    assert(after.usages =~= seq![after.usages[0]]);
    lemma_unused_of_one(after.usages[0]);
    if seen_text(seen, alias.span.text) {
        lemma_reports_none(after, lines, path);
    } else {
        lemma_reports_one(after, lines, path, alias.span);
    }
    assert(imported.usages.skip(1) =~= Seq::<UsageView>::empty());
    assert(first_spelled(imported.usages.skip(1), name.span.text).is_none());
}

/// An import `use first::*;` registers nothing, so it is never reported.
pub proof fn law_glob_import_is_never_reported(
    lines: LinesView,
    path: Seq<char>,
    state: ModuleStateView,
    first: IdentView,
    seen: Texts,
)
    ensures
        state.imported(glob_import(first)) == state,
        ModuleStateView::empty().imported(glob_import(first)).used_all(seen).findings(lines, path)
            == Seq::<EntryView>::empty(),
        !ModuleStateView::empty().imported(glob_import(first)).used_all(seen).stopped(lines, path),
{
    assert(state.imported(glob_import(first)) == state) by {
        reveal_with_fuel(ModuleStateView::imported, 2);
    }
    assert(ModuleStateView::empty().imported(glob_import(first)) == ModuleStateView::empty()) by {
        reveal_with_fuel(ModuleStateView::imported, 2);
    }
    law_no_imports_no_findings(lines, path, seen);
}

/// Registering a name again never sets its counter back: a name that is
/// registered, used and registered once more keeps its count.
pub proof fn law_registering_again_keeps_count(state: ModuleStateView, span: SpanView)
    ensures
        state.registered(span).registered(span) == state.registered(span),
        first_spelled(state.usages, span.text).is_some() ==> state.registered(span) == state,
{
    let once = state.registered(span);
    if first_spelled(state.usages, span.text).is_none() {
        lemma_spelled_after_push(state.usages, span);
    }
}

/// After a name was registered behind the others, its spelling is found.
proof fn lemma_spelled_after_push(usages: Seq<UsageView>, span: SpanView)
    ensures
        first_spelled(usages.push(UsageView { span, count: 0 }), span.text).is_some(),
    decreases usages.len(),
{
    let longer = usages.push(UsageView { span, count: 0 });
    if usages.len() > 0 {
        assert(longer.skip(1) =~= usages.skip(1).push(UsageView { span, count: 0 }));
        lemma_spelled_after_push(usages.skip(1), span);
    } else {
        assert(longer[0].span.text == span.text);
    }
}

/// Seeing things only counts up: every registered name stays registered at
/// its place with its span, and no counter goes down.
pub proof fn law_counters_only_grow(state: ModuleStateView, seen: Texts)
    ensures
        state.used_all(seen).usages.len() == state.usages.len(),
        forall|i: int|
            0 <= i < state.usages.len() ==> {
                &&& (#[trigger] state.used_all(seen).usages[i]).span == state.usages[i].span
                &&& state.used_all(seen).usages[i].count >= state.usages[i].count
            },
    decreases seen.len(),
{
    if seen.len() > 0 {
        law_counters_only_grow(state, seen.drop_last());
        let before = state.used_all(seen.drop_last());
        lemma_first_spelled(before.usages, seen.last());
    }
}

/// No step of a walk makes two registered names of a module spelled alike:
/// an import registers a spelling once, and everything else only counts.
pub proof fn law_step_keeps_names_distinct(state: ModuleStateView, event: EventView)
    requires
        state.distinct(),
    ensures
        module_after(state, event).distinct(),
{
    let after = module_after(state, event);
    match event.phase {
        Phase::Visit => match event.node {
            NodeView::Use { item_use, .. } => {
                law_imported_keeps_distinct(state, item_use@.tree);
            },
            NodeView::StructField { field, .. } => {
                law_used_all_keeps_distinct(state, ty_refs(field.ty@));
            },
            NodeView::EnumField { field, .. } => {
                law_used_all_keeps_distinct(state, ty_refs(field.ty@));
            },
            NodeView::Fn { item_fn, .. } => {
                law_used_all_keeps_distinct(state, signature_refs(item_fn.fn_signature@));
            },
            NodeView::StatementLet { pattern, ty, expr, .. } => {
                law_used_all_keeps_distinct(
                    state,
                    let_refs(
                        pattern@,
                        match ty {
                            Some(ty) => Some(ty@),
                            None => None,
                        },
                        expr@,
                    ),
                );
            },
            NodeView::Expr { expr, .. } => {
                law_used_all_keeps_distinct(state, expr_refs(expr@));
            },
            NodeView::Trait { item_trait, .. } => {
                law_used_all_keeps_distinct(state, trait_refs(item_trait@));
            },
            NodeView::Const { item_const, .. } => {
                law_used_all_keeps_distinct(state, const_refs(item_const@));
            },
            NodeView::StorageField { field, .. } => {
                law_used_all_keeps_distinct(state, storage_field_refs(field@));
            },
            NodeView::ConfigurableField { field, .. } => {
                law_used_all_keeps_distinct(state, storage_field_refs(field@));
            },
            NodeView::TypeAlias { item_type_alias, .. } => {
                law_used_all_keeps_distinct(state, ty_refs(item_type_alias.ty@));
            },
            NodeView::TraitType { item_type, .. } => {
                law_used_all_keeps_distinct(state, trait_type_refs(item_type@));
            },
            _ => {},
        },
        Phase::Leave => {},
    }
}

/// The rule keeps one state for each module: no step adds a second state
/// for a module that has one.
pub proof fn law_one_state_per_module(rule: UnusedImportView, event: EventView)
    requires
        rule.one_record_per_key(),
    ensures
        unused_import_after(rule, event).one_record_per_key(),
{
    if let NodeView::Module { path } = event.node {
        rule.lemma_ensured_keeps_one_record(path, ModuleStateView::empty());
    }
}

/// What registering the one name of `tree` gives, starting from nothing.
proof fn lemma_imports_one(tree: UseTreeView, span: SpanView)
    requires
        ModuleStateView::empty().imported(tree) == ModuleStateView::empty().registered(span),
    ensures
        ModuleStateView::empty().imported(tree).usages == seq![UsageView { span, count: 0 }],
{
    assert(Seq::<UsageView>::empty().push(UsageView { span, count: 0 }) =~= seq![
        UsageView { span, count: 0 },
    ]);
}

} // verus!
