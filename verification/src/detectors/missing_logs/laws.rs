//! What holds of the rule, whatever the module.

use vstd::prelude::*;
use crate::detectors::missing_logs::patterns::{log_import, logged_by};
use crate::detectors::missing_logs::state::{
    BlockStateView, missing_log_entries, missing_log_entry, missing_log_message, spells,
    unlogged_fields, WriteView,
};
use crate::detectors::missing_logs::state::ModuleStateView;
use crate::detectors::missing_logs::visitor::{block_of, has_block, MissingLogsView, with_block};
use crate::detectors::missing_logs::visitor::missing_logs_after;
use crate::keyed::lemma_first_key;
use crate::project::{EntryView, LinesView, Severity};
use crate::span::{IdentView, SpanView};
use crate::syntax::expr::{ExprKindView, ExprView};
use crate::syntax::item::UseTreeView;
use crate::syntax::ty::PathView;
use crate::visitor::{EventView, NodeView};

verus! {

/// The call `path(arg)`, written at `span` with its path at `path.span`.
pub open spec fn call_of(path: PathView, arg: ExprView, span: SpanView) -> ExprView {
    ExprView {
        kind: ExprKindView::FuncApp {
            func: Box::new(ExprView { kind: ExprKindView::Path(path), span: path.span }),
            args: seq![arg],
        },
        span,
    }
}

/// Whether `path` is `std::logging::log` written in full.
pub open spec fn is_full_log_path(path: PathView) -> bool {
    &&& path.suffix.len() == 2
    &&& path.prefix.name.name == "std"@
    &&& path.suffix[0].name.name == "logging"@
    &&& path.suffix[1].name.name == "log"@
}

/// A write whose value is logged in the same block gives no finding. The
/// same write without the log gives exactly one: of medium severity, at the
/// line of the field's name and with a message that names the field. Where
/// the field's name has no line, the report fails instead.
pub proof fn law_logged_write_is_not_reported(
    lines: LinesView,
    path: Seq<char>,
    write: WriteView,
    logged: SpanView,
)
    requires
        logged.text == write.value.text,
    ensures
        BlockStateView::empty().wrote(Some(write)).logged_value(Some(logged)).findings(lines, path)
            == Seq::<EntryView>::empty(),
        !BlockStateView::empty().wrote(Some(write)).logged_value(Some(logged)).stopped(
            lines,
            path,
        ),
        BlockStateView::empty().wrote(Some(write)).findings(lines, path) == match lines.line_of(
            path,
            write.field,
        ) {
            Some(line) => seq![
                EntryView {
                    path,
                    line,
                    severity: Severity::Medium,
                    message: missing_log_message(write.field.text),
                },
            ],
            None => Seq::<EntryView>::empty(),
        },
        BlockStateView::empty().wrote(Some(write)).stopped(lines, path) == lines.line_of(
            path,
            write.field,
        ).is_none(),
{
    reveal_with_fuel(unlogged_fields, 2);
    let written = Seq::<WriteView>::empty().push(write);
    assert(written.drop_last() =~= Seq::<WriteView>::empty());
    assert(written.last() == write);
    let logs = Seq::<SpanView>::empty().push(logged);
    assert(logs[0].text == write.value.text);
    assert(spells(logs, write.value.text));
    assert(!spells(Seq::<SpanView>::empty(), write.value.text));
    assert(unlogged_fields(written, logs) =~= Seq::empty());
    assert(unlogged_fields(written, Seq::empty()) =~= seq![write.field]);
    lines.lemma_located_few(path, write.field);
    let fields = seq![write.field];
    assert(fields.take(0) =~= Seq::<SpanView>::empty());
    assert(fields.take(1) =~= fields);
    assert(Seq::<SpanView>::empty().take(0) =~= Seq::<SpanView>::empty());
    assert(missing_log_entries(lines, path, Seq::empty()) =~= Seq::empty());
    match lines.line_of(path, write.field) {
        Some(line) => {
            assert(missing_log_entries(lines, path, fields) =~= seq![
                missing_log_entry(path, line, write.field.text),
            ]);
        },
        None => {},
    }
}

/// A call of the logging function by its full path logs its argument just as
/// a call under a name that the function was imported as does, and
/// `use std::logging::log as alias;` makes `alias` such a name.
pub proof fn law_full_path_logs_like_alias(
    log_names: Seq<Seq<char>>,
    alias: PathView,
    full: PathView,
    arg: ExprView,
    span: SpanView,
)
    requires
        alias.suffix.len() == 0,
        log_names.contains(alias.prefix.name.name),
        is_full_log_path(full),
    ensures
        logged_by(log_names, call_of(alias, arg, span)) == Some(arg.span),
        logged_by(log_names, call_of(full, arg, span)) == Some(arg.span),
{
}

/// `use std::logging::log as alias;` imports the logging function under the
/// name `alias`, and `use std::logging::log;` under the name `log`.
pub proof fn law_log_import_names(
    std: IdentView,
    logging: IdentView,
    log: IdentView,
    alias: IdentView,
)
    requires
        std.name == "std"@,
        logging.name == "logging"@,
        log.name == "log"@,
    ensures
        log_import(
            UseTreeView::Path {
                prefix: std,
                suffix: Box::new(
                    UseTreeView::Path {
                        prefix: logging,
                        suffix: Box::new(UseTreeView::Rename { name: log, alias }),
                    },
                ),
            },
        ) == Some(alias.name),
        log_import(
            UseTreeView::Path {
                prefix: std,
                suffix: Box::new(
                    UseTreeView::Path {
                        prefix: logging,
                        suffix: Box::new(UseTreeView::Name { name: log }),
                    },
                ),
            },
        ) == Some(log.name),
{
}

/// The rule keeps one state for each module: no step adds a second state
/// for a module that has one.
pub proof fn law_one_state_per_module(rule: MissingLogsView, event: EventView)
    requires
        rule.one_record_per_key(),
    ensures
        missing_logs_after(rule, event).one_record_per_key(),
{
    if let NodeView::Module { path } = event.node {
        rule.lemma_ensured_keeps_one_record(path, ModuleStateView::empty());
    }
}

/// What the rule keeps about every level is a list with as many records as
/// keys.
pub open spec fn rule_wf(rule: MissingLogsView, path: Seq<char>, signature: Seq<char>) -> bool {
    &&& rule.wf()
    &&& rule.get(path).fns.wf()
    &&& rule.get(path).fns.get(signature).blocks.wf()
}

/// Logs stay in their block: what is logged in one block of a function
/// changes nothing about another block of it, so a write there whose value
/// is logged only here is still reported when its own block is left.
pub proof fn law_log_in_other_block_does_not_count(
    rule: MissingLogsView,
    path: Seq<char>,
    signature: Seq<char>,
    block: Seq<char>,
    other: Seq<char>,
    value: Option<SpanView>,
)
    requires
        rule_wf(rule, path, signature),
        has_block(rule, path, signature, block),
        has_block(rule, path, signature, other),
        block != other,
    ensures
        has_block(
            with_block(
                rule,
                path,
                signature,
                other,
                block_of(rule, path, signature, other).logged_value(value),
            ),
            path,
            signature,
            block,
        ),
        block_of(
            with_block(
                rule,
                path,
                signature,
                other,
                block_of(rule, path, signature, other).logged_value(value),
            ),
            path,
            signature,
            block,
        ) == block_of(rule, path, signature, block),
{
    let module = rule.get(path);
    let function = module.fns.get(signature);
    lemma_first_key(rule.keys, path);
    lemma_first_key(module.fns.keys, signature);
    lemma_first_key(function.blocks.keys, block);
    lemma_first_key(function.blocks.keys, other);
}

} // verus!
