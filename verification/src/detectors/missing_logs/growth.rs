//! What the rule keeps only grows: a module, a function or a block that was
//! entered stays entered, whatever step the rule takes.

use vstd::prelude::*;
use crate::detectors::missing_logs::state::{BlockStateView, FnStateView, ModuleStateView};
use crate::detectors::missing_logs::visitor::{
    has_block, has_fn, missing_logs_after, missing_logs_missing, MissingLogsView, with_block,
    with_fn,
};
use crate::keyed::{
    first_key, KeyedView, keys_extend, lemma_first_key, lemma_first_key_extended,
    lemma_keys_extend_order,
};
use crate::keyed::lemma_keys_extend_self;
use crate::visitor::{EventView, NodeView, Phase};

verus! {

/// Whether every list that a function keeps, and the list of the functions
/// itself, has as many records as keys.
pub open spec fn fns_wf(fns: KeyedView<FnStateView>) -> bool {
    &&& fns.wf()
    &&& forall|f: int| 0 <= f < fns.values.len() ==> (#[trigger] fns.values[f]).blocks.wf()
}

/// Whether `later` keeps, at its place, every function and block that
/// `earlier` keeps.
pub open spec fn fns_extend(
    earlier: KeyedView<FnStateView>,
    later: KeyedView<FnStateView>,
) -> bool {
    &&& keys_extend(earlier.keys, later.keys)
    &&& forall|f: int|
        0 <= f < earlier.keys.len() ==> keys_extend(
            earlier.values[f].blocks.keys,
            (#[trigger] later.values[f]).blocks.keys,
        )
}

/// Whether every list that the rule keeps has as many records as keys.
pub open spec fn logs_wf(rule: MissingLogsView) -> bool {
    &&& rule.wf()
    &&& forall|m: int| 0 <= m < rule.values.len() ==> fns_wf((#[trigger] rule.values[m]).fns)
}

/// Whether `later` keeps, at its place, every module, function and block
/// that `earlier` keeps.
pub open spec fn logs_extend(earlier: MissingLogsView, later: MissingLogsView) -> bool {
    &&& keys_extend(earlier.keys, later.keys)
    &&& forall|m: int|
        0 <= m < earlier.keys.len() ==> fns_extend(
            earlier.values[m].fns,
            (#[trigger] later.values[m]).fns,
        )
}

proof fn lemma_fns_extend_self(fns: KeyedView<FnStateView>)
    requires
        fns_wf(fns),
    ensures
        fns_extend(fns, fns),
{
    lemma_keys_extend_self(fns.keys);
    assert forall|f: int| 0 <= f < fns.keys.len() implies keys_extend(
        fns.values[f].blocks.keys,
        (#[trigger] fns.values[f]).blocks.keys,
    ) by {
        lemma_keys_extend_self(fns.values[f].blocks.keys);
    }
}

proof fn lemma_fns_extend_twice(
    first: KeyedView<FnStateView>,
    second: KeyedView<FnStateView>,
    third: KeyedView<FnStateView>,
)
    requires
        fns_wf(first),
        fns_wf(second),
        fns_wf(third),
        fns_extend(first, second),
        fns_extend(second, third),
    ensures
        fns_extend(first, third),
{
    lemma_keys_extend_order(first.keys, second.keys, third.keys);
    assert forall|f: int| 0 <= f < first.keys.len() implies keys_extend(
        first.values[f].blocks.keys,
        (#[trigger] third.values[f]).blocks.keys,
    ) by {
        assert(keys_extend(first.values[f].blocks.keys, second.values[f].blocks.keys));
        assert(keys_extend(second.values[f].blocks.keys, third.values[f].blocks.keys));
        lemma_keys_extend_order(
            first.values[f].blocks.keys,
            second.values[f].blocks.keys,
            third.values[f].blocks.keys,
        );
    }
}

/// A function and a block that were entered stay entered when the
/// functions grow.
proof fn lemma_fns_stay_entered(
    earlier: KeyedView<FnStateView>,
    later: KeyedView<FnStateView>,
    signature: Seq<char>,
    block: Seq<char>,
)
    requires
        fns_wf(earlier),
        fns_wf(later),
        fns_extend(earlier, later),
        earlier.contains(signature),
    ensures
        later.contains(signature),
        earlier.get(signature).blocks.contains(block) ==> later.get(signature).blocks.contains(
            block,
        ),
{
    lemma_first_key(earlier.keys, signature);
    lemma_first_key_extended(earlier.keys, later.keys, signature);
    let f = first_key(earlier.keys, signature).unwrap() as int;
    if earlier.get(signature).blocks.contains(block) {
        assert(keys_extend(earlier.values[f].blocks.keys, later.values[f].blocks.keys));
        lemma_first_key_extended(
            earlier.values[f].blocks.keys,
            later.values[f].blocks.keys,
            block,
        );
    }
}

/// A rule extends itself.
pub proof fn lemma_logs_extend_self(rule: MissingLogsView)
    requires
        logs_wf(rule),
    ensures
        logs_extend(rule, rule),
{
    lemma_keys_extend_self(rule.keys);
    assert forall|m: int| 0 <= m < rule.keys.len() implies fns_extend(
        rule.values[m].fns,
        (#[trigger] rule.values[m]).fns,
    ) by {
        lemma_fns_extend_self(rule.values[m].fns);
    }
}

/// Extending is transitive.
pub proof fn lemma_logs_extend_twice(
    first: MissingLogsView,
    second: MissingLogsView,
    third: MissingLogsView,
)
    requires
        logs_wf(first),
        logs_wf(second),
        logs_wf(third),
        logs_extend(first, second),
        logs_extend(second, third),
    ensures
        logs_extend(first, third),
{
    lemma_keys_extend_order(first.keys, second.keys, third.keys);
    assert forall|m: int| 0 <= m < first.keys.len() implies fns_extend(
        first.values[m].fns,
        (#[trigger] third.values[m]).fns,
    ) by {
        assert(fns_extend(first.values[m].fns, second.values[m].fns));
        assert(fns_extend(second.values[m].fns, third.values[m].fns));
        lemma_fns_extend_twice(first.values[m].fns, second.values[m].fns, third.values[m].fns);
    }
}

/// What was entered stays entered when the rule grows.
pub proof fn lemma_logs_stay_entered(
    earlier: MissingLogsView,
    later: MissingLogsView,
    path: Seq<char>,
    signature: Seq<char>,
    block: Seq<char>,
)
    requires
        logs_wf(earlier),
        logs_wf(later),
        logs_extend(earlier, later),
    ensures
        earlier.contains(path) ==> later.contains(path),
        has_fn(earlier, path, signature) ==> has_fn(later, path, signature),
        has_block(earlier, path, signature, block) ==> has_block(later, path, signature, block),
{
    if earlier.contains(path) {
        lemma_first_key(earlier.keys, path);
        lemma_first_key_extended(earlier.keys, later.keys, path);
        let m = first_key(earlier.keys, path).unwrap() as int;
        assert(fns_extend(earlier.values[m].fns, later.values[m].fns));
        if earlier.get(path).fns.contains(signature) {
            lemma_fns_stay_entered(earlier.values[m].fns, later.values[m].fns, signature, block);
        }
    }
}

/// Putting a grown state in place of the state of a module grows the rule.
proof fn lemma_logs_module_grown(rule: MissingLogsView, path: Seq<char>, state: ModuleStateView)
    requires
        logs_wf(rule),
        rule.contains(path),
        fns_wf(state.fns),
        fns_extend(rule.get(path).fns, state.fns),
    ensures
        logs_wf(rule.with(path, state)),
        logs_extend(rule, rule.with(path, state)),
        rule.with(path, state).contains(path),
        rule.with(path, state).get(path) == state,
{
    let after = rule.with(path, state);
    rule.lemma_with(path, state);
    let place = first_key(rule.keys, path).unwrap() as int;
    lemma_keys_extend_self(rule.keys);
    assert forall|m: int| 0 <= m < after.values.len() implies fns_wf(
        (#[trigger] after.values[m]).fns,
    ) by {
        if m != place {
            assert(after.values[m] == rule.values[m]);
        }
    }
    assert forall|m: int| 0 <= m < rule.keys.len() implies fns_extend(
        rule.values[m].fns,
        (#[trigger] after.values[m]).fns,
    ) by {
        if m != place {
            assert(after.values[m] == rule.values[m]);
            lemma_fns_extend_self(rule.values[m].fns);
        }
    }
}

/// Putting a grown state in place of the state of a function grows the
/// functions.
proof fn lemma_fns_fn_grown(fns: KeyedView<FnStateView>, signature: Seq<char>, state: FnStateView)
    requires
        fns_wf(fns),
        fns.contains(signature),
        state.blocks.wf(),
        keys_extend(fns.get(signature).blocks.keys, state.blocks.keys),
    ensures
        fns_wf(fns.with(signature, state)),
        fns_extend(fns, fns.with(signature, state)),
        fns.with(signature, state).contains(signature),
        fns.with(signature, state).get(signature) == state,
{
    let after = fns.with(signature, state);
    fns.lemma_with(signature, state);
    let place = first_key(fns.keys, signature).unwrap() as int;
    lemma_keys_extend_self(fns.keys);
    assert forall|f: int| 0 <= f < after.values.len() implies (
    #[trigger] after.values[f]).blocks.wf() by {
        if f != place {
            assert(after.values[f] == fns.values[f]);
        }
    }
    assert forall|f: int| 0 <= f < fns.keys.len() implies keys_extend(
        fns.values[f].blocks.keys,
        (#[trigger] after.values[f]).blocks.keys,
    ) by {
        if f != place {
            assert(after.values[f] == fns.values[f]);
            lemma_keys_extend_self(fns.values[f].blocks.keys);
        }
    }
}

/// Entering a module grows the rule, and the module is entered afterwards.
pub proof fn lemma_logs_enter_module(rule: MissingLogsView, path: Seq<char>)
    requires
        logs_wf(rule),
    ensures
        logs_wf(rule.ensured(path, ModuleStateView::empty())),
        logs_extend(rule, rule.ensured(path, ModuleStateView::empty())),
        rule.ensured(path, ModuleStateView::empty()).contains(path),
{
    let after = rule.ensured(path, ModuleStateView::empty());
    rule.lemma_ensured(path, ModuleStateView::empty());
    assert forall|m: int| 0 <= m < after.values.len() implies fns_wf(
        (#[trigger] after.values[m]).fns,
    ) by {
        if m < rule.values.len() {
            assert(after.values[m] == rule.values[m]);
        }
    }
    assert forall|m: int| 0 <= m < rule.keys.len() implies fns_extend(
        rule.values[m].fns,
        (#[trigger] after.values[m]).fns,
    ) by {
        assert(after.values[m] == rule.values[m]);
        lemma_fns_extend_self(rule.values[m].fns);
    }
}

/// Entering a function grows the rule, and the function is entered
/// afterwards.
pub proof fn lemma_logs_enter_fn(rule: MissingLogsView, path: Seq<char>, signature: Seq<char>)
    requires
        logs_wf(rule),
        rule.contains(path),
    ensures
        ({
            let module = rule.get(path);
            let after = rule.with(
                path,
                ModuleStateView {
                    fns: module.fns.ensured(signature, FnStateView { blocks: KeyedView::empty() }),
                    ..module
                },
            );
            &&& logs_wf(after)
            &&& logs_extend(rule, after)
            &&& has_fn(after, path, signature)
        }),
{
    let module = rule.get(path);
    let fresh = FnStateView { blocks: KeyedView::<BlockStateView>::empty() };
    let fns = module.fns.ensured(signature, fresh);
    lemma_first_key(rule.keys, path);
    let m = first_key(rule.keys, path).unwrap() as int;
    assert(fns_wf(rule.values[m].fns));
    module.fns.lemma_ensured(signature, fresh);
    assert forall|f: int| 0 <= f < fns.values.len() implies (
    #[trigger] fns.values[f]).blocks.wf() by {
        if f < module.fns.values.len() {
            assert(fns.values[f] == module.fns.values[f]);
        }
    }
    assert forall|f: int| 0 <= f < module.fns.keys.len() implies keys_extend(
        module.fns.values[f].blocks.keys,
        (#[trigger] fns.values[f]).blocks.keys,
    ) by {
        assert(fns.values[f] == module.fns.values[f]);
        lemma_keys_extend_self(module.fns.values[f].blocks.keys);
    }
    lemma_logs_module_grown(rule, path, ModuleStateView { fns, ..module });
}

/// Putting a grown state in place of the state of a function grows the
/// rule.
proof fn lemma_logs_fn_grown(
    rule: MissingLogsView,
    path: Seq<char>,
    signature: Seq<char>,
    state: FnStateView,
)
    requires
        logs_wf(rule),
        has_fn(rule, path, signature),
        state.blocks.wf(),
        keys_extend(rule.get(path).fns.get(signature).blocks.keys, state.blocks.keys),
    ensures
        logs_wf(with_fn(rule, path, signature, state)),
        logs_extend(rule, with_fn(rule, path, signature, state)),
        has_fn(with_fn(rule, path, signature, state), path, signature),
        with_fn(rule, path, signature, state).get(path).fns.get(signature) == state,
{
    let module = rule.get(path);
    lemma_first_key(rule.keys, path);
    let m = first_key(rule.keys, path).unwrap() as int;
    assert(fns_wf(rule.values[m].fns));
    lemma_fns_fn_grown(module.fns, signature, state);
    lemma_logs_module_grown(
        rule,
        path,
        ModuleStateView { fns: module.fns.with(signature, state), ..module },
    );
}

/// Entering a block grows the rule, and the block is entered afterwards.
pub proof fn lemma_logs_enter_block(
    rule: MissingLogsView,
    path: Seq<char>,
    signature: Seq<char>,
    block: Seq<char>,
)
    requires
        logs_wf(rule),
        has_fn(rule, path, signature),
    ensures
        ({
            let after = with_fn(
                rule,
                path,
                signature,
                FnStateView {
                    blocks: rule.get(path).fns.get(signature).blocks.ensured(
                        block,
                        BlockStateView::empty(),
                    ),
                },
            );
            &&& logs_wf(after)
            &&& logs_extend(rule, after)
            &&& has_block(after, path, signature, block)
        }),
{
    let module = rule.get(path);
    lemma_first_key(rule.keys, path);
    let m = first_key(rule.keys, path).unwrap() as int;
    assert(fns_wf(rule.values[m].fns));
    lemma_first_key(module.fns.keys, signature);
    let f = first_key(module.fns.keys, signature).unwrap() as int;
    assert(module.fns.values[f].blocks.wf());
    let blocks = module.fns.get(signature).blocks;
    blocks.lemma_ensured(block, BlockStateView::empty());
    lemma_logs_fn_grown(
        rule,
        path,
        signature,
        FnStateView { blocks: blocks.ensured(block, BlockStateView::empty()) },
    );
}

/// A change to what a block keeps grows the rule.
pub proof fn lemma_logs_in_block(
    rule: MissingLogsView,
    path: Seq<char>,
    signature: Seq<char>,
    block: Seq<char>,
    state: BlockStateView,
)
    requires
        logs_wf(rule),
        has_block(rule, path, signature, block),
    ensures
        logs_wf(with_block(rule, path, signature, block, state)),
        logs_extend(rule, with_block(rule, path, signature, block, state)),
{
    let module = rule.get(path);
    lemma_first_key(rule.keys, path);
    let m = first_key(rule.keys, path).unwrap() as int;
    assert(fns_wf(rule.values[m].fns));
    lemma_first_key(module.fns.keys, signature);
    let f = first_key(module.fns.keys, signature).unwrap() as int;
    assert(module.fns.values[f].blocks.wf());
    let blocks = module.fns.get(signature).blocks;
    blocks.lemma_with(block, state);
    lemma_keys_extend_self(blocks.keys);
    lemma_logs_fn_grown(rule, path, signature, FnStateView { blocks: blocks.with(block, state) });
}

/// Every step that the rule has an answer for grows it.
pub proof fn lemma_logs_step(rule: MissingLogsView, event: EventView)
    requires
        logs_wf(rule),
        missing_logs_missing(rule, event).is_none(),
    ensures
        logs_wf(missing_logs_after(rule, event)),
        logs_extend(rule, missing_logs_after(rule, event)),
{
    lemma_logs_extend_self(rule);
    match event.phase {
        Phase::Visit => match event.node {
            NodeView::Module { path } => {
                lemma_logs_enter_module(rule, path);
            },
            NodeView::Use { path, .. } => {
                let module = rule.get(path);
                lemma_first_key(rule.keys, path);
                let m = first_key(rule.keys, path).unwrap() as int;
                assert(fns_wf(rule.values[m].fns));
                lemma_fns_extend_self(module.fns);
                let after = missing_logs_after(rule, event).get(path);
                lemma_logs_module_grown(rule, path, missing_logs_after(rule, event).get(path));
                rule.lemma_with(path, after);
                assert(missing_logs_after(rule, event) == rule.with(path, after));
            },
            NodeView::Fn { path, item_fn } => {
                lemma_logs_enter_fn(rule, path, item_fn.fn_signature.span@.text);
            },
            NodeView::Block { path, item_fn, block } => {
                lemma_logs_enter_block(
                    rule,
                    path,
                    item_fn.fn_signature.span@.text,
                    block.span@.text,
                );
            },
            NodeView::Statement { path, item_fn, blocks, .. } => {
                let signature = item_fn.fn_signature.span@.text;
                let block = blocks.last().text;
                lemma_logs_in_block(
                    rule,
                    path,
                    signature,
                    block,
                    missing_logs_after(rule, event).get(path).fns.get(signature).blocks.get(block),
                );
                lemma_logs_block_put(rule, event, path, signature, block);
            },
            NodeView::Expr { path, item_fn, blocks, .. } => {
                let signature = item_fn.fn_signature.span@.text;
                let block = blocks.last().text;
                lemma_logs_in_block(
                    rule,
                    path,
                    signature,
                    block,
                    missing_logs_after(rule, event).get(path).fns.get(signature).blocks.get(block),
                );
                lemma_logs_block_put(rule, event, path, signature, block);
            },
            _ => {},
        },
        Phase::Leave => {},
    }
}

/// A step inside a block puts a state in place of the block's state.
proof fn lemma_logs_block_put(
    rule: MissingLogsView,
    event: EventView,
    path: Seq<char>,
    signature: Seq<char>,
    block: Seq<char>,
)
    requires
        logs_wf(rule),
        has_block(rule, path, signature, block),
        exists|state: BlockStateView|
            missing_logs_after(rule, event) == with_block(rule, path, signature, block, state),
    ensures
        missing_logs_after(rule, event) == with_block(
            rule,
            path,
            signature,
            block,
            missing_logs_after(rule, event).get(path).fns.get(signature).blocks.get(block),
        ),
{
    let state = choose|state: BlockStateView|
        missing_logs_after(rule, event) == with_block(rule, path, signature, block, state);
    let module = rule.get(path);
    lemma_first_key(rule.keys, path);
    let m = first_key(rule.keys, path).unwrap() as int;
    assert(fns_wf(rule.values[m].fns));
    lemma_first_key(module.fns.keys, signature);
    let f = first_key(module.fns.keys, signature).unwrap() as int;
    assert(module.fns.values[f].blocks.wf());
    let blocks = module.fns.get(signature).blocks;
    blocks.lemma_with(block, state);
    let function = FnStateView { blocks: blocks.with(block, state) };
    module.fns.lemma_with(signature, function);
    rule.lemma_with(path, ModuleStateView { fns: module.fns.with(signature, function), ..module });
}

} // verus!
