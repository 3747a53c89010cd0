use vstd::prelude::*;

use crate::analysis_model;
use crate::correlated_calls;
use crate::import_analyzer::document_import_infos;
use crate::import_analyzer::imports_model;
use crate::import_analyzer::register_import;
use crate::import_analyzer::register_imports;
use crate::import_analyzer::seeded_imports;
use crate::import_analyzer::targets_tracked_function;
use crate::import_map::map_contains_key;
use crate::import_map::map_key_index;
use crate::import_map::map_upsert;
use crate::tree::SyntaxNode;
use crate::types::CallModel;
use crate::types::ImportInfoModel;
use crate::types::ImportTypeModel;
use crate::types::ViewAnalysisResult;

verus! {

proof fn lemma_register_unrelated(
    entries: Seq<(Seq<char>, ImportTypeModel)>,
    infos: Seq<ImportInfoModel>,
)
    requires
        forall|i: int|
            0 <= i < infos.len() ==> !targets_tracked_function(#[trigger] infos[i]),
    ensures
        register_imports(entries, infos) == entries,
    decreases infos.len(),
{
    if infos.len() > 0 {
        assert(forall|i: int|
            0 <= i < infos.drop_last().len() ==> !targets_tracked_function(
                #[trigger] infos.drop_last()[i],
            ));
        lemma_register_unrelated(entries, infos.drop_last());
        assert(!targets_tracked_function(infos[infos.len() - 1]));
    }
}

/// Law: in a document none of whose import statements describes the tracked
/// function, the resolved mapping holds exactly the two seeded entries: the
/// fully qualified spelling with and without the leading qualifier
/// separator, both classified as direct namespace references.
pub proof fn lemma_unrelated_imports_leave_seed_only(root: SyntaxNode, text: Seq<char>)
    requires
        forall|i: int|
            0 <= i < document_import_infos(root, text).len() ==> !targets_tracked_function(
                #[trigger] document_import_infos(root, text)[i],
            ),
    ensures
        imports_model(root, text) == seeded_imports(),
        seeded_imports() =~= seq![
            ("\\Tempest\\view"@, ImportTypeModel::DirectNamespace),
            ("Tempest\\view"@, ImportTypeModel::DirectNamespace),
        ],
{
    lemma_register_unrelated(seeded_imports(), document_import_infos(root, text));
    lemma_seeded_imports_shape();
}

/// Law: the two seeded spellings are distinct keys, so the seed is exactly
/// a two-entry mapping, one entry per fully qualified spelling, both
/// classified as direct namespace references.
pub proof fn lemma_seeded_imports_shape()
    ensures
        seeded_imports() =~= seq![
            ("\\Tempest\\view"@, ImportTypeModel::DirectNamespace),
            ("Tempest\\view"@, ImportTypeModel::DirectNamespace),
        ],
        seeded_imports().len() == 2,
        map_contains_key(seeded_imports(), "\\Tempest\\view"@),
        map_contains_key(seeded_imports(), "Tempest\\view"@),
{
    reveal_strlit("\\Tempest\\view");
    reveal_strlit("Tempest\\view");
    assert("\\Tempest\\view"@.len() == 13);
    assert("Tempest\\view"@.len() == 12);
    let first = map_upsert(
        Seq::empty(),
        "\\Tempest\\view"@,
        ImportTypeModel::DirectNamespace,
    );
    assert(!map_contains_key(Seq::empty(), "\\Tempest\\view"@));
    assert(first =~= seq![("\\Tempest\\view"@, ImportTypeModel::DirectNamespace)]);
    assert(!map_contains_key(first, "Tempest\\view"@));
    assert(seeded_imports() =~= first.push(
        ("Tempest\\view"@, ImportTypeModel::DirectNamespace),
    ));
    assert(map_contains_key(seeded_imports(), "\\Tempest\\view"@)) by {
        assert(seeded_imports()[0].0 == "\\Tempest\\view"@);
    }
    assert(map_contains_key(seeded_imports(), "Tempest\\view"@)) by {
        assert(seeded_imports()[1].0 == "Tempest\\view"@);
    }
}

proof fn lemma_upsert_keeps_key(
    entries: Seq<(Seq<char>, ImportTypeModel)>,
    key: Seq<char>,
    new_key: Seq<char>,
    value: ImportTypeModel,
)
    requires
        map_contains_key(entries, key),
    ensures
        map_contains_key(map_upsert(entries, new_key, value), key),
{
    let j = choose|j: int| 0 <= j < entries.len() && (#[trigger] entries[j]).0 == key;
    if map_contains_key(entries, new_key) {
        let k = map_key_index(entries, new_key);
        assert(0 <= k < entries.len() && entries[k].0 == new_key);
        let updated = entries.update(k, (new_key, value));
        if j == k {
            assert(updated[k].0 == new_key && new_key == key);
        } else {
            assert(updated[j].0 == key);
        }
    } else {
        assert(entries.push((new_key, value))[j].0 == key);
    }
}

proof fn lemma_register_imports_keep_key(
    entries: Seq<(Seq<char>, ImportTypeModel)>,
    infos: Seq<ImportInfoModel>,
    key: Seq<char>,
)
    requires
        map_contains_key(entries, key),
    ensures
        map_contains_key(register_imports(entries, infos), key),
    decreases infos.len(),
{
    if infos.len() > 0 {
        lemma_register_imports_keep_key(entries, infos.drop_last(), key);
        let mid = register_imports(entries, infos.drop_last());
        let info = infos.last();
        if targets_tracked_function(info) {
            match info.alias {
                Some(a) => {
                    lemma_upsert_keeps_key(
                        mid,
                        key,
                        a,
                        ImportTypeModel::FunctionImportWithAlias(a),
                    );
                },
                None => {
                    lemma_upsert_keeps_key(
                        mid,
                        key,
                        info.function_name,
                        ImportTypeModel::FunctionImport,
                    );
                },
            }
        }
    }
}

/// Law: whatever the document holds, both fully qualified spellings of the
/// tracked function are resolved, so a call written with either is
/// recognized without any import statement.
pub proof fn lemma_seeded_spellings_always_resolved(root: SyntaxNode, text: Seq<char>)
    ensures
        map_contains_key(imports_model(root, text), "Tempest\\view"@),
        map_contains_key(imports_model(root, text), "\\Tempest\\view"@),
{
    lemma_seeded_imports_shape();
    lemma_register_imports_keep_key(
        seeded_imports(),
        document_import_infos(root, text),
        "Tempest\\view"@,
    );
    lemma_register_imports_keep_key(
        seeded_imports(),
        document_import_infos(root, text),
        "\\Tempest\\view"@,
    );
}

proof fn lemma_correlated_subset(
    calls: Seq<CallModel>,
    entries: Seq<(Seq<char>, ImportTypeModel)>,
)
    ensures
        forall|i: int|
            0 <= i < correlated_calls(calls, entries).len() ==> map_contains_key(
                entries,
                (#[trigger] correlated_calls(calls, entries)[i]).function_name,
            ),
    decreases calls.len(),
{
    if calls.len() > 0 {
        lemma_correlated_subset(calls.drop_first(), entries);
        let kept = correlated_calls(calls, entries);
        let rest = correlated_calls(calls.drop_first(), entries);
        assert forall|i: int|
            0 <= i < kept.len() implies map_contains_key(
            entries,
            (#[trigger] kept[i]).function_name,
        ) by {
            if map_contains_key(entries, calls[0].function_name) {
                if i == 0 {
                    assert(kept[0] == calls[0]);
                } else {
                    assert(kept[i] == rest[i - 1]);
                }
            } else {
                assert(kept[i] == rest[i]);
            }
        }
    }
}

/// Law: the final result's calls are exactly correlated ones, so every
/// reported call's callee spelling is a key of the resolved mapping; a call
/// whose spelling never resolved is filtered out.
pub proof fn lemma_reported_calls_are_resolved(root: SyntaxNode, text: Seq<char>)
    ensures
        forall|i: int|
            0 <= i < analysis_model(root, text).calls.len() ==> map_contains_key(
                analysis_model(root, text).imports,
                (#[trigger] analysis_model(root, text).calls[i]).function_name,
            ),
{
    lemma_correlated_subset(
        crate::call_analyzer::find_calls_model(root, text),
        imports_model(root, text),
    );
}

/// Law: analysis is a function of the (tree, text) pair alone, so two runs
/// on the identical pair yield element-wise equal results: the same resolved
/// mapping, and the same calls in the same order.
pub proof fn lemma_analysis_idempotent(
    root: SyntaxNode,
    text: Seq<char>,
    first: ViewAnalysisResult,
    second: ViewAnalysisResult,
)
    requires
        first@ == analysis_model(root, text),
        second@ == analysis_model(root, text),
    ensures
        first@.imports == second@.imports,
        first@.calls == second@.calls,
        first@.calls.len() == second@.calls.len(),
        forall|i: int| 0 <= i < first@.calls.len() ==> first@.calls[i] == second@.calls[i],
{
}

} // verus!
