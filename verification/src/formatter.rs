use vstd::prelude::*;
use vstd::string::StringExecFns;

use crate::import_map::map_contains_key;
use crate::import_map::map_value_of;
use crate::import_map::ImportMap;
use crate::text::dec_str;
use crate::text::join_spec;
use crate::text::join_with;
use crate::text::usize_to_string;
use crate::types::CallModel;
use crate::types::ImportTypeModel;
use crate::types::ResultModel;
use crate::types::ViewAnalysisResult;
use crate::types::ViewImportType;

verus! {

/// The summary line fragment for one resolved spelling.
pub open spec fn import_entry_summary(key: Seq<char>, t: ImportTypeModel) -> Seq<char> {
    match t {
        ImportTypeModel::DirectNamespace => key + " ("@ + "direct namespace"@ + ")"@,
        ImportTypeModel::FunctionImport => key + " ("@ + "function import"@ + ")"@,
        ImportTypeModel::FunctionImportWithAlias(a) => a + " (alias for view)"@,
    }
}

/// The summary line fragments of a resolved import mapping, in
/// registration order.
pub open spec fn import_entry_summaries(entries: Seq<(Seq<char>, ImportTypeModel)>) -> Seq<
    Seq<char>,
> {
    entries.map_values(|e: (Seq<char>, ImportTypeModel)| import_entry_summary(e.0, e.1))
}

/// The one-line summary of a resolved import mapping: each spelling's
/// fragment, in registration order, joined with commas.
pub open spec fn import_summary_spec(entries: Seq<(Seq<char>, ImportTypeModel)>) -> Seq<char> {
    join_spec(import_entry_summaries(entries), ", "@)
}

/// The short label for how a call's callee spelling was resolved.
pub open spec fn call_type_label(
    entries: Seq<(Seq<char>, ImportTypeModel)>,
    name: Seq<char>,
) -> Seq<char> {
    if map_contains_key(entries, name) {
        match map_value_of(entries, name) {
            ImportTypeModel::DirectNamespace => "direct"@,
            ImportTypeModel::FunctionImport => "imported"@,
            ImportTypeModel::FunctionImportWithAlias(_) => "aliased"@,
        }
    } else {
        "unknown"@
    }
}

/// The summary line for one correlated call.
pub open spec fn call_line_summary(
    entries: Seq<(Seq<char>, ImportTypeModel)>,
    c: CallModel,
) -> Seq<char> {
    "  - Line "@ + dec_str(c.line) + ": "@ + c.text + " ("@ + call_type_label(
        entries,
        c.function_name,
    ) + ")"@
}

/// The summary lines of the correlated calls, in order.
pub open spec fn call_line_summaries(
    entries: Seq<(Seq<char>, ImportTypeModel)>,
    calls: Seq<CallModel>,
) -> Seq<Seq<char>> {
    calls.map_values(|c: CallModel| call_line_summary(entries, c))
}

/// The multi-line summary of a whole analysis result.
pub open spec fn call_summary_spec(m: ResultModel) -> Seq<char> {
    "Found "@ + dec_str(m.calls.len()) + " Tempest view() calls:\n"@ + join_spec(
        call_line_summaries(m.imports, m.calls),
        "\n"@,
    )
}

/// Renders analysis results as human-readable summaries.
pub struct ViewAnalysisFormatter;

impl ViewAnalysisFormatter {
    /// The one-line summary of every resolved spelling of the tracked
    /// function.
    pub fn format_import_summary(imports: &ImportMap) -> (r: String)
        ensures
            r@ == import_summary_spec(imports@),
    {
        let mut parts: Vec<String> = Vec::new();
        let n = imports.len();
        let mut i: usize = 0;
        while i < n
            invariant
                i <= n,
                n == imports@.len(),
                parts@.len() == i,
                parts.deep_view() == import_entry_summaries(imports@.take(i as int)),
            decreases n - i,
        {
            let name = imports.key_at(i);
            let import_type = imports.type_at(i);
            let mut line = String::new();
            match import_type {
                ViewImportType::DirectNamespace => {
                    line.append(name.as_str());
                    line.append(" (");
                    line.append(import_type.description());
                    line.append(")");
                },
                ViewImportType::FunctionImport => {
                    line.append(name.as_str());
                    line.append(" (");
                    line.append(import_type.description());
                    line.append(")");
                },
                ViewImportType::FunctionImportWithAlias(alias) => {
                    line.append(alias.as_str());
                    line.append(" (alias for view)");
                },
            }
            parts.push(line);
            proof {
                assert(line@ == import_entry_summary(imports@[i as int].0, imports@[i as int].1));
                let lhs = parts.deep_view();
                let rhs = import_entry_summaries(imports@.take(i + 1));
                assert(lhs.len() == i + 1);
                assert(rhs.len() == i + 1);
                assert forall|j: int| 0 <= j < lhs.len() implies lhs[j] == rhs[j] by {
                    assert(rhs[j] == import_entry_summary(
                        imports@.take(i + 1)[j].0,
                        imports@.take(i + 1)[j].1,
                    ));
                    if j < i {
                        assert(lhs[j] == import_entry_summaries(imports@.take(i as int))[j]);
                        assert(lhs[j] == import_entry_summary(
                            imports@.take(i as int)[j].0,
                            imports@.take(i as int)[j].1,
                        ));
                    }
                }
                assert(lhs =~= rhs);
            }
            i = i + 1;
        }
        proof {
            assert(imports@.take(n as int) =~= imports@);
        }
        join_with(&parts, ", ")
    }

    /// The multi-line summary of a whole analysis result: a headline with
    /// the number of correlated calls, then one line per call.
    pub fn format_call_summary(result: &ViewAnalysisResult) -> (r: String)
        ensures
            r@ == call_summary_spec(result@),
    {
        let mut call_details: Vec<String> = Vec::new();
        let n = result.calls.len();
        let mut i: usize = 0;
        while i < n
            invariant
                i <= n,
                n == result.calls.len(),
                call_details@.len() == i,
                call_details.deep_view() == call_line_summaries(
                    result@.imports,
                    result@.calls.take(i as int),
                ),
            decreases n - i,
        {
            let call = &result.calls[i];
            let mut line = String::new();
            line.append("  - Line ");
            let line_number = usize_to_string(call.line);
            line.append(line_number.as_str());
            line.append(": ");
            line.append(call.text.as_str());
            line.append(" (");
            match result.imports.get(call.function_name.as_str()) {
                Some(t) => match t {
                    ViewImportType::DirectNamespace => line.append("direct"),
                    ViewImportType::FunctionImport => line.append("imported"),
                    ViewImportType::FunctionImportWithAlias(_) => line.append("aliased"),
                },
                None => line.append("unknown"),
            }
            line.append(")");
            call_details.push(line);
            proof {
                assert(call.deep_view() == result@.calls[i as int]);
                assert(line@ == call_line_summary(result@.imports, result@.calls[i as int]));
                let lhs = call_details.deep_view();
                let rhs = call_line_summaries(result@.imports, result@.calls.take(i + 1));
                assert(lhs.len() == i + 1);
                assert(rhs.len() == i + 1);
                assert forall|j: int| 0 <= j < lhs.len() implies lhs[j] == rhs[j] by {
                    assert(rhs[j] == call_line_summary(
                        result@.imports,
                        result@.calls.take(i + 1)[j],
                    ));
                    if j < i {
                        assert(lhs[j] == call_line_summaries(
                            result@.imports,
                            result@.calls.take(i as int),
                        )[j]);
                        assert(lhs[j] == call_line_summary(
                            result@.imports,
                            result@.calls.take(i as int)[j],
                        ));
                    }
                }
                assert(lhs =~= rhs);
            }
            i = i + 1;
        }
        proof {
            assert(result@.calls.take(n as int) =~= result@.calls);
        }
        let details = join_with(&call_details, "\n");
        let call_count = result.call_count();
        let mut summary = String::new();
        summary.append("Found ");
        let count_text = usize_to_string(call_count);
        summary.append(count_text.as_str());
        summary.append(" Tempest view() calls:\n");
        summary.append(details.as_str());
        summary
    }
}

} // verus!
