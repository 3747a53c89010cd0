pub mod call_analyzer;
pub mod formatter;
pub mod import_analyzer;
pub mod import_map;
pub mod laws;
pub mod php_parser;
pub mod text;
pub mod tree;
pub mod types;

use vstd::prelude::*;

pub use crate::call_analyzer::FunctionCallAnalyzer;
pub use crate::import_analyzer::ImportAnalyzer;
pub use crate::import_map::ImportMap;
pub use crate::types::ImportInfo;
pub use crate::types::ViewAnalysisError;
pub use crate::types::ViewAnalysisResult;
pub use crate::types::ViewCall;
pub use crate::types::ViewImportType;
pub use crate::types::ViewParameter;

use crate::call_analyzer::find_calls_model;
use crate::import_analyzer::imports_model;
use crate::import_map::map_contains_key;
use crate::tree::SyntaxNode;
use crate::tree::SyntaxTree;
use crate::types::CallModel;
use crate::types::ImportTypeModel;
use crate::types::ResultModel;

verus! {

/// The calls of `calls` whose callee spelling is a key of `entries`, in
/// order.
pub open spec fn correlated_calls(
    calls: Seq<CallModel>,
    entries: Seq<(Seq<char>, ImportTypeModel)>,
) -> Seq<CallModel>
    decreases calls,
{
    if calls.len() == 0 {
        Seq::empty()
    } else {
        (if map_contains_key(entries, calls[0].function_name) {
            seq![calls[0]]
        } else {
            Seq::empty()
        }) + correlated_calls(calls.drop_first(), entries)
    }
}

/// The complete outcome of analyzing one document: the resolved spellings
/// of the tracked function, and every discovered call whose callee spelling
/// is one of them.
pub open spec fn analysis_model(root: SyntaxNode, text: Seq<char>) -> ResultModel {
    ResultModel {
        imports: imports_model(root, text),
        calls: correlated_calls(find_calls_model(root, text), imports_model(root, text)),
    }
}

/// The analysis entry point: runs import resolution and call extraction
/// over one (tree, text) pair and correlates the two.
pub struct ViewIntelligence;

impl ViewIntelligence {
    fn correlate(all_calls: Vec<ViewCall>, imports: &ImportMap) -> (r: Vec<ViewCall>)
        ensures
            r.deep_view() == correlated_calls(all_calls.deep_view(), imports@),
    {
        let ghost orig = all_calls.deep_view();
        let mut remaining = all_calls;
        let mut view_calls: Vec<ViewCall> = Vec::new();
        proof {
            assert(view_calls.deep_view() + correlated_calls(remaining.deep_view(), imports@)
                =~= correlated_calls(orig, imports@));
        }
        while remaining.len() > 0
            invariant
                view_calls.deep_view() + correlated_calls(remaining.deep_view(), imports@)
                    == correlated_calls(orig, imports@),
            decreases remaining.len(),
        {
            let ghost rem0 = remaining.deep_view();
            let call = remaining.remove(0);
            proof {
                assert(remaining.deep_view() =~= rem0.drop_first());
                assert(call.deep_view() == rem0[0]);
            }
            if imports.contains_key(call.function_name.as_str()) {
                view_calls.push(call);
            }
            proof {
                assert(view_calls.deep_view() + correlated_calls(
                    remaining.deep_view(),
                    imports@,
                ) =~= correlated_calls(orig, imports@));
            }
        }
        proof {
            assert(view_calls.deep_view() =~= correlated_calls(orig, imports@));
        }
        view_calls
    }

    /// Finds the tracked function's calls in a document: every discovered
    /// call whose callee spelling resolves to the tracked function.
    pub fn find_view_calls(tree: &SyntaxTree, text: &str) -> (r: Result<
        Vec<ViewCall>,
        ViewAnalysisError,
    >)
        ensures
            r matches Ok(v) && v.deep_view() == analysis_model(tree.root, text@).calls,
    {
        let imports = match ImportAnalyzer::analyze_imports(tree, text) {
            Ok(m) => m,
            Err(e) => {
                return Err(e);
            },
        };
        let all_calls = match FunctionCallAnalyzer::find_function_calls(tree, text) {
            Ok(c) => c,
            Err(e) => {
                return Err(e);
            },
        };
        Ok(Self::correlate(all_calls, &imports))
    }

    /// The complete analysis of a document: both the resolved import
    /// mapping and the correlated calls.
    pub fn analyze(tree: &SyntaxTree, text: &str) -> (r: Result<
        ViewAnalysisResult,
        ViewAnalysisError,
    >)
        ensures
            r matches Ok(res) && res@ == analysis_model(tree.root, text@),
    {
        let mut result = ViewAnalysisResult::new();
        result.imports = match ImportAnalyzer::analyze_imports(tree, text) {
            Ok(m) => m,
            Err(e) => {
                return Err(e);
            },
        };
        let all_calls = match FunctionCallAnalyzer::find_function_calls(tree, text) {
            Ok(c) => c,
            Err(e) => {
                return Err(e);
            },
        };
        result.calls = Self::correlate(all_calls, &result.imports);
        Ok(result)
    }
}

} // verus!
