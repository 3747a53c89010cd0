use vstd::prelude::*;

use crate::text::all_ascii_punct;
use crate::text::join_spec;
use crate::text::join_with;
use crate::text::str_all_ascii_punct;
use crate::text::str_contains_char;
use crate::text::str_eq;
use crate::tree::first_child_with_field;
use crate::tree::has_field;
use crate::tree::kind_preorder;
use crate::tree::node_text;
use crate::tree::AstTraversal;
use crate::tree::SyntaxNode;
use crate::tree::SyntaxTree;
use crate::types::CallModel;
use crate::types::ParamModel;
use crate::types::ViewAnalysisError;
use crate::types::ViewCall;
use crate::types::ViewParameter;

verus! {

/// The 1-based line for a 0-based row, saturating at the integer limit.
pub open spec fn line_of(row: nat) -> nat {
    if row == usize::MAX as nat {
        usize::MAX as nat
    } else {
        row + 1
    }
}

/// The texts that make up a named argument's extracted value: the texts of
/// the argument's direct children, in order, excluding the name field,
/// children whose kind mentions the name-value separator, and childless
/// all-punctuation tokens; a child whose span cannot be extracted is
/// skipped.
pub open spec fn argument_value_parts(children: Seq<SyntaxNode>, text: Seq<char>) -> Seq<
    Seq<char>,
>
    decreases children,
{
    if children.len() == 0 {
        Seq::empty()
    } else {
        let rest = argument_value_parts(children.drop_last(), text);
        let c = children.last();
        if !has_field(c, "name"@) && !c.kind@.contains(':') && c.kind@ != ":"@ && (
        c.children.len() > 0 || !all_ascii_punct(c.kind@)) {
            match node_text(c, text) {
                Some(t) => rest.push(t),
                None => rest,
            }
        } else {
            rest
        }
    }
}

/// The decomposition of one argument node: for named-argument syntax the
/// name field's text and the reconstructed value with collapsed whitespace,
/// else no name and the verbatim span as value; `None` when a required span
/// cannot be extracted.
pub open spec fn argument_model(arg: SyntaxNode, text: Seq<char>) -> Option<ParamModel> {
    match node_text(arg, text) {
        None => None,
        Some(raw) => match first_child_with_field(arg.children@, "name"@) {
            Some(name_node) => match node_text(name_node, text) {
                None => None,
                Some(nm) => Some(
                    ParamModel {
                        name: Some(nm),
                        value: join_spec(argument_value_parts(arg.children@, text), " "@),
                        raw_text: raw,
                    },
                ),
            },
            None => Some(ParamModel { name: None, value: raw, raw_text: raw }),
        },
    }
}

/// The arguments found under an arguments node: its direct children of kind
/// `argument`, decomposed, in order; an argument that cannot be decomposed
/// is dropped without affecting its siblings.
pub open spec fn params_list(children: Seq<SyntaxNode>, text: Seq<char>) -> Seq<ParamModel>
    decreases children,
{
    if children.len() == 0 {
        Seq::empty()
    } else {
        let rest = params_list(children.drop_last(), text);
        let c = children.last();
        if c.kind@ == "argument"@ {
            match argument_model(c, text) {
                Some(p) => rest.push(p),
                None => rest,
            }
        } else {
            rest
        }
    }
}

/// The decomposed arguments of a call node: those under its `arguments`
/// field, or none when the call has no such field.
pub open spec fn params_model(call: SyntaxNode, text: Seq<char>) -> Seq<ParamModel> {
    match first_child_with_field(call.children@, "arguments"@) {
        Some(args) => params_list(args.children@, text),
        None => Seq::empty(),
    }
}

/// The decomposition of one call node: its callee's verbatim spelling, its
/// 1-based starting line, its verbatim text, and its arguments; `None` when
/// the callee field is missing or a required span cannot be extracted.
pub open spec fn call_model(node: SyntaxNode, text: Seq<char>) -> Option<CallModel> {
    match first_child_with_field(node.children@, "function"@) {
        None => None,
        Some(function_node) => match node_text(function_node, text) {
            None => None,
            Some(name) => match node_text(node, text) {
                None => None,
                Some(call_text) => Some(
                    CallModel {
                        function_name: name,
                        line: line_of(node.start_row as nat),
                        text: call_text,
                        parameters: params_model(node, text),
                    },
                ),
            },
        },
    }
}

/// The decompositions of a sequence of call nodes, in order; a call that
/// cannot be decomposed is dropped without affecting the rest.
pub open spec fn calls_model(nodes: Seq<SyntaxNode>, text: Seq<char>) -> Seq<CallModel>
    decreases nodes,
{
    if nodes.len() == 0 {
        Seq::empty()
    } else {
        let rest = calls_model(nodes.drop_last(), text);
        match call_model(nodes.last(), text) {
            Some(c) => rest.push(c),
            None => rest,
        }
    }
}

/// Every function call of the document, decomposed, in tree order.
pub open spec fn find_calls_model(root: SyntaxNode, text: Seq<char>) -> Seq<CallModel> {
    calls_model(kind_preorder(root, "function_call_expression"@), text)
}

/// Finds every function-call expression in a tree and decomposes its
/// arguments, independent of any later correlation.
pub struct FunctionCallAnalyzer;

impl FunctionCallAnalyzer {
    /// Every function call of the document, decomposed, in tree order.
    pub fn find_function_calls(tree: &SyntaxTree, text: &str) -> (r: Result<
        Vec<ViewCall>,
        ViewAnalysisError,
    >)
        ensures
            r matches Ok(v) && v.deep_view() == find_calls_model(tree.root, text@),
    {
        let call_nodes = AstTraversal::find_nodes_by_kind(tree, "function_call_expression");
        let ghost nodes = kind_preorder(tree.root, "function_call_expression"@);
        let mut calls: Vec<ViewCall> = Vec::new();
        let n = call_nodes.len();
        let mut i: usize = 0;
        while i < n
            invariant
                i <= n,
                n == call_nodes.len(),
                nodes == kind_preorder(tree.root, "function_call_expression"@),
                crate::tree::derefs(call_nodes@) == nodes,
                calls.deep_view() == calls_model(nodes.take(i as int), text@),
            decreases n - i,
        {
            let node = call_nodes[i];
            proof {
                assert(crate::tree::derefs(call_nodes@)[i as int] == nodes[i as int]);
            }
            match Self::extract_view_call_info(node, text) {
                Ok(view_call) => {
                    calls.push(view_call);
                },
                Err(_) => {},
            }
            proof {
                assert(nodes.take(i + 1).drop_last() =~= nodes.take(i as int));
                assert(nodes.take(i + 1).last() == nodes[i as int]);
            }
            i = i + 1;
        }
        proof {
            assert(nodes.take(n as int) =~= nodes);
        }
        Ok(calls)
    }

    /// Decomposes one call node; a call without a callee field, or whose
    /// required spans cannot be extracted, is reported as an error for the
    /// caller to drop.
    fn extract_view_call_info(node: &SyntaxNode, text: &str) -> (r: Result<
        ViewCall,
        ViewAnalysisError,
    >)
        ensures
            match r {
                Ok(c) => call_model(*node, text@) == Some(c@),
                Err(_) => call_model(*node, text@) is None,
            },
    {
        let function_node = match AstTraversal::find_child_by_field(node, "function") {
            Some(f) => f,
            None => {
                return Err(
                    ViewAnalysisError::ParseError(
                        "Function call missing function field".to_owned(),
                    ),
                );
            },
        };
        let function_name = match AstTraversal::extract_node_text(function_node, text) {
            Ok(s) => s,
            Err(e) => {
                return Err(e);
            },
        };
        let line = if node.start_row == usize::MAX {
            usize::MAX
        } else {
            node.start_row + 1
        };
        let call_text = match AstTraversal::extract_node_text(node, text) {
            Ok(s) => s,
            Err(e) => {
                return Err(e);
            },
        };
        let parameters = match Self::parse_function_parameters(node, text) {
            Ok(ps) => ps,
            Err(e) => {
                return Err(e);
            },
        };
        Ok(ViewCall::with_parameters(function_name, line, call_text, parameters))
    }

    /// Decomposes the arguments of one call node, in order; a call without
    /// an `arguments` field has none.
    fn parse_function_parameters(node: &SyntaxNode, text: &str) -> (r: Result<
        Vec<ViewParameter>,
        ViewAnalysisError,
    >)
        ensures
            r matches Ok(v) && v.deep_view() == params_model(*node, text@),
    {
        let mut parameters: Vec<ViewParameter> = Vec::new();
        let arguments_node = match AstTraversal::find_child_by_field(node, "arguments") {
            Some(a) => a,
            None => {
                return Ok(parameters);
            },
        };
        let children = AstTraversal::traverse_children(arguments_node);
        let n = children.len();
        let mut i: usize = 0;
        while i < n
            invariant
                i <= n,
                n == children.len(),
                children@ == arguments_node.children@,
                parameters.deep_view() == params_list(
                    arguments_node.children@.take(i as int),
                    text@,
                ),
            decreases n - i,
        {
            let child = &children[i];
            if str_eq(child.kind.as_str(), "argument") {
                match Self::parse_single_argument(child, text) {
                    Ok(param) => {
                        parameters.push(param);
                    },
                    Err(_) => {},
                }
            }
            proof {
                assert(arguments_node.children@.take(i + 1).drop_last()
                    =~= arguments_node.children@.take(i as int));
                assert(arguments_node.children@.take(i + 1).last()
                    == arguments_node.children@[i as int]);
            }
            i = i + 1;
        }
        proof {
            assert(arguments_node.children@.take(n as int) =~= arguments_node.children@);
        }
        Ok(parameters)
    }

    /// Decomposes one argument node: named-argument syntax yields the name
    /// and a value reconstructed from the non-separator children's texts
    /// joined with single spaces; a positional argument's value is its
    /// verbatim span.
    fn parse_single_argument(node: &SyntaxNode, text: &str) -> (r: Result<
        ViewParameter,
        ViewAnalysisError,
    >)
        ensures
            match r {
                Ok(p) => argument_model(*node, text@) == Some(p@),
                Err(_) => argument_model(*node, text@) is None,
            },
    {
        let raw_text = match AstTraversal::extract_node_text(node, text) {
            Ok(s) => s,
            Err(e) => {
                return Err(e);
            },
        };
        let name_node = match AstTraversal::find_child_by_field(node, "name") {
            Some(nn) => nn,
            None => {
                let value = raw_text.clone();
                return Ok(ViewParameter { name: None, value, raw_text });
            },
        };
        let name = match AstTraversal::extract_node_text(name_node, text) {
            Ok(s) => s,
            Err(e) => {
                return Err(e);
            },
        };
        let mut value_parts: Vec<String> = Vec::new();
        let children = AstTraversal::traverse_children(node);
        let n = children.len();
        let mut i: usize = 0;
        while i < n
            invariant
                i <= n,
                n == children.len(),
                children@ == node.children@,
                value_parts.deep_view() == argument_value_parts(
                    node.children@.take(i as int),
                    text@,
                ),
            decreases n - i,
        {
            let child = &children[i];
            let is_name_field = match &child.field_name {
                Some(f) => str_eq(f.as_str(), "name"),
                None => false,
            };
            if !is_name_field && !str_contains_char(child.kind.as_str(), ':') && !str_eq(
                child.kind.as_str(),
                ":",
            ) && (child.children.len() > 0 || !str_all_ascii_punct(child.kind.as_str())) {
                match AstTraversal::extract_node_text(child, text) {
                    Ok(child_text) => {
                        value_parts.push(child_text);
                    },
                    Err(_) => {},
                }
            }
            proof {
                assert(node.children@.take(i + 1).drop_last() =~= node.children@.take(i as int));
                assert(node.children@.take(i + 1).last() == node.children@[i as int]);
            }
            i = i + 1;
        }
        proof {
            assert(node.children@.take(n as int) =~= node.children@);
        }
        let value = join_with(&value_parts, " ");
        Ok(ViewParameter { name: Some(name), value, raw_text })
    }
}

} // verus!
