use tempest_view_intelligence::formatter::ViewAnalysisFormatter;
use tempest_view_intelligence::import_analyzer::ImportAnalyzer;
use tempest_view_intelligence::import_map::ImportMap;
use tempest_view_intelligence::php_parser::PhpParser;
use tempest_view_intelligence::text::usize_to_string;
use tempest_view_intelligence::tree::{AstTraversal, SyntaxNode, SyntaxTree};
use tempest_view_intelligence::types::{
    ViewAnalysisError, ViewAnalysisResult, ViewCall, ViewImportType, ViewParameter,
};
use tempest_view_intelligence::ViewIntelligence;

fn parse_php_code(code: &str) -> SyntaxTree {
    let mut parser = PhpParser::new().expect("parser should initialize");
    parser.parse(code).expect("source should parse")
}

#[test]
fn test_no_imports_leaves_only_seeded_entries() {
    let code = r#"<?php
namespace My\Namespace;

final class Nothing
{
    public function irrelevant(): int
    {
        return strlen('x');
    }
}"#;
    let tree = parse_php_code(code);
    let imports = ImportAnalyzer::analyze_imports(&tree, code).unwrap();
    assert_eq!(imports.len(), 2);
    assert!(imports.contains_key("\\Tempest\\view"));
    assert!(imports.contains_key("Tempest\\view"));
    assert_eq!(
        imports.get("\\Tempest\\view").unwrap(),
        &ViewImportType::DirectNamespace
    );
    assert_eq!(
        imports.get("Tempest\\view").unwrap(),
        &ViewImportType::DirectNamespace
    );
}

#[test]
fn test_direct_spellings_correlated_without_imports() {
    let code = r#"<?php
$a = Tempest\view('one.view.php');
$b = \Tempest\view('two.view.php');
"#;
    let tree = parse_php_code(code);
    let result = ViewIntelligence::analyze(&tree, code).unwrap();
    assert_eq!(result.call_count(), 2);
    assert_eq!(result.calls[0].function_name, "Tempest\\view");
    assert_eq!(result.calls[1].function_name, "\\Tempest\\view");
    assert_eq!(result.calls[0].parameters.len(), 1);
    assert_eq!(result.calls[1].parameters.len(), 1);
    assert!(result.has_view_usage());
}

#[test]
fn test_four_spellings_stay_distinct() {
    let code = r#"<?php
use function Tempest\view;
use function Tempest\view as render;

$a = view('a.view.php');
$b = render('b.view.php');
$c = Tempest\view('c.view.php');
$d = \Tempest\view('d.view.php');
"#;
    let tree = parse_php_code(code);
    let result = ViewIntelligence::analyze(&tree, code).unwrap();
    assert_eq!(result.call_count(), 4);
    let names: Vec<&str> = result
        .calls
        .iter()
        .map(|c| c.function_name.as_str())
        .collect();
    assert_eq!(names, vec!["view", "render", "Tempest\\view", "\\Tempest\\view"]);
}

#[test]
fn test_unresolved_spelling_is_filtered_out() {
    let code = r#"<?php
use function Tempest\{root_path, helper};

$a = view('a.view.php');
"#;
    let tree = parse_php_code(code);
    let calls = ViewIntelligence::find_view_calls(&tree, code).unwrap();
    assert_eq!(calls.len(), 0);
}

#[test]
fn test_analysis_is_idempotent() {
    let code = r#"<?php
use function Tempest\view as render;

$a = render('a.view.php', option: $x);
$b = \Tempest\view('b.view.php');
"#;
    let tree = parse_php_code(code);
    let first = ViewIntelligence::analyze(&tree, code).unwrap();
    let second = ViewIntelligence::analyze(&tree, code).unwrap();
    assert_eq!(first.imports.len(), second.imports.len());
    assert_eq!(
        first.imports.get("render").unwrap(),
        second.imports.get("render").unwrap()
    );
    assert_eq!(first.call_count(), second.call_count());
    for (a, b) in first.calls.iter().zip(second.calls.iter()) {
        assert_eq!(a.function_name, b.function_name);
        assert_eq!(a.line, b.line);
        assert_eq!(a.text, b.text);
        assert_eq!(a.parameters.len(), b.parameters.len());
        for (p, q) in a.parameters.iter().zip(b.parameters.iter()) {
            assert_eq!(p.name, q.name);
            assert_eq!(p.value, q.value);
            assert_eq!(p.raw_text, q.raw_text);
        }
    }
}

#[test]
fn test_colliding_registration_last_wins() {
    let code = r#"<?php
use function Tempest\view;
use function Tempest\view as view;
"#;
    let tree = parse_php_code(code);
    let imports = ImportAnalyzer::analyze_imports(&tree, code).unwrap();
    assert_eq!(imports.len(), 3);
    assert_eq!(
        imports.get("view").unwrap(),
        &ViewImportType::FunctionImportWithAlias("view".to_string())
    );
}

#[test]
fn test_import_type_descriptions() {
    assert_eq!(ViewImportType::DirectNamespace.description(), "direct namespace");
    assert_eq!(ViewImportType::FunctionImport.description(), "function import");
    assert_eq!(
        ViewImportType::FunctionImportWithAlias("x".to_string()).description(),
        "function import with alias"
    );
}

#[test]
fn test_result_constructors_and_counters() {
    let empty = ViewAnalysisResult::new();
    assert_eq!(empty.call_count(), 0);
    assert!(!empty.has_view_usage());

    let mut seeded = ViewAnalysisResult::default();
    ImportAnalyzer::add_direct_namespace_imports(&mut seeded.imports);
    assert!(seeded.has_view_usage());

    let call = ViewCall::with_parameters(
        "view".to_string(),
        7,
        "view('x')".to_string(),
        vec![ViewParameter {
            name: None,
            value: "'x'".to_string(),
            raw_text: "'x'".to_string(),
        }],
    );
    assert_eq!(call.function_name, "view");
    assert_eq!(call.line, 7);
    assert_eq!(call.text, "view('x')");
    assert_eq!(call.parameters.len(), 1);
}

#[test]
fn test_error_messages() {
    assert_eq!(
        ViewAnalysisError::ParseError("bad tree".to_string()).message(),
        "Parse error: bad tree"
    );
    assert_eq!(
        ViewAnalysisError::TextExtractionError.message(),
        "Failed to extract text from node"
    );
    assert_eq!(
        ViewAnalysisError::InvalidImportFormat("no clause".to_string()).message(),
        "Invalid import format: no clause"
    );
}

fn leaf(kind: &str, start: usize, end: usize) -> SyntaxNode {
    SyntaxNode {
        kind: kind.to_string(),
        field_name: None,
        start_byte: start,
        end_byte: end,
        start_row: 0,
        children: Vec::new(),
    }
}

#[test]
fn test_traversal_primitives_on_plain_tree() {
    let text = "hello été";
    let inner = SyntaxNode {
        kind: "a".to_string(),
        field_name: None,
        start_byte: 6,
        end_byte: 8,
        start_row: 0,
        children: vec![leaf("x", 6, 8)],
    };
    let root = SyntaxNode {
        kind: "a".to_string(),
        field_name: None,
        start_byte: 0,
        end_byte: 11,
        start_row: 0,
        children: vec![leaf("x", 0, 5), inner],
    };
    let tree = SyntaxTree { root };

    let xs = AstTraversal::find_nodes_by_kind(&tree, "x");
    assert_eq!(xs.len(), 2);
    assert_eq!(xs[0].start_byte, 0);
    assert_eq!(xs[1].start_byte, 6);

    let az = AstTraversal::find_nodes_by_kind(&tree, "a");
    assert_eq!(az.len(), 2);
    assert_eq!(az[0].end_byte, 11);

    let direct = AstTraversal::find_child_by_kind(&tree.root, "x").unwrap();
    assert_eq!(direct.end_byte, 5);
    assert!(AstTraversal::find_child_by_kind(&tree.root, "missing").is_none());

    assert_eq!(AstTraversal::traverse_children(&tree.root).len(), 2);

    assert_eq!(AstTraversal::extract_node_text(&xs[0], text).unwrap(), "hello");
    assert_eq!(AstTraversal::extract_node_text(&xs[1], text).unwrap(), "é");

    let misaligned = leaf("x", 6, 7);
    assert!(matches!(
        AstTraversal::extract_node_text(&misaligned, text),
        Err(ViewAnalysisError::TextExtractionError)
    ));
    let out_of_range = leaf("x", 0, 100);
    assert!(matches!(
        AstTraversal::extract_node_text(&out_of_range, text),
        Err(ViewAnalysisError::TextExtractionError)
    ));
    let reversed = leaf("x", 5, 2);
    assert!(matches!(
        AstTraversal::extract_node_text(&reversed, text),
        Err(ViewAnalysisError::TextExtractionError)
    ));
}

#[test]
fn test_call_without_callee_field_is_dropped() {
    let text = "abc()";
    let call_node = SyntaxNode {
        kind: "function_call_expression".to_string(),
        field_name: None,
        start_byte: 0,
        end_byte: 5,
        start_row: 0,
        children: vec![leaf("name", 0, 3)],
    };
    let root = SyntaxNode {
        kind: "program".to_string(),
        field_name: None,
        start_byte: 0,
        end_byte: 5,
        start_row: 0,
        children: vec![call_node],
    };
    let tree = SyntaxTree { root };
    let calls =
        tempest_view_intelligence::call_analyzer::FunctionCallAnalyzer::find_function_calls(
            &tree, text,
        )
        .unwrap();
    assert_eq!(calls.len(), 0);
}

#[test]
fn test_decimal_rendering() {
    assert_eq!(usize_to_string(0), "0");
    assert_eq!(usize_to_string(9), "9");
    assert_eq!(usize_to_string(910), "910");
    assert_eq!(usize_to_string(100200), "100200");
}

#[test]
fn test_format_import_summary_exact() {
    let mut imports = ImportMap::new();
    ImportAnalyzer::add_direct_namespace_imports(&mut imports);
    assert_eq!(
        ViewAnalysisFormatter::format_import_summary(&imports),
        "\\Tempest\\view (direct namespace), Tempest\\view (direct namespace)"
    );
    imports.insert(
        "render".to_string(),
        ViewImportType::FunctionImportWithAlias("render".to_string()),
    );
    assert_eq!(
        ViewAnalysisFormatter::format_import_summary(&imports),
        "\\Tempest\\view (direct namespace), Tempest\\view (direct namespace), render (alias for view)"
    );
}

#[test]
fn test_format_call_summary_exact() {
    let code = "<?php\nuse function Tempest\\view;\necho view('a.view.php');\n";
    let tree = parse_php_code(code);
    let result = ViewIntelligence::analyze(&tree, code).unwrap();
    assert_eq!(result.call_count(), 1);
    assert_eq!(
        ViewAnalysisFormatter::format_call_summary(&result),
        "Found 1 Tempest view() calls:\n  - Line 3: view('a.view.php') (imported)"
    );
}

#[test]
fn test_empty_map_summary_is_empty() {
    let imports = ImportMap::new();
    assert_eq!(ViewAnalysisFormatter::format_import_summary(&imports), "");
    assert!(imports.is_empty());
    assert!(!imports.contains_key("view"));
    assert!(imports.get("view").is_none());
}
