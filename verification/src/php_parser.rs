use vstd::prelude::*;

use crate::tree::SyntaxNode;
use crate::tree::SyntaxTree;

verus! {

#[verifier::external_type_specification]
#[verifier::external_body]
pub struct ExParser(tree_sitter::Parser);

#[verifier::external_type_specification]
#[verifier::external_body]
pub struct ExNode<'tree>(tree_sitter::Node<'tree>);

/// Why a parser could not be built or could not parse.
#[derive(Debug)]
pub enum PhpParserError {
    /// The PHP grammar could not be assigned to a new parser.
    UnableToInitialize(String),
    /// An embedder sharing one parser behind a lock could not acquire it.
    UnableToAcquireLock(String),
    /// The parser returned no tree for the given source text.
    UnableToParse,
}

/// A parser for PHP source text, producing the library's plain syntax
/// trees.
pub struct PhpParser {
    parser: tree_sitter::Parser,
}

/// Relies on tree_sitter::Node and tree_sitter::TreeCursor accessors
/// (kind, start_byte, end_byte, start_position, walk, goto_first_child,
/// goto_next_sibling, field_name) to copy one parse-tree node, with its
/// children, into the library's plain tree type, one node for one node.
#[verifier::external_body]
fn convert_node(node: tree_sitter::Node<'_>, field_name: Option<String>) -> SyntaxNode {
    let mut children = Vec::new();
    let mut cursor = node.walk();
    if cursor.goto_first_child() {
        loop {
            children.push(convert_node(cursor.node(), cursor.field_name().map(|f| f.to_owned())));
            if !cursor.goto_next_sibling() {
                break;
            }
        }
    }
    SyntaxNode { kind: node.kind().to_owned(), field_name, start_byte: node.start_byte(),
        end_byte: node.end_byte(), start_row: node.start_position().row, children }
}

/// Relies on tree_sitter::Parser::parse, which returns `None` only when no
/// language is set or parsing was cancelled; nothing is assumed about the
/// returned tree's contents.
#[verifier::external_body]
fn parse_php(parser: &mut tree_sitter::Parser, source_code: &str) -> Option<SyntaxNode> {
    match parser.parse(source_code, None) {
        Some(parsed) => Some(convert_node(parsed.root_node(), None)),
        None => None,
    }
}

impl PhpParser {
    /// Relies on tree_sitter::Parser::new and Parser::set_language with the
    /// PHP grammar of tree_sitter_php: a parser configured for PHP, or an
    /// error when the grammar cannot be used.
    #[verifier::external_body]
    pub fn new() -> Result<Self, PhpParserError> {
        let mut parser = tree_sitter::Parser::new();
        if parser.set_language(&tree_sitter_php::LANGUAGE_PHP.into()).is_err() {
            return Err(
                PhpParserError::UnableToInitialize("Unable to create parser for PHP".to_owned()),
            );
        }
        Ok(Self { parser })
    }

    /// Parses PHP source text into a syntax tree.
    pub fn parse(&mut self, source_code: &str) -> (r: Result<SyntaxTree, PhpParserError>)
        ensures
            r matches Err(e) ==> e matches PhpParserError::UnableToParse,
    {
        match parse_php(&mut self.parser, source_code) {
            Some(root) => Ok(SyntaxTree { root }),
            None => Err(PhpParserError::UnableToParse),
        }
    }
}

} // verus!
