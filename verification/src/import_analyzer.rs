use vstd::prelude::*;

use crate::import_map::map_upsert;
use crate::import_map::ImportMap;
use crate::text::join_spec;
use crate::text::join_with;
use crate::text::starts_with_spec;
use crate::text::str_eq;
use crate::text::trim_start_spec;
use crate::text::trimmed_starts_with;
use crate::tree::first_child_of_kind;
use crate::tree::kind_preorder;
use crate::tree::node_text;
use crate::tree::AstTraversal;
use crate::tree::SyntaxNode;
use crate::tree::SyntaxTree;
use crate::types::ImportInfo;
use crate::types::ImportInfoModel;
use crate::types::ImportTypeModel;
use crate::types::ViewAnalysisError;
use crate::types::ViewImportType;

verus! {

/// The texts of the `name` children of a `namespace_name` node, in order;
/// a child whose span cannot be extracted is skipped.
pub open spec fn namespace_name_parts(children: Seq<SyntaxNode>, text: Seq<char>) -> Seq<
    Seq<char>,
>
    decreases children,
{
    if children.len() == 0 {
        Seq::empty()
    } else {
        let rest = namespace_name_parts(children.drop_last(), text);
        let c = children.last();
        if c.kind@ == "name"@ {
            match node_text(c, text) {
                Some(t) => rest.push(t),
                None => rest,
            }
        } else {
            rest
        }
    }
}

/// The segments of a qualified name: the texts collected from its
/// `namespace_name` children's parts and its own `name` children, in order.
pub open spec fn qualified_name_parts(node: SyntaxNode, text: Seq<char>) -> Seq<Seq<char>> {
    qualified_name_parts_list(node.children@, text)
}

pub open spec fn qualified_name_parts_list(children: Seq<SyntaxNode>, text: Seq<char>) -> Seq<
    Seq<char>,
>
    decreases children,
{
    if children.len() == 0 {
        Seq::empty()
    } else {
        let rest = qualified_name_parts_list(children.drop_last(), text);
        let c = children.last();
        if c.kind@ == "namespace_name"@ {
            rest + namespace_name_parts(c.children@, text)
        } else if c.kind@ == "name"@ {
            match node_text(c, text) {
                Some(t) => rest.push(t),
                None => rest,
            }
        } else {
            rest
        }
    }
}

/// A left-to-right scan of a single use clause's children: the segments of
/// its last `qualified_name` child, and the text of its last extractable
/// `name` child (the alias), if any.
pub open spec fn clause_scan(children: Seq<SyntaxNode>, text: Seq<char>) -> (Seq<Seq<char>>, Option<
    Seq<char>,
>)
    decreases children,
{
    if children.len() == 0 {
        (Seq::empty(), None::<Seq<char>>)
    } else {
        let (parts, alias) = clause_scan(children.drop_last(), text);
        let c = children.last();
        if c.kind@ == "qualified_name"@ {
            (qualified_name_parts(c, text), alias)
        } else if c.kind@ == "name"@ {
            match node_text(c, text) {
                Some(t) => (parts, Some(t)),
                None => (parts, alias),
            }
        } else {
            (parts, alias)
        }
    }
}

/// The import described by a single use clause: at least two qualified-name
/// segments are required; the last is the function name, the rest joined
/// with the namespace separator form the namespace, and a trailing `name`
/// child supplies an alias.
pub open spec fn single_clause_info(clause: SyntaxNode, text: Seq<char>) -> Option<
    ImportInfoModel,
> {
    let (parts, alias) = clause_scan(clause.children@, text);
    if parts.len() < 2 {
        None
    } else {
        Some(
            ImportInfoModel {
                namespace: join_spec(parts.drop_last(), "\\"@),
                function_name: parts.last(),
                alias,
            },
        )
    }
}

/// Whether the direct children of a grouped sub-clause name the tracked
/// function literally.
pub open spec fn clause_has_view(children: Seq<SyntaxNode>, text: Seq<char>) -> bool
    decreases children,
{
    if children.len() == 0 {
        false
    } else {
        clause_has_view(children.drop_last(), text) || {
            let c = children.last();
            c.kind@ == "name"@ && node_text(c, text) == Some("view"@)
        }
    }
}

/// A left-to-right scan of a grouped use clause's children: the first
/// segment of its last segment-bearing `qualified_name` child (the shared
/// namespace prefix), and whether any grouped sub-clause names the tracked
/// function.
pub open spec fn group_scan(children: Seq<SyntaxNode>, text: Seq<char>) -> (Seq<char>, bool)
    decreases children,
{
    if children.len() == 0 {
        (Seq::empty(), false)
    } else {
        let (ns, found) = group_scan(children.drop_last(), text);
        let c = children.last();
        if c.kind@ == "qualified_name"@ {
            let parts = qualified_name_parts(c, text);
            if parts.len() > 0 {
                (parts[0], found)
            } else {
                (ns, found)
            }
        } else if c.kind@ == "namespace_use_clause"@ {
            (ns, found || clause_has_view(c.children@, text))
        } else {
            (ns, found)
        }
    }
}

/// The import described by a grouped use clause: only a group one of whose
/// sub-clauses names the tracked function counts, and it stands for a plain
/// import of the tracked function under the shared prefix (defaulting to
/// the tracked namespace when the prefix is empty).
pub open spec fn grouped_clause_info(group: SyntaxNode, text: Seq<char>) -> Option<
    ImportInfoModel,
> {
    let (ns, found) = group_scan(group.children@, text);
    if !found {
        None
    } else {
        Some(
            ImportInfoModel {
                namespace: if ns.len() == 0 {
                    "Tempest"@
                } else {
                    ns
                },
                function_name: "view"@,
                alias: None,
            },
        )
    }
}

/// Whether an import statement imports functions: it carries a direct
/// `function` keyword child, or its single use clause's text, left-trimmed,
/// starts with the word `function`.
pub open spec fn is_function_use(decl: SyntaxNode, text: Seq<char>) -> bool {
    if first_child_of_kind(decl.children@, "function"@) is Some {
        true
    } else {
        match first_child_of_kind(decl.children@, "namespace_use_clause"@) {
            Some(cl) => match node_text(cl, text) {
                Some(t) => starts_with_spec(trim_start_spec(t), "function"@),
                None => false,
            },
            None => false,
        }
    }
}

/// The import described by an import statement's clause, whichever of the
/// two clause shapes it has; `None` when it has neither.
pub open spec fn use_clause_info(decl: SyntaxNode, text: Seq<char>) -> Option<ImportInfoModel> {
    match first_child_of_kind(decl.children@, "namespace_use_clause"@) {
        Some(cl) => single_clause_info(cl, text),
        None => match first_child_of_kind(decl.children@, "namespace_use_group"@) {
            Some(g) => grouped_clause_info(g, text),
            None => None,
        },
    }
}

/// The import described by an import statement: only function imports of a
/// recognized shape count.
pub open spec fn use_decl_info(decl: SyntaxNode, text: Seq<char>) -> Option<ImportInfoModel> {
    if is_function_use(decl, text) {
        use_clause_info(decl, text)
    } else {
        None
    }
}

/// The imports described by a sequence of import statements, in order;
/// statements of no recognized shape are skipped.
pub open spec fn import_infos(decls: Seq<SyntaxNode>, text: Seq<char>) -> Seq<ImportInfoModel>
    decreases decls,
{
    if decls.len() == 0 {
        Seq::empty()
    } else {
        let rest = import_infos(decls.drop_last(), text);
        match use_decl_info(decls.last(), text) {
            Some(info) => rest.push(info),
            None => rest,
        }
    }
}

/// Whether an import's namespace and function name are exactly the tracked
/// function's.
pub open spec fn targets_tracked_function(info: ImportInfoModel) -> bool {
    info.namespace == "Tempest"@ && info.function_name == "view"@
}

/// Registers one import into the mapping: only the tracked function's exact
/// namespace and name count, keyed by the alias when one is present.
pub open spec fn register_import(
    entries: Seq<(Seq<char>, ImportTypeModel)>,
    info: ImportInfoModel,
) -> Seq<(Seq<char>, ImportTypeModel)> {
    if targets_tracked_function(info) {
        match info.alias {
            Some(a) => map_upsert(entries, a, ImportTypeModel::FunctionImportWithAlias(a)),
            None => map_upsert(
                entries,
                info.function_name,
                ImportTypeModel::FunctionImport,
            ),
        }
    } else {
        entries
    }
}

/// Registers a sequence of imports, in order; a later registration of the
/// same key overwrites the earlier one.
pub open spec fn register_imports(
    entries: Seq<(Seq<char>, ImportTypeModel)>,
    infos: Seq<ImportInfoModel>,
) -> Seq<(Seq<char>, ImportTypeModel)>
    decreases infos,
{
    if infos.len() == 0 {
        entries
    } else {
        register_import(register_imports(entries, infos.drop_last()), infos.last())
    }
}

/// The two seeded entries: the tracked function's fully qualified spelling
/// with and without the leading qualifier separator.
pub open spec fn seeded_imports() -> Seq<(Seq<char>, ImportTypeModel)> {
    map_upsert(
        map_upsert(
            Seq::empty(),
            "\\Tempest\\view"@,
            ImportTypeModel::DirectNamespace,
        ),
        "Tempest\\view"@,
        ImportTypeModel::DirectNamespace,
    )
}

/// The imports described by the document's import statements, in tree
/// order.
pub open spec fn document_import_infos(root: SyntaxNode, text: Seq<char>) -> Seq<
    ImportInfoModel,
> {
    import_infos(kind_preorder(root, "namespace_use_declaration"@), text)
}

/// Every locally visible spelling of the tracked function in the document,
/// mapped to its classification: the two seeded spellings, then one
/// registration per matching import statement, in tree order.
pub open spec fn imports_model(root: SyntaxNode, text: Seq<char>) -> Seq<
    (Seq<char>, ImportTypeModel),
> {
    register_imports(seeded_imports(), document_import_infos(root, text))
}

/// Maps every way the tracked function might be locally invoked to a
/// classification.
pub struct ImportAnalyzer;

impl ImportAnalyzer {
    /// Seeds `imports` with the two fully qualified spellings of the
    /// tracked function.
    pub fn add_direct_namespace_imports(imports: &mut ImportMap)
        ensures
            final(imports)@ == map_upsert(
                map_upsert(
                    old(imports)@,
                    "\\Tempest\\view"@,
                    ImportTypeModel::DirectNamespace,
                ),
                "Tempest\\view"@,
                ImportTypeModel::DirectNamespace,
            ),
    {
        imports.insert("\\Tempest\\view".to_owned(), ViewImportType::DirectNamespace);
        imports.insert("Tempest\\view".to_owned(), ViewImportType::DirectNamespace);
    }

    /// Resolves every locally visible spelling of the tracked function in
    /// the document to its classification.
    pub fn analyze_imports(tree: &SyntaxTree, text: &str) -> (r: Result<
        ImportMap,
        ViewAnalysisError,
    >)
        ensures
            r matches Ok(m) && m@ == imports_model(tree.root, text@),
    {
        let mut imports = ImportMap::new();
        Self::add_direct_namespace_imports(&mut imports);
        proof {
            assert(imports@ == seeded_imports());
        }
        let infos = match Self::extract_import_statements(tree, text) {
            Ok(infos) => infos,
            Err(e) => {
                return Err(e);
            },
        };
        let ghost infos_view = infos.deep_view();
        let n = infos.len();
        let mut i: usize = 0;
        while i < n
            invariant
                i <= n,
                n == infos.len(),
                infos_view == infos.deep_view(),
                infos_view == import_infos(
                    kind_preorder(tree.root, "namespace_use_declaration"@),
                    text@,
                ),
                imports@ == register_imports(seeded_imports(), infos_view.take(i as int)),
            decreases n - i,
        {
            let info = &infos[i];
            if str_eq(info.namespace.as_str(), "Tempest") && str_eq(
                info.function_name.as_str(),
                "view",
            ) {
                match &info.alias {
                    Some(alias) => {
                        imports.insert(
                            alias.clone(),
                            ViewImportType::FunctionImportWithAlias(alias.clone()),
                        );
                    },
                    None => {
                        imports.insert(
                            info.function_name.clone(),
                            ViewImportType::FunctionImport,
                        );
                    },
                }
            }
            proof {
                assert(infos_view.take(i + 1).drop_last() =~= infos_view.take(i as int));
                assert(infos_view.take(i + 1).last() == infos_view[i as int]);
            }
            i = i + 1;
        }
        proof {
            assert(infos_view.take(n as int) =~= infos_view);
        }
        Ok(imports)
    }

    /// Interprets every import statement of the document, in tree order,
    /// skipping those of no recognized shape.
    fn extract_import_statements(tree: &SyntaxTree, text: &str) -> (r: Result<
        Vec<ImportInfo>,
        ViewAnalysisError,
    >)
        ensures
            r matches Ok(v) && v.deep_view() == import_infos(
                kind_preorder(tree.root, "namespace_use_declaration"@),
                text@,
            ),
    {
        let import_nodes = AstTraversal::find_nodes_by_kind(tree, "namespace_use_declaration");
        let ghost decls = kind_preorder(tree.root, "namespace_use_declaration"@);
        let mut infos: Vec<ImportInfo> = Vec::new();
        let n = import_nodes.len();
        let mut i: usize = 0;
        while i < n
            invariant
                i <= n,
                n == import_nodes.len(),
                decls == kind_preorder(tree.root, "namespace_use_declaration"@),
                crate::tree::derefs(import_nodes@) == decls,
                infos.deep_view() == import_infos(decls.take(i as int), text@),
            decreases n - i,
        {
            let node = import_nodes[i];
            proof {
                assert(crate::tree::derefs(import_nodes@)[i as int] == decls[i as int]);
            }
            match Self::parse_use_declaration_ast(node, text) {
                Ok(info) => {
                    infos.push(info);
                },
                Err(_) => {},
            }
            proof {
                assert(decls.take(i + 1).drop_last() =~= decls.take(i as int));
                assert(decls.take(i + 1).last() == decls[i as int]);
            }
            i = i + 1;
        }
        proof {
            assert(decls.take(n as int) =~= decls);
        }
        Ok(infos)
    }

    /// Interprets one import statement; statements that do not import
    /// functions, or whose shape is not recognized, are reported as invalid.
    fn parse_use_declaration_ast(node: &SyntaxNode, text: &str) -> (r: Result<
        ImportInfo,
        ViewAnalysisError,
    >)
        ensures
            match r {
                Ok(info) => use_decl_info(*node, text@) == Some(info@),
                Err(_) => use_decl_info(*node, text@) is None,
            },
    {
        let is_function_import = match Self::is_function_use_declaration(node, text) {
            Ok(b) => b,
            Err(e) => {
                return Err(e);
            },
        };
        if !is_function_import {
            return Err(
                ViewAnalysisError::InvalidImportFormat("Not a function import".to_owned()),
            );
        }
        Self::extract_use_clause_info(node, text)
    }

    /// Whether the statement imports functions: a direct `function` keyword
    /// child, or a single use clause whose text, left-trimmed, starts with
    /// the word `function`.
    fn is_function_use_declaration(node: &SyntaxNode, text: &str) -> (r: Result<
        bool,
        ViewAnalysisError,
    >)
        ensures
            r matches Ok(b) && b == is_function_use(*node, text@),
    {
        match AstTraversal::find_child_by_kind(node, "function") {
            Some(_) => {
                return Ok(true);
            },
            None => {},
        }
        match AstTraversal::find_child_by_kind(node, "namespace_use_clause") {
            Some(clause_node) => {
                match AstTraversal::extract_node_text(clause_node, text) {
                    Ok(clause_text) => {
                        return Ok(trimmed_starts_with(clause_text.as_str(), "function"));
                    },
                    Err(_) => {},
                }
            },
            None => {},
        }
        Ok(false)
    }

    /// Dispatches on the statement's clause shape: a single use clause, a
    /// grouped use clause, or neither (invalid).
    fn extract_use_clause_info(node: &SyntaxNode, text: &str) -> (r: Result<
        ImportInfo,
        ViewAnalysisError,
    >)
        ensures
            match r {
                Ok(info) => use_clause_info(*node, text@) == Some(info@),
                Err(_) => use_clause_info(*node, text@) is None,
            },
    {
        match AstTraversal::find_child_by_kind(node, "namespace_use_clause") {
            Some(clause_node) => {
                return Self::parse_single_use_clause(clause_node, text);
            },
            None => {},
        }
        match AstTraversal::find_child_by_kind(node, "namespace_use_group") {
            Some(group_node) => {
                return Self::parse_grouped_use_clauses(group_node, text);
            },
            None => {},
        }
        Err(ViewAnalysisError::InvalidImportFormat("No valid use clause found".to_owned()))
    }

    /// Reads a single use clause: its qualified name's segments and an
    /// optional trailing alias; fewer than two segments is invalid.
    fn parse_single_use_clause(node: &SyntaxNode, text: &str) -> (r: Result<
        ImportInfo,
        ViewAnalysisError,
    >)
        ensures
            match r {
                Ok(info) => single_clause_info(*node, text@) == Some(info@),
                Err(_) => single_clause_info(*node, text@) is None,
            },
    {
        let mut qualified_name_parts: Vec<String> = Vec::new();
        let mut alias: Option<String> = None;
        let children = AstTraversal::traverse_children(node);
        let n = children.len();
        let mut i: usize = 0;
        while i < n
            invariant
                i <= n,
                n == children.len(),
                children@ == node.children@,
                (
                    qualified_name_parts.deep_view(),
                    match alias {
                        Some(a) => Some(a@),
                        None => None::<Seq<char>>,
                    },
                ) == clause_scan(node.children@.take(i as int), text@),
            decreases n - i,
        {
            let child = &children[i];
            if str_eq(child.kind.as_str(), "qualified_name") {
                match Self::extract_qualified_name_parts(child, text) {
                    Ok(parts) => {
                        qualified_name_parts = parts;
                    },
                    Err(_) => {},
                }
            } else if str_eq(child.kind.as_str(), "name") {
                match AstTraversal::extract_node_text(child, text) {
                    Ok(name) => {
                        alias = Some(name);
                    },
                    Err(_) => {},
                }
            }
            proof {
                assert(node.children@.take(i + 1).drop_last() =~= node.children@.take(i as int));
                assert(node.children@.take(i + 1).last() == node.children@[i as int]);
            }
            i = i + 1;
        }
        proof {
            assert(node.children@.take(n as int) =~= node.children@);
        }
        if qualified_name_parts.len() < 2 {
            return Err(
                ViewAnalysisError::InvalidImportFormat("Invalid qualified name".to_owned()),
            );
        }
        let function_name = match qualified_name_parts.pop() {
            Some(f) => f,
            None => {
                return Err(
                    ViewAnalysisError::InvalidImportFormat(
                        "Failed to extract function name from qualified name".to_owned(),
                    ),
                );
            },
        };
        proof {
            let (parts_model, _) = clause_scan(node.children@, text@);
            assert(qualified_name_parts.deep_view() =~= parts_model.drop_last());
            assert(function_name@ == parts_model.last());
        }
        let namespace = join_with(&qualified_name_parts, "\\");
        Ok(ImportInfo { namespace, function_name, alias })
    }

    /// Reads a grouped use clause: the shared namespace prefix and whether
    /// any grouped sub-clause names the tracked function; a group without it
    /// is invalid and produces nothing.
    fn parse_grouped_use_clauses(node: &SyntaxNode, text: &str) -> (r: Result<
        ImportInfo,
        ViewAnalysisError,
    >)
        ensures
            match r {
                Ok(info) => grouped_clause_info(*node, text@) == Some(info@),
                Err(_) => grouped_clause_info(*node, text@) is None,
            },
    {
        let mut namespace = String::new();
        let mut found_view = false;
        let children = AstTraversal::traverse_children(node);
        let n = children.len();
        let mut i: usize = 0;
        while i < n
            invariant
                i <= n,
                n == children.len(),
                children@ == node.children@,
                (namespace@, found_view) == group_scan(node.children@.take(i as int), text@),
            decreases n - i,
        {
            let child = &children[i];
            if str_eq(child.kind.as_str(), "qualified_name") {
                match Self::extract_qualified_name_parts(child, text) {
                    Ok(parts) => {
                        if parts.len() > 0 {
                            let first_part = &parts[0];
                            namespace = first_part.clone();
                        }
                    },
                    Err(_) => {},
                }
            } else if str_eq(child.kind.as_str(), "namespace_use_clause") {
                let inner = AstTraversal::traverse_children(child);
                let ghost fv0 = found_view;
                let m = inner.len();
                let mut j: usize = 0;
                while j < m
                    invariant
                        j <= m,
                        m == inner.len(),
                        inner@ == child.children@,
                        found_view == (fv0 || clause_has_view(
                            child.children@.take(j as int),
                            text@,
                        )),
                    decreases m - j,
                {
                    let clause_child = &inner[j];
                    if str_eq(clause_child.kind.as_str(), "name") {
                        match AstTraversal::extract_node_text(clause_child, text) {
                            Ok(name) => {
                                if str_eq(name.as_str(), "view") {
                                    found_view = true;
                                }
                            },
                            Err(_) => {},
                        }
                    }
                    proof {
                        assert(child.children@.take(j + 1).drop_last() =~= child.children@.take(
                            j as int,
                        ));
                        assert(child.children@.take(j + 1).last() == child.children@[j as int]);
                    }
                    j = j + 1;
                }
                proof {
                    assert(child.children@.take(m as int) =~= child.children@);
                }
            }
            proof {
                assert(node.children@.take(i + 1).drop_last() =~= node.children@.take(i as int));
                assert(node.children@.take(i + 1).last() == node.children@[i as int]);
            }
            i = i + 1;
        }
        proof {
            assert(node.children@.take(n as int) =~= node.children@);
        }
        if !found_view {
            return Err(
                ViewAnalysisError::InvalidImportFormat(
                    "view function not found in grouped import".to_owned(),
                ),
            );
        }
        if namespace.as_str().is_empty() {
            namespace = "Tempest".to_owned();
        }
        Ok(ImportInfo { namespace, function_name: "view".to_owned(), alias: None })
    }

    /// The segments of a qualified name node, in order.
    fn extract_qualified_name_parts(node: &SyntaxNode, text: &str) -> (r: Result<
        Vec<String>,
        ViewAnalysisError,
    >)
        ensures
            r matches Ok(v) && v.deep_view() == qualified_name_parts(*node, text@),
    {
        let mut parts: Vec<String> = Vec::new();
        let children = AstTraversal::traverse_children(node);
        let n = children.len();
        let mut i: usize = 0;
        while i < n
            invariant
                i <= n,
                n == children.len(),
                children@ == node.children@,
                parts.deep_view() == qualified_name_parts_list(
                    node.children@.take(i as int),
                    text@,
                ),
            decreases n - i,
        {
            let child = &children[i];
            if str_eq(child.kind.as_str(), "namespace_name") {
                match Self::extract_namespace_parts(child, text) {
                    Ok(mut namespace_parts) => {
                        parts.append(&mut namespace_parts);
                    },
                    Err(_) => {},
                }
            } else if str_eq(child.kind.as_str(), "name") {
                match AstTraversal::extract_node_text(child, text) {
                    Ok(name) => {
                        parts.push(name);
                    },
                    Err(_) => {},
                }
            }
            proof {
                assert(node.children@.take(i + 1).drop_last() =~= node.children@.take(i as int));
                assert(node.children@.take(i + 1).last() == node.children@[i as int]);
            }
            i = i + 1;
        }
        proof {
            assert(node.children@.take(n as int) =~= node.children@);
        }
        Ok(parts)
    }

    /// The texts of the `name` children of a namespace name node, in order.
    fn extract_namespace_parts(node: &SyntaxNode, text: &str) -> (r: Result<
        Vec<String>,
        ViewAnalysisError,
    >)
        ensures
            r matches Ok(v) && v.deep_view() == namespace_name_parts(node.children@, text@),
    {
        let mut parts: Vec<String> = Vec::new();
        let children = AstTraversal::traverse_children(node);
        let n = children.len();
        let mut i: usize = 0;
        while i < n
            invariant
                i <= n,
                n == children.len(),
                children@ == node.children@,
                parts.deep_view() == namespace_name_parts(node.children@.take(i as int), text@),
            decreases n - i,
        {
            let child = &children[i];
            if str_eq(child.kind.as_str(), "name") {
                match AstTraversal::extract_node_text(child, text) {
                    Ok(name) => {
                        parts.push(name);
                    },
                    Err(_) => {},
                }
            }
            proof {
                assert(node.children@.take(i + 1).drop_last() =~= node.children@.take(i as int));
                assert(node.children@.take(i + 1).last() == node.children@[i as int]);
            }
            i = i + 1;
        }
        proof {
            assert(node.children@.take(n as int) =~= node.children@);
        }
        Ok(parts)
    }
}

} // verus!
