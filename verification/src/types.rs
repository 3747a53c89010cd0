use vstd::prelude::*;
use vstd::string::StringExecFns;

verus! {

/// Why an analysis of one document failed, or why one item inside it was
/// skipped.  Leaf-level occurrences are swallowed by the analyzers; only a
/// structural failure of a whole scan would surface to a caller.
#[derive(Debug)]
pub enum ViewAnalysisError {
    ParseError(String),
    TextExtractionError,
    InvalidImportFormat(String),
}

impl ViewAnalysisError {
    /// A human-readable rendering of the error.
    pub fn message(&self) -> (r: String)
        ensures
            r@ == self.message_spec(),
    {
        let mut s = String::new();
        match self {
            ViewAnalysisError::ParseError(msg) => {
                s.append("Parse error: ");
                s.append(msg.as_str());
            },
            ViewAnalysisError::TextExtractionError => {
                s.append("Failed to extract text from node");
            },
            ViewAnalysisError::InvalidImportFormat(fmt) => {
                s.append("Invalid import format: ");
                s.append(fmt.as_str());
            },
        }
        s
    }

    pub open spec fn message_spec(&self) -> Seq<char> {
        match self {
            ViewAnalysisError::ParseError(msg) => "Parse error: "@ + msg@,
            ViewAnalysisError::TextExtractionError => "Failed to extract text from node"@,
            ViewAnalysisError::InvalidImportFormat(fmt) => "Invalid import format: "@ + fmt@,
        }
    }
}

/// The semantic content of one parsed import statement: the namespace the
/// imported function lives in, the function's short name, and the local
/// alias, if the statement renames it.
#[derive(Debug, Clone)]
pub struct ImportInfo {
    pub namespace: String,
    pub function_name: String,
    pub alias: Option<String>,
}

/// The mathematical content of an `ImportInfo`, at the level of character
/// sequences.
pub struct ImportInfoModel {
    pub namespace: Seq<char>,
    pub function_name: Seq<char>,
    pub alias: Option<Seq<char>>,
}

impl View for ImportInfo {
    type V = ImportInfoModel;

    open spec fn view(&self) -> ImportInfoModel {
        ImportInfoModel {
            namespace: self.namespace@,
            function_name: self.function_name@,
            alias: match self.alias {
                Some(a) => Some(a@),
                None => None,
            },
        }
    }
}

impl DeepView for ImportInfo {
    type V = ImportInfoModel;

    open spec fn deep_view(&self) -> ImportInfoModel {
        self.view()
    }
}

/// How a locally visible spelling refers to the tracked function: by its
/// qualified name with no import, by a plain function import, or by a
/// function import under an alias.
#[derive(Debug, Clone, PartialEq)]
pub enum ViewImportType {
    DirectNamespace,
    FunctionImport,
    FunctionImportWithAlias(String),
}

/// The mathematical content of a `ViewImportType`.
pub enum ImportTypeModel {
    DirectNamespace,
    FunctionImport,
    FunctionImportWithAlias(Seq<char>),
}

impl View for ViewImportType {
    type V = ImportTypeModel;

    open spec fn view(&self) -> ImportTypeModel {
        match self {
            ViewImportType::DirectNamespace => ImportTypeModel::DirectNamespace,
            ViewImportType::FunctionImport => ImportTypeModel::FunctionImport,
            ViewImportType::FunctionImportWithAlias(a) => ImportTypeModel::FunctionImportWithAlias(
                a@,
            ),
        }
    }
}

impl ViewImportType {
    /// A short description of the classification.
    pub fn description(&self) -> (r: &'static str)
        ensures
            r@ == self.description_spec(),
    {
        match self {
            ViewImportType::DirectNamespace => "direct namespace",
            ViewImportType::FunctionImport => "function import",
            ViewImportType::FunctionImportWithAlias(_) => "function import with alias",
        }
    }

    pub open spec fn description_spec(&self) -> Seq<char> {
        match self {
            ViewImportType::DirectNamespace => "direct namespace"@,
            ViewImportType::FunctionImport => "function import"@,
            ViewImportType::FunctionImportWithAlias(_) => "function import with alias"@,
        }
    }
}

/// One argument of a call: its name for named-argument syntax, the extracted
/// expression text, and the verbatim source span of the whole argument.
#[derive(Debug, Clone)]
pub struct ViewParameter {
    pub name: Option<String>,
    pub value: String,
    pub raw_text: String,
}

/// The mathematical content of a `ViewParameter`.
pub struct ParamModel {
    pub name: Option<Seq<char>>,
    pub value: Seq<char>,
    pub raw_text: Seq<char>,
}

impl View for ViewParameter {
    type V = ParamModel;

    open spec fn view(&self) -> ParamModel {
        ParamModel {
            name: match self.name {
                Some(n) => Some(n@),
                None => None,
            },
            value: self.value@,
            raw_text: self.raw_text@,
        }
    }
}

impl DeepView for ViewParameter {
    type V = ParamModel;

    open spec fn deep_view(&self) -> ParamModel {
        self.view()
    }
}

/// One discovered call: the callee's verbatim spelling, the 1-based source
/// line it starts on, the verbatim text of the whole call expression, and
/// its arguments in source order.
#[derive(Debug, Clone)]
pub struct ViewCall {
    pub function_name: String,
    pub line: usize,
    pub text: String,
    pub parameters: Vec<ViewParameter>,
}

/// The mathematical content of a `ViewCall`.
pub struct CallModel {
    pub function_name: Seq<char>,
    pub line: nat,
    pub text: Seq<char>,
    pub parameters: Seq<ParamModel>,
}

impl View for ViewCall {
    type V = CallModel;

    open spec fn view(&self) -> CallModel {
        CallModel {
            function_name: self.function_name@,
            line: self.line as nat,
            text: self.text@,
            parameters: self.parameters.deep_view(),
        }
    }
}

impl DeepView for ViewCall {
    type V = CallModel;

    open spec fn deep_view(&self) -> CallModel {
        self.view()
    }
}

impl ViewCall {
    pub fn with_parameters(
        function_name: String,
        line: usize,
        text: String,
        parameters: Vec<ViewParameter>,
    ) -> (r: Self)
        ensures
            r.function_name == function_name,
            r.line == line,
            r.text == text,
            r.parameters == parameters,
    {
        Self { function_name, line, text, parameters }
    }
}

/// The outcome of one analysis run: every resolved local spelling of the
/// tracked function, and every call whose callee spelling matches one of
/// them, in tree order.
#[derive(Debug)]
pub struct ViewAnalysisResult {
    pub imports: crate::import_map::ImportMap,
    pub calls: Vec<ViewCall>,
}

/// The mathematical content of a `ViewAnalysisResult`.
pub struct ResultModel {
    pub imports: Seq<(Seq<char>, ImportTypeModel)>,
    pub calls: Seq<CallModel>,
}

impl View for ViewAnalysisResult {
    type V = ResultModel;

    open spec fn view(&self) -> ResultModel {
        ResultModel { imports: self.imports@, calls: self.calls.deep_view() }
    }
}

impl ViewAnalysisResult {
    /// An empty result: no spellings resolved, no calls found.
    pub fn new() -> (r: Self)
        ensures
            r@.imports == Seq::<(Seq<char>, ImportTypeModel)>::empty(),
            r@.calls == Seq::<CallModel>::empty(),
    {
        let r = Self { imports: crate::import_map::ImportMap::new(), calls: Vec::new() };
        proof {
            assert(r@.calls =~= Seq::<CallModel>::empty());
        }
        r
    }

    /// How many correlated calls the analysis found.
    pub fn call_count(&self) -> (r: usize)
        ensures
            r == self@.calls.len(),
    {
        self.calls.len()
    }

    /// Whether the document shows any sign of the tracked function: a
    /// resolved spelling or a correlated call.
    pub fn has_view_usage(&self) -> (r: bool)
        ensures
            r == (self@.imports.len() != 0 || self@.calls.len() != 0),
    {
        !self.imports.is_empty() || !self.calls.is_empty()
    }
}

impl Default for ViewAnalysisResult {
    fn default() -> (r: Self)
        ensures
            r@.imports == Seq::<(Seq<char>, ImportTypeModel)>::empty(),
            r@.calls == Seq::<CallModel>::empty(),
    {
        Self::new()
    }
}

} // verus!
