//! The closed set of supported languages and what each one selects: its
//! grammar, its highlight query and its code-lens node-kind lists.
use std::collections::HashSet;
use vstd::prelude::*;
use crate::code_lens::{contains_kind, expands, ignored_leaf_has_no_lines, labels, tree_lines, SyntaxNode};
use crate::grammar::{
    bound_grammar, config_builds, config_grammar, grammar_of_handle, shipped_query, Grammar,
    HighlightQuery,
    go_highlight_query, javascript_highlight_query, jsx_highlight_query, python_highlight_query,
    rust_highlight_query, typescript_highlight_query,
};
use crate::text::{extension_of, path_extension, same_text, trim_end, trim_start, trim_text, trimmed};

verus! {

broadcast use vstd::std_specs::hash::group_hash_axioms;

/// A language that the editor knows how to parse.
#[derive(Eq, PartialEq, Hash, Copy, Clone, Debug, Structural)]
pub enum LapceLanguage {
    Rust,
    Go,
    Javascript,
    Jsx,
    Typescript,
    Tsx,
    Python,
}

/// Why a highlight configuration could not be built for a language.
#[derive(Eq, PartialEq, Copy, Clone, Debug, Structural)]
pub enum SetupError {
    /// The highlight query does not compile against the grammar.
    InvalidHighlightQuery(LapceLanguage),
}

/// The language that a file extension names, if any.
pub open spec fn language_of_extension(ext: Seq<char>) -> Option<LapceLanguage> {
    if ext == "rs"@ {
        Some(LapceLanguage::Rust)
    } else if ext == "js"@ {
        Some(LapceLanguage::Javascript)
    } else if ext == "jsx"@ {
        Some(LapceLanguage::Jsx)
    } else if ext == "ts"@ {
        Some(LapceLanguage::Typescript)
    } else if ext == "tsx"@ {
        Some(LapceLanguage::Tsx)
    } else if ext == "go"@ {
        Some(LapceLanguage::Go)
    } else if ext == "py"@ {
        Some(LapceLanguage::Python)
    } else {
        None
    }
}

/// The language of the file at `path`: the one that its extension names.
pub open spec fn language_of_path(path: Seq<char>) -> Option<LapceLanguage> {
    match extension_of(path) {
        Some(ext) => language_of_extension(ext),
        None => None,
    }
}

/// The grammar package that parses a language: JSX shares the JavaScript
/// grammar, TSX has a grammar of its own.
pub open spec fn grammar_of(lang: LapceLanguage) -> Grammar {
    match lang {
        LapceLanguage::Rust => Grammar::Rust,
        LapceLanguage::Go => Grammar::Go,
        LapceLanguage::Javascript => Grammar::Javascript,
        LapceLanguage::Jsx => Grammar::Javascript,
        LapceLanguage::Typescript => Grammar::Typescript,
        LapceLanguage::Tsx => Grammar::Tsx,
        LapceLanguage::Python => Grammar::Python,
    }
}

/// The shipped highlight query of a language: JSX has its own, TSX shares
/// the TypeScript one.
pub open spec fn query_of(lang: LapceLanguage) -> HighlightQuery {
    match lang {
        LapceLanguage::Rust => HighlightQuery::Rust,
        LapceLanguage::Go => HighlightQuery::Go,
        LapceLanguage::Javascript => HighlightQuery::Javascript,
        LapceLanguage::Jsx => HighlightQuery::Jsx,
        LapceLanguage::Typescript => HighlightQuery::Typescript,
        LapceLanguage::Tsx => HighlightQuery::Typescript,
        LapceLanguage::Python => HighlightQuery::Python,
    }
}

/// The node kinds whose children the code-lens walk visits.
pub open spec fn expand_kinds(lang: LapceLanguage) -> Seq<Seq<char>> {
    match lang {
        LapceLanguage::Rust => seq![
            "source_file"@,
            "impl_item"@,
            "trait_item"@,
            "declaration_list"@,
        ],
        LapceLanguage::Go => seq![
            "source_file"@,
            "type_declaration"@,
            "type_spec"@,
            "interface_type"@,
            "method_spec_list"@,
        ],
        _ => seq!["source_file"@],
    }
}

/// The node kinds whose boundary lines the code-lens walk leaves out.
pub open spec fn ignore_kinds(lang: LapceLanguage) -> Seq<Seq<char>> {
    match lang {
        LapceLanguage::Rust => seq!["source_file"@, "use_declaration"@, "line_comment"@],
        LapceLanguage::Go => seq!["source_file"@, "comment"@, "line_comment"@],
        _ => seq!["source_file"@],
    }
}

/// The significant lines of a tree parsed in `lang`.
pub open spec fn code_lens_lines(lang: LapceLanguage, root: SyntaxNode) -> Set<usize> {
    tree_lines(root, expand_kinds(lang), ignore_kinds(lang))
}

/// Each supported extension names exactly one language, and no two
/// extensions name the same one.
pub proof fn extension_names_one_language(a: Seq<char>, b: Seq<char>)
    ensures
        language_of_extension(a) is Some && language_of_extension(a) == language_of_extension(b)
            ==> a == b,
{
    reveal_strlit("rs");
    reveal_strlit("js");
    reveal_strlit("jsx");
    reveal_strlit("ts");
    reveal_strlit("tsx");
    reveal_strlit("go");
    reveal_strlit("py");
}

/// Only Rust and Go have lists of their own; every other language expands
/// and ignores the root node kind alone.
pub proof fn default_lists_hold_the_root_alone(lang: LapceLanguage)
    requires
        lang != LapceLanguage::Rust,
        lang != LapceLanguage::Go,
    ensures
        expand_kinds(lang) == seq!["source_file"@],
        ignore_kinds(lang) == seq!["source_file"@],
{
}

/// Walking a tree a second time with the same language adds nothing to what
/// the first walk collected: the walk carries no state from one call to the
/// next.
pub proof fn second_walk_adds_nothing(lang: LapceLanguage, root: SyntaxNode, lines: Set<usize>)
    ensures
        lines.union(code_lens_lines(lang, root)).union(code_lens_lines(lang, root)) == lines.union(
            code_lens_lines(lang, root),
        ),
{
    assert(lines.union(code_lens_lines(lang, root)).union(code_lens_lines(lang, root)) =~= lines.union(
        code_lens_lines(lang, root),
    ));
}

/// A lone file node (`source_file`) yields no line in any language, since
/// every language ignores that kind.
pub proof fn lone_source_file_has_no_lines(lang: LapceLanguage, root: SyntaxNode)
    requires
        root.kind@ == "source_file"@,
        root.children@.len() == 0,
    ensures
        code_lens_lines(lang, root) == Set::<usize>::empty(),
{
    reveal_strlit("source_file");
    let k = root.kind@;
    assert(trim_start(k) == k);
    assert(trim_end(k) == k);
    assert(trimmed(k) == k);
    assert(ignore_kinds(lang)[0] == k);
    ignored_leaf_has_no_lines(root, expand_kinds(lang), ignore_kinds(lang));
}

impl LapceLanguage {
    /// The language that the file extension `ext` (without its dot) names.
    pub fn from_extension(ext: &str) -> (r: Option<LapceLanguage>)
        ensures
            r == language_of_extension(ext@),
    {
        if same_text(ext, "rs") {
            Some(LapceLanguage::Rust)
        } else if same_text(ext, "js") {
            Some(LapceLanguage::Javascript)
        } else if same_text(ext, "jsx") {
            Some(LapceLanguage::Jsx)
        } else if same_text(ext, "ts") {
            Some(LapceLanguage::Typescript)
        } else if same_text(ext, "tsx") {
            Some(LapceLanguage::Tsx)
        } else if same_text(ext, "go") {
            Some(LapceLanguage::Go)
        } else if same_text(ext, "py") {
            Some(LapceLanguage::Python)
        } else {
            None
        }
    }

    /// The language of the file at `path`, from its extension alone; none
    /// where the extension is missing or unknown.
    pub fn from_path(path: &str) -> (r: Option<LapceLanguage>)
        ensures
            r == language_of_path(path@),
            !path@.contains('.') ==> r is None,
    {
        match path_extension(path) {
            Some(ext) => LapceLanguage::from_extension(ext),
            None => None,
        }
    }

    /// The lists that drive the code-lens walk for this language: the node
    /// kinds to expand and the node kinds to ignore.
    pub fn code_lens_lists(&self) -> (r: (Vec<&'static str>, Vec<&'static str>))
        ensures
            labels(r.0@) == expand_kinds(*self),
            labels(r.1@) == ignore_kinds(*self),
            r.0@.len() > 0,
            r.1@.len() > 0,
    {
        let r = match self {
            LapceLanguage::Rust => (
                vec!["source_file", "impl_item", "trait_item", "declaration_list"],
                vec!["source_file", "use_declaration", "line_comment"],
            ),
            LapceLanguage::Go => (
                vec!["source_file", "type_declaration", "type_spec", "interface_type", "method_spec_list"],
                vec!["source_file", "comment", "line_comment"],
            ),
            _ => (vec!["source_file"], vec!["source_file"]),
        };
        proof {
            assert(labels(r.0@) =~= expand_kinds(*self));
            assert(labels(r.1@) =~= ignore_kinds(*self));
        }
        r
    }

    /// The tree-sitter grammar of this language.
    pub fn tree_sitter_language(&self) -> (r: tree_sitter::Language)
        ensures
            grammar_of_handle(r) == grammar_of(*self),
            crate::grammar::abi_version(r) == 14,
    {
        match self {
            LapceLanguage::Rust => tree_sitter_rust::language(),
            LapceLanguage::Go => tree_sitter_go::language(),
            LapceLanguage::Javascript => tree_sitter_javascript::language(),
            LapceLanguage::Jsx => tree_sitter_javascript::language(),
            LapceLanguage::Typescript => tree_sitter_typescript::language_typescript(),
            LapceLanguage::Tsx => tree_sitter_typescript::language_tsx(),
            LapceLanguage::Python => tree_sitter_python::language(),
        }
    }

    /// The highlight query that the grammar package ships for this language.
    pub fn highlight_query(&self) -> (r: &'static str)
        ensures
            r@ == shipped_query(query_of(*self)),
    {
        match self {
            LapceLanguage::Rust => rust_highlight_query(),
            LapceLanguage::Go => go_highlight_query(),
            LapceLanguage::Javascript => javascript_highlight_query(),
            LapceLanguage::Jsx => jsx_highlight_query(),
            LapceLanguage::Typescript => typescript_highlight_query(),
            LapceLanguage::Tsx => typescript_highlight_query(),
            LapceLanguage::Python => python_highlight_query(),
        }
    }

    /// A fresh parser bound to this language's grammar. Every bundled
    /// grammar has an ABI version that the tree-sitter runtime accepts, so
    /// the binding cannot fail.
    pub fn new_parser(&self) -> (r: tree_sitter::Parser)
        ensures
            bound_grammar(r) == Some(grammar_of(*self)),
    {
        let language = self.tree_sitter_language();
        let mut parser = tree_sitter::Parser::new();
        let bound = parser.set_language(language);
        proof {
            assert(bound is Ok);
        }
        parser
    }

    /// The highlight configuration built from this language's grammar and
    /// shipped highlight query, with empty injection and locals queries. It
    /// is built exactly when those queries compile against the grammar; a
    /// query that does not compile is reported, naming this language.
    pub fn new_highlight_config(&self) -> (r: Result<tree_sitter_highlight::HighlightConfiguration, SetupError>)
        ensures
            r is Ok <==> config_builds(
                grammar_of(*self),
                shipped_query(query_of(*self)),
                Seq::empty(),
                Seq::empty(),
            ),
            r matches Ok(c) ==> config_grammar(c) == grammar_of(*self),
            r matches Err(e) ==> e == SetupError::InvalidHighlightQuery(*self),
    {
        let language = self.tree_sitter_language();
        let query = self.highlight_query();
        proof {
            reveal_strlit("");
            assert(""@ =~= Seq::<char>::empty());
        }
        match tree_sitter_highlight::HighlightConfiguration::new(language, query, "", "") {
            Ok(config) => Ok(config),
            Err(_) => Err(SetupError::InvalidHighlightQuery(*self)),
        }
    }

    /// Whether the code-lens walk visits the children of a node of kind
    /// `kind` in this language: its trimmed label is on the expand list.
    pub fn expands_kind(&self, kind: &str) -> (r: bool)
        ensures
            r == expands(kind@, expand_kinds(*self)),
    {
        let (list, _) = self.code_lens_lists();
        contains_kind(list.as_slice(), trim_text(kind))
    }

    /// Adds to `normal_lines` the significant lines of the tree rooted at
    /// `root`, read with this language's code-lens lists.
    pub fn walk_tree(&self, root: &SyntaxNode, normal_lines: &mut HashSet<usize>)
        ensures
            final(normal_lines)@ == old(normal_lines)@.union(code_lens_lines(*self, *root)),
    {
        let (list, ignore_list) = self.code_lens_lists();
        crate::code_lens::walk_tree(root, normal_lines, list.as_slice(), ignore_list.as_slice());
    }

    /// The significant lines of the tree rooted at `root`.
    pub fn classify(&self, root: &SyntaxNode) -> (r: HashSet<usize>)
        ensures
            r@ == code_lens_lines(*self, *root),
    {
        let mut normal_lines: HashSet<usize> = HashSet::new();
        self.walk_tree(root, &mut normal_lines);
        proof {
            assert(normal_lines@ =~= code_lens_lines(*self, *root));
        }
        normal_lines
    }
}

} // verus!
