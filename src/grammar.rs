//! The tree-sitter items that the language registry builds on: the grammar
//! handles, parsers, highlight configurations and their errors.
use vstd::prelude::*;

verus! {

/// A tree-sitter grammar handle.
#[verifier::external_type_specification]
#[verifier::external_body]
pub struct ExLanguage(tree_sitter::Language);

/// A tree-sitter parser.
#[verifier::external_type_specification]
#[verifier::external_body]
pub struct ExParser(tree_sitter::Parser);

/// The error of binding a parser to a grammar of another ABI version.
#[verifier::external_type_specification]
#[verifier::external_body]
pub struct ExLanguageError(tree_sitter::LanguageError);

/// The error of compiling a query.
#[verifier::external_type_specification]
#[verifier::external_body]
pub struct ExQueryError(tree_sitter::QueryError);

/// The data that the syntax highlighter runs on.
#[verifier::external_type_specification]
#[verifier::external_body]
pub struct ExHighlightConfiguration(tree_sitter_highlight::HighlightConfiguration);

/// The grammar packages that the registry draws on.
#[derive(PartialEq, Eq, Structural, Clone, Copy, Debug)]
pub enum Grammar {
    Rust,
    Go,
    Javascript,
    Typescript,
    Tsx,
    Python,
}

/// The highlight queries that the grammar packages ship.
#[derive(PartialEq, Eq, Structural, Clone, Copy, Debug)]
pub enum HighlightQuery {
    Rust,
    Go,
    Javascript,
    Jsx,
    Typescript,
    Python,
}

/// The ABI version that a grammar handle was generated for
/// (`Language::version`).
pub uninterp spec fn abi_version(language: tree_sitter::Language) -> nat;

/// The grammar package that a grammar handle comes from.
pub uninterp spec fn grammar_of_handle(language: tree_sitter::Language) -> Grammar;

/// The grammar that a parser is bound to (what `Parser::language` reports),
/// if any.
pub uninterp spec fn bound_grammar(parser: tree_sitter::Parser) -> Option<Grammar>;

/// The text of a shipped highlight query.
pub uninterp spec fn shipped_query(query: HighlightQuery) -> Seq<char>;

/// Whether the highlights, injection and locals queries all compile
/// against the grammar.
pub uninterp spec fn config_builds(
    grammar: Grammar,
    highlights: Seq<char>,
    injections: Seq<char>,
    locals: Seq<char>,
) -> bool;

/// The grammar that a highlight configuration was built for (its public
/// `language` field).
pub uninterp spec fn config_grammar(config: tree_sitter_highlight::HighlightConfiguration) -> Grammar;

/// Relies on `tree_sitter::Parser::new`: a parser with no grammar bound yet.
pub assume_specification[ tree_sitter::Parser::new ]() -> (r: tree_sitter::Parser)
    ensures
        bound_grammar(r) is None,
;

/// Relies on `tree_sitter::Parser::set_language`: binds the grammar exactly
/// when its ABI version lies between `MIN_COMPATIBLE_LANGUAGE_VERSION` (13)
/// and `LANGUAGE_VERSION` (14), and leaves the parser as it was otherwise.
pub assume_specification[ tree_sitter::Parser::set_language ](
    parser: &mut tree_sitter::Parser,
    language: tree_sitter::Language,
) -> (r: Result<(), tree_sitter::LanguageError>)
    ensures
        r is Ok <==> 13 <= abi_version(language) <= 14,
        r is Ok ==> bound_grammar(*final(parser)) == Some(grammar_of_handle(language)),
        r is Err ==> *final(parser) == *old(parser),
;

/// Relies on `tree_sitter_highlight::HighlightConfiguration::new`: compiles
/// the three queries against the grammar, and keeps the grammar in the
/// configuration's `language` field.
pub assume_specification[ tree_sitter_highlight::HighlightConfiguration::new ](
    language: tree_sitter::Language,
    highlights_query: &str,
    injection_query: &str,
    locals_query: &str,
) -> (r: Result<tree_sitter_highlight::HighlightConfiguration, tree_sitter::QueryError>)
    ensures
        r is Ok <==> config_builds(
            grammar_of_handle(language),
            highlights_query@,
            injection_query@,
            locals_query@,
        ),
        r matches Ok(c) ==> config_grammar(c) == grammar_of_handle(language),
;

/// Relies on `tree_sitter_rust::language`: the Rust grammar, generated for
/// ABI version 14.
pub assume_specification[ tree_sitter_rust::language ]() -> (r: tree_sitter::Language)
    ensures
        grammar_of_handle(r) == Grammar::Rust,
        abi_version(r) == 14,
;

/// Relies on `tree_sitter_go::language`: the Go grammar, generated for ABI
/// version 14.
pub assume_specification[ tree_sitter_go::language ]() -> (r: tree_sitter::Language)
    ensures
        grammar_of_handle(r) == Grammar::Go,
        abi_version(r) == 14,
;

/// Relies on `tree_sitter_javascript::language`: the JavaScript grammar, JSX
/// included, generated for ABI version 14.
pub assume_specification[ tree_sitter_javascript::language ]() -> (r: tree_sitter::Language)
    ensures
        grammar_of_handle(r) == Grammar::Javascript,
        abi_version(r) == 14,
;

/// Relies on `tree_sitter_typescript::language_typescript`: the TypeScript
/// grammar, generated for ABI version 14.
pub assume_specification[ tree_sitter_typescript::language_typescript ]() -> (r: tree_sitter::Language)
    ensures
        grammar_of_handle(r) == Grammar::Typescript,
        abi_version(r) == 14,
;

/// Relies on `tree_sitter_typescript::language_tsx`: the TSX grammar,
/// generated for ABI version 14.
pub assume_specification[ tree_sitter_typescript::language_tsx ]() -> (r: tree_sitter::Language)
    ensures
        grammar_of_handle(r) == Grammar::Tsx,
        abi_version(r) == 14,
;

/// Relies on `tree_sitter_python::language`: the Python grammar, generated
/// for ABI version 14.
pub assume_specification[ tree_sitter_python::language ]() -> (r: tree_sitter::Language)
    ensures
        grammar_of_handle(r) == Grammar::Python,
        abi_version(r) == 14,
;
/// Relies on `tree_sitter_rust::HIGHLIGHT_QUERY`: the Rust highlight query.
#[verifier::external_body]
pub(crate) fn rust_highlight_query() -> (r: &'static str)
    ensures
        r@ == shipped_query(HighlightQuery::Rust),
{
    tree_sitter_rust::HIGHLIGHT_QUERY
}

/// Relies on `tree_sitter_go::HIGHLIGHT_QUERY`: the Go highlight query.
#[verifier::external_body]
pub(crate) fn go_highlight_query() -> (r: &'static str)
    ensures
        r@ == shipped_query(HighlightQuery::Go),
{
    tree_sitter_go::HIGHLIGHT_QUERY
}

/// Relies on `tree_sitter_javascript::HIGHLIGHT_QUERY`: the JavaScript
/// highlight query.
#[verifier::external_body]
pub(crate) fn javascript_highlight_query() -> (r: &'static str)
    ensures
        r@ == shipped_query(HighlightQuery::Javascript),
{
    tree_sitter_javascript::HIGHLIGHT_QUERY
}

/// Relies on `tree_sitter_javascript::JSX_HIGHLIGHT_QUERY`: the JSX highlight
/// query.
#[verifier::external_body]
pub(crate) fn jsx_highlight_query() -> (r: &'static str)
    ensures
        r@ == shipped_query(HighlightQuery::Jsx),
{
    tree_sitter_javascript::JSX_HIGHLIGHT_QUERY
}

/// Relies on `tree_sitter_typescript::HIGHLIGHT_QUERY`: the TypeScript
/// highlight query, shared by TSX.
#[verifier::external_body]
pub(crate) fn typescript_highlight_query() -> (r: &'static str)
    ensures
        r@ == shipped_query(HighlightQuery::Typescript),
{
    tree_sitter_typescript::HIGHLIGHT_QUERY
}

/// Relies on `tree_sitter_python::HIGHLIGHT_QUERY`: the Python highlight query.
#[verifier::external_body]
pub(crate) fn python_highlight_query() -> (r: &'static str)
    ensures
        r@ == shipped_query(HighlightQuery::Python),
{
    tree_sitter_python::HIGHLIGHT_QUERY
}

} // verus!
