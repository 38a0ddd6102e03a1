use std::collections::HashSet;

use lapce_language::code_lens::{walk_tree, SyntaxNode};
use lapce_language::language::{LapceLanguage, SetupError};

const ALL: [LapceLanguage; 7] = [
    LapceLanguage::Rust,
    LapceLanguage::Go,
    LapceLanguage::Javascript,
    LapceLanguage::Jsx,
    LapceLanguage::Typescript,
    LapceLanguage::Tsx,
    LapceLanguage::Python,
];

fn leaf(kind: &str, start: usize, end: usize) -> SyntaxNode {
    SyntaxNode::leaf(kind.to_string(), start, end)
}

fn branch(kind: &str, start: usize, end: usize, children: Vec<SyntaxNode>) -> SyntaxNode {
    SyntaxNode::branch(kind.to_string(), start, end, children)
}

fn set_of(lines: &[usize]) -> HashSet<usize> {
    lines.iter().copied().collect()
}

#[test]
fn from_path_maps_each_supported_extension() {
    assert_eq!(LapceLanguage::from_path("src/main.rs"), Some(LapceLanguage::Rust));
    assert_eq!(LapceLanguage::from_path("web/app.js"), Some(LapceLanguage::Javascript));
    assert_eq!(LapceLanguage::from_path("web/App.jsx"), Some(LapceLanguage::Jsx));
    assert_eq!(LapceLanguage::from_path("lib/index.ts"), Some(LapceLanguage::Typescript));
    assert_eq!(LapceLanguage::from_path("lib/View.tsx"), Some(LapceLanguage::Tsx));
    assert_eq!(LapceLanguage::from_path("cmd/main.go"), Some(LapceLanguage::Go));
    assert_eq!(LapceLanguage::from_path("tools/build.py"), Some(LapceLanguage::Python));
}

#[test]
fn from_path_rejects_unknown_and_missing_extensions() {
    assert_eq!(LapceLanguage::from_path("notes.txt"), None);
    assert_eq!(LapceLanguage::from_path("lib.RS"), None);
    assert_eq!(LapceLanguage::from_path("Makefile"), None);
    assert_eq!(LapceLanguage::from_path("src/main"), None);
    assert_eq!(LapceLanguage::from_path(".rs"), None);
    assert_eq!(LapceLanguage::from_path(""), None);
}

#[test]
fn from_path_uses_the_last_extension() {
    assert_eq!(LapceLanguage::from_path("archive.rs.go"), Some(LapceLanguage::Go));
    assert_eq!(LapceLanguage::from_path("component.test.tsx"), Some(LapceLanguage::Tsx));
    assert_eq!(LapceLanguage::from_path("dir.rs/readme"), None);
}

#[test]
fn from_extension_is_exact() {
    assert_eq!(LapceLanguage::from_extension("rs"), Some(LapceLanguage::Rust));
    assert_eq!(LapceLanguage::from_extension("py"), Some(LapceLanguage::Python));
    assert_eq!(LapceLanguage::from_extension("r"), None);
    assert_eq!(LapceLanguage::from_extension("rs "), None);
    assert_eq!(LapceLanguage::from_extension(""), None);
}

#[test]
fn each_extension_names_a_distinct_language() {
    let exts = ["rs", "js", "jsx", "ts", "tsx", "go", "py"];
    let langs: Vec<LapceLanguage> =
        exts.iter().map(|e| LapceLanguage::from_extension(e).unwrap()).collect();
    for (i, a) in langs.iter().enumerate() {
        for (j, b) in langs.iter().enumerate() {
            assert_eq!(i == j, a == b);
        }
    }
    assert_eq!(langs.len(), ALL.len());
}

#[test]
fn code_lens_lists_rust_and_go() {
    let (list, ignore) = LapceLanguage::Rust.code_lens_lists();
    assert_eq!(list, vec!["source_file", "impl_item", "trait_item", "declaration_list"]);
    assert_eq!(ignore, vec!["source_file", "use_declaration", "line_comment"]);
    let (list, ignore) = LapceLanguage::Go.code_lens_lists();
    assert_eq!(
        list,
        vec!["source_file", "type_declaration", "type_spec", "interface_type", "method_spec_list"]
    );
    assert_eq!(ignore, vec!["source_file", "comment", "line_comment"]);
}

#[test]
fn code_lens_lists_default_pair() {
    for lang in ALL {
        let (list, ignore) = lang.code_lens_lists();
        assert!(!list.is_empty());
        assert!(!ignore.is_empty());
        if lang != LapceLanguage::Rust && lang != LapceLanguage::Go {
            assert_eq!(list, vec!["source_file"]);
            assert_eq!(ignore, vec!["source_file"]);
        }
    }
}

fn rust_scenario() -> SyntaxNode {
    branch(
        "source_file",
        0,
        5,
        vec![
            leaf("use_declaration", 0, 0),
            branch("impl_item", 2, 5, vec![leaf("function_item", 3, 3)]),
        ],
    )
}

#[test]
fn rust_impl_scenario() {
    let lines = LapceLanguage::Rust.classify(&rust_scenario());
    assert_eq!(lines, set_of(&[2, 3, 5]));
}

#[test]
fn go_comment_only_scenario() {
    let root = branch("source_file", 0, 1, vec![leaf("comment", 1, 1)]);
    assert!(LapceLanguage::Go.classify(&root).is_empty());
}

#[test]
fn classify_twice_gives_the_same_lines() {
    let root = rust_scenario();
    let first = LapceLanguage::Rust.classify(&root);
    let second = LapceLanguage::Rust.classify(&root);
    assert_eq!(first, second);
    let mut acc = HashSet::new();
    LapceLanguage::Rust.walk_tree(&root, &mut acc);
    LapceLanguage::Rust.walk_tree(&root, &mut acc);
    assert_eq!(acc, first);
}

#[test]
fn lone_ignored_root_has_no_lines() {
    for lang in ALL {
        assert!(lang.classify(&leaf("source_file", 0, 9)).is_empty());
    }
}

#[test]
fn default_languages_expand_only_the_root_kind() {
    let root = branch("program", 0, 7, vec![leaf("function_declaration", 2, 4)]);
    assert_eq!(LapceLanguage::Python.classify(&root), set_of(&[0, 7]));
    let file = branch("source_file", 0, 7, vec![leaf("function_declaration", 2, 4)]);
    assert_eq!(LapceLanguage::Javascript.classify(&file), set_of(&[2, 4]));
}

#[test]
fn unexpanded_child_hides_its_descendants() {
    let root = branch(
        "module",
        0,
        9,
        vec![branch("class", 1, 8, vec![leaf("method", 3, 5), leaf("method", 6, 7)])],
    );
    let mut lines = HashSet::new();
    walk_tree(&root, &mut lines, &["module"], &[]);
    assert_eq!(lines, set_of(&[0, 9, 1, 8]));
}

#[test]
fn walk_tree_adds_to_existing_lines() {
    let root = branch("module", 2, 4, vec![leaf("item", 3, 3)]);
    let mut lines = set_of(&[10]);
    walk_tree(&root, &mut lines, &["module"], &["item"]);
    assert_eq!(lines, set_of(&[2, 4, 10]));
}

#[test]
fn kinds_are_trimmed_before_matching() {
    let root = branch(
        "source_file",
        0,
        6,
        vec![
            branch("  impl_item\n", 1, 6, vec![leaf("\tfunction_item ", 2, 4)]),
            leaf(" use_declaration ", 0, 0),
        ],
    );
    assert_eq!(LapceLanguage::Rust.classify(&root), set_of(&[1, 2, 4, 6]));
}

#[test]
fn blank_kinds_mark_nothing() {
    let root = branch("source_file", 0, 3, vec![leaf("", 1, 1), leaf(" \t ", 2, 2), leaf("{", 3, 3)]);
    assert_eq!(LapceLanguage::Rust.classify(&root), set_of(&[3]));
}

#[test]
fn nested_expansion_in_go() {
    let root = branch(
        "source_file",
        0,
        10,
        vec![
            leaf("package_clause", 0, 0),
            branch(
                "type_declaration",
                2,
                6,
                vec![branch(
                    "type_spec",
                    2,
                    6,
                    vec![branch(
                        "interface_type",
                        2,
                        6,
                        vec![branch("method_spec_list", 2, 6, vec![leaf("method_spec", 4, 4)])],
                    )],
                )],
            ),
            branch("function_declaration", 8, 10, vec![leaf("block", 9, 9)]),
        ],
    );
    assert_eq!(LapceLanguage::Go.classify(&root), set_of(&[0, 2, 4, 6, 8, 10]));
}

#[test]
fn expands_kind_follows_the_expand_list() {
    assert!(LapceLanguage::Rust.expands_kind("impl_item"));
    assert!(LapceLanguage::Rust.expands_kind(" declaration_list\n"));
    assert!(!LapceLanguage::Rust.expands_kind("function_item"));
    assert!(LapceLanguage::Go.expands_kind("interface_type"));
    assert!(!LapceLanguage::Go.expands_kind("impl_item"));
    assert!(LapceLanguage::Python.expands_kind("source_file"));
    assert!(!LapceLanguage::Python.expands_kind("module"));
}

#[test]
fn tree_sitter_languages_follow_the_grammar_packages() {
    assert_eq!(LapceLanguage::Jsx.tree_sitter_language(), tree_sitter_javascript::language());
    assert_eq!(LapceLanguage::Javascript.tree_sitter_language(), tree_sitter_javascript::language());
    assert_eq!(LapceLanguage::Tsx.tree_sitter_language(), tree_sitter_typescript::language_tsx());
    assert_ne!(
        LapceLanguage::Tsx.tree_sitter_language(),
        LapceLanguage::Typescript.tree_sitter_language()
    );
    assert_eq!(LapceLanguage::Rust.tree_sitter_language().version(), 14);
}

#[test]
fn parsers_bind_for_every_language() {
    for lang in ALL {
        let mut parser = lang.new_parser();
        assert!(parser.language().is_some());
        assert!(parser.parse("x", None).is_some());
    }
}

#[test]
fn highlight_configs_build_for_every_language() {
    for lang in ALL {
        let r = lang.new_highlight_config();
        assert!(r.is_ok(), "{:?}", lang);
        assert_ne!(r.err(), Some(SetupError::InvalidHighlightQuery(lang)));
    }
}

#[test]
fn highlight_queries_are_the_grammar_packages_own() {
    assert_eq!(LapceLanguage::Rust.highlight_query(), tree_sitter_rust::HIGHLIGHT_QUERY);
    assert_eq!(LapceLanguage::Go.highlight_query(), tree_sitter_go::HIGHLIGHT_QUERY);
    assert_eq!(LapceLanguage::Javascript.highlight_query(), tree_sitter_javascript::HIGHLIGHT_QUERY);
    assert_eq!(LapceLanguage::Jsx.highlight_query(), tree_sitter_javascript::JSX_HIGHLIGHT_QUERY);
    assert_eq!(LapceLanguage::Typescript.highlight_query(), tree_sitter_typescript::HIGHLIGHT_QUERY);
    assert_eq!(LapceLanguage::Tsx.highlight_query(), tree_sitter_typescript::HIGHLIGHT_QUERY);
    assert_eq!(LapceLanguage::Python.highlight_query(), tree_sitter_python::HIGHLIGHT_QUERY);
}

fn to_syntax_node(cursor: &mut tree_sitter::TreeCursor) -> SyntaxNode {
    let node = cursor.node();
    let mut children = Vec::new();
    if cursor.goto_first_child() {
        loop {
            children.push(to_syntax_node(cursor));
            if !cursor.goto_next_sibling() {
                break;
            }
        }
        cursor.goto_parent();
    }
    SyntaxNode::branch(
        node.kind().to_string(),
        node.start_position().row,
        node.end_position().row,
        children,
    )
}

#[test]
fn parsed_rust_source_scenario() {
    let source = "use std::fmt;\n\nimpl Foo {\n    fn bar(&self) {}\n\n}\n";
    let mut parser = LapceLanguage::Rust.new_parser();
    let tree = parser.parse(source, None).unwrap();
    let root = to_syntax_node(&mut tree.walk());
    assert_eq!(root.kind, "source_file");
    assert_eq!(LapceLanguage::Rust.classify(&root), set_of(&[2, 3, 5]));
}
