use texlab::analysis::{analyze_label_number, LatexAnalyzerContext};
use texlab::bibtex::{left_delimiter, right_delimiter, type_token, SyntaxKind as B};
use texlab::document::LatexExtras;
use texlab::latex::{content_text, environment_word, key_text, small_range, SyntaxKind as L};
use texlab::line_index::{LineIndex, Position, Range};
use texlab::syntax::{Kind, SyntaxTree, TextRange, TreeBuilder};

fn sample() -> SyntaxTree<L> {
    // \section{ a b }% c
    let mut b = TreeBuilder::new();
    b.start_node(L::ROOT);
    b.start_node(L::SECTION);
    b.token(L::SECTION_NAME, "\\section");
    b.start_node(L::CURLY_GROUP);
    b.token(L::L_CURLY, "{");
    b.token(L::WHITESPACE, " ");
    b.start_node(L::KEY);
    b.token(L::WORD, "a");
    b.token(L::WHITESPACE, " ");
    b.token(L::WORD, "b");
    b.token(L::WHITESPACE, " ");
    b.finish_node();
    b.token(L::R_CURLY, "}");
    b.token(L::COMMENT, "% c");
    b.finish_node();
    b.finish_node();
    b.token(L::WORD, "\u{e9}\u{1f600}");
    b.finish_node();
    b.finish()
}

#[test]
fn builder_lays_elements_out_in_document_order() {
    let tree = sample();
    assert_eq!(tree.len(), 14);
    assert_eq!(tree.text(0), "\\section{ a b }% c\u{e9}\u{1f600}");
    assert_eq!(tree.kind(0), L::ROOT);
    assert!(!tree.token(0));
    assert!(tree.token(2));
    assert_eq!(tree.own_text(2), "\\section");
    assert_eq!(tree.own_text(1), "");
    assert_eq!(tree.parent(0), None);
    assert_eq!(tree.parent(1), Some(0));
    assert_eq!(tree.parent(7), Some(6));
    assert_eq!(tree.parent(13), Some(0));
    assert_eq!(tree.end(0), 14);
    assert_eq!(tree.end(3), 13);
    assert_eq!(tree.end(6), 11);
    assert_eq!(tree.end(2), 3);
    assert_eq!(tree.range(0), TextRange::new(0, 24));
    assert_eq!(tree.range(3), TextRange::new(8, 18));
    assert_eq!(tree.range(6), TextRange::new(10, 14));
    assert_eq!(tree.range(13), TextRange::new(18, 24));
    assert_eq!(tree.offset(14), 24);
    assert_eq!(tree.text(6), "a b ");
}

#[test]
fn builder_says_what_can_be_added() {
    let mut b: TreeBuilder<L> = TreeBuilder::new();
    assert!(b.startable());
    assert!(!b.fits("x"));
    b.start_node(L::ROOT);
    assert!(b.startable());
    assert!(b.fits("x"));
    b.finish_node();
    assert!(!b.startable());
    assert!(!b.fits("x"));
    let tree = b.finish();
    assert_eq!(tree.len(), 1);
    assert_eq!(tree.range(0), TextRange::new(0, 0));
}

#[test]
fn children_are_found_by_kind() {
    let tree = sample();
    assert_eq!(tree.child(0, L::SECTION), Some(1));
    assert_eq!(tree.child(0, L::WORD), Some(13));
    assert_eq!(tree.child(0, L::KEY), None);
    assert_eq!(tree.child(3, L::KEY), Some(6));
    assert_eq!(tree.child(6, L::WORD), Some(7));
    assert_eq!(tree.next_child(6, 8, L::WORD), Some(9));
    assert_eq!(tree.next_child(6, 10, L::WORD), None);
    assert_eq!(tree.next_child(6, 100, L::WORD), None);
    assert_eq!(tree.child_opt(Some(3), L::R_CURLY), Some(11));
    assert_eq!(tree.child_opt(None, L::R_CURLY), None);
    assert_eq!(tree.child_among(3, &vec![L::R_CURLY, L::KEY]), Some(6));
    assert_eq!(tree.child_among(3, &vec![]), None);
    assert!(SyntaxTree::<L>::kind_among(L::KEY, &vec![L::WORD, L::KEY]));
}

#[test]
fn small_range_leaves_out_trailing_blanks_and_comments() {
    let tree = sample();
    assert_eq!(small_range(&tree, 6), TextRange::new(10, 13));
    assert_eq!(small_range(&tree, 3), TextRange::new(8, 15));
    assert_eq!(small_range(&tree, 1), TextRange::new(0, 15));
    assert_eq!(tree.small_range(5, L::WHITESPACE, L::COMMENT), TextRange::new(9, 9));
    assert_eq!(key_text(&tree, 6), "a b");
    assert_eq!(content_text(&tree, 3), Some("a b".to_string()));
    assert_eq!(content_text(&tree, 6), None);
    assert_eq!(environment_word(&tree, 1), None);
}

#[test]
fn tokens_are_found_by_offset() {
    let tree = sample();
    assert_eq!(tree.token_at_offset(0), (Some(2), Some(2)));
    assert_eq!(tree.token_at_offset(3), (Some(2), Some(2)));
    assert_eq!(tree.token_at_offset(8), (Some(2), Some(4)));
    assert_eq!(tree.token_at_offset(10), (Some(5), Some(7)));
    assert_eq!(tree.token_at_offset(24), (Some(13), Some(13)));
    assert_eq!(tree.token_at_offset(25), (None, None));
    let empty: SyntaxTree<L> = {
        let mut b = TreeBuilder::new();
        b.start_node(L::ROOT);
        b.finish_node();
        b.finish()
    };
    assert_eq!(empty.token_at_offset(0), (None, None));
}

#[test]
fn kinds_have_distinct_numbers() {
    assert_eq!(B::ERROR.raw(), 0);
    assert_eq!(B::MISSING.raw(), 1);
    assert_eq!(B::WORD.raw(), 7);
    assert_eq!(B::COMMAND_NAME.raw(), 17);
    assert_eq!(B::ROOT.raw(), 28);
    assert_eq!(L::ERROR.raw(), 0);
    assert!(L::GENERIC_COMMAND_NAME.is_command_name());
    assert!(L::TIKZ_LIBRARY_IMPORT_NAME.is_command_name());
    assert!(L::LABEL_DEFINITION_NAME.is_command_name());
    assert!(!L::DOLLAR.is_command_name());
    assert!(!L::PREAMBLE.is_command_name());
    assert!(!L::WORD.is_command_name());
    assert!(B::ENTRY_TYPE.is_type());
    assert!(B::STRING_TYPE.is_type());
    assert!(B::PREAMBLE_TYPE.is_type());
    assert!(B::COMMENT_TYPE.is_type());
    assert!(!B::WORD.is_type());
}

#[test]
fn bibtex_entries_have_delimiters_and_types() {
    let mut b = TreeBuilder::new();
    b.start_node(B::ROOT);
    b.start_node(B::ENTRY);
    b.token(B::ENTRY_TYPE, "@book");
    b.token(B::L_PAREN, "(");
    b.token(B::WORD, "k");
    b.token(B::R_PAREN, ")");
    b.finish_node();
    b.start_node(B::ENTRY);
    b.finish_node();
    b.finish_node();
    let tree = b.finish();
    assert_eq!(left_delimiter(&tree, 1), Some(3));
    assert_eq!(right_delimiter(&tree, 1), Some(5));
    assert_eq!(type_token(&tree, 1), Some(2));
    assert_eq!(left_delimiter(&tree, 6), None);
    assert_eq!(right_delimiter(&tree, 6), None);
    assert_eq!(type_token(&tree, 6), None);
}

#[test]
fn ranges_hold_their_start_but_not_their_end() {
    let range = TextRange::new(3, 5);
    assert!(range.contains(3));
    assert!(range.contains(4));
    assert!(!range.contains(5));
    assert!(!range.contains(2));
    assert!(!TextRange::empty(3).contains(3));
    assert_eq!(TextRange::empty(3), TextRange::new(3, 3));
}

#[test]
fn positions_count_lines_and_utf16_units() {
    let text = "ab\n\u{e9}\u{1f600}x\r\n\nend";
    let index = LineIndex::new(text).unwrap();
    assert_eq!(index.byte_len(), text.len() as u32);
    assert_eq!(index.line_col_lsp(0), Position::new(0, 0));
    assert_eq!(index.line_col_lsp(2), Position::new(0, 2));
    assert_eq!(index.line_col_lsp(3), Position::new(1, 0));
    assert_eq!(index.line_col_lsp(5), Position::new(1, 1));
    assert_eq!(index.line_col_lsp(9), Position::new(1, 3));
    // An offset inside a character stands for the character after it.
    assert_eq!(index.line_col_lsp(6), Position::new(1, 3));
    assert_eq!(index.line_col_lsp(10), Position::new(1, 4));
    assert_eq!(index.line_col_lsp(12), Position::new(2, 0));
    assert_eq!(index.line_col_lsp(13), Position::new(3, 0));
    assert_eq!(index.line_col_lsp(16), Position::new(3, 3));
    assert_eq!(index.line_col_lsp(1000), Position::new(3, 3));
    assert_eq!(
        index.line_col_lsp_range(TextRange::new(3, 9)),
        Range::new(Position::new(1, 0), Position::new(1, 3))
    );

    assert_eq!(index.offset_lsp(Position::new(0, 0)), 0);
    assert_eq!(index.offset_lsp(Position::new(1, 1)), 5);
    assert_eq!(index.offset_lsp(Position::new(1, 3)), 9);
    // A column inside a character stands for the character after it.
    assert_eq!(index.offset_lsp(Position::new(1, 2)), 9);
    // A column past the end of the line stands for the end of the line.
    assert_eq!(index.offset_lsp(Position::new(0, 99)), 2);
    assert_eq!(index.offset_lsp(Position::new(2, 5)), 12);
    // A line past the last stands for the end of the text.
    assert_eq!(index.offset_lsp(Position::new(9, 0)), 16);
    assert_eq!(index.locate(Position::new(1, 1)), (4, 5));
    assert_eq!(
        index.offset_lsp_range(Range::new_simple(0, 1, 3, 1)),
        TextRange::new(1, 14)
    );
    for offset in [0u32, 2, 3, 5, 9, 10, 12, 13, 16] {
        assert_eq!(index.offset_lsp(index.line_col_lsp(offset)), offset);
    }
    assert_eq!(LineIndex::new("").unwrap().line_col_lsp(0), Position::new(0, 0));
}

#[test]
fn label_numbers_are_noted_from_auxiliary_files() {
    // \newlabel{sec:a}{{1.2}{3}}
    let mut b = TreeBuilder::new();
    b.start_node(L::ROOT);
    b.start_node(L::LABEL_NUMBER);
    b.token(L::LABEL_NUMBER_NAME, "\\newlabel");
    b.start_node(L::CURLY_GROUP_WORD);
    b.token(L::L_CURLY, "{");
    b.token(L::WORD, "sec:a");
    b.token(L::R_CURLY, "}");
    b.finish_node();
    b.start_node(L::CURLY_GROUP);
    b.token(L::L_CURLY, "{");
    b.start_node(L::CURLY_GROUP);
    b.token(L::L_CURLY, "{");
    b.start_node(L::TEXT);
    b.token(L::WORD, "1.2");
    b.finish_node();
    b.token(L::R_CURLY, "}");
    b.finish_node();
    b.start_node(L::CURLY_GROUP);
    b.token(L::L_CURLY, "{");
    b.start_node(L::TEXT);
    b.token(L::WORD, "3");
    b.finish_node();
    b.token(L::R_CURLY, "}");
    b.finish_node();
    b.token(L::R_CURLY, "}");
    b.finish_node();
    b.finish_node();
    b.start_node(L::LABEL_NUMBER);
    b.token(L::LABEL_NUMBER_NAME, "\\newlabel");
    b.finish_node();
    b.finish_node();
    let tree = b.finish();
    assert_eq!(tree.text(0), "\\newlabel{sec:a}{{1.2}{3}}\\newlabel");

    let mut context = LatexAnalyzerContext { extras: LatexExtras::new() };
    assert_eq!(analyze_label_number(&mut context, &tree, 1), Some(()));
    assert_eq!(
        context.extras.label_numbers_by_name,
        vec![("sec:a".to_string(), "1.2".to_string())]
    );
    let second = (2..tree.len()).find(|i| tree.kind(*i) == L::LABEL_NUMBER).unwrap();
    assert_eq!(analyze_label_number(&mut context, &tree, second), None);
    assert_eq!(analyze_label_number(&mut context, &tree, 0), None);
    assert_eq!(context.extras.label_numbers_by_name.len(), 1);
}

#[test]
fn trees_are_checked() {
    let tree = sample();
    assert!(tree.check());
    let mut wrong_total = sample();
    wrong_total.total += 1;
    assert!(!wrong_total.check());
    let mut wrong_start = sample();
    wrong_start.elements[4].start = 7;
    assert!(!wrong_start.check());
    let mut too_deep = sample();
    too_deep.elements[5].depth = 4;
    assert!(!too_deep.check());
    let mut under_token = sample();
    assert!(under_token.check());
    under_token.elements[3].token = Some(String::new());
    assert!(!under_token.check());
    let mut no_root = sample();
    no_root.elements[0].depth = 1;
    assert!(!no_root.check());
    let mut second_root = sample();
    second_root.elements[13].depth = 0;
    assert!(!second_root.check());
    let empty: SyntaxTree<L> = SyntaxTree { elements: vec![], total: 0 };
    assert!(!empty.check());
}

#[test]
fn documents_agree_with_their_trees() {
    let tree = sample();
    let text = tree.text(0);
    let data = || {
        texlab::document::DocumentData::Latex(texlab::document::LatexDocumentData {
            root: sample(),
            extras: LatexExtras::new(),
        })
    };
    let uri = texlab::document::Uri::file("/main.tex");
    let document = texlab::document::Document::new(uri.duplicate(), text.clone(), data()).unwrap();
    assert_eq!(document.text, text);
    assert_eq!(document.language(), texlab::document::DocumentLanguage::Latex);
    assert!(texlab::document::Document::new(uri.duplicate(), format!("{} ", text), data()).is_none());
    assert!(texlab::document::Document::new(uri.duplicate(), String::new(), data()).is_none());
    assert!(texlab::document::Document::new(
        uri,
        "anything".to_string(),
        texlab::document::DocumentData::BuildLog
    )
    .is_some());
}
