use texlab::bibtex::SyntaxKind as B;
use texlab::citation::{
    citation_converted, citation_rendered, convert_to_ris, find_reference, finish_citation,
    get_doi_url_markdown, is_convertible, polish_markdown, render_citation, unescape_markdown,
    CitationStep, MAX_START_TAGS,
};
use texlab::csl::{CslType, DateOrRange, DateVariable, NameVariable, Variable};
use texlab::protocol::{MarkupContent, MarkupKind};
use texlab::ris::RisReference;
use texlab::syntax::{SyntaxTree, TreeBuilder};

enum Shape {
    Token(B, &'static str),
    Node(B, Vec<Shape>),
}

fn add(builder: &mut TreeBuilder<B>, shape: &Shape) {
    match shape {
        Shape::Token(kind, text) => {
            assert!(builder.fits(text));
            builder.token(*kind, text);
        }
        Shape::Node(kind, children) => {
            assert!(builder.startable());
            builder.start_node(*kind);
            for child in children {
                add(builder, child);
            }
            builder.finish_node();
        }
    }
}

fn tree(shape: Shape) -> SyntaxTree<B> {
    let mut builder = TreeBuilder::new();
    add(&mut builder, &shape);
    builder.finish()
}

fn braces(text: &'static str) -> Shape {
    Shape::Node(
        B::VALUE,
        vec![Shape::Node(
            B::TOKEN,
            vec![Shape::Node(
                B::BRACE_GROUP,
                vec![
                    Shape::Token(B::L_CURLY, "{"),
                    Shape::Token(B::WORD, text),
                    Shape::Token(B::R_CURLY, "}"),
                ],
            )],
        )],
    )
}

fn field(name: &'static str, value: Shape, end: &'static str) -> Shape {
    let mut children = vec![
        Shape::Token(B::WORD, name),
        Shape::Token(B::WHITESPACE, " "),
        Shape::Token(B::EQUALITY_SIGN, "="),
        Shape::Token(B::WHITESPACE, " "),
        value,
    ];
    if !end.is_empty() {
        children.push(Shape::Token(B::COMMA, end));
    }
    children.push(Shape::Token(B::WHITESPACE, "\n                    "));
    Shape::Node(B::FIELD, children)
}

fn last_field(name: &'static str, value: Shape) -> Shape {
    Shape::Node(
        B::FIELD,
        vec![
            Shape::Token(B::WORD, name),
            Shape::Token(B::WHITESPACE, " "),
            Shape::Token(B::EQUALITY_SIGN, "="),
            Shape::Token(B::WHITESPACE, " "),
            value,
            Shape::Token(B::WHITESPACE, "\n                "),
        ],
    )
}

/// The entry `foo`: an article with an author, a title and a year, each
/// field on a line of its own.
fn article(author: Shape) -> Shape {
    Shape::Node(
        B::ENTRY,
        vec![
            Shape::Token(B::ENTRY_TYPE, "@article"),
            Shape::Token(B::L_CURLY, "{"),
            Shape::Token(B::WORD, "foo"),
            Shape::Token(B::COMMA, ","),
            Shape::Token(B::WHITESPACE, "\n                    "),
            field("author", author, ","),
            field("title", braces("Baz Qux"), ","),
            last_field("year", braces("2020")),
            Shape::Token(B::R_CURLY, "}"),
            Shape::Token(B::WHITESPACE, "\n            "),
        ],
    )
}

fn leading_blank() -> Shape {
    Shape::Node(B::JUNK, vec![Shape::Token(B::WHITESPACE, "\n                ")])
}

/// What the conversion to RIS gives for the article.
fn article_as_ris() -> &'static str {
    "TY  - JOUR\r\nAU  - Bar, Foo\r\nPY  - 2020\r\nTI  - Baz Qux\r\nID  - foo\r\nER  - \r\n"
}

/// What the rendering gives for the article.
fn article_as_html() -> &'static str {
    "<div class=\"csl-entry\">Bar, F. (2020). <i>Baz Qux</i>.</div>"
}

/// The way from the entry `key` to its text, with the two outside services
/// standing at the article.
fn render(root: &SyntaxTree<B>, key: &str) -> Option<MarkupContent> {
    let bib_code = match render_citation(root, key) {
        CitationStep::Convert { bib_code } => bib_code,
        CitationStep::Done { content } => return content,
        CitationStep::Render { .. } => unreachable!(),
    };
    assert!(bib_code.contains("@article{foo,"));
    let (reference, doi_url) = match citation_converted(Some(article_as_ris()), key) {
        CitationStep::Render { reference, doi_url } => (reference, doi_url),
        CitationStep::Done { content } => return content,
        CitationStep::Convert { .. } => unreachable!(),
    };
    assert_eq!(reference.id, "foo");
    assert_eq!(reference.csl_type, CslType::ArticleJournal);
    match citation_rendered(Some(article_as_html()), &doi_url) {
        CitationStep::Done { content } => content,
        _ => unreachable!(),
    }
}

#[test]
fn citation_test_simple() {
    let root = tree(Shape::Node(B::ROOT, vec![leading_blank(), article(braces("Foo Bar"))]));
    assert_eq!(
        root.text(0),
        r#"
                @article{foo,
                    author = {Foo Bar},
                    title = {Baz Qux},
                    year = {2020}
                }
            "#
    );

    let actual_md = render(&root, "foo").unwrap();

    let expected_md = MarkupContent {
        kind: MarkupKind::Markdown,
        value: "Bar, F. (2020). *Baz Qux*.".into(),
    };
    assert_eq!(actual_md, expected_md);
}

#[test]
fn test_string() {
    let root = tree(Shape::Node(
        B::ROOT,
        vec![
            leading_blank(),
            Shape::Node(
                B::STRING,
                vec![
                    Shape::Token(B::STRING_TYPE, "@string"),
                    Shape::Token(B::L_CURLY, "{"),
                    Shape::Token(B::WORD, "author"),
                    Shape::Token(B::WHITESPACE, " "),
                    Shape::Token(B::EQUALITY_SIGN, "="),
                    Shape::Token(B::WHITESPACE, " "),
                    Shape::Node(
                        B::VALUE,
                        vec![Shape::Node(
                            B::TOKEN,
                            vec![Shape::Node(
                                B::QUOTE_GROUP,
                                vec![
                                    Shape::Token(B::QUOTE, "\""),
                                    Shape::Token(B::WORD, "Foo Bar"),
                                    Shape::Token(B::QUOTE, "\""),
                                ],
                            )],
                        )],
                    ),
                    Shape::Token(B::R_CURLY, "}"),
                    Shape::Token(B::WHITESPACE, "\n                "),
                ],
            ),
            article(Shape::Node(
                B::VALUE,
                vec![Shape::Node(B::TOKEN, vec![Shape::Token(B::WORD, "author")])],
            )),
        ],
    ));
    let text = r#"
                @string{author = "Foo Bar"}
                @article{foo,
                    author = author,
                    title = {Baz Qux},
                    year = {2020}
                }
            "#;
    assert_eq!(root.text(0), text);
    assert_eq!(convert_to_ris(&root, "foo"), Some(text.trim_start().to_string()));

    let actual_md = render(&root, "foo").unwrap();

    let expected_md = MarkupContent {
        kind: MarkupKind::Markdown,
        value: "Bar, F. (2020). *Baz Qux*.".into(),
    };
    assert_eq!(actual_md, expected_md);
}

#[test]
fn test_unknown_key() {
    let root = tree(Shape::Node(B::ROOT, vec![]));

    let actual_md = render(&root, "foo");

    assert_eq!(actual_md, None);
}

#[test]
fn citation_source_takes_named_strings_and_the_entry() {
    let unnamed = Shape::Node(
        B::STRING,
        vec![Shape::Token(B::STRING_TYPE, "@string"), Shape::Token(B::L_CURLY, "{")],
    );
    let named = Shape::Node(
        B::STRING,
        vec![
            Shape::Token(B::STRING_TYPE, "@string"),
            Shape::Token(B::L_CURLY, "{"),
            Shape::Token(B::WORD, "a"),
            Shape::Token(B::R_CURLY, "}"),
        ],
    );
    let other = Shape::Node(
        B::ENTRY,
        vec![
            Shape::Token(B::ENTRY_TYPE, "@book"),
            Shape::Token(B::L_CURLY, "{"),
            Shape::Token(B::WORD, "other"),
            Shape::Token(B::R_CURLY, "}"),
        ],
    );
    let wanted = Shape::Node(
        B::ENTRY,
        vec![
            Shape::Token(B::ENTRY_TYPE, "@book"),
            Shape::Token(B::L_CURLY, "{"),
            Shape::Token(B::WORD, "key"),
            Shape::Token(B::COMMA, ","),
            Shape::Token(B::WORD, "a\\hypen b"),
            Shape::Token(B::R_CURLY, "}"),
        ],
    );
    let root = tree(Shape::Node(B::ROOT, vec![unnamed, other, named, wanted]));
    assert_eq!(convert_to_ris(&root, "key"), Some("@string{a}@book{key,a- b}".to_string()));
    assert_eq!(convert_to_ris(&root, "missing"), None);
}

#[test]
fn conversion_ends_without_text_reference_or_type() {
    assert!(matches!(citation_converted(None, "foo"), CitationStep::Done { content: None }));
    assert!(matches!(
        citation_converted(Some(article_as_ris()), "bar"),
        CitationStep::Done { content: None }
    ));
    assert!(matches!(
        citation_converted(Some("ID  - foo\nER  -\n"), "foo"),
        CitationStep::Done { content: None }
    ));
    assert!(matches!(
        citation_converted(Some("TY  - NOPE\nID  - foo\nER  -\n"), "foo"),
        CitationStep::Done { content: None }
    ));
    assert_eq!(find_reference("TY  - BOOK\nID  - a\nER  -\nTY  - CHAP\nID  - b\nER  -", "b").unwrap().id,
        Some("b".to_string()));
    assert!(matches!(citation_rendered(None, &None), CitationStep::Done { content: None }));
}

#[test]
fn converted_reference_carries_names_dates_and_titles() {
    let (reference, doi_url) = match citation_converted(
        Some("TY  - JOUR\nAU  - Bar, Foo\nPY  - 2020\nTI  - Baz Qux\nDO  - 10.1/x\nID  - foo\nER  -"),
        "foo",
    ) {
        CitationStep::Render { reference, doi_url } => (reference, doi_url),
        _ => unreachable!(),
    };
    assert_eq!(doi_url, Some("[doi:10.1/x](https://doi.org/10.1/x)".to_string()));
    assert!(reference.name.contains(&(NameVariable::Author, vec!["Bar, Foo".to_string()])));
    assert!(reference.name.contains(&(NameVariable::Editor, vec![])));
    assert!(reference.ordinary.contains(&(Variable::Title, "Baz Qux".to_string())));
    assert!(reference.ordinary.contains(&(Variable::DOI, "10.1/x".to_string())));
    let issued = reference.date.iter().find(|(v, _)| *v == DateVariable::Issued).unwrap();
    assert!(matches!(&issued.1, DateOrRange::Single(d) if d.year == 2020 && d.month == 0 && d.day == 0));
}

#[test]
fn doi_link_takes_the_place_of_the_rendered_link() {
    let mut reference = RisReference::new();
    assert_eq!(get_doi_url_markdown(&reference), None);
    reference.doi = Some("10.1/x".to_string());
    let doi_url = get_doi_url_markdown(&reference);
    assert_eq!(doi_url, Some("[doi:10.1/x](https://doi.org/10.1/x)".to_string()));

    let html = "<div>Bar, F. (2020). https://doi.org/<a href=\"https://doi.org/10.1/x\">10.1/x</a></div>";
    let content = finish_citation(html, &doi_url).unwrap();
    assert_eq!(content.kind, MarkupKind::Markdown);
    assert_eq!(content.value, "Bar, F. (2020). [doi:10.1/x](https://doi.org/10.1/x)");
    let plain = finish_citation(html, &None).unwrap();
    assert_eq!(plain.value, "Bar, F. (2020). https://doi.org/[10.1/x](https://doi.org/10.1/x)");
}

#[test]
fn empty_rendering_gives_no_text() {
    assert_eq!(finish_citation("", &None), None);
    assert_eq!(finish_citation("<div>  </div>", &Some("x".to_string())), None);
    assert_eq!(polish_markdown(String::new(), Some(Some("x".to_string()))), None);
}

#[test]
fn markdown_is_rid_of_leftovers() {
    assert_eq!(unescape_markdown("a..b"), "a.b");
    assert_eq!(unescape_markdown("a...b"), "a..b");
    assert_eq!(unescape_markdown("O\\'Neill"), "O'Neill");
    assert_eq!(unescape_markdown("a\\-b"), "a-b");
    assert_eq!(unescape_markdown("H\\\\textsubscript2O"), "H2O");
    assert_eq!(unescape_markdown("x\\\\textsuperscript2"), "x2");
    assert_eq!(unescape_markdown("plain"), "plain");
    assert_eq!(
        polish_markdown("a..".to_string(), Some(None)),
        Some(MarkupContent { kind: MarkupKind::Markdown, value: "a.".to_string() })
    );
    assert_eq!(
        polish_markdown("a".to_string(), Some(Some("b..".to_string()))),
        Some(MarkupContent { kind: MarkupKind::Markdown, value: "b.".to_string() })
    );
}

#[test]
fn html_with_a_list_item_gives_no_text() {
    for html in [
        "<div>Bar, F. (2020). <i>Baz Qux</i>.</div>",
        "",
        "a < l",
        "<l",
        "<l i>",
        "li<i>",
        "x<link>",
        "<listing>x</listing>",
        "<lix>",
        "</li>",
        "< li>",
    ] {
        assert!(is_convertible(html), "{}", html);
    }
    for html in [
        "<br>a<b><li>y</li></b>",
        "<ul><LI>y</LI></ul>",
        "a<Li",
        "<lI>",
        "<li/>",
        "<li\n>",
        "<li\r>",
        "<li\t>",
        "<li\u{c}>",
        "<li class=x>",
    ] {
        assert!(!is_convertible(html), "{:?}", html);
        assert_eq!(finish_citation(html, &None), None, "{:?}", html);
        assert_eq!(finish_citation(html, &Some("x".to_string())), None, "{:?}", html);
        assert!(matches!(
            citation_rendered(Some(html), &None),
            CitationStep::Done { content: None }
        ));
    }
}

#[test]
fn html_with_too_many_start_tags_gives_no_text() {
    assert_eq!(MAX_START_TAGS, 128);
    let most = format!("{}x", "<i>".repeat(MAX_START_TAGS));
    assert!(is_convertible(&most));
    assert!(finish_citation(&most, &None).is_some());
    let pairs =
        format!("{}x{}", "<b>".repeat(MAX_START_TAGS), "</b>".repeat(MAX_START_TAGS));
    assert!(is_convertible(&pairs));
    assert!(finish_citation(&pairs, &None).is_some());
    let flat = "<i>a</i> ".repeat(MAX_START_TAGS);
    assert!(is_convertible(&flat));
    assert_eq!(
        finish_citation(&flat, &None).map(|content| content.value),
        Some("*a* ".repeat(MAX_START_TAGS).trim().to_string())
    );
    let more = format!("{}x", "<i>".repeat(MAX_START_TAGS + 1));
    assert!(!is_convertible(&more));
    assert_eq!(finish_citation(&more, &None), None);
    assert!(!is_convertible(&"<i>a</i> ".repeat(MAX_START_TAGS + 1)));
    // Only what may begin a start tag is counted.
    let marks = format!("a {} b", "< ".repeat(4 * MAX_START_TAGS));
    assert!(is_convertible(&marks));
    assert!(finish_citation(&marks, &None).is_some());
    assert!(is_convertible(&"</i>".repeat(4 * MAX_START_TAGS)));
    assert!(is_convertible(&"<!-- -->".repeat(4 * MAX_START_TAGS)));
    assert!(is_convertible(&"<".repeat(4 * MAX_START_TAGS)));
}

#[test]
fn html_with_two_tables_gives_no_text() {
    let one = "<table><tr><td>a</td><td>b</td></tr><tr><td>c</td></tr></table>";
    assert!(is_convertible(one));
    assert_eq!(
        finish_citation(one, &None).map(|content| content.value),
        Some("| a | b |\n|---|---|\n| c |   |".to_string())
    );
    for html in ["<tabl", "<tabel><table", "<TaBlE>x", "<table<table", "<tablet><tables><table>"] {
        assert!(is_convertible(html), "{}", html);
    }
    for html in [
        "<table><tr><td><table><tr><td>x</td></tr></table></td></tr></table>",
        "<table></table><TABLE></TABLE>",
        "<table><table",
        "<table\t><TABLE/>",
        "<table><tr><td><tAbLe>",
    ] {
        assert!(!is_convertible(html), "{}", html);
        assert_eq!(finish_citation(html, &None), None, "{}", html);
    }
}

/// A text made of pieces of HTML, chosen by a counter that is stepped in a
/// fixed way.
fn pieced_html(seed: &mut u64, pieces: &[&str], most: u64) -> String {
    let mut step = || {
        *seed = seed.wrapping_mul(6364136223846793005).wrapping_add(1442695040888963407);
        *seed >> 33
    };
    let count = step() % most;
    let mut html = String::new();
    for _ in 0..count {
        html.push_str(pieces[(step() % pieces.len() as u64) as usize]);
    }
    html
}

#[test]
fn texts_that_pass_are_converted() {
    let pieces = [
        "<", ">", "/", "li", "LI", "table", "Table", "ul", "b", "i", "td", "tr", " ", "\n", "\r",
        "\t", "x", "y.", "=", "\"", "'", "<li", "<li>", "</li>", "<table>", "</table>", "<table",
        "<ul>", "</ul>", "<ol>", "<menu>", "<b>", "</b>", "<i>", "</i>", "<em>", "<s>", "<del>",
        "<strong>", "<blockquote>", "</blockquote>", "<q>", "<cite>", "<pre>", "</pre>", "<code>",
        "</code>", "<a href=x>", "<a name=n>", "</a>", "<img src=x>", "<img width=1>", "<br>",
        "<hr>", "<p>", "</p>", "</br>", "<h1>", "</h1>", "<h3>", "<div>", "</div>", "<span>",
        "<sub>", "<sup>", "<iframe src=y>", "<details>", "<summary>", "<tr>", "<td>", "<th>",
        "</td>", "</tr>", "<tbody>", "<caption>", "<!--", "-->", "<!doctype html>", "&lt;", "&amp;",
        "&#60;li&#62;", "<svg>", "</svg>", "<math>", "<select>", "<option>", "<template>",
        "</template>", "<script>", "</script>", "<style>", "<title>", "</title>", "<textarea>",
        "<body>", "<html>", "<head>", "<form>", "<button>", "<nobr>", "<dd>", "<dt>", "\u{e9}",
        "\u{1f600}", "*", "_", "#", "> ", "- ", "1. ", "\u{0}", "\u{c}",
    ];
    let mut seed: u64 = 1;
    let mut passed = 0;
    for _ in 0..6000 {
        let html = pieced_html(&mut seed, &pieces, 24);
        if is_convertible(&html) {
            passed += 1;
            let _ = finish_citation(&html, &None);
        } else {
            assert_eq!(finish_citation(&html, &None), None, "{:?}", html);
        }
    }
    assert!(passed > 1000);
}
