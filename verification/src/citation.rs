//! From an entry of a bibliography to the text that describes it.
//!
//! The way leads over two outside services: one turns BibTeX into RIS, one
//! renders a reference as HTML. What lies before, between and after them is
//! here, as one step each; the owner calls the services in between.

use crate::bibtex::{self, SyntaxKind};
use crate::csl::CslReference;
use crate::protocol::{MarkupContent, MarkupKind};
use crate::ris::{RisLibrary, RisRecord, RisReference};
use crate::text::{
    chars_of, lines, lines_of, opt_text, replace_all, replaced, str_eq, trim, trimmed,
};
use regex::Regex;
use vstd::prelude::*;
use vstd::string::{StrSliceExecFns, StringExecFns};

verus! {

/// The Markdown that html2md makes of an HTML text.
pub uninterp spec fn markdown_of_html(html: Seq<char>) -> Seq<char>;

/// The text with the first match of a regular expression replaced, where
/// the replacement may refer to what the match captured; `None` where the
/// pattern is no regular expression.
pub uninterp spec fn regex_replaced(
    pattern: Seq<char>,
    haystack: Seq<char>,
    replacement: Seq<char>,
) -> Option<Seq<char>>;

/// The most start tags that an HTML text may hold to be turned into
/// Markdown.
pub const MAX_START_TAGS: usize = 128;

/// Whether a character is a letter of the Latin alphabet, small or capital.
pub open spec fn is_ascii_letter(c: char) -> bool {
    ('a' as u32 <= c as u32 <= 'z' as u32) || ('A' as u32 <= c as u32 <= 'Z' as u32)
}

/// Whether a character ends the name of a tag: white space, `/` or `>`.
pub open spec fn ends_tag_name(c: char) -> bool {
    c == '\t' || c == '\n' || c == '\x0c' || c == '\r' || c == ' ' || c == '/' || c == '>'
}

/// Whether a character is the given letter, small or capital.
pub open spec fn is_letter(c: char, small: char, capital: char) -> bool {
    c == small || c == capital
}

/// Whether a start tag may begin at `i`: with `<` and a letter.
pub open spec fn opens_tag(html: Seq<char>, i: int) -> bool {
    0 <= i && i + 1 < html.len() && html[i] == '<' && is_ascii_letter(html[i + 1])
}

/// Whether the name of a tag that begins at `i` has ended by `j`: there the
/// text ends, or a character stands that ends a name.
pub open spec fn name_ends(html: Seq<char>, j: int) -> bool {
    j >= html.len() || ends_tag_name(html[j])
}

/// Whether the start tag of a list item may begin at `i`: `<li`, in small
/// or capital letters, and the end of the name.
pub open spec fn opens_list_item(html: Seq<char>, i: int) -> bool {
    0 <= i && i + 2 < html.len() && html[i] == '<' && is_letter(html[i + 1], 'l', 'L')
        && is_letter(html[i + 2], 'i', 'I') && name_ends(html, i + 3)
}

/// Whether the start tag of a table may begin at `i`: `<table`, in small or
/// capital letters, and the end of the name.
pub open spec fn opens_table(html: Seq<char>, i: int) -> bool {
    0 <= i && i + 5 < html.len() && html[i] == '<' && is_letter(html[i + 1], 't', 'T')
        && is_letter(html[i + 2], 'a', 'A') && is_letter(html[i + 3], 'b', 'B') && is_letter(
        html[i + 4],
        'l',
        'L',
    ) && is_letter(html[i + 5], 'e', 'E') && name_ends(html, i + 6)
}

/// Whether the start tag of a list item may begin at a place before `n`.
pub open spec fn list_item_before(html: Seq<char>, n: int) -> bool {
    exists|i: int| 0 <= i < n && opens_list_item(html, i)
}

/// At how many places before `n` a start tag may begin.
pub open spec fn tags_before(html: Seq<char>, n: int) -> nat
    decreases n,
{
    if n <= 0 {
        0
    } else {
        tags_before(html, n - 1) + (if opens_tag(html, n - 1) {
            1nat
        } else {
            0nat
        })
    }
}

/// At how many places before `n` the start tag of a table may begin.
pub open spec fn tables_before(html: Seq<char>, n: int) -> nat
    decreases n,
{
    if n <= 0 {
        0
    } else {
        tables_before(html, n - 1) + (if opens_table(html, n - 1) {
            1nat
        } else {
            0nat
        })
    }
}

/// Whether an HTML text can be turned into Markdown: no start tag of a list
/// item may begin in it, that of a table at most once, and a start tag of
/// any name at most [`MAX_START_TAGS`] times.
///
/// All three are asked for the converter's sake. It takes a list item with
/// no list around it for the start of its whole output, and what it then
/// cuts off there is missed by the elements around the item. It converts
/// the content of a table once more for each table around it, so that its
/// work grows threefold with each table inside another. And it descends
/// once for each level at which elements nest.
///
/// What harms is how elements lie in one another; what is asked here is
/// only which tags the text may hold, wherever they stand. An element comes
/// from a start tag of its name, and a start tag from `<` and a letter, so
/// a text that passes has no list item, no two tables, and no more levels
/// than start tags. Which element lies in which is for the parser of HTML
/// to say, by rules for omitted and misplaced tags that fill a chapter of
/// the standard; a second reading of them here could differ from the
/// parser's, and would then let through what harms.
pub open spec fn convertible(html: Seq<char>) -> bool {
    &&& !list_item_before(html, html.len() as int)
    &&& tables_before(html, html.len() as int) <= 1
    &&& tags_before(html, html.len() as int) <= MAX_START_TAGS
}

/// Whether a character is a letter of the Latin alphabet.
fn ascii_letter(c: char) -> (r: bool)
    ensures
        r == is_ascii_letter(c),
{
    let code = c as u32;
    (0x61 <= code && code <= 0x7a) || (0x41 <= code && code <= 0x5a)
}

/// Whether a character is the given letter, small or capital.
fn letter(c: char, small: char, capital: char) -> (r: bool)
    ensures
        r == is_letter(c, small, capital),
{
    c == small || c == capital
}

/// Whether the name of a tag has ended by `j`.
fn name_ended(chars: &Vec<char>, j: usize) -> (r: bool)
    ensures
        r == name_ends(chars@, j as int),
{
    if j >= chars.len() {
        return true;
    }
    let c = chars[j];
    c == '\t' || c == '\n' || c == '\x0c' || c == '\r' || c == ' ' || c == '/' || c == '>'
}

/// Whether the start tag of a list item may begin at `i`.
fn list_item_at(chars: &Vec<char>, i: usize) -> (r: bool)
    requires
        i < chars.len(),
    ensures
        r == opens_list_item(chars@, i as int),
{
    chars.len() - i > 2 && chars[i] == '<' && letter(chars[i + 1], 'l', 'L') && letter(
        chars[i + 2],
        'i',
        'I',
    ) && name_ended(chars, i + 3)
}

/// Whether the start tag of a table may begin at `i`.
fn table_at(chars: &Vec<char>, i: usize) -> (r: bool)
    requires
        i < chars.len(),
    ensures
        r == opens_table(chars@, i as int),
{
    chars.len() - i > 5 && chars[i] == '<' && letter(chars[i + 1], 't', 'T') && letter(
        chars[i + 2],
        'a',
        'A',
    ) && letter(chars[i + 3], 'b', 'B') && letter(chars[i + 4], 'l', 'L') && letter(
        chars[i + 5],
        'e',
        'E',
    ) && name_ended(chars, i + 6)
}

/// Whether an HTML text can be turned into Markdown.
pub fn is_convertible(html: &str) -> (r: bool)
    ensures
        r == convertible(html@),
{
    let chars = chars_of(html);
    let n = chars.len();
    let mut tags: usize = 0;
    let mut tables: usize = 0;
    let mut i: usize = 0;
    while i < n
        invariant
            i <= n == chars.len(),
            chars@ == html@,
            tags == tags_before(chars@, i as int),
            tags <= MAX_START_TAGS,
            tables == tables_before(chars@, i as int),
            tables <= 1,
            !list_item_before(chars@, i as int),
        decreases n - i,
    {
        if list_item_at(&chars, i) {
            return false;
        }
        if table_at(&chars, i) {
            if tables == 1 {
                proof {
                    lemma_tables_grow(chars@, i + 1, n as int);
                }
                return false;
            }
            tables += 1;
        }
        if n - i > 1 && chars[i] == '<' && ascii_letter(chars[i + 1]) {
            if tags == MAX_START_TAGS {
                proof {
                    lemma_tags_grow(chars@, i + 1, n as int);
                }
                return false;
            }
            tags += 1;
        }
        i += 1;
    }
    true
}

/// A start tag may begin at least as often before a later place as before
/// an earlier one.
pub proof fn lemma_tags_grow(html: Seq<char>, a: int, b: int)
    requires
        a <= b,
    ensures
        tags_before(html, a) <= tags_before(html, b),
    decreases b - a,
{
    if a < b {
        lemma_tags_grow(html, a, b - 1);
    }
}

/// The start tag of a table may begin at least as often before a later
/// place as before an earlier one.
pub proof fn lemma_tables_grow(html: Seq<char>, a: int, b: int)
    requires
        a <= b,
    ensures
        tables_before(html, a) <= tables_before(html, b),
    decreases b - a,
{
    if a < b {
        lemma_tables_grow(html, a, b - 1);
    }
}

/// `html2md::parse_html`: the Markdown for an HTML text, named
/// [`markdown_of_html`]. Asked of the text is that it is [`convertible`]:
/// on other texts the call may not return.
#[verifier::external_body]
fn html_to_markdown(html: &str) -> (r: String)
    requires
        convertible(html@),
    ensures
        r@ == markdown_of_html(html@),
{
    html2md::parse_html(html)
}

/// `Regex::new`, then `Regex::replace` on the expression: the haystack with
/// its first match replaced, named [`regex_replaced`]; `None` where
/// `Regex::new` reports an error.
#[verifier::external_body]
fn regex_replace(pattern: &str, haystack: &str, replacement: &str) -> (r: Option<String>)
    ensures
        opt_text(r) == regex_replaced(pattern@, haystack@, replacement@),
{
    match Regex::new(pattern) {
        Ok(re) => Some(re.replace(haystack, replacement).into_owned()),
        Err(_) => None,
    }
}

/// The pattern of the link that the rendering makes of a DOI.
pub open spec fn doi_url_pattern() -> Seq<char> {
    "https://doi.org/\\[.*\\]\\(.*\\)"@
}

/// The texts of the string definitions with a name that the root holds from
/// `j` on, joined.
pub open spec fn strings_from(tree: &bibtex::Tree, j: int) -> Seq<char>
    decreases tree.size() - j,
{
    match tree.child_from(0, j, SyntaxKind::STRING) {
        Some(s) => if j <= s < tree.size() {
            (if tree.first_child(s, SyntaxKind::WORD) is Some {
                tree.text_of(s)
            } else {
                Seq::empty()
            }) + strings_from(tree, s + 1)
        } else {
            Seq::empty()
        },
        None => Seq::empty(),
    }
}

/// The first entry with the given key among those that the root holds from
/// `j` on.
pub open spec fn entry_from(tree: &bibtex::Tree, j: int, key: Seq<char>) -> Option<int>
    decreases tree.size() - j,
{
    match tree.child_from(0, j, SyntaxKind::ENTRY) {
        Some(e) => if j <= e < tree.size() {
            if tree.first_child(e, SyntaxKind::WORD) matches Some(w) && tree.token_text(w) == key {
                Some(e)
            } else {
                entry_from(tree, e + 1, key)
            }
        } else {
            None
        },
        None => None,
    }
}

/// The BibTeX text to convert for an entry: the string definitions that have
/// a name, then the entry, with `\hypen` replaced by a hyphen. `None` where
/// the bibliography has no entry with the key.
pub open spec fn citation_source(tree: &bibtex::Tree, key: Seq<char>) -> Option<Seq<char>> {
    match entry_from(tree, 1, key) {
        Some(e) => Some(replaced(strings_from(tree, 1) + tree.text_of(e), "\\hypen"@, "-"@)),
        None => None,
    }
}

/// The BibTeX text to convert for an entry.
pub fn convert_to_ris(root: &bibtex::Tree, key: &str) -> (r: Option<String>)
    ensures
        opt_text(r) == citation_source(root, key@),
{
    let n = root.len();
    if n == 0 {
        return None;
    }
    let mut bib_code = String::new();
    let mut from: usize = 1;
    proof {
        assert(bib_code@ + strings_from(root, 1) =~= strings_from(root, 1));
    }
    loop
        invariant
            0 < from <= n == root.size(),
            bib_code@ + strings_from(root, from as int) == strings_from(root, 1),
        ensures
            bib_code@ == strings_from(root, 1),
        decreases n + 1 - from,
    {
        match root.next_child(0, from, SyntaxKind::STRING) {
            Some(s) => {
                let ghost before = bib_code@;
                let ghost rest = strings_from(root, s + 1);
                if root.child(s, SyntaxKind::WORD).is_some() {
                    let text = root.text(s);
                    bib_code.append(text.as_str());
                    proof {
                        assert(before + (text@ + rest) =~= (before + text@) + rest);
                    }
                } else {
                    proof {
                        assert(before + (Seq::<char>::empty() + rest) =~= before + rest);
                    }
                }
                from = s + 1;
            },
            None => {
                proof {
                    assert(bib_code@ + Seq::<char>::empty() =~= bib_code@);
                }
                break ;
            },
        }
    }
    let mut at: usize = 1;
    loop
        invariant
            0 < at <= n == root.size(),
            bib_code@ == strings_from(root, 1),
            entry_from(root, at as int, key@) == entry_from(root, 1, key@),
        decreases n + 1 - at,
    {
        match root.next_child(0, at, SyntaxKind::ENTRY) {
            Some(e) => {
                let found = match root.child(e, SyntaxKind::WORD) {
                    Some(w) => {
                        let text = root.own_text(w);
                        str_eq(text.as_str(), key)
                    },
                    None => false,
                };
                if found {
                    let text = root.text(e);
                    bib_code.append(text.as_str());
                    proof {
                        reveal_strlit("\\hypen");
                    }
                    return Some(replace_all(bib_code.as_str(), "\\hypen", "-"));
                }
                at = e + 1;
            },
            None => {
                return None;
            },
        }
    }
}

/// The first reference from `k` on whose id is `key`.
pub open spec fn reference_from(records: Seq<RisRecord>, k: int, key: Seq<char>) -> Option<
    RisRecord,
>
    decreases records.len() - k,
{
    if k < 0 || k >= records.len() {
        None
    } else if records[k].id == Some(key) {
        Some(records[k])
    } else {
        reference_from(records, k + 1, key)
    }
}

/// The reference with the given id in a RIS text.
pub open spec fn ris_reference(ris_code: Seq<char>, key: Seq<char>) -> Option<RisRecord> {
    reference_from(crate::ris::ris_records(lines_of(ris_code)), 0, key)
}

/// What an optional reference holds.
pub open spec fn reference_view(r: Option<RisReference>) -> Option<RisRecord> {
    match r {
        Some(r) => Some(r@),
        None => None,
    }
}

/// The reference with the given id in a RIS text.
pub fn find_reference(ris_code: &str, key: &str) -> (r: Option<RisReference>)
    ensures
        reference_view(r) == ris_reference(ris_code@, key@),
        r matches Some(reference) ==> reference@.id == Some(key@),
{
    let ris_lines = lines(ris_code);
    let mut library = RisLibrary::parse(&ris_lines);
    let ghost all = library.records();
    let mut k: usize = 0;
    while k < library.references.len()
        invariant
            k <= library.references.len(),
            library.records() == all,
            all == crate::ris::ris_records(lines_of(ris_code@)),
            reference_from(all, k as int, key@) == reference_from(all, 0, key@),
        decreases library.references.len() - k,
    {
        proof {
            assert(all[k as int] == library.references@[k as int]@);
        }
        let found = match &library.references[k].id {
            Some(id) => str_eq(id.as_str(), key),
            None => false,
        };
        if found {
            return Some(library.references.remove(k));
        }
        k += 1;
    }
    None
}

/// The link for a DOI, in Markdown.
pub open spec fn doi_url_markdown(doi: Option<Seq<char>>) -> Option<Seq<char>> {
    match doi {
        Some(doi) => Some("[doi:"@ + doi + "](https://doi.org/"@ + doi + ")"@),
        None => None,
    }
}

/// The link for the DOI of a reference, in Markdown.
pub fn get_doi_url_markdown(ris_reference: &RisReference) -> (r: Option<String>)
    ensures
        opt_text(r) == doi_url_markdown(ris_reference@.doi),
{
    match &ris_reference.doi {
        Some(doi) => {
            let mut out = String::from_str("[doi:");
            out.append(doi.as_str());
            out.append("](https://doi.org/");
            out.append(doi.as_str());
            out.append(")");
            Some(out)
        },
        None => None,
    }
}

/// The Markdown without what the rendering left over: doubled periods, and
/// the backslashes before apostrophes and hyphens and in front of the
/// commands for sub- and superscripts.
pub open spec fn unescaped(markdown: Seq<char>) -> Seq<char> {
    replaced(
        replaced(
            replaced(
                replaced(replaced(markdown, ".."@, "."@), "\\\'"@, "'"@),
                "\\-"@,
                "-"@,
            ),
            "\\\\textsubscript"@,
            ""@,
        ),
        "\\\\textsuperscript"@,
        ""@,
    )
}

/// Takes out of the Markdown what the rendering left over.
pub fn unescape_markdown(markdown: &str) -> (r: String)
    ensures
        r@ == unescaped(markdown@),
{
    proof {
        reveal_strlit("..");
        reveal_strlit("\\\'");
        reveal_strlit("\\-");
        reveal_strlit("\\\\textsubscript");
        reveal_strlit("\\\\textsuperscript");
    }
    let a = replace_all(markdown, "..", ".");
    let b = replace_all(a.as_str(), "\\\'", "'");
    let c = replace_all(b.as_str(), "\\-", "-");
    let d = replace_all(c.as_str(), "\\\\textsubscript", "");
    replace_all(d.as_str(), "\\\\textsuperscript", "")
}

/// The text for a citation, given the Markdown of the rendering and, where
/// the reference has a DOI, the text with the DOI's link put in (`None`
/// where that could not be done: the Markdown then stays as it is). `None`
/// where the Markdown is empty once trimmed.
pub open spec fn polished(markdown: Seq<char>, with_doi: Option<Option<Seq<char>>>) -> Option<
    Seq<char>,
> {
    if trimmed(markdown).len() == 0 {
        None
    } else {
        Some(
            unescaped(
                match with_doi {
                    Some(Some(text)) => text,
                    _ => trimmed(markdown),
                },
            ),
        )
    }
}

/// The text for a citation, given its rendering as HTML and the link for
/// the DOI: the HTML as Markdown, trimmed, with the DOI's link in the place
/// of the link that the rendering made, and without what the rendering left
/// over. `None` where the HTML is not [`convertible`].
pub open spec fn citation_text(html: Seq<char>, doi_url: Option<Seq<char>>) -> Option<Seq<char>> {
    let markdown = markdown_of_html(html);
    if convertible(html) {
        polished(
            markdown,
            match doi_url {
                Some(url) => Some(regex_replaced(doi_url_pattern(), trimmed(markdown), url)),
                None => None,
            },
        )
    } else {
        None
    }
}

/// What an optional text for the editor holds.
pub open spec fn markup_view(m: Option<MarkupContent>) -> Option<(MarkupKind, Seq<char>)> {
    match m {
        Some(m) => Some((m.kind, m.value@)),
        None => None,
    }
}

/// The text for a citation, given the Markdown of the rendering, trimmed,
/// and what putting the DOI's link in gave.
pub fn polish_markdown(trimmed_markdown: String, with_doi: Option<Option<String>>) -> (r: Option<
    MarkupContent,
>)
    ensures
        markup_view(r) == (if trimmed_markdown@.len() == 0 {
            None
        } else {
            Some(
                (
                    MarkupKind::Markdown,
                    unescaped(
                        match with_doi {
                            Some(Some(text)) => text@,
                            _ => trimmed_markdown@,
                        },
                    ),
                ),
            )
        }),
{
    if trimmed_markdown.as_str().unicode_len() == 0 {
        return None;
    }
    let markdown = match with_doi {
        Some(Some(text)) => text,
        _ => trimmed_markdown,
    };
    Some(MarkupContent { kind: MarkupKind::Markdown, value: unescape_markdown(markdown.as_str()) })
}

/// The text for a citation, given its rendering as HTML and the link for
/// the DOI; no text where the HTML is not [`convertible`].
pub fn finish_citation(html: &str, doi_url: &Option<String>) -> (r: Option<MarkupContent>)
    ensures
        markup_view(r) == (match citation_text(html@, opt_text(*doi_url)) {
            Some(text) => Some((MarkupKind::Markdown, text)),
            None => None,
        }),
{
    if !is_convertible(html) {
        return None;
    }
    let markdown = html_to_markdown(html);
    let trimmed_markdown = trim(markdown.as_str());
    let with_doi = match doi_url {
        Some(url) => Some(
            regex_replace(
                "https://doi.org/\\[.*\\]\\(.*\\)",
                trimmed_markdown.as_str(),
                url.as_str(),
            ),
        ),
        None => None,
    };
    proof {
        crate::text::lemma_trimmed_twice(markdown@);
    }
    polish_markdown(trimmed_markdown, with_doi)
}

/// Where the way from an entry to its text stands.
pub enum CitationStep {
    /// The BibTeX text is to be turned into RIS.
    Convert { bib_code: String },
    /// The reference is to be rendered as HTML.
    Render { reference: CslReference, doi_url: Option<String> },
    /// The way has ended: with the text, or without one.
    Done { content: Option<MarkupContent> },
}

/// Starts on the way from an entry to its text: the BibTeX text to convert,
/// or the end where the bibliography has no entry with the key.
pub fn render_citation(root: &bibtex::Tree, key: &str) -> (step: CitationStep)
    ensures
        match citation_source(root, key@) {
            Some(source) => step matches CitationStep::Convert { bib_code } && bib_code@ == source,
            None => step matches CitationStep::Done { content } && content is None,
        },
{
    match convert_to_ris(root, key) {
        Some(bib_code) => CitationStep::Convert { bib_code },
        None => CitationStep::Done { content: None },
    }
}

/// Goes on with the RIS text that the conversion gave (`None` where it
/// failed): the reference to render, or the end where there is no RIS text,
/// no reference with the key in it, or the reference lacks a type.
pub fn citation_converted(ris_code: Option<&str>, key: &str) -> (step: CitationStep)
    ensures
        match ris_code {
            Some(code) => match ris_reference(code@, key@) {
                Some(record) => if record.ty is Some {
                    step matches CitationStep::Render { reference, doi_url } && reference@
                        == crate::csl::csl_record(record) && opt_text(doi_url) == doi_url_markdown(
                        record.doi,
                    )
                } else {
                    step matches CitationStep::Done { content } && content is None
                },
                None => step matches CitationStep::Done { content } && content is None,
            },
            None => step matches CitationStep::Done { content } && content is None,
        },
{
    let code = match ris_code {
        Some(code) => code,
        None => {
            return CitationStep::Done { content: None };
        },
    };
    let reference = match find_reference(code, key) {
        Some(reference) => reference,
        None => {
            return CitationStep::Done { content: None };
        },
    };
    if reference.ty.is_none() {
        return CitationStep::Done { content: None };
    }
    let doi_url = get_doi_url_markdown(&reference);
    CitationStep::Render { reference: reference.into(), doi_url }
}

/// Ends the way with the HTML that the rendering gave (`None` where it gave
/// none).
pub fn citation_rendered(html: Option<&str>, doi_url: &Option<String>) -> (step: CitationStep)
    ensures
        step matches CitationStep::Done { content } && markup_view(content) == (match html {
            Some(html) => match citation_text(html@, opt_text(*doi_url)) {
                Some(text) => Some((MarkupKind::Markdown, text)),
                None => None,
            },
            None => None,
        }),
{
    match html {
        Some(html) => CitationStep::Done { content: finish_citation(html, doi_url) },
        None => CitationStep::Done { content: None },
    }
}

} // verus!
