use texlab::csl::{
    parse_date, parse_date_or_range, parse_number, CslType, Date, DateOrRange, DateVariable,
    NameVariable, NumberVariable, NumericValue, Variable,
};
use texlab::ris::{RisLibrary, RisReference, RisType};

fn lines(text: &str) -> Vec<String> {
    text.lines().map(str::to_string).collect()
}

#[test]
fn ris_type_parse_reads_upper_case_names() {
    assert_eq!(RisType::parse("JOUR"), Some(RisType::Jour));
    assert_eq!(RisType::parse("MAP"), Some(RisType::MapType));
    assert_eq!(RisType::parse("ANCIENT"), Some(RisType::Ancient));
    assert_eq!(RisType::parse("jour"), None);
    assert_eq!(RisType::parse("Jour"), None);
    assert_eq!(RisType::parse(""), None);
    assert_eq!(RisType::parse("JOURNAL"), None);
    assert_eq!(RisType::parse(" JOUR"), None);
}

#[test]
fn ris_type_parse_reads_the_value_as_a_json_string() {
    assert_eq!(RisType::parse("JO\\u0055R"), Some(RisType::Jour));
    assert_eq!(RisType::parse("JOUR\""), None);
    assert_eq!(RisType::parse("JO\\UR"), None);
    assert_eq!(RisType::from_name("JO\\u0055R"), None);
    assert_eq!(RisType::from_name("BOOK"), Some(RisType::Book));
}

#[test]
fn ris_types_map_to_csl_types() {
    assert_eq!(RisType::Abst.csl(), CslType::Article);
    assert_eq!(RisType::Aggr.csl(), CslType::Dataset);
    assert_eq!(RisType::Bill.csl(), CslType::Bill);
    assert_eq!(RisType::Blog.csl(), CslType::Webpage);
    assert_eq!(RisType::Book.csl(), CslType::Book);
    assert_eq!(RisType::Case.csl(), CslType::LegalCase);
    assert_eq!(RisType::Chap.csl(), CslType::Chapter);
    assert_eq!(RisType::Conf.csl(), CslType::PaperConference);
    assert_eq!(RisType::Dict.csl(), CslType::EntryDictionary);
    assert_eq!(RisType::Encyc.csl(), CslType::EntryEncyclopedia);
    assert_eq!(RisType::Figure.csl(), CslType::Figure);
    assert_eq!(RisType::Govdoc.csl(), CslType::Legislation);
    assert_eq!(RisType::Icomm.csl(), CslType::PersonalCommunication);
    assert_eq!(RisType::Jour.csl(), CslType::ArticleJournal);
    assert_eq!(RisType::Manscpt.csl(), CslType::Manuscript);
    assert_eq!(RisType::MapType.csl(), CslType::MapType);
    assert_eq!(RisType::Mgzn.csl(), CslType::ArticleMagazine);
    assert_eq!(RisType::Mpct.csl(), CslType::MotionPicture);
    assert_eq!(RisType::Music.csl(), CslType::Song);
    assert_eq!(RisType::News.csl(), CslType::ArticleNewspaper);
    assert_eq!(RisType::Pamp.csl(), CslType::Pamphlet);
    assert_eq!(RisType::Pat.csl(), CslType::Patent);
    assert_eq!(RisType::Rprt.csl(), CslType::Report);
    assert_eq!(RisType::Thes.csl(), CslType::Thesis);
    assert_eq!(RisType::Video.csl(), CslType::MotionPicture);
}

#[test]
fn ris_library_parse_reads_one_reference() {
    let library = RisLibrary::parse(&lines(
        "TY  - JOUR\nau  - Bar, Foo\nAU  - Qux, Baz\nTI  - Baz Qux\nshort\nER  -\nTI  - dropped",
    ));
    assert_eq!(library.references.len(), 1);
    let reference = &library.references[0];
    assert_eq!(reference.ty, Some(RisType::Jour));
    assert_eq!(reference.authors, vec!["Bar, Foo".to_string(), "Qux, Baz".to_string()]);
    assert_eq!(reference.title, Some("Baz Qux".to_string()));
    let mut expected = RisReference::new();
    expected.ty = Some(RisType::Jour);
    expected.authors = vec!["Bar, Foo".to_string(), "Qux, Baz".to_string()];
    expected.title = Some("Baz Qux".to_string());
    assert_eq!(*reference, expected);
}

#[test]
fn ris_lines_need_seven_characters_and_a_dash() {
    let library = RisLibrary::parse(&lines(
        "  TI  - padded  \nTI  -short\nTI  + wrong\nTI  -\nT\u{e9}  - accents\nPY  - 2020\n\n   \nER  -   \nER  -\n",
    ));
    assert_eq!(library.references.len(), 2);
    // The value starts at the seventh character, whatever the sixth is.
    assert_eq!(library.references[0].title, Some("hort".to_string()));
    assert_eq!(library.references[0].year, Some("2020".to_string()));
    assert_eq!(library.references[1], RisReference::new());

    let short = RisLibrary::parse(&lines("TI  - x\nER  -"));
    assert_eq!(short.references[0].title, Some("x".to_string()));
    let too_short = RisLibrary::parse(&lines("TI  - \nER  -"));
    assert_eq!(too_short.references[0].title, None);
}

#[test]
fn ris_tags_fill_their_fields() {
    let library = RisLibrary::parse(&lines(
        "ID  - id\nA2  - e1\nED  - e2\nA3  - t\nA4  - s\nAB  - old\nN2  - abstract\nAD  - addr\n\
AN  - acc\nBT  - book\nC1  - c1\nC8  - c8\nCA  - cap\nCN  - call\nCY  - place\nDA  - 2020/01/02\n\
DB  - db\nDO  - doi\nDP  - dp\nEP  - 9\nET  - 2\nIS  - 3\nJO  - j1\nJ2  - j2\nKW  - k1\nKW  - k2\n\
L1  - file\nL4  - fig\nLA  - en\nLB  - label\nM1  - 5\nM3  - work\nU1  - work2\nN1  - n1\nNV  - 4\n\
OP  - orig\nPB  - pub\nPY  - 2019\nRI  - rev\nRN  - notes\nRP  - rp\nSE  - sec\nSN  - isbn\nSP  - 1\n\
ST  - st\nT1  - t1\nT2  - t2\nT3  - t3\nTA  - ta\nTI  - title\nTT  - tt\nUR  - url\nVL  - 7\n\
Y2  - 2021\nXX  - unknown\nER  -",
    ));
    let r = &library.references[0];
    assert_eq!(r.id.as_deref(), Some("id"));
    assert_eq!(r.editors, vec!["e1", "e2"]);
    assert_eq!(r.tertiary_authors, vec!["t"]);
    assert_eq!(r.subsidiary_authors, vec!["s"]);
    assert_eq!(r.abstrct.as_deref(), Some("abstract"));
    assert_eq!(r.author_address.as_deref(), Some("addr"));
    assert_eq!(r.accession_number.as_deref(), Some("acc"));
    assert_eq!(r.book_or_conference.as_deref(), Some("book"));
    assert_eq!(r.custom1.as_deref(), Some("c1"));
    assert_eq!(r.custom2, None);
    assert_eq!(r.custom8.as_deref(), Some("c8"));
    assert_eq!(r.caption.as_deref(), Some("cap"));
    assert_eq!(r.call_number.as_deref(), Some("call"));
    assert_eq!(r.place.as_deref(), Some("place"));
    assert_eq!(r.date.as_deref(), Some("2020/01/02"));
    assert_eq!(r.name_of_database.as_deref(), Some("db"));
    assert_eq!(r.doi.as_deref(), Some("doi"));
    assert_eq!(r.database_provider.as_deref(), Some("dp"));
    assert_eq!(r.end_page.as_deref(), Some("9"));
    assert_eq!(r.edition.as_deref(), Some("2"));
    assert_eq!(r.issue.as_deref(), Some("3"));
    assert_eq!(r.journal.as_deref(), Some("j2"));
    assert_eq!(r.keywords, vec!["k1", "k2"]);
    assert_eq!(r.file_attachments, vec!["file"]);
    assert_eq!(r.figure.as_deref(), Some("fig"));
    assert_eq!(r.language.as_deref(), Some("en"));
    assert_eq!(r.label.as_deref(), Some("label"));
    assert_eq!(r.number.as_deref(), Some("5"));
    assert_eq!(r.type_of_work.as_deref(), Some("work2"));
    assert_eq!(r.notes, vec!["n1"]);
    assert_eq!(r.number_of_volumes.as_deref(), Some("4"));
    assert_eq!(r.original_publication.as_deref(), Some("orig"));
    assert_eq!(r.publisher.as_deref(), Some("pub"));
    assert_eq!(r.year.as_deref(), Some("2019"));
    assert_eq!(r.reviewed_item.as_deref(), Some("rev"));
    assert_eq!(r.research_notes.as_deref(), Some("notes"));
    assert_eq!(r.reprint_edition.as_deref(), Some("rp"));
    assert_eq!(r.section.as_deref(), Some("sec"));
    assert_eq!(r.isbn_or_issn.as_deref(), Some("isbn"));
    assert_eq!(r.start_page.as_deref(), Some("1"));
    assert_eq!(r.short_title.as_deref(), Some("st"));
    assert_eq!(r.primary_title.as_deref(), Some("t1"));
    assert_eq!(r.secondardy_title.as_deref(), Some("t2"));
    assert_eq!(r.tertiary_title.as_deref(), Some("t3"));
    assert_eq!(r.translated_authors, vec!["ta"]);
    assert_eq!(r.title.as_deref(), Some("title"));
    assert_eq!(r.translated_title.as_deref(), Some("tt"));
    assert_eq!(r.url.as_deref(), Some("url"));
    assert_eq!(r.volume.as_deref(), Some("7"));
    assert_eq!(r.access_date.as_deref(), Some("2021"));
    assert_eq!(r.ty, None);
}

#[test]
fn ris_tags_are_read_in_any_case() {
    let mut reference = RisReference::new();
    reference.set_field("TI", "a".to_string());
    reference.set_field("ti", "ignored".to_string());
    assert_eq!(reference.title.as_deref(), Some("a"));
    let library = RisLibrary::parse(&lines("ti  - lower\n\u{131}d  - dotless\nER  -"));
    assert_eq!(library.references[0].title.as_deref(), Some("lower"));
    assert_eq!(library.references[0].id.as_deref(), Some("dotless"));
}

fn lookup<K: PartialEq + Copy, V: Clone>(entries: &[(K, V)], key: K) -> Option<V> {
    entries.iter().rev().find(|(k, _)| *k == key).map(|(_, v)| v.clone())
}

#[test]
fn reference_becomes_a_csl_reference() {
    let library = RisLibrary::parse(&lines(
        "TY  - CHAP\nLB  - lbl\nAU  - A\nAU  - B\nED  - E\nDB  - database\nBT  - book\nDA  - 2020/3\n\
PY  - 1999\nY2  - soon\nUR  - u\nN1  - n1\nN1  - n2\nIS  - 3\nM1  - five\nCY  - here\nAB  - abs\n\
CN  - cn\nDO  - d\nET  - 2\nSN  - 123\nKW  - k1\nKW  - k2\nNV  - 4\nOP  - op\nSP  - 1\nEP  - 9\n\
PB  - pb\nRI  - ri\nSE  - se\nST  - st\nTI  - ti\nVL  - 7\nER  -",
    ));
    let reference = library.references.into_iter().next().unwrap();
    let csl = reference.into();
    assert_eq!(csl.id, "lbl");
    assert_eq!(csl.csl_type, CslType::Chapter);
    assert_eq!(csl.name.len(), 2);
    assert_eq!(lookup(&csl.name, NameVariable::Author), Some(vec!["A".to_string(), "B".to_string()]));
    assert_eq!(lookup(&csl.name, NameVariable::Editor), Some(vec!["E".to_string()]));

    assert_eq!(csl.ordinary.len(), 18);
    let text = |v| lookup(&csl.ordinary, v);
    assert_eq!(text(Variable::ContainerTitle).as_deref(), Some("database"));
    assert_eq!(text(Variable::CollectionTitle).as_deref(), Some("database"));
    assert_eq!(text(Variable::URL).as_deref(), Some("u"));
    assert_eq!(text(Variable::Note).as_deref(), Some("n1\nn2"));
    assert_eq!(text(Variable::EventPlace).as_deref(), Some("here"));
    assert_eq!(text(Variable::PublisherPlace).as_deref(), Some("here"));
    assert_eq!(text(Variable::Abstract).as_deref(), Some("abs"));
    assert_eq!(text(Variable::CallNumber).as_deref(), Some("cn"));
    assert_eq!(text(Variable::DOI).as_deref(), Some("d"));
    assert_eq!(text(Variable::ISBN).as_deref(), Some("123"));
    assert_eq!(text(Variable::ISSN).as_deref(), Some("123"));
    assert_eq!(text(Variable::Keyword).as_deref(), Some("k1, k2"));
    assert_eq!(text(Variable::OriginalTitle).as_deref(), Some("op"));
    assert_eq!(text(Variable::Publisher).as_deref(), Some("pb"));
    assert_eq!(text(Variable::ReviewedTitle).as_deref(), Some("ri"));
    assert_eq!(text(Variable::Section).as_deref(), Some("se"));
    assert_eq!(text(Variable::TitleShort).as_deref(), Some("st"));
    assert_eq!(text(Variable::Title).as_deref(), Some("ti"));

    assert_eq!(csl.number.len(), 6);
    let number = |v| lookup(&csl.number, v);
    assert_eq!(number(NumberVariable::Issue), Some(NumericValue::Num(3)));
    assert_eq!(number(NumberVariable::Number), Some(NumericValue::Str("five".to_string())));
    assert_eq!(number(NumberVariable::Edition), Some(NumericValue::Num(2)));
    assert_eq!(number(NumberVariable::NumberOfVolumes), Some(NumericValue::Num(4)));
    assert_eq!(number(NumberVariable::Page), Some(NumericValue::Str("1-9".to_string())));
    assert_eq!(number(NumberVariable::Volume), Some(NumericValue::Num(7)));

    assert_eq!(csl.date.len(), 3);
    let date = |v| lookup(&csl.date, v);
    let issued = DateOrRange::Single(Date { year: 2020, month: 3, day: 0 });
    assert_eq!(date(DateVariable::Issued), Some(issued.clone()));
    assert_eq!(date(DateVariable::EventDate), Some(issued));
    assert_eq!(date(DateVariable::Accessed), Some(DateOrRange::Literal("soon".to_string())));
}

#[test]
fn sparse_reference_fills_only_what_it_has() {
    let mut reference = RisReference::new();
    reference.ty = Some(RisType::Gen);
    reference.id = Some("id".to_string());
    reference.label = Some("label".to_string());
    reference.research_notes = Some("rn".to_string());
    reference.notes = vec!["ignored".to_string()];
    reference.year = Some("2001".to_string());
    reference.end_page = Some("12".to_string());
    reference.journal = Some("journal".to_string());
    reference.name_of_database = Some("db".to_string());
    let csl = reference.into();
    assert_eq!(csl.id, "id");
    assert_eq!(csl.csl_type, CslType::Article);
    assert_eq!(lookup(&csl.name, NameVariable::Author), Some(vec![]));
    assert_eq!(lookup(&csl.ordinary, Variable::Note).as_deref(), Some("rn"));
    assert_eq!(lookup(&csl.ordinary, Variable::Keyword).as_deref(), Some(""));
    assert_eq!(lookup(&csl.ordinary, Variable::ContainerTitle).as_deref(), Some("journal"));
    assert_eq!(lookup(&csl.ordinary, Variable::Title), None);
    assert_eq!(csl.ordinary.len(), 4);
    assert_eq!(csl.number, vec![(NumberVariable::Page, NumericValue::Num(12))]);
    assert_eq!(
        lookup(&csl.date, DateVariable::Issued),
        Some(DateOrRange::Single(Date { year: 2001, month: 0, day: 0 }))
    );
    assert_eq!(lookup(&csl.date, DateVariable::Accessed), None);
}

#[test]
fn dates_are_read_part_by_part() {
    assert_eq!(parse_date("2020"), Some(Date { year: 2020, month: 0, day: 0 }));
    assert_eq!(parse_date("2020/5"), Some(Date { year: 2020, month: 5, day: 0 }));
    assert_eq!(parse_date("2020/05/17"), Some(Date { year: 2020, month: 5, day: 17 }));
    assert_eq!(parse_date("2020/05/17/extra"), Some(Date { year: 2020, month: 5, day: 17 }));
    assert_eq!(parse_date("2020/x/17"), Some(Date { year: 2020, month: 0, day: 0 }));
    assert_eq!(parse_date("2020//"), Some(Date { year: 2020, month: 0, day: 0 }));
    assert_eq!(parse_date("2020/5/x"), Some(Date { year: 2020, month: 5, day: 0 }));
    assert_eq!(parse_date("-44/3/15"), Some(Date { year: -44, month: 3, day: 15 }));
    assert_eq!(parse_date("spring"), None);
    assert_eq!(parse_date(""), None);
    assert_eq!(parse_date("/5"), None);
    assert_eq!(
        parse_date_or_range("spring".to_string()),
        DateOrRange::Literal("spring".to_string())
    );
    assert_eq!(
        parse_date_or_range("1/2/3".to_string()),
        DateOrRange::Single(Date { year: 1, month: 2, day: 3 })
    );
    assert_eq!(parse_number("12".to_string()), NumericValue::Num(12));
    assert_eq!(parse_number("+12".to_string()), NumericValue::Num(12));
    assert_eq!(parse_number("12a".to_string()), NumericValue::Str("12a".to_string()));
    assert_eq!(parse_number("-1".to_string()), NumericValue::Str("-1".to_string()));
}

#[test]
fn a_value_is_put_between_double_quotes_to_be_read() {
    assert_eq!(texlab::ris::quote("JOUR"), "\"JOUR\"");
    assert_eq!(texlab::ris::quote(""), "\"\"");
    assert_eq!(texlab::ris::quote("a\"b"), "\"a\"b\"");
    assert_eq!(RisType::parse("\", \""), None);
    assert_eq!(RisType::parse("\\u004aOUR"), Some(RisType::Jour));
}
