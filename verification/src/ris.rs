//! The RIS bibliographic format: records of two-letter tag lines, each closed
//! by an `ER` line.

use crate::csl::CslType;
use crate::text::{
    chars_of, opt_text, slice_is, str_eq, string_of, texts, to_uppercase, trim_bounds, trimmed,
    uppercased,
};
use vstd::prelude::*;

verus! {

/// The kind of a reference, as the `TY` tag names it.
#[derive(Debug, PartialEq, Eq, Clone, Copy, Structural)]
pub enum RisType {
    Abst,
    Advs,
    Aggr,
    Ancient,
    Art,
    Bill,
    Blog,
    Book,
    Case,
    Chap,
    Chart,
    Clswk,
    Comp,
    Conf,
    Cpaper,
    Ctlg,
    Data,
    Dbase,
    Dict,
    Ebook,
    Echap,
    Edbook,
    Ejour,
    Elec,
    Encyc,
    Equa,
    Figure,
    Gen,
    Govdoc,
    Grant,
    Hear,
    Icomm,
    Inpr,
    Jfull,
    Jour,
    Legal,
    Manscpt,
    MapType,
    Mgzn,
    Mpct,
    Multi,
    Music,
    News,
    Pamp,
    Pat,
    Pcomm,
    Rprt,
    Ser,
    Slide,
    Sound,
    Stand,
    Stat,
    Std,
    Thes,
    Unpb,
    Video,
}

/// The text that a JSON text denotes where it is a string literal; `None`
/// where it is none.
pub uninterp spec fn json_string_value(literal: Seq<char>) -> Option<Seq<char>>;

/// `serde_json::from_str`, asked for a `String`: the text that the JSON
/// text denotes, named [`json_string_value`], or `None` where serde_json
/// reports an error.
#[verifier::external_body]
fn decode_json_string(literal: &str) -> (r: Option<String>)
    ensures
        opt_text(r) == json_string_value(literal@),
{
    serde_json::from_str::<String>(literal).ok()
}

/// A text between double quotes.
pub open spec fn quoted(body: Seq<char>) -> Seq<char> {
    seq!['"'] + body + seq!['"']
}

/// Puts a text between double quotes.
pub fn quote(body: &str) -> (r: String)
    ensures
        r@ == quoted(body@),
{
    proof {
        reveal_strlit("\"");
    }
    let mut literal = "\"".to_owned();
    literal.append(body);
    literal.append("\"");
    proof {
        assert("\""@ =~= seq!['"']);
    }
    literal
}

/// The type that a name spells, if any.
pub open spec fn ris_type_named(name: Seq<char>) -> Option<RisType> {
    if exists|t: RisType| t.name() == name {
        Some(choose|t: RisType| t.name() == name)
    } else {
        None
    }
}

/// The type that the value of a `TY` line stands for: the value is put
/// between double quotes and read as a JSON string, and the decoded text as
/// a type's name.
pub open spec fn ris_type_of(value: Seq<char>) -> Option<RisType> {
    match json_string_value(quoted(value)) {
        Some(name) => ris_type_named(name),
        None => None,
    }
}

/// No two types share a name.
pub proof fn lemma_ris_type_names_distinct()
    ensures
        forall|a: RisType, b: RisType| #[trigger] a.name() == #[trigger] b.name() ==> a == b,
{
    reveal_strlit("ABST");
    reveal_strlit("ADVS");
    reveal_strlit("AGGR");
    reveal_strlit("ANCIENT");
    reveal_strlit("ART");
    reveal_strlit("BILL");
    reveal_strlit("BLOG");
    reveal_strlit("BOOK");
    reveal_strlit("CASE");
    reveal_strlit("CHAP");
    reveal_strlit("CHART");
    reveal_strlit("CLSWK");
    reveal_strlit("COMP");
    reveal_strlit("CONF");
    reveal_strlit("CPAPER");
    reveal_strlit("CTLG");
    reveal_strlit("DATA");
    reveal_strlit("DBASE");
    reveal_strlit("DICT");
    reveal_strlit("EBOOK");
    reveal_strlit("ECHAP");
    reveal_strlit("EDBOOK");
    reveal_strlit("EJOUR");
    reveal_strlit("ELEC");
    reveal_strlit("ENCYC");
    reveal_strlit("EQUA");
    reveal_strlit("FIGURE");
    reveal_strlit("GEN");
    reveal_strlit("GOVDOC");
    reveal_strlit("GRANT");
    reveal_strlit("HEAR");
    reveal_strlit("ICOMM");
    reveal_strlit("INPR");
    reveal_strlit("JFULL");
    reveal_strlit("JOUR");
    reveal_strlit("LEGAL");
    reveal_strlit("MANSCPT");
    reveal_strlit("MAP");
    reveal_strlit("MGZN");
    reveal_strlit("MPCT");
    reveal_strlit("MULTI");
    reveal_strlit("MUSIC");
    reveal_strlit("NEWS");
    reveal_strlit("PAMP");
    reveal_strlit("PAT");
    reveal_strlit("PCOMM");
    reveal_strlit("RPRT");
    reveal_strlit("SER");
    reveal_strlit("SLIDE");
    reveal_strlit("SOUND");
    reveal_strlit("STAND");
    reveal_strlit("STAT");
    reveal_strlit("STD");
    reveal_strlit("THES");
    reveal_strlit("UNPB");
    reveal_strlit("VIDEO");
    assert forall|a: RisType, b: RisType| #[trigger] a.name() == #[trigger] b.name() implies a
        == b by {
        let x = a.name();
        let y = b.name();
        assert(x.len() == y.len());
        assert(x[0] == y[0]);
        assert(x[1] == y[1]);
        assert(x[2] == y[2]);
        assert(x[3] == y[3]);
    }
}

impl RisType {
    /// The name of the type: the variant's name in upper case.
    pub open spec fn name(self) -> Seq<char> {
        match self {
            RisType::Abst => "ABST"@,
            RisType::Advs => "ADVS"@,
            RisType::Aggr => "AGGR"@,
            RisType::Ancient => "ANCIENT"@,
            RisType::Art => "ART"@,
            RisType::Bill => "BILL"@,
            RisType::Blog => "BLOG"@,
            RisType::Book => "BOOK"@,
            RisType::Case => "CASE"@,
            RisType::Chap => "CHAP"@,
            RisType::Chart => "CHART"@,
            RisType::Clswk => "CLSWK"@,
            RisType::Comp => "COMP"@,
            RisType::Conf => "CONF"@,
            RisType::Cpaper => "CPAPER"@,
            RisType::Ctlg => "CTLG"@,
            RisType::Data => "DATA"@,
            RisType::Dbase => "DBASE"@,
            RisType::Dict => "DICT"@,
            RisType::Ebook => "EBOOK"@,
            RisType::Echap => "ECHAP"@,
            RisType::Edbook => "EDBOOK"@,
            RisType::Ejour => "EJOUR"@,
            RisType::Elec => "ELEC"@,
            RisType::Encyc => "ENCYC"@,
            RisType::Equa => "EQUA"@,
            RisType::Figure => "FIGURE"@,
            RisType::Gen => "GEN"@,
            RisType::Govdoc => "GOVDOC"@,
            RisType::Grant => "GRANT"@,
            RisType::Hear => "HEAR"@,
            RisType::Icomm => "ICOMM"@,
            RisType::Inpr => "INPR"@,
            RisType::Jfull => "JFULL"@,
            RisType::Jour => "JOUR"@,
            RisType::Legal => "LEGAL"@,
            RisType::Manscpt => "MANSCPT"@,
            RisType::MapType => "MAP"@,
            RisType::Mgzn => "MGZN"@,
            RisType::Mpct => "MPCT"@,
            RisType::Multi => "MULTI"@,
            RisType::Music => "MUSIC"@,
            RisType::News => "NEWS"@,
            RisType::Pamp => "PAMP"@,
            RisType::Pat => "PAT"@,
            RisType::Pcomm => "PCOMM"@,
            RisType::Rprt => "RPRT"@,
            RisType::Ser => "SER"@,
            RisType::Slide => "SLIDE"@,
            RisType::Sound => "SOUND"@,
            RisType::Stand => "STAND"@,
            RisType::Stat => "STAT"@,
            RisType::Std => "STD"@,
            RisType::Thes => "THES"@,
            RisType::Unpb => "UNPB"@,
            RisType::Video => "VIDEO"@,
        }
    }

    /// The CSL type that a reference of this type is rendered as.
    pub open spec fn csl_type(self) -> CslType {
        match self {
            RisType::Abst
            | RisType::Advs
            | RisType::Ancient
            | RisType::Art
            | RisType::Chart
            | RisType::Clswk
            | RisType::Comp
            | RisType::Elec
            | RisType::Equa
            | RisType::Gen
            | RisType::Hear
            | RisType::Ser
            | RisType::Slide
            | RisType::Stand
            | RisType::Std
            | RisType::Unpb => CslType::Article,
            RisType::Aggr
            | RisType::Data
            | RisType::Dbase => CslType::Dataset,
            RisType::Bill => CslType::Bill,
            RisType::Blog
            | RisType::Multi => CslType::Webpage,
            RisType::Book
            | RisType::Ctlg
            | RisType::Ebook
            | RisType::Edbook => CslType::Book,
            RisType::Case => CslType::LegalCase,
            RisType::Chap
            | RisType::Echap => CslType::Chapter,
            RisType::Conf
            | RisType::Cpaper
            | RisType::Inpr => CslType::PaperConference,
            RisType::Dict => CslType::EntryDictionary,
            RisType::Ejour
            | RisType::Jfull
            | RisType::Jour => CslType::ArticleJournal,
            RisType::Encyc => CslType::EntryEncyclopedia,
            RisType::Figure => CslType::Figure,
            RisType::Govdoc
            | RisType::Grant
            | RisType::Legal
            | RisType::Stat => CslType::Legislation,
            RisType::Icomm
            | RisType::Pcomm => CslType::PersonalCommunication,
            RisType::Manscpt => CslType::Manuscript,
            RisType::MapType => CslType::MapType,
            RisType::Mgzn => CslType::ArticleMagazine,
            RisType::Mpct
            | RisType::Video => CslType::MotionPicture,
            RisType::Music
            | RisType::Sound => CslType::Song,
            RisType::News => CslType::ArticleNewspaper,
            RisType::Pamp => CslType::Pamphlet,
            RisType::Pat => CslType::Patent,
            RisType::Rprt => CslType::Report,
            RisType::Thes => CslType::Thesis,
        }
    }

    /// The type with the given name.
    pub fn from_name(name: &str) -> (r: Option<RisType>)
        ensures
            r == ris_type_named(name@),
    {
        proof {
            lemma_ris_type_names_distinct();
        }
        let chars = chars_of(name);
        let n = chars.len();
        proof {
            assert(chars@.subrange(0, n as int) =~= name@);
        }
        if slice_is(&chars, 0, n, "ABST") {
            proof {
                assert(RisType::Abst.name() == name@);
            }
            return Some(RisType::Abst);
        }
        if slice_is(&chars, 0, n, "ADVS") {
            proof {
                assert(RisType::Advs.name() == name@);
            }
            return Some(RisType::Advs);
        }
        if slice_is(&chars, 0, n, "AGGR") {
            proof {
                assert(RisType::Aggr.name() == name@);
            }
            return Some(RisType::Aggr);
        }
        if slice_is(&chars, 0, n, "ANCIENT") {
            proof {
                assert(RisType::Ancient.name() == name@);
            }
            return Some(RisType::Ancient);
        }
        if slice_is(&chars, 0, n, "ART") {
            proof {
                assert(RisType::Art.name() == name@);
            }
            return Some(RisType::Art);
        }
        if slice_is(&chars, 0, n, "BILL") {
            proof {
                assert(RisType::Bill.name() == name@);
            }
            return Some(RisType::Bill);
        }
        if slice_is(&chars, 0, n, "BLOG") {
            proof {
                assert(RisType::Blog.name() == name@);
            }
            return Some(RisType::Blog);
        }
        if slice_is(&chars, 0, n, "BOOK") {
            proof {
                assert(RisType::Book.name() == name@);
            }
            return Some(RisType::Book);
        }
        if slice_is(&chars, 0, n, "CASE") {
            proof {
                assert(RisType::Case.name() == name@);
            }
            return Some(RisType::Case);
        }
        if slice_is(&chars, 0, n, "CHAP") {
            proof {
                assert(RisType::Chap.name() == name@);
            }
            return Some(RisType::Chap);
        }
        if slice_is(&chars, 0, n, "CHART") {
            proof {
                assert(RisType::Chart.name() == name@);
            }
            return Some(RisType::Chart);
        }
        if slice_is(&chars, 0, n, "CLSWK") {
            proof {
                assert(RisType::Clswk.name() == name@);
            }
            return Some(RisType::Clswk);
        }
        if slice_is(&chars, 0, n, "COMP") {
            proof {
                assert(RisType::Comp.name() == name@);
            }
            return Some(RisType::Comp);
        }
        if slice_is(&chars, 0, n, "CONF") {
            proof {
                assert(RisType::Conf.name() == name@);
            }
            return Some(RisType::Conf);
        }
        if slice_is(&chars, 0, n, "CPAPER") {
            proof {
                assert(RisType::Cpaper.name() == name@);
            }
            return Some(RisType::Cpaper);
        }
        if slice_is(&chars, 0, n, "CTLG") {
            proof {
                assert(RisType::Ctlg.name() == name@);
            }
            return Some(RisType::Ctlg);
        }
        if slice_is(&chars, 0, n, "DATA") {
            proof {
                assert(RisType::Data.name() == name@);
            }
            return Some(RisType::Data);
        }
        if slice_is(&chars, 0, n, "DBASE") {
            proof {
                assert(RisType::Dbase.name() == name@);
            }
            return Some(RisType::Dbase);
        }
        if slice_is(&chars, 0, n, "DICT") {
            proof {
                assert(RisType::Dict.name() == name@);
            }
            return Some(RisType::Dict);
        }
        if slice_is(&chars, 0, n, "EBOOK") {
            proof {
                assert(RisType::Ebook.name() == name@);
            }
            return Some(RisType::Ebook);
        }
        if slice_is(&chars, 0, n, "ECHAP") {
            proof {
                assert(RisType::Echap.name() == name@);
            }
            return Some(RisType::Echap);
        }
        if slice_is(&chars, 0, n, "EDBOOK") {
            proof {
                assert(RisType::Edbook.name() == name@);
            }
            return Some(RisType::Edbook);
        }
        if slice_is(&chars, 0, n, "EJOUR") {
            proof {
                assert(RisType::Ejour.name() == name@);
            }
            return Some(RisType::Ejour);
        }
        if slice_is(&chars, 0, n, "ELEC") {
            proof {
                assert(RisType::Elec.name() == name@);
            }
            return Some(RisType::Elec);
        }
        if slice_is(&chars, 0, n, "ENCYC") {
            proof {
                assert(RisType::Encyc.name() == name@);
            }
            return Some(RisType::Encyc);
        }
        if slice_is(&chars, 0, n, "EQUA") {
            proof {
                assert(RisType::Equa.name() == name@);
            }
            return Some(RisType::Equa);
        }
        if slice_is(&chars, 0, n, "FIGURE") {
            proof {
                assert(RisType::Figure.name() == name@);
            }
            return Some(RisType::Figure);
        }
        if slice_is(&chars, 0, n, "GEN") {
            proof {
                assert(RisType::Gen.name() == name@);
            }
            return Some(RisType::Gen);
        }
        if slice_is(&chars, 0, n, "GOVDOC") {
            proof {
                assert(RisType::Govdoc.name() == name@);
            }
            return Some(RisType::Govdoc);
        }
        if slice_is(&chars, 0, n, "GRANT") {
            proof {
                assert(RisType::Grant.name() == name@);
            }
            return Some(RisType::Grant);
        }
        if slice_is(&chars, 0, n, "HEAR") {
            proof {
                assert(RisType::Hear.name() == name@);
            }
            return Some(RisType::Hear);
        }
        if slice_is(&chars, 0, n, "ICOMM") {
            proof {
                assert(RisType::Icomm.name() == name@);
            }
            return Some(RisType::Icomm);
        }
        if slice_is(&chars, 0, n, "INPR") {
            proof {
                assert(RisType::Inpr.name() == name@);
            }
            return Some(RisType::Inpr);
        }
        if slice_is(&chars, 0, n, "JFULL") {
            proof {
                assert(RisType::Jfull.name() == name@);
            }
            return Some(RisType::Jfull);
        }
        if slice_is(&chars, 0, n, "JOUR") {
            proof {
                assert(RisType::Jour.name() == name@);
            }
            return Some(RisType::Jour);
        }
        if slice_is(&chars, 0, n, "LEGAL") {
            proof {
                assert(RisType::Legal.name() == name@);
            }
            return Some(RisType::Legal);
        }
        if slice_is(&chars, 0, n, "MANSCPT") {
            proof {
                assert(RisType::Manscpt.name() == name@);
            }
            return Some(RisType::Manscpt);
        }
        if slice_is(&chars, 0, n, "MAP") {
            proof {
                assert(RisType::MapType.name() == name@);
            }
            return Some(RisType::MapType);
        }
        if slice_is(&chars, 0, n, "MGZN") {
            proof {
                assert(RisType::Mgzn.name() == name@);
            }
            return Some(RisType::Mgzn);
        }
        if slice_is(&chars, 0, n, "MPCT") {
            proof {
                assert(RisType::Mpct.name() == name@);
            }
            return Some(RisType::Mpct);
        }
        if slice_is(&chars, 0, n, "MULTI") {
            proof {
                assert(RisType::Multi.name() == name@);
            }
            return Some(RisType::Multi);
        }
        if slice_is(&chars, 0, n, "MUSIC") {
            proof {
                assert(RisType::Music.name() == name@);
            }
            return Some(RisType::Music);
        }
        if slice_is(&chars, 0, n, "NEWS") {
            proof {
                assert(RisType::News.name() == name@);
            }
            return Some(RisType::News);
        }
        if slice_is(&chars, 0, n, "PAMP") {
            proof {
                assert(RisType::Pamp.name() == name@);
            }
            return Some(RisType::Pamp);
        }
        if slice_is(&chars, 0, n, "PAT") {
            proof {
                assert(RisType::Pat.name() == name@);
            }
            return Some(RisType::Pat);
        }
        if slice_is(&chars, 0, n, "PCOMM") {
            proof {
                assert(RisType::Pcomm.name() == name@);
            }
            return Some(RisType::Pcomm);
        }
        if slice_is(&chars, 0, n, "RPRT") {
            proof {
                assert(RisType::Rprt.name() == name@);
            }
            return Some(RisType::Rprt);
        }
        if slice_is(&chars, 0, n, "SER") {
            proof {
                assert(RisType::Ser.name() == name@);
            }
            return Some(RisType::Ser);
        }
        if slice_is(&chars, 0, n, "SLIDE") {
            proof {
                assert(RisType::Slide.name() == name@);
            }
            return Some(RisType::Slide);
        }
        if slice_is(&chars, 0, n, "SOUND") {
            proof {
                assert(RisType::Sound.name() == name@);
            }
            return Some(RisType::Sound);
        }
        if slice_is(&chars, 0, n, "STAND") {
            proof {
                assert(RisType::Stand.name() == name@);
            }
            return Some(RisType::Stand);
        }
        if slice_is(&chars, 0, n, "STAT") {
            proof {
                assert(RisType::Stat.name() == name@);
            }
            return Some(RisType::Stat);
        }
        if slice_is(&chars, 0, n, "STD") {
            proof {
                assert(RisType::Std.name() == name@);
            }
            return Some(RisType::Std);
        }
        if slice_is(&chars, 0, n, "THES") {
            proof {
                assert(RisType::Thes.name() == name@);
            }
            return Some(RisType::Thes);
        }
        if slice_is(&chars, 0, n, "UNPB") {
            proof {
                assert(RisType::Unpb.name() == name@);
            }
            return Some(RisType::Unpb);
        }
        if slice_is(&chars, 0, n, "VIDEO") {
            proof {
                assert(RisType::Video.name() == name@);
            }
            return Some(RisType::Video);
        }
        proof {
            assert(forall|t: RisType| t.name() != name@);
        }
        None
    }

    /// Reads the value of a `TY` line.
    pub fn parse(ty: &str) -> (r: Option<RisType>)
        ensures
            r == ris_type_of(ty@),
    {
        match decode_json_string(quote(ty).as_str()) {
            Some(name) => RisType::from_name(name.as_str()),
            None => None,
        }
    }

    /// The CSL type that a reference of this type is rendered as.
    pub fn csl(self) -> (r: CslType)
        ensures
            r == self.csl_type(),
    {
        match self {
            RisType::Abst => CslType::Article,
            RisType::Advs => CslType::Article,
            RisType::Aggr => CslType::Dataset,
            RisType::Ancient => CslType::Article,
            RisType::Art => CslType::Article,
            RisType::Bill => CslType::Bill,
            RisType::Blog => CslType::Webpage,
            RisType::Book => CslType::Book,
            RisType::Case => CslType::LegalCase,
            RisType::Chap => CslType::Chapter,
            RisType::Chart => CslType::Article,
            RisType::Clswk => CslType::Article,
            RisType::Comp => CslType::Article,
            RisType::Conf => CslType::PaperConference,
            RisType::Cpaper => CslType::PaperConference,
            RisType::Ctlg => CslType::Book,
            RisType::Data => CslType::Dataset,
            RisType::Dbase => CslType::Dataset,
            RisType::Dict => CslType::EntryDictionary,
            RisType::Ebook => CslType::Book,
            RisType::Echap => CslType::Chapter,
            RisType::Edbook => CslType::Book,
            RisType::Ejour => CslType::ArticleJournal,
            RisType::Elec => CslType::Article,
            RisType::Encyc => CslType::EntryEncyclopedia,
            RisType::Equa => CslType::Article,
            RisType::Figure => CslType::Figure,
            RisType::Gen => CslType::Article,
            RisType::Govdoc => CslType::Legislation,
            RisType::Grant => CslType::Legislation,
            RisType::Hear => CslType::Article,
            RisType::Icomm => CslType::PersonalCommunication,
            RisType::Inpr => CslType::PaperConference,
            RisType::Jfull => CslType::ArticleJournal,
            RisType::Jour => CslType::ArticleJournal,
            RisType::Legal => CslType::Legislation,
            RisType::Manscpt => CslType::Manuscript,
            RisType::MapType => CslType::MapType,
            RisType::Mgzn => CslType::ArticleMagazine,
            RisType::Mpct => CslType::MotionPicture,
            RisType::Multi => CslType::Webpage,
            RisType::Music => CslType::Song,
            RisType::News => CslType::ArticleNewspaper,
            RisType::Pamp => CslType::Pamphlet,
            RisType::Pat => CslType::Patent,
            RisType::Pcomm => CslType::PersonalCommunication,
            RisType::Rprt => CslType::Report,
            RisType::Ser => CslType::Article,
            RisType::Slide => CslType::Article,
            RisType::Sound => CslType::Song,
            RisType::Stand => CslType::Article,
            RisType::Stat => CslType::Legislation,
            RisType::Std => CslType::Article,
            RisType::Thes => CslType::Thesis,
            RisType::Unpb => CslType::Article,
            RisType::Video => CslType::MotionPicture,
        }
    }
}

/// One reference, as its tag lines gave it.
#[derive(Debug, PartialEq, Eq, Clone)]
pub struct RisReference {
    pub id: Option<String>,
    pub ty: Option<RisType>,
    pub editors: Vec<String>,
    pub tertiary_authors: Vec<String>,
    pub subsidiary_authors: Vec<String>,
    pub abstrct: Option<String>,
    pub author_address: Option<String>,
    pub accession_number: Option<String>,
    pub authors: Vec<String>,
    pub book_or_conference: Option<String>,
    pub custom1: Option<String>,
    pub custom2: Option<String>,
    pub custom3: Option<String>,
    pub custom4: Option<String>,
    pub custom5: Option<String>,
    pub custom6: Option<String>,
    pub custom7: Option<String>,
    pub custom8: Option<String>,
    pub caption: Option<String>,
    pub call_number: Option<String>,
    pub place: Option<String>,
    pub date: Option<String>,
    pub name_of_database: Option<String>,
    pub doi: Option<String>,
    pub database_provider: Option<String>,
    pub end_page: Option<String>,
    pub edition: Option<String>,
    pub issue: Option<String>,
    pub journal: Option<String>,
    pub keywords: Vec<String>,
    pub file_attachments: Vec<String>,
    pub figure: Option<String>,
    pub language: Option<String>,
    pub label: Option<String>,
    pub number: Option<String>,
    pub type_of_work: Option<String>,
    pub notes: Vec<String>,
    pub number_of_volumes: Option<String>,
    pub original_publication: Option<String>,
    pub publisher: Option<String>,
    pub year: Option<String>,
    pub reviewed_item: Option<String>,
    pub research_notes: Option<String>,
    pub reprint_edition: Option<String>,
    pub section: Option<String>,
    pub isbn_or_issn: Option<String>,
    pub start_page: Option<String>,
    pub short_title: Option<String>,
    pub primary_title: Option<String>,
    pub secondardy_title: Option<String>,
    pub tertiary_title: Option<String>,
    pub translated_authors: Vec<String>,
    pub title: Option<String>,
    pub translated_title: Option<String>,
    pub url: Option<String>,
    pub volume: Option<String>,
    pub access_date: Option<String>,
}

/// What a [`RisReference`] holds, as plain values.
pub ghost struct RisRecord {
    pub id: Option<Seq<char>>,
    pub ty: Option<RisType>,
    pub editors: Seq<Seq<char>>,
    pub tertiary_authors: Seq<Seq<char>>,
    pub subsidiary_authors: Seq<Seq<char>>,
    pub abstrct: Option<Seq<char>>,
    pub author_address: Option<Seq<char>>,
    pub accession_number: Option<Seq<char>>,
    pub authors: Seq<Seq<char>>,
    pub book_or_conference: Option<Seq<char>>,
    pub custom1: Option<Seq<char>>,
    pub custom2: Option<Seq<char>>,
    pub custom3: Option<Seq<char>>,
    pub custom4: Option<Seq<char>>,
    pub custom5: Option<Seq<char>>,
    pub custom6: Option<Seq<char>>,
    pub custom7: Option<Seq<char>>,
    pub custom8: Option<Seq<char>>,
    pub caption: Option<Seq<char>>,
    pub call_number: Option<Seq<char>>,
    pub place: Option<Seq<char>>,
    pub date: Option<Seq<char>>,
    pub name_of_database: Option<Seq<char>>,
    pub doi: Option<Seq<char>>,
    pub database_provider: Option<Seq<char>>,
    pub end_page: Option<Seq<char>>,
    pub edition: Option<Seq<char>>,
    pub issue: Option<Seq<char>>,
    pub journal: Option<Seq<char>>,
    pub keywords: Seq<Seq<char>>,
    pub file_attachments: Seq<Seq<char>>,
    pub figure: Option<Seq<char>>,
    pub language: Option<Seq<char>>,
    pub label: Option<Seq<char>>,
    pub number: Option<Seq<char>>,
    pub type_of_work: Option<Seq<char>>,
    pub notes: Seq<Seq<char>>,
    pub number_of_volumes: Option<Seq<char>>,
    pub original_publication: Option<Seq<char>>,
    pub publisher: Option<Seq<char>>,
    pub year: Option<Seq<char>>,
    pub reviewed_item: Option<Seq<char>>,
    pub research_notes: Option<Seq<char>>,
    pub reprint_edition: Option<Seq<char>>,
    pub section: Option<Seq<char>>,
    pub isbn_or_issn: Option<Seq<char>>,
    pub start_page: Option<Seq<char>>,
    pub short_title: Option<Seq<char>>,
    pub primary_title: Option<Seq<char>>,
    pub secondardy_title: Option<Seq<char>>,
    pub tertiary_title: Option<Seq<char>>,
    pub translated_authors: Seq<Seq<char>>,
    pub title: Option<Seq<char>>,
    pub translated_title: Option<Seq<char>>,
    pub url: Option<Seq<char>>,
    pub volume: Option<Seq<char>>,
    pub access_date: Option<Seq<char>>,
}

impl RisRecord {
    /// The record of a reference that no line has touched.
    pub open spec fn empty() -> RisRecord {
        RisRecord {
            id: None,
            ty: None,
            editors: Seq::empty(),
            tertiary_authors: Seq::empty(),
            subsidiary_authors: Seq::empty(),
            abstrct: None,
            author_address: None,
            accession_number: None,
            authors: Seq::empty(),
            book_or_conference: None,
            custom1: None,
            custom2: None,
            custom3: None,
            custom4: None,
            custom5: None,
            custom6: None,
            custom7: None,
            custom8: None,
            caption: None,
            call_number: None,
            place: None,
            date: None,
            name_of_database: None,
            doi: None,
            database_provider: None,
            end_page: None,
            edition: None,
            issue: None,
            journal: None,
            keywords: Seq::empty(),
            file_attachments: Seq::empty(),
            figure: None,
            language: None,
            label: None,
            number: None,
            type_of_work: None,
            notes: Seq::empty(),
            number_of_volumes: None,
            original_publication: None,
            publisher: None,
            year: None,
            reviewed_item: None,
            research_notes: None,
            reprint_edition: None,
            section: None,
            isbn_or_issn: None,
            start_page: None,
            short_title: None,
            primary_title: None,
            secondardy_title: None,
            tertiary_title: None,
            translated_authors: Seq::empty(),
            title: None,
            translated_title: None,
            url: None,
            volume: None,
            access_date: None,
        }
    }

    /// The record after a line with the given tag (in upper case) and value.
    /// A tag that fills a list appends to it; any other known tag replaces
    /// what was there; an unknown tag changes nothing.
    pub open spec fn with_field(self, key: Seq<char>, value: Seq<char>) -> RisRecord {
        if key == "TY"@ {
            RisRecord { ty: ris_type_of(value), ..self }
        } else if key == "A2"@ {
            RisRecord { editors: self.editors.push(value), ..self }
        } else if key == "A3"@ {
            RisRecord { tertiary_authors: self.tertiary_authors.push(value), ..self }
        } else if key == "A4"@ {
            RisRecord { subsidiary_authors: self.subsidiary_authors.push(value), ..self }
        } else if key == "AB"@ {
            RisRecord { abstrct: Some(value), ..self }
        } else if key == "AD"@ {
            RisRecord { author_address: Some(value), ..self }
        } else if key == "AN"@ {
            RisRecord { accession_number: Some(value), ..self }
        } else if key == "AU"@ {
            RisRecord { authors: self.authors.push(value), ..self }
        } else if key == "BT"@ {
            RisRecord { book_or_conference: Some(value), ..self }
        } else if key == "C1"@ {
            RisRecord { custom1: Some(value), ..self }
        } else if key == "C2"@ {
            RisRecord { custom2: Some(value), ..self }
        } else if key == "C3"@ {
            RisRecord { custom3: Some(value), ..self }
        } else if key == "C4"@ {
            RisRecord { custom4: Some(value), ..self }
        } else if key == "C5"@ {
            RisRecord { custom5: Some(value), ..self }
        } else if key == "C6"@ {
            RisRecord { custom6: Some(value), ..self }
        } else if key == "C7"@ {
            RisRecord { custom7: Some(value), ..self }
        } else if key == "C8"@ {
            RisRecord { custom8: Some(value), ..self }
        } else if key == "CA"@ {
            RisRecord { caption: Some(value), ..self }
        } else if key == "CN"@ {
            RisRecord { call_number: Some(value), ..self }
        } else if key == "CY"@ {
            RisRecord { place: Some(value), ..self }
        } else if key == "DA"@ {
            RisRecord { date: Some(value), ..self }
        } else if key == "DB"@ {
            RisRecord { name_of_database: Some(value), ..self }
        } else if key == "DO"@ {
            RisRecord { doi: Some(value), ..self }
        } else if key == "DP"@ {
            RisRecord { database_provider: Some(value), ..self }
        } else if key == "ED"@ {
            RisRecord { editors: self.editors.push(value), ..self }
        } else if key == "EP"@ {
            RisRecord { end_page: Some(value), ..self }
        } else if key == "ET"@ {
            RisRecord { edition: Some(value), ..self }
        } else if key == "ID"@ {
            RisRecord { id: Some(value), ..self }
        } else if key == "IS"@ {
            RisRecord { issue: Some(value), ..self }
        } else if key == "JO"@ {
            RisRecord { journal: Some(value), ..self }
        } else if key == "J2"@ {
            RisRecord { journal: Some(value), ..self }
        } else if key == "KW"@ {
            RisRecord { keywords: self.keywords.push(value), ..self }
        } else if key == "L1"@ {
            RisRecord { file_attachments: self.file_attachments.push(value), ..self }
        } else if key == "L4"@ {
            RisRecord { figure: Some(value), ..self }
        } else if key == "LA"@ {
            RisRecord { language: Some(value), ..self }
        } else if key == "LB"@ {
            RisRecord { label: Some(value), ..self }
        } else if key == "M1"@ {
            RisRecord { number: Some(value), ..self }
        } else if key == "M3"@ {
            RisRecord { type_of_work: Some(value), ..self }
        } else if key == "N1"@ {
            RisRecord { notes: self.notes.push(value), ..self }
        } else if key == "N2"@ {
            RisRecord { abstrct: Some(value), ..self }
        } else if key == "NV"@ {
            RisRecord { number_of_volumes: Some(value), ..self }
        } else if key == "OP"@ {
            RisRecord { original_publication: Some(value), ..self }
        } else if key == "PB"@ {
            RisRecord { publisher: Some(value), ..self }
        } else if key == "PY"@ {
            RisRecord { year: Some(value), ..self }
        } else if key == "RI"@ {
            RisRecord { reviewed_item: Some(value), ..self }
        } else if key == "RN"@ {
            RisRecord { research_notes: Some(value), ..self }
        } else if key == "RP"@ {
            RisRecord { reprint_edition: Some(value), ..self }
        } else if key == "SE"@ {
            RisRecord { section: Some(value), ..self }
        } else if key == "SN"@ {
            RisRecord { isbn_or_issn: Some(value), ..self }
        } else if key == "SP"@ {
            RisRecord { start_page: Some(value), ..self }
        } else if key == "ST"@ {
            RisRecord { short_title: Some(value), ..self }
        } else if key == "T1"@ {
            RisRecord { primary_title: Some(value), ..self }
        } else if key == "T2"@ {
            RisRecord { secondardy_title: Some(value), ..self }
        } else if key == "T3"@ {
            RisRecord { tertiary_title: Some(value), ..self }
        } else if key == "TA"@ {
            RisRecord { translated_authors: self.translated_authors.push(value), ..self }
        } else if key == "TI"@ {
            RisRecord { title: Some(value), ..self }
        } else if key == "TT"@ {
            RisRecord { translated_title: Some(value), ..self }
        } else if key == "U1"@ {
            RisRecord { type_of_work: Some(value), ..self }
        } else if key == "UR"@ {
            RisRecord { url: Some(value), ..self }
        } else if key == "VL"@ {
            RisRecord { volume: Some(value), ..self }
        } else if key == "Y2"@ {
            RisRecord { access_date: Some(value), ..self }
        } else {
            self
        }
    }
}

impl View for RisReference {
    type V = RisRecord;

    open spec fn view(&self) -> RisRecord {
        RisRecord {
            id: opt_text(self.id),
            ty: self.ty,
            editors: texts(self.editors@),
            tertiary_authors: texts(self.tertiary_authors@),
            subsidiary_authors: texts(self.subsidiary_authors@),
            abstrct: opt_text(self.abstrct),
            author_address: opt_text(self.author_address),
            accession_number: opt_text(self.accession_number),
            authors: texts(self.authors@),
            book_or_conference: opt_text(self.book_or_conference),
            custom1: opt_text(self.custom1),
            custom2: opt_text(self.custom2),
            custom3: opt_text(self.custom3),
            custom4: opt_text(self.custom4),
            custom5: opt_text(self.custom5),
            custom6: opt_text(self.custom6),
            custom7: opt_text(self.custom7),
            custom8: opt_text(self.custom8),
            caption: opt_text(self.caption),
            call_number: opt_text(self.call_number),
            place: opt_text(self.place),
            date: opt_text(self.date),
            name_of_database: opt_text(self.name_of_database),
            doi: opt_text(self.doi),
            database_provider: opt_text(self.database_provider),
            end_page: opt_text(self.end_page),
            edition: opt_text(self.edition),
            issue: opt_text(self.issue),
            journal: opt_text(self.journal),
            keywords: texts(self.keywords@),
            file_attachments: texts(self.file_attachments@),
            figure: opt_text(self.figure),
            language: opt_text(self.language),
            label: opt_text(self.label),
            number: opt_text(self.number),
            type_of_work: opt_text(self.type_of_work),
            notes: texts(self.notes@),
            number_of_volumes: opt_text(self.number_of_volumes),
            original_publication: opt_text(self.original_publication),
            publisher: opt_text(self.publisher),
            year: opt_text(self.year),
            reviewed_item: opt_text(self.reviewed_item),
            research_notes: opt_text(self.research_notes),
            reprint_edition: opt_text(self.reprint_edition),
            section: opt_text(self.section),
            isbn_or_issn: opt_text(self.isbn_or_issn),
            start_page: opt_text(self.start_page),
            short_title: opt_text(self.short_title),
            primary_title: opt_text(self.primary_title),
            secondardy_title: opt_text(self.secondardy_title),
            tertiary_title: opt_text(self.tertiary_title),
            translated_authors: texts(self.translated_authors@),
            title: opt_text(self.title),
            translated_title: opt_text(self.translated_title),
            url: opt_text(self.url),
            volume: opt_text(self.volume),
            access_date: opt_text(self.access_date),
        }
    }
}

impl RisReference {
    /// A reference that no line has touched.
    pub fn new() -> (r: RisReference)
        ensures
            r@ == RisRecord::empty(),
    {
        let r = RisReference {
            id: None,
            ty: None,
            editors: Vec::new(),
            tertiary_authors: Vec::new(),
            subsidiary_authors: Vec::new(),
            abstrct: None,
            author_address: None,
            accession_number: None,
            authors: Vec::new(),
            book_or_conference: None,
            custom1: None,
            custom2: None,
            custom3: None,
            custom4: None,
            custom5: None,
            custom6: None,
            custom7: None,
            custom8: None,
            caption: None,
            call_number: None,
            place: None,
            date: None,
            name_of_database: None,
            doi: None,
            database_provider: None,
            end_page: None,
            edition: None,
            issue: None,
            journal: None,
            keywords: Vec::new(),
            file_attachments: Vec::new(),
            figure: None,
            language: None,
            label: None,
            number: None,
            type_of_work: None,
            notes: Vec::new(),
            number_of_volumes: None,
            original_publication: None,
            publisher: None,
            year: None,
            reviewed_item: None,
            research_notes: None,
            reprint_edition: None,
            section: None,
            isbn_or_issn: None,
            start_page: None,
            short_title: None,
            primary_title: None,
            secondardy_title: None,
            tertiary_title: None,
            translated_authors: Vec::new(),
            title: None,
            translated_title: None,
            url: None,
            volume: None,
            access_date: None,
        };
        proof {
            assert(r@.editors =~= Seq::empty());
            assert(r@.tertiary_authors =~= Seq::empty());
            assert(r@.subsidiary_authors =~= Seq::empty());
            assert(r@.authors =~= Seq::empty());
            assert(r@.keywords =~= Seq::empty());
            assert(r@.file_attachments =~= Seq::empty());
            assert(r@.notes =~= Seq::empty());
            assert(r@.translated_authors =~= Seq::empty());
        }
        r
    }

    /// Applies one tag line; `key` is the tag in upper case.
    pub fn set_field(&mut self, key: &str, value: String)
        ensures
            final(self)@ == old(self)@.with_field(key@, value@),
    {
        let ghost text = value@;
        if str_eq(key, "TY") {
            self.ty = RisType::parse(value.as_str());
        } else if str_eq(key, "A2") {
            self.editors.push(value);
            proof {
                assert(texts(self.editors@) =~= texts(old(self).editors@).push(text));
            }
        } else if str_eq(key, "A3") {
            self.tertiary_authors.push(value);
            proof {
                assert(texts(self.tertiary_authors@) =~= texts(old(self).tertiary_authors@).push(text));
            }
        } else if str_eq(key, "A4") {
            self.subsidiary_authors.push(value);
            proof {
                assert(texts(self.subsidiary_authors@) =~= texts(old(self).subsidiary_authors@).push(text));
            }
        } else if str_eq(key, "AB") {
            self.abstrct = Some(value);
        } else if str_eq(key, "AD") {
            self.author_address = Some(value);
        } else if str_eq(key, "AN") {
            self.accession_number = Some(value);
        } else if str_eq(key, "AU") {
            self.authors.push(value);
            proof {
                assert(texts(self.authors@) =~= texts(old(self).authors@).push(text));
            }
        } else if str_eq(key, "BT") {
            self.book_or_conference = Some(value);
        } else if str_eq(key, "C1") {
            self.custom1 = Some(value);
        } else if str_eq(key, "C2") {
            self.custom2 = Some(value);
        } else if str_eq(key, "C3") {
            self.custom3 = Some(value);
        } else if str_eq(key, "C4") {
            self.custom4 = Some(value);
        } else if str_eq(key, "C5") {
            self.custom5 = Some(value);
        } else if str_eq(key, "C6") {
            self.custom6 = Some(value);
        } else if str_eq(key, "C7") {
            self.custom7 = Some(value);
        } else if str_eq(key, "C8") {
            self.custom8 = Some(value);
        } else if str_eq(key, "CA") {
            self.caption = Some(value);
        } else if str_eq(key, "CN") {
            self.call_number = Some(value);
        } else if str_eq(key, "CY") {
            self.place = Some(value);
        } else if str_eq(key, "DA") {
            self.date = Some(value);
        } else if str_eq(key, "DB") {
            self.name_of_database = Some(value);
        } else if str_eq(key, "DO") {
            self.doi = Some(value);
        } else if str_eq(key, "DP") {
            self.database_provider = Some(value);
        } else if str_eq(key, "ED") {
            self.editors.push(value);
            proof {
                assert(texts(self.editors@) =~= texts(old(self).editors@).push(text));
            }
        } else if str_eq(key, "EP") {
            self.end_page = Some(value);
        } else if str_eq(key, "ET") {
            self.edition = Some(value);
        } else if str_eq(key, "ID") {
            self.id = Some(value);
        } else if str_eq(key, "IS") {
            self.issue = Some(value);
        } else if str_eq(key, "JO") {
            self.journal = Some(value);
        } else if str_eq(key, "J2") {
            self.journal = Some(value);
        } else if str_eq(key, "KW") {
            self.keywords.push(value);
            proof {
                assert(texts(self.keywords@) =~= texts(old(self).keywords@).push(text));
            }
        } else if str_eq(key, "L1") {
            self.file_attachments.push(value);
            proof {
                assert(texts(self.file_attachments@) =~= texts(old(self).file_attachments@).push(text));
            }
        } else if str_eq(key, "L4") {
            self.figure = Some(value);
        } else if str_eq(key, "LA") {
            self.language = Some(value);
        } else if str_eq(key, "LB") {
            self.label = Some(value);
        } else if str_eq(key, "M1") {
            self.number = Some(value);
        } else if str_eq(key, "M3") {
            self.type_of_work = Some(value);
        } else if str_eq(key, "N1") {
            self.notes.push(value);
            proof {
                assert(texts(self.notes@) =~= texts(old(self).notes@).push(text));
            }
        } else if str_eq(key, "N2") {
            self.abstrct = Some(value);
        } else if str_eq(key, "NV") {
            self.number_of_volumes = Some(value);
        } else if str_eq(key, "OP") {
            self.original_publication = Some(value);
        } else if str_eq(key, "PB") {
            self.publisher = Some(value);
        } else if str_eq(key, "PY") {
            self.year = Some(value);
        } else if str_eq(key, "RI") {
            self.reviewed_item = Some(value);
        } else if str_eq(key, "RN") {
            self.research_notes = Some(value);
        } else if str_eq(key, "RP") {
            self.reprint_edition = Some(value);
        } else if str_eq(key, "SE") {
            self.section = Some(value);
        } else if str_eq(key, "SN") {
            self.isbn_or_issn = Some(value);
        } else if str_eq(key, "SP") {
            self.start_page = Some(value);
        } else if str_eq(key, "ST") {
            self.short_title = Some(value);
        } else if str_eq(key, "T1") {
            self.primary_title = Some(value);
        } else if str_eq(key, "T2") {
            self.secondardy_title = Some(value);
        } else if str_eq(key, "T3") {
            self.tertiary_title = Some(value);
        } else if str_eq(key, "TA") {
            self.translated_authors.push(value);
            proof {
                assert(texts(self.translated_authors@) =~= texts(old(self).translated_authors@).push(text));
            }
        } else if str_eq(key, "TI") {
            self.title = Some(value);
        } else if str_eq(key, "TT") {
            self.translated_title = Some(value);
        } else if str_eq(key, "U1") {
            self.type_of_work = Some(value);
        } else if str_eq(key, "UR") {
            self.url = Some(value);
        } else if str_eq(key, "VL") {
            self.volume = Some(value);
        } else if str_eq(key, "Y2") {
            self.access_date = Some(value);
        }
    }
}

/// What a line of RIS text is.
pub ghost enum RisLine {
    /// Nothing but white space.
    Blank,
    /// The `ER` line that closes a reference.
    End,
    /// A tag line: the tag in upper case, and the value.
    Field { key: Seq<char>, value: Seq<char> },
    /// Anything else; such a line is passed over.
    Malformed,
}

/// Reads one line. A tag line has, once trimmed, at least seven characters
/// with a dash as the fifth; its tag is the first two characters and its
/// value starts at the seventh.
pub open spec fn ris_line(line: Seq<char>) -> RisLine {
    let t = trimmed(line);
    if t.len() == 0 {
        RisLine::Blank
    } else if t == "ER  -"@ {
        RisLine::End
    } else if t.len() < 7 || t[4] != '-' {
        RisLine::Malformed
    } else {
        RisLine::Field { key: uppercased(t.subrange(0, 2)), value: t.subrange(6, t.len() as int) }
    }
}

/// The references closed so far and the one being filled, after the given
/// lines.
pub open spec fn ris_state(lines: Seq<Seq<char>>) -> (Seq<RisRecord>, RisRecord)
    decreases lines.len(),
{
    if lines.len() == 0 {
        (Seq::empty(), RisRecord::empty())
    } else {
        let (closed, current) = ris_state(lines.drop_last());
        match ris_line(lines.last()) {
            RisLine::End => (closed.push(current), RisRecord::empty()),
            RisLine::Field { key, value } => (closed, current.with_field(key, value)),
            _ => (closed, current),
        }
    }
}

/// The references that the lines hold. A reference that no `ER` line closes
/// is not among them.
pub open spec fn ris_records(lines: Seq<Seq<char>>) -> Seq<RisRecord> {
    ris_state(lines).0
}

/// The references of one RIS text.
#[derive(Debug, PartialEq, Eq, Clone)]
pub struct RisLibrary {
    pub references: Vec<RisReference>,
}

impl RisLibrary {
    /// The references, as plain values.
    pub open spec fn records(&self) -> Seq<RisRecord> {
        self.references@.map_values(|r: RisReference| r@)
    }

    /// Reads the lines of a RIS text.
    pub fn parse(lines: &Vec<String>) -> (library: RisLibrary)
        ensures
            library.records() == ris_records(texts(lines@)),
    {
        let mut library = RisLibrary { references: Vec::new() };
        let mut reference = RisReference::new();
        let mut i: usize = 0;
        proof {
            assert(library.records() =~= Seq::empty());
            assert(texts(lines@).take(0) =~= Seq::empty());
        }
        while i < lines.len()
            invariant
                i <= lines.len(),
                (library.records(), reference@) == ris_state(texts(lines@).take(i as int)),
            decreases lines.len() - i,
        {
            let ghost before = texts(lines@).take(i as int);
            let ghost upto = texts(lines@).take(i + 1);
            proof {
                assert(upto.drop_last() =~= before);
                assert(upto.last() == lines@[i as int]@);
            }
            let chars = chars_of(lines[i].as_str());
            let (lo, hi) = trim_bounds(&chars);
            let ghost t = chars@.subrange(lo as int, hi as int);
            if hi == lo {
            } else if slice_is(&chars, lo, hi, "ER  -") {
                let ghost closed = library.records();
                library.references.push(reference);
                proof {
                    assert(library.records() =~= closed.push(reference@));
                }
                reference = RisReference::new();
            } else if hi - lo < 7 || chars[lo + 4] != '-' {
            } else {
                let tag = string_of(&chars, lo, lo + 2);
                let key = to_uppercase(tag.as_str());
                let value = string_of(&chars, lo + 6, hi);
                proof {
                    assert(t.subrange(0, 2) =~= chars@.subrange(lo as int, lo + 2));
                    assert(t.subrange(6, t.len() as int) =~= chars@.subrange(lo + 6, hi as int));
                }
                reference.set_field(key.as_str(), value);
            }
            i += 1;
        }
        proof {
            assert(texts(lines@).take(lines.len() as int) =~= texts(lines@));
        }
        library
    }
}

} // verus!
