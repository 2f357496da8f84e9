//! Bibliographic references in the form that a CSL processor takes, and how a
//! RIS reference becomes one.

use crate::ris::{RisRecord, RisReference};
use crate::text::{
    join, joined, opt_text, parse_i32, parse_u32, parsed_i32, parsed_u32, split, split_on, texts,
};
use vstd::prelude::*;
use vstd::string::StringExecFns;

verus! {

/// The CSL types that a reference can be rendered as.
#[derive(Debug, PartialEq, Eq, Clone, Copy, Structural)]
pub enum CslType {
    Article,
    ArticleJournal,
    ArticleMagazine,
    ArticleNewspaper,
    Bill,
    Book,
    Chapter,
    Dataset,
    EntryDictionary,
    EntryEncyclopedia,
    Figure,
    LegalCase,
    Legislation,
    Manuscript,
    MapType,
    MotionPicture,
    PaperConference,
    Pamphlet,
    Patent,
    PersonalCommunication,
    Report,
    Song,
    Thesis,
    Webpage,
}

/// The text variables that a RIS reference can fill.
#[derive(Debug, PartialEq, Eq, Clone, Copy, Structural)]
pub enum Variable {
    Abstract,
    CallNumber,
    CollectionTitle,
    ContainerTitle,
    DOI,
    EventPlace,
    ISBN,
    ISSN,
    Keyword,
    Note,
    OriginalTitle,
    Publisher,
    PublisherPlace,
    ReviewedTitle,
    Section,
    Title,
    TitleShort,
    URL,
}

impl Variable {
    /// The place of the variable in the list of all of them.
    pub open spec fn ordinal(self) -> nat {
        match self {
            Variable::Abstract => 0,
            Variable::CallNumber => 1,
            Variable::CollectionTitle => 2,
            Variable::ContainerTitle => 3,
            Variable::DOI => 4,
            Variable::EventPlace => 5,
            Variable::ISBN => 6,
            Variable::ISSN => 7,
            Variable::Keyword => 8,
            Variable::Note => 9,
            Variable::OriginalTitle => 10,
            Variable::Publisher => 11,
            Variable::PublisherPlace => 12,
            Variable::ReviewedTitle => 13,
            Variable::Section => 14,
            Variable::Title => 15,
            Variable::TitleShort => 16,
            Variable::URL => 17,
        }
    }

    /// All text variables, each at its ordinal.
    pub fn all() -> (vars: Vec<Variable>)
        ensures
            vars.len() == 18,
            forall|j: int| 0 <= j < 18 ==> (#[trigger] vars@[j]).ordinal() == j,
    {
        let mut vars: Vec<Variable> = Vec::new();
        vars.push(Variable::Abstract);
        vars.push(Variable::CallNumber);
        vars.push(Variable::CollectionTitle);
        vars.push(Variable::ContainerTitle);
        vars.push(Variable::DOI);
        vars.push(Variable::EventPlace);
        vars.push(Variable::ISBN);
        vars.push(Variable::ISSN);
        vars.push(Variable::Keyword);
        vars.push(Variable::Note);
        vars.push(Variable::OriginalTitle);
        vars.push(Variable::Publisher);
        vars.push(Variable::PublisherPlace);
        vars.push(Variable::ReviewedTitle);
        vars.push(Variable::Section);
        vars.push(Variable::Title);
        vars.push(Variable::TitleShort);
        vars.push(Variable::URL);
        vars
    }
}

/// A copy of an optional string.
fn clone_opt(o: &Option<String>) -> (r: Option<String>)
    ensures
        opt_text(r) == opt_text(*o),
{
    match o {
        Some(s) => Some(s.clone()),
        None => None,
    }
}

/// The number variables that a RIS reference can fill.
#[derive(Debug, PartialEq, Eq, Clone, Copy, Structural)]
pub enum NumberVariable {
    Edition,
    Issue,
    Number,
    NumberOfVolumes,
    Page,
    Volume,
}

impl NumberVariable {
    /// The place of the variable in the list of all of them.
    pub open spec fn ordinal(self) -> nat {
        match self {
            NumberVariable::Edition => 0,
            NumberVariable::Issue => 1,
            NumberVariable::Number => 2,
            NumberVariable::NumberOfVolumes => 3,
            NumberVariable::Page => 4,
            NumberVariable::Volume => 5,
        }
    }

    /// All number variables, each at its ordinal.
    pub fn all() -> (vars: Vec<NumberVariable>)
        ensures
            vars.len() == 6,
            forall|j: int| 0 <= j < 6 ==> (#[trigger] vars@[j]).ordinal() == j,
    {
        let mut vars: Vec<NumberVariable> = Vec::new();
        vars.push(NumberVariable::Edition);
        vars.push(NumberVariable::Issue);
        vars.push(NumberVariable::Number);
        vars.push(NumberVariable::NumberOfVolumes);
        vars.push(NumberVariable::Page);
        vars.push(NumberVariable::Volume);
        vars
    }
}

/// The name variables that a RIS reference can fill.
#[derive(Debug, PartialEq, Eq, Clone, Copy, Structural)]
pub enum NameVariable {
    Author,
    Editor,
}

/// The date variables that a RIS reference can fill.
#[derive(Debug, PartialEq, Eq, Clone, Copy, Structural)]
pub enum DateVariable {
    Accessed,
    EventDate,
    Issued,
}

/// A calendar date; a month or day of 0 stands for "not given".
#[derive(Debug, PartialEq, Eq, Clone, Copy, Structural)]
pub struct Date {
    pub year: i32,
    pub month: u32,
    pub day: u32,
}

/// The value of a date variable.
#[derive(Debug, PartialEq, Eq, Clone)]
pub enum DateOrRange {
    /// A date that could be read.
    Single(Date),
    /// The text as it stood, where it could not.
    Literal(String),
}

/// What a [`DateOrRange`] holds.
pub ghost enum DateText {
    Single(Date),
    Literal(Seq<char>),
}

impl View for DateOrRange {
    type V = DateText;

    open spec fn view(&self) -> DateText {
        match self {
            DateOrRange::Single(d) => DateText::Single(*d),
            DateOrRange::Literal(s) => DateText::Literal(s@),
        }
    }
}

impl DeepView for DateOrRange {
    type V = DateText;

    open spec fn deep_view(&self) -> DateText {
        self@
    }
}

/// The value of a number variable.
#[derive(Debug, PartialEq, Eq, Clone)]
pub enum NumericValue {
    /// A plain number.
    Num(u32),
    /// Anything else, as text.
    Str(String),
}

/// What a [`NumericValue`] holds.
pub ghost enum NumericText {
    Num(u32),
    Str(Seq<char>),
}

impl View for NumericValue {
    type V = NumericText;

    open spec fn view(&self) -> NumericText {
        match self {
            NumericValue::Num(n) => NumericText::Num(*n),
            NumericValue::Str(s) => NumericText::Str(s@),
        }
    }
}

impl DeepView for NumericValue {
    type V = NumericText;

    open spec fn deep_view(&self) -> NumericText {
        self@
    }
}

/// The map that a list of entries stands for; of two entries with one key
/// the later counts.
pub open spec fn entries_map<K, V: DeepView>(entries: Seq<(K, V)>) -> Map<K, V::V>
    decreases entries.len(),
{
    if entries.len() == 0 {
        Map::empty()
    } else {
        entries_map(entries.drop_last()).insert(entries.last().0, entries.last().1.deep_view())
    }
}

/// Adds an entry to a list of entries.
pub fn put<K, V: DeepView>(entries: &mut Vec<(K, V)>, key: K, value: V)
    ensures
        entries_map(final(entries)@) == entries_map(old(entries)@).insert(key, value.deep_view()),
{
    entries.push((key, value));
    proof {
        assert(entries@.drop_last() =~= old(entries)@);
    }
}

/// A reference as a CSL processor takes it. Each of the four lists stands for
/// a map from variables to values (see [`entries_map`]).
///
/// They are lists of pairs and no hash maps because of their keys: vstd's
/// specification of `HashMap` holds for keys that it has a key model for
/// (`obeys_key_model`), which are integers and booleans, and says nothing
/// of a map keyed by one of these enums.
#[derive(Debug, PartialEq, Eq, Clone)]
pub struct CslReference {
    pub id: String,
    pub csl_type: CslType,
    /// The language of the reference. A reference made of a RIS record has
    /// none.
    pub language: Option<String>,
    /// Names as they were written; splitting a name into its parts is left
    /// to the processor's side.
    pub name: Vec<(NameVariable, Vec<String>)>,
    pub number: Vec<(NumberVariable, NumericValue)>,
    pub date: Vec<(DateVariable, DateOrRange)>,
    pub ordinary: Vec<(Variable, String)>,
}

/// What a [`CslReference`] holds.
pub ghost struct CslRecord {
    pub id: Seq<char>,
    pub csl_type: CslType,
    pub language: Option<Seq<char>>,
    pub name: Map<NameVariable, Seq<Seq<char>>>,
    pub number: Map<NumberVariable, NumericText>,
    pub date: Map<DateVariable, DateText>,
    pub ordinary: Map<Variable, Seq<char>>,
}

impl View for CslReference {
    type V = CslRecord;

    open spec fn view(&self) -> CslRecord {
        CslRecord {
            id: self.id@,
            csl_type: self.csl_type,
            language: opt_text(self.language),
            name: entries_map(self.name@),
            number: entries_map(self.number@),
            date: entries_map(self.date@),
            ordinary: entries_map(self.ordinary@),
        }
    }
}

/// The number that a text stands for: itself as a number where it spells a
/// `u32`, else the text.
pub open spec fn numeric_of(text: Seq<char>) -> NumericText {
    match parsed_u32(text) {
        Some(n) => NumericText::Num(n),
        None => NumericText::Str(text),
    }
}

/// The date that `year[/month[/day]]` spells. The year must be a number; a
/// month that is missing or no number makes month and day 0; a day that is
/// missing or no number is 0. Further parts are not looked at.
pub open spec fn parsed_date(text: Seq<char>) -> Option<Date> {
    let parts = split_on(text, '/');
    match parsed_i32(parts[0]) {
        None => None,
        Some(year) => {
            let month = if parts.len() > 1 {
                parsed_u32(parts[1])
            } else {
                None
            };
            let day = if parts.len() > 2 {
                parsed_u32(parts[2])
            } else {
                None
            };
            match month {
                None => Some(Date { year, month: 0, day: 0 }),
                Some(month) => Some(
                    Date {
                        year,
                        month,
                        day: match day {
                            Some(d) => d,
                            None => 0,
                        },
                    },
                ),
            }
        },
    }
}

/// The date value that a text stands for.
pub open spec fn date_of(text: Seq<char>) -> DateText {
    match parsed_date(text) {
        Some(d) => DateText::Single(d),
        None => DateText::Literal(text),
    }
}

/// The first of journal, database name and book or conference that is given.
pub open spec fn container_title(ris: RisRecord) -> Option<Seq<char>> {
    if ris.journal is Some {
        ris.journal
    } else if ris.name_of_database is Some {
        ris.name_of_database
    } else {
        ris.book_or_conference
    }
}

/// The value of a text variable for a RIS reference, if it has one.
pub open spec fn ordinary_value(ris: RisRecord, v: Variable) -> Option<Seq<char>> {
    match v {
        Variable::Abstract => ris.abstrct,
        Variable::CallNumber => ris.call_number,
        Variable::CollectionTitle | Variable::ContainerTitle => container_title(ris),
        Variable::DOI => ris.doi,
        Variable::EventPlace | Variable::PublisherPlace => ris.place,
        Variable::ISBN | Variable::ISSN => ris.isbn_or_issn,
        Variable::Keyword => Some(joined(ris.keywords, ", "@)),
        Variable::Note => Some(
            match ris.research_notes {
                Some(n) => n,
                None => joined(ris.notes, "\n"@),
            },
        ),
        Variable::OriginalTitle => ris.original_publication,
        Variable::Publisher => ris.publisher,
        Variable::ReviewedTitle => ris.reviewed_item,
        Variable::Section => ris.section,
        Variable::Title => ris.title,
        Variable::TitleShort => ris.short_title,
        Variable::URL => ris.url,
    }
}

/// The number that an optional text stands for.
pub open spec fn numeric_of_opt(text: Option<Seq<char>>) -> Option<NumericText> {
    match text {
        Some(t) => Some(numeric_of(t)),
        None => None,
    }
}

/// The pages of a RIS reference: `start-end` as text where both are given,
/// else the one that is.
pub open spec fn page_value(ris: RisRecord) -> Option<NumericText> {
    match (ris.start_page, ris.end_page) {
        (Some(s), Some(e)) => Some(NumericText::Str(s + "-"@ + e)),
        (Some(p), None) => Some(numeric_of(p)),
        (None, Some(p)) => Some(numeric_of(p)),
        (None, None) => None,
    }
}

/// The value of a number variable for a RIS reference, if it has one.
pub open spec fn number_value(ris: RisRecord, v: NumberVariable) -> Option<NumericText> {
    match v {
        NumberVariable::Edition => numeric_of_opt(ris.edition),
        NumberVariable::Issue => numeric_of_opt(ris.issue),
        NumberVariable::Number => numeric_of_opt(ris.number),
        NumberVariable::NumberOfVolumes => numeric_of_opt(ris.number_of_volumes),
        NumberVariable::Page => page_value(ris),
        NumberVariable::Volume => numeric_of_opt(ris.volume),
    }
}

/// The date that an optional text stands for.
pub open spec fn date_of_opt(text: Option<Seq<char>>) -> Option<DateText> {
    match text {
        Some(t) => Some(date_of(t)),
        None => None,
    }
}

/// The value of a date variable for a RIS reference, if it has one. The date
/// of issue is taken from the date, else from the year.
pub open spec fn date_value(ris: RisRecord, v: DateVariable) -> Option<DateText> {
    match v {
        DateVariable::Accessed => date_of_opt(ris.access_date),
        DateVariable::EventDate | DateVariable::Issued => date_of_opt(
            if ris.date is Some {
                ris.date
            } else {
                ris.year
            },
        ),
    }
}

/// The names under a name variable for a RIS reference.
pub open spec fn name_value(ris: RisRecord, v: NameVariable) -> Seq<Seq<char>> {
    match v {
        NameVariable::Author => ris.authors,
        NameVariable::Editor => ris.editors,
    }
}

/// The CSL reference that a RIS reference stands for. Its identifier is the
/// reference's id, else its label. It has no language of its own: what the
/// record says of the language is not carried over.
pub open spec fn csl_record(ris: RisRecord) -> CslRecord
    recommends
        ris.ty is Some,
        ris.id is Some || ris.label is Some,
{
    CslRecord {
        id: if ris.id is Some {
            ris.id->0
        } else {
            ris.label->0
        },
        csl_type: ris.ty->0.csl_type(),
        language: None,
        name: Map::new(|v: NameVariable| true, |v: NameVariable| name_value(ris, v)),
        number: Map::new(
            |v: NumberVariable| number_value(ris, v) is Some,
            |v: NumberVariable| number_value(ris, v)->0,
        ),
        date: Map::new(
            |v: DateVariable| date_value(ris, v) is Some,
            |v: DateVariable| date_value(ris, v)->0,
        ),
        ordinary: Map::new(
            |v: Variable| ordinary_value(ris, v) is Some,
            |v: Variable| ordinary_value(ris, v)->0,
        ),
    }
}

/// Reads a number variable's value.
pub fn parse_number(value: String) -> (r: NumericValue)
    ensures
        r@ == numeric_of(value@),
{
    match parse_u32(value.as_str()) {
        Some(n) => NumericValue::Num(n),
        None => NumericValue::Str(value),
    }
}

/// Reads a number variable's value, where there is one.
fn number_of_opt(value: &Option<String>) -> (r: Option<NumericValue>)
    ensures
        (match r {
            Some(n) => Some(n@),
            None => None,
        }) == numeric_of_opt(opt_text(*value)),
{
    match value {
        Some(text) => Some(parse_number(text.clone())),
        None => None,
    }
}

/// Reads `year[/month[/day]]`.
pub fn parse_date(value: &str) -> (r: Option<Date>)
    ensures
        r == parsed_date(value@),
{
    let parts = split(value, '/');
    proof {
        assert(texts(parts@)[0] == parts@[0]@);
        if parts.len() > 1 {
            assert(texts(parts@)[1] == parts@[1]@);
        }
        if parts.len() > 2 {
            assert(texts(parts@)[2] == parts@[2]@);
        }
    }
    let year = match parse_i32(parts[0].as_str()) {
        Some(y) => y,
        None => {
            return None;
        },
    };
    let month = if parts.len() > 1 {
        parse_u32(parts[1].as_str())
    } else {
        None
    };
    match month {
        None => Some(Date { year, month: 0, day: 0 }),
        Some(month) => {
            let day = if parts.len() > 2 {
                parse_u32(parts[2].as_str())
            } else {
                None
            };
            match day {
                Some(day) => Some(Date { year, month, day }),
                None => Some(Date { year, month, day: 0 }),
            }
        },
    }
}

/// Reads a date variable's value.
pub fn parse_date_or_range(value: String) -> (r: DateOrRange)
    ensures
        r@ == date_of(value@),
{
    match parse_date(value.as_str()) {
        Some(d) => DateOrRange::Single(d),
        None => DateOrRange::Literal(value),
    }
}

impl RisReference {
    /// The names of the CSL reference.
    fn csl_names(&self) -> (name: Vec<(NameVariable, Vec<String>)>)
        ensures
            entries_map(name@) == csl_record(self@).name,
    {
        let mut name: Vec<(NameVariable, Vec<String>)> = Vec::new();
        let authors = self.authors.clone();
        let editors = self.editors.clone();
        proof {
            assert(authors.deep_view() =~= self@.authors);
            assert(editors.deep_view() =~= self@.editors);
        }
        put(&mut name, NameVariable::Author, authors);
        put(&mut name, NameVariable::Editor, editors);
        proof {
            assert(entries_map(name@) =~= csl_record(self@).name);
        }
        name
    }

    /// The dates of the CSL reference.
    fn csl_dates(&self) -> (date: Vec<(DateVariable, DateOrRange)>)
        ensures
            entries_map(date@) == csl_record(self@).date,
    {
        let mut date: Vec<(DateVariable, DateOrRange)> = Vec::new();
        if let Some(access_date) = &self.access_date {
            put(&mut date, DateVariable::Accessed, parse_date_or_range(access_date.clone()));
        }
        let issued = match &self.date {
            Some(d) => Some(d),
            None => match &self.year {
                Some(y) => Some(y),
                None => None,
            },
        };
        if let Some(value) = issued {
            put(&mut date, DateVariable::Issued, parse_date_or_range(value.clone()));
            put(&mut date, DateVariable::EventDate, parse_date_or_range(value.clone()));
        }
        proof {
            assert(entries_map(date@) =~= csl_record(self@).date);
        }
        date
    }

    /// The value of a number variable.
    fn number_of(&self, v: NumberVariable) -> (r: Option<NumericValue>)
        ensures
            (match r {
                Some(n) => Some(n@),
                None => None,
            }) == number_value(self@, v),
    {
        match v {
            NumberVariable::Edition => number_of_opt(&self.edition),
            NumberVariable::Issue => number_of_opt(&self.issue),
            NumberVariable::Number => number_of_opt(&self.number),
            NumberVariable::NumberOfVolumes => number_of_opt(&self.number_of_volumes),
            NumberVariable::Page => match (&self.start_page, &self.end_page) {
                (Some(start_page), Some(end_page)) => {
                    let mut pages = start_page.clone();
                    pages.append("-");
                    pages.append(end_page.as_str());
                    Some(NumericValue::Str(pages))
                },
                (Some(page), None) => Some(parse_number(page.clone())),
                (None, Some(page)) => Some(parse_number(page.clone())),
                (None, None) => None,
            },
            NumberVariable::Volume => number_of_opt(&self.volume),
        }
    }

    /// The numbers of the CSL reference.
    fn csl_numbers(&self) -> (number: Vec<(NumberVariable, NumericValue)>)
        ensures
            entries_map(number@) == csl_record(self@).number,
    {
        let vars = NumberVariable::all();
        let mut number: Vec<(NumberVariable, NumericValue)> = Vec::new();
        let mut i: usize = 0;
        while i < vars.len()
            invariant
                i <= vars.len() == 6,
                forall|j: int| 0 <= j < 6 ==> (#[trigger] vars@[j]).ordinal() == j,
                entries_map(number@) =~= Map::new(
                    |v: NumberVariable| v.ordinal() < i && number_value(self@, v) is Some,
                    |v: NumberVariable| number_value(self@, v)->0,
                ),
            decreases vars.len() - i,
        {
            let v = vars[i];
            match self.number_of(v) {
                Some(value) => {
                    put(&mut number, v, value);
                },
                None => {},
            }
            i += 1;
        }
        proof {
            assert(entries_map(number@) =~= csl_record(self@).number);
        }
        number
    }

    /// The first of journal, database name and book or conference that is
    /// given.
    fn container_title(&self) -> (r: Option<String>)
        ensures
            opt_text(r) == container_title(self@),
    {
        match &self.journal {
            Some(j) => Some(j.clone()),
            None => match &self.name_of_database {
                Some(d) => Some(d.clone()),
                None => match &self.book_or_conference {
                    Some(b) => Some(b.clone()),
                    None => None,
                },
            },
        }
    }

    /// The value of a text variable.
    fn ordinary_of(&self, v: Variable) -> (r: Option<String>)
        ensures
            opt_text(r) == ordinary_value(self@, v),
    {
        match v {
            Variable::Abstract => clone_opt(&self.abstrct),
            Variable::CallNumber => clone_opt(&self.call_number),
            Variable::CollectionTitle | Variable::ContainerTitle => self.container_title(),
            Variable::DOI => clone_opt(&self.doi),
            Variable::EventPlace | Variable::PublisherPlace => clone_opt(&self.place),
            Variable::ISBN | Variable::ISSN => clone_opt(&self.isbn_or_issn),
            Variable::Keyword => Some(join(&self.keywords, ", ")),
            Variable::Note => match &self.research_notes {
                Some(n) => Some(n.clone()),
                None => Some(join(&self.notes, "\n")),
            },
            Variable::OriginalTitle => clone_opt(&self.original_publication),
            Variable::Publisher => clone_opt(&self.publisher),
            Variable::ReviewedTitle => clone_opt(&self.reviewed_item),
            Variable::Section => clone_opt(&self.section),
            Variable::Title => clone_opt(&self.title),
            Variable::TitleShort => clone_opt(&self.short_title),
            Variable::URL => clone_opt(&self.url),
        }
    }

    /// The text variables of the CSL reference.
    fn csl_ordinary(&self) -> (ordinary: Vec<(Variable, String)>)
        ensures
            entries_map(ordinary@) == csl_record(self@).ordinary,
    {
        let vars = Variable::all();
        let mut ordinary: Vec<(Variable, String)> = Vec::new();
        let mut i: usize = 0;
        while i < vars.len()
            invariant
                i <= vars.len() == 18,
                forall|j: int| 0 <= j < 18 ==> (#[trigger] vars@[j]).ordinal() == j,
                entries_map(ordinary@) =~= Map::new(
                    |v: Variable| v.ordinal() < i && ordinary_value(self@, v) is Some,
                    |v: Variable| ordinary_value(self@, v)->0,
                ),
            decreases vars.len() - i,
        {
            let v = vars[i];
            match self.ordinary_of(v) {
                Some(value) => {
                    put(&mut ordinary, v, value);
                },
                None => {},
            }
            i += 1;
        }
        proof {
            assert(entries_map(ordinary@) =~= csl_record(self@).ordinary);
        }
        ordinary
    }

    /// The CSL reference that this reference stands for.
    pub fn into(self) -> (r: CslReference)
        requires
            self@.ty is Some,
            self@.id is Some || self@.label is Some,
        ensures
            r@ == csl_record(self@),
    {
        let csl_type = match self.ty {
            Some(ty) => ty.csl(),
            None => CslType::Article,
        };
        let date = self.csl_dates();
        let name = self.csl_names();
        let number = self.csl_numbers();
        let ordinary = self.csl_ordinary();
        let id = match self.id {
            Some(id) => id,
            None => match self.label {
                Some(label) => label,
                None => String::new(),
            },
        };
        CslReference { id, csl_type, language: None, name, number, date, ordinary }
    }
}

} // verus!
