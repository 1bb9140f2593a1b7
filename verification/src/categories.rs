//! The subject and grade catalogs: two independent closed enumerations,
//! each with a literal alias table for parsing, one canonical spelling per
//! variant, and a fixed iteration order over the non-sentinel variants.

use vstd::prelude::*;

verus! {

/// The academic subjects. `Unset` is a sentinel meaning "no subject
/// given", not a parse failure; its canonical spelling is `"None"`.
/// Parsing accepts it and formatting renders it, but it never appears in
/// the iteration sequence.
#[derive(Debug, Clone, Copy, PartialEq, Eq, Structural)]
pub enum Subjects {
    MindMotion,
    PreMath,
    PreWriting,
    Science,
    Social,
    Art,
    PE,
    French,
    English,
    ICT,
    BasicPL,
    Unset,
}

/// The grade levels. `Unset` is the same kind of sentinel as for `Subjects`.
#[derive(Debug, Clone, Copy, PartialEq, Eq, Structural)]
pub enum Grades {
    Grade1,
    Grade2,
    Grade3,
    Grade4,
    Grade5,
    Grade6,
    Unset,
}

/// The one parse failure per catalog; each carries a fixed message through
/// [`ParseError::message`].
#[derive(Debug, Clone, Copy, PartialEq, Eq, Structural)]
pub enum ParseError {
    UnrecognizedSubject,
    UnrecognizedGrade,
}

/// The subject alias table: every accepted spelling, in the order the
/// catalog checks them, mapped to its variant. The four `BasicPL`
/// spellings deliberately map to `English`, while the
/// `basicProfessionalLife` spellings map to `BasicPL`.
pub open spec fn parse_subject(s: Seq<char>) -> Option<Subjects> {
    if s == "MindMotion"@ {
        Some(Subjects::MindMotion)
    } else if s == "mindmotion"@ {
        Some(Subjects::MindMotion)
    } else if s == "MINDMOTION"@ {
        Some(Subjects::MindMotion)
    } else if s == "PreMath"@ {
        Some(Subjects::PreMath)
    } else if s == "PREMATH"@ {
        Some(Subjects::PreMath)
    } else if s == "premath"@ {
        Some(Subjects::PreMath)
    } else if s == "PreWriting"@ {
        Some(Subjects::PreWriting)
    } else if s == "prewriting"@ {
        Some(Subjects::PreWriting)
    } else if s == "PREWRITING"@ {
        Some(Subjects::PreWriting)
    } else if s == "Pre-Math"@ {
        Some(Subjects::PreMath)
    } else if s == "PRE-MATH"@ {
        Some(Subjects::PreMath)
    } else if s == "pre-math"@ {
        Some(Subjects::PreMath)
    } else if s == "Pre-Writing"@ {
        Some(Subjects::PreWriting)
    } else if s == "pre-writing"@ {
        Some(Subjects::PreWriting)
    } else if s == "PRE-WRITING"@ {
        Some(Subjects::PreWriting)
    } else if s == "Art"@ {
        Some(Subjects::Art)
    } else if s == "ART"@ {
        Some(Subjects::Art)
    } else if s == "art"@ {
        Some(Subjects::Art)
    } else if s == "PE"@ {
        Some(Subjects::PE)
    } else if s == "pe"@ {
        Some(Subjects::PE)
    } else if s == "PhysicalEducation"@ {
        Some(Subjects::PE)
    } else if s == "physicaleducation"@ {
        Some(Subjects::PE)
    } else if s == "PHYSICALEDUCATION"@ {
        Some(Subjects::PE)
    } else if s == "PhysicalEd"@ {
        Some(Subjects::PE)
    } else if s == "physicaled"@ {
        Some(Subjects::PE)
    } else if s == "PHYSICALED"@ {
        Some(Subjects::PE)
    } else if s == "Science"@ {
        Some(Subjects::Science)
    } else if s == "SCIENCE"@ {
        Some(Subjects::Science)
    } else if s == "science"@ {
        Some(Subjects::Science)
    } else if s == "SOCIAL"@ {
        Some(Subjects::Social)
    } else if s == "social"@ {
        Some(Subjects::Social)
    } else if s == "Social"@ {
        Some(Subjects::Social)
    } else if s == "French"@ {
        Some(Subjects::French)
    } else if s == "french"@ {
        Some(Subjects::French)
    } else if s == "FRENCH"@ {
        Some(Subjects::French)
    } else if s == "English"@ {
        Some(Subjects::English)
    } else if s == "ENGLISH"@ {
        Some(Subjects::English)
    } else if s == "english"@ {
        Some(Subjects::English)
    } else if s == "ICT"@ {
        Some(Subjects::ICT)
    } else if s == "ict"@ {
        Some(Subjects::ICT)
    } else if s == "informationcommunicationtechnology"@ {
        Some(Subjects::ICT)
    } else if s == "InformationCommunicationTechnology"@ {
        Some(Subjects::ICT)
    } else if s == "information_communication_technology"@ {
        Some(Subjects::ICT)
    } else if s == "Information_Communication_Technology"@ {
        Some(Subjects::ICT)
    } else if s == "BasicPL"@ {
        Some(Subjects::English)
    } else if s == "BASICPL"@ {
        Some(Subjects::English)
    } else if s == "basicpl"@ {
        Some(Subjects::English)
    } else if s == "basicPL"@ {
        Some(Subjects::English)
    } else if s == "basicProfessionalLife"@ {
        Some(Subjects::BasicPL)
    } else if s == "basicprofessionallife"@ {
        Some(Subjects::BasicPL)
    } else if s == "BasicProfessionalLife"@ {
        Some(Subjects::BasicPL)
    } else if s == "Basic_Professional_Life"@ {
        Some(Subjects::BasicPL)
    } else if s == "None"@ {
        Some(Subjects::Unset)
    } else if s == "NONE"@ {
        Some(Subjects::Unset)
    } else if s == "none"@ {
        Some(Subjects::Unset)
    } else {
        Option::None
    }
}

/// The grade alias table: cased and underscored spellings of each grade
/// plus its bare digit, in the order the catalog checks them.
pub open spec fn parse_grade(s: Seq<char>) -> Option<Grades> {
    if s == "Grade1"@ {
        Some(Grades::Grade1)
    } else if s == "grade1"@ {
        Some(Grades::Grade1)
    } else if s == "grade_1"@ {
        Some(Grades::Grade1)
    } else if s == "Grade_1"@ {
        Some(Grades::Grade1)
    } else if s == "GRADE1"@ {
        Some(Grades::Grade1)
    } else if s == "GRADE_1"@ {
        Some(Grades::Grade1)
    } else if s == "1"@ {
        Some(Grades::Grade1)
    } else if s == "Grade2"@ {
        Some(Grades::Grade2)
    } else if s == "grade2"@ {
        Some(Grades::Grade2)
    } else if s == "grade_2"@ {
        Some(Grades::Grade2)
    } else if s == "Grade_2"@ {
        Some(Grades::Grade2)
    } else if s == "GRADE2"@ {
        Some(Grades::Grade2)
    } else if s == "GRADE_2"@ {
        Some(Grades::Grade2)
    } else if s == "2"@ {
        Some(Grades::Grade2)
    } else if s == "Grade3"@ {
        Some(Grades::Grade3)
    } else if s == "grade3"@ {
        Some(Grades::Grade3)
    } else if s == "grade_3"@ {
        Some(Grades::Grade3)
    } else if s == "Grade_3"@ {
        Some(Grades::Grade3)
    } else if s == "GRADE3"@ {
        Some(Grades::Grade3)
    } else if s == "GRADE_3"@ {
        Some(Grades::Grade3)
    } else if s == "3"@ {
        Some(Grades::Grade3)
    } else if s == "Grade4"@ {
        Some(Grades::Grade4)
    } else if s == "grade4"@ {
        Some(Grades::Grade4)
    } else if s == "grade_4"@ {
        Some(Grades::Grade4)
    } else if s == "Grade_4"@ {
        Some(Grades::Grade4)
    } else if s == "GRADE4"@ {
        Some(Grades::Grade4)
    } else if s == "GRADE_4"@ {
        Some(Grades::Grade4)
    } else if s == "4"@ {
        Some(Grades::Grade4)
    } else if s == "Grade5"@ {
        Some(Grades::Grade5)
    } else if s == "grade5"@ {
        Some(Grades::Grade5)
    } else if s == "grade_5"@ {
        Some(Grades::Grade5)
    } else if s == "Grade_5"@ {
        Some(Grades::Grade5)
    } else if s == "GRADE5"@ {
        Some(Grades::Grade5)
    } else if s == "GRADE_5"@ {
        Some(Grades::Grade5)
    } else if s == "5"@ {
        Some(Grades::Grade5)
    } else if s == "Grade6"@ {
        Some(Grades::Grade6)
    } else if s == "grade6"@ {
        Some(Grades::Grade6)
    } else if s == "grade_6"@ {
        Some(Grades::Grade6)
    } else if s == "Grade_6"@ {
        Some(Grades::Grade6)
    } else if s == "GRADE6"@ {
        Some(Grades::Grade6)
    } else if s == "GRADE_6"@ {
        Some(Grades::Grade6)
    } else if s == "6"@ {
        Some(Grades::Grade6)
    } else if s == "None"@ {
        Some(Grades::Unset)
    } else if s == "NONE"@ {
        Some(Grades::Unset)
    } else if s == "none"@ {
        Some(Grades::Unset)
    } else {
        Option::None
    }
}

/// The canonical spelling of each subject: the variant's own name, and
/// `"None"` for the sentinel.
pub open spec fn subject_name(v: Subjects) -> Seq<char> {
    match v {
        Subjects::MindMotion => "MindMotion"@,
        Subjects::PreMath => "PreMath"@,
        Subjects::PreWriting => "PreWriting"@,
        Subjects::Science => "Science"@,
        Subjects::Social => "Social"@,
        Subjects::Art => "Art"@,
        Subjects::PE => "PE"@,
        Subjects::French => "French"@,
        Subjects::English => "English"@,
        Subjects::ICT => "ICT"@,
        Subjects::BasicPL => "BasicPL"@,
        Subjects::Unset => "None"@,
    }
}

/// The canonical spelling of each grade.
pub open spec fn grade_name(v: Grades) -> Seq<char> {
    match v {
        Grades::Grade1 => "Grade1"@,
        Grades::Grade2 => "Grade2"@,
        Grades::Grade3 => "Grade3"@,
        Grades::Grade4 => "Grade4"@,
        Grades::Grade5 => "Grade5"@,
        Grades::Grade6 => "Grade6"@,
        Grades::Unset => "None"@,
    }
}

/// The iteration order over the subjects: the eleven non-sentinel variants
/// in declaration order.
pub open spec fn subjects_in_order() -> Seq<Subjects> {
    seq![
        Subjects::MindMotion,
        Subjects::PreMath,
        Subjects::PreWriting,
        Subjects::Science,
        Subjects::Social,
        Subjects::Art,
        Subjects::PE,
        Subjects::French,
        Subjects::English,
        Subjects::ICT,
        Subjects::BasicPL,
    ]
}

/// The iteration order over the grades: the six numbered grades, ascending.
pub open spec fn grades_in_order() -> Seq<Grades> {
    seq![
        Grades::Grade1,
        Grades::Grade2,
        Grades::Grade3,
        Grades::Grade4,
        Grades::Grade5,
        Grades::Grade6,
    ]
}

/// The fixed message carried by each parse failure, naming the canonical
/// options (the sentinel is left out).
pub open spec fn error_message(e: ParseError) -> Seq<char> {
    match e {
        ParseError::UnrecognizedSubject => "Mismatch type: MindMotion, PreMath, PreWriting, Science, Social, Art, PE, French, English, ICT, BasicPL"@,
        ParseError::UnrecognizedGrade => "Mismatch type: 1, 2, 3, 4, 5, 6"@,
    }
}

/// The wire tag of each subject: a distinct small number per variant, used
/// by the structured encode.
pub open spec fn subject_tag(v: Subjects) -> u8 {
    match v {
        Subjects::MindMotion => 0,
        Subjects::PreMath => 1,
        Subjects::PreWriting => 2,
        Subjects::Science => 3,
        Subjects::Social => 4,
        Subjects::Art => 5,
        Subjects::PE => 6,
        Subjects::French => 7,
        Subjects::English => 8,
        Subjects::ICT => 9,
        Subjects::BasicPL => 10,
        Subjects::Unset => 11,
    }
}

/// The decode of a subject wire tag; tags outside the table decode to
/// nothing.
pub open spec fn subject_from_tag(t: u8) -> Option<Subjects> {
    if t == 0 {
        Some(Subjects::MindMotion)
    } else if t == 1 {
        Some(Subjects::PreMath)
    } else if t == 2 {
        Some(Subjects::PreWriting)
    } else if t == 3 {
        Some(Subjects::Science)
    } else if t == 4 {
        Some(Subjects::Social)
    } else if t == 5 {
        Some(Subjects::Art)
    } else if t == 6 {
        Some(Subjects::PE)
    } else if t == 7 {
        Some(Subjects::French)
    } else if t == 8 {
        Some(Subjects::English)
    } else if t == 9 {
        Some(Subjects::ICT)
    } else if t == 10 {
        Some(Subjects::BasicPL)
    } else if t == 11 {
        Some(Subjects::Unset)
    } else {
        Option::None
    }
}

/// The wire tag of each grade: a distinct small number per variant, used
/// by the structured encode.
pub open spec fn grade_tag(v: Grades) -> u8 {
    match v {
        Grades::Grade1 => 0,
        Grades::Grade2 => 1,
        Grades::Grade3 => 2,
        Grades::Grade4 => 3,
        Grades::Grade5 => 4,
        Grades::Grade6 => 5,
        Grades::Unset => 6,
    }
}

/// The decode of a grade wire tag; tags outside the table decode to
/// nothing.
pub open spec fn grade_from_tag(t: u8) -> Option<Grades> {
    if t == 0 {
        Some(Grades::Grade1)
    } else if t == 1 {
        Some(Grades::Grade2)
    } else if t == 2 {
        Some(Grades::Grade3)
    } else if t == 3 {
        Some(Grades::Grade4)
    } else if t == 4 {
        Some(Grades::Grade5)
    } else if t == 5 {
        Some(Grades::Grade6)
    } else if t == 6 {
        Some(Grades::Unset)
    } else {
        Option::None
    }
}


/// Character-by-character string equality. vstd gives no specification to
/// `==` on `&str`, so the parsers compare through this verified loop.
fn str_eq(a: &str, b: &str) -> (r: bool)
    ensures
        r == (a@ == b@),
{
    let alen = a.unicode_len();
    let blen = b.unicode_len();
    if alen != blen {
        return false;
    }
    let mut i: usize = 0;
    while i < alen
        invariant
            alen == a@.len(),
            alen == b@.len(),
            i <= alen,
            forall|j: int| 0 <= j < i ==> a@[j] == b@[j],
        decreases alen - i,
    {
        if a.get_char(i) != b.get_char(i) {
            return false;
        }
        i = i + 1;
    }
    proof {
        assert(a@ =~= b@);
    }
    true
}

impl Subjects {
    /// Parses one of the accepted spellings of a subject; any other input
    /// fails with `UnrecognizedSubject`.
    pub fn from_str(input: &str) -> (r: Result<Subjects, ParseError>)
        ensures
            match parse_subject(input@) {
                Some(v) => r == Ok::<Subjects, ParseError>(v),
                Option::None => r == Err::<Subjects, ParseError>(ParseError::UnrecognizedSubject),
            },
    {
        if str_eq(input, "MindMotion") {
            Ok(Subjects::MindMotion)
        } else if str_eq(input, "mindmotion") {
            Ok(Subjects::MindMotion)
        } else if str_eq(input, "MINDMOTION") {
            Ok(Subjects::MindMotion)
        } else if str_eq(input, "PreMath") {
            Ok(Subjects::PreMath)
        } else if str_eq(input, "PREMATH") {
            Ok(Subjects::PreMath)
        } else if str_eq(input, "premath") {
            Ok(Subjects::PreMath)
        } else if str_eq(input, "PreWriting") {
            Ok(Subjects::PreWriting)
        } else if str_eq(input, "prewriting") {
            Ok(Subjects::PreWriting)
        } else if str_eq(input, "PREWRITING") {
            Ok(Subjects::PreWriting)
        } else if str_eq(input, "Pre-Math") {
            Ok(Subjects::PreMath)
        } else if str_eq(input, "PRE-MATH") {
            Ok(Subjects::PreMath)
        } else if str_eq(input, "pre-math") {
            Ok(Subjects::PreMath)
        } else if str_eq(input, "Pre-Writing") {
            Ok(Subjects::PreWriting)
        } else if str_eq(input, "pre-writing") {
            Ok(Subjects::PreWriting)
        } else if str_eq(input, "PRE-WRITING") {
            Ok(Subjects::PreWriting)
        } else if str_eq(input, "Art") {
            Ok(Subjects::Art)
        } else if str_eq(input, "ART") {
            Ok(Subjects::Art)
        } else if str_eq(input, "art") {
            Ok(Subjects::Art)
        } else if str_eq(input, "PE") {
            Ok(Subjects::PE)
        } else if str_eq(input, "pe") {
            Ok(Subjects::PE)
        } else if str_eq(input, "PhysicalEducation") {
            Ok(Subjects::PE)
        } else if str_eq(input, "physicaleducation") {
            Ok(Subjects::PE)
        } else if str_eq(input, "PHYSICALEDUCATION") {
            Ok(Subjects::PE)
        } else if str_eq(input, "PhysicalEd") {
            Ok(Subjects::PE)
        } else if str_eq(input, "physicaled") {
            Ok(Subjects::PE)
        } else if str_eq(input, "PHYSICALED") {
            Ok(Subjects::PE)
        } else if str_eq(input, "Science") {
            Ok(Subjects::Science)
        } else if str_eq(input, "SCIENCE") {
            Ok(Subjects::Science)
        } else if str_eq(input, "science") {
            Ok(Subjects::Science)
        } else if str_eq(input, "SOCIAL") {
            Ok(Subjects::Social)
        } else if str_eq(input, "social") {
            Ok(Subjects::Social)
        } else if str_eq(input, "Social") {
            Ok(Subjects::Social)
        } else if str_eq(input, "French") {
            Ok(Subjects::French)
        } else if str_eq(input, "french") {
            Ok(Subjects::French)
        } else if str_eq(input, "FRENCH") {
            Ok(Subjects::French)
        } else if str_eq(input, "English") {
            Ok(Subjects::English)
        } else if str_eq(input, "ENGLISH") {
            Ok(Subjects::English)
        } else if str_eq(input, "english") {
            Ok(Subjects::English)
        } else if str_eq(input, "ICT") {
            Ok(Subjects::ICT)
        } else if str_eq(input, "ict") {
            Ok(Subjects::ICT)
        } else if str_eq(input, "informationcommunicationtechnology") {
            Ok(Subjects::ICT)
        } else if str_eq(input, "InformationCommunicationTechnology") {
            Ok(Subjects::ICT)
        } else if str_eq(input, "information_communication_technology") {
            Ok(Subjects::ICT)
        } else if str_eq(input, "Information_Communication_Technology") {
            Ok(Subjects::ICT)
        } else if str_eq(input, "BasicPL") {
            Ok(Subjects::English)
        } else if str_eq(input, "BASICPL") {
            Ok(Subjects::English)
        } else if str_eq(input, "basicpl") {
            Ok(Subjects::English)
        } else if str_eq(input, "basicPL") {
            Ok(Subjects::English)
        } else if str_eq(input, "basicProfessionalLife") {
            Ok(Subjects::BasicPL)
        } else if str_eq(input, "basicprofessionallife") {
            Ok(Subjects::BasicPL)
        } else if str_eq(input, "BasicProfessionalLife") {
            Ok(Subjects::BasicPL)
        } else if str_eq(input, "Basic_Professional_Life") {
            Ok(Subjects::BasicPL)
        } else if str_eq(input, "None") {
            Ok(Subjects::Unset)
        } else if str_eq(input, "NONE") {
            Ok(Subjects::Unset)
        } else if str_eq(input, "none") {
            Ok(Subjects::Unset)
        } else {
            Err(ParseError::UnrecognizedSubject)
        }
    }
}

impl Grades {
    /// Parses one of the accepted spellings of a grade; any other input
    /// fails with `UnrecognizedGrade`.
    pub fn from_str(input: &str) -> (r: Result<Grades, ParseError>)
        ensures
            match parse_grade(input@) {
                Some(v) => r == Ok::<Grades, ParseError>(v),
                Option::None => r == Err::<Grades, ParseError>(ParseError::UnrecognizedGrade),
            },
    {
        if str_eq(input, "Grade1") {
            Ok(Grades::Grade1)
        } else if str_eq(input, "grade1") {
            Ok(Grades::Grade1)
        } else if str_eq(input, "grade_1") {
            Ok(Grades::Grade1)
        } else if str_eq(input, "Grade_1") {
            Ok(Grades::Grade1)
        } else if str_eq(input, "GRADE1") {
            Ok(Grades::Grade1)
        } else if str_eq(input, "GRADE_1") {
            Ok(Grades::Grade1)
        } else if str_eq(input, "1") {
            Ok(Grades::Grade1)
        } else if str_eq(input, "Grade2") {
            Ok(Grades::Grade2)
        } else if str_eq(input, "grade2") {
            Ok(Grades::Grade2)
        } else if str_eq(input, "grade_2") {
            Ok(Grades::Grade2)
        } else if str_eq(input, "Grade_2") {
            Ok(Grades::Grade2)
        } else if str_eq(input, "GRADE2") {
            Ok(Grades::Grade2)
        } else if str_eq(input, "GRADE_2") {
            Ok(Grades::Grade2)
        } else if str_eq(input, "2") {
            Ok(Grades::Grade2)
        } else if str_eq(input, "Grade3") {
            Ok(Grades::Grade3)
        } else if str_eq(input, "grade3") {
            Ok(Grades::Grade3)
        } else if str_eq(input, "grade_3") {
            Ok(Grades::Grade3)
        } else if str_eq(input, "Grade_3") {
            Ok(Grades::Grade3)
        } else if str_eq(input, "GRADE3") {
            Ok(Grades::Grade3)
        } else if str_eq(input, "GRADE_3") {
            Ok(Grades::Grade3)
        } else if str_eq(input, "3") {
            Ok(Grades::Grade3)
        } else if str_eq(input, "Grade4") {
            Ok(Grades::Grade4)
        } else if str_eq(input, "grade4") {
            Ok(Grades::Grade4)
        } else if str_eq(input, "grade_4") {
            Ok(Grades::Grade4)
        } else if str_eq(input, "Grade_4") {
            Ok(Grades::Grade4)
        } else if str_eq(input, "GRADE4") {
            Ok(Grades::Grade4)
        } else if str_eq(input, "GRADE_4") {
            Ok(Grades::Grade4)
        } else if str_eq(input, "4") {
            Ok(Grades::Grade4)
        } else if str_eq(input, "Grade5") {
            Ok(Grades::Grade5)
        } else if str_eq(input, "grade5") {
            Ok(Grades::Grade5)
        } else if str_eq(input, "grade_5") {
            Ok(Grades::Grade5)
        } else if str_eq(input, "Grade_5") {
            Ok(Grades::Grade5)
        } else if str_eq(input, "GRADE5") {
            Ok(Grades::Grade5)
        } else if str_eq(input, "GRADE_5") {
            Ok(Grades::Grade5)
        } else if str_eq(input, "5") {
            Ok(Grades::Grade5)
        } else if str_eq(input, "Grade6") {
            Ok(Grades::Grade6)
        } else if str_eq(input, "grade6") {
            Ok(Grades::Grade6)
        } else if str_eq(input, "grade_6") {
            Ok(Grades::Grade6)
        } else if str_eq(input, "Grade_6") {
            Ok(Grades::Grade6)
        } else if str_eq(input, "GRADE6") {
            Ok(Grades::Grade6)
        } else if str_eq(input, "GRADE_6") {
            Ok(Grades::Grade6)
        } else if str_eq(input, "6") {
            Ok(Grades::Grade6)
        } else if str_eq(input, "None") {
            Ok(Grades::Unset)
        } else if str_eq(input, "NONE") {
            Ok(Grades::Unset)
        } else if str_eq(input, "none") {
            Ok(Grades::Unset)
        } else {
            Err(ParseError::UnrecognizedGrade)
        }
    }
}

impl Subjects {
    /// Renders the canonical spelling; total, one spelling per variant.
    pub fn format(&self) -> (r: String)
        ensures
            r@ == subject_name(*self),
    {
        match self {
            Subjects::MindMotion => "MindMotion".to_owned(),
            Subjects::PreMath => "PreMath".to_owned(),
            Subjects::PreWriting => "PreWriting".to_owned(),
            Subjects::Science => "Science".to_owned(),
            Subjects::Social => "Social".to_owned(),
            Subjects::Art => "Art".to_owned(),
            Subjects::PE => "PE".to_owned(),
            Subjects::French => "French".to_owned(),
            Subjects::English => "English".to_owned(),
            Subjects::ICT => "ICT".to_owned(),
            Subjects::BasicPL => "BasicPL".to_owned(),
            Subjects::Unset => "None".to_owned(),
        }
    }

    /// One fresh traversal of the eleven non-sentinel subjects, in
    /// declaration order; the sentinel never appears.
    pub fn iterator() -> (r: Vec<Subjects>)
        ensures
            r@ == subjects_in_order(),
    {
        let mut v: Vec<Subjects> = Vec::new();
        v.push(Subjects::MindMotion);
        v.push(Subjects::PreMath);
        v.push(Subjects::PreWriting);
        v.push(Subjects::Science);
        v.push(Subjects::Social);
        v.push(Subjects::Art);
        v.push(Subjects::PE);
        v.push(Subjects::French);
        v.push(Subjects::English);
        v.push(Subjects::ICT);
        v.push(Subjects::BasicPL);
        proof {
            assert(v@ =~= subjects_in_order());
        }
        v
    }
}

impl Grades {
    /// Renders the canonical spelling; total, one spelling per variant.
    pub fn format(&self) -> (r: String)
        ensures
            r@ == grade_name(*self),
    {
        match self {
            Grades::Grade1 => "Grade1".to_owned(),
            Grades::Grade2 => "Grade2".to_owned(),
            Grades::Grade3 => "Grade3".to_owned(),
            Grades::Grade4 => "Grade4".to_owned(),
            Grades::Grade5 => "Grade5".to_owned(),
            Grades::Grade6 => "Grade6".to_owned(),
            Grades::Unset => "None".to_owned(),
        }
    }

    /// One fresh traversal of the six numbered grades, ascending; the
    /// sentinel never appears.
    pub fn iterator() -> (r: Vec<Grades>)
        ensures
            r@ == grades_in_order(),
    {
        let mut v: Vec<Grades> = Vec::new();
        v.push(Grades::Grade1);
        v.push(Grades::Grade2);
        v.push(Grades::Grade3);
        v.push(Grades::Grade4);
        v.push(Grades::Grade5);
        v.push(Grades::Grade6);
        proof {
            assert(v@ =~= grades_in_order());
        }
        v
    }
}

impl ParseError {
    /// The human-readable message for this failure, listing the canonical
    /// option spellings.
    pub fn message(&self) -> (r: String)
        ensures
            r@ == error_message(*self),
    {
        match self {
            ParseError::UnrecognizedSubject => "Mismatch type: MindMotion, PreMath, PreWriting, Science, Social, Art, PE, French, English, ICT, BasicPL".to_owned(),
            ParseError::UnrecognizedGrade => "Mismatch type: 1, 2, 3, 4, 5, 6".to_owned(),
        }
    }
}

impl Subjects {
    /// Encodes this variant as its distinguishable wire tag.
    pub fn tag(&self) -> (r: u8)
        ensures
            r == subject_tag(*self),
    {
        match self {
            Subjects::MindMotion => 0,
            Subjects::PreMath => 1,
            Subjects::PreWriting => 2,
            Subjects::Science => 3,
            Subjects::Social => 4,
            Subjects::Art => 5,
            Subjects::PE => 6,
            Subjects::French => 7,
            Subjects::English => 8,
            Subjects::ICT => 9,
            Subjects::BasicPL => 10,
            Subjects::Unset => 11,
        }
    }

    /// Decodes a wire tag back to its variant; an unknown tag yields
    /// nothing.
    pub fn from_tag(t: u8) -> (r: Option<Subjects>)
        ensures
            r == subject_from_tag(t),
    {
        if t == 0 {
            Some(Subjects::MindMotion)
        } else if t == 1 {
            Some(Subjects::PreMath)
        } else if t == 2 {
            Some(Subjects::PreWriting)
        } else if t == 3 {
            Some(Subjects::Science)
        } else if t == 4 {
            Some(Subjects::Social)
        } else if t == 5 {
            Some(Subjects::Art)
        } else if t == 6 {
            Some(Subjects::PE)
        } else if t == 7 {
            Some(Subjects::French)
        } else if t == 8 {
            Some(Subjects::English)
        } else if t == 9 {
            Some(Subjects::ICT)
        } else if t == 10 {
            Some(Subjects::BasicPL)
        } else if t == 11 {
            Some(Subjects::Unset)
        } else {
            Option::None
        }
    }
}

impl Grades {
    /// Encodes this variant as its distinguishable wire tag.
    pub fn tag(&self) -> (r: u8)
        ensures
            r == grade_tag(*self),
    {
        match self {
            Grades::Grade1 => 0,
            Grades::Grade2 => 1,
            Grades::Grade3 => 2,
            Grades::Grade4 => 3,
            Grades::Grade5 => 4,
            Grades::Grade6 => 5,
            Grades::Unset => 6,
        }
    }

    /// Decodes a wire tag back to its variant; an unknown tag yields
    /// nothing.
    pub fn from_tag(t: u8) -> (r: Option<Grades>)
        ensures
            r == grade_from_tag(t),
    {
        if t == 0 {
            Some(Grades::Grade1)
        } else if t == 1 {
            Some(Grades::Grade2)
        } else if t == 2 {
            Some(Grades::Grade3)
        } else if t == 3 {
            Some(Grades::Grade4)
        } else if t == 4 {
            Some(Grades::Grade5)
        } else if t == 5 {
            Some(Grades::Grade6)
        } else if t == 6 {
            Some(Grades::Unset)
        } else {
            Option::None
        }
    }
}

/// Round trip over canonical spellings: parsing the string that `format`
/// produces returns the variant it came from. The one exception is
/// `BasicPL`, whose canonical spelling the alias table deliberately reads
/// as `English`, so it is left out here.
pub proof fn lemma_subject_canonical_round_trip(v: Subjects)
    requires
        v != Subjects::BasicPL,
    ensures
        parse_subject(subject_name(v)) == Some(v),
{
    // Revealing each alias literal and pinning its length decides every
    // branch of the table; same-length pairs are told apart below by one
    // character each.
    reveal_strlit("MindMotion");
    reveal_strlit("mindmotion");
    reveal_strlit("MINDMOTION");
    reveal_strlit("PreMath");
    reveal_strlit("PREMATH");
    reveal_strlit("premath");
    reveal_strlit("PreWriting");
    reveal_strlit("prewriting");
    reveal_strlit("PREWRITING");
    reveal_strlit("Pre-Math");
    reveal_strlit("PRE-MATH");
    reveal_strlit("pre-math");
    reveal_strlit("Pre-Writing");
    reveal_strlit("pre-writing");
    reveal_strlit("PRE-WRITING");
    reveal_strlit("Art");
    reveal_strlit("ART");
    reveal_strlit("art");
    reveal_strlit("PE");
    reveal_strlit("pe");
    reveal_strlit("PhysicalEducation");
    reveal_strlit("physicaleducation");
    reveal_strlit("PHYSICALEDUCATION");
    reveal_strlit("PhysicalEd");
    reveal_strlit("physicaled");
    reveal_strlit("PHYSICALED");
    reveal_strlit("Science");
    reveal_strlit("SCIENCE");
    reveal_strlit("science");
    reveal_strlit("SOCIAL");
    reveal_strlit("social");
    reveal_strlit("Social");
    reveal_strlit("French");
    reveal_strlit("french");
    reveal_strlit("FRENCH");
    reveal_strlit("English");
    reveal_strlit("ENGLISH");
    reveal_strlit("english");
    reveal_strlit("ICT");
    reveal_strlit("ict");
    reveal_strlit("informationcommunicationtechnology");
    reveal_strlit("InformationCommunicationTechnology");
    reveal_strlit("information_communication_technology");
    reveal_strlit("Information_Communication_Technology");
    reveal_strlit("BasicPL");
    reveal_strlit("BASICPL");
    reveal_strlit("basicpl");
    reveal_strlit("basicPL");
    reveal_strlit("basicProfessionalLife");
    reveal_strlit("basicprofessionallife");
    reveal_strlit("BasicProfessionalLife");
    reveal_strlit("Basic_Professional_Life");
    reveal_strlit("None");
    reveal_strlit("NONE");
    reveal_strlit("none");
    assert("MindMotion"@.len() == 10);
    assert("mindmotion"@.len() == 10);
    assert("MINDMOTION"@.len() == 10);
    assert("PreMath"@.len() == 7);
    assert("PREMATH"@.len() == 7);
    assert("premath"@.len() == 7);
    assert("PreWriting"@.len() == 10);
    assert("prewriting"@.len() == 10);
    assert("PREWRITING"@.len() == 10);
    assert("Pre-Math"@.len() == 8);
    assert("PRE-MATH"@.len() == 8);
    assert("pre-math"@.len() == 8);
    assert("Pre-Writing"@.len() == 11);
    assert("pre-writing"@.len() == 11);
    assert("PRE-WRITING"@.len() == 11);
    assert("Art"@.len() == 3);
    assert("ART"@.len() == 3);
    assert("art"@.len() == 3);
    assert("PE"@.len() == 2);
    assert("pe"@.len() == 2);
    assert("PhysicalEducation"@.len() == 17);
    assert("physicaleducation"@.len() == 17);
    assert("PHYSICALEDUCATION"@.len() == 17);
    assert("PhysicalEd"@.len() == 10);
    assert("physicaled"@.len() == 10);
    assert("PHYSICALED"@.len() == 10);
    assert("Science"@.len() == 7);
    assert("SCIENCE"@.len() == 7);
    assert("science"@.len() == 7);
    assert("SOCIAL"@.len() == 6);
    assert("social"@.len() == 6);
    assert("Social"@.len() == 6);
    assert("French"@.len() == 6);
    assert("french"@.len() == 6);
    assert("FRENCH"@.len() == 6);
    assert("English"@.len() == 7);
    assert("ENGLISH"@.len() == 7);
    assert("english"@.len() == 7);
    assert("ICT"@.len() == 3);
    assert("ict"@.len() == 3);
    assert("informationcommunicationtechnology"@.len() == 34);
    assert("InformationCommunicationTechnology"@.len() == 34);
    assert("information_communication_technology"@.len() == 36);
    assert("Information_Communication_Technology"@.len() == 36);
    assert("BasicPL"@.len() == 7);
    assert("BASICPL"@.len() == 7);
    assert("basicpl"@.len() == 7);
    assert("basicPL"@.len() == 7);
    assert("basicProfessionalLife"@.len() == 21);
    assert("basicprofessionallife"@.len() == 21);
    assert("BasicProfessionalLife"@.len() == 21);
    assert("Basic_Professional_Life"@.len() == 23);
    assert("None"@.len() == 4);
    assert("NONE"@.len() == 4);
    assert("none"@.len() == 4);
    assert("PreWriting"@[0] == 'P' && "MindMotion"@[0] == 'M');
    assert("PreWriting"@[0] == 'P' && "mindmotion"@[0] == 'm');
    assert("PreWriting"@[0] == 'P' && "MINDMOTION"@[0] == 'M');
    assert("Science"@[0] == 'S' && "PreMath"@[0] == 'P');
    assert("Science"@[0] == 'S' && "PREMATH"@[0] == 'P');
    assert("Science"@[0] == 'S' && "premath"@[0] == 'p');
    assert("Social"@[1] == 'o' && "SOCIAL"@[1] == 'O');
    assert("Social"@[0] == 'S' && "social"@[0] == 's');
    assert("French"@[0] == 'F' && "SOCIAL"@[0] == 'S');
    assert("French"@[0] == 'F' && "social"@[0] == 's');
    assert("French"@[0] == 'F' && "Social"@[0] == 'S');
    assert("English"@[0] == 'E' && "PreMath"@[0] == 'P');
    assert("English"@[0] == 'E' && "PREMATH"@[0] == 'P');
    assert("English"@[0] == 'E' && "premath"@[0] == 'p');
    assert("English"@[0] == 'E' && "Science"@[0] == 'S');
    assert("English"@[0] == 'E' && "SCIENCE"@[0] == 'S');
    assert("English"@[0] == 'E' && "science"@[0] == 's');
    assert("ICT"@[0] == 'I' && "Art"@[0] == 'A');
    assert("ICT"@[0] == 'I' && "ART"@[0] == 'A');
    assert("ICT"@[0] == 'I' && "art"@[0] == 'a');
}

/// Round trip over canonical spellings for grades, the sentinel included.
pub proof fn lemma_grade_canonical_round_trip(v: Grades)
    ensures
        parse_grade(grade_name(v)) == Some(v),
{
    // Revealing each alias literal and pinning its length decides every
    // branch of the table; same-length pairs are told apart below by one
    // character each.
    reveal_strlit("Grade1");
    reveal_strlit("grade1");
    reveal_strlit("grade_1");
    reveal_strlit("Grade_1");
    reveal_strlit("GRADE1");
    reveal_strlit("GRADE_1");
    reveal_strlit("1");
    reveal_strlit("Grade2");
    reveal_strlit("grade2");
    reveal_strlit("grade_2");
    reveal_strlit("Grade_2");
    reveal_strlit("GRADE2");
    reveal_strlit("GRADE_2");
    reveal_strlit("2");
    reveal_strlit("Grade3");
    reveal_strlit("grade3");
    reveal_strlit("grade_3");
    reveal_strlit("Grade_3");
    reveal_strlit("GRADE3");
    reveal_strlit("GRADE_3");
    reveal_strlit("3");
    reveal_strlit("Grade4");
    reveal_strlit("grade4");
    reveal_strlit("grade_4");
    reveal_strlit("Grade_4");
    reveal_strlit("GRADE4");
    reveal_strlit("GRADE_4");
    reveal_strlit("4");
    reveal_strlit("Grade5");
    reveal_strlit("grade5");
    reveal_strlit("grade_5");
    reveal_strlit("Grade_5");
    reveal_strlit("GRADE5");
    reveal_strlit("GRADE_5");
    reveal_strlit("5");
    reveal_strlit("Grade6");
    reveal_strlit("grade6");
    reveal_strlit("grade_6");
    reveal_strlit("Grade_6");
    reveal_strlit("GRADE6");
    reveal_strlit("GRADE_6");
    reveal_strlit("6");
    reveal_strlit("None");
    reveal_strlit("NONE");
    reveal_strlit("none");
    assert("Grade1"@.len() == 6);
    assert("grade1"@.len() == 6);
    assert("grade_1"@.len() == 7);
    assert("Grade_1"@.len() == 7);
    assert("GRADE1"@.len() == 6);
    assert("GRADE_1"@.len() == 7);
    assert("1"@.len() == 1);
    assert("Grade2"@.len() == 6);
    assert("grade2"@.len() == 6);
    assert("grade_2"@.len() == 7);
    assert("Grade_2"@.len() == 7);
    assert("GRADE2"@.len() == 6);
    assert("GRADE_2"@.len() == 7);
    assert("2"@.len() == 1);
    assert("Grade3"@.len() == 6);
    assert("grade3"@.len() == 6);
    assert("grade_3"@.len() == 7);
    assert("Grade_3"@.len() == 7);
    assert("GRADE3"@.len() == 6);
    assert("GRADE_3"@.len() == 7);
    assert("3"@.len() == 1);
    assert("Grade4"@.len() == 6);
    assert("grade4"@.len() == 6);
    assert("grade_4"@.len() == 7);
    assert("Grade_4"@.len() == 7);
    assert("GRADE4"@.len() == 6);
    assert("GRADE_4"@.len() == 7);
    assert("4"@.len() == 1);
    assert("Grade5"@.len() == 6);
    assert("grade5"@.len() == 6);
    assert("grade_5"@.len() == 7);
    assert("Grade_5"@.len() == 7);
    assert("GRADE5"@.len() == 6);
    assert("GRADE_5"@.len() == 7);
    assert("5"@.len() == 1);
    assert("Grade6"@.len() == 6);
    assert("grade6"@.len() == 6);
    assert("grade_6"@.len() == 7);
    assert("Grade_6"@.len() == 7);
    assert("GRADE6"@.len() == 6);
    assert("GRADE_6"@.len() == 7);
    assert("6"@.len() == 1);
    assert("None"@.len() == 4);
    assert("NONE"@.len() == 4);
    assert("none"@.len() == 4);
    assert("Grade2"@[5] == '2' && "Grade1"@[5] == '1');
    assert("Grade2"@[0] == 'G' && "grade1"@[0] == 'g');
    assert("Grade2"@[1] == 'r' && "GRADE1"@[1] == 'R');
    assert("Grade3"@[5] == '3' && "Grade1"@[5] == '1');
    assert("Grade3"@[0] == 'G' && "grade1"@[0] == 'g');
    assert("Grade3"@[1] == 'r' && "GRADE1"@[1] == 'R');
    assert("Grade3"@[5] == '3' && "Grade2"@[5] == '2');
    assert("Grade3"@[0] == 'G' && "grade2"@[0] == 'g');
    assert("Grade3"@[1] == 'r' && "GRADE2"@[1] == 'R');
    assert("Grade4"@[5] == '4' && "Grade1"@[5] == '1');
    assert("Grade4"@[0] == 'G' && "grade1"@[0] == 'g');
    assert("Grade4"@[1] == 'r' && "GRADE1"@[1] == 'R');
    assert("Grade4"@[5] == '4' && "Grade2"@[5] == '2');
    assert("Grade4"@[0] == 'G' && "grade2"@[0] == 'g');
    assert("Grade4"@[1] == 'r' && "GRADE2"@[1] == 'R');
    assert("Grade4"@[5] == '4' && "Grade3"@[5] == '3');
    assert("Grade4"@[0] == 'G' && "grade3"@[0] == 'g');
    assert("Grade4"@[1] == 'r' && "GRADE3"@[1] == 'R');
    assert("Grade5"@[5] == '5' && "Grade1"@[5] == '1');
    assert("Grade5"@[0] == 'G' && "grade1"@[0] == 'g');
    assert("Grade5"@[1] == 'r' && "GRADE1"@[1] == 'R');
    assert("Grade5"@[5] == '5' && "Grade2"@[5] == '2');
    assert("Grade5"@[0] == 'G' && "grade2"@[0] == 'g');
    assert("Grade5"@[1] == 'r' && "GRADE2"@[1] == 'R');
    assert("Grade5"@[5] == '5' && "Grade3"@[5] == '3');
    assert("Grade5"@[0] == 'G' && "grade3"@[0] == 'g');
    assert("Grade5"@[1] == 'r' && "GRADE3"@[1] == 'R');
    assert("Grade5"@[5] == '5' && "Grade4"@[5] == '4');
    assert("Grade5"@[0] == 'G' && "grade4"@[0] == 'g');
    assert("Grade5"@[1] == 'r' && "GRADE4"@[1] == 'R');
    assert("Grade6"@[5] == '6' && "Grade1"@[5] == '1');
    assert("Grade6"@[0] == 'G' && "grade1"@[0] == 'g');
    assert("Grade6"@[1] == 'r' && "GRADE1"@[1] == 'R');
    assert("Grade6"@[5] == '6' && "Grade2"@[5] == '2');
    assert("Grade6"@[0] == 'G' && "grade2"@[0] == 'g');
    assert("Grade6"@[1] == 'r' && "GRADE2"@[1] == 'R');
    assert("Grade6"@[5] == '6' && "Grade3"@[5] == '3');
    assert("Grade6"@[0] == 'G' && "grade3"@[0] == 'g');
    assert("Grade6"@[1] == 'r' && "GRADE3"@[1] == 'R');
    assert("Grade6"@[5] == '6' && "Grade4"@[5] == '4');
    assert("Grade6"@[0] == 'G' && "grade4"@[0] == 'g');
    assert("Grade6"@[1] == 'r' && "GRADE4"@[1] == 'R');
    assert("Grade6"@[5] == '6' && "Grade5"@[5] == '5');
    assert("Grade6"@[0] == 'G' && "grade5"@[0] == 'g');
    assert("Grade6"@[1] == 'r' && "GRADE5"@[1] == 'R');
}

/// The deliberate asymmetry in the subject table: the `BasicPL` spellings
/// parse to `English`, while the `basicProfessionalLife` spellings parse to
/// `BasicPL`.
pub proof fn lemma_basic_pl_asymmetry()
    ensures
        parse_subject("BasicPL"@) == Some(Subjects::English),
        parse_subject("basicPL"@) == Some(Subjects::English),
        parse_subject("Basic_Professional_Life"@) == Some(Subjects::BasicPL),
        parse_subject("basicProfessionalLife"@) == Some(Subjects::BasicPL),
{
    // Revealing each alias literal and pinning its length decides every
    // branch of the table; same-length pairs are told apart below by one
    // character each.
    reveal_strlit("MindMotion");
    reveal_strlit("mindmotion");
    reveal_strlit("MINDMOTION");
    reveal_strlit("PreMath");
    reveal_strlit("PREMATH");
    reveal_strlit("premath");
    reveal_strlit("PreWriting");
    reveal_strlit("prewriting");
    reveal_strlit("PREWRITING");
    reveal_strlit("Pre-Math");
    reveal_strlit("PRE-MATH");
    reveal_strlit("pre-math");
    reveal_strlit("Pre-Writing");
    reveal_strlit("pre-writing");
    reveal_strlit("PRE-WRITING");
    reveal_strlit("Art");
    reveal_strlit("ART");
    reveal_strlit("art");
    reveal_strlit("PE");
    reveal_strlit("pe");
    reveal_strlit("PhysicalEducation");
    reveal_strlit("physicaleducation");
    reveal_strlit("PHYSICALEDUCATION");
    reveal_strlit("PhysicalEd");
    reveal_strlit("physicaled");
    reveal_strlit("PHYSICALED");
    reveal_strlit("Science");
    reveal_strlit("SCIENCE");
    reveal_strlit("science");
    reveal_strlit("SOCIAL");
    reveal_strlit("social");
    reveal_strlit("Social");
    reveal_strlit("French");
    reveal_strlit("french");
    reveal_strlit("FRENCH");
    reveal_strlit("English");
    reveal_strlit("ENGLISH");
    reveal_strlit("english");
    reveal_strlit("ICT");
    reveal_strlit("ict");
    reveal_strlit("informationcommunicationtechnology");
    reveal_strlit("InformationCommunicationTechnology");
    reveal_strlit("information_communication_technology");
    reveal_strlit("Information_Communication_Technology");
    reveal_strlit("BasicPL");
    reveal_strlit("BASICPL");
    reveal_strlit("basicpl");
    reveal_strlit("basicPL");
    reveal_strlit("basicProfessionalLife");
    reveal_strlit("basicprofessionallife");
    reveal_strlit("BasicProfessionalLife");
    reveal_strlit("Basic_Professional_Life");
    reveal_strlit("None");
    reveal_strlit("NONE");
    reveal_strlit("none");
    assert("MindMotion"@.len() == 10);
    assert("mindmotion"@.len() == 10);
    assert("MINDMOTION"@.len() == 10);
    assert("PreMath"@.len() == 7);
    assert("PREMATH"@.len() == 7);
    assert("premath"@.len() == 7);
    assert("PreWriting"@.len() == 10);
    assert("prewriting"@.len() == 10);
    assert("PREWRITING"@.len() == 10);
    assert("Pre-Math"@.len() == 8);
    assert("PRE-MATH"@.len() == 8);
    assert("pre-math"@.len() == 8);
    assert("Pre-Writing"@.len() == 11);
    assert("pre-writing"@.len() == 11);
    assert("PRE-WRITING"@.len() == 11);
    assert("Art"@.len() == 3);
    assert("ART"@.len() == 3);
    assert("art"@.len() == 3);
    assert("PE"@.len() == 2);
    assert("pe"@.len() == 2);
    assert("PhysicalEducation"@.len() == 17);
    assert("physicaleducation"@.len() == 17);
    assert("PHYSICALEDUCATION"@.len() == 17);
    assert("PhysicalEd"@.len() == 10);
    assert("physicaled"@.len() == 10);
    assert("PHYSICALED"@.len() == 10);
    assert("Science"@.len() == 7);
    assert("SCIENCE"@.len() == 7);
    assert("science"@.len() == 7);
    assert("SOCIAL"@.len() == 6);
    assert("social"@.len() == 6);
    assert("Social"@.len() == 6);
    assert("French"@.len() == 6);
    assert("french"@.len() == 6);
    assert("FRENCH"@.len() == 6);
    assert("English"@.len() == 7);
    assert("ENGLISH"@.len() == 7);
    assert("english"@.len() == 7);
    assert("ICT"@.len() == 3);
    assert("ict"@.len() == 3);
    assert("informationcommunicationtechnology"@.len() == 34);
    assert("InformationCommunicationTechnology"@.len() == 34);
    assert("information_communication_technology"@.len() == 36);
    assert("Information_Communication_Technology"@.len() == 36);
    assert("BasicPL"@.len() == 7);
    assert("BASICPL"@.len() == 7);
    assert("basicpl"@.len() == 7);
    assert("basicPL"@.len() == 7);
    assert("basicProfessionalLife"@.len() == 21);
    assert("basicprofessionallife"@.len() == 21);
    assert("BasicProfessionalLife"@.len() == 21);
    assert("Basic_Professional_Life"@.len() == 23);
    assert("None"@.len() == 4);
    assert("NONE"@.len() == 4);
    assert("none"@.len() == 4);
    assert("BasicPL"@[0] == 'B' && "PreMath"@[0] == 'P');
    assert("BasicPL"@[0] == 'B' && "PREMATH"@[0] == 'P');
    assert("BasicPL"@[0] == 'B' && "premath"@[0] == 'p');
    assert("BasicPL"@[0] == 'B' && "Science"@[0] == 'S');
    assert("BasicPL"@[0] == 'B' && "SCIENCE"@[0] == 'S');
    assert("BasicPL"@[0] == 'B' && "science"@[0] == 's');
    assert("BasicPL"@[0] == 'B' && "English"@[0] == 'E');
    assert("BasicPL"@[0] == 'B' && "ENGLISH"@[0] == 'E');
    assert("BasicPL"@[0] == 'B' && "english"@[0] == 'e');
    assert("basicPL"@[0] == 'b' && "PreMath"@[0] == 'P');
    assert("basicPL"@[0] == 'b' && "PREMATH"@[0] == 'P');
    assert("basicPL"@[0] == 'b' && "premath"@[0] == 'p');
    assert("basicPL"@[0] == 'b' && "Science"@[0] == 'S');
    assert("basicPL"@[0] == 'b' && "SCIENCE"@[0] == 'S');
    assert("basicPL"@[0] == 'b' && "science"@[0] == 's');
    assert("basicPL"@[0] == 'b' && "English"@[0] == 'E');
    assert("basicPL"@[0] == 'b' && "ENGLISH"@[0] == 'E');
    assert("basicPL"@[0] == 'b' && "english"@[0] == 'e');
    assert("basicPL"@[0] == 'b' && "BasicPL"@[0] == 'B');
    assert("basicPL"@[0] == 'b' && "BASICPL"@[0] == 'B');
    assert("basicPL"@[5] == 'P' && "basicpl"@[5] == 'p');
}

/// The subject traversal has exactly eleven elements and never yields the
/// sentinel.
pub proof fn lemma_subjects_iteration_excludes_sentinel()
    ensures
        subjects_in_order().len() == 11,
        forall|i: int|
            0 <= i < subjects_in_order().len() ==> subjects_in_order()[i] != Subjects::Unset,
{
}

/// The grade traversal has exactly six elements, the numbered grades in
/// ascending order, and never yields the sentinel.
pub proof fn lemma_grades_iteration_excludes_sentinel()
    ensures
        grades_in_order().len() == 6,
        forall|i: int| 0 <= i < grades_in_order().len() ==> grades_in_order()[i] != Grades::Unset,
{
}

/// Iteration over subjects is restartable and stateless: the sequence
/// depends on nothing, so any two traversals are identical.
pub proof fn lemma_subjects_iteration_restartable(a: Seq<Subjects>, b: Seq<Subjects>)
    requires
        a == subjects_in_order(),
        b == subjects_in_order(),
    ensures
        a == b,
{
}

/// Iteration over grades is restartable and stateless in the same way.
pub proof fn lemma_grades_iteration_restartable(a: Seq<Grades>, b: Seq<Grades>)
    requires
        a == grades_in_order(),
        b == grades_in_order(),
    ensures
        a == b,
{
}

/// Every subject round-trips through its wire tag, the sentinel and
/// `BasicPL` included.
pub proof fn lemma_subject_tag_round_trip(v: Subjects)
    ensures
        subject_from_tag(subject_tag(v)) == Some(v),
{
}

/// Every grade round-trips through its wire tag.
pub proof fn lemma_grade_tag_round_trip(v: Grades)
    ensures
        grade_from_tag(grade_tag(v)) == Some(v),
{
}


} // verus!
