use catalogs::categories::{Grades, ParseError, Subjects};

#[test]
fn subject_alias_table() {
    assert_eq!(Subjects::from_str("MindMotion"), Ok(Subjects::MindMotion));
    assert_eq!(Subjects::from_str("mindmotion"), Ok(Subjects::MindMotion));
    assert_eq!(Subjects::from_str("MINDMOTION"), Ok(Subjects::MindMotion));
    assert_eq!(Subjects::from_str("PreMath"), Ok(Subjects::PreMath));
    assert_eq!(Subjects::from_str("PREMATH"), Ok(Subjects::PreMath));
    assert_eq!(Subjects::from_str("premath"), Ok(Subjects::PreMath));
    assert_eq!(Subjects::from_str("PreWriting"), Ok(Subjects::PreWriting));
    assert_eq!(Subjects::from_str("prewriting"), Ok(Subjects::PreWriting));
    assert_eq!(Subjects::from_str("PREWRITING"), Ok(Subjects::PreWriting));
    assert_eq!(Subjects::from_str("Pre-Math"), Ok(Subjects::PreMath));
    assert_eq!(Subjects::from_str("PRE-MATH"), Ok(Subjects::PreMath));
    assert_eq!(Subjects::from_str("pre-math"), Ok(Subjects::PreMath));
    assert_eq!(Subjects::from_str("Pre-Writing"), Ok(Subjects::PreWriting));
    assert_eq!(Subjects::from_str("pre-writing"), Ok(Subjects::PreWriting));
    assert_eq!(Subjects::from_str("PRE-WRITING"), Ok(Subjects::PreWriting));
    assert_eq!(Subjects::from_str("Art"), Ok(Subjects::Art));
    assert_eq!(Subjects::from_str("ART"), Ok(Subjects::Art));
    assert_eq!(Subjects::from_str("art"), Ok(Subjects::Art));
    assert_eq!(Subjects::from_str("PE"), Ok(Subjects::PE));
    assert_eq!(Subjects::from_str("pe"), Ok(Subjects::PE));
    assert_eq!(Subjects::from_str("PhysicalEducation"), Ok(Subjects::PE));
    assert_eq!(Subjects::from_str("physicaleducation"), Ok(Subjects::PE));
    assert_eq!(Subjects::from_str("PHYSICALEDUCATION"), Ok(Subjects::PE));
    assert_eq!(Subjects::from_str("PhysicalEd"), Ok(Subjects::PE));
    assert_eq!(Subjects::from_str("physicaled"), Ok(Subjects::PE));
    assert_eq!(Subjects::from_str("PHYSICALED"), Ok(Subjects::PE));
    assert_eq!(Subjects::from_str("Science"), Ok(Subjects::Science));
    assert_eq!(Subjects::from_str("SCIENCE"), Ok(Subjects::Science));
    assert_eq!(Subjects::from_str("science"), Ok(Subjects::Science));
    assert_eq!(Subjects::from_str("SOCIAL"), Ok(Subjects::Social));
    assert_eq!(Subjects::from_str("social"), Ok(Subjects::Social));
    assert_eq!(Subjects::from_str("Social"), Ok(Subjects::Social));
    assert_eq!(Subjects::from_str("French"), Ok(Subjects::French));
    assert_eq!(Subjects::from_str("french"), Ok(Subjects::French));
    assert_eq!(Subjects::from_str("FRENCH"), Ok(Subjects::French));
    assert_eq!(Subjects::from_str("English"), Ok(Subjects::English));
    assert_eq!(Subjects::from_str("ENGLISH"), Ok(Subjects::English));
    assert_eq!(Subjects::from_str("english"), Ok(Subjects::English));
    assert_eq!(Subjects::from_str("ICT"), Ok(Subjects::ICT));
    assert_eq!(Subjects::from_str("ict"), Ok(Subjects::ICT));
    assert_eq!(Subjects::from_str("informationcommunicationtechnology"), Ok(Subjects::ICT));
    assert_eq!(Subjects::from_str("InformationCommunicationTechnology"), Ok(Subjects::ICT));
    assert_eq!(Subjects::from_str("information_communication_technology"), Ok(Subjects::ICT));
    assert_eq!(Subjects::from_str("Information_Communication_Technology"), Ok(Subjects::ICT));
    assert_eq!(Subjects::from_str("BasicPL"), Ok(Subjects::English));
    assert_eq!(Subjects::from_str("BASICPL"), Ok(Subjects::English));
    assert_eq!(Subjects::from_str("basicpl"), Ok(Subjects::English));
    assert_eq!(Subjects::from_str("basicPL"), Ok(Subjects::English));
    assert_eq!(Subjects::from_str("basicProfessionalLife"), Ok(Subjects::BasicPL));
    assert_eq!(Subjects::from_str("basicprofessionallife"), Ok(Subjects::BasicPL));
    assert_eq!(Subjects::from_str("BasicProfessionalLife"), Ok(Subjects::BasicPL));
    assert_eq!(Subjects::from_str("Basic_Professional_Life"), Ok(Subjects::BasicPL));
    assert_eq!(Subjects::from_str("None"), Ok(Subjects::Unset));
    assert_eq!(Subjects::from_str("NONE"), Ok(Subjects::Unset));
    assert_eq!(Subjects::from_str("none"), Ok(Subjects::Unset));
}

#[test]
fn grade_alias_table() {
    assert_eq!(Grades::from_str("Grade1"), Ok(Grades::Grade1));
    assert_eq!(Grades::from_str("grade1"), Ok(Grades::Grade1));
    assert_eq!(Grades::from_str("grade_1"), Ok(Grades::Grade1));
    assert_eq!(Grades::from_str("Grade_1"), Ok(Grades::Grade1));
    assert_eq!(Grades::from_str("GRADE1"), Ok(Grades::Grade1));
    assert_eq!(Grades::from_str("GRADE_1"), Ok(Grades::Grade1));
    assert_eq!(Grades::from_str("1"), Ok(Grades::Grade1));
    assert_eq!(Grades::from_str("Grade2"), Ok(Grades::Grade2));
    assert_eq!(Grades::from_str("grade2"), Ok(Grades::Grade2));
    assert_eq!(Grades::from_str("grade_2"), Ok(Grades::Grade2));
    assert_eq!(Grades::from_str("Grade_2"), Ok(Grades::Grade2));
    assert_eq!(Grades::from_str("GRADE2"), Ok(Grades::Grade2));
    assert_eq!(Grades::from_str("GRADE_2"), Ok(Grades::Grade2));
    assert_eq!(Grades::from_str("2"), Ok(Grades::Grade2));
    assert_eq!(Grades::from_str("Grade3"), Ok(Grades::Grade3));
    assert_eq!(Grades::from_str("grade3"), Ok(Grades::Grade3));
    assert_eq!(Grades::from_str("grade_3"), Ok(Grades::Grade3));
    assert_eq!(Grades::from_str("Grade_3"), Ok(Grades::Grade3));
    assert_eq!(Grades::from_str("GRADE3"), Ok(Grades::Grade3));
    assert_eq!(Grades::from_str("GRADE_3"), Ok(Grades::Grade3));
    assert_eq!(Grades::from_str("3"), Ok(Grades::Grade3));
    assert_eq!(Grades::from_str("Grade4"), Ok(Grades::Grade4));
    assert_eq!(Grades::from_str("grade4"), Ok(Grades::Grade4));
    assert_eq!(Grades::from_str("grade_4"), Ok(Grades::Grade4));
    assert_eq!(Grades::from_str("Grade_4"), Ok(Grades::Grade4));
    assert_eq!(Grades::from_str("GRADE4"), Ok(Grades::Grade4));
    assert_eq!(Grades::from_str("GRADE_4"), Ok(Grades::Grade4));
    assert_eq!(Grades::from_str("4"), Ok(Grades::Grade4));
    assert_eq!(Grades::from_str("Grade5"), Ok(Grades::Grade5));
    assert_eq!(Grades::from_str("grade5"), Ok(Grades::Grade5));
    assert_eq!(Grades::from_str("grade_5"), Ok(Grades::Grade5));
    assert_eq!(Grades::from_str("Grade_5"), Ok(Grades::Grade5));
    assert_eq!(Grades::from_str("GRADE5"), Ok(Grades::Grade5));
    assert_eq!(Grades::from_str("GRADE_5"), Ok(Grades::Grade5));
    assert_eq!(Grades::from_str("5"), Ok(Grades::Grade5));
    assert_eq!(Grades::from_str("Grade6"), Ok(Grades::Grade6));
    assert_eq!(Grades::from_str("grade6"), Ok(Grades::Grade6));
    assert_eq!(Grades::from_str("grade_6"), Ok(Grades::Grade6));
    assert_eq!(Grades::from_str("Grade_6"), Ok(Grades::Grade6));
    assert_eq!(Grades::from_str("GRADE6"), Ok(Grades::Grade6));
    assert_eq!(Grades::from_str("GRADE_6"), Ok(Grades::Grade6));
    assert_eq!(Grades::from_str("6"), Ok(Grades::Grade6));
    assert_eq!(Grades::from_str("None"), Ok(Grades::Unset));
    assert_eq!(Grades::from_str("NONE"), Ok(Grades::Unset));
    assert_eq!(Grades::from_str("none"), Ok(Grades::Unset));
}

#[test]
fn subject_canonical_spellings() {
    assert_eq!(Subjects::MindMotion.format(), "MindMotion");
    assert_eq!(Subjects::PreMath.format(), "PreMath");
    assert_eq!(Subjects::PreWriting.format(), "PreWriting");
    assert_eq!(Subjects::Science.format(), "Science");
    assert_eq!(Subjects::Social.format(), "Social");
    assert_eq!(Subjects::Art.format(), "Art");
    assert_eq!(Subjects::PE.format(), "PE");
    assert_eq!(Subjects::French.format(), "French");
    assert_eq!(Subjects::English.format(), "English");
    assert_eq!(Subjects::ICT.format(), "ICT");
    assert_eq!(Subjects::BasicPL.format(), "BasicPL");
    assert_eq!(Subjects::Unset.format(), "None");
}

#[test]
fn grade_canonical_spellings() {
    assert_eq!(Grades::Grade1.format(), "Grade1");
    assert_eq!(Grades::Grade2.format(), "Grade2");
    assert_eq!(Grades::Grade3.format(), "Grade3");
    assert_eq!(Grades::Grade4.format(), "Grade4");
    assert_eq!(Grades::Grade5.format(), "Grade5");
    assert_eq!(Grades::Grade6.format(), "Grade6");
    assert_eq!(Grades::Unset.format(), "None");
}

#[test]
fn subject_canonical_round_trip() {
    assert_eq!(Subjects::from_str(&Subjects::MindMotion.format()), Ok(Subjects::MindMotion));
    assert_eq!(Subjects::from_str(&Subjects::PreMath.format()), Ok(Subjects::PreMath));
    assert_eq!(Subjects::from_str(&Subjects::PreWriting.format()), Ok(Subjects::PreWriting));
    assert_eq!(Subjects::from_str(&Subjects::Science.format()), Ok(Subjects::Science));
    assert_eq!(Subjects::from_str(&Subjects::Social.format()), Ok(Subjects::Social));
    assert_eq!(Subjects::from_str(&Subjects::Art.format()), Ok(Subjects::Art));
    assert_eq!(Subjects::from_str(&Subjects::PE.format()), Ok(Subjects::PE));
    assert_eq!(Subjects::from_str(&Subjects::French.format()), Ok(Subjects::French));
    assert_eq!(Subjects::from_str(&Subjects::English.format()), Ok(Subjects::English));
    assert_eq!(Subjects::from_str(&Subjects::ICT.format()), Ok(Subjects::ICT));
    assert_eq!(Subjects::from_str(&Subjects::Unset.format()), Ok(Subjects::Unset));
    // The deliberate exception: the canonical spelling of BasicPL parses to English.
    assert_eq!(Subjects::from_str(&Subjects::BasicPL.format()), Ok(Subjects::English));
}

#[test]
fn grade_canonical_round_trip() {
    assert_eq!(Grades::from_str(&Grades::Grade1.format()), Ok(Grades::Grade1));
    assert_eq!(Grades::from_str(&Grades::Grade2.format()), Ok(Grades::Grade2));
    assert_eq!(Grades::from_str(&Grades::Grade3.format()), Ok(Grades::Grade3));
    assert_eq!(Grades::from_str(&Grades::Grade4.format()), Ok(Grades::Grade4));
    assert_eq!(Grades::from_str(&Grades::Grade5.format()), Ok(Grades::Grade5));
    assert_eq!(Grades::from_str(&Grades::Grade6.format()), Ok(Grades::Grade6));
    assert_eq!(Grades::from_str(&Grades::Unset.format()), Ok(Grades::Unset));
}

#[test]
fn basic_pl_asymmetry() {
    assert_eq!(Subjects::from_str("BasicPL"), Ok(Subjects::English));
    assert_eq!(Subjects::from_str("BASICPL"), Ok(Subjects::English));
    assert_eq!(Subjects::from_str("basicpl"), Ok(Subjects::English));
    assert_eq!(Subjects::from_str("basicPL"), Ok(Subjects::English));
    assert_eq!(Subjects::from_str("basicProfessionalLife"), Ok(Subjects::BasicPL));
    assert_eq!(Subjects::from_str("Basic_Professional_Life"), Ok(Subjects::BasicPL));
}

#[test]
fn unrecognized_subject() {
    assert_eq!(Subjects::from_str("not-a-subject"), Err(ParseError::UnrecognizedSubject));
    assert_eq!(Subjects::from_str(""), Err(ParseError::UnrecognizedSubject));
    assert_eq!(Subjects::from_str("Mindmotion"), Err(ParseError::UnrecognizedSubject));
    assert_eq!(Subjects::from_str("Pre_Math"), Err(ParseError::UnrecognizedSubject));
    assert_eq!(Subjects::from_str("maths"), Err(ParseError::UnrecognizedSubject));
    assert_eq!(Subjects::from_str("1"), Err(ParseError::UnrecognizedSubject));
}

#[test]
fn unrecognized_grade() {
    assert_eq!(Grades::from_str("7"), Err(ParseError::UnrecognizedGrade));
    assert_eq!(Grades::from_str("0"), Err(ParseError::UnrecognizedGrade));
    assert_eq!(Grades::from_str(""), Err(ParseError::UnrecognizedGrade));
    assert_eq!(Grades::from_str("Grade7"), Err(ParseError::UnrecognizedGrade));
    assert_eq!(Grades::from_str("grade 1"), Err(ParseError::UnrecognizedGrade));
    assert_eq!(Grades::from_str("Grade"), Err(ParseError::UnrecognizedGrade));
}

#[test]
fn error_messages() {
    assert_eq!(
        ParseError::UnrecognizedSubject.message(),
        "Mismatch type: MindMotion, PreMath, PreWriting, Science, Social, Art, PE, French, English, ICT, BasicPL"
    );
    assert_eq!(ParseError::UnrecognizedGrade.message(), "Mismatch type: 1, 2, 3, 4, 5, 6");
}

#[test]
fn subject_iteration_order() {
    let order = Subjects::iterator();
    let expected = vec![
        Subjects::MindMotion,
        Subjects::PreMath,
        Subjects::PreWriting,
        Subjects::Science,
        Subjects::Social,
        Subjects::Art,
        Subjects::PE,
        Subjects::French,
        Subjects::English,
        Subjects::ICT,
        Subjects::BasicPL,
    ];
    assert_eq!(order.len(), 11);
    assert_eq!(order, expected);
    for s in order {
        assert_ne!(s, Subjects::Unset);
    }
}

#[test]
fn grade_iteration_order() {
    let order = Grades::iterator();
    let expected = vec![
        Grades::Grade1,
        Grades::Grade2,
        Grades::Grade3,
        Grades::Grade4,
        Grades::Grade5,
        Grades::Grade6,
    ];
    assert_eq!(order.len(), 6);
    assert_eq!(order, expected);
    for g in order {
        assert_ne!(g, Grades::Unset);
    }
}

#[test]
fn iteration_is_restartable() {
    let first = Subjects::iterator();
    let second = Subjects::iterator();
    assert_eq!(first, second);
    let first = Grades::iterator();
    let second = Grades::iterator();
    assert_eq!(first, second);
}

#[test]
fn sentinel_parses_and_formats() {
    assert_eq!(Subjects::Unset.format(), "None");
    assert_eq!(Subjects::from_str("none"), Ok(Subjects::Unset));
    assert_eq!(Grades::Unset.format(), "None");
    assert_eq!(Grades::from_str("none"), Ok(Grades::Unset));
}

#[test]
fn subject_tag_round_trip() {
    assert_eq!(Subjects::from_tag(Subjects::MindMotion.tag()), Some(Subjects::MindMotion));
    assert_eq!(Subjects::from_tag(Subjects::PreMath.tag()), Some(Subjects::PreMath));
    assert_eq!(Subjects::from_tag(Subjects::PreWriting.tag()), Some(Subjects::PreWriting));
    assert_eq!(Subjects::from_tag(Subjects::Science.tag()), Some(Subjects::Science));
    assert_eq!(Subjects::from_tag(Subjects::Social.tag()), Some(Subjects::Social));
    assert_eq!(Subjects::from_tag(Subjects::Art.tag()), Some(Subjects::Art));
    assert_eq!(Subjects::from_tag(Subjects::PE.tag()), Some(Subjects::PE));
    assert_eq!(Subjects::from_tag(Subjects::French.tag()), Some(Subjects::French));
    assert_eq!(Subjects::from_tag(Subjects::English.tag()), Some(Subjects::English));
    assert_eq!(Subjects::from_tag(Subjects::ICT.tag()), Some(Subjects::ICT));
    assert_eq!(Subjects::from_tag(Subjects::BasicPL.tag()), Some(Subjects::BasicPL));
    assert_eq!(Subjects::from_tag(Subjects::Unset.tag()), Some(Subjects::Unset));
    assert_eq!(Subjects::from_tag(12), None);
    assert_eq!(Subjects::from_tag(255), None);
}

#[test]
fn grade_tag_round_trip() {
    assert_eq!(Grades::from_tag(Grades::Grade1.tag()), Some(Grades::Grade1));
    assert_eq!(Grades::from_tag(Grades::Grade2.tag()), Some(Grades::Grade2));
    assert_eq!(Grades::from_tag(Grades::Grade3.tag()), Some(Grades::Grade3));
    assert_eq!(Grades::from_tag(Grades::Grade4.tag()), Some(Grades::Grade4));
    assert_eq!(Grades::from_tag(Grades::Grade5.tag()), Some(Grades::Grade5));
    assert_eq!(Grades::from_tag(Grades::Grade6.tag()), Some(Grades::Grade6));
    assert_eq!(Grades::from_tag(Grades::Unset.tag()), Some(Grades::Unset));
    assert_eq!(Grades::from_tag(7), None);
    assert_eq!(Grades::from_tag(255), None);
}

#[test]
fn tags_are_distinct() {
    let mut seen = vec![];
    for s in Subjects::iterator() {
        assert!(!seen.contains(&s.tag()));
        seen.push(s.tag());
    }
    assert!(!seen.contains(&Subjects::Unset.tag()));
    let mut seen = vec![];
    for g in Grades::iterator() {
        assert!(!seen.contains(&g.tag()));
        seen.push(g.tag());
    }
    assert!(!seen.contains(&Grades::Unset.tag()));
}
