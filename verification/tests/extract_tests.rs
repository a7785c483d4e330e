use wca_userinfo::{
    extract_profile_fields, extract_user_info, profile_fields_from_trimmed, Gender, ParseError,
};

fn cells(texts: &[&str]) -> Vec<String> {
    texts.iter().map(|c| String::from(*c)).collect()
}

#[test]
fn four_cells_mean_no_gender() {
    let p = extract_profile_fields(&cells(&["USA", "2015DOEX01", "12", "340"])).unwrap();
    assert_eq!(p.country, "USA");
    assert_eq!(p.wca_id, "2015DOEX01");
    assert_eq!(p.gender, None);
    assert_eq!(p.competitions, 12);
    assert_eq!(p.completed_solves, 340);
}

#[test]
fn five_cells_classify_the_third_as_gender() {
    let p = extract_profile_fields(&cells(&["USA", "2015DOEX01", "Male", "12", "340"])).unwrap();
    assert_eq!(p.gender, Some(Gender::Male));
    assert_eq!(p.country, "USA");
    assert_eq!(p.wca_id, "2015DOEX01");
    assert_eq!(p.competitions, 12);
    assert_eq!(p.completed_solves, 340);

    let p = extract_profile_fields(&cells(&["USA", "2015DOEX01", "Female", "12", "340"])).unwrap();
    assert_eq!(p.gender, Some(Gender::Female));

    let p = extract_profile_fields(&cells(&["USA", "2015DOEX01", "anything", "12", "340"])).unwrap();
    assert_eq!(p.gender, Some(Gender::Other));
}

#[test]
fn wrong_cardinality_is_structural() {
    for n in [0usize, 1, 2, 3, 6, 7] {
        let texts: Vec<String> = (0..n).map(|i| format!("c{}", i)).collect();
        let r = extract_profile_fields(&texts);
        assert_eq!(r, Err(ParseError::WrongUserInfoCount { found: n }), "count {}", n);
    }
}

#[test]
fn empty_cell_is_missing_information() {
    let r = extract_profile_fields(&cells(&["USA", "", "Male", "12", "340"]));
    assert_eq!(r, Err(ParseError::MissingUserInfo));
}

#[test]
fn whitespace_only_cell_is_missing_information() {
    let r = extract_profile_fields(&cells(&["USA", "2015DOEX01", "  ", "12", "340"]));
    assert_eq!(r, Err(ParseError::MissingUserInfo));
    let r = extract_profile_fields(&cells(&["\t \n", "2015DOEX01", "12", "340"]));
    assert_eq!(r, Err(ParseError::MissingUserInfo));
}

#[test]
fn emptiness_is_judged_before_cardinality() {
    // Six cells, one of them blank: the blank cell is reported, not the count.
    let r = extract_profile_fields(&cells(&["a", "b", "c", "", "e", "f"]));
    assert_eq!(r, Err(ParseError::MissingUserInfo));
}

#[test]
fn metadata_cells_are_trimmed() {
    let p = extract_profile_fields(&cells(&[" USA ", "\t2015DOEX01", "Male", " 12", "340\n"]))
        .unwrap();
    assert_eq!(p.country, "USA");
    assert_eq!(p.wca_id, "2015DOEX01");
    assert_eq!(p.gender, Some(Gender::Male));
    assert_eq!(p.competitions, 12);
    assert_eq!(p.completed_solves, 340);
}

#[test]
fn malformed_counters_surface_as_field_errors() {
    let r = extract_profile_fields(&cells(&["USA", "2015DOEX01", "Male", "abc", "340"]));
    assert_eq!(r, Err(ParseError::MalformedInt { raw: String::from("abc") }));
    let r = extract_profile_fields(&cells(&["USA", "2015DOEX01", "Male", "12", "x"]));
    assert_eq!(r, Err(ParseError::MalformedInt { raw: String::from("x") }));
}

#[test]
fn trimmed_variant_takes_cells_verbatim() {
    let p = profile_fields_from_trimmed(&cells(&["USA", "2015DOEX01", "12", "340"])).unwrap();
    assert_eq!(p.country, "USA");
    assert_eq!(p.gender, None);
    // Untrimmed whitespace is not stripped here: it makes the counter malformed.
    let r = profile_fields_from_trimmed(&cells(&["USA", "2015DOEX01", "12 ", "340"]));
    assert_eq!(r, Err(ParseError::MalformedInt { raw: String::from("12 ") }));
}

#[test]
fn assembly_combines_fields_and_events() {
    let info = cells(&["USA", "2015DOEX01", "Male", "12", "340"]);
    let rows = vec![
        cells(&["3x3x3", "5", "3", "1", "9.50", "9.80", "4", "2", "6", ""]),
        cells(&["2x2x2", "", "", "", "2.01", "", "", "", "", ""]),
    ];
    let u = extract_user_info(&info, &rows).unwrap();
    assert_eq!(u.country, "USA");
    assert_eq!(u.wca_id, "2015DOEX01");
    assert_eq!(u.gender, Some(Gender::Male));
    assert_eq!(u.competitions, 12);
    assert_eq!(u.completed_solves, 340);
    assert_eq!(u.events.len(), 2);
    assert_eq!(u.events[0].name, "3x3x3");
    assert_eq!(u.events[1].name, "2x2x2");
    assert_eq!(u.events[1].single.time, Some(String::from("2.01")));
    assert_eq!(u.events[1].single.national, None);
    assert_eq!(u.events[1].average.time, None);
}

#[test]
fn assembly_is_all_or_nothing() {
    let info = cells(&["USA", "2015DOEX01", "Male", "12", "340"]);
    let rows = vec![
        cells(&["3x3x3", "5", "3", "1", "9.50", "9.80", "4", "2", "6", ""]),
        cells(&["2x2x2", "bad"]),
    ];
    let r = extract_user_info(&info, &rows);
    assert_eq!(r, Err(ParseError::WrongEventCellCount { found: 2 }));
}

#[test]
fn assembly_reports_metadata_error_first() {
    let info = cells(&["USA", "", "Male", "12", "340"]);
    let rows = vec![cells(&["too", "short"])];
    let r = extract_user_info(&info, &rows);
    assert_eq!(r, Err(ParseError::MissingUserInfo));
}
