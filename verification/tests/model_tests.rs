use wca_userinfo::{Event, Gender, ParseError, RecordGroup};

fn row(cells: &[&str]) -> Vec<String> {
    cells.iter().map(|c| String::from(*c)).collect()
}

#[test]
fn record_group_coerces_each_field() {
    let g = RecordGroup::from_str_values("9.50", "5", "3", "1").unwrap();
    assert_eq!(g.time, Some(String::from("9.50")));
    assert_eq!(g.national, Some(5));
    assert_eq!(g.continent, Some(3));
    assert_eq!(g.world, Some(1));
}

#[test]
fn record_group_fields_independently_optional() {
    let g = RecordGroup::from_str_values("", "7", "", "2").unwrap();
    assert_eq!(g.time, None);
    assert_eq!(g.national, Some(7));
    assert_eq!(g.continent, None);
    assert_eq!(g.world, Some(2));
}

#[test]
fn record_group_first_failure_wins() {
    let r = RecordGroup::from_str_values("9.50", "bad1", "3", "bad2");
    assert_eq!(r, Err(ParseError::MalformedInt { raw: String::from("bad1") }));
    let r = RecordGroup::from_str_values("9.50", "5", "3", "bad2");
    assert_eq!(r, Err(ParseError::MalformedInt { raw: String::from("bad2") }));
}

#[test]
fn event_rejects_short_row() {
    let r = Event::from_tr_vector(&row(&["a", "b", "c", "d", "e", "f", "g", "h", "i"]));
    assert_eq!(r, Err(ParseError::WrongEventCellCount { found: 9 }));
}

#[test]
fn event_rejects_long_row() {
    let cells = row(&["a", "1", "2", "3", "t", "u", "4", "5", "6", "x", "y"]);
    let r = Event::from_tr_vector(&cells);
    assert_eq!(r, Err(ParseError::WrongEventCellCount { found: 11 }));
}

#[test]
fn event_rejects_empty_row() {
    let r = Event::from_tr_vector(&Vec::new());
    assert_eq!(r, Err(ParseError::WrongEventCellCount { found: 0 }));
}

#[test]
fn event_maps_cells_by_fixed_column_order() {
    let cells = row(&["3x3x3", "5", "3", "1", "9.50", "9.80", "4", "2", "6", ""]);
    let e = Event::from_tr_vector(&cells).unwrap();
    assert_eq!(e.name, "3x3x3");
    assert_eq!(e.single.time, Some(String::from("9.50")));
    assert_eq!(e.single.national, Some(5));
    assert_eq!(e.single.continent, Some(3));
    assert_eq!(e.single.world, Some(1));
    assert_eq!(e.average.time, Some(String::from("9.80")));
    assert_eq!(e.average.national, Some(6));
    assert_eq!(e.average.continent, Some(2));
    assert_eq!(e.average.world, Some(4));
}

#[test]
fn event_ignores_trailing_cell() {
    let quiet = row(&["3x3x3", "5", "3", "1", "9.50", "9.80", "4", "2", "6", ""]);
    let noisy = row(&["3x3x3", "5", "3", "1", "9.50", "9.80", "4", "2", "6", "not a number"]);
    assert_eq!(Event::from_tr_vector(&quiet), Event::from_tr_vector(&noisy));
}

#[test]
fn event_propagates_malformed_cell() {
    let cells = row(&["3x3x3", "five", "3", "1", "9.50", "9.80", "4", "2", "6", ""]);
    let r = Event::from_tr_vector(&cells);
    assert_eq!(r, Err(ParseError::MalformedInt { raw: String::from("five") }));
}

#[test]
fn gender_exact_match_labels() {
    assert_eq!(Gender::from_string("Male"), Gender::Male);
    assert_eq!(Gender::from_string("Female"), Gender::Female);
}

#[test]
fn gender_catch_all_is_other() {
    assert_eq!(Gender::from_string("male"), Gender::Other);
    assert_eq!(Gender::from_string("FEMALE"), Gender::Other);
    assert_eq!(Gender::from_string("Nonbinary"), Gender::Other);
    assert_eq!(Gender::from_string(""), Gender::Other);
}
