//! The library's general guarantees, stated and proved once over all
//! inputs: how cells classify, how rows map to events, how metadata
//! cardinality is judged, and that extraction is all-or-nothing.

use vstd::prelude::*;

use crate::coerce::{
    all_dec_digits, coerce_int_spec, coerce_time_spec, dec_val, int_cell_ok,
};
use crate::dom::trim_of;
use crate::error::ParseErrorV;
use crate::extract::{
    any_cell_empty, build_events_spec, extract_spec, profile_fields_spec, trimmed_cells,
};
use crate::model::{
    build_event_spec, build_group_spec, gender_from_spec, EventV, Gender, ProfileFieldsV,
    RecordGroupV, EXPECT_EVENT_CELLS,
};

verus! {

/// A non-empty all-digit text within the unsigned 32-bit range is a
/// well-formed integer cell denoting exactly its decimal value; empty text
/// is well-formed and denotes absence; any other text is ill-formed.
pub proof fn lemma_int_cell_classification(s: Seq<char>)
    ensures
        s.len() > 0 && all_dec_digits(s) && dec_val(s) <= u32::MAX ==> int_cell_ok(s)
            && coerce_int_spec(s) == Some(dec_val(s) as u32),
        s.len() == 0 ==> int_cell_ok(s) && coerce_int_spec(s) is None,
        s.len() > 0 && !(all_dec_digits(s) && dec_val(s) <= u32::MAX) ==> !int_cell_ok(s),
{
}

/// A row whose length is not exactly [`EXPECT_EVENT_CELLS`] is rejected
/// with the structural wrong-count error naming the actual length,
/// regardless of what the cells hold.
pub proof fn lemma_wrong_row_length_rejected(cells: Seq<Seq<char>>)
    requires
        cells.len() != EXPECT_EVENT_CELLS,
    ensures
        build_event_spec(cells) == Err::<EventV, ParseErrorV>(
            ParseErrorV::WrongEventCellCount { found: cells.len() },
        ),
{
}

/// When the three rank cells are well-formed, the group is built with the
/// time, national, continental and world slots taken from the four inputs
/// in order, each coerced independently.
pub proof fn lemma_group_field_mapping(t: Seq<char>, n: Seq<char>, c: Seq<char>, w: Seq<char>)
    requires
        int_cell_ok(n),
        int_cell_ok(c),
        int_cell_ok(w),
    ensures
        build_group_spec(t, n, c, w) == Ok::<RecordGroupV, ParseErrorV>(
            RecordGroupV {
                time: coerce_time_spec(t),
                national: coerce_int_spec(n),
                continent: coerce_int_spec(c),
                world: coerce_int_spec(w),
            },
        ),
{
}

/// A row with exactly [`EXPECT_EVENT_CELLS`] cells is never rejected on
/// row-length grounds, and its cells map to slots by the fixed column
/// order: name from cell 0, the single group from (time 4, national 1,
/// continental 2, world 3), the average group from (time 5, national 8,
/// continental 7, world 6) — the rank order is reversed between the two
/// groups.
pub proof fn lemma_row_cell_mapping(cells: Seq<Seq<char>>)
    requires
        cells.len() == EXPECT_EVENT_CELLS,
    ensures
        !(build_event_spec(cells) matches Err(e) && e is WrongEventCellCount),
        build_event_spec(cells) matches Ok(ev) ==> {
            &&& ev.name == cells[0]
            &&& build_group_spec(cells[4], cells[1], cells[2], cells[3]) == Ok::<
                RecordGroupV,
                ParseErrorV,
            >(ev.single)
            &&& build_group_spec(cells[5], cells[8], cells[7], cells[6]) == Ok::<
                RecordGroupV,
                ParseErrorV,
            >(ev.average)
        },
{
}

/// The trailing tenth cell of a full row is tolerated but never
/// inspected: changing it changes nothing in the outcome.
pub proof fn lemma_trailing_cell_ignored(cells: Seq<Seq<char>>, other: Seq<char>)
    requires
        cells.len() == EXPECT_EVENT_CELLS,
    ensures
        build_event_spec(cells.update(9, other)) == build_event_spec(cells),
{
    let changed = cells.update(9, other);
    assert(changed[0] == cells[0]);
    assert(changed[1] == cells[1]);
    assert(changed[2] == cells[2]);
    assert(changed[3] == cells[3]);
    assert(changed[4] == cells[4]);
    assert(changed[5] == cells[5]);
    assert(changed[6] == cells[6]);
    assert(changed[7] == cells[7]);
    assert(changed[8] == cells[8]);
}

/// Gender classification is a case-sensitive exact match on the two known
/// labels; every other label is the deliberate catch-all `Other`.
pub proof fn lemma_gender_classification(s: Seq<char>)
    ensures
        s == "Male"@ ==> gender_from_spec(s) == Gender::Male,
        s == "Female"@ ==> gender_from_spec(s) == Gender::Female,
        s != "Male"@ && s != "Female"@ ==> gender_from_spec(s) == Gender::Other,
{
    reveal_strlit("Male");
    reveal_strlit("Female");
    assert("Male"@.len() == 4);
    assert("Female"@.len() == 6);
    assert("Male"@ != "Female"@);
}

/// How trimmed metadata cells are judged: any empty cell is missing user
/// information; any cardinality other than 4 or 5 is a wrong count; with
/// exactly 4 cells the gender is absent; with exactly 5 the third cell is
/// classified as the gender and removed; the remaining cells map
/// positionally to country, id, competition count and completed-solve
/// count.
pub proof fn lemma_profile_cardinality(cells: Seq<Seq<char>>)
    ensures
        any_cell_empty(cells) ==> profile_fields_spec(cells) == Err::<
            ProfileFieldsV,
            ParseErrorV,
        >(ParseErrorV::MissingUserInfo),
        !any_cell_empty(cells) && cells.len() != 4 && cells.len() != 5 ==> profile_fields_spec(
            cells,
        ) == Err::<ProfileFieldsV, ParseErrorV>(
            ParseErrorV::WrongUserInfoCount { found: cells.len() },
        ),
        cells.len() == 4 ==> (profile_fields_spec(cells) matches Ok(p) ==> {
            &&& p.gender is None
            &&& p.country == cells[0]
            &&& p.wca_id == cells[1]
            &&& p.competitions == dec_val(cells[2]) as u32
            &&& p.completed_solves == dec_val(cells[3]) as u32
        }),
        cells.len() == 5 ==> (profile_fields_spec(cells) matches Ok(p) ==> {
            &&& p.gender == Some(gender_from_spec(cells[2]))
            &&& p.country == cells[0]
            &&& p.wca_id == cells[1]
            &&& p.competitions == dec_val(cells[3]) as u32
            &&& p.completed_solves == dec_val(cells[4]) as u32
        }),
{
    if cells.len() == 5 {
        assert(cells.remove(2)[0] == cells[0]);
        assert(cells.remove(2)[1] == cells[1]);
        assert(cells.remove(2)[2] == cells[3]);
        assert(cells.remove(2)[3] == cells[4]);
    }
}

/// A metadata cell that trims to nothing is treated as empty and rejects
/// the whole metadata region as missing user information.
pub proof fn lemma_blank_cell_rejected(cells: Seq<Seq<char>>, i: int)
    requires
        0 <= i < cells.len(),
        trim_of(cells[i]).len() == 0,
    ensures
        profile_fields_spec(trimmed_cells(cells)) == Err::<ProfileFieldsV, ParseErrorV>(
            ParseErrorV::MissingUserInfo,
        ),
{
    assert(trimmed_cells(cells)[i] == trim_of(cells[i]));
    assert(any_cell_empty(trimmed_cells(cells)));
}

/// A list of rows with any failing row fails as a whole.
proof fn lemma_events_any_err(rows: Seq<Seq<Seq<char>>>, k: int)
    requires
        0 <= k < rows.len(),
        build_event_spec(rows[k]) is Err,
    ensures
        build_events_spec(rows) is Err,
    decreases k,
{
    if build_event_spec(rows[0]) is Err {
    } else {
        assert(k > 0);
        assert(rows.skip(1)[k - 1] == rows[k]);
        lemma_events_any_err(rows.skip(1), k - 1);
    }
}

/// Extraction is all-or-nothing: if any event row fails to build, the
/// whole extraction fails, whatever the metadata holds; a profile with
/// some events silently dropped is never produced.
pub proof fn lemma_bad_row_rejects_document(
    cells: Seq<Seq<char>>,
    rows: Seq<Seq<Seq<char>>>,
    k: int,
)
    requires
        0 <= k < rows.len(),
        build_event_spec(rows[k]) is Err,
    ensures
        extract_spec(cells, rows) is Err,
{
    lemma_events_any_err(rows, k);
}

} // verus!
