//! The profile field extractor and the record-assembly half of the
//! document pipeline: validating metadata cell texts and event rows, and
//! combining them into the final profile entity. Everything here works on
//! plain cell texts and is verified; the document tree never appears.

use vstd::prelude::*;
use vstd::string::*;

use crate::coerce::{dec_val, int_cell_ok, parse_int};
use crate::dom::{trim_of, trim_str};
use crate::error::{ParseError, ParseErrorV};
use crate::model::{
    build_event_spec, gender_from_spec, Event, EventV, Gender, ProfileFields, ProfileFieldsV,
    UserInfo, UserInfoV,
};

verus! {

/// Some cell of the sequence is empty.
pub open spec fn any_cell_empty(cells: Seq<Seq<char>>) -> bool {
    exists|i: int| 0 <= i < cells.len() && cells[i].len() == 0
}

/// Each cell of the sequence, trimmed.
pub open spec fn trimmed_cells(cells: Seq<Seq<char>>) -> Seq<Seq<char>> {
    cells.map_values(|s: Seq<char>| trim_of(s))
}

/// What extracting the profile fields from already-trimmed metadata cell
/// texts yields. Any empty cell is a structural failure; so is any
/// cardinality other than exactly 4 or exactly 5 cells. With 5 cells the
/// third is classified as the gender and removed; with 4 the gender is
/// absent. The remaining cells map positionally to country, id,
/// competition count and completed-solve count, the last two coerced as
/// required integers (a non-numeric counter is a malformed field).
pub open spec fn profile_fields_spec(cells: Seq<Seq<char>>) -> Result<
    ProfileFieldsV,
    ParseErrorV,
> {
    if any_cell_empty(cells) {
        Err(ParseErrorV::MissingUserInfo)
    } else if cells.len() != 4 && cells.len() != 5 {
        Err(ParseErrorV::WrongUserInfoCount { found: cells.len() })
    } else {
        let gender = if cells.len() == 5 {
            Some(gender_from_spec(cells[2]))
        } else {
            None::<Gender>
        };
        let rest = if cells.len() == 5 {
            cells.remove(2)
        } else {
            cells
        };
        if !int_cell_ok(rest[2]) {
            Err(ParseErrorV::MalformedInt { raw: rest[2] })
        } else if !int_cell_ok(rest[3]) {
            Err(ParseErrorV::MalformedInt { raw: rest[3] })
        } else {
            Ok(ProfileFieldsV {
                country: rest[0],
                wca_id: rest[1],
                gender,
                competitions: dec_val(rest[2]) as u32,
                completed_solves: dec_val(rest[3]) as u32,
            })
        }
    }
}

/// Extract and validate the profile fields from metadata cell texts that
/// were already trimmed, exactly as [`profile_fields_spec`] says.
pub fn profile_fields_from_trimmed(cells: &Vec<String>) -> (r: Result<ProfileFields, ParseError>)
    ensures
        r matches Ok(p) ==> profile_fields_spec(cells.deep_view()) == Ok::<
            ProfileFieldsV,
            ParseErrorV,
        >(p@),
        r matches Err(e) ==> profile_fields_spec(cells.deep_view()) == Err::<
            ProfileFieldsV,
            ParseErrorV,
        >(e@),
{
    let ghost cv = cells.deep_view();
    let n = cells.len();
    let mut i: usize = 0;
    while i < n
        invariant
            0 <= i <= n,
            n == cells.len(),
            cv == cells.deep_view(),
            forall|j: int| 0 <= j < i ==> #[trigger] cv[j].len() != 0,
        decreases n - i,
    {
        if cells[i].as_str().is_empty() {
            proof {
                assert(cv[i as int].len() == 0);
            }
            return Err(ParseError::MissingUserInfo);
        }
        i = i + 1;
    }
    proof {
        assert(!any_cell_empty(cv));
    }
    if n != 4 && n != 5 {
        return Err(ParseError::WrongUserInfoCount { found: n });
    }
    let gender: Option<Gender> = if n == 5 {
        Some(Gender::from_string(cells[2].as_str()))
    } else {
        None
    };
    let off: usize = if n == 5 {
        1
    } else {
        0
    };
    let ghost rest = if cv.len() == 5 {
        cv.remove(2)
    } else {
        cv
    };
    proof {
        assert(rest[0] == cv[0]);
        assert(rest[1] == cv[1]);
        assert(rest[2] == cv[2 + off]);
        assert(rest[3] == cv[3 + off]);
    }
    let competitions = match parse_int(cells[2 + off].as_str()) {
        Ok(v) => v.unwrap(),
        Err(e) => {
            return Err(e);
        },
    };
    let completed_solves = match parse_int(cells[3 + off].as_str()) {
        Ok(v) => v.unwrap(),
        Err(e) => {
            return Err(e);
        },
    };
    Ok(ProfileFields {
        country: cells[0].clone(),
        wca_id: cells[1].clone(),
        gender,
        competitions,
        completed_solves,
    })
}

/// Extract and validate the profile fields from raw metadata cell texts:
/// each cell is first trimmed of surrounding whitespace (markup artifacts
/// produce stray whitespace that must be stripped before emptiness is
/// judged), then validated as [`profile_fields_spec`] says.
pub fn extract_profile_fields(cells: &Vec<String>) -> (r: Result<ProfileFields, ParseError>)
    ensures
        r matches Ok(p) ==> profile_fields_spec(trimmed_cells(cells.deep_view())) == Ok::<
            ProfileFieldsV,
            ParseErrorV,
        >(p@),
        r matches Err(e) ==> profile_fields_spec(trimmed_cells(cells.deep_view())) == Err::<
            ProfileFieldsV,
            ParseErrorV,
        >(e@),
{
    let mut trimmed: Vec<String> = Vec::new();
    let n = cells.len();
    let mut i: usize = 0;
    while i < n
        invariant
            0 <= i <= n,
            n == cells.len(),
            trimmed.deep_view().len() == i,
            forall|j: int| 0 <= j < i ==> #[trigger] trimmed.deep_view()[j] == trim_of(
                cells.deep_view()[j],
            ),
        decreases n - i,
    {
        let t = trim_str(cells[i].as_str());
        let ghost pseq = trimmed@;
        let ghost pdv = trimmed.deep_view();
        trimmed.push(t);
        proof {
            assert(trimmed@ == pseq.push(t));
            assert forall|j: int| 0 <= j <= i implies #[trigger] trimmed.deep_view()[j] == trim_of(
                cells.deep_view()[j],
            ) by {
                assert(trimmed.deep_view()[j] == trimmed@[j]@);
                if j < i {
                    assert(trimmed@[j] == pseq[j]);
                    assert(pdv[j] == pseq[j]@);
                } else {
                    assert(trimmed@[j] == t);
                    assert(cells.deep_view()[j] == cells@[j]@);
                }
            }
        }
        i = i + 1;
    }
    proof {
        assert(trimmed.deep_view() =~= trimmed_cells(cells.deep_view()));
    }
    profile_fields_from_trimmed(&trimmed)
}

/// What building the ordered event list from the rows' cell texts yields:
/// each row becomes an event, in document order, and the first failing row
/// fails the whole list with its error.
pub open spec fn build_events_spec(rows: Seq<Seq<Seq<char>>>) -> Result<Seq<EventV>, ParseErrorV>
    decreases rows.len(),
{
    if rows.len() == 0 {
        Ok(Seq::<EventV>::empty())
    } else {
        match build_event_spec(rows[0]) {
            Err(e) => Err(e),
            Ok(ev) => match build_events_spec(rows.skip(1)) {
                Err(e) => Err(e),
                Ok(rest) => Ok(seq![ev] + rest),
            },
        }
    }
}

/// When the rows before row `k` all build and row `k` fails, the whole
/// list fails with row `k`'s error.
proof fn lemma_events_spec_err(rows: Seq<Seq<Seq<char>>>, k: int, e: ParseErrorV)
    requires
        0 <= k < rows.len(),
        forall|j: int| 0 <= j < k ==> (#[trigger] build_event_spec(rows[j])) is Ok,
        build_event_spec(rows[k]) == Err::<EventV, ParseErrorV>(e),
    ensures
        build_events_spec(rows) == Err::<Seq<EventV>, ParseErrorV>(e),
    decreases k,
{
    if k == 0 {
    } else {
        assert(build_event_spec(rows[0]) is Ok);
        assert forall|j: int| 0 <= j < k - 1 implies (#[trigger] build_event_spec(
            rows.skip(1)[j],
        )) is Ok by {
            assert(rows.skip(1)[j] == rows[j + 1]);
        }
        assert(rows.skip(1)[k - 1] == rows[k]);
        lemma_events_spec_err(rows.skip(1), k - 1, e);
    }
}

/// When every row builds, the whole list builds to the rows' events in
/// order.
proof fn lemma_events_spec_ok(rows: Seq<Seq<Seq<char>>>, evs: Seq<EventV>)
    requires
        evs.len() == rows.len(),
        forall|j: int| 0 <= j < rows.len() ==> #[trigger] build_event_spec(rows[j]) == Ok::<
            EventV,
            ParseErrorV,
        >(evs[j]),
    ensures
        build_events_spec(rows) == Ok::<Seq<EventV>, ParseErrorV>(evs),
    decreases rows.len(),
{
    if rows.len() == 0 {
        assert(evs =~= Seq::<EventV>::empty());
    } else {
        assert forall|j: int| 0 <= j < rows.skip(1).len() implies #[trigger] build_event_spec(
            rows.skip(1)[j],
        ) == Ok::<EventV, ParseErrorV>(evs.skip(1)[j]) by {
            assert(rows.skip(1)[j] == rows[j + 1]);
            assert(evs.skip(1)[j] == evs[j + 1]);
        }
        lemma_events_spec_ok(rows.skip(1), evs.skip(1));
        assert(build_event_spec(rows[0]) == Ok::<EventV, ParseErrorV>(evs[0]));
        assert(seq![evs[0]] + evs.skip(1) =~= evs);
    }
}

/// What the whole extraction yields from the metadata cell texts and the
/// rows' cell texts: the metadata is validated first, then every event
/// row; the first error anywhere fails the extraction, and on success the
/// profile combines the validated fields with the events in row order.
pub open spec fn extract_spec(cells: Seq<Seq<char>>, rows: Seq<Seq<Seq<char>>>) -> Result<
    UserInfoV,
    ParseErrorV,
> {
    match profile_fields_spec(trimmed_cells(cells)) {
        Err(e) => Err(e),
        Ok(f) => match build_events_spec(rows) {
            Err(e) => Err(e),
            Ok(evs) => Ok(
                UserInfoV {
                    country: f.country,
                    wca_id: f.wca_id,
                    gender: f.gender,
                    competitions: f.competitions,
                    completed_solves: f.completed_solves,
                    events: evs,
                },
            ),
        },
    }
}

/// Assemble the full profile from the metadata cell texts and the rows'
/// cell texts, exactly as [`extract_spec`] says: all-or-nothing, first
/// error wins, event order preserved.
pub fn extract_user_info(info_cells: &Vec<String>, rows: &Vec<Vec<String>>) -> (r: Result<
    UserInfo,
    ParseError,
>)
    ensures
        r matches Ok(u) ==> extract_spec(info_cells.deep_view(), rows.deep_view()) == Ok::<
            UserInfoV,
            ParseErrorV,
        >(u@),
        r matches Err(e) ==> extract_spec(info_cells.deep_view(), rows.deep_view()) == Err::<
            UserInfoV,
            ParseErrorV,
        >(e@),
{
    let ghost rowsv = rows.deep_view();
    let fields = extract_profile_fields(info_cells)?;
    let mut events: Vec<Event> = Vec::new();
    let n = rows.len();
    let mut i: usize = 0;
    while i < n
        invariant
            0 <= i <= n,
            n == rows.len(),
            rowsv == rows.deep_view(),
            profile_fields_spec(trimmed_cells(info_cells.deep_view())) == Ok::<
                ProfileFieldsV,
                ParseErrorV,
            >(fields@),
            events@.len() == i,
            forall|j: int| 0 <= j < i ==> #[trigger] build_event_spec(rowsv[j]) == Ok::<
                EventV,
                ParseErrorV,
            >(events@[j]@),
        decreases n - i,
    {
        proof {
            assert(rows@[i as int].deep_view() == rowsv[i as int]);
        }
        match Event::from_tr_vector(&rows[i]) {
            Ok(ev) => {
                events.push(ev);
            },
            Err(e) => {
                proof {
                    lemma_events_spec_err(rowsv, i as int, e@);
                }
                return Err(e);
            },
        }
        i = i + 1;
    }
    proof {
        let evs = events@.map_values(|e: Event| e@);
        assert forall|j: int| 0 <= j < rowsv.len() implies #[trigger] build_event_spec(rowsv[j])
            == Ok::<EventV, ParseErrorV>(evs[j]) by {
            assert(evs[j] == events@[j]@);
        }
        lemma_events_spec_ok(rowsv, evs);
    }
    Ok(UserInfo {
        country: fields.country,
        wca_id: fields.wca_id,
        gender: fields.gender,
        competitions: fields.competitions,
        completed_solves: fields.completed_solves,
        events,
    })
}

} // verus!
