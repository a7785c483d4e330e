use vstd::prelude::*;
use vstd::string::*;

use crate::coerce::{
    coerce_int_spec, coerce_time_spec, int_cell_ok, parse_int, parse_time,
};
use crate::error::{ParseError, ParseErrorV};

verus! {

/// How many cells an event row must hold.
pub const EXPECT_EVENT_CELLS: usize = 10;

/// A group for single/average results for an event: an optional time kept
/// as text (to preserve the source's exact formatting) and three optional
/// rank integers. The four fields are independently optional.
#[derive(Debug, PartialEq, Eq)]
pub struct RecordGroup {
    pub time: Option<String>,
    pub national: Option<u32>,
    pub continent: Option<u32>,
    pub world: Option<u32>,
}

/// The mathematical value of a [`RecordGroup`].
pub struct RecordGroupV {
    pub time: Option<Seq<char>>,
    pub national: Option<u32>,
    pub continent: Option<u32>,
    pub world: Option<u32>,
}

impl View for RecordGroup {
    type V = RecordGroupV;

    open spec fn view(&self) -> RecordGroupV {
        RecordGroupV {
            time: self.time.deep_view(),
            national: self.national,
            continent: self.continent,
            world: self.world,
        }
    }
}

/// What building a result group from four cell texts yields: the first
/// malformed rank cell (checked national, continental, world, in that
/// order) fails the whole group with its text; otherwise each cell is
/// coerced independently. The time cell cannot fail.
pub open spec fn build_group_spec(
    time: Seq<char>,
    national: Seq<char>,
    continent: Seq<char>,
    world: Seq<char>,
) -> Result<RecordGroupV, ParseErrorV> {
    if !int_cell_ok(national) {
        Err(ParseErrorV::MalformedInt { raw: national })
    } else if !int_cell_ok(continent) {
        Err(ParseErrorV::MalformedInt { raw: continent })
    } else if !int_cell_ok(world) {
        Err(ParseErrorV::MalformedInt { raw: world })
    } else {
        Ok(RecordGroupV {
            time: coerce_time_spec(time),
            national: coerce_int_spec(national),
            continent: coerce_int_spec(continent),
            world: coerce_int_spec(world),
        })
    }
}

impl RecordGroup {
    /// Build a result group from the four cell texts, coercing each
    /// independently; the first coercion failure short-circuits the group.
    pub fn from_str_values(
        time: &str,
        national: &str,
        continent: &str,
        world: &str,
    ) -> (r: Result<RecordGroup, ParseError>)
        ensures
            r matches Ok(g) ==> build_group_spec(time@, national@, continent@, world@)
                == Ok::<RecordGroupV, ParseErrorV>(g@),
            r matches Err(e) ==> build_group_spec(time@, national@, continent@, world@)
                == Err::<RecordGroupV, ParseErrorV>(e@),
    {
        let time_v = parse_time(time);
        let national_v = parse_int(national)?;
        let continent_v = parse_int(continent)?;
        let world_v = parse_int(world)?;
        Ok(RecordGroup { time: time_v, national: national_v, continent: continent_v, world: world_v })
    }
}

/// The name, single and average information for one competitive event.
#[derive(Debug, PartialEq, Eq)]
pub struct Event {
    pub name: String,
    pub single: RecordGroup,
    pub average: RecordGroup,
}

/// The mathematical value of an [`Event`].
pub struct EventV {
    pub name: Seq<char>,
    pub single: RecordGroupV,
    pub average: RecordGroupV,
}

impl View for Event {
    type V = EventV;

    open spec fn view(&self) -> EventV {
        EventV { name: self.name@, single: self.single@, average: self.average@ }
    }
}

/// What building an event from a row of cell texts yields. A row of any
/// length other than [`EXPECT_EVENT_CELLS`] is a structural failure naming
/// the actual length. On a full row the cells map to slots by the fixed
/// column order of the source table: name from cell 0, the single group
/// from (time 4, national 1, continental 2, world 3), the average group
/// from (time 5, national 8, continental 7, world 6); cell 9 is ignored.
pub open spec fn build_event_spec(cells: Seq<Seq<char>>) -> Result<EventV, ParseErrorV> {
    if cells.len() != EXPECT_EVENT_CELLS {
        Err(ParseErrorV::WrongEventCellCount { found: cells.len() })
    } else {
        match build_group_spec(cells[4], cells[1], cells[2], cells[3]) {
            Err(e) => Err(e),
            Ok(single) => match build_group_spec(cells[5], cells[8], cells[7], cells[6]) {
                Err(e) => Err(e),
                Ok(average) => Ok(EventV { name: cells[0], single, average }),
            },
        }
    }
}

impl Event {
    /// Build an event from one row of cell texts, validating that the row
    /// holds exactly [`EXPECT_EVENT_CELLS`] cells and mapping the cells to
    /// slots by the fixed column order.
    pub fn from_tr_vector(tr_vec: &Vec<String>) -> (r: Result<Event, ParseError>)
        ensures
            r matches Ok(e) ==> build_event_spec(tr_vec.deep_view())
                == Ok::<EventV, ParseErrorV>(e@),
            r matches Err(e) ==> build_event_spec(tr_vec.deep_view())
                == Err::<EventV, ParseErrorV>(e@),
    {
        if tr_vec.len() != EXPECT_EVENT_CELLS {
            return Err(ParseError::WrongEventCellCount { found: tr_vec.len() });
        }
        let single = RecordGroup::from_str_values(
            tr_vec[4].as_str(),
            tr_vec[1].as_str(),
            tr_vec[2].as_str(),
            tr_vec[3].as_str(),
        )?;
        let average = RecordGroup::from_str_values(
            tr_vec[5].as_str(),
            tr_vec[8].as_str(),
            tr_vec[7].as_str(),
            tr_vec[6].as_str(),
        )?;
        Ok(Event { name: tr_vec[0].clone(), single, average })
    }
}

/// A competitor's gender classification. Any label other than the two
/// exact strings `"Male"` and `"Female"` is `Other` by design: a deliberate
/// catch-all, never a parse failure.
#[derive(Clone, Copy, Debug, PartialEq, Eq, Structural)]
pub enum Gender {
    Male,
    Female,
    Other,
}

/// What classifying a gender label yields: a case-sensitive exact match on
/// `"Male"` or `"Female"`, with everything else classified as `Other`.
pub open spec fn gender_from_spec(s: Seq<char>) -> Gender {
    if s == "Male"@ {
        Gender::Male
    } else if s == "Female"@ {
        Gender::Female
    } else {
        Gender::Other
    }
}

/// The two strings are made of the same characters.
fn str_eq(a: &str, b: &str) -> (r: bool)
    ensures
        r == (a@ == b@),
{
    let owned_a = a.to_owned();
    let owned_b = b.to_owned();
    owned_a == owned_b
}

impl Gender {
    /// Classify a gender label.
    pub fn from_string(gender_str: &str) -> (g: Gender)
        ensures
            g == gender_from_spec(gender_str@),
    {
        if str_eq(gender_str, "Male") {
            Gender::Male
        } else if str_eq(gender_str, "Female") {
            Gender::Female
        } else {
            Gender::Other
        }
    }
}

/// The complete extracted competitor record.
///
/// Only constructible after all metadata cells validated non-empty and all
/// event rows validated successfully: extraction is all-or-nothing.
#[derive(Debug, PartialEq, Eq)]
pub struct UserInfo {
    pub country: String,
    pub wca_id: String,
    /// Present only when the source document held five metadata cells;
    /// with four cells the gender is omitted entirely, not defaulted.
    pub gender: Option<Gender>,
    pub competitions: u32,
    pub completed_solves: u32,
    /// In document order; may be empty.
    pub events: Vec<Event>,
}

/// The mathematical value of a [`UserInfo`].
pub struct UserInfoV {
    pub country: Seq<char>,
    pub wca_id: Seq<char>,
    pub gender: Option<Gender>,
    pub competitions: u32,
    pub completed_solves: u32,
    pub events: Seq<EventV>,
}

impl View for UserInfo {
    type V = UserInfoV;

    open spec fn view(&self) -> UserInfoV {
        UserInfoV {
            country: self.country@,
            wca_id: self.wca_id@,
            gender: self.gender,
            competitions: self.competitions,
            completed_solves: self.completed_solves,
            events: self.events@.map_values(|e: Event| e@),
        }
    }
}

/// The validated profile metadata: what the profile field extractor hands
/// to the document pipeline. Constructing one attests that cardinality and
/// non-emptiness were checked and the two counters coerced.
#[derive(Debug, PartialEq, Eq)]
pub struct ProfileFields {
    pub country: String,
    pub wca_id: String,
    pub gender: Option<Gender>,
    pub competitions: u32,
    pub completed_solves: u32,
}

/// The mathematical value of a [`ProfileFields`].
pub struct ProfileFieldsV {
    pub country: Seq<char>,
    pub wca_id: Seq<char>,
    pub gender: Option<Gender>,
    pub competitions: u32,
    pub completed_solves: u32,
}

impl View for ProfileFields {
    type V = ProfileFieldsV;

    open spec fn view(&self) -> ProfileFieldsV {
        ProfileFieldsV {
            country: self.country@,
            wca_id: self.wca_id@,
            gender: self.gender,
            competitions: self.competitions,
            completed_solves: self.completed_solves,
        }
    }
}

} // verus!
