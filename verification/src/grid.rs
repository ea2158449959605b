//! The timetable grid of one school.
//!
//! A grid maps `(grade, class, day, period)` to a subject name. It is
//! produced in one piece when a school's schedule is fetched and is only
//! read afterwards: the controller slices out the viewed grade and class
//! at render time.

use vstd::prelude::*;

verus! {

/// One cell of a school's timetable: the subject taught to one class in
/// one time slot.
#[derive(Clone, Debug, PartialEq)]
pub struct GridEntry {
    pub grade: u8,
    pub school_class: u8,
    pub day: u8,
    pub period: u8,
    pub subject: String,
}

/// Whether an entry belongs to the given time slot.
pub open spec fn entry_matches(e: GridEntry, grade: int, school_class: int, day: int, period: int) -> bool {
    &&& e.grade == grade
    &&& e.school_class == school_class
    &&& e.day == day
    &&& e.period == period
}

/// The subject of the first entry for the given slot, if any.
pub open spec fn grid_lookup(
    s: Seq<GridEntry>,
    grade: int,
    school_class: int,
    day: int,
    period: int,
) -> Option<Seq<char>>
    decreases s.len(),
{
    if s.len() == 0 {
        None
    } else if entry_matches(s[0], grade, school_class, day, period) {
        Some(s[0].subject@)
    } else {
        grid_lookup(s.drop_first(), grade, school_class, day, period)
    }
}

/// The full grade x class x day x period to subject table of one school.
#[derive(Clone, Debug, PartialEq)]
pub struct TimetableGrid {
    pub entries: Vec<GridEntry>,
}

/// The text rendered for one slot: the subject when the grid has one,
/// and empty text otherwise.
pub open spec fn cell_text(
    g: TimetableGrid,
    grade: int,
    school_class: int,
    day: int,
    period: int,
) -> Seq<char> {
    match grid_lookup(g.entries@, grade, school_class, day, period) {
        Some(s) => s,
        None => Seq::<char>::empty(),
    }
}

impl TimetableGrid {
    /// The subject at one slot of the grid.
    pub open spec fn spec_subject(self, grade: int, school_class: int, day: int, period: int) -> Option<
        Seq<char>,
    > {
        grid_lookup(self.entries@, grade, school_class, day, period)
    }

    /// An empty grid, with no subject anywhere.
    pub fn new() -> (r: TimetableGrid)
        ensures
            r.entries@.len() == 0,
    {
        TimetableGrid { entries: Vec::new() }
    }

    /// Looks up the subject taught at `(grade, school_class, day, period)`.
    pub fn subject(&self, grade: u8, school_class: u8, day: u8, period: u8) -> (r: Option<String>)
        ensures
            r is Some <==> self.spec_subject(grade as int, school_class as int, day as int, period as int) is Some,
            r matches Some(s) ==> self.spec_subject(grade as int, school_class as int, day as int, period as int)
                == Some(s@),
    {
        let n = self.entries.len();
        let mut i: usize = 0;
        proof {
            assert(self.entries@.skip(0) =~= self.entries@);
        }
        while i < n
            invariant
                0 <= i <= n,
                n == self.entries@.len(),
                grid_lookup(self.entries@, grade as int, school_class as int, day as int, period as int)
                    == grid_lookup(
                    self.entries@.skip(i as int),
                    grade as int,
                    school_class as int,
                    day as int,
                    period as int,
                ),
            decreases n - i,
        {
            proof {
                assert(self.entries@.skip(i as int)[0] == self.entries@[i as int]);
            }
            let e = &self.entries[i];
            if e.grade == grade && e.school_class == school_class && e.day == day && e.period
                == period {
                return Some(e.subject.clone());
            }
            proof {
                assert(self.entries@.skip(i as int).drop_first() =~= self.entries@.skip(i + 1));
            }
            i = i + 1;
        }
        proof {
            assert(self.entries@.skip(n as int) =~= Seq::<GridEntry>::empty());
        }
        None
    }

    /// The rendered text for one slot: the subject, or empty text when the
    /// grid has none for that slot.
    pub fn cell(&self, grade: u8, school_class: u8, day: u8, period: u8) -> (r: String)
        ensures
            r@ == cell_text(*self, grade as int, school_class as int, day as int, period as int),
    {
        match self.subject(grade, school_class, day, period) {
            Some(s) => s,
            None => String::new(),
        }
    }

    /// The column of one day for the viewed grade and class: the rendered
    /// texts for periods 1 through 7, in order.
    pub fn day_column(&self, grade: u8, school_class: u8, day: u8) -> (r: Vec<String>)
        ensures
            r@.len() == 7,
            forall|p: int|
                0 <= p < 7 ==> (#[trigger] r@[p])@ == cell_text(
                    *self,
                    grade as int,
                    school_class as int,
                    day as int,
                    p + 1,
                ),
    {
        let mut out: Vec<String> = Vec::new();
        let mut period: u8 = 1;
        while period <= 7
            invariant
                1 <= period <= 8,
                out@.len() == period - 1,
                forall|p: int|
                    0 <= p < period - 1 ==> (#[trigger] out@[p])@ == cell_text(
                        *self,
                        grade as int,
                        school_class as int,
                        day as int,
                        p + 1,
                    ),
            decreases 8 - period,
        {
            out.push(self.cell(grade, school_class, day, period));
            period = period + 1;
        }
        out
    }

    /// The row of one period for the viewed grade and class: the rendered
    /// texts for days 1 (Monday) through 5 (Friday), in order.
    pub fn period_row(&self, grade: u8, school_class: u8, period: u8) -> (r: Vec<String>)
        ensures
            r@.len() == 5,
            forall|d: int|
                0 <= d < 5 ==> (#[trigger] r@[d])@ == cell_text(
                    *self,
                    grade as int,
                    school_class as int,
                    d + 1,
                    period as int,
                ),
    {
        let mut out: Vec<String> = Vec::new();
        let mut day: u8 = 1;
        while day <= 5
            invariant
                1 <= day <= 6,
                out@.len() == day - 1,
                forall|d: int|
                    0 <= d < day - 1 ==> (#[trigger] out@[d])@ == cell_text(
                        *self,
                        grade as int,
                        school_class as int,
                        d + 1,
                        period as int,
                    ),
            decreases 6 - day,
        {
            out.push(self.cell(grade, school_class, day, period));
            day = day + 1;
        }
        out
    }
}

/// A school's display name together with its full timetable grid: the
/// unit of "currently viewed school".
#[derive(Clone, Debug, PartialEq)]
pub struct SchoolData {
    pub name: String,
    pub grid: TimetableGrid,
}

impl SchoolData {
    /// A school record with the given name and an empty grid.
    pub fn new(name: &str) -> (r: SchoolData)
        ensures
            r.name@ == name@,
            r.grid.entries@.len() == 0,
    {
        SchoolData { name: name.to_owned(), grid: TimetableGrid::new() }
    }
}

} // verus!
