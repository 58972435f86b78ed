use vstd::prelude::*;

verus! {

/// A transit route's display strings: the short line label and the
/// destination shown beside it on the board.
pub struct LineInfo {
    pub line: String,
    pub destination: String,
}

/// Mathematical image of a `LineInfo`: both labels as character sequences.
pub ghost struct LineInfoV {
    pub line: Seq<char>,
    pub destination: Seq<char>,
}

impl DeepView for LineInfo {
    type V = LineInfoV;

    open spec fn deep_view(&self) -> LineInfoV {
        LineInfoV { line: self.line@, destination: self.destination@ }
    }
}

/// One arrival estimate: how many minutes until the vehicle is due.
#[derive(Clone, Copy, Debug, PartialEq)]
pub struct Upcoming {
    pub minutes: i64,
}

impl DeepView for Upcoming {
    type V = int;

    open spec fn deep_view(&self) -> int {
        self.minutes as int
    }
}

/// All departures listed under one direction heading: the direction
/// identifier and, in display order, each line with its arrival estimates.
pub struct DirectionEntry {
    pub direction: String,
    pub lines: Vec<(LineInfo, Vec<Upcoming>)>,
}

/// Mathematical image of a `DirectionEntry`.
pub ghost struct DirectionEntryV {
    pub direction: Seq<char>,
    pub lines: Seq<(LineInfoV, Seq<int>)>,
}

impl DeepView for DirectionEntry {
    type V = DirectionEntryV;

    open spec fn deep_view(&self) -> DirectionEntryV {
        DirectionEntryV { direction: self.direction@, lines: self.lines.deep_view() }
    }
}

/// One agency's share of the dataset: the agency identifier and its
/// directions in display order.
pub struct AgencyEntry {
    pub agency: String,
    pub directions: Vec<DirectionEntry>,
}

/// Mathematical image of an `AgencyEntry`.
pub ghost struct AgencyEntryV {
    pub agency: Seq<char>,
    pub directions: Seq<DirectionEntryV>,
}

impl DeepView for AgencyEntry {
    type V = AgencyEntryV;

    open spec fn deep_view(&self) -> AgencyEntryV {
        AgencyEntryV { agency: self.agency@, directions: self.directions.deep_view() }
    }
}

/// The whole dataset handed in by the data collaborator: a mapping from
/// agency identifier to direction identifier to an ordered list of
/// (line, upcoming arrivals) pairs, kept as an ordered association list.
/// Lookups take the first entry whose identifier matches.
pub struct StopData {
    pub agencies: Vec<AgencyEntry>,
}

impl DeepView for StopData {
    type V = Seq<AgencyEntryV>;

    open spec fn deep_view(&self) -> Seq<AgencyEntryV> {
        self.agencies.deep_view()
    }
}

/// One configured slot on the board: which (agency, direction) pair the
/// slot shows. The pair need not exist in the dataset.
pub struct SectionSpec {
    pub agency: String,
    pub direction: String,
}

/// Mathematical image of a `SectionSpec`.
pub ghost struct SectionSpecV {
    pub agency: Seq<char>,
    pub direction: Seq<char>,
}

impl DeepView for SectionSpec {
    type V = SectionSpecV;

    open spec fn deep_view(&self) -> SectionSpecV {
        SectionSpecV { agency: self.agency@, direction: self.direction@ }
    }
}

/// Static layout parameters: the canvas dimensions in pixels (positive,
/// fixed for the whole render call) and the two panels, each an ordered
/// list of sections stacked top to bottom.
pub struct LayoutConfig {
    pub width: i32,
    pub height: i32,
    pub left: Vec<SectionSpec>,
    pub right: Vec<SectionSpec>,
}

/// Mathematical image of a `LayoutConfig`.
pub ghost struct LayoutConfigV {
    pub width: int,
    pub height: int,
    pub left: Seq<SectionSpecV>,
    pub right: Seq<SectionSpecV>,
}

impl DeepView for LayoutConfig {
    type V = LayoutConfigV;

    open spec fn deep_view(&self) -> LayoutConfigV {
        LayoutConfigV {
            width: self.width as int,
            height: self.height as int,
            left: self.left.deep_view(),
            right: self.right.deep_view(),
        }
    }
}

/// A structured warning for a section whose data is absent: the agency
/// identifier and, when the agency itself was found, the direction that
/// was not. Warnings are observability data; they never abort a render.
#[derive(Clone, Debug, PartialEq)]
pub struct Warning {
    pub agency: String,
    pub direction: Option<String>,
}

/// Mathematical image of a `Warning`.
pub ghost struct WarningV {
    pub agency: Seq<char>,
    pub direction: Option<Seq<char>>,
}

impl DeepView for Warning {
    type V = WarningV;

    open spec fn deep_view(&self) -> WarningV {
        WarningV { agency: self.agency@, direction: self.direction.deep_view() }
    }
}

/// First entry of `agencies` whose identifier equals `name`, if any.
pub open spec fn find_agency(agencies: Seq<AgencyEntryV>, name: Seq<char>) -> Option<AgencyEntryV>
    decreases agencies.len(),
{
    if agencies.len() == 0 {
        None
    } else if agencies[0].agency == name {
        Some(agencies[0])
    } else {
        find_agency(agencies.drop_first(), name)
    }
}

/// First entry of `directions` whose identifier equals `name`, if any.
pub open spec fn find_direction(directions: Seq<DirectionEntryV>, name: Seq<char>) -> Option<
    DirectionEntryV,
>
    decreases directions.len(),
{
    if directions.len() == 0 {
        None
    } else if directions[0].direction == name {
        Some(directions[0])
    } else {
        find_direction(directions.drop_first(), name)
    }
}

impl StopData {
    /// Index of the first agency entry matching `name`, or `None` when the
    /// dataset has no such agency.
    pub fn agency_index(&self, name: &String) -> (r: Option<usize>)
        ensures
            match r {
                Some(i) => i < self.agencies@.len() && find_agency(self.deep_view(), name@)
                    == Some(self.agencies@[i as int].deep_view()),
                None => find_agency(self.deep_view(), name@) is None,
            },
    {
        let ghost all = self.deep_view();
        let n = self.agencies.len();
        let mut i: usize = 0;
        proof {
            assert(all.skip(0) =~= all);
        }
        while i < n
            invariant
                i <= n,
                n == self.agencies@.len(),
                all == self.deep_view(),
                find_agency(all, name@) == find_agency(all.skip(i as int), name@),
            decreases n - i,
        {
            proof {
                assert(all[i as int] == self.agencies@[i as int].deep_view());
                assert(all.skip(i as int)[0] == all[i as int]);
                assert(all.skip(i as int).drop_first() =~= all.skip(i as int + 1));
            }
            if self.agencies[i].agency.eq(name) {
                return Some(i);
            }
            i += 1;
        }
        proof {
            assert(all.skip(n as int) =~= Seq::<AgencyEntryV>::empty());
        }
        None
    }
}

impl AgencyEntry {
    /// Index of the first direction entry matching `name`, or `None` when
    /// this agency lists no such direction.
    pub fn direction_index(&self, name: &String) -> (r: Option<usize>)
        ensures
            match r {
                Some(i) => i < self.directions@.len() && find_direction(
                    self.directions.deep_view(),
                    name@,
                ) == Some(self.directions@[i as int].deep_view()),
                None => find_direction(self.directions.deep_view(), name@) is None,
            },
    {
        let ghost all = self.directions.deep_view();
        let n = self.directions.len();
        let mut i: usize = 0;
        proof {
            assert(all.skip(0) =~= all);
        }
        while i < n
            invariant
                i <= n,
                n == self.directions@.len(),
                all == self.directions.deep_view(),
                find_direction(all, name@) == find_direction(all.skip(i as int), name@),
            decreases n - i,
        {
            proof {
                assert(all[i as int] == self.directions@[i as int].deep_view());
                assert(all.skip(i as int)[0] == all[i as int]);
                assert(all.skip(i as int).drop_first() =~= all.skip(i as int + 1));
            }
            if self.directions[i].direction.eq(name) {
                return Some(i);
            }
            i += 1;
        }
        proof {
            assert(all.skip(n as int) =~= Seq::<DirectionEntryV>::empty());
        }
        None
    }
}

} // verus!
