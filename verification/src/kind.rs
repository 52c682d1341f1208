//! The statistics that can be asked for, and their names on the wire.
//!
//! A [`MetricKind`] says which statistic a column of a reply holds, without a
//! value. The table of wire names below is the only place where the two
//! vocabularies meet: every kind has one name, and no name serves two kinds.

use vstd::prelude::*;

use crate::text::same_text;

verus! {

/// The kind of value that a statistic carries.
#[derive(Debug, Clone, Copy, PartialEq, Eq, Structural)]
pub enum Shape {
    /// A kind of area.
    Area,
    /// A text, such as the name or the code of an area.
    Text,
    /// A day of the calendar.
    Day,
    /// A whole number.
    Count,
}

/// A statistic that the service publishes, named without a value.
#[derive(Debug, Clone, Copy, PartialEq, Eq, Hash, Structural)]
pub enum MetricKind {
    AreaType,
    AreaName,
    AreaCode,
    Date,
    Hash,
    NewCasesByPublishDate,
    CumulativeCasesByPublishDate,
    CumulativeCasesBySpecimenDateRange,
    NewCasesBySpecimenDate,
    MaleCases,
    FemaleCases,
    NewPillarOneTestsByPublishDate,
    CumulativePillarOneTestsByPublishDate,
    NewPillarTwoTestsByPublishDate,
    CumulativePillarTwoTestsByPublishDate,
    NewPillarThreeTestsByPublishDate,
    CumulativePillarThreeTestsByPublishDate,
    NewPillarFourTestsByPublishDate,
    CumulativePillarFourTestsByPublishDate,
    NewAdmissions,
    CumulativeAdmissions,
    CumulativeAdmissionsByAge,
    CumulativeTestsByPublishDate,
    NewTestsByPublishDate,
    CovidOccupiedMechanicalVentilatorBeds,
    HospitalCases,
    PlannedCapacityByPublishDate,
    NewDeathsWithin28DaysByPublishDate,
    CumulativeDeathsWithin28DaysByPublishDate,
}

impl MetricKind {
    /// The name by which the service knows this statistic.
    pub open spec fn wire_name(self) -> Seq<char> {
        match self {
            MetricKind::AreaType => "areaType"@,
            MetricKind::AreaName => "areaName"@,
            MetricKind::AreaCode => "areaCode"@,
            MetricKind::Date => "date"@,
            MetricKind::Hash => "hash"@,
            MetricKind::NewCasesByPublishDate => "newCasesByPublishDate"@,
            MetricKind::CumulativeCasesByPublishDate => "cumCasesByPublishDate"@,
            MetricKind::CumulativeCasesBySpecimenDateRange => "cumCasesBySpecimenDateRange"@,
            MetricKind::NewCasesBySpecimenDate => "newCasesBySpecimenDate"@,
            MetricKind::MaleCases => "maleCases"@,
            MetricKind::FemaleCases => "femaleCases"@,
            MetricKind::NewPillarOneTestsByPublishDate => "newPillarOneTestsByPublishDate"@,
            MetricKind::CumulativePillarOneTestsByPublishDate => "cumPillarOneTestsByPublishDate"@,
            MetricKind::NewPillarTwoTestsByPublishDate => "newPillarTwoTestsByPublishDate"@,
            MetricKind::CumulativePillarTwoTestsByPublishDate => "cumPillarTwoTestsByPublishDate"@,
            MetricKind::NewPillarThreeTestsByPublishDate => "newPillarThreeTestsByPublishDate"@,
            MetricKind::CumulativePillarThreeTestsByPublishDate => "cumPillarThreeTestsByPublishDate"@,
            MetricKind::NewPillarFourTestsByPublishDate => "newPillarFourTestsByPublishDate"@,
            MetricKind::CumulativePillarFourTestsByPublishDate => "cumPillarFourTestsByPublishDate"@,
            MetricKind::NewAdmissions => "newAdmissions"@,
            MetricKind::CumulativeAdmissions => "cumAdmissions"@,
            MetricKind::CumulativeAdmissionsByAge => "cumAdmissionsByAge"@,
            MetricKind::CumulativeTestsByPublishDate => "cumTestsByPublishDate"@,
            MetricKind::NewTestsByPublishDate => "newTestsByPublishDate"@,
            MetricKind::CovidOccupiedMechanicalVentilatorBeds => "covidOccupiedMVBeds"@,
            MetricKind::HospitalCases => "hospitalCases"@,
            MetricKind::PlannedCapacityByPublishDate => "plannedCapacityByPublishDate"@,
            MetricKind::NewDeathsWithin28DaysByPublishDate => "newDeaths28DaysByPublishDate"@,
            MetricKind::CumulativeDeathsWithin28DaysByPublishDate => "cumDeaths28DaysByPublishDate"@,
        }
    }

    /// The statistic that a wire name stands for, if it stands for one.
    pub open spec fn named(text: Seq<char>) -> Option<MetricKind> {
        if text == "areaType"@ {
            Some(MetricKind::AreaType)
        } else if text == "areaName"@ {
            Some(MetricKind::AreaName)
        } else if text == "areaCode"@ {
            Some(MetricKind::AreaCode)
        } else if text == "date"@ {
            Some(MetricKind::Date)
        } else if text == "hash"@ {
            Some(MetricKind::Hash)
        } else if text == "newCasesByPublishDate"@ {
            Some(MetricKind::NewCasesByPublishDate)
        } else if text == "cumCasesByPublishDate"@ {
            Some(MetricKind::CumulativeCasesByPublishDate)
        } else if text == "cumCasesBySpecimenDateRange"@ {
            Some(MetricKind::CumulativeCasesBySpecimenDateRange)
        } else if text == "newCasesBySpecimenDate"@ {
            Some(MetricKind::NewCasesBySpecimenDate)
        } else if text == "maleCases"@ {
            Some(MetricKind::MaleCases)
        } else if text == "femaleCases"@ {
            Some(MetricKind::FemaleCases)
        } else if text == "newPillarOneTestsByPublishDate"@ {
            Some(MetricKind::NewPillarOneTestsByPublishDate)
        } else if text == "cumPillarOneTestsByPublishDate"@ {
            Some(MetricKind::CumulativePillarOneTestsByPublishDate)
        } else if text == "newPillarTwoTestsByPublishDate"@ {
            Some(MetricKind::NewPillarTwoTestsByPublishDate)
        } else if text == "cumPillarTwoTestsByPublishDate"@ {
            Some(MetricKind::CumulativePillarTwoTestsByPublishDate)
        } else if text == "newPillarThreeTestsByPublishDate"@ {
            Some(MetricKind::NewPillarThreeTestsByPublishDate)
        } else if text == "cumPillarThreeTestsByPublishDate"@ {
            Some(MetricKind::CumulativePillarThreeTestsByPublishDate)
        } else if text == "newPillarFourTestsByPublishDate"@ {
            Some(MetricKind::NewPillarFourTestsByPublishDate)
        } else if text == "cumPillarFourTestsByPublishDate"@ {
            Some(MetricKind::CumulativePillarFourTestsByPublishDate)
        } else if text == "newAdmissions"@ {
            Some(MetricKind::NewAdmissions)
        } else if text == "cumAdmissions"@ {
            Some(MetricKind::CumulativeAdmissions)
        } else if text == "cumAdmissionsByAge"@ {
            Some(MetricKind::CumulativeAdmissionsByAge)
        } else if text == "cumTestsByPublishDate"@ {
            Some(MetricKind::CumulativeTestsByPublishDate)
        } else if text == "newTestsByPublishDate"@ {
            Some(MetricKind::NewTestsByPublishDate)
        } else if text == "covidOccupiedMVBeds"@ {
            Some(MetricKind::CovidOccupiedMechanicalVentilatorBeds)
        } else if text == "hospitalCases"@ {
            Some(MetricKind::HospitalCases)
        } else if text == "plannedCapacityByPublishDate"@ {
            Some(MetricKind::PlannedCapacityByPublishDate)
        } else if text == "newDeaths28DaysByPublishDate"@ {
            Some(MetricKind::NewDeathsWithin28DaysByPublishDate)
        } else if text == "cumDeaths28DaysByPublishDate"@ {
            Some(MetricKind::CumulativeDeathsWithin28DaysByPublishDate)
        } else {
            None
        }
    }

    /// The kind of value that this statistic carries.
    pub open spec fn spec_shape(self) -> Shape {
        match self {
            MetricKind::AreaType => Shape::Area,
            MetricKind::AreaName | MetricKind::AreaCode | MetricKind::Hash => Shape::Text,
            MetricKind::Date => Shape::Day,
            _ => Shape::Count,
        }
    }

    /// Gives the kind of value that this statistic carries.
    #[verifier::when_used_as_spec(spec_shape)]
    pub fn shape(self) -> (shape: Shape)
        ensures
            shape == self.spec_shape(),
    {
        match self {
            MetricKind::AreaType => Shape::Area,
            MetricKind::AreaName | MetricKind::AreaCode | MetricKind::Hash => Shape::Text,
            MetricKind::Date => Shape::Day,
            _ => Shape::Count,
        }
    }

    /// Gives the wire name of this statistic.
    pub fn as_str(self) -> (name: &'static str)
        ensures
            name@ == self.wire_name(),
    {
        match self {
            MetricKind::AreaType => "areaType",
            MetricKind::AreaName => "areaName",
            MetricKind::AreaCode => "areaCode",
            MetricKind::Date => "date",
            MetricKind::Hash => "hash",
            MetricKind::NewCasesByPublishDate => "newCasesByPublishDate",
            MetricKind::CumulativeCasesByPublishDate => "cumCasesByPublishDate",
            MetricKind::CumulativeCasesBySpecimenDateRange => "cumCasesBySpecimenDateRange",
            MetricKind::NewCasesBySpecimenDate => "newCasesBySpecimenDate",
            MetricKind::MaleCases => "maleCases",
            MetricKind::FemaleCases => "femaleCases",
            MetricKind::NewPillarOneTestsByPublishDate => "newPillarOneTestsByPublishDate",
            MetricKind::CumulativePillarOneTestsByPublishDate => "cumPillarOneTestsByPublishDate",
            MetricKind::NewPillarTwoTestsByPublishDate => "newPillarTwoTestsByPublishDate",
            MetricKind::CumulativePillarTwoTestsByPublishDate => "cumPillarTwoTestsByPublishDate",
            MetricKind::NewPillarThreeTestsByPublishDate => "newPillarThreeTestsByPublishDate",
            MetricKind::CumulativePillarThreeTestsByPublishDate => "cumPillarThreeTestsByPublishDate",
            MetricKind::NewPillarFourTestsByPublishDate => "newPillarFourTestsByPublishDate",
            MetricKind::CumulativePillarFourTestsByPublishDate => "cumPillarFourTestsByPublishDate",
            MetricKind::NewAdmissions => "newAdmissions",
            MetricKind::CumulativeAdmissions => "cumAdmissions",
            MetricKind::CumulativeAdmissionsByAge => "cumAdmissionsByAge",
            MetricKind::CumulativeTestsByPublishDate => "cumTestsByPublishDate",
            MetricKind::NewTestsByPublishDate => "newTestsByPublishDate",
            MetricKind::CovidOccupiedMechanicalVentilatorBeds => "covidOccupiedMVBeds",
            MetricKind::HospitalCases => "hospitalCases",
            MetricKind::PlannedCapacityByPublishDate => "plannedCapacityByPublishDate",
            MetricKind::NewDeathsWithin28DaysByPublishDate => "newDeaths28DaysByPublishDate",
            MetricKind::CumulativeDeathsWithin28DaysByPublishDate => "cumDeaths28DaysByPublishDate",
        }
    }

    /// Reads a wire name back into the statistic it stands for; a text that is
    /// no wire name gives `None`.
    pub fn from_wire(text: &str) -> (kind: Option<MetricKind>)
        ensures
            kind == MetricKind::named(text@),
    {
        if same_text(text, "areaType") {
            Some(MetricKind::AreaType)
        } else if same_text(text, "areaName") {
            Some(MetricKind::AreaName)
        } else if same_text(text, "areaCode") {
            Some(MetricKind::AreaCode)
        } else if same_text(text, "date") {
            Some(MetricKind::Date)
        } else if same_text(text, "hash") {
            Some(MetricKind::Hash)
        } else if same_text(text, "newCasesByPublishDate") {
            Some(MetricKind::NewCasesByPublishDate)
        } else if same_text(text, "cumCasesByPublishDate") {
            Some(MetricKind::CumulativeCasesByPublishDate)
        } else if same_text(text, "cumCasesBySpecimenDateRange") {
            Some(MetricKind::CumulativeCasesBySpecimenDateRange)
        } else if same_text(text, "newCasesBySpecimenDate") {
            Some(MetricKind::NewCasesBySpecimenDate)
        } else if same_text(text, "maleCases") {
            Some(MetricKind::MaleCases)
        } else if same_text(text, "femaleCases") {
            Some(MetricKind::FemaleCases)
        } else if same_text(text, "newPillarOneTestsByPublishDate") {
            Some(MetricKind::NewPillarOneTestsByPublishDate)
        } else if same_text(text, "cumPillarOneTestsByPublishDate") {
            Some(MetricKind::CumulativePillarOneTestsByPublishDate)
        } else if same_text(text, "newPillarTwoTestsByPublishDate") {
            Some(MetricKind::NewPillarTwoTestsByPublishDate)
        } else if same_text(text, "cumPillarTwoTestsByPublishDate") {
            Some(MetricKind::CumulativePillarTwoTestsByPublishDate)
        } else if same_text(text, "newPillarThreeTestsByPublishDate") {
            Some(MetricKind::NewPillarThreeTestsByPublishDate)
        } else if same_text(text, "cumPillarThreeTestsByPublishDate") {
            Some(MetricKind::CumulativePillarThreeTestsByPublishDate)
        } else if same_text(text, "newPillarFourTestsByPublishDate") {
            Some(MetricKind::NewPillarFourTestsByPublishDate)
        } else if same_text(text, "cumPillarFourTestsByPublishDate") {
            Some(MetricKind::CumulativePillarFourTestsByPublishDate)
        } else if same_text(text, "newAdmissions") {
            Some(MetricKind::NewAdmissions)
        } else if same_text(text, "cumAdmissions") {
            Some(MetricKind::CumulativeAdmissions)
        } else if same_text(text, "cumAdmissionsByAge") {
            Some(MetricKind::CumulativeAdmissionsByAge)
        } else if same_text(text, "cumTestsByPublishDate") {
            Some(MetricKind::CumulativeTestsByPublishDate)
        } else if same_text(text, "newTestsByPublishDate") {
            Some(MetricKind::NewTestsByPublishDate)
        } else if same_text(text, "covidOccupiedMVBeds") {
            Some(MetricKind::CovidOccupiedMechanicalVentilatorBeds)
        } else if same_text(text, "hospitalCases") {
            Some(MetricKind::HospitalCases)
        } else if same_text(text, "plannedCapacityByPublishDate") {
            Some(MetricKind::PlannedCapacityByPublishDate)
        } else if same_text(text, "newDeaths28DaysByPublishDate") {
            Some(MetricKind::NewDeathsWithin28DaysByPublishDate)
        } else if same_text(text, "cumDeaths28DaysByPublishDate") {
            Some(MetricKind::CumulativeDeathsWithin28DaysByPublishDate)
        } else {
            None
        }
    }

    /// The table of wire names is a bijection between the statistics and their
    /// names: the name of a statistic reads back as that statistic, and a text
    /// reads as a statistic only if it is that statistic's name.
    pub proof fn wire_name_round_trip(kind: MetricKind, text: Seq<char>)
        ensures
            MetricKind::named(kind.wire_name()) == Some(kind),
            MetricKind::named(text) == Some(kind) <==> text == kind.wire_name(),
    {
        wire_names_differ();
    }

    /// No two statistics share a wire name.
    pub proof fn wire_name_injective(a: MetricKind, b: MetricKind)
        requires
            a.wire_name() == b.wire_name(),
        ensures
            a == b,
    {
        wire_names_differ();
    }
}

/// Where a text has the length of a wire name and agrees with it in the
/// characters that tell it from the other names of that length.
spec fn marks(text: Seq<char>, len: nat, first: char, at: int, other: char) -> bool {
    text.len() == len && text[0] == first && text[at] == other
}

/// The length of each wire name, and the characters that tell names of one
/// length apart.
proof fn wire_names_differ()
    ensures
        marks("areaType"@, 8, 'a', 4, 'T'),
        marks("areaName"@, 8, 'a', 4, 'N'),
        marks("areaCode"@, 8, 'a', 4, 'C'),
        marks("date"@, 4, 'd', 1, 'a'),
        marks("hash"@, 4, 'h', 1, 'a'),
        marks("newCasesByPublishDate"@, 21, 'n', 3, 'C'),
        marks("cumCasesByPublishDate"@, 21, 'c', 3, 'C'),
        marks("cumCasesBySpecimenDateRange"@, 27, 'c', 1, 'u'),
        marks("newCasesBySpecimenDate"@, 22, 'n', 1, 'e'),
        marks("maleCases"@, 9, 'm', 1, 'a'),
        marks("femaleCases"@, 11, 'f', 1, 'e'),
        marks("newPillarOneTestsByPublishDate"@, 30, 'n', 9, 'O'),
        marks("cumPillarOneTestsByPublishDate"@, 30, 'c', 9, 'O'),
        marks("newPillarTwoTestsByPublishDate"@, 30, 'n', 9, 'T'),
        marks("cumPillarTwoTestsByPublishDate"@, 30, 'c', 9, 'T'),
        marks("newPillarThreeTestsByPublishDate"@, 32, 'n', 1, 'e'),
        marks("cumPillarThreeTestsByPublishDate"@, 32, 'c', 1, 'u'),
        marks("newPillarFourTestsByPublishDate"@, 31, 'n', 1, 'e'),
        marks("cumPillarFourTestsByPublishDate"@, 31, 'c', 1, 'u'),
        marks("newAdmissions"@, 13, 'n', 1, 'e'),
        marks("cumAdmissions"@, 13, 'c', 1, 'u'),
        marks("cumAdmissionsByAge"@, 18, 'c', 1, 'u'),
        marks("cumTestsByPublishDate"@, 21, 'c', 3, 'T'),
        marks("newTestsByPublishDate"@, 21, 'n', 3, 'T'),
        marks("covidOccupiedMVBeds"@, 19, 'c', 1, 'o'),
        marks("hospitalCases"@, 13, 'h', 1, 'o'),
        marks("plannedCapacityByPublishDate"@, 28, 'p', 1, 'l'),
        marks("newDeaths28DaysByPublishDate"@, 28, 'n', 1, 'e'),
        marks("cumDeaths28DaysByPublishDate"@, 28, 'c', 1, 'u'),
{
    reveal_strlit("areaType");
    reveal_strlit("areaName");
    reveal_strlit("areaCode");
    reveal_strlit("date");
    reveal_strlit("hash");
    reveal_strlit("newCasesByPublishDate");
    reveal_strlit("cumCasesByPublishDate");
    reveal_strlit("cumCasesBySpecimenDateRange");
    reveal_strlit("newCasesBySpecimenDate");
    reveal_strlit("maleCases");
    reveal_strlit("femaleCases");
    reveal_strlit("newPillarOneTestsByPublishDate");
    reveal_strlit("cumPillarOneTestsByPublishDate");
    reveal_strlit("newPillarTwoTestsByPublishDate");
    reveal_strlit("cumPillarTwoTestsByPublishDate");
    reveal_strlit("newPillarThreeTestsByPublishDate");
    reveal_strlit("cumPillarThreeTestsByPublishDate");
    reveal_strlit("newPillarFourTestsByPublishDate");
    reveal_strlit("cumPillarFourTestsByPublishDate");
    reveal_strlit("newAdmissions");
    reveal_strlit("cumAdmissions");
    reveal_strlit("cumAdmissionsByAge");
    reveal_strlit("cumTestsByPublishDate");
    reveal_strlit("newTestsByPublishDate");
    reveal_strlit("covidOccupiedMVBeds");
    reveal_strlit("hospitalCases");
    reveal_strlit("plannedCapacityByPublishDate");
    reveal_strlit("newDeaths28DaysByPublishDate");
    reveal_strlit("cumDeaths28DaysByPublishDate");
}

} // verus!
