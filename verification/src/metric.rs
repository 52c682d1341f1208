//! Statistics with their values, as a reply carries them.
//!
//! A [`Metric`] names a statistic and holds one value of it. In a request only
//! the name counts: the value given there is a placeholder, and decoding puts
//! the reported value in its place.

use vstd::prelude::*;

use crate::area::AreaType;
use crate::date::{Date, Ymd};
use crate::kind::{MetricKind, Shape};

verus! {

/// A value of a statistic.
#[derive(Debug, Clone, PartialEq, Eq)]
pub enum Value {
    Area(AreaType),
    Text(String),
    Day(Date),
    Count(i32),
}

/// What a [`Value`] stands for.
pub enum ValueView {
    Area(AreaType),
    Text(Seq<char>),
    Day(Ymd),
    Count(i32),
}

impl ValueView {
    /// The kind of value that this is.
    pub open spec fn shape(self) -> Shape {
        match self {
            ValueView::Area(_) => Shape::Area,
            ValueView::Text(_) => Shape::Text,
            ValueView::Day(_) => Shape::Day,
            ValueView::Count(_) => Shape::Count,
        }
    }
}

impl View for Value {
    type V = ValueView;

    open spec fn view(&self) -> ValueView {
        match self {
            Value::Area(area) => ValueView::Area(*area),
            Value::Text(text) => ValueView::Text(text@),
            Value::Day(date) => ValueView::Day(date@),
            Value::Count(count) => ValueView::Count(*count),
        }
    }
}

/// A statistic together with one value of it.
#[derive(Debug, Clone, PartialEq, Eq)]
pub enum Metric {
    AreaType(AreaType),
    AreaName(String),
    AreaCode(String),
    Date(Date),
    Hash(String),
    NewCasesByPublishDate(i32),
    CumulativeCasesByPublishDate(i32),
    CumulativeCasesBySpecimenDateRange(i32),
    NewCasesBySpecimenDate(i32),
    MaleCases(i32),
    FemaleCases(i32),
    NewPillarOneTestsByPublishDate(i32),
    CumulativePillarOneTestsByPublishDate(i32),
    NewPillarTwoTestsByPublishDate(i32),
    CumulativePillarTwoTestsByPublishDate(i32),
    NewPillarThreeTestsByPublishDate(i32),
    CumulativePillarThreeTestsByPublishDate(i32),
    NewPillarFourTestsByPublishDate(i32),
    CumulativePillarFourTestsByPublishDate(i32),
    NewAdmissions(i32),
    CumulativeAdmissions(i32),
    CumulativeAdmissionsByAge(i32),
    CumulativeTestsByPublishDate(i32),
    NewTestsByPublishDate(i32),
    CovidOccupiedMechanicalVentilatorBeds(i32),
    HospitalCases(i32),
    PlannedCapacityByPublishDate(i32),
    NewDeathsWithin28DaysByPublishDate(i32),
    CumulativeDeathsWithin28DaysByPublishDate(i32),
}

/// What a [`Metric`] stands for: which statistic it is, and its value.
pub struct MetricView {
    pub kind: MetricKind,
    pub value: ValueView,
}

impl MetricView {
    /// Whether the value is of the kind that the statistic carries.
    pub open spec fn well_shaped(self) -> bool {
        self.value.shape() == self.kind.shape()
    }
}

impl View for Metric {
    type V = MetricView;

    open spec fn view(&self) -> MetricView {
        match self {
            Metric::AreaType(v) => MetricView {
                kind: MetricKind::AreaType,
                value: ValueView::Area(*v),
            },
            Metric::AreaName(v) => MetricView {
                kind: MetricKind::AreaName,
                value: ValueView::Text(v@),
            },
            Metric::AreaCode(v) => MetricView {
                kind: MetricKind::AreaCode,
                value: ValueView::Text(v@),
            },
            Metric::Date(v) => MetricView {
                kind: MetricKind::Date,
                value: ValueView::Day(v@),
            },
            Metric::Hash(v) => MetricView {
                kind: MetricKind::Hash,
                value: ValueView::Text(v@),
            },
            Metric::NewCasesByPublishDate(v) => MetricView {
                kind: MetricKind::NewCasesByPublishDate,
                value: ValueView::Count(*v),
            },
            Metric::CumulativeCasesByPublishDate(v) => MetricView {
                kind: MetricKind::CumulativeCasesByPublishDate,
                value: ValueView::Count(*v),
            },
            Metric::CumulativeCasesBySpecimenDateRange(v) => MetricView {
                kind: MetricKind::CumulativeCasesBySpecimenDateRange,
                value: ValueView::Count(*v),
            },
            Metric::NewCasesBySpecimenDate(v) => MetricView {
                kind: MetricKind::NewCasesBySpecimenDate,
                value: ValueView::Count(*v),
            },
            Metric::MaleCases(v) => MetricView {
                kind: MetricKind::MaleCases,
                value: ValueView::Count(*v),
            },
            Metric::FemaleCases(v) => MetricView {
                kind: MetricKind::FemaleCases,
                value: ValueView::Count(*v),
            },
            Metric::NewPillarOneTestsByPublishDate(v) => MetricView {
                kind: MetricKind::NewPillarOneTestsByPublishDate,
                value: ValueView::Count(*v),
            },
            Metric::CumulativePillarOneTestsByPublishDate(v) => MetricView {
                kind: MetricKind::CumulativePillarOneTestsByPublishDate,
                value: ValueView::Count(*v),
            },
            Metric::NewPillarTwoTestsByPublishDate(v) => MetricView {
                kind: MetricKind::NewPillarTwoTestsByPublishDate,
                value: ValueView::Count(*v),
            },
            Metric::CumulativePillarTwoTestsByPublishDate(v) => MetricView {
                kind: MetricKind::CumulativePillarTwoTestsByPublishDate,
                value: ValueView::Count(*v),
            },
            Metric::NewPillarThreeTestsByPublishDate(v) => MetricView {
                kind: MetricKind::NewPillarThreeTestsByPublishDate,
                value: ValueView::Count(*v),
            },
            Metric::CumulativePillarThreeTestsByPublishDate(v) => MetricView {
                kind: MetricKind::CumulativePillarThreeTestsByPublishDate,
                value: ValueView::Count(*v),
            },
            Metric::NewPillarFourTestsByPublishDate(v) => MetricView {
                kind: MetricKind::NewPillarFourTestsByPublishDate,
                value: ValueView::Count(*v),
            },
            Metric::CumulativePillarFourTestsByPublishDate(v) => MetricView {
                kind: MetricKind::CumulativePillarFourTestsByPublishDate,
                value: ValueView::Count(*v),
            },
            Metric::NewAdmissions(v) => MetricView {
                kind: MetricKind::NewAdmissions,
                value: ValueView::Count(*v),
            },
            Metric::CumulativeAdmissions(v) => MetricView {
                kind: MetricKind::CumulativeAdmissions,
                value: ValueView::Count(*v),
            },
            Metric::CumulativeAdmissionsByAge(v) => MetricView {
                kind: MetricKind::CumulativeAdmissionsByAge,
                value: ValueView::Count(*v),
            },
            Metric::CumulativeTestsByPublishDate(v) => MetricView {
                kind: MetricKind::CumulativeTestsByPublishDate,
                value: ValueView::Count(*v),
            },
            Metric::NewTestsByPublishDate(v) => MetricView {
                kind: MetricKind::NewTestsByPublishDate,
                value: ValueView::Count(*v),
            },
            Metric::CovidOccupiedMechanicalVentilatorBeds(v) => MetricView {
                kind: MetricKind::CovidOccupiedMechanicalVentilatorBeds,
                value: ValueView::Count(*v),
            },
            Metric::HospitalCases(v) => MetricView {
                kind: MetricKind::HospitalCases,
                value: ValueView::Count(*v),
            },
            Metric::PlannedCapacityByPublishDate(v) => MetricView {
                kind: MetricKind::PlannedCapacityByPublishDate,
                value: ValueView::Count(*v),
            },
            Metric::NewDeathsWithin28DaysByPublishDate(v) => MetricView {
                kind: MetricKind::NewDeathsWithin28DaysByPublishDate,
                value: ValueView::Count(*v),
            },
            Metric::CumulativeDeathsWithin28DaysByPublishDate(v) => MetricView {
                kind: MetricKind::CumulativeDeathsWithin28DaysByPublishDate,
                value: ValueView::Count(*v),
            },
        }
    }
}

impl Metric {
    /// Which statistic this is, whatever its value.
    pub fn kind(&self) -> (kind: MetricKind)
        ensures
            kind == self@.kind,
    {
        match self {
            Metric::AreaType(_) => MetricKind::AreaType,
            Metric::AreaName(_) => MetricKind::AreaName,
            Metric::AreaCode(_) => MetricKind::AreaCode,
            Metric::Date(_) => MetricKind::Date,
            Metric::Hash(_) => MetricKind::Hash,
            Metric::NewCasesByPublishDate(_) => MetricKind::NewCasesByPublishDate,
            Metric::CumulativeCasesByPublishDate(_) => MetricKind::CumulativeCasesByPublishDate,
            Metric::CumulativeCasesBySpecimenDateRange(_) => MetricKind::CumulativeCasesBySpecimenDateRange,
            Metric::NewCasesBySpecimenDate(_) => MetricKind::NewCasesBySpecimenDate,
            Metric::MaleCases(_) => MetricKind::MaleCases,
            Metric::FemaleCases(_) => MetricKind::FemaleCases,
            Metric::NewPillarOneTestsByPublishDate(_) => MetricKind::NewPillarOneTestsByPublishDate,
            Metric::CumulativePillarOneTestsByPublishDate(_) => MetricKind::CumulativePillarOneTestsByPublishDate,
            Metric::NewPillarTwoTestsByPublishDate(_) => MetricKind::NewPillarTwoTestsByPublishDate,
            Metric::CumulativePillarTwoTestsByPublishDate(_) => MetricKind::CumulativePillarTwoTestsByPublishDate,
            Metric::NewPillarThreeTestsByPublishDate(_) => MetricKind::NewPillarThreeTestsByPublishDate,
            Metric::CumulativePillarThreeTestsByPublishDate(_) => MetricKind::CumulativePillarThreeTestsByPublishDate,
            Metric::NewPillarFourTestsByPublishDate(_) => MetricKind::NewPillarFourTestsByPublishDate,
            Metric::CumulativePillarFourTestsByPublishDate(_) => MetricKind::CumulativePillarFourTestsByPublishDate,
            Metric::NewAdmissions(_) => MetricKind::NewAdmissions,
            Metric::CumulativeAdmissions(_) => MetricKind::CumulativeAdmissions,
            Metric::CumulativeAdmissionsByAge(_) => MetricKind::CumulativeAdmissionsByAge,
            Metric::CumulativeTestsByPublishDate(_) => MetricKind::CumulativeTestsByPublishDate,
            Metric::NewTestsByPublishDate(_) => MetricKind::NewTestsByPublishDate,
            Metric::CovidOccupiedMechanicalVentilatorBeds(_) => MetricKind::CovidOccupiedMechanicalVentilatorBeds,
            Metric::HospitalCases(_) => MetricKind::HospitalCases,
            Metric::PlannedCapacityByPublishDate(_) => MetricKind::PlannedCapacityByPublishDate,
            Metric::NewDeathsWithin28DaysByPublishDate(_) => MetricKind::NewDeathsWithin28DaysByPublishDate,
            Metric::CumulativeDeathsWithin28DaysByPublishDate(_) => MetricKind::CumulativeDeathsWithin28DaysByPublishDate,
        }
    }

    /// The value of a metric is always of the kind that its statistic carries.
    pub proof fn always_well_shaped(self)
        ensures
            self@.well_shaped(),
    {
    }
}

impl MetricKind {
    /// Puts a value under this statistic. A value of another kind than the
    /// statistic carries is refused.
    pub fn carry(self, value: Value) -> (metric: Option<Metric>)
        ensures
            metric is Some <==> value@.shape() == self.shape(),
            metric is Some ==> metric->0@ == (MetricView { kind: self, value: value@ }),
    {
        match (self, value) {
            (MetricKind::AreaType, Value::Area(v)) => Some(Metric::AreaType(v)),
            (MetricKind::AreaName, Value::Text(v)) => Some(Metric::AreaName(v)),
            (MetricKind::AreaCode, Value::Text(v)) => Some(Metric::AreaCode(v)),
            (MetricKind::Date, Value::Day(v)) => Some(Metric::Date(v)),
            (MetricKind::Hash, Value::Text(v)) => Some(Metric::Hash(v)),
            (MetricKind::NewCasesByPublishDate, Value::Count(v)) => Some(Metric::NewCasesByPublishDate(v)),
            (MetricKind::CumulativeCasesByPublishDate, Value::Count(v)) => Some(Metric::CumulativeCasesByPublishDate(v)),
            (MetricKind::CumulativeCasesBySpecimenDateRange, Value::Count(v)) => Some(Metric::CumulativeCasesBySpecimenDateRange(v)),
            (MetricKind::NewCasesBySpecimenDate, Value::Count(v)) => Some(Metric::NewCasesBySpecimenDate(v)),
            (MetricKind::MaleCases, Value::Count(v)) => Some(Metric::MaleCases(v)),
            (MetricKind::FemaleCases, Value::Count(v)) => Some(Metric::FemaleCases(v)),
            (MetricKind::NewPillarOneTestsByPublishDate, Value::Count(v)) => Some(Metric::NewPillarOneTestsByPublishDate(v)),
            (MetricKind::CumulativePillarOneTestsByPublishDate, Value::Count(v)) => Some(Metric::CumulativePillarOneTestsByPublishDate(v)),
            (MetricKind::NewPillarTwoTestsByPublishDate, Value::Count(v)) => Some(Metric::NewPillarTwoTestsByPublishDate(v)),
            (MetricKind::CumulativePillarTwoTestsByPublishDate, Value::Count(v)) => Some(Metric::CumulativePillarTwoTestsByPublishDate(v)),
            (MetricKind::NewPillarThreeTestsByPublishDate, Value::Count(v)) => Some(Metric::NewPillarThreeTestsByPublishDate(v)),
            (MetricKind::CumulativePillarThreeTestsByPublishDate, Value::Count(v)) => Some(Metric::CumulativePillarThreeTestsByPublishDate(v)),
            (MetricKind::NewPillarFourTestsByPublishDate, Value::Count(v)) => Some(Metric::NewPillarFourTestsByPublishDate(v)),
            (MetricKind::CumulativePillarFourTestsByPublishDate, Value::Count(v)) => Some(Metric::CumulativePillarFourTestsByPublishDate(v)),
            (MetricKind::NewAdmissions, Value::Count(v)) => Some(Metric::NewAdmissions(v)),
            (MetricKind::CumulativeAdmissions, Value::Count(v)) => Some(Metric::CumulativeAdmissions(v)),
            (MetricKind::CumulativeAdmissionsByAge, Value::Count(v)) => Some(Metric::CumulativeAdmissionsByAge(v)),
            (MetricKind::CumulativeTestsByPublishDate, Value::Count(v)) => Some(Metric::CumulativeTestsByPublishDate(v)),
            (MetricKind::NewTestsByPublishDate, Value::Count(v)) => Some(Metric::NewTestsByPublishDate(v)),
            (MetricKind::CovidOccupiedMechanicalVentilatorBeds, Value::Count(v)) => Some(Metric::CovidOccupiedMechanicalVentilatorBeds(v)),
            (MetricKind::HospitalCases, Value::Count(v)) => Some(Metric::HospitalCases(v)),
            (MetricKind::PlannedCapacityByPublishDate, Value::Count(v)) => Some(Metric::PlannedCapacityByPublishDate(v)),
            (MetricKind::NewDeathsWithin28DaysByPublishDate, Value::Count(v)) => Some(Metric::NewDeathsWithin28DaysByPublishDate(v)),
            (MetricKind::CumulativeDeathsWithin28DaysByPublishDate, Value::Count(v)) => Some(Metric::CumulativeDeathsWithin28DaysByPublishDate(v)),
            _ => None,
        }
    }
}

/// Gives the wire name of the statistic that a metric names.
pub fn metric_to_str(metric: &Metric) -> (name: &'static str)
    ensures
        name@ == metric@.kind.wire_name(),
{
    metric.kind().as_str()
}

} // verus!
