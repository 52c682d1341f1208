use covid19_uk_rs::area::AreaType;
use covid19_uk_rs::date::Date;
use covid19_uk_rs::kind::{MetricKind, Shape};
use covid19_uk_rs::metric::{metric_to_str, Metric, Value};

fn all_kinds() -> Vec<(MetricKind, &'static str)> {
    vec![
        (MetricKind::AreaType, "areaType"),
        (MetricKind::AreaName, "areaName"),
        (MetricKind::AreaCode, "areaCode"),
        (MetricKind::Date, "date"),
        (MetricKind::Hash, "hash"),
        (MetricKind::NewCasesByPublishDate, "newCasesByPublishDate"),
        (MetricKind::CumulativeCasesByPublishDate, "cumCasesByPublishDate"),
        (MetricKind::CumulativeCasesBySpecimenDateRange, "cumCasesBySpecimenDateRange"),
        (MetricKind::NewCasesBySpecimenDate, "newCasesBySpecimenDate"),
        (MetricKind::MaleCases, "maleCases"),
        (MetricKind::FemaleCases, "femaleCases"),
        (MetricKind::NewPillarOneTestsByPublishDate, "newPillarOneTestsByPublishDate"),
        (MetricKind::CumulativePillarOneTestsByPublishDate, "cumPillarOneTestsByPublishDate"),
        (MetricKind::NewPillarTwoTestsByPublishDate, "newPillarTwoTestsByPublishDate"),
        (MetricKind::CumulativePillarTwoTestsByPublishDate, "cumPillarTwoTestsByPublishDate"),
        (MetricKind::NewPillarThreeTestsByPublishDate, "newPillarThreeTestsByPublishDate"),
        (MetricKind::CumulativePillarThreeTestsByPublishDate, "cumPillarThreeTestsByPublishDate"),
        (MetricKind::NewPillarFourTestsByPublishDate, "newPillarFourTestsByPublishDate"),
        (MetricKind::CumulativePillarFourTestsByPublishDate, "cumPillarFourTestsByPublishDate"),
        (MetricKind::NewAdmissions, "newAdmissions"),
        (MetricKind::CumulativeAdmissions, "cumAdmissions"),
        (MetricKind::CumulativeAdmissionsByAge, "cumAdmissionsByAge"),
        (MetricKind::CumulativeTestsByPublishDate, "cumTestsByPublishDate"),
        (MetricKind::NewTestsByPublishDate, "newTestsByPublishDate"),
        (MetricKind::CovidOccupiedMechanicalVentilatorBeds, "covidOccupiedMVBeds"),
        (MetricKind::HospitalCases, "hospitalCases"),
        (MetricKind::PlannedCapacityByPublishDate, "plannedCapacityByPublishDate"),
        (MetricKind::NewDeathsWithin28DaysByPublishDate, "newDeaths28DaysByPublishDate"),
        (MetricKind::CumulativeDeathsWithin28DaysByPublishDate, "cumDeaths28DaysByPublishDate"),
    ]
}

fn placeholder(kind: MetricKind) -> Value {
    match kind.shape() {
        Shape::Area => Value::Area(AreaType::Overview),
        Shape::Text => Value::Text(String::new()),
        Shape::Day => Value::Day(Date::new(2020, 1, 1).unwrap()),
        Shape::Count => Value::Count(0),
    }
}

#[test]
fn every_statistic_has_its_wire_name() {
    let kinds = all_kinds();
    assert_eq!(kinds.len(), 29);
    for (kind, name) in kinds {
        assert_eq!(kind.as_str(), name);
    }
}

#[test]
fn wire_names_read_back_as_their_statistic() {
    for (kind, name) in all_kinds() {
        assert_eq!(MetricKind::from_wire(name), Some(kind));
        assert_eq!(MetricKind::from_wire(kind.as_str()), Some(kind));
    }
}

#[test]
fn no_two_statistics_share_a_wire_name() {
    let kinds = all_kinds();
    for (i, (a, _)) in kinds.iter().enumerate() {
        for (j, (b, _)) in kinds.iter().enumerate() {
            assert_eq!(a.as_str() == b.as_str(), i == j);
            assert_eq!(a == b, i == j);
        }
    }
}

#[test]
fn unknown_wire_names_name_no_statistic() {
    assert_eq!(MetricKind::from_wire(""), None);
    assert_eq!(MetricKind::from_wire("newCases"), None);
    assert_eq!(MetricKind::from_wire("AreaName"), None);
    assert_eq!(MetricKind::from_wire("date "), None);
    assert_eq!(MetricKind::from_wire("cumDeaths28DaysByPublishDateX"), None);
}

#[test]
fn metric_to_str_ignores_the_value() {
    assert_eq!(metric_to_str(&Metric::NewCasesByPublishDate(0)), "newCasesByPublishDate");
    assert_eq!(metric_to_str(&Metric::NewCasesByPublishDate(-17)), "newCasesByPublishDate");
    assert_eq!(metric_to_str(&Metric::AreaName(String::from("england"))), "areaName");
    assert_eq!(metric_to_str(&Metric::AreaName(String::new())), "areaName");
    assert_eq!(metric_to_str(&Metric::AreaType(AreaType::LTLA)), "areaType");
    assert_eq!(metric_to_str(&Metric::Date(Date::new(2020, 8, 1).unwrap())), "date");
    assert_eq!(metric_to_str(&Metric::Hash(String::from("abc"))), "hash");
    assert_eq!(
        metric_to_str(&Metric::CovidOccupiedMechanicalVentilatorBeds(3)),
        "covidOccupiedMVBeds"
    );
}

#[test]
fn metric_to_str_covers_every_statistic() {
    for (kind, name) in all_kinds() {
        let metric = kind.carry(placeholder(kind)).unwrap();
        assert_eq!(metric.kind(), kind);
        assert_eq!(metric_to_str(&metric), name);
    }
}

#[test]
fn shapes_of_statistics() {
    assert_eq!(MetricKind::AreaType.shape(), Shape::Area);
    assert_eq!(MetricKind::AreaName.shape(), Shape::Text);
    assert_eq!(MetricKind::AreaCode.shape(), Shape::Text);
    assert_eq!(MetricKind::Hash.shape(), Shape::Text);
    assert_eq!(MetricKind::Date.shape(), Shape::Day);
    let counts = all_kinds().iter().filter(|(kind, _)| kind.shape() == Shape::Count).count();
    assert_eq!(counts, 24);
}

#[test]
fn carry_puts_the_value_under_the_statistic() {
    assert_eq!(
        MetricKind::HospitalCases.carry(Value::Count(812)),
        Some(Metric::HospitalCases(812))
    );
    assert_eq!(
        MetricKind::AreaCode.carry(Value::Text(String::from("E92000001"))),
        Some(Metric::AreaCode(String::from("E92000001")))
    );
    assert_eq!(
        MetricKind::AreaType.carry(Value::Area(AreaType::Region)),
        Some(Metric::AreaType(AreaType::Region))
    );
    let day = Date::new(2020, 12, 31).unwrap();
    assert_eq!(MetricKind::Date.carry(Value::Day(day)), Some(Metric::Date(day)));
}

#[test]
fn carry_refuses_a_value_of_another_kind() {
    assert_eq!(MetricKind::HospitalCases.carry(Value::Text(String::from("812"))), None);
    assert_eq!(MetricKind::AreaName.carry(Value::Count(1)), None);
    assert_eq!(MetricKind::AreaType.carry(Value::Text(String::from("nation"))), None);
    assert_eq!(MetricKind::Date.carry(Value::Count(20200801)), None);
    assert_eq!(MetricKind::Hash.carry(Value::Area(AreaType::Nation)), None);
}

#[test]
fn area_types_have_their_wire_names() {
    assert_eq!(AreaType::Overview.as_str(), "overview");
    assert_eq!(AreaType::Nation.as_str(), "nation");
    assert_eq!(AreaType::Region.as_str(), "region");
    assert_eq!(AreaType::NHSRegion.as_str(), "nhsRegion");
    assert_eq!(AreaType::UTLA.as_str(), "utla");
    assert_eq!(AreaType::LTLA.as_str(), "ltla");
}

#[test]
fn area_type_names_read_back() {
    let all = [
        AreaType::Overview,
        AreaType::Nation,
        AreaType::Region,
        AreaType::NHSRegion,
        AreaType::UTLA,
        AreaType::LTLA,
    ];
    for area in all {
        assert_eq!(AreaType::from_wire(area.as_str()), Some(area));
    }
    for (i, a) in all.iter().enumerate() {
        for (j, b) in all.iter().enumerate() {
            assert_eq!(a.as_str() == b.as_str(), i == j);
        }
    }
}

#[test]
fn unknown_area_type_names_are_refused() {
    assert_eq!(AreaType::from_wire("galaxy"), None);
    assert_eq!(AreaType::from_wire(""), None);
    assert_eq!(AreaType::from_wire("Nation"), None);
    assert_eq!(AreaType::from_wire("nhsregion"), None);
    assert_eq!(AreaType::from_wire("null"), None);
}
