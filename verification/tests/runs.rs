use covid19_uk_rs::fetch::check_status;
use covid19_uk_rs::page::{Cell, Page};
use covid19_uk_rs::{
    AreaType, Data, Date, Error, Execution, Fault, Filter, FilterValue, Metric, MetricKind,
    Request, Response, Step,
};

fn ok(body: &str) -> Result<Response, String> {
    Ok(Response { status: 200, body: String::from(body) })
}

fn status(status: u16) -> Result<Response, String> {
    Ok(Response { status, body: String::from(r#"{"data":[[1]],"pagination":{"next":null}}"#) })
}

fn cases_request() -> Request {
    let mut req = Request::new(AreaType::Nation, Metric::Date(Date::new(2000, 1, 1).unwrap()));
    req.add_metric(Metric::NewCasesByPublishDate(0));
    req.add_filter(Filter::new(FilterValue::AreaName(String::from("england"))));
    req
}

/// Runs a request against replies that are handed out in order, and counts
/// how many were asked for.
fn drive(mut run: Execution, replies: Vec<Result<Response, String>>) -> (Result<Data, Error>, usize, Vec<String>) {
    let mut asked = 0;
    let mut urls = Vec::new();
    let mut replies = replies.into_iter();
    loop {
        urls.push(run.url());
        let reply = replies.next().expect("the run asked for more pages than there are");
        asked += 1;
        match run.advance(reply) {
            Ok(Step::More(next)) => run = next,
            Ok(Step::Done(data)) => return (Ok(data), asked, urls),
            Err(error) => return (Err(error), asked, urls),
        }
    }
}

fn row(date: (i32, u8, u8), cases: i32) -> Vec<Metric> {
    vec![
        Metric::Date(Date::new(date.0, date.1, date.2).unwrap()),
        Metric::NewCasesByPublishDate(cases),
    ]
}

#[test]
fn three_pages_are_fetched_and_joined() {
    let replies = vec![
        ok(r#"{"data":[["2020-08-06",950],["2020-08-05",892]],"pagination":{"next":"?page=2"}}"#),
        ok(r#"{"data":[["2020-08-04",670]],"pagination":{"next":"?page=3"}}"#),
        ok(r#"{"data":[["2020-08-03",938],["2020-08-02",744]],"pagination":{"next":null}}"#),
        ok(r#"{"data":[["2020-08-01",1]],"pagination":{"next":null}}"#),
    ];
    let (result, asked, urls) = drive(cases_request().get(), replies);
    assert_eq!(asked, 3);
    assert_eq!(
        result,
        Ok(vec![
            row((2020, 8, 6), 950),
            row((2020, 8, 5), 892),
            row((2020, 8, 4), 670),
            row((2020, 8, 3), 938),
            row((2020, 8, 2), 744),
        ])
    );
    assert_eq!(urls.len(), 3);
    assert!(urls[0].ends_with("&format=json&page=1"));
    assert!(urls[1].ends_with("&format=json&page=2"));
    assert!(urls[2].ends_with("&format=json&page=3"));
    let head = "https://api.coronavirus.data.gov.uk/v1/data?filters=areaType=nation;areaName=england&structure=[%22date%22, %22newCasesByPublishDate%22]";
    for url in &urls {
        assert!(url.starts_with(head));
    }
}

#[test]
fn latest_by_is_asked_for_on_every_page() {
    let replies = vec![
        ok(r#"{"data":[["2020-08-06",950]],"pagination":{"next":2}}"#),
        ok(r#"{"data":[["2020-08-05",892]],"pagination":{"next":null}}"#),
    ];
    let run = cases_request().get_latest_by_metric(Metric::NewCasesByPublishDate(0));
    let (result, asked, urls) = drive(run, replies);
    assert_eq!(asked, 2);
    assert_eq!(result, Ok(vec![row((2020, 8, 6), 950), row((2020, 8, 5), 892)]));
    assert!(urls[0].ends_with("&format=json&page=1&latestBy=newCasesByPublishDate"));
    assert!(urls[1].ends_with("&format=json&page=2&latestBy=newCasesByPublishDate"));
}

#[test]
fn a_single_page_is_enough() {
    let (result, asked, _) =
        drive(cases_request().get(), vec![ok(r#"{"data":[["2020-08-06",950]],"pagination":{"next":null}}"#)]);
    assert_eq!(asked, 1);
    assert_eq!(result, Ok(vec![row((2020, 8, 6), 950)]));
}

#[test]
fn an_empty_last_page_keeps_what_came_before() {
    let replies = vec![
        ok(r#"{"data":[["2020-08-06",950]],"pagination":{"next":"more"}}"#),
        ok(r#"{"data":[],"pagination":{"next":null}}"#),
    ];
    let (result, asked, _) = drive(cases_request().get(), replies);
    assert_eq!(asked, 2);
    assert_eq!(result, Ok(vec![row((2020, 8, 6), 950)]));
}

#[test]
fn status_204_is_no_data() {
    let (result, asked, _) = drive(cases_request().get(), vec![status(204)]);
    assert_eq!(result, Err(Error::NoData));
    assert_eq!(asked, 1);
}

#[test]
fn status_429_is_too_many_requests() {
    let (result, asked, _) = drive(cases_request().get(), vec![status(429)]);
    assert_eq!(result, Err(Error::TooManyRequests));
    assert_eq!(asked, 1);
}

#[test]
fn status_200_with_a_good_body_succeeds() {
    let (result, _, _) = drive(
        cases_request().get(),
        vec![ok(r#"{"data":[["2020-08-06",950]],"pagination":{"next":null}}"#)],
    );
    assert!(result.is_ok());
}

#[test]
fn any_other_status_is_a_fault_of_the_protocol() {
    for code in [0u16, 100, 199, 201, 203, 205, 301, 400, 404, 428, 430, 500, 503, u16::MAX] {
        let (result, _, _) = drive(cases_request().get(), vec![status(code)]);
        assert_eq!(result, Err(Error::Protocol(Fault::UnexpectedStatus(code))));
    }
}

#[test]
fn check_status_tells_the_statuses_apart() {
    assert_eq!(check_status(200), Ok(()));
    assert_eq!(check_status(204), Err(Error::NoData));
    assert_eq!(check_status(429), Err(Error::TooManyRequests));
    assert_eq!(check_status(500), Err(Error::Protocol(Fault::UnexpectedStatus(500))));
    assert_eq!(check_status(201), Err(Error::Protocol(Fault::UnexpectedStatus(201))));
}

#[test]
fn a_failure_of_the_transport_is_handed_on() {
    let cause = String::from("connection refused");
    let (result, asked, _) = drive(cases_request().get(), vec![Err(cause.clone())]);
    assert_eq!(result, Err(Error::RequestErr(cause)));
    assert_eq!(asked, 1);
}

#[test]
fn a_failure_on_a_later_page_gives_no_records() {
    let replies = vec![
        ok(r#"{"data":[["2020-08-06",950]],"pagination":{"next":"?page=2"}}"#),
        status(429),
    ];
    let (result, asked, _) = drive(cases_request().get(), replies);
    assert_eq!(asked, 2);
    assert_eq!(result, Err(Error::TooManyRequests));

    let replies = vec![
        ok(r#"{"data":[["2020-08-06",950]],"pagination":{"next":"?page=2"}}"#),
        ok(r#"{"data":[["2020-08-05",null]],"pagination":{"next":null}}"#),
    ];
    let (result, _, _) = drive(cases_request().get(), replies);
    assert_eq!(result, Err(Error::Protocol(Fault::UnreadableRow)));
}

#[test]
fn a_body_that_is_not_json_is_a_fault_of_the_protocol() {
    let (result, _, _) = drive(cases_request().get(), vec![ok("<html>busy</html>")]);
    assert_eq!(result, Err(Error::Protocol(Fault::MalformedBody)));
    let (result, _, _) = drive(cases_request().get(), vec![ok("")]);
    assert_eq!(result, Err(Error::Protocol(Fault::MalformedBody)));
}

#[test]
fn the_status_is_looked_at_before_the_body() {
    let reply = Ok(Response { status: 204, body: String::from("not json") });
    let (result, _, _) = drive(cases_request().get(), vec![reply]);
    assert_eq!(result, Err(Error::NoData));
}

#[test]
fn an_unknown_area_type_fails_the_run() {
    let req = Request::new(AreaType::Nation, Metric::AreaType(AreaType::Overview));
    let (result, _, _) =
        drive(req.get(), vec![ok(r#"{"data":[["nation"],["galaxy"]],"pagination":{"next":null}}"#)]);
    assert_eq!(result, Err(Error::Protocol(Fault::UnreadableRow)));
    let (result, _, _) =
        drive(req.get(), vec![ok(r#"{"data":[["nation"],["ltla"]],"pagination":{"next":null}}"#)]);
    assert_eq!(
        result,
        Ok(vec![vec![Metric::AreaType(AreaType::Nation)], vec![Metric::AreaType(AreaType::LTLA)]])
    );
}

#[test]
fn a_missing_or_mistyped_cell_fails_the_run() {
    for body in [
        r#"{"data":[["2020-08-06"]],"pagination":{"next":null}}"#,
        r#"{"data":[["2020-08-06","950"]],"pagination":{"next":null}}"#,
        r#"{"data":[["2020-08-06",9.5]],"pagination":{"next":null}}"#,
        r#"{"data":[["2020-08-06",3000000000]],"pagination":{"next":null}}"#,
        r#"{"data":[[20200806,950]],"pagination":{"next":null}}"#,
        r#"{"data":[["2020-02-30",950]],"pagination":{"next":null}}"#,
        r#"{"data":[[null,950]],"pagination":{"next":null}}"#,
        r#"{"data":[{"newCasesByPublishDate":950,"date":"2020-08-06"}],"pagination":{"next":null}}"#,
        r#"{"data":[{"date":"2020-08-06"}],"pagination":{"next":null}}"#,
        r#"{"data":["2020-08-06",950],"pagination":{"next":null}}"#,
    ] {
        let (result, _, _) = drive(cases_request().get(), vec![ok(body)]);
        assert_eq!(result, Err(Error::Protocol(Fault::UnreadableRow)), "{}", body);
    }
}

#[test]
fn rows_may_be_objects_in_the_order_of_the_request() {
    let body = r#"{"data":[{"date":"2020-08-06","newCasesByPublishDate":950},{"date":"2020-08-05","newCasesByPublishDate":892}],"pagination":{"next":null}}"#;
    let (result, _, _) = drive(cases_request().get(), vec![ok(body)]);
    assert_eq!(result, Ok(vec![row((2020, 8, 6), 950), row((2020, 8, 5), 892)]));
}

#[test]
fn records_have_the_shape_of_the_request() {
    let mut req = Request::new(AreaType::Region, Metric::AreaCode(String::new()));
    req.add_metric(Metric::AreaType(AreaType::Overview));
    req.add_metric(Metric::CumulativeAdmissions(0));
    req.add_metric(Metric::Date(Date::new(1970, 1, 1).unwrap()));
    let kinds = req.kind_list();
    let replies = vec![
        ok(r#"{"data":[["E12000007","region",77,"2020-08-06"],["E12000008","region",78,"2020-08-06"]],"pagination":{"next":1}}"#),
        ok(r#"{"data":[["E12000009","region",79,"2020-08-05"]],"pagination":{"next":null}}"#),
    ];
    let (result, _, _) = drive(req.get(), replies);
    let data = result.unwrap();
    assert_eq!(data.len(), 3);
    for datum in &data {
        assert_eq!(datum.len(), kinds.len());
        for (metric, kind) in datum.iter().zip(kinds.iter()) {
            assert_eq!(metric.kind(), *kind);
        }
    }
    assert_eq!(
        data[2],
        vec![
            Metric::AreaCode(String::from("E12000009")),
            Metric::AreaType(AreaType::Region),
            Metric::CumulativeAdmissions(79),
            Metric::Date(Date::new(2020, 8, 5).unwrap()),
        ]
    );
}

#[test]
fn the_placeholder_of_the_request_is_not_reported() {
    let req = Request::new(AreaType::Nation, Metric::HospitalCases(12345));
    let (result, _, _) = drive(req.get(), vec![ok(r#"{"data":[[7]],"pagination":{"next":null}}"#)]);
    assert_eq!(result, Ok(vec![vec![Metric::HospitalCases(7)]]));
}

#[test]
fn absorb_takes_pages_as_plain_values() {
    let run = Execution::begin(String::from("areaType=nation"), vec![MetricKind::MaleCases], None, 1);
    let first = Page { rows: vec![vec![Cell { text: None, number: Some(1) }]], last: false };
    let run = match run.absorb(&first) {
        Ok(Step::More(next)) => next,
        other => panic!("another page was due, but the run said {:?}", other),
    };
    assert_eq!(run.page(), 2);
    let second = Page { rows: vec![vec![Cell { text: None, number: Some(2) }]], last: true };
    match run.absorb(&second) {
        Ok(Step::Done(data)) => {
            assert_eq!(data, vec![vec![Metric::MaleCases(1)], vec![Metric::MaleCases(2)]])
        }
        other => panic!("the run was over, but it said {:?}", other),
    }
}

#[test]
fn absorb_fails_on_a_row_that_cannot_be_read() {
    let run = Execution::begin(String::new(), vec![MetricKind::MaleCases], None, 1);
    let page = Page { rows: vec![vec![Cell { text: Some(String::from("1")), number: None }]], last: true };
    assert!(matches!(run.absorb(&page), Err(Error::Protocol(Fault::UnreadableRow))));
}

#[test]
fn the_pages_of_a_run_can_run_out() {
    let run = Execution::begin(String::new(), vec![MetricKind::MaleCases], None, u32::MAX - 1);
    let page = Page { rows: vec![], last: false };
    let run = match run.absorb(&page) {
        Ok(Step::More(next)) => next,
        other => panic!("another page was due, but the run said {:?}", other),
    };
    assert_eq!(run.page(), u32::MAX);
    assert!(run.url().ends_with("&page=4294967295"));
    assert!(matches!(run.absorb(&page), Err(Error::Protocol(Fault::TooManyPages))));
}

#[test]
fn the_last_page_that_can_be_numbered_may_end_a_run() {
    let run = Execution::begin(String::new(), vec![MetricKind::MaleCases], None, u32::MAX);
    let page = Page { rows: vec![vec![Cell { text: None, number: Some(9) }]], last: true };
    match run.absorb(&page) {
        Ok(Step::Done(data)) => assert_eq!(data, vec![vec![Metric::MaleCases(9)]]),
        other => panic!("the run was over, but it said {:?}", other),
    }
}

#[test]
fn a_run_started_by_hand_writes_its_address() {
    let run = Execution::begin(
        String::from("areaType=ltla"),
        vec![MetricKind::Date, MetricKind::Hash],
        Some(MetricKind::Date),
        12,
    );
    assert_eq!(
        run.url(),
        "https://api.coronavirus.data.gov.uk/v1/data?filters=areaType=ltla&structure=[%22date%22, %22hash%22]&format=json&page=12&latestBy=date"
    );
}
