//! Fetching the pages of a reply, one decision at a time.
//!
//! An [`Execution`] is one run of a request. It says which address to ask
//! next, takes what came back, and decides: the run has failed, it is done, or
//! the next page is due. Whoever drives it does the asking; nothing here
//! touches the network.
//!
//! ```text
//! let mut run = request.get();
//! loop {
//!     let reply = /* GET run.url() */;
//!     match run.advance(reply)? {
//!         Step::More(next) => run = next,
//!         Step::Done(data) => return Ok(data),
//!     }
//! }
//! ```

use vstd::prelude::*;

use crate::decode::{
    all_answer,
    answers,
    data_view,
    decode_rows,
    readings_answer,
    rows_readable,
    rows_reading,
    Data,
};
use crate::error::{Error, ErrorView, Fault};
use crate::kind::MetricKind;
use crate::metric::MetricView;
use crate::page::{page_in, Page, PageView};
use crate::query::{address, structure_text, write_address, write_structure};

verus! {

/// What came back for one page: the status of the reply and its body.
#[derive(Debug, Clone, PartialEq, Eq)]
pub struct Response {
    pub status: u16,
    pub body: String,
}

/// What an [`Execution`] stands for.
pub struct ExecutionView {
    /// The filters of the request, as they stand in the address of a query.
    pub filters: Seq<char>,
    /// The statistics asked for, in the order of the request.
    pub kinds: Seq<MetricKind>,
    /// The statistic by whose latest value the reply is restricted, if any.
    pub latest_by: Option<MetricKind>,
    /// The number of the page that is due.
    pub page: nat,
    /// The records of the pages before it, in the order of the reply.
    pub data: Seq<Seq<MetricView>>,
}

/// One run of a request, between two pages.
#[derive(Debug)]
pub struct Execution {
    filters: String,
    structure: String,
    latest_by: Option<MetricKind>,
    kinds: Vec<MetricKind>,
    page: u32,
    data: Data,
}

/// How a run goes on after a page.
#[derive(Debug)]
pub enum Step {
    /// Another page is due.
    More(Execution),
    /// The page was the last one: these are the records of all pages.
    Done(Data),
}

impl View for Execution {
    type V = ExecutionView;

    closed spec fn view(&self) -> ExecutionView {
        ExecutionView {
            filters: self.filters@,
            kinds: self.kinds@,
            latest_by: self.latest_by,
            page: self.page as nat,
            data: data_view(self.data@),
        }
    }
}

/// The error that a status stands for; status 200 stands for none.
pub open spec fn status_error(status: u16) -> Option<ErrorView> {
    if status == 200 {
        None
    } else if status == 204 {
        Some(ErrorView::NoData)
    } else if status == 429 {
        Some(ErrorView::TooManyRequests)
    } else {
        Some(ErrorView::Protocol(Fault::UnexpectedStatus(status)))
    }
}

/// What a [`Step`] stands for.
pub enum StepView {
    More(ExecutionView),
    Done(Seq<Seq<MetricView>>),
}

impl View for Step {
    type V = StepView;

    open spec fn view(&self) -> StepView {
        match self {
            Step::More(next) => StepView::More(next@),
            Step::Done(data) => StepView::Done(data_view(data@)),
        }
    }
}

/// What the result of a step stands for.
pub open spec fn outcome(result: Result<Step, Error>) -> Result<StepView, ErrorView> {
    match result {
        Ok(step) => Ok(step@),
        Err(error) => Err(error@),
    }
}

/// What a run in the state `before` makes of a page.
///
/// A page with a row that cannot be read fails the run. Otherwise the records
/// of the page are put behind those of the pages before it; after the last
/// page they are handed out, and else the next page is due, unless its number
/// cannot be written.
pub open spec fn absorbed(before: ExecutionView, page: PageView) -> Result<StepView, ErrorView> {
    if !rows_readable(before.kinds, page.rows) {
        Err(ErrorView::Protocol(Fault::UnreadableRow))
    } else if page.last {
        Ok(StepView::Done(before.data + rows_reading(before.kinds, page.rows)))
    } else if before.page >= u32::MAX {
        Err(ErrorView::Protocol(Fault::TooManyPages))
    } else {
        Ok(
            StepView::More(
                ExecutionView {
                    page: before.page + 1,
                    data: before.data + rows_reading(before.kinds, page.rows),
                    ..before
                },
            ),
        )
    }
}

/// What a run in the state `before` makes of what came back for the page that
/// was due.
///
/// A failure of the transport fails the run with its cause. A status other
/// than 200 fails it with the error that the status stands for, and a body
/// that holds no page with a fault of the protocol. Otherwise the run goes on
/// with the page that the body holds.
pub open spec fn advanced(before: ExecutionView, reply: Result<Response, String>) -> Result<
    StepView,
    ErrorView,
> {
    match reply {
        Err(cause) => Err(ErrorView::RequestErr(cause@)),
        Ok(response) => match status_error(response.status) {
            Some(refusal) => Err(refusal),
            None => match page_in(response.body@) {
                Some(page) => absorbed(before, page),
                None => Err(ErrorView::Protocol(Fault::MalformedBody)),
            },
        },
    }
}

/// Whether every record that a step holds answers the statistics asked for.
pub open spec fn keeps_shape(kinds: Seq<MetricKind>, result: Result<StepView, ErrorView>) -> bool {
    match result {
        Ok(StepView::Done(data)) => all_answer(kinds, data),
        Ok(StepView::More(next)) => next.kinds == kinds && all_answer(kinds, next.data),
        Err(_) => true,
    }
}

/// The records of a sequence of pages: those of each page in the order of its
/// rows, page after page.
pub open spec fn pages_reading(kinds: Seq<MetricKind>, pages: Seq<PageView>) -> Seq<
    Seq<MetricView>,
>
    decreases pages.len(),
{
    if pages.len() == 0 {
        Seq::empty()
    } else {
        pages_reading(kinds, pages.drop_last()) + rows_reading(kinds, pages.last().rows)
    }
}

/// What a run in the state `before` makes of a sequence of pages that are
/// handed to it in order. A run that has ended takes no further page.
pub open spec fn run_through(before: ExecutionView, pages: Seq<PageView>) -> Result<
    StepView,
    ErrorView,
>
    decreases pages.len(),
{
    if pages.len() == 0 {
        Ok(StepView::More(before))
    } else {
        match run_through(before, pages.drop_last()) {
            Ok(StepView::More(state)) => absorbed(state, pages.last()),
            ended => ended,
        }
    }
}

/// A step keeps the shape of the records: if every record so far answers the
/// statistics asked for, so does every record after the step.
pub proof fn step_keeps_shape(before: ExecutionView, page: PageView)
    requires
        all_answer(before.kinds, before.data),
    ensures
        keeps_shape(before.kinds, absorbed(before, page)),
{
    if rows_readable(before.kinds, page.rows) {
        readings_answer(before.kinds, page.rows);
        let fresh = rows_reading(before.kinds, page.rows);
        let data = before.data + fresh;
        assert forall|r: int| 0 <= r < data.len() implies answers(before.kinds, #[trigger] data[r]) by {
            if r < before.data.len() {
                assert(data[r] == before.data[r]);
            } else {
                assert(data[r] == fresh[r - before.data.len()]);
            }
        }
    }
}

/// A run keeps the shape of the records, whatever pages it is handed: every
/// record that it holds or hands out has one metric for each statistic asked
/// for, and the metric at each position is of the statistic at that position.
pub proof fn run_keeps_shape(before: ExecutionView, pages: Seq<PageView>)
    requires
        all_answer(before.kinds, before.data),
    ensures
        keeps_shape(before.kinds, run_through(before, pages)),
    decreases pages.len(),
{
    if pages.len() > 0 {
        run_keeps_shape(before, pages.drop_last());
        match run_through(before, pages.drop_last()) {
            Ok(StepView::More(state)) => {
                step_keeps_shape(state, pages.last());
            },
            _ => {},
        }
    }
}

/// While pages can be read and none of them is the last, a run is not over:
/// after `n` pages it is due for the page `n` further on, and it holds the
/// records of those pages in their order, behind what it held before.
pub proof fn pages_before_the_last(before: ExecutionView, pages: Seq<PageView>)
    requires
        forall|i: int| 0 <= i < pages.len() ==> rows_readable(before.kinds, (#[trigger] pages[i]).rows),
        forall|i: int| 0 <= i < pages.len() ==> !(#[trigger] pages[i]).last,
        before.page + pages.len() <= u32::MAX,
    ensures
        run_through(before, pages) == Ok::<StepView, ErrorView>(
            StepView::More(
                ExecutionView {
                    page: before.page + pages.len(),
                    data: before.data + pages_reading(before.kinds, pages),
                    ..before
                },
            ),
        ),
    decreases pages.len(),
{
    if pages.len() == 0 {
        assert(before.data + pages_reading(before.kinds, pages) =~= before.data);
    } else {
        let earlier = pages.drop_last();
        assert forall|i: int| 0 <= i < earlier.len() implies rows_readable(
            before.kinds,
            (#[trigger] earlier[i]).rows,
        ) && !earlier[i].last by {
            assert(earlier[i] == pages[i]);
        }
        pages_before_the_last(before, earlier);
        assert(before.data + pages_reading(before.kinds, earlier) + rows_reading(
            before.kinds,
            pages.last().rows,
        ) =~= before.data + pages_reading(before.kinds, pages));
    }
}

/// A run over pages that can be read, of which the last one and no other says
/// that it is the last, takes every page and then hands out the records of all
/// of them, page after page, behind what it held before.
pub proof fn pages_up_to_the_last(before: ExecutionView, pages: Seq<PageView>)
    requires
        pages.len() >= 1,
        forall|i: int| 0 <= i < pages.len() ==> rows_readable(before.kinds, (#[trigger] pages[i]).rows),
        forall|i: int| 0 <= i < pages.len() ==> ((#[trigger] pages[i]).last <==> i == pages.len() - 1),
        before.page + pages.len() - 1 <= u32::MAX,
    ensures
        run_through(before, pages) == Ok::<StepView, ErrorView>(
            StepView::Done(before.data + pages_reading(before.kinds, pages)),
        ),
        forall|n: int|
            0 <= n < pages.len() ==> #[trigger] run_through(before, pages.take(n)) is Ok
                && run_through(before, pages.take(n))->Ok_0 is More,
{
    let earlier = pages.drop_last();
    assert forall|i: int| 0 <= i < earlier.len() implies rows_readable(
        before.kinds,
        (#[trigger] earlier[i]).rows,
    ) && !earlier[i].last by {
        assert(earlier[i] == pages[i]);
    }
    pages_before_the_last(before, earlier);
    assert(before.data + pages_reading(before.kinds, earlier) + rows_reading(
        before.kinds,
        pages.last().rows,
    ) =~= before.data + pages_reading(before.kinds, pages));
    assert forall|n: int| 0 <= n < pages.len() implies #[trigger] run_through(
        before,
        pages.take(n),
    ) is Ok && run_through(before, pages.take(n))->Ok_0 is More by {
        let prefix = pages.take(n);
        assert forall|i: int| 0 <= i < prefix.len() implies rows_readable(
            before.kinds,
            (#[trigger] prefix[i]).rows,
        ) && !prefix[i].last by {
            assert(prefix[i] == pages[i]);
        }
        pages_before_the_last(before, prefix);
    }
}

/// Tells the status of a reply that can be read from one that cannot: 200 is
/// read, 204 says that there is no data, 429 that too many requests were made,
/// and any other status is a fault of the protocol.
pub fn check_status(status: u16) -> (result: Result<(), Error>)
    ensures
        result is Ok <==> status_error(status) is None,
        result matches Err(error) ==> Some(error@) == status_error(status),
{
    if status == 200 {
        Ok(())
    } else if status == 204 {
        Err(Error::NoData)
    } else if status == 429 {
        Err(Error::TooManyRequests)
    } else {
        Err(Error::Protocol(Fault::UnexpectedStatus(status)))
    }
}

impl Execution {
    #[verifier::type_invariant]
    spec fn coherent(self) -> bool {
        &&& self.structure@ == structure_text(self.kinds@)
        &&& all_answer(self.kinds@, data_view(self.data@))
    }

    /// Starts a run at a given page, with no records yet. The filters are
    /// given as they stand in the address of a query.
    pub fn begin(
        filters: String,
        kinds: Vec<MetricKind>,
        latest_by: Option<MetricKind>,
        page: u32,
    ) -> (run: Execution)
        ensures
            run@ == (ExecutionView {
                filters: filters@,
                kinds: kinds@,
                latest_by,
                page: page as nat,
                data: Seq::empty(),
            }),
    {
        let data: Data = Vec::new();
        proof {
            assert(data_view(data@) =~= Seq::empty());
        }
        Execution { filters, structure: write_structure(&kinds), latest_by, kinds, page, data }
    }

    /// The number of the page that is due.
    pub fn page(&self) -> (page: u32)
        ensures
            page == self@.page,
    {
        self.page
    }

    /// Writes the address to ask for the page that is due.
    pub fn url(&self) -> (url: String)
        ensures
            url@ == address(
                self@.filters,
                structure_text(self@.kinds),
                self@.latest_by,
                self@.page,
            ),
    {
        proof {
            use_type_invariant(self);
        }
        write_address(self.filters.as_str(), self.structure.as_str(), self.latest_by, self.page)
    }

    /// Takes in the page that was due. The records of a run are those of its
    /// pages in the order of the pages, and a run hands out all of them or
    /// none.
    pub fn absorb(self, page: &Page) -> (result: Result<Step, Error>)
        ensures
            outcome(result) == absorbed(self@, page@),
            keeps_shape(self@.kinds, outcome(result)),
    {
        proof {
            use_type_invariant(&self);
        }
        let ghost before = self@;
        let ghost fresh = rows_reading(before.kinds, page@.rows);
        let Execution { filters, structure, latest_by, kinds, page: due, data } = self;
        let mut rows = match decode_rows(&kinds, &page.rows) {
            Some(rows) => rows,
            None => {
                return Err(Error::Protocol(Fault::UnreadableRow));
            },
        };
        let mut data = data;
        data.append(&mut rows);
        proof {
            readings_answer(before.kinds, page@.rows);
            assert(data_view(data@) =~= before.data + fresh);
            assert(all_answer(before.kinds, data_view(data@)));
        }
        if page.last {
            Ok(Step::Done(data))
        } else if due == u32::MAX {
            Err(Error::Protocol(Fault::TooManyPages))
        } else {
            Ok(Step::More(Execution { filters, structure, latest_by, kinds, page: due + 1, data }))
        }
    }

    /// Takes in what came back for the page that was due, and decides how the
    /// run goes on.
    pub fn advance(self, reply: Result<Response, String>) -> (result: Result<Step, Error>)
        ensures
            outcome(result) == advanced(self@, reply),
            keeps_shape(self@.kinds, outcome(result)),
    {
        let response = match reply {
            Ok(response) => response,
            Err(cause) => {
                return Err(Error::RequestErr(cause));
            },
        };
        match check_status(response.status) {
            Ok(()) => {},
            Err(refusal) => {
                return Err(refusal);
            },
        }
        match Page::parse(response.body.as_str()) {
            Some(page) => self.absorb(&page),
            None => Err(Error::Protocol(Fault::MalformedBody)),
        }
    }
}

} // verus!
