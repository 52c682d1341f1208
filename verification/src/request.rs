//! A request: which areas and dates, and which statistics.

use vstd::prelude::*;

use crate::area::AreaType;
use crate::fetch::{Execution, ExecutionView};
use crate::filter::{Filter, FilterValue, FilterView};
use crate::kind::MetricKind;
use crate::metric::{Metric, MetricView};
use crate::query::{filters_text, structure_text, url_text, write_address, write_structure};
use crate::text::{join, views};

verus! {

/// A request to the service.
///
/// A request is made of filters and of metrics. It starts with one of each,
/// and more can be added; none can be taken away. It can be run any number of
/// times, and running it leaves it as it is.
///
/// The value inside a metric of a request is a placeholder: only the statistic
/// that the metric names is sent. Every record of the reply holds one metric
/// for each metric of the request, in the same order, with the value that the
/// service reported.
#[derive(Debug)]
pub struct Request {
    area_type: AreaType,
    more_filters: Vec<Filter>,
    metric: Metric,
    more_metrics: Vec<Metric>,
}

/// The statistics that a list of metrics names, in order.
pub open spec fn kinds_of(metrics: Seq<MetricView>) -> Seq<MetricKind> {
    metrics.map_values(|metric: MetricView| metric.kind)
}

impl Request {
    /// The filters of the request, in the order in which they were added.
    pub closed spec fn filters(&self) -> Seq<FilterView> {
        seq![FilterView::AreaType(self.area_type)] + self.more_filters@.map_values(
            |filter: Filter| filter@,
        )
    }

    /// The metrics of the request, in the order in which they were added.
    pub closed spec fn metrics(&self) -> Seq<MetricView> {
        seq![self.metric@] + self.more_metrics@.map_values(|metric: Metric| metric@)
    }

    /// The statistics that the request asks for, in order.
    pub open spec fn kinds(&self) -> Seq<MetricKind> {
        kinds_of(self.metrics())
    }

    /// A request always has a filter and a metric, and its first filter is the
    /// kind of area that it was made for.
    pub proof fn never_empty(&self)
        ensures
            self.filters().len() >= 1,
            self.filters()[0] is AreaType,
            self.metrics().len() >= 1,
            self.kinds().len() == self.metrics().len(),
    {
    }

    /// Makes a request for one statistic of the areas of one kind.
    pub fn new(area_type: AreaType, metric: Metric) -> (request: Request)
        ensures
            request.filters() == seq![FilterView::AreaType(area_type)],
            request.metrics() == seq![metric@],
    {
        let request = Request {
            area_type,
            more_filters: Vec::new(),
            metric,
            more_metrics: Vec::new(),
        };
        proof {
            assert(request.filters() =~= seq![FilterView::AreaType(area_type)]);
            assert(request.metrics() =~= seq![metric@]);
        }
        request
    }

    /// Adds a filter behind those that the request has.
    pub fn add_filter(&mut self, filter: Filter)
        ensures
            final(self).filters() == old(self).filters().push(filter@),
            final(self).metrics() == old(self).metrics(),
    {
        self.more_filters.push(filter);
        proof {
            assert(self.filters() =~= old(self).filters().push(filter@));
        }
    }

    /// Adds a metric behind those that the request has.
    pub fn add_metric(&mut self, metric: Metric)
        ensures
            final(self).metrics() == old(self).metrics().push(metric@),
            final(self).filters() == old(self).filters(),
    {
        self.more_metrics.push(metric);
        proof {
            assert(self.metrics() =~= old(self).metrics().push(metric@));
        }
    }

    /// Starts a run of the request. The run asks for the first page; the
    /// request itself is left as it is.
    pub fn get(&self) -> (run: Execution)
        ensures
            run@ == (ExecutionView {
                filters: filters_text(self.filters()),
                kinds: self.kinds(),
                latest_by: None,
                page: 1,
                data: Seq::empty(),
            }),
    {
        self.execute(None)
    }

    /// Starts a run of the request that asks, for each area, only for the
    /// latest value of a statistic. Of `metric` only the statistic counts.
    pub fn get_latest_by_metric(&self, metric: Metric) -> (run: Execution)
        ensures
            run@ == (ExecutionView {
                filters: filters_text(self.filters()),
                kinds: self.kinds(),
                latest_by: Some(metric@.kind),
                page: 1,
                data: Seq::empty(),
            }),
    {
        self.execute(Some(metric))
    }

    /// Starts a run of the request, restricted to the latest value of a
    /// statistic if one is given.
    pub fn execute(&self, latest_by: Option<Metric>) -> (run: Execution)
        ensures
            run@ == (ExecutionView {
                filters: filters_text(self.filters()),
                kinds: self.kinds(),
                latest_by: match latest_by {
                    Some(metric) => Some(metric@.kind),
                    None => None,
                },
                page: 1,
                data: Seq::empty(),
            }),
    {
        let by = match &latest_by {
            Some(metric) => Some(metric.kind()),
            None => None,
        };
        Execution::begin(self.filters_str(), self.kind_list(), by, 1)
    }

    /// Writes the address of the query for one page of the request.
    pub fn construct_url(&self, latest_by: &Option<Metric>, page: &u32) -> (url: String)
        ensures
            url@ == url_text(
                self.filters(),
                self.kinds(),
                match latest_by {
                    Some(metric) => Some(metric@.kind),
                    None => None,
                },
                *page as nat,
            ),
    {
        let by = match latest_by {
            Some(metric) => Some(metric.kind()),
            None => None,
        };
        let filters = self.filters_str();
        let structure = self.metrics_str();
        write_address(filters.as_str(), structure.as_str(), by, *page)
    }

    /// Writes the filters as they stand in the address of a query: each as
    /// `field=value`, in the order of the request, with a `;` between each
    /// two and none before the first or after the last.
    pub fn filters_str(&self) -> (text: String)
        ensures
            text@ == filters_text(self.filters()),
    {
        let mut pairs: Vec<String> = Vec::new();
        pairs.push(Filter::new(FilterValue::AreaType(self.area_type)).pair_str());
        let mut i: usize = 0;
        while i < self.more_filters.len()
            invariant
                i <= self.more_filters.len(),
                pairs@.len() == i + 1,
                forall|k: int|
                    0 <= k <= i ==> (#[trigger] pairs@[k])@ == self.filters()[k].pair_text(),
            decreases self.more_filters.len() - i,
        {
            pairs.push(self.more_filters[i].pair_str());
            i = i + 1;
        }
        let text = join(&pairs, ";");
        proof {
            reveal_strlit(";");
            assert(";"@ =~= seq![';']);
            assert(views(pairs@) =~= self.filters().map_values(
                |filter: FilterView| filter.pair_text(),
            ));
        }
        text
    }

    /// Writes the statistics as they stand in the address of a query: each
    /// wire name between two `%22`, in the order of the request, with `, `
    /// between each two.
    pub fn metrics_str(&self) -> (text: String)
        ensures
            text@ == structure_text(self.kinds()),
    {
        write_structure(&self.kind_list())
    }

    /// Lists the statistics that the request asks for, in order.
    pub fn kind_list(&self) -> (kinds: Vec<MetricKind>)
        ensures
            kinds@ == self.kinds(),
    {
        let mut kinds: Vec<MetricKind> = Vec::new();
        kinds.push(self.metric.kind());
        let mut i: usize = 0;
        while i < self.more_metrics.len()
            invariant
                i <= self.more_metrics.len(),
                kinds@.len() == i + 1,
                forall|k: int| 0 <= k <= i ==> kinds@[k] == self.kinds()[k],
            decreases self.more_metrics.len() - i,
        {
            kinds.push(self.more_metrics[i].kind());
            i = i + 1;
        }
        proof {
            assert(kinds@ =~= self.kinds());
        }
        kinds
    }
}

} // verus!
