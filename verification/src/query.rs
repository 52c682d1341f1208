//! The address of a query, as text.
//!
//! A query names the filters, the statistics and the page that are asked for:
//!
//! ```text
//! <service>?filters=<f>&structure=[<m>]&format=json&page=<n>[&latestBy=<name>]
//! ```
//!
//! `<f>` holds the filters as `field=value`, with `;` between them; `<m>` holds
//! the wire names of the statistics, each between two `%22` and with `, `
//! between them. Both keep the order of the request: a reply is decoded by
//! position, so the order of `<m>` is the order of the cells of every row.

use vstd::prelude::*;
use vstd::string::*;

use crate::filter::FilterView;
use crate::kind::MetricKind;
use crate::text::{
    decimal,
    decimal_text,
    join,
    joined,
    joined_has_no_outer_separator,
    joined_pair,
    views,
};

verus! {

/// The filters of a query as they stand in its address.
pub open spec fn filters_text(filters: Seq<FilterView>) -> Seq<char> {
    joined(filters.map_values(|filter: FilterView| filter.pair_text()), seq![';'])
}

/// A single filter is written as its pair alone, and two filters as the
/// first pair, one `;`, and the second pair.
pub proof fn few_filters_text(first: FilterView, second: FilterView)
    ensures
        filters_text(seq![first]) == first.pair_text(),
        filters_text(seq![first, second]) == first.pair_text() + seq![';'] + second.pair_text(),
{
    let one = seq![first].map_values(|filter: FilterView| filter.pair_text());
    assert(one =~= seq![first.pair_text()]);
    let two = seq![first, second].map_values(|filter: FilterView| filter.pair_text());
    assert(two =~= seq![first.pair_text(), second.pair_text()]);
    joined_pair(first.pair_text(), second.pair_text(), seq![';']);
}

/// However many filters a query has, its filter text begins with the first
/// pair and ends with the last: no `;` stands before the first filter or
/// behind the last.
pub proof fn filters_text_has_no_outer_separator(filters: Seq<FilterView>)
    requires
        filters.len() >= 1,
    ensures
        filters[0].pair_text().is_prefix_of(filters_text(filters)),
        filters.last().pair_text().is_suffix_of(filters_text(filters)),
{
    let pairs = filters.map_values(|filter: FilterView| filter.pair_text());
    joined_has_no_outer_separator(pairs, seq![';']);
}

/// The name of a statistic as it stands in the list of a query.
pub open spec fn quoted(kind: MetricKind) -> Seq<char> {
    "%22"@ + kind.wire_name() + "%22"@
}

/// The statistics of a query as they stand in its address.
pub open spec fn structure_text(kinds: Seq<MetricKind>) -> Seq<char> {
    joined(kinds.map_values(|kind: MetricKind| quoted(kind)), ", "@)
}

/// The address of a query, given its filters and its statistics as text.
pub open spec fn address(
    filters: Seq<char>,
    structure: Seq<char>,
    latest_by: Option<MetricKind>,
    page: nat,
) -> Seq<char> {
    "https://api.coronavirus.data.gov.uk/v1/data"@ + "?filters="@ + filters + "&structure=["@
        + structure + "]&format=json&page="@ + decimal_text(page) + match latest_by {
        Some(kind) => "&latestBy="@ + kind.wire_name(),
        None => Seq::empty(),
    }
}

/// The address of the query for one page of a request.
pub open spec fn url_text(
    filters: Seq<FilterView>,
    kinds: Seq<MetricKind>,
    latest_by: Option<MetricKind>,
    page: nat,
) -> Seq<char> {
    address(filters_text(filters), structure_text(kinds), latest_by, page)
}

/// Writes the statistics as they stand in the address of a query: each wire
/// name between two `%22`, in the order given, with `, ` between each two.
pub fn write_structure(kinds: &Vec<MetricKind>) -> (text: String)
    ensures
        text@ == structure_text(kinds@),
{
    let mut names: Vec<String> = Vec::new();
    let mut i: usize = 0;
    while i < kinds.len()
        invariant
            i <= kinds.len(),
            names@.len() == i,
            forall|k: int| 0 <= k < i ==> (#[trigger] names@[k])@ == quoted(kinds@[k]),
        decreases kinds.len() - i,
    {
        let mut name = String::from_str("%22");
        name.append(kinds[i].as_str());
        name.append("%22");
        names.push(name);
        i = i + 1;
    }
    let text = join(&names, ", ");
    proof {
        assert(views(names@) =~= kinds@.map_values(|kind: MetricKind| quoted(kind)));
    }
    text
}

/// Writes the address of a query from its filters and its statistics, both
/// already written as text.
pub fn write_address(filters: &str, structure: &str, latest_by: Option<MetricKind>, page: u32) -> (url:
    String)
    ensures
        url@ == address(filters@, structure@, latest_by, page as nat),
{
    let mut url = String::from_str("https://api.coronavirus.data.gov.uk/v1/data");
    url.append("?filters=");
    url.append(filters);
    url.append("&structure=[");
    url.append(structure);
    url.append("]&format=json&page=");
    url.append(decimal(page).as_str());
    match latest_by {
        Some(kind) => {
            url.append("&latestBy=");
            url.append(kind.as_str());
        },
        None => {},
    }
    proof {
        assert(url@ =~= address(filters@, structure@, latest_by, page as nat));
    }
    url
}

} // verus!
