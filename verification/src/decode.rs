//! From the cells of a page to typed records.
//!
//! A row is decoded against the statistics that were asked for: the cell at
//! each position is read as the value of the statistic at that position. A row
//! decodes as a whole or not at all, and so does a page.

use vstd::prelude::*;

use crate::area::AreaType;
use crate::date::Date;
use crate::kind::{MetricKind, Shape};
use crate::metric::{Metric, MetricView, Value, ValueView};
use crate::page::{row_view, rows_view, Cell, CellView};

verus! {

/// One decoded record: a value for each statistic that was asked for, in the
/// order of the request.
pub type Datum = Vec<Metric>;

/// The records of a reply, in the order in which the service delivers them.
pub type Data = Vec<Datum>;

/// What a record stands for.
pub open spec fn datum_view(datum: Seq<Metric>) -> Seq<MetricView> {
    datum.map_values(|metric: Metric| metric@)
}

/// What a list of records stands for.
pub open spec fn data_view(data: Seq<Datum>) -> Seq<Seq<MetricView>> {
    data.map_values(|datum: Datum| datum_view(datum@))
}

/// The value that a cell holds when it is read as a given kind of value: a
/// count is the cell's number; a text is the cell's text; an area is the kind
/// of area that the text names; a day is the date that the text is read as.
/// A cell that lacks what is asked of it holds no such value.
pub open spec fn value_in(shape: Shape, cell: CellView) -> Option<ValueView> {
    match shape {
        Shape::Count => match cell.number {
            Some(number) => Some(ValueView::Count(number)),
            None => None,
        },
        Shape::Text => match cell.text {
            Some(text) => Some(ValueView::Text(text)),
            None => None,
        },
        Shape::Area => match cell.text {
            Some(text) => match AreaType::named(text) {
                Some(area) => Some(ValueView::Area(area)),
                None => None,
            },
            None => None,
        },
        Shape::Day => match cell.text {
            Some(text) => match Date::parsed(text) {
                Some(day) => Some(ValueView::Day(day)),
                None => None,
            },
            None => None,
        },
    }
}

/// The metric that a cell is read as under a statistic.
pub open spec fn cell_reading(kind: MetricKind, cell: CellView) -> Option<MetricView> {
    match value_in(kind.shape(), cell) {
        Some(value) => Some(MetricView { kind, value }),
        None => None,
    }
}

/// Whether a row can be read under the statistics asked for: it has a cell for
/// each of them, and each of those cells can be read.
pub open spec fn row_readable(kinds: Seq<MetricKind>, row: Seq<CellView>) -> bool {
    &&& kinds.len() <= row.len()
    &&& forall|i: int| 0 <= i < kinds.len() ==> cell_reading(kinds[i], #[trigger] row[i]) is Some
}

/// The record that a readable row is read as: at each position the reading of
/// the cell at that position. Cells beyond the last statistic are not read.
pub open spec fn row_reading(kinds: Seq<MetricKind>, row: Seq<CellView>) -> Seq<MetricView> {
    Seq::new(kinds.len(), |i: int| cell_reading(kinds[i], row[i])->0)
}

/// Whether every row of a page can be read.
pub open spec fn rows_readable(kinds: Seq<MetricKind>, rows: Seq<Seq<CellView>>) -> bool {
    forall|r: int| 0 <= r < rows.len() ==> row_readable(kinds, #[trigger] rows[r])
}

/// The records that the rows of a page are read as, in the order of the rows.
pub open spec fn rows_reading(kinds: Seq<MetricKind>, rows: Seq<Seq<CellView>>) -> Seq<
    Seq<MetricView>,
> {
    Seq::new(rows.len(), |r: int| row_reading(kinds, rows[r]))
}

/// Whether a record answers the statistics asked for: it has one metric for
/// each, and the metric at each position is of the statistic at that position.
pub open spec fn answers(kinds: Seq<MetricKind>, datum: Seq<MetricView>) -> bool {
    &&& datum.len() == kinds.len()
    &&& forall|i: int| 0 <= i < kinds.len() ==> (#[trigger] datum[i]).kind == kinds[i]
}

/// Whether every record of a list answers the statistics asked for.
pub open spec fn all_answer(kinds: Seq<MetricKind>, data: Seq<Seq<MetricView>>) -> bool {
    forall|r: int| 0 <= r < data.len() ==> answers(kinds, #[trigger] data[r])
}

/// A row is read into a record that answers the statistics asked for: as many
/// metrics as statistics, each of the statistic at its position and with a
/// value of the kind that the statistic carries.
pub proof fn reading_answers(kinds: Seq<MetricKind>, row: Seq<CellView>)
    requires
        row_readable(kinds, row),
    ensures
        answers(kinds, row_reading(kinds, row)),
        forall|i: int| 0 <= i < kinds.len() ==> (#[trigger] row_reading(kinds, row)[i]).well_shaped(),
{
    let datum = row_reading(kinds, row);
    assert forall|i: int| 0 <= i < kinds.len() implies (#[trigger] datum[i]).well_shaped() by {
        assert(cell_reading(kinds[i], row[i]) is Some);
    }
}

/// Every record read from a page answers the statistics asked for.
pub proof fn readings_answer(kinds: Seq<MetricKind>, rows: Seq<Seq<CellView>>)
    requires
        rows_readable(kinds, rows),
    ensures
        rows_reading(kinds, rows).len() == rows.len(),
        all_answer(kinds, rows_reading(kinds, rows)),
{
    let data = rows_reading(kinds, rows);
    assert forall|r: int| 0 <= r < data.len() implies answers(kinds, #[trigger] data[r]) by {
        assert(row_readable(kinds, rows[r]));
        reading_answers(kinds, rows[r]);
    }
}

/// Reads a cell as a given kind of value.
pub fn decode_value(shape: Shape, cell: &Cell) -> (value: Option<Value>)
    ensures
        value is Some <==> value_in(shape, cell@) is Some,
        value is Some ==> Some(value->0@) == value_in(shape, cell@),
{
    match shape {
        Shape::Count => match cell.number {
            Some(number) => Some(Value::Count(number)),
            None => None,
        },
        Shape::Text => match &cell.text {
            Some(text) => Some(Value::Text(text.clone())),
            None => None,
        },
        Shape::Area => match &cell.text {
            Some(text) => match AreaType::from_wire(text.as_str()) {
                Some(area) => Some(Value::Area(area)),
                None => None,
            },
            None => None,
        },
        Shape::Day => match &cell.text {
            Some(text) => match Date::parse(text.as_str()) {
                Some(day) => Some(Value::Day(day)),
                None => None,
            },
            None => None,
        },
    }
}

/// Reads a cell as a metric of a given statistic. A cell that does not hold a
/// value of the kind that the statistic carries gives `None`.
pub fn decode_cell(kind: MetricKind, cell: &Cell) -> (metric: Option<Metric>)
    ensures
        metric is Some <==> cell_reading(kind, cell@) is Some,
        metric is Some ==> Some(metric->0@) == cell_reading(kind, cell@),
{
    match decode_value(kind.shape(), cell) {
        Some(value) => kind.carry(value),
        None => None,
    }
}

/// Reads a row as a record under the statistics asked for. A row that is too
/// short, or that has a cell that cannot be read, gives `None`.
pub fn decode_row(kinds: &Vec<MetricKind>, row: &Vec<Cell>) -> (datum: Option<Datum>)
    ensures
        datum is Some <==> row_readable(kinds@, row_view(row@)),
        datum is Some ==> datum_view(datum->0@) == row_reading(kinds@, row_view(row@)),
{
    if row.len() < kinds.len() {
        return None;
    }
    let ghost cells = row_view(row@);
    let mut datum: Vec<Metric> = Vec::new();
    let mut i: usize = 0;
    while i < kinds.len()
        invariant
            i <= kinds.len() <= row.len(),
            cells == row_view(row@),
            datum@.len() == i,
            forall|k: int| 0 <= k < i ==> cell_reading(kinds@[k], #[trigger] cells[k]) is Some,
            forall|k: int|
                0 <= k < i ==> (#[trigger] datum@[k])@ == cell_reading(kinds@[k], cells[k])->0,
        decreases kinds.len() - i,
    {
        match decode_cell(kinds[i], &row[i]) {
            Some(metric) => {
                datum.push(metric);
            },
            None => {
                assert(cell_reading(kinds@[i as int], cells[i as int]) is None);
                return None;
            },
        }
        i = i + 1;
    }
    proof {
        assert(datum_view(datum@) =~= row_reading(kinds@, cells));
    }
    Some(datum)
}

/// Reads the rows of a page as records, in their order. If any row cannot be
/// read, nothing is returned.
pub fn decode_rows(kinds: &Vec<MetricKind>, rows: &Vec<Vec<Cell>>) -> (data: Option<Data>)
    ensures
        data is Some <==> rows_readable(kinds@, rows_view(rows@)),
        data is Some ==> data_view(data->0@) == rows_reading(kinds@, rows_view(rows@)),
{
    let ghost all = rows_view(rows@);
    let mut data: Vec<Datum> = Vec::new();
    let mut r: usize = 0;
    while r < rows.len()
        invariant
            r <= rows.len(),
            all == rows_view(rows@),
            data@.len() == r,
            forall|k: int| 0 <= k < r ==> row_readable(kinds@, #[trigger] all[k]),
            forall|k: int|
                0 <= k < r ==> datum_view((#[trigger] data@[k])@) == row_reading(kinds@, all[k]),
        decreases rows.len() - r,
    {
        match decode_row(kinds, &rows[r]) {
            Some(datum) => {
                data.push(datum);
            },
            None => {
                assert(!row_readable(kinds@, all[r as int]));
                return None;
            },
        }
        r = r + 1;
    }
    proof {
        assert(data_view(data@) =~= rows_reading(kinds@, all));
    }
    Some(data)
}

} // verus!
