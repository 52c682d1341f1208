//! One page of a reply, as plain values.
//!
//! The body of a reply is JSON, which the `json` crate parses. From the tree
//! that it builds, a [`Page`] keeps what decoding reads: for every row of
//! `data` its cells in order, each as the text and as the whole number that it
//! can be taken for, and whether `pagination.next` says that this page is the
//! last one. A row is an array, whose cells are its members, or an object,
//! whose cells are the values of its entries in the order of the text.

use vstd::prelude::*;
use vstd::string::*;
use vstd::utf8::encode_utf8;

verus! {

/// A value of a JSON text, as the `json` crate holds it. Nothing is known of
/// what is inside one but what the functions below say.
#[verifier::external_type_specification]
#[verifier::external_body]
pub struct ExJsonValue(json::JsonValue);

/// What `json::parse` makes of a text: the tree, or nothing where it reports
/// an error.
pub uninterp spec fn json_parse(text: Seq<char>) -> Option<json::JsonValue>;

/// What `JsonValue`'s `Index<&str>` gives for a value and a key.
pub uninterp spec fn json_field(value: json::JsonValue, key: Seq<char>) -> json::JsonValue;

/// What `JsonValue::members` walks over, in order.
pub uninterp spec fn json_members(value: json::JsonValue) -> Seq<json::JsonValue>;

/// The values of what `JsonValue::entries` walks over, in order.
pub uninterp spec fn json_entries(value: json::JsonValue) -> Seq<json::JsonValue>;

/// What `JsonValue::is_null` answers.
pub uninterp spec fn json_is_null(value: json::JsonValue) -> bool;

/// What `JsonValue::as_number` gives, taken apart by `Number::as_parts`:
/// whether the number is positive, its digits as one whole number, and the
/// power of ten by which that is scaled.
pub uninterp spec fn json_number(value: json::JsonValue) -> Option<(bool, u64, i16)>;

/// What `JsonValue::as_str` gives.
pub uninterp spec fn json_as_str(value: json::JsonValue) -> Option<Seq<char>>;

/// The whole number that the parts of a JSON number stand for, where they
/// stand for one that fits: the digits are not scaled, and with their sign they
/// lie between `i32::MIN` and `i32::MAX`.
pub open spec fn whole_number(positive: bool, mantissa: u64, exponent: i16) -> Option<i32> {
    if exponent != 0 {
        None
    } else if positive {
        if mantissa <= i32::MAX {
            Some(mantissa as i32)
        } else {
            None
        }
    } else {
        if mantissa <= -(i32::MIN as int) {
            Some((-(mantissa as int)) as i32)
        } else {
            None
        }
    }
}

/// One cell of a row: the reported value, taken as a text and as a whole
/// number. A cell that is not a JSON string has no text; one that is not a
/// whole number that fits has no number.
#[derive(Debug, Clone, PartialEq, Eq)]
pub struct Cell {
    pub text: Option<String>,
    pub number: Option<i32>,
}

/// What a [`Cell`] stands for.
pub struct CellView {
    pub text: Option<Seq<char>>,
    pub number: Option<i32>,
}

impl View for Cell {
    type V = CellView;

    open spec fn view(&self) -> CellView {
        CellView {
            text: match self.text {
                Some(text) => Some(text@),
                None => None,
            },
            number: self.number,
        }
    }
}

/// One page of a reply.
#[derive(Debug, Clone, PartialEq, Eq)]
pub struct Page {
    /// The rows of the page, in the order of the reply.
    pub rows: Vec<Vec<Cell>>,
    /// Whether no page follows this one.
    pub last: bool,
}

/// What a [`Page`] stands for.
pub struct PageView {
    pub rows: Seq<Seq<CellView>>,
    pub last: bool,
}

/// What a row of cells stands for.
pub open spec fn row_view(cells: Seq<Cell>) -> Seq<CellView> {
    cells.map_values(|cell: Cell| cell@)
}

/// What a list of rows stands for.
pub open spec fn rows_view(rows: Seq<Vec<Cell>>) -> Seq<Seq<CellView>> {
    rows.map_values(|row: Vec<Cell>| row_view(row@))
}

impl View for Page {
    type V = PageView;

    open spec fn view(&self) -> PageView {
        PageView { rows: rows_view(self.rows@), last: self.last }
    }
}

/// The cell that a JSON value is read as.
pub open spec fn cell_of(value: json::JsonValue) -> CellView {
    CellView {
        text: json_as_str(value),
        number: match json_number(value) {
            Some((positive, mantissa, exponent)) => whole_number(positive, mantissa, exponent),
            None => None,
        },
    }
}

/// The row that a JSON value is read as: a cell for each of its members and
/// for the value of each of its entries. An array has members and no entries,
/// an object has entries and no members, and any other value has neither.
pub open spec fn row_of(value: json::JsonValue) -> Seq<CellView> {
    (json_members(value) + json_entries(value)).map_values(|cell: json::JsonValue| cell_of(cell))
}

/// The page that a parsed reply is read as: a row for each member of `data`,
/// and the last page where `pagination.next` is null.
pub open spec fn page_of(reply: json::JsonValue) -> PageView {
    PageView {
        rows: json_members(json_field(reply, "data"@)).map_values(
            |row: json::JsonValue| row_of(row),
        ),
        last: json_is_null(json_field(json_field(reply, "pagination"@), "next"@)),
    }
}

/// The longest run of digits that a reply may hold. The parser of the `json`
/// crate counts the digits of a fraction in sixteen bits.
pub const MAX_DIGIT_RUN: usize = 32767;

/// Whether a byte is a decimal digit.
pub open spec fn is_digit(byte: u8) -> bool {
    0x30 <= byte <= 0x39
}

/// The number of digits in a row that end just before a position.
pub open spec fn digit_run(bytes: Seq<u8>, end: int) -> nat
    decreases end,
{
    if end <= 0 || end > bytes.len() || !is_digit(bytes[end - 1]) {
        0
    } else {
        digit_run(bytes, end - 1) + 1
    }
}

/// Whether a text holds no more digits in a row than the parser can count.
pub open spec fn digits_countable(bytes: Seq<u8>) -> bool {
    forall|end: int| 0 <= end <= bytes.len() ==> #[trigger] digit_run(bytes, end) <= MAX_DIGIT_RUN
}

/// The page that the body of a reply holds, if the body is JSON with no more
/// digits in a row than the parser can count.
pub open spec fn page_in(body: Seq<char>) -> Option<PageView> {
    if !digits_countable(encode_utf8(body)) {
        None
    } else {
        match json_parse(body) {
            Some(reply) => Some(page_of(reply)),
            None => None,
        }
    }
}

/// Calls `json::parse`. The tree depends on the text alone; an error of the
/// parser is reported as `None`. The parser counts the digits of a fraction
/// in sixteen bits, so a text with more digits in a row is kept from it.
#[verifier::external_body]
fn parse_json(body: &str) -> (reply: Option<json::JsonValue>)
    requires
        digits_countable(body.spec_bytes()),
    ensures
        reply == json_parse(body@),
{
    match json::parse(body) {
        Ok(reply) => Some(reply),
        Err(_) => None,
    }
}

/// Calls `JsonValue`'s `Index<&str>`, which gives the entry of an object
/// under a key, and a null value where there is none. What it gives depends
/// on the value and the key alone.
#[verifier::external_body]
fn field<'a>(value: &'a json::JsonValue, key: &str) -> (entry: &'a json::JsonValue)
    ensures
        *entry == json_field(*value, key@),
{
    &value[key]
}

/// Calls `JsonValue::members` and collects what it walks over: the members of
/// an array in order, and nothing for any other value.
#[verifier::external_body]
fn members<'a>(value: &'a json::JsonValue) -> (items: Vec<&'a json::JsonValue>)
    ensures
        items@.len() == json_members(*value).len(),
        forall|i: int| 0 <= i < items@.len() ==> *items@[i] == json_members(*value)[i],
{
    value.members().collect()
}

/// Calls `JsonValue::entries` and collects the values of what it walks over:
/// those of the entries of an object in the order in which the text gave
/// them, and nothing for any other value.
#[verifier::external_body]
fn entry_values<'a>(value: &'a json::JsonValue) -> (items: Vec<&'a json::JsonValue>)
    ensures
        items@.len() == json_entries(*value).len(),
        forall|i: int| 0 <= i < items@.len() ==> *items@[i] == json_entries(*value)[i],
{
    value.entries().map(|entry| entry.1).collect()
}

/// Calls `JsonValue::is_null`, which tells the null value from all others.
#[verifier::external_body]
fn is_null(value: &json::JsonValue) -> (null: bool)
    ensures
        null == json_is_null(*value),
{
    value.is_null()
}

/// Calls `JsonValue::as_number`, which gives the number that a value is, and
/// takes it apart with `Number::as_parts`.
#[verifier::external_body]
fn number_in(value: &json::JsonValue) -> (parts: Option<(bool, u64, i16)>)
    ensures
        parts == json_number(*value),
{
    match value.as_number() {
        Some(number) => Some(number.as_parts()),
        None => None,
    }
}

/// Takes the parts of a JSON number for a whole number, where they stand for
/// one that fits.
pub fn to_whole_number(positive: bool, mantissa: u64, exponent: i16) -> (number: Option<i32>)
    ensures
        number == whole_number(positive, mantissa, exponent),
{
    if exponent != 0 {
        None
    } else if positive {
        if mantissa <= 0x7fff_ffff {
            Some(mantissa as i32)
        } else {
            None
        }
    } else {
        if mantissa <= 0x8000_0000 {
            Some((0 - (mantissa as i64)) as i32)
        } else {
            None
        }
    }
}

/// Reads one cell.
fn read_cell(value: &json::JsonValue) -> (cell: Cell)
    ensures
        cell@ == cell_of(*value),
{
    let number = match number_in(value) {
        Some((positive, mantissa, exponent)) => to_whole_number(positive, mantissa, exponent),
        None => None,
    };
    Cell { text: text_in(value), number }
}

/// Calls `JsonValue::as_str` and copies the text that it lends.
#[verifier::external_body]
fn text_in(value: &json::JsonValue) -> (text: Option<String>)
    ensures
        text is Some <==> json_as_str(*value) is Some,
        text is Some ==> Some(text->0@) == json_as_str(*value),
{
    match value.as_str() {
        Some(text) => Some(text.to_string()),
        None => None,
    }
}

/// Reads the cells of one row.
fn read_row(row: &json::JsonValue) -> (cells: Vec<Cell>)
    ensures
        row_view(cells@) == row_of(*row),
{
    let mut cells: Vec<Cell> = Vec::new();
    let listed = members(row);
    read_cells(&listed, &mut cells);
    let keyed = entry_values(row);
    read_cells(&keyed, &mut cells);
    proof {
        let values = json_members(*row) + json_entries(*row);
        assert(cells@.len() == values.len());
        assert forall|k: int| 0 <= k < cells@.len() implies (#[trigger] cells@[k])@ == cell_of(
            values[k],
        ) by {
            if k < listed@.len() {
                assert(cells@[0 + k]@ == cell_of(*listed@[k]));
            } else {
                let j = k - listed@.len();
                assert(cells@[listed@.len() + j]@ == cell_of(*keyed@[j]));
            }
        }
        assert(row_view(cells@) =~= row_of(*row));
    }
    cells
}

/// Reads a cell from each of the values and puts it behind those read before.
fn read_cells(items: &Vec<&json::JsonValue>, cells: &mut Vec<Cell>)
    ensures
        final(cells)@.len() == old(cells)@.len() + items@.len(),
        forall|k: int| 0 <= k < old(cells)@.len() ==> final(cells)@[k] == old(cells)@[k],
        forall|k: int|
            0 <= k < items@.len() ==> (#[trigger] final(cells)@[old(cells)@.len() + k])@ == cell_of(
                *items@[k],
            ),
{
    let ghost before = cells@;
    let mut i: usize = 0;
    while i < items.len()
        invariant
            i <= items.len(),
            cells@.len() == before.len() + i,
            forall|k: int| 0 <= k < before.len() ==> cells@[k] == before[k],
            forall|k: int|
                0 <= k < i ==> (#[trigger] cells@[before.len() + k])@ == cell_of(*items@[k]),
        decreases items.len() - i,
    {
        cells.push(read_cell(items[i]));
        i = i + 1;
    }
}

/// Reads a parsed reply as a page.
fn read_page(reply: &json::JsonValue) -> (page: Page)
    ensures
        page@ == page_of(*reply),
{
    let items = members(field(reply, "data"));
    let ghost data = json_members(json_field(*reply, "data"@));
    let mut rows: Vec<Vec<Cell>> = Vec::new();
    let mut i: usize = 0;
    while i < items.len()
        invariant
            i <= items.len(),
            items@.len() == data.len(),
            forall|k: int| 0 <= k < items@.len() ==> *items@[k] == data[k],
            rows@.len() == i,
            forall|k: int| 0 <= k < i ==> row_view((#[trigger] rows@[k])@) == row_of(data[k]),
        decreases items.len() - i,
    {
        let cells = read_row(items[i]);
        rows.push(cells);
        i = i + 1;
    }
    let last = is_null(field(field(reply, "pagination"), "next"));
    proof {
        assert(rows_view(rows@) =~= data.map_values(|row: json::JsonValue| row_of(row)));
    }
    Page { rows, last }
}

/// Tells whether a text holds no more digits in a row than the parser can
/// count.
pub fn check_digits(bytes: &[u8]) -> (countable: bool)
    ensures
        countable == digits_countable(bytes@),
{
    let mut run: usize = 0;
    let mut i: usize = 0;
    while i < bytes.len()
        invariant
            i <= bytes.len(),
            run == digit_run(bytes@, i as int),
            forall|end: int| 0 <= end <= i ==> #[trigger] digit_run(bytes@, end) <= MAX_DIGIT_RUN,
        decreases bytes.len() - i,
    {
        if 0x30 <= bytes[i] && bytes[i] <= 0x39 {
            run = run + 1;
        } else {
            run = 0;
        }
        i = i + 1;
        assert(run == digit_run(bytes@, i as int));
        if run > MAX_DIGIT_RUN {
            return false;
        }
    }
    true
}

impl Page {
    /// Reads the body of a reply as a page. A body that is not JSON, or that
    /// holds more digits in a row than the parser can count, gives `None`.
    pub fn parse(body: &str) -> (page: Option<Page>)
        ensures
            page is Some <==> page_in(body@) is Some,
            page is Some ==> Some(page->0@) == page_in(body@),
    {
        if !check_digits(body.as_bytes()) {
            return None;
        }
        match parse_json(body) {
            Some(reply) => Some(read_page(&reply)),
            None => None,
        }
    }
}

} // verus!
