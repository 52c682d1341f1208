//! The restrictions that a query puts on areas and dates.

use vstd::prelude::*;
use vstd::string::*;

use crate::area::AreaType;
use crate::date::{date_text, Date, Ymd};

verus! {

/// What a query can be restricted by, with the value to restrict it to.
#[derive(Debug, Clone, PartialEq, Eq)]
pub enum FilterValue {
    AreaType(AreaType),
    /// The name of an area, in lower case. It is sent as it is given.
    AreaName(String),
    AreaCode(String),
    Date(Date),
}

/// What a [`FilterValue`] stands for, and so what a [`Filter`] does.
pub enum FilterView {
    AreaType(AreaType),
    AreaName(Seq<char>),
    AreaCode(Seq<char>),
    Date(Ymd),
}

impl FilterView {
    /// The name of the field that is restricted.
    pub open spec fn field_name(self) -> Seq<char> {
        match self {
            FilterView::AreaType(_) => "areaType"@,
            FilterView::AreaName(_) => "areaName"@,
            FilterView::AreaCode(_) => "areaCode"@,
            FilterView::Date(_) => "date"@,
        }
    }

    /// The value that the field is restricted to, as it is written in a query.
    pub open spec fn value_text(self) -> Seq<char> {
        match self {
            FilterView::AreaType(area) => area.wire_name(),
            FilterView::AreaName(name) => name,
            FilterView::AreaCode(code) => code,
            FilterView::Date(date) => date_text(date),
        }
    }

    /// The filter as it is written in a query: the field, `=`, the value.
    pub open spec fn pair_text(self) -> Seq<char> {
        self.field_name() + seq!['='] + self.value_text()
    }

    /// Whether two filters restrict the same field.
    pub open spec fn same_field(self, other: FilterView) -> bool {
        match (self, other) {
            (FilterView::AreaType(_), FilterView::AreaType(_)) => true,
            (FilterView::AreaName(_), FilterView::AreaName(_)) => true,
            (FilterView::AreaCode(_), FilterView::AreaCode(_)) => true,
            (FilterView::Date(_), FilterView::Date(_)) => true,
            _ => false,
        }
    }

    /// Each field has a name of its own: two filters have the same field name
    /// exactly when they restrict the same field.
    pub proof fn field_names_differ(self, other: FilterView)
        ensures
            self.field_name() == other.field_name() <==> self.same_field(other),
    {
        reveal_strlit("areaType");
        reveal_strlit("areaName");
        reveal_strlit("areaCode");
        reveal_strlit("date");
        assert("areaType"@[4] == 'T' && "areaName"@[4] == 'N' && "areaCode"@[4] == 'C');
        assert("date"@.len() == 4 && "areaType"@.len() == 8);
    }
}

impl View for FilterValue {
    type V = FilterView;

    open spec fn view(&self) -> FilterView {
        match self {
            FilterValue::AreaType(area) => FilterView::AreaType(*area),
            FilterValue::AreaName(name) => FilterView::AreaName(name@),
            FilterValue::AreaCode(code) => FilterView::AreaCode(code@),
            FilterValue::Date(date) => FilterView::Date(date@),
        }
    }
}

impl FilterValue {
    /// Gives the name of the field that is restricted.
    pub fn field_name(&self) -> (name: &'static str)
        ensures
            name@ == self@.field_name(),
    {
        match self {
            FilterValue::AreaType(_) => "areaType",
            FilterValue::AreaName(_) => "areaName",
            FilterValue::AreaCode(_) => "areaCode",
            FilterValue::Date(_) => "date",
        }
    }

    /// Writes the value as it stands in a query.
    pub fn value_str(&self) -> (text: String)
        ensures
            text@ == self@.value_text(),
    {
        match self {
            FilterValue::AreaType(area) => String::from_str(area.as_str()),
            FilterValue::AreaName(name) => name.clone(),
            FilterValue::AreaCode(code) => code.clone(),
            FilterValue::Date(date) => date.format(),
        }
    }
}

/// One restriction of a query: a field and the value it is restricted to.
#[derive(Debug, PartialEq, Eq)]
pub struct Filter {
    metric: String,
    value: FilterValue,
}

impl View for Filter {
    type V = FilterView;

    closed spec fn view(&self) -> FilterView {
        self.value@
    }
}

impl Filter {
    #[verifier::type_invariant]
    spec fn named_after_value(self) -> bool {
        self.metric@ == self.value@.field_name()
    }

    /// Makes the filter that restricts a query to the given value.
    pub fn new(value: FilterValue) -> (filter: Filter)
        ensures
            filter@ == value@,
    {
        let metric = String::from_str(value.field_name());
        Filter { metric, value }
    }

    /// Writes the filter as it stands in a query: the field, `=`, the value.
    pub fn pair_str(&self) -> (text: String)
        ensures
            text@ == self@.pair_text(),
    {
        proof {
            use_type_invariant(self);
        }
        let mut text = self.metric.clone();
        text.append("=");
        text.append(self.value.value_str().as_str());
        proof {
            reveal_strlit("=");
            assert("="@ =~= seq!['=']);
        }
        text
    }
}

} // verus!
