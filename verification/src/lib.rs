//! Typed queries against the UK coronavirus statistics service.
//!
//! A [`Request`] says which areas and dates are asked about ([`Filter`]) and
//! which statistics are wanted ([`Metric`]). Running it gives an
//! [`Execution`], which writes the address of each page to ask for and decodes
//! what comes back into records: one [`Datum`] for each row, with one metric
//! for each metric of the request, in the same order.
//!
//! The library does not touch the network. Whoever runs a request fetches the
//! address that the execution names and hands back the status and the body of
//! the reply.
//!
//! This library is not affiliated with the NHS, Public Health England or the
//! UK Government.

pub mod area;
pub mod date;
pub mod decode;
pub mod error;
pub mod fetch;
pub mod filter;
pub mod kind;
pub mod metric;
pub mod page;
pub mod query;
pub mod request;
pub mod text;

pub use crate::area::AreaType;
pub use crate::date::Date;
pub use crate::decode::{Data, Datum};
pub use crate::error::{Error, Fault};
pub use crate::fetch::{Execution, Response, Step};
pub use crate::filter::{Filter, FilterValue};
pub use crate::kind::{MetricKind, Shape};
pub use crate::metric::{metric_to_str, Metric, Value};
pub use crate::page::{Cell, Page};
pub use crate::request::Request;
