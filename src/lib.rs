//! Query planning and temporal row filtering for a date-partitioned
//! energy-market HTTP API exposed as foreign tables.
//!
//! The library turns predicate filters of a table scan into fetch plans
//! (endpoint, optional product, day window, request target) and restores
//! full timestamp precision on the rows that come back.
pub mod calendar;
pub mod cells;
pub mod columns;
pub mod error;
pub mod oauth2;
pub mod quals;
pub mod query_router;
pub mod row_filter;
pub mod scan;
pub mod text;
pub mod timestamps;
pub mod transformations;

pub use error::{ApiError, NtpFdwError, OAuth2Error, ParseError};
pub use oauth2::{OAuth2Config, OAuth2Manager};
pub use query_router::{DateRange, QualFilters, QueryPlan, TimestampBounds};
pub use row_filter::GridStatusRow;
