//! Decision core of an event-report ingestion service: replay guard,
//! cooling-down filter, rule filter chain, personnel review decision and
//! the orchestration that ties them together.

pub mod cache;
pub mod cooling;
pub mod event_processing;
pub mod geometry;
pub mod json;
pub mod other_filter;
pub mod pipeline;
pub mod plate_filter;
pub mod records;
pub mod report;
pub mod response;
pub mod rules;
pub mod store;
pub mod text;
