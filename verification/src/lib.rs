//! Time statistics and "On This Day" request and rendering logic.

pub mod cache;
pub mod calendar;
pub mod error;
pub mod fetch;
pub mod history;
pub mod language;
pub mod query;
pub mod stats;
pub mod table;
pub mod text;
