//! Turns validator income records into ledger rows.
//!
//! A header record selects one of two known column layouts, each data record
//! is decoded into optional fixed-point incomes, and every income present
//! becomes one ledger row, in a fixed order.

pub mod amount;
pub mod schema;
pub mod row;
pub mod translator;
pub mod batch;
