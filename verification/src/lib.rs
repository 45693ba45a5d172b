//! Hardware inventory report: the rules that turn what the machine answers
//! into the lines of the report.

pub mod decimal;
pub mod driver;
pub mod records;
pub mod registry;
pub mod report;
pub mod size;
