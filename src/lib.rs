//! Template-driven extraction of suspicious-transaction reports from
//! spreadsheet workbooks.

pub mod attachments;
pub mod codes;
pub mod coord;
pub mod datetime;
pub mod entities;
pub mod error;
pub mod form;
pub mod join;
pub mod money_flow;
pub mod owners;
pub mod related;
pub mod report;
pub mod row;
pub mod suspicious;
pub mod table;
pub mod tasks;
pub mod template;
pub mod text;
pub mod workbook;
