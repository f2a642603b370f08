//! Budgeting rules for a personal money tracker: exact money amounts, calendar
//! days, budget categories and the ledger of a month, the rows that a window
//! shows for them, and what each edit in the window does to them.
//!
//! Reading and writing files and drawing the window are left to the program
//! around this library.

pub mod budget;
pub mod calendar;
pub mod category;
pub mod config;
pub mod data_to_model;
pub mod decimal;
pub mod error;
pub mod file_names;
pub mod money;
pub mod session;
pub mod sorted;
pub mod text;
