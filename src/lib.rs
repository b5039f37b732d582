//! Extraction of reading highlights from e-reader metadata files, with the
//! date-window rules that decide which highlights are in scope.
pub mod config;
pub mod date;
pub mod db;
pub mod lua;
pub mod models;
pub mod parser;
