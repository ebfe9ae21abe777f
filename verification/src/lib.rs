//! Verified core of the grabit hand manager: directory layout of a hand,
//! path-name helpers, output rendering, error messages, and the decisions
//! and query plans behind the hand's database.

pub mod text;
pub mod paths;
pub mod env;
pub mod output;
pub mod reference;
pub mod logs;
pub mod error;
pub mod db;
