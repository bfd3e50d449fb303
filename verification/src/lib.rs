//! A content-agnostic spaced-repetition engine.
//!
//! The crate covers two subsystems: the review scheduler (a maturity state
//! machine over memory state), and a small filter expression language with a
//! lexer, an operator-precedence parser and a compiler that lowers filter
//! expressions into storage-engine predicates.

pub mod api_config;
pub mod ast;
pub mod chars;
pub mod config;
pub mod constants;
pub mod db;
pub mod grade;
pub mod help;
pub mod lexer;
pub mod maturity;
pub mod memory;
pub mod model;
pub mod parser;
pub mod queries;
pub mod scheduler;
pub mod status;
pub mod token;
pub mod ui;
