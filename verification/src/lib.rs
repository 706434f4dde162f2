//! A small note-keeping library for a PostgreSQL-backed command-line tool.
//!
//! The crate holds the decisions of the tool and none of its input or
//! output: which statements are sent to the database and in which order,
//! how the notes table is brought into its known shape, which commands a
//! set of flags asks for, and how a listing is laid out. A caller performs
//! the requests against a real connection and hands the answers back.

pub mod cli;
pub mod config;
pub mod exchange;
pub mod model;
pub mod note;
pub mod reconcile;
pub mod report;
pub mod repository;
pub mod schema;
pub mod sql;
pub mod text;
