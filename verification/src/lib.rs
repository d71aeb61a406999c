//! Core of a DNS-leak and traceroute diagnostic.
//!
//! The crate holds the decisions of two probing pipelines and the tables
//! they produce. It performs no I/O itself: a driver sends the requests
//! and runs the probing engine, and hands the outcomes back.
//!
//! - `dns_leak`: the records of a leak verdict and their annotation.
//! - `leak_probe`: the stages of the leak probe.
//! - `trace`: the traceroute table and how a snapshot becomes its rows.
//! - `trace_run`: the stages of a traceroute run.
//! - `tui`: the cells and commands of the screen.
//! - `text`: decimal numerals and joined lists.
//! - `validation`: the host name as given.

pub mod dns_leak;
pub mod leak_probe;
pub mod text;
pub mod trace;
pub mod trace_run;
pub mod tui;
pub mod validation;
