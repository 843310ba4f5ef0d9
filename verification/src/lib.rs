//! Verified core of a Canvas LMS command line client: validated identifiers,
//! names and dates; the typed requests that commands stand for; JSON
//! documents given on the command line; configuration merging; the retry and
//! polling decisions; and the codes, messages and details of errors.

pub mod text;
pub mod ids;
pub mod names;
pub mod kinds;
pub mod dates;
pub mod windows;
pub mod hosts;
pub mod errors;
pub mod parse;
pub mod contexts;
pub mod combine;
pub mod ask;
pub mod config;
pub mod net;
pub mod migrations;
pub mod resources;
pub mod details;
pub mod cli;
pub mod json;
pub mod requests;
pub mod calendar;
pub mod conferences;
pub mod pages;
pub mod modules;
pub mod reports;
pub mod quizzes;
pub mod assignments;
pub mod submissions;
pub mod imports;
pub mod rubrics;
pub mod catalog;
pub mod envelopes;
pub mod schema;
pub mod requirements;
pub mod banks;
pub mod gates;
