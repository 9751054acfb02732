//! # Humanize
//!
//! Make your user interface more human friendly!
//!
//! This library recognizes "humanized" input text: free-form words such as
//! `"yep"`, `"off"` or `"1"` are mapped to typed values (booleans today;
//! the value model also reserves room for integers, ordinals, durations and
//! instants). Recognition is locale-aware: every recognizer is declared for
//! a [`Scope`](scope::Scope) (a concrete language tag, or the wildcard), and
//! a query only runs the recognizers whose scope matches the requested one.
//!
//! The core is the matcher registry, [`parse::Parser`]: an ordered
//! collection of [`matcher::Matcher`]s. Resolution walks the matchers in
//! registration order, runs the eligible ones, and returns every candidate
//! in that same order; the convenience entry points take the first
//! candidate ("first registered match wins").

pub use crate::parser::parse;
pub use crate::parser::parse_or;
pub use crate::parser::Parse;

pub mod boolean;
pub mod english;
pub mod matcher;
pub mod parse;
pub mod parser;
pub mod scope;
pub mod text;
pub mod value;
