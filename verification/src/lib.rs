//! Display-width classification of single Unicode scalar values.
//!
//! A codepoint is looked up in a fixed sequence of sorted range tables; the
//! first table that contains it decides its [`WcWidth`] category, which is
//! then resolved to a column width under one of two Unicode-version policies.

pub mod category;
pub mod classify;
pub mod ranges;
pub mod tables;

pub use category::WcWidth;
pub use classify::{classify, classify_with};
pub use ranges::{in_table, CodeRange};
