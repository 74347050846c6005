//! A small two-phase lexical tokenizer: a line of text is split into
//! classified tokens, and each token can then be broken down into its
//! individual characters for display.

pub mod breakdown;
pub mod chars;
pub mod classify;
pub mod scan;
