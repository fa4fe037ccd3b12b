//! Error values for a parser-combinator core.
//!
//! Parsers explore many failing alternatives per input position, so failure
//! values must be cheap to build and discard; only the error that is finally
//! surfaced pays the cost of formatting its messages. The delayed form holds
//! unforced message producers; `evaluate` walks the tree once and replaces
//! each producer with its text, preserving the variant and position structure
//! exactly.

pub mod decimal;
pub mod error;
pub mod message;

pub use error::Error;
pub use message::ErrorMessage;
