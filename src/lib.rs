//! Input normalisation and request-option resolution for a command-line
//! client of a web-search service.
pub mod action;
pub mod format;
pub mod input;
pub mod options;
pub mod output;
pub mod params;
pub mod resolve;

pub use action::Action;
pub use input::{Input, InputError, Request};
pub use output::{Failure, Output};
pub use resolve::{resolve_contents, resolve_fetch_contents};
