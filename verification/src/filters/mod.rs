//! The content-rewriting passes of the preparation pipeline.
pub mod expand_paths;
pub mod template;

use vstd::prelude::*;

verus! {

/// Describes errors from a filter.
#[derive(Debug)]
pub struct FilterError {
    /// Name of the filter the error originates from.
    pub name: String,
    /// Human-readable description of what went wrong.
    pub description: String,
}

/// Defines the constitution of a filter.
pub trait Filter {
    /// Applies the filter to a given markdown source and returns the result
    /// as a string.
    fn apply(self, data: String) -> Result<String, FilterError> where Self: core::marker::Sized;
}

} // verus!
