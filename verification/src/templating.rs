//! Errors of the templating engine as they surface outside the filter chain.
use vstd::prelude::*;

verus! {

/// Contains the errors which can occur while the execution of the templating
/// engine.
#[derive(Debug)]
pub enum TemplatingError {
    /// Some error of the Tera engine; holds its description.
    Tera(String),
}

impl TemplatingError {
    /// The text that `message` returns.
    pub open spec fn spec_message(&self) -> Seq<char> {
        match self {
            TemplatingError::Tera(err) => "tera error "@ + err@,
        }
    }

    /// Renders the error as a single human-readable line.
    pub fn message(&self) -> (r: String)
        ensures
            r@ == self.spec_message(),
    {
        match self {
            TemplatingError::Tera(err) => {
                let mut r = String::from_str("tera error ");
                r.append(err.as_str());
                proof {
                    assert(r@ =~= self.spec_message());
                }
                r
            },
        }
    }
}

} // verus!
