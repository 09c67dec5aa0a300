//! Provides an example markdown file showcasing the key features of
//! rsmooth.
use crate::error::SmoothError;

use vstd::prelude::*;

verus! {

/// The example document: a markdown file whose front matter declares the
/// header fields that rsmooth understands.
pub const EXAMPLE_CONTENT: &'static str = "---\ntitle: An example document\nengine: xelatex\ndo_tera: true\ntera_context:\n  name: World\npandoc_options: \"--toc\"\nbreak_description: false\n---\n\n# Hello {{ name }}\n\nThis document shows the header fields that rsmooth understands. The\nfront matter above selects the PDF engine, enables Tera templating with\na context, and hands extra options to pandoc. Optional path fields\n(template, reference, bibliography, csl) are resolved relative to this\nfile and must exist.\n\n![A picture](figures/picture.png)\n";

/// Provides an example markdown file showcasing the key features of
/// rsmooth.
pub struct Example;

impl Example {
    /// Returns the example file as a string content.
    pub fn as_string() -> (r: Result<&'static str, SmoothError>)
        ensures
            r is Ok && r->Ok_0@ == EXAMPLE_CONTENT@,
    {
        Ok(Self::content())
    }

    /// Returns the content of the example file.
    pub fn content() -> (r: &'static str)
        ensures
            r@ == EXAMPLE_CONTENT@,
    {
        EXAMPLE_CONTENT
    }
}

} // verus!
