pub mod error;
pub mod example;
pub mod file;
pub mod filters;
pub mod metadata;
pub mod libreoffice;
pub mod m4;
pub mod pandoc;
pub mod templating;
pub mod util;

use vstd::prelude::*;

verus! {

/// Defines the possible output formats for rsmooth.
#[derive(Clone, Copy, PartialEq, Eq, Structural, Debug)]
pub enum OutputFormat {
    /// Portable Document Format.
    Pdf,
    /// OpenDocument Text format.
    Odt,
    /// Office Open XML Document format.
    Docx,
}

impl OutputFormat {
    /// File extension implied by this output format, without the dot.
    pub open spec fn spec_extension(self) -> Seq<char> {
        match self {
            OutputFormat::Pdf => "pdf"@,
            OutputFormat::Odt => "odt"@,
            OutputFormat::Docx => "docx"@,
        }
    }

    /// Returns the file extension implied by this output format.
    pub fn extension(self) -> (r: &'static str)
        ensures
            r@ == self.spec_extension(),
    {
        match self {
            OutputFormat::Pdf => "pdf",
            OutputFormat::Odt => "odt",
            OutputFormat::Docx => "docx",
        }
    }
}

} // verus!
