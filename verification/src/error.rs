//! The error type for errors which can occur while running rsmooth.
use crate::filters::FilterError;
use crate::pandoc::PandocError;
use crate::util::NormalizeError;
use crate::util::str_eq;

use vstd::prelude::*;

verus! {

/// The error type for errors which can occur while running rsmooth.
#[derive(Debug)]
pub enum SmoothError {
    /// Normalize Error occurred.
    NormalizeError(NormalizeError),
    /// Error occurring while calling pandoc, contains a PandocError. For more
    /// information on the handling of pandoc (-errors) see the pandoc module.
    Pandoc(PandocError),
    /// The input file was not found under the given path. Holds the path as
    /// it was given and its normalized form.
    InputFileNotFound(String, String),
    /// Couldn't read the front matter header of the input file. Holds the
    /// path to the input file.
    MetadataRead(String),
    /// Occurs when the JSON template is already present in the temporary
    /// folder. See the metadata module for more information. Contains the
    /// path to the template file.
    JsonTemplateExists(String),
    /// Error occurring while the creation of the metadata as JSON template.
    /// Holds the path to the file and the text of the underlying OS error.
    CreateJsonTemplateFailed(String, String),
    /// Occurs when the metadata JSON cannot be parsed. Holds the parser's
    /// description of the failure.
    MetadataParseFailure(String),
    /// Error for failing of the metadata as JSON template removal. Contains
    /// the path to the template file and the cause.
    RemoveJsonTemplateFailed(String, String),
    /// The given template path as specified in the metadata header was not
    /// found with the given path.
    TemplateNotFound(String),
    /// The given reference path as specified in the metadata header was not
    /// found with the given path.
    ReferenceNotFound(String),
    /// The given bibliography path as specified in the metadata header was
    /// not found with the given path.
    BibliographyNotFound(String),
    /// The given citation style file path as specified in the metadata
    /// header was not found with the given path.
    CitationStyleNotFound(String),
    /// Error while creating a temporary file. Contains the cause.
    TemporaryFile(String),
    /// Couldn't read source file. Holds the path and the cause.
    ReadSourceFailed(String, String),
    /// Error occurring while the creation of a file. Should be used when no
    /// more specific error is necessary. Holds the path and the cause.
    FileCreateFailed(String, String),
    /// Write file failed. Holds the path and the cause.
    WriteFailed(String, String),
    /// Parent element of given path couldn't be determined.
    NoParentFolder(String),
    /// A filter of the preparation pipeline failed. Holds the filter error
    /// with the filter's name and a description.
    Filter(FilterError),
    /// Some tera error.
    Tera(String),
    /// Given reference file isn't compatible with the requested output
    /// format, e.g. using an ODT reference file for a DOCX export. Holds the
    /// path to the faulty reference file and a description of the output
    /// format.
    IncompatibleReferenceFile(String, String),
}

impl SmoothError {
    /// The text that `message` returns.
    pub open spec fn spec_message(&self) -> Seq<char> {
        match self {
            SmoothError::NormalizeError(err) => "path normalize error "@ + err.spec_message(),
            SmoothError::Pandoc(err) => err.spec_message(),
            SmoothError::InputFileNotFound(given, normalized) => if given@ == normalized@ {
                "input file \""@ + given@ + "\" couldn't be found"@
            } else {
                "input file \""@ + given@ + "\" couldn't be found under normalized path \""@
                    + normalized@ + "\""@
            },
            SmoothError::MetadataRead(path) => "YAML header for input file \""@ + path@
                + "\" couldn't be read"@,
            SmoothError::JsonTemplateExists(path) => "pandoc template for extracting the metadata as JSON already present under \""@
                + path@ + "\" please remove this file manually before proceeding"@,
            SmoothError::CreateJsonTemplateFailed(path, why) => "couldn't write temporary metadata-as-JSON template to "@
                + path@ + " "@ + why@,
            SmoothError::MetadataParseFailure(err) => "couldn't parse frontmatter metadata header of document "@
                + err@,
            SmoothError::RemoveJsonTemplateFailed(path, why) => "couldn't remove temporary metadata-as-JSON template under "@
                + path@ + " "@ + why@,
            SmoothError::TemplateNotFound(path) => "couldn't find template file under "@ + path@,
            SmoothError::ReferenceNotFound(path) => "couldn't find reference file under "@ + path@,
            SmoothError::BibliographyNotFound(path) => "couldn't find bibliography file under "@
                + path@,
            SmoothError::CitationStyleNotFound(path) => "couldn't find citation style (csl) file under "@
                + path@,
            SmoothError::TemporaryFile(err) => "couldn't create temporary file "@ + err@,
            SmoothError::ReadSourceFailed(file, err) => "couldn't read the content of the given markdown file "@
                + file@ + " "@ + err@,
            SmoothError::FileCreateFailed(file, err) => "couldn't create file "@ + file@ + " "@
                + err@,
            SmoothError::WriteFailed(file, err) => "couldn't write to file "@ + file@ + " "@
                + err@,
            SmoothError::NoParentFolder(file) => "no parent folder for path "@ + file@ + " found"@,
            SmoothError::Filter(err) => "error in filter "@ + err.name@ + " "@ + err.description@,
            SmoothError::Tera(err) => "error in Tera templating engine "@ + err@,
            SmoothError::IncompatibleReferenceFile(file, format) => "reference file "@ + file@
                + " isn't compatible to output format "@ + format@,
        }
    }

    /// Renders the error as a single human-readable line identifying the
    /// failing stage and artifact.
    pub fn message(&self) -> (r: String)
        ensures
            r@ == self.spec_message(),
    {
        let r = match self {
            SmoothError::NormalizeError(err) => {
                let mut m = String::from_str("path normalize error ");
                m.append(err.message().as_str());
                m
            },
            SmoothError::Pandoc(err) => err.message(),
            SmoothError::InputFileNotFound(given, normalized) => {
                if str_eq(given.as_str(), normalized.as_str()) {
                    let mut m = String::from_str("input file \"");
                    m.append(given.as_str());
                    m.append("\" couldn't be found");
                    m
                } else {
                    let mut m = String::from_str("input file \"");
                    m.append(given.as_str());
                    m.append("\" couldn't be found under normalized path \"");
                    m.append(normalized.as_str());
                    m.append("\"");
                    m
                }
            },
            SmoothError::MetadataRead(path) => {
                let mut m = String::from_str("YAML header for input file \"");
                m.append(path.as_str());
                m.append("\" couldn't be read");
                m
            },
            SmoothError::JsonTemplateExists(path) => {
                let mut m = String::from_str(
                    "pandoc template for extracting the metadata as JSON already present under \"",
                );
                m.append(path.as_str());
                m.append("\" please remove this file manually before proceeding");
                m
            },
            SmoothError::CreateJsonTemplateFailed(path, why) => {
                let mut m = String::from_str(
                    "couldn't write temporary metadata-as-JSON template to ",
                );
                m.append(path.as_str());
                m.append(" ");
                m.append(why.as_str());
                m
            },
            SmoothError::MetadataParseFailure(err) => {
                let mut m = String::from_str(
                    "couldn't parse frontmatter metadata header of document ",
                );
                m.append(err.as_str());
                m
            },
            SmoothError::RemoveJsonTemplateFailed(path, why) => {
                let mut m = String::from_str(
                    "couldn't remove temporary metadata-as-JSON template under ",
                );
                m.append(path.as_str());
                m.append(" ");
                m.append(why.as_str());
                m
            },
            SmoothError::TemplateNotFound(path) => {
                let mut m = String::from_str("couldn't find template file under ");
                m.append(path.as_str());
                m
            },
            SmoothError::ReferenceNotFound(path) => {
                let mut m = String::from_str("couldn't find reference file under ");
                m.append(path.as_str());
                m
            },
            SmoothError::BibliographyNotFound(path) => {
                let mut m = String::from_str("couldn't find bibliography file under ");
                m.append(path.as_str());
                m
            },
            SmoothError::CitationStyleNotFound(path) => {
                let mut m = String::from_str("couldn't find citation style (csl) file under ");
                m.append(path.as_str());
                m
            },
            SmoothError::TemporaryFile(err) => {
                let mut m = String::from_str("couldn't create temporary file ");
                m.append(err.as_str());
                m
            },
            SmoothError::ReadSourceFailed(file, err) => {
                let mut m = String::from_str(
                    "couldn't read the content of the given markdown file ",
                );
                m.append(file.as_str());
                m.append(" ");
                m.append(err.as_str());
                m
            },
            SmoothError::FileCreateFailed(file, err) => {
                let mut m = String::from_str("couldn't create file ");
                m.append(file.as_str());
                m.append(" ");
                m.append(err.as_str());
                m
            },
            SmoothError::WriteFailed(file, err) => {
                let mut m = String::from_str("couldn't write to file ");
                m.append(file.as_str());
                m.append(" ");
                m.append(err.as_str());
                m
            },
            SmoothError::NoParentFolder(file) => {
                let mut m = String::from_str("no parent folder for path ");
                m.append(file.as_str());
                m.append(" found");
                m
            },
            SmoothError::Filter(err) => {
                let mut m = String::from_str("error in filter ");
                m.append(err.name.as_str());
                m.append(" ");
                m.append(err.description.as_str());
                m
            },
            SmoothError::Tera(err) => {
                let mut m = String::from_str("error in Tera templating engine ");
                m.append(err.as_str());
                m
            },
            SmoothError::IncompatibleReferenceFile(file, format) => {
                let mut m = String::from_str("reference file ");
                m.append(file.as_str());
                m.append(" isn't compatible to output format ");
                m.append(format.as_str());
                m
            },
        };
        proof {
            assert(r@ =~= self.spec_message());
        }
        r
    }
}

} // verus!
