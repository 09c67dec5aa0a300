//! The template filter applies the Tera template engine on the given
//! string.
use super::Filter;
use super::FilterError;
use crate::util::join_path;
use crate::util::parent_dir;
use crate::util::parent_of;

use vstd::prelude::*;

verus! {

#[verifier::external_type_specification]
#[verifier::external_body]
pub struct ExTera(tera::Tera);

#[verifier::external_type_specification]
#[verifier::external_body]
pub struct ExContext(tera::Context);

/// Relies on `tera::Tera::new`: a fresh engine with no templates loaded.
#[verifier::external_body]
fn tera_new() -> tera::Tera {
    tera::Tera::new()
}

/// Relies on `tera::Tera::load_from_glob`: loads every template the glob
/// matches from disk, so what it does depends on the state of the disk.
#[verifier::external_body]
fn tera_load_glob(engine: &mut tera::Tera, glob: &str) -> (r: Result<(), String>) {
    match engine.load_from_glob(glob) {
        Ok(()) => Ok(()),
        Err(e) => Err(e.to_string()),
    }
}

/// Relies on `tera::Context::new`: the empty evaluation context.
#[verifier::external_body]
fn tera_empty_context() -> tera::Context {
    tera::Context::new()
}

/// Relies on `tera::Context::from_serialize`: an evaluation context built
/// from the keys of a JSON object; fails on a value that is no object.
#[verifier::external_body]
fn tera_context_from(v: &serde_json::Value) -> (r: Result<tera::Context, String>) {
    match tera::Context::from_serialize(v) {
        Ok(c) => Ok(c),
        Err(e) => Err(e.to_string()),
    }
}

/// True when the text holds none of the engine's start markers: no
/// variable (`{` `{`), block (`{` `%`) or comment (`{` `#`) delimiter pair.
pub open spec fn no_tera_markers(s: Seq<char>) -> bool {
    forall|i: int| #![trigger s[i]]
        0 <= i && i + 1 < s.len() ==> !(s[i] == '{' && (s[i + 1] == '{' || s[i + 1] == '%' || s[i
            + 1] == '#'))
}

/// Relies on `tera::Tera::render_str`: renders the given text as a one-off
/// template under the given context, without autoescaping. The result
/// depends on the engine's loaded templates and so on the disk, so no
/// success is promised; but text without any start marker lexes as one
/// verbatim content token, so a successful render returns it unchanged.
#[verifier::external_body]
fn tera_render(engine: &mut tera::Tera, input: &str, ctx: &tera::Context) -> (r: Result<
    String,
    String,
>)
    ensures
        no_tera_markers(input@) && r is Ok ==> r->Ok_0@ == input@,
{
    match engine.render_str(input, ctx, false) {
        Ok(s) => Ok(s),
        Err(e) => Err(e.to_string()),
    }
}

/// Contains the errors which can occur while the execution of the template
/// filter.
#[derive(Debug)]
pub enum TemplateError {
    /// Parent element of source file path couldn't be determined. Contains
    /// the path in question.
    NoParentFolder(String),
    /// Some tera error; holds its description.
    Tera(String),
}

impl TemplateError {
    /// The description that the corresponding filter error carries.
    pub open spec fn spec_description(&self) -> Seq<char> {
        match self {
            TemplateError::NoParentFolder(path) => "no parent folder for path "@ + path@
                + " found"@,
            TemplateError::Tera(err) => "tera engine error "@ + err@,
        }
    }

    /// Wraps the error as a filter error carrying the filter's name and a
    /// human-readable description.
    pub fn into_filter_error(self) -> (r: FilterError)
        ensures
            r.name@ == "template"@,
            r.description@ == self.spec_description(),
    {
        let description = match &self {
            TemplateError::NoParentFolder(path) => {
                let mut d = String::from_str("no parent folder for path ");
                d.append(path.as_str());
                d.append(" found");
                proof {
                    assert(d@ =~= self.spec_description());
                }
                d
            },
            TemplateError::Tera(err) => {
                let mut d = String::from_str("tera engine error ");
                d.append(err.as_str());
                proof {
                    assert(d@ =~= self.spec_description());
                }
                d
            },
        };
        FilterError { name: String::from_str("template"), description }
    }
}

/// The template filter applies the Tera template engine on the given
/// string. The engine is scoped to the parent folder of the source file, so
/// that engine-level directives can resolve sibling files.
pub struct Template {
    /// Path to the parent folder where the data originates. This is used to
    /// make relative paths used in the source reachable.
    pub wd: String,
    /// Optional context providing the template engine with additional
    /// values.
    pub context: Option<serde_json::Value>,
}

impl Template {
    /// Takes the path of the input markdown file and an optional evaluation
    /// context. Returns an instance of the template filter.
    pub fn new(input_file: &str, context: Option<serde_json::Value>) -> (r: Result<
        Template,
        FilterError,
    >)
        ensures
            parent_dir(input_file@) matches Some(p) ==> (r matches Ok(f) && f.wd@ == p
                && f.context == context),
            parent_dir(input_file@) is None ==> (r matches Err(e) && e.name@ == "template"@
                && e.description@ == "no parent folder for path "@ + input_file@ + " found"@),
    {
        match parent_of(input_file) {
            Some(wd) => Ok(Template { wd, context }),
            None => Err(TemplateError::NoParentFolder(input_file.to_owned()).into_filter_error()),
        }
    }

    /// Renders the whole content through the engine. The engine's work
    /// depends on the loaded sibling templates, so no success is promised;
    /// but the pass is the identity on content free of template directives,
    /// and an engine-level failure is wrapped as a filter error carrying
    /// this filter's name.
    pub fn apply(self, data: String) -> (r: Result<String, FilterError>)
        ensures
            no_tera_markers(data@) ==> (r matches Ok(o) ==> o@ == data@),
            r matches Err(e) ==> e.name@ == "template"@,
    {
        let glob = join_path(self.wd.as_str(), "**/*.md");
        let mut engine = tera_new();
        match tera_load_glob(&mut engine, glob.as_str()) {
            Ok(()) => {},
            Err(e) => {
                return Err(TemplateError::Tera(e).into_filter_error());
            },
        }
        let ctx = match self.context {
            Some(v) => match tera_context_from(&v) {
                Ok(c) => c,
                Err(e) => {
                    return Err(TemplateError::Tera(e).into_filter_error());
                },
            },
            None => tera_empty_context(),
        };
        match tera_render(&mut engine, data.as_str(), &ctx) {
            Ok(x) => Ok(x),
            Err(e) => Err(TemplateError::Tera(e).into_filter_error()),
        }
    }
}

impl Filter for Template {
    fn apply(self, data: String) -> Result<String, FilterError> {
        Template::apply(self, data)
    }
}

} // verus!
