//! Obtains the document's declared front matter as structured data and
//! validates it into a typed metadata record.
use crate::OutputFormat;
use crate::error::SmoothError;
use crate::filters::expand_paths::is_ws;
use crate::filters::expand_paths::ws_char;
use crate::filters::expand_paths::scan_while;
use crate::util::is_absolute_path;
use crate::util::normalize_path;
use crate::util::path_exists;
use crate::util::plain_norm;
use crate::util::plain_path;
use crate::util::range_to_string;
use crate::util::str_ends_with;
use crate::util::str_to_chars;

use vstd::prelude::*;

verus! {

#[verifier::external_type_specification]
#[verifier::external_body]
pub struct ExValue(serde_json::Value);

/// Name of the temporary pandoc template for extracting the header of a
/// markdown file as JSON.
pub const JSON_TEMPLATE_PATH: &'static str = "rsmooth-metadata.pandoc-tpl";

/// Content of the metadata-as-JSON template.
pub const JSON_TEMPLATE: &'static str = "$meta-json$";

/// Relies on `serde_json::Value::clone`.
#[verifier::external_body]
pub(crate) fn json_clone(v: &serde_json::Value) -> (r: serde_json::Value) {
    v.clone()
}

/// The declared fields of a document's front matter, as the external
/// processor emitted them and before any validation. A field that the
/// header does not declare, or declares with an unexpected type, is absent.
#[derive(Debug)]
pub struct Header {
    /// Path to the pandoc template file.
    pub template: Option<String>,
    /// Path to the reference office document whose styles are reused.
    pub reference: Option<String>,
    /// PDF engine to be used.
    pub engine: Option<String>,
    /// Additional parameters to pandoc, as one whitespace-delimited string.
    pub pandoc_options: Option<String>,
    /// Whether templating with the Tera engine should be executed on the
    /// input file.
    pub do_tera: Option<bool>,
    /// Optional template context aka. variables etc.
    pub tera_context: Option<serde_json::Value>,
    /// Whether newline should break text in description texts.
    pub break_description: Option<bool>,
    /// Path to the bibliography file.
    pub bibliography: Option<String>,
    /// Path to the citation style file.
    pub csl: Option<String>,
}

/// Whether the text parses as a JSON object, and so as a metadata header.
/// Parsing is a function of the text alone; the names below stand for what
/// the parsed header object holds under each wire-format key.
pub uninterp spec fn json_header_ok(s: Seq<char>) -> bool;

/// The string under the header's `template` key, if the key holds one.
pub uninterp spec fn hdr_template(s: Seq<char>) -> Option<Seq<char>>;

/// The string under the header's `reference` key, if the key holds one.
pub uninterp spec fn hdr_reference(s: Seq<char>) -> Option<Seq<char>>;

/// The string under the header's `engine` key, if the key holds one.
pub uninterp spec fn hdr_engine(s: Seq<char>) -> Option<Seq<char>>;

/// The string under the header's `pandoc_options` key, if the key holds
/// one.
pub uninterp spec fn hdr_options(s: Seq<char>) -> Option<Seq<char>>;

/// The boolean under the header's `do_tera` key, if the key holds one.
pub uninterp spec fn hdr_do_tera(s: Seq<char>) -> Option<bool>;

/// Whether the header declares a `tera_context` value.
pub uninterp spec fn hdr_context(s: Seq<char>) -> bool;

/// The boolean under the header's `break_description` key, if the key
/// holds one.
pub uninterp spec fn hdr_break_description(s: Seq<char>) -> Option<bool>;

/// The string under the header's `bibliography` key, if the key holds one.
pub uninterp spec fn hdr_bibliography(s: Seq<char>) -> Option<Seq<char>>;

/// The string under the header's `csl` key, if the key holds one.
pub uninterp spec fn hdr_csl(s: Seq<char>) -> Option<Seq<char>>;

/// The view of an optional string field.
pub open spec fn opt_view(o: Option<String>) -> Option<Seq<char>> {
    match o {
        Some(s) => Some(s@),
        None => None,
    }
}

/// Relies on `serde_json::from_str` and the `Value` accessors `is_object`,
/// `get`, `as_str`, `as_bool` and `clone`: together they read the raw
/// metadata JSON into the header record, exactly as a derived deserializer
/// of the wire format would. The outcome is a function of the text alone;
/// on failure the parser's own description of the malformation is
/// returned.
#[verifier::external_body]
fn parse_header(raw: &str) -> (r: Result<Header, String>)
    ensures
        r is Ok <==> json_header_ok(raw@),
        r matches Ok(h) ==> {
            &&& opt_view(h.template) == hdr_template(raw@)
            &&& opt_view(h.reference) == hdr_reference(raw@)
            &&& opt_view(h.engine) == hdr_engine(raw@)
            &&& opt_view(h.pandoc_options) == hdr_options(raw@)
            &&& h.do_tera == hdr_do_tera(raw@)
            &&& h.tera_context is Some == hdr_context(raw@)
            &&& h.break_description == hdr_break_description(raw@)
            &&& opt_view(h.bibliography) == hdr_bibliography(raw@)
            &&& opt_view(h.csl) == hdr_csl(raw@)
        },
{
    let v: serde_json::Value = match serde_json::from_str(raw) {
        Ok(x) => x,
        Err(e) => return Err(e.to_string()),
    };
    if !v.is_object() {
        return Err("expected a JSON object".to_string());
    }
    let s = |k: &str| v.get(k).and_then(|x| x.as_str()).map(|x| x.to_owned());
    let b = |k: &str| v.get(k).and_then(|x| x.as_bool());
    Ok(Header {
        template: s("template"), reference: s("reference"), engine: s("engine"),
        pandoc_options: s("pandoc_options"), do_tera: b("do_tera"),
        tera_context: v.get("tera_context").cloned(), break_description: b("break_description"),
        bibliography: s("bibliography"), csl: s("csl"),
    })
}

/// Returns the default (xelatex) for the engine field. Used when the field
/// is not set in the metadata.
pub fn default_engine() -> (r: String)
    ensures
        r@ == "xelatex"@,
{
    String::from_str("xelatex")
}

/// Returns the default (false) for the do_tera field. Used when the field is
/// not set in the metadata.
pub fn default_do_tera() -> (r: bool)
    ensures
        r == false,
{
    false
}

/// Returns the default (false) for the break_description field. Used when
/// the field is not set in the metadata.
pub fn default_break_description() -> (r: bool)
    ensures
        r == false,
{
    false
}

/// The predicate of a token character: anything but whitespace.
pub open spec fn nonws_pred() -> spec_fn(char) -> bool {
    |c: char| !is_ws(c)
}

/// The whitespace-delimited tokens of `s` from `i` on: each token is a
/// maximal run of non-whitespace characters.
pub open spec fn split_ws_spec(s: Seq<char>, i: int) -> Seq<Seq<char>>
    decreases s.len() - i,
    when 0 <= i
    via split_ws_spec_dec
{
    if i >= s.len() {
        Seq::empty()
    } else if is_ws(s[i]) {
        split_ws_spec(s, i + 1)
    } else {
        seq![s.subrange(i, scan_while(s, i, nonws_pred()))] + split_ws_spec(
            s,
            scan_while(s, i, nonws_pred()),
        )
    }
}

#[via_fn]
proof fn split_ws_spec_dec(s: Seq<char>, i: int) {
    if 0 <= i && i < s.len() && !is_ws(s[i]) {
        crate::filters::expand_paths::lemma_scan_while_bounds(s, i + 1, nonws_pred());
        assert(scan_while(s, i, nonws_pred()) == scan_while(s, i + 1, nonws_pred()));
    }
}

/// Scans past token characters, returning the first whitespace index.
fn scan_nonws(v: &Vec<char>, j0: usize) -> (r: usize)
    requires
        j0 <= v@.len(),
    ensures
        r == scan_while(v@, j0 as int, nonws_pred()),
        j0 <= r <= v@.len(),
{
    let mut j = j0;
    loop
        invariant
            j0 <= j <= v@.len(),
            scan_while(v@, j0 as int, nonws_pred()) == scan_while(v@, j as int, nonws_pred()),
        decreases v@.len() - j,
    {
        if j >= v.len() {
            return j;
        }
        let c = v[j];
        if ws_char(c) {
            proof {
                assert(!nonws_pred()(v@[j as int]));
            }
            return j;
        }
        proof {
            assert(nonws_pred()(v@[j as int]));
        }
        j = j + 1;
    }
}

/// Splits a raw options string into its whitespace-delimited tokens.
pub fn split_options(s: &str) -> (r: Vec<String>)
    ensures
        r.deep_view() == split_ws_spec(s@, 0),
{
    let v = str_to_chars(s);
    let mut out: Vec<String> = Vec::new();
    let mut i: usize = 0;
    while i < v.len()
        invariant
            i <= v@.len(),
            v@ == s@,
            split_ws_spec(s@, 0) == out.deep_view() + split_ws_spec(s@, i as int),
        decreases v@.len() - i,
    {
        let c = v[i];
        if ws_char(c) {
            i = i + 1;
        } else {
            let e = scan_nonws(&v, i);
            proof {
                assert(nonws_pred()(v@[i as int]));
                assert(scan_while(v@, i as int, nonws_pred()) == scan_while(
                    v@,
                    i as int + 1,
                    nonws_pred(),
                ));
                crate::filters::expand_paths::lemma_scan_while_bounds(
                    v@,
                    i as int + 1,
                    nonws_pred(),
                );
            }
            let tok = range_to_string(&v, i, e);
            let ghost out0 = out.deep_view();
            out.push(tok);
            proof {
                assert(out.deep_view() =~~= out0 + seq![s@.subrange(i as int, e as int)]);
                assert(out0 + split_ws_spec(s@, i as int) =~~= out.deep_view() + split_ws_spec(
                    s@,
                    e as int,
                ));
            }
            i = e;
        }
    }
    proof {
        assert(out.deep_view() + Seq::<Seq<char>>::empty() =~~= out.deep_view());
    }
    out
}

/// True when the reference file's extension fits the output format: ODT
/// output takes `.odt` or `.fodt` references, DOCX output `.docx` or
/// `.docm`; a PDF conversion accepts any reference.
pub open spec fn compatible_reference(path: Seq<char>, format: OutputFormat) -> bool {
    match format {
        OutputFormat::Pdf => true,
        OutputFormat::Odt => crate::util::ends_with(path, ".odt"@) || crate::util::ends_with(
            path,
            ".fodt"@,
        ),
        OutputFormat::Docx => crate::util::ends_with(path, ".docx"@) || crate::util::ends_with(
            path,
            ".docm"@,
        ),
    }
}

/// Returns whether the reference file's extension fits the output format.
pub fn check_reference_compatibility(path: &str, format: &OutputFormat) -> (r: bool)
    ensures
        r == compatible_reference(path@, *format),
{
    match format {
        OutputFormat::Pdf => true,
        OutputFormat::Odt => str_ends_with(path, ".odt") || str_ends_with(path, ".fodt"),
        OutputFormat::Docx => str_ends_with(path, ".docx") || str_ends_with(path, ".docm"),
    }
}

/// The validated, typed representation of a document's declared
/// configuration.
#[derive(Debug)]
pub struct Metadata {
    /// Path to the pandoc template file. Can be absolute or relative to the
    /// markdown file; a tilde (`~`) refers to the home folder of the current
    /// user and environment variables are written with a dollar sign. If no
    /// template is set, pandoc is called without the `--template` option.
    pub template: Option<String>,
    /// Path to the reference office document whose styles are reused for
    /// ODT and DOCX output.
    pub reference: Option<String>,
    /// PDF engine to be used. Defaults to xelatex.
    pub engine: String,
    /// Additional parameters to pandoc.
    pub pandoc_options: Option<Vec<String>>,
    /// Whether the content of the input file should be fed into the Tera
    /// templating engine.
    pub do_tera: bool,
    /// Optional template context aka. variables etc.
    pub tera_context: Option<serde_json::Value>,
    /// Whether newline should break text in description texts. This is
    /// especially useful when using description lists for screen- and
    /// stageplays.
    pub break_description: bool,
    /// Path to the bibliography file.
    pub bibliography: Option<String>,
    /// Path to the citation style file.
    pub csl: Option<String>,
}

impl Metadata {
    /// Well-formedness: every declared path field is an absolute path.
    pub open spec fn wf(&self) -> bool {
        &&& (self.template matches Some(t) ==> is_absolute_path(t@))
        &&& (self.reference matches Some(t) ==> is_absolute_path(t@))
        &&& (self.bibliography matches Some(t) ==> is_absolute_path(t@))
        &&& (self.csl matches Some(t) ==> is_absolute_path(t@))
    }

    /// Takes the path to the template file and returns a normalized
    /// absolute path, resolved against the given working directory. Also
    /// tests whether the file exists.
    pub fn normalize_test_template(path: &str, wd: &str) -> (r: Result<String, SmoothError>)
        ensures
            is_absolute_path(wd@) && r is Ok ==> is_absolute_path(r->Ok_0@),
            plain_path(path@) ==> ((r is Ok && r->Ok_0@ == plain_norm(path@, wd@)) || (r
                matches Err(SmoothError::TemplateNotFound(p)) && p@ == plain_norm(path@, wd@))),
            r matches Err(e) ==> (e is NormalizeError || e is TemplateNotFound),
    {
        let rsl = match normalize_path(path, Some(wd)) {
            Ok(x) => x,
            Err(e) => {
                return Err(SmoothError::NormalizeError(e));
            },
        };
        if path_exists(rsl.as_str()) {
            Ok(rsl)
        } else {
            Err(SmoothError::TemplateNotFound(rsl))
        }
    }

    /// Takes the path to the bibliography file and returns a normalized
    /// absolute path, resolved against the given working directory. Also
    /// tests whether the file exists.
    pub fn normalize_test_bibliography(path: &str, wd: &str) -> (r: Result<String, SmoothError>)
        ensures
            is_absolute_path(wd@) && r is Ok ==> is_absolute_path(r->Ok_0@),
            plain_path(path@) ==> ((r is Ok && r->Ok_0@ == plain_norm(path@, wd@)) || (r
                matches Err(SmoothError::BibliographyNotFound(p)) && p@ == plain_norm(
                    path@,
                    wd@,
                ))),
            r matches Err(e) ==> (e is NormalizeError || e is BibliographyNotFound),
    {
        let rsl = match normalize_path(path, Some(wd)) {
            Ok(x) => x,
            Err(e) => {
                return Err(SmoothError::NormalizeError(e));
            },
        };
        if path_exists(rsl.as_str()) {
            Ok(rsl)
        } else {
            Err(SmoothError::BibliographyNotFound(rsl))
        }
    }

    /// Takes the path to the citation style file and returns a normalized
    /// absolute path, resolved against the given working directory. Also
    /// tests whether the file exists.
    pub fn normalize_test_csl(path: &str, wd: &str) -> (r: Result<String, SmoothError>)
        ensures
            is_absolute_path(wd@) && r is Ok ==> is_absolute_path(r->Ok_0@),
            plain_path(path@) ==> ((r is Ok && r->Ok_0@ == plain_norm(path@, wd@)) || (r
                matches Err(SmoothError::CitationStyleNotFound(p)) && p@ == plain_norm(
                    path@,
                    wd@,
                ))),
            r matches Err(e) ==> (e is NormalizeError || e is CitationStyleNotFound),
    {
        let rsl = match normalize_path(path, Some(wd)) {
            Ok(x) => x,
            Err(e) => {
                return Err(SmoothError::NormalizeError(e));
            },
        };
        if path_exists(rsl.as_str()) {
            Ok(rsl)
        } else {
            Err(SmoothError::CitationStyleNotFound(rsl))
        }
    }

    /// Post-processes a parsed header into the immutable metadata record:
    /// the reference field is held against the output format's expected
    /// extensions first, then every declared path field is normalized
    /// against the working directory and existence-checked, and absent
    /// fields fall back to their defaults.
    pub fn build(header: Header, wd: &str, format: &OutputFormat) -> (r: Result<
        Metadata,
        SmoothError,
    >)
        ensures
            header.template is None && header.reference is None && header.engine is None
                && header.pandoc_options is None && header.do_tera is None && header.tera_context
                is None && header.break_description is None && header.bibliography is None
                && header.csl is None ==> (r matches Ok(m) && m.template is None && m.reference
                is None && m.engine@ == "xelatex"@ && m.pandoc_options is None && m.do_tera
                == false && m.tera_context is None && m.break_description == false
                && m.bibliography is None && m.csl is None),
            header.reference is Some && plain_path(header.reference->0@)
                && !compatible_reference(plain_norm(header.reference->0@, wd@), *format) ==> (r
                matches Err(SmoothError::IncompatibleReferenceFile(f, d)) && f@ == plain_norm(
                header.reference->0@,
                wd@,
            ) && d@ == format.spec_extension()),
            r matches Err(SmoothError::IncompatibleReferenceFile(f, _)) ==> (header.reference
                is Some && !compatible_reference(f@, *format)),
            r matches Err(e) ==> (e is NormalizeError || e is IncompatibleReferenceFile || e
                is ReferenceNotFound || e is TemplateNotFound || e is BibliographyNotFound || e
                is CitationStyleNotFound),
            r matches Err(SmoothError::TemplateNotFound(_)) ==> header.template is Some,
            r matches Err(SmoothError::ReferenceNotFound(_)) ==> header.reference is Some,
            r matches Err(SmoothError::BibliographyNotFound(_)) ==> header.bibliography is Some,
            r matches Err(SmoothError::CitationStyleNotFound(_)) ==> header.csl is Some,
            r is Ok ==> r->Ok_0.engine@ == (match header.engine {
                Some(e) => e@,
                None => "xelatex"@,
            }),
            r is Ok ==> r->Ok_0.do_tera == (match header.do_tera {
                Some(b) => b,
                None => false,
            }),
            r is Ok ==> r->Ok_0.break_description == (match header.break_description {
                Some(b) => b,
                None => false,
            }),
            r is Ok ==> (match header.pandoc_options {
                Some(o) => r->Ok_0.pandoc_options matches Some(v) && v.deep_view() == split_ws_spec(
                    o@,
                    0,
                ),
                None => r->Ok_0.pandoc_options is None,
            }),
            r is Ok ==> (r->Ok_0.template is Some <==> header.template is Some),
            r is Ok ==> (r->Ok_0.tera_context is Some <==> header.tera_context is Some),
            r is Ok ==> (r->Ok_0.reference is Some <==> header.reference is Some),
            r is Ok ==> (r->Ok_0.bibliography is Some <==> header.bibliography is Some),
            r is Ok ==> (r->Ok_0.csl is Some <==> header.csl is Some),
            r is Ok && header.template is Some && plain_path(header.template->0@)
                ==> r->Ok_0.template->0@ == plain_norm(header.template->0@, wd@),
            r is Ok && header.reference is Some && plain_path(header.reference->0@)
                ==> r->Ok_0.reference->0@ == plain_norm(header.reference->0@, wd@)
                && compatible_reference(plain_norm(header.reference->0@, wd@), *format),
            r is Ok && header.bibliography is Some && plain_path(header.bibliography->0@)
                ==> r->Ok_0.bibliography->0@ == plain_norm(header.bibliography->0@, wd@),
            r is Ok && header.csl is Some && plain_path(header.csl->0@) ==> r->Ok_0.csl->0@
                == plain_norm(header.csl->0@, wd@),
            is_absolute_path(wd@) && r is Ok ==> r->Ok_0.wf(),
    {
        let reference = match header.reference {
            Some(p) => {
                let norm = match normalize_path(p.as_str(), Some(wd)) {
                    Ok(x) => x,
                    Err(e) => {
                        return Err(SmoothError::NormalizeError(e));
                    },
                };
                if !check_reference_compatibility(norm.as_str(), format) {
                    return Err(
                        SmoothError::IncompatibleReferenceFile(
                            norm,
                            format.extension().to_owned(),
                        ),
                    );
                }
                if !path_exists(norm.as_str()) {
                    return Err(SmoothError::ReferenceNotFound(norm));
                }
                Some(norm)
            },
            None => None,
        };
        let template = match header.template {
            Some(p) => Some(Self::normalize_test_template(p.as_str(), wd)?),
            None => None,
        };
        let bibliography = match header.bibliography {
            Some(p) => Some(Self::normalize_test_bibliography(p.as_str(), wd)?),
            None => None,
        };
        let csl = match header.csl {
            Some(p) => Some(Self::normalize_test_csl(p.as_str(), wd)?),
            None => None,
        };
        Ok(
            Metadata {
                template,
                reference,
                engine: match header.engine {
                    Some(e) => e,
                    None => default_engine(),
                },
                pandoc_options: match header.pandoc_options {
                    Some(o) => Some(split_options(o.as_str())),
                    None => None,
                },
                do_tera: match header.do_tera {
                    Some(b) => b,
                    None => default_do_tera(),
                },
                tera_context: header.tera_context,
                break_description: match header.break_description {
                    Some(b) => b,
                    None => default_break_description(),
                },
                bibliography,
                csl,
            },
        )
    }

    /// Tries to read the front matter of a document, as the external
    /// processor emitted it, into a validated metadata record. Takes the raw
    /// JSON text that the processor printed, the parent directory of the
    /// source document (against which relative paths are resolved), and the
    /// requested output format. The parse-failure error comes exactly when
    /// the text does not parse as a header object; on success every field
    /// follows the header as `build` states it.
    pub fn from(raw: &str, wd: &str, format: &OutputFormat) -> (r: Result<Metadata, SmoothError>)
        ensures
            r matches Err(SmoothError::MetadataParseFailure(_)) <==> !json_header_ok(raw@),
            json_header_ok(raw@) && hdr_template(raw@) is None && hdr_reference(raw@) is None
                && hdr_engine(raw@) is None && hdr_options(raw@) is None && hdr_do_tera(raw@)
                is None && !hdr_context(raw@) && hdr_break_description(raw@) is None
                && hdr_bibliography(raw@) is None && hdr_csl(raw@) is None ==> (r matches Ok(m)
                && m.template is None && m.reference is None && m.engine@ == "xelatex"@
                && m.pandoc_options is None && m.do_tera == false && m.tera_context is None
                && m.break_description == false && m.bibliography is None && m.csl is None),
            r is Ok ==> r->Ok_0.engine@ == (match hdr_engine(raw@) {
                Some(e) => e,
                None => "xelatex"@,
            }),
            r is Ok ==> r->Ok_0.do_tera == (match hdr_do_tera(raw@) {
                Some(b) => b,
                None => false,
            }),
            r is Ok ==> r->Ok_0.break_description == (match hdr_break_description(raw@) {
                Some(b) => b,
                None => false,
            }),
            r is Ok ==> (match hdr_options(raw@) {
                Some(o) => r->Ok_0.pandoc_options matches Some(v) && v.deep_view()
                    == split_ws_spec(o, 0),
                None => r->Ok_0.pandoc_options is None,
            }),
            r is Ok ==> (r->Ok_0.template is Some <==> hdr_template(raw@) is Some),
            r is Ok ==> (r->Ok_0.reference is Some <==> hdr_reference(raw@) is Some),
            r is Ok ==> (r->Ok_0.bibliography is Some <==> hdr_bibliography(raw@) is Some),
            r is Ok ==> (r->Ok_0.csl is Some <==> hdr_csl(raw@) is Some),
            r is Ok ==> (r->Ok_0.tera_context is Some <==> hdr_context(raw@)),
            r is Ok && hdr_template(raw@) is Some && plain_path(hdr_template(raw@)->0)
                ==> r->Ok_0.template->0@ == plain_norm(hdr_template(raw@)->0, wd@),
            r is Ok && hdr_reference(raw@) is Some && plain_path(hdr_reference(raw@)->0)
                ==> r->Ok_0.reference->0@ == plain_norm(hdr_reference(raw@)->0, wd@)
                && compatible_reference(plain_norm(hdr_reference(raw@)->0, wd@), *format),
            r is Ok && hdr_bibliography(raw@) is Some && plain_path(hdr_bibliography(raw@)->0)
                ==> r->Ok_0.bibliography->0@ == plain_norm(hdr_bibliography(raw@)->0, wd@),
            r is Ok && hdr_csl(raw@) is Some && plain_path(hdr_csl(raw@)->0) ==> r->Ok_0.csl->0@
                == plain_norm(hdr_csl(raw@)->0, wd@),
            json_header_ok(raw@) && hdr_reference(raw@) is Some && plain_path(
                hdr_reference(raw@)->0,
            ) && !compatible_reference(plain_norm(hdr_reference(raw@)->0, wd@), *format) ==> (r
                matches Err(SmoothError::IncompatibleReferenceFile(f, d)) && f@ == plain_norm(
                hdr_reference(raw@)->0,
                wd@,
            ) && d@ == format.spec_extension()),
            r matches Err(SmoothError::IncompatibleReferenceFile(f, _)) ==> (json_header_ok(raw@)
                && hdr_reference(raw@) is Some && !compatible_reference(f@, *format)),
            r matches Err(e) ==> (e is MetadataParseFailure || e is NormalizeError || e
                is IncompatibleReferenceFile || e is ReferenceNotFound || e is TemplateNotFound
                || e is BibliographyNotFound || e is CitationStyleNotFound),
            is_absolute_path(wd@) && r is Ok ==> r->Ok_0.wf(),
    {
        let header = match parse_header(raw) {
            Ok(x) => x,
            Err(e) => {
                return Err(SmoothError::MetadataParseFailure(e));
            },
        };
        Metadata::build(header, wd, format)
    }
}

/// Fails fast when the deterministic scratch path already holds a file:
/// stale state from a concurrent or crashed prior run is not silently
/// overwritten, and is not removed either.
pub fn ensure_template_absent(path: &str) -> (r: Result<(), SmoothError>)
    ensures
        r is Ok || (r matches Err(SmoothError::JsonTemplateExists(p)) && p@ == path@),
{
    if path_exists(path) {
        Err(SmoothError::JsonTemplateExists(path.to_owned()))
    } else {
        Ok(())
    }
}

/// Combines the outcome of the extraction call with the outcome of the
/// unconditional removal of the scratch template afterwards: a removal
/// failure is itself reported, but never masks an error of the extraction
/// itself.
pub fn finish_extraction(primary: Result<String, SmoothError>, removal: Result<
    (),
    SmoothError,
>) -> (r: Result<String, SmoothError>)
    ensures
        primary is Err ==> r == primary,
        primary is Ok && removal is Ok ==> r == primary,
        primary is Ok && removal is Err ==> (r matches Err(re) && re == removal->Err_0),
{
    match primary {
        Err(e) => Err(e),
        Ok(v) => match removal {
            Ok(()) => Ok(v),
            Err(e) => Err(e),
        },
    }
}

} // verus!
