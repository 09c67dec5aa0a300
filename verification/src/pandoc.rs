//! This module prepares the calls to pandoc and interprets their outcome.
use crate::metadata::Metadata;
use crate::util::is_absolute;
use crate::util::is_absolute_path;
use crate::util::str_eq;

use vstd::prelude::*;

verus! {

/// Default name of the pandoc executable. Used when no other name is handed
/// over from the `PANDOC_CMD` environment variable.
pub const PANDOC_CMD: &'static str = "pandoc";

/// Name of the environment variable which determines the name of the pandoc
/// executable.
pub const PANDOC_ENV: &'static str = "PANDOC_CMD";

/// The observable outcome of running an external command: the process either
/// could not be started, or ran to completion with an exit status and its
/// captured output streams.
#[derive(Debug)]
pub enum ProcessOutcome {
    /// The executable was not found on the system.
    NotFound,
    /// The process could not be spawned for another reason; holds the text of
    /// the underlying OS error.
    SpawnFailed(String),
    /// The process ran to completion. `stdout` is `None` when the captured
    /// standard output was not valid UTF-8.
    Exited { success: bool, stdout: Option<String>, stderr: String },
}

/// Contains information about the calling of the pandoc command. Used to
/// accompany error messages when the pandoc execution fails.
#[derive(Debug)]
pub struct DebugInfo {
    /// Source file.
    pub input: String,
    /// Path to the template file.
    pub template: Option<String>,
    /// Output file.
    pub output: String,
    /// Pandoc stderr.
    pub err: String,
    /// States whether pandoc was called for extracting the metadata in the
    /// header or not. This alters the error message.
    pub tried_extracting_header: bool,
}

impl DebugInfo {
    /// The text that `message` returns.
    pub open spec fn spec_message(&self) -> Seq<char> {
        if self.tried_extracting_header {
            "pandoc failed to extract header metadata from \""@ + self.input@ + "\" "@ + self.err@
        } else {
            "pandoc failed to convert \""@ + self.input@ + "\" to \""@ + self.output@
                + "\" with template \""@ + (match self.template {
                Some(ref t) => t@,
                None => "<undefined>"@,
            }) + "\" "@ + self.err@
        }
    }

    /// Renders the failure as a single human-readable line.
    pub fn message(&self) -> (r: String)
        ensures
            r@ == self.spec_message(),
    {
        if self.tried_extracting_header {
            let mut r = String::from_str("pandoc failed to extract header metadata from \"");
            r.append(self.input.as_str());
            r.append("\" ");
            r.append(self.err.as_str());
            proof {
                assert(r@ =~= self.spec_message());
            }
            r
        } else {
            let mut r = String::from_str("pandoc failed to convert \"");
            r.append(self.input.as_str());
            r.append("\" to \"");
            r.append(self.output.as_str());
            r.append("\" with template \"");
            match self.template {
                Some(ref t) => r.append(t.as_str()),
                None => r.append("<undefined>"),
            }
            r.append("\" ");
            r.append(self.err.as_str());
            proof {
                assert(r@ =~= self.spec_message());
            }
            r
        }
    }
}

/// Defines the different kinds of pandoc errors.
#[derive(Debug)]
pub enum PandocError {
    /// The pandoc executable wasn't found on the system. Contains the used
    /// name for the pandoc executable.
    NotFound(String),
    /// The methods of a Pandoc instance only accept absolute paths as
    /// argument. Hereby the current working directory cannot interfere with
    /// the execution of pandoc. All public Pandoc methods check whether a
    /// path argument is absolute. Contains the erroneous path and a
    /// description of its purpose.
    RelativePath(String, String),
    /// Couldn't convert the bytes from the pandoc stdout to a string.
    StringFromUtf8,
    /// The execution of pandoc failed. Contains the DebugInfo structure.
    ExecutionFailed(DebugInfo),
    /// Couldn't call the pandoc command but the executable is on the system
    /// with the used name, thus not a NotFound error. Holds the text of the
    /// underlying OS error.
    CallFailed(String),
}

impl PandocError {
    /// The text that `message` returns.
    pub open spec fn spec_message(&self) -> Seq<char> {
        match self {
            PandocError::NotFound(executable) => if executable@ == PANDOC_CMD@ {
                "couldn't find \"pandoc\" on your system, use the env \"PANDOC_CMD\" to use an non default executable name"@
            } else {
                "couldn't find pandoc with the executable name \""@ + executable@
                    + "\" use env \"PANDOC_CMD\" to specify otherwise"@
            },
            PandocError::RelativePath(path, purpose) => "internal error, pandoc module was called with an relative "@
                + purpose@ + " path "@ + path@ + ", only absolute paths allowed"@,
            PandocError::StringFromUtf8 => "couldn't convert standard output (stdout) from pandoc"@,
            PandocError::ExecutionFailed(info) => info.spec_message(),
            PandocError::CallFailed(err) => "couldn't call pandoc "@ + err@,
        }
    }

    /// Renders the error as a single human-readable line.
    pub fn message(&self) -> (r: String)
        ensures
            r@ == self.spec_message(),
    {
        match self {
            PandocError::NotFound(executable) => {
                if str_eq(executable.as_str(), PANDOC_CMD) {
                    String::from_str(
                        "couldn't find \"pandoc\" on your system, use the env \"PANDOC_CMD\" to use an non default executable name",
                    )
                } else {
                    let mut r = String::from_str("couldn't find pandoc with the executable name \"");
                    r.append(executable.as_str());
                    r.append("\" use env \"PANDOC_CMD\" to specify otherwise");
                    proof {
                        assert(r@ =~= self.spec_message());
                    }
                    r
                }
            },
            PandocError::RelativePath(path, purpose) => {
                let mut r = String::from_str(
                    "internal error, pandoc module was called with an relative ",
                );
                r.append(purpose.as_str());
                r.append(" path ");
                r.append(path.as_str());
                r.append(", only absolute paths allowed");
                proof {
                    assert(r@ =~= self.spec_message());
                }
                r
            },
            PandocError::StringFromUtf8 => String::from_str(
                "couldn't convert standard output (stdout) from pandoc",
            ),
            PandocError::ExecutionFailed(info) => info.message(),
            PandocError::CallFailed(err) => {
                let mut r = String::from_str("couldn't call pandoc ");
                r.append(err.as_str());
                proof {
                    assert(r@ =~= self.spec_message());
                }
                r
            },
        }
    }
}

/// Wrapper for preparing calls to pandoc. Contains the executable name for
/// pandoc.
pub struct Pandoc(pub String);

impl Pandoc {
    /// Returns a new instance of the Pandoc struct. The argument carries the
    /// value of the `PANDOC_CMD` environment variable when that variable is
    /// set; with `None` the default executable name is used.
    pub fn new(env_cmd: Option<String>) -> (r: Self)
        ensures
            r.0@ == match env_cmd {
                Some(x) => x@,
                None => PANDOC_CMD@,
            },
    {
        match env_cmd {
            Some(x) => Pandoc(x),
            None => Pandoc(String::from_str(PANDOC_CMD)),
        }
    }

    /// The argument vector for extracting the front matter of `input` as a
    /// string by rendering it through the given template: used for the
    /// extraction of the header as JSON.
    pub open spec fn spec_extraction_args(input: Seq<char>, template: Seq<char>) -> Seq<
        Seq<char>,
    > {
        seq!["--template"@, template, input]
    }

    /// Builds the argument vector for the call of pandoc which renders the
    /// front matter of the input file through the given template. Both paths
    /// must be absolute; a relative path is an internal error.
    pub fn extraction_args(&self, input: &str, template: &str) -> (r: Result<
        Vec<String>,
        PandocError,
    >)
        ensures
            is_absolute_path(input@) && is_absolute_path(template@) ==> r is Ok,
            r is Ok ==> r->Ok_0.deep_view() == Self::spec_extraction_args(input@, template@),
            !is_absolute_path(input@) ==> (r matches Err(PandocError::RelativePath(p, purpose))
                && p@ == input@ && purpose@ == "input"@),
            is_absolute_path(input@) && !is_absolute_path(template@) ==> (r matches Err(
                PandocError::RelativePath(p, purpose),
            ) && p@ == template@ && purpose@ == "template"@),
    {
        check_path(input, "input")?;
        check_path(template, "template")?;
        let mut args: Vec<String> = Vec::new();
        args.push(String::from_str("--template"));
        args.push(template.to_owned());
        args.push(input.to_owned());
        proof {
            assert(args.deep_view() =~= Self::spec_extraction_args(input@, template@));
        }
        Ok(args)
    }

    /// Checks the outcome of a pandoc call and returns the appropriate
    /// result: the captured standard output on success, and otherwise the
    /// pandoc error that describes what went wrong.
    pub fn output_to_result(
        rsl: ProcessOutcome,
        pandoc_bin: String,
        tried_extracting_header: bool,
        input: String,
        output: String,
        template: Option<String>,
    ) -> (r: Result<String, PandocError>)
        ensures
            rsl matches ProcessOutcome::Exited { success: true, stdout: Some(s), .. } ==> (r
                matches Ok(o) && o == s),
            rsl matches ProcessOutcome::Exited { success: true, stdout: None, .. } ==> r
                matches Err(PandocError::StringFromUtf8),
            rsl matches ProcessOutcome::Exited { success: false, stderr, .. } ==> (r matches Err(
                PandocError::ExecutionFailed(info),
            ) && info.input == input && info.output == output && info.template == template
                && info.err == stderr && info.tried_extracting_header == tried_extracting_header),
            rsl is NotFound ==> (r matches Err(PandocError::NotFound(b)) && b == pandoc_bin),
            rsl matches ProcessOutcome::SpawnFailed(e) ==> (r matches Err(PandocError::CallFailed(m))
                && m == e),
    {
        match rsl {
            ProcessOutcome::Exited { success, stdout, stderr } => {
                if success {
                    match stdout {
                        Some(x) => Ok(x),
                        None => Err(PandocError::StringFromUtf8),
                    }
                } else {
                    Err(
                        PandocError::ExecutionFailed(
                            DebugInfo {
                                input: input,
                                output: output,
                                template: template,
                                err: stderr,
                                tried_extracting_header: tried_extracting_header,
                            },
                        ),
                    )
                }
            },
            ProcessOutcome::NotFound => Err(PandocError::NotFound(pandoc_bin)),
            ProcessOutcome::SpawnFailed(e) => Err(PandocError::CallFailed(e)),
        }
    }
}

/// Checks whether the given path is absolute and returns the corresponding
/// PandocError otherwise.
pub fn check_path(path: &str, purpose: &str) -> (r: Result<(), PandocError>)
    ensures
        is_absolute_path(path@) ==> r is Ok,
        !is_absolute_path(path@) ==> (r matches Err(PandocError::RelativePath(p, pp)) && p@
            == path@ && pp@ == purpose@),
{
    if is_absolute(path) {
        Ok(())
    } else {
        Err(PandocError::RelativePath(path.to_owned(), purpose.to_owned()))
    }
}

/// The view of an optional path argument.
pub open spec fn opt_str_view(o: Option<&str>) -> Option<Seq<char>> {
    match o {
        Some(x) => Some(x@),
        None => None,
    }
}

impl Pandoc {
    /// The argument vector for a conversion call: the input file, the PDF
    /// engine, `--wrap=preserve`, the template if one is declared, the raw
    /// extra options, the citeproc filter with the bibliography if one is
    /// declared, for an office conversion the reference document if one is
    /// declared, the resource path if one is supplied, and the output file.
    pub open spec fn spec_conversion_args(
        m: Metadata,
        input: Seq<char>,
        output: Seq<char>,
        resource_path: Option<Seq<char>>,
        office: bool,
    ) -> Seq<Seq<char>> {
        seq![input, "--pdf-engine"@, m.engine@, "--wrap=preserve"@] + (match m.template {
            Some(t) => seq!["--template"@, t@],
            None => Seq::empty(),
        }) + (match m.pandoc_options {
            Some(o) => o.deep_view(),
            None => Seq::empty(),
        }) + (match m.bibliography {
            Some(b) => seq!["--filter"@, "pandoc-citeproc"@, "--bibliography"@, b@],
            None => Seq::empty(),
        }) + (if office {
            match m.reference {
                Some(rf) => seq!["--reference-doc"@, rf@],
                None => Seq::empty(),
            }
        } else {
            Seq::empty()
        }) + (match resource_path {
            Some(rp) => seq!["--resource-path"@, rp],
            None => Seq::empty(),
        }) + seq!["-o"@, output]
    }

    /// Builds the argument vector for converting a prepared input file to
    /// the output file under the given metadata. The `resource_path`
    /// parameter can state the folder to which relative links within the
    /// document are resolved, so that the conversion can run on a scratch
    /// file while correctly referencing the embedded links of the original
    /// document. With `office` the reference document is threaded through.
    /// Every path handed to the external processor must be absolute; a
    /// relative one — the input, the output, the resource path or a path
    /// field of the metadata — is an internal error, reported before any
    /// argument vector is built.
    #[verifier::rlimit(100)]
    pub fn conversion_args(
        &self,
        input: &str,
        metadata: &Metadata,
        output: &str,
        resource_path: Option<&str>,
        office: bool,
    ) -> (r: Result<Vec<String>, PandocError>)
        ensures
            is_absolute_path(input@) && is_absolute_path(output@) && metadata.wf() && (
            resource_path matches Some(rp) ==> is_absolute_path(rp@)) ==> r is Ok,
            r is Ok ==> r->Ok_0.deep_view() == Self::spec_conversion_args(
                *metadata,
                input@,
                output@,
                opt_str_view(resource_path),
                office,
            ),
            !is_absolute_path(input@) ==> (r matches Err(PandocError::RelativePath(p, purpose))
                && p@ == input@ && purpose@ == "input"@),
            is_absolute_path(input@) && !is_absolute_path(output@) ==> (r matches Err(
                PandocError::RelativePath(p, purpose),
            ) && p@ == output@ && purpose@ == "output"@),
            r matches Err(PandocError::RelativePath(p, _)) ==> !is_absolute_path(p@),
            r is Err ==> r->Err_0 is RelativePath,
    {
        check_path(input, "input")?;
        check_path(output, "output")?;
        match &metadata.template {
            Some(t) => {
                check_path(t.as_str(), "template")?;
            },
            None => {},
        }
        match &metadata.bibliography {
            Some(b) => {
                check_path(b.as_str(), "bibliography")?;
            },
            None => {},
        }
        if office {
            match &metadata.reference {
                Some(rf) => {
                    check_path(rf.as_str(), "reference")?;
                },
                None => {},
            }
        }
        match resource_path {
            Some(rp) => {
                check_path(rp, "resource")?;
            },
            None => {},
        }
        let ghost base = seq![input@, "--pdf-engine"@, metadata.engine@, "--wrap=preserve"@];
        let ghost tpl_seg: Seq<Seq<char>> = match &metadata.template {
            Some(t) => seq!["--template"@, t@],
            None => Seq::empty(),
        };
        let ghost opt_seg: Seq<Seq<char>> = match &metadata.pandoc_options {
            Some(o) => o.deep_view(),
            None => Seq::empty(),
        };
        let ghost bib_seg: Seq<Seq<char>> = match &metadata.bibliography {
            Some(b) => seq!["--filter"@, "pandoc-citeproc"@, "--bibliography"@, b@],
            None => Seq::empty(),
        };
        let ghost ref_seg: Seq<Seq<char>> = if office {
            match &metadata.reference {
                Some(rf) => seq!["--reference-doc"@, rf@],
                None => Seq::empty(),
            }
        } else {
            Seq::empty()
        };
        let ghost res_seg: Seq<Seq<char>> = match opt_str_view(resource_path) {
            Some(rp) => seq!["--resource-path"@, rp],
            None => Seq::empty(),
        };
        let mut args: Vec<String> = Vec::new();
        args.push(input.to_owned());
        args.push(String::from_str("--pdf-engine"));
        args.push(metadata.engine.clone());
        args.push(String::from_str("--wrap=preserve"));
        proof {
            assert(args.deep_view() =~~= base);
        }
        match &metadata.template {
            Some(t) => {
                args.push(String::from_str("--template"));
                args.push(t.clone());
            },
            None => {},
        }
        proof {
            assert(args.deep_view() =~~= base + tpl_seg);
        }
        match &metadata.pandoc_options {
            Some(opts) => {
                let mut k: usize = 0;
                while k < opts.len()
                    invariant
                        k <= opts.len(),
                        opt_seg == opts.deep_view(),
                        args.deep_view() =~~= base + tpl_seg + opt_seg.subrange(0, k as int),
                    decreases opts.len() - k,
                {
                    let ghost before = args.deep_view();
                    args.push(opts[k].clone());
                    proof {
                        assert(args.deep_view() =~~= before.push(opts@[k as int]@));
                        assert(opts@[k as int]@ == opt_seg[k as int]);
                        assert(opt_seg.subrange(0, k as int + 1) =~~= opt_seg.subrange(
                            0,
                            k as int,
                        ).push(opt_seg[k as int]));
                        assert(args.deep_view() =~~= base + tpl_seg + opt_seg.subrange(
                            0,
                            k as int + 1,
                        ));
                    }
                    k = k + 1;
                }
                proof {
                    assert(opt_seg.subrange(0, opt_seg.len() as int) =~~= opt_seg);
                }
            },
            None => {},
        }
        proof {
            assert(args.deep_view() =~~= base + tpl_seg + opt_seg);
        }
        match &metadata.bibliography {
            Some(b) => {
                args.push(String::from_str("--filter"));
                args.push(String::from_str("pandoc-citeproc"));
                args.push(String::from_str("--bibliography"));
                args.push(b.clone());
            },
            None => {},
        }
        proof {
            assert(args.deep_view() =~~= base + tpl_seg + opt_seg + bib_seg);
        }
        if office {
            match &metadata.reference {
                Some(rf) => {
                    args.push(String::from_str("--reference-doc"));
                    args.push(rf.clone());
                },
                None => {},
            }
        }
        proof {
            assert(args.deep_view() =~~= base + tpl_seg + opt_seg + bib_seg + ref_seg);
        }
        match resource_path {
            Some(rp) => {
                args.push(String::from_str("--resource-path"));
                args.push(rp.to_owned());
            },
            None => {},
        }
        proof {
            assert(args.deep_view() =~~= base + tpl_seg + opt_seg + bib_seg + ref_seg + res_seg);
        }
        args.push(String::from_str("-o"));
        args.push(output.to_owned());
        proof {
            assert(args.deep_view() =~~= Self::spec_conversion_args(
                *metadata,
                input@,
                output@,
                opt_str_view(resource_path),
                office,
            ));
        }
        Ok(args)
    }
}

} // verus!
