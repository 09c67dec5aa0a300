//! Describes the (root) markdown file which should be converted and the
//! stages of its conversion.
use crate::OutputFormat;
use crate::error::SmoothError;
use crate::filters::expand_paths::ExpandOn;
use crate::filters::expand_paths::ExpandPaths;
use crate::filters::expand_paths::no_match_from;
use crate::filters::expand_paths::paths_plain_from;
use crate::filters::expand_paths::rewrite_plain;
use crate::filters::template::Template;
use crate::filters::template::no_tera_markers;
use crate::metadata::Metadata;
use crate::metadata::json_clone;
use crate::pandoc::Pandoc;
use crate::util::is_absolute_path;
use crate::util::join_paths;
use crate::util::normalize_path;
use crate::util::parent_dir;
use crate::util::parent_of;
use crate::util::path_exists;
use crate::util::plain_path;
use crate::util::range_to_string;
use crate::util::str_to_chars;

use vstd::prelude::*;

verus! {

/// The path with its extension replaced: everything after the last `.` of
/// the final path component makes way for the given extension; a component
/// without a dot, or whose only dot leads it, gets the extension appended.
pub open spec fn spec_with_extension(s: Seq<char>, ext: Seq<char>) -> Seq<char> {
    let fstart: int = match s.index_of_last('/') {
        None => 0,
        Some(d) => d + 1,
    };
    let name = s.subrange(fstart, s.len() as int);
    match name.index_of_last('.') {
        Some(ld) => if ld > 0 {
            s.subrange(0, fstart + ld) + seq!['.'] + ext
        } else {
            s + seq!['.'] + ext
        },
        None => s + seq!['.'] + ext,
    }
}

/// True of the formats that go through the office code path.
pub open spec fn office_format(format: OutputFormat) -> bool {
    format is Odt || format is Docx
}

/// Describes the (root) markdown file which should be converted.
#[derive(Debug)]
pub struct File {
    /// Absolute path to the markdown source file.
    pub path: String,
    /// Destination path for the output file.
    pub output_path: String,
    /// Desired format of the output file.
    pub output_format: OutputFormat,
}

impl File {
    /// Takes the input path of a markdown document and returns the same
    /// path with the extension the output format implies. Used when no
    /// output path is specified.
    pub fn out_path_from_input(input: &str, format: &OutputFormat) -> (r: String)
        ensures
            r@ == spec_with_extension(input@, format.spec_extension()),
    {
        let v = str_to_chars(input);
        let n = v.len();
        let mut fstart: usize = 0;
        let mut j: usize = n;
        while j > 0 && fstart == 0
            invariant
                j <= n,
            n == input@.len(),
                v@ == input@,
                fstart == 0 ==> forall|m: int| j <= m < n ==> input@[m] != '/',
                fstart > 0 ==> fstart - 1 < n && input@[fstart - 1] == '/' && (forall|m: int|
                    fstart <= m < n ==> input@[m] != '/'),
            decreases j,
        {
            j = j - 1;
            if v[j] == '/' {
                fstart = j + 1;
            }
        }
        proof {
            input@.index_of_last_ensures('/');
            if fstart == 0 {
                assert(!input@.contains('/')) by {
                    if input@.contains('/') {
                        let w = choose|w: int|
                            0 <= w < input@.len() && input@[w] == '/';
                        assert(input@[w] != '/');
                    }
                }
            } else {
                assert(input@.contains('/')) by {
                    assert(input@[fstart - 1] == '/');
                }
                let idx = input@.index_of_last('/').unwrap();
                assert(idx == fstart - 1) by {
                    assert(input@[idx] == '/');
                    assert(forall|m: int| 0 <= idx < m < input@.len() ==> input@[m] != '/');
                }
            }
        }
        let ghost name = input@.subrange(fstart as int, n as int);
        let mut dot: usize = n;
        let mut k: usize = n;
        while k > fstart && dot == n
            invariant
                fstart <= k <= n,
                dot <= n,
                n == input@.len(),
                v@ == input@,
                dot == n ==> forall|m: int| k <= m < n ==> input@[m] != '.',
                dot < n ==> fstart <= dot && input@[dot as int] == '.' && (forall|m: int|
                    dot < m < n ==> input@[m] != '.'),
            decreases k,
        {
            k = k - 1;
            if v[k] == '.' {
                dot = k;
            }
        }
        proof {
            name.index_of_last_ensures('.');
            if dot == n {
                assert(!name.contains('.')) by {
                    if name.contains('.') {
                        let w = choose|w: int| 0 <= w < name.len() && name[w] == '.';
                        assert(input@[fstart + w] != '.');
                    }
                }
            } else {
                assert(name.contains('.')) by {
                    assert(name[dot - fstart as int] == '.');
                }
                let ld = name.index_of_last('.').unwrap();
                assert(ld == dot - fstart as int) by {
                    assert(name[ld] == '.');
                    assert(input@[fstart + ld] == '.');
                    assert(forall|m: int| 0 <= ld < m < name.len() ==> name[m] != '.');
                    if ld < dot - fstart as int {
                        assert(name[dot - fstart as int] == '.');
                    }
                    if ld > dot - fstart as int {
                        assert(input@[fstart + ld] != '.');
                    }
                }
            }
        }
        let ext = format.extension();
        if dot < n && dot > fstart {
            let mut r = range_to_string(&v, 0, dot);
            r.append(".");
            r.append(ext);
            proof {
                reveal_strlit(".");
                assert(r@ =~= spec_with_extension(input@, format.spec_extension()));
            }
            r
        } else {
            let mut r = input.to_owned();
            r.append(".");
            r.append(ext);
            proof {
                reveal_strlit(".");
                assert(r@ =~= spec_with_extension(input@, format.spec_extension()));
            }
            r
        }
    }

    /// Returns a new instance of the file object for a given path. The
    /// output path can be given; otherwise the input path with the output
    /// format's extension is used. Relative paths are resolved against the
    /// given working directory; the input file must exist.
    pub fn new(
        path: &str,
        output_path: Option<&str>,
        output_format: OutputFormat,
        wd: Option<&str>,
    ) -> (r: Result<File, SmoothError>)
        ensures
            r matches Ok(f) ==> f.output_format == output_format,
            plain_path(path@) && is_absolute_path(path@) ==> ((r matches Ok(f) && f.path@
                == path@) || (r matches Err(SmoothError::InputFileNotFound(g, nn)) && g@ == path@
                && nn@ == path@) || (r is Err && output_path is Some)),
            plain_path(path@) && is_absolute_path(path@) && output_path is None ==> (r
                matches Ok(f) ==> f.output_path@ == spec_with_extension(
                path@,
                output_format.spec_extension(),
            )),
            plain_path(path@) && !is_absolute_path(path@) && wd is Some ==> (r matches Ok(f)
                ==> f.path@ == join_paths(wd->0@, path@)),
            plain_path(path@) && !is_absolute_path(path@) && wd is Some && output_path is None
                ==> (r matches Ok(f) ==> f.output_path@ == spec_with_extension(
                join_paths(wd->0@, path@),
                output_format.spec_extension(),
            )),
            output_path is Some && plain_path(output_path->0@) && is_absolute_path(
                output_path->0@,
            ) ==> (r matches Ok(f) ==> f.output_path@ == output_path->0@),
            r matches Err(SmoothError::InputFileNotFound(g, _)) ==> g@ == path@,
    {
        let norm_in_path = match normalize_path(path, wd) {
            Ok(x) => x,
            Err(e) => {
                return Err(SmoothError::NormalizeError(e));
            },
        };
        if !path_exists(norm_in_path.as_str()) {
            return Err(SmoothError::InputFileNotFound(path.to_owned(), norm_in_path));
        }
        let out = match output_path {
            Some(x) => match normalize_path(x, wd) {
                Ok(o) => o,
                Err(e) => {
                    return Err(SmoothError::NormalizeError(e));
                },
            },
            None => File::out_path_from_input(norm_in_path.as_str(), &output_format),
        };
        Ok(File { path: norm_in_path, output_path: out, output_format })
    }

    /// The directory the source file lies in; relative references inside
    /// the document are resolved against it.
    pub fn parent_folder(&self) -> (r: Result<String, SmoothError>)
        ensures
            parent_dir(self.path@) matches Some(p) ==> (r is Ok && r->Ok_0@ == p),
            parent_dir(self.path@) is None ==> (r matches Err(SmoothError::NoParentFolder(f))
                && f@ == self.path@),
    {
        match parent_of(self.path.as_str()) {
            Some(x) => Ok(x),
            None => Err(SmoothError::NoParentFolder(self.path.clone())),
        }
    }

    /// Runs the filter chain over the source content: template expansion
    /// when the metadata asks for it, then embedded-link path expansion
    /// against the source file's directory. Content without any template
    /// directive and without any embedded link comes through the whole
    /// chain unchanged.
    pub fn prepare_content(&self, metadata: &Metadata, content: String) -> (r: Result<
        String,
        SmoothError,
    >)
        ensures
            !metadata.do_tera && parent_dir(self.path@) is Some && no_match_from(
                content@,
                0,
                ExpandOn::EmbeddedLinks,
            ) ==> r is Ok && r->Ok_0@ == content@,
            metadata.do_tera && parent_dir(self.path@) is Some && no_tera_markers(content@)
                && no_match_from(content@, 0, ExpandOn::EmbeddedLinks) ==> (r matches Ok(o) && o@
                == content@ || r is Err),
            !metadata.do_tera && parent_dir(self.path@) is Some && paths_plain_from(
                content@,
                0,
                ExpandOn::EmbeddedLinks,
            ) ==> r is Ok && r->Ok_0@ == rewrite_plain(
                content@,
                0,
                ExpandOn::EmbeddedLinks,
                parent_dir(self.path@)->0,
            ),
    {
        let mut current = content;
        if metadata.do_tera {
            let ctx = match &metadata.tera_context {
                Some(v) => Some(json_clone(v)),
                None => None,
            };
            let tpl = match Template::new(self.path.as_str(), ctx) {
                Ok(t) => t,
                Err(e) => {
                    return Err(SmoothError::Filter(e));
                },
            };
            current = match tpl.apply(current) {
                Ok(x) => x,
                Err(e) => {
                    return Err(SmoothError::Filter(e));
                },
            };
        }
        let mut expand_on: Vec<ExpandOn> = Vec::new();
        expand_on.push(ExpandOn::EmbeddedLinks);
        proof {
            assert(expand_on@ =~= seq![ExpandOn::EmbeddedLinks]);
        }
        let ep = match ExpandPaths::new(self.path.as_str(), expand_on) {
            Ok(f) => f,
            Err(e) => {
                return Err(SmoothError::Filter(e));
            },
        };
        let ghost ep_wd = ep.wd@;
        let ghost cur0 = current@;
        let rsl = match ep.apply(current) {
            Ok(x) => Ok(x),
            Err(e) => Err(SmoothError::Filter(e)),
        };
        proof {
            if parent_dir(self.path@) is Some {
                if no_match_from(cur0, 0, ExpandOn::EmbeddedLinks) {
                    assert(forall|kk: ExpandOn|
                        seq![ExpandOn::EmbeddedLinks].contains(kk) ==> no_match_from(
                            cur0,
                            0,
                            kk,
                        ));
                }
                if paths_plain_from(cur0, 0, ExpandOn::EmbeddedLinks) {
                    let kinds = seq![ExpandOn::EmbeddedLinks];
                    assert(kinds.subrange(1, 1) =~= Seq::<ExpandOn>::empty());
                    assert(kinds[0] == ExpandOn::EmbeddedLinks);
                    let once = rewrite_plain(cur0, 0, ExpandOn::EmbeddedLinks, ep_wd);
                    assert(crate::filters::expand_paths::all_plain(
                        once,
                        kinds.subrange(1, 1),
                        ep_wd,
                    ));
                    assert(crate::filters::expand_paths::all_plain(cur0, kinds, ep_wd));
                    assert(crate::filters::expand_paths::spec_apply_all(
                        once,
                        kinds.subrange(1, 1),
                        ep_wd,
                    ) == once);
                    assert(crate::filters::expand_paths::spec_apply_all(cur0, kinds, ep_wd)
                        == rewrite_plain(cur0, 0, ExpandOn::EmbeddedLinks, ep_wd));
                }
            }
        }
        rsl
    }

    /// The pandoc argument vector that converts the prepared scratch input
    /// into this document's output file: the office code path is chosen for
    /// ODT and DOCX output, and the source file's directory is threaded as
    /// the resource path.
    pub fn conversion_args(&self, pandoc: &Pandoc, metadata: &Metadata, prepared_input: &str) -> (r:
        Result<Vec<String>, SmoothError>)
        ensures
            parent_dir(self.path@) is Some && is_absolute_path(self.path@) && metadata.wf()
                && is_absolute_path(prepared_input@) && is_absolute_path(self.output_path@) ==> r
                is Ok,
            r is Ok ==> parent_dir(self.path@) is Some && r->Ok_0.deep_view()
                == Pandoc::spec_conversion_args(
                *metadata,
                prepared_input@,
                self.output_path@,
                Some(parent_dir(self.path@)->0),
                office_format(self.output_format),
            ),
            parent_dir(self.path@) is None ==> (r matches Err(SmoothError::NoParentFolder(f))
                && f@ == self.path@),
    {
        let resource = self.parent_folder()?;
        proof {
            if is_absolute_path(self.path@) {
                crate::util::lemma_parent_dir_absolute(self.path@);
            }
        }
        let office = match self.output_format {
            OutputFormat::Pdf => false,
            OutputFormat::Odt => true,
            OutputFormat::Docx => true,
        };
        match pandoc.conversion_args(
            prepared_input,
            metadata,
            self.output_path.as_str(),
            Some(resource.as_str()),
            office,
        ) {
            Ok(args) => Ok(args),
            Err(e) => Err(SmoothError::Pandoc(e)),
        }
    }
}

} // verus!
