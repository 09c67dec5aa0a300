//! Behaviour of the document, the converter command builders and the
//! outcome classification.
use std::io::Write;

use rsmooth::OutputFormat;
use rsmooth::error::SmoothError;
use rsmooth::example::Example;
use rsmooth::file::File;
use rsmooth::libreoffice::LibreOffice;
use rsmooth::libreoffice::LibreOfficeError;
use rsmooth::m4::M4Error;
use rsmooth::metadata::Header;
use rsmooth::metadata::Metadata;
use rsmooth::pandoc::Pandoc;
use rsmooth::pandoc::PandocError;
use rsmooth::pandoc::ProcessOutcome;
use rsmooth::pandoc::check_path;
use rsmooth::templating::TemplatingError;

fn empty_header() -> Header {
    Header {
        template: None,
        reference: None,
        engine: None,
        pandoc_options: None,
        do_tera: None,
        tera_context: None,
        break_description: None,
        bibliography: None,
        csl: None,
    }
}

fn default_metadata() -> Metadata {
    Metadata::build(empty_header(), "/tmp", &OutputFormat::Pdf).unwrap()
}

#[test]
fn out_path_replaces_the_extension() {
    assert_eq!(File::out_path_from_input("doc.md", &OutputFormat::Pdf), "doc.pdf");
    assert_eq!(File::out_path_from_input("doc.md", &OutputFormat::Odt), "doc.odt");
    assert_eq!(File::out_path_from_input("doc.md", &OutputFormat::Docx), "doc.docx");
    assert_eq!(
        File::out_path_from_input("/a/b.c/doc.md", &OutputFormat::Pdf),
        "/a/b.c/doc.pdf"
    );
    assert_eq!(File::out_path_from_input("/a/noext", &OutputFormat::Pdf), "/a/noext.pdf");
    assert_eq!(
        File::out_path_from_input("/a/.hidden", &OutputFormat::Pdf),
        "/a/.hidden.pdf"
    );
}

#[test]
fn new_file_defaults_the_output_path() {
    let dir = tempfile::tempdir().unwrap();
    let base = dir.path().to_str().unwrap().to_string();
    let mut doc = tempfile::Builder::new()
        .suffix(".md")
        .tempfile_in(dir.path())
        .unwrap();
    doc.write_all(b"# hi").unwrap();
    let doc_path = doc.path().to_str().unwrap().to_string();
    let stem = doc_path.strip_suffix(".md").unwrap();

    let f = File::new(&doc_path, None, OutputFormat::Pdf, Some(&base)).unwrap();
    assert_eq!(f.path, doc_path);
    assert_eq!(f.output_path, format!("{}.pdf", stem));

    let f = File::new(&doc_path, None, OutputFormat::Odt, Some(&base)).unwrap();
    assert_eq!(f.output_path, format!("{}.odt", stem));

    let f = File::new(&doc_path, Some("/out/final.pdf"), OutputFormat::Pdf, Some(&base)).unwrap();
    assert_eq!(f.output_path, "/out/final.pdf");
}

#[test]
fn missing_input_file_is_reported() {
    let r = File::new("/surely/not/there.md", None, OutputFormat::Pdf, None);
    match r {
        Err(SmoothError::InputFileNotFound(given, normalized)) => {
            assert_eq!(given, "/surely/not/there.md");
            assert_eq!(normalized, "/surely/not/there.md");
        }
        other => panic!("expected a missing input file, got {:?}", other),
    }
}

#[test]
fn prepare_content_without_templating_only_expands_links() {
    let f = File {
        path: "/base/doc.md".to_string(),
        output_path: "/base/doc.pdf".to_string(),
        output_format: OutputFormat::Pdf,
    };
    let m = default_metadata();
    let r = f
        .prepare_content(&m, "text ![a](img.png) more".to_string())
        .unwrap();
    assert_eq!(r, "text ![a](/base/img.png) more");
}

#[test]
fn prepare_content_round_trip_without_directives_or_links() {
    let f = File {
        path: "/base/doc.md".to_string(),
        output_path: "/base/doc.pdf".to_string(),
        output_format: OutputFormat::Pdf,
    };
    let m = default_metadata();
    let content = "# Title\n\nPlain paragraph with [a link](x.md), code `(y)` and text.\n";
    let r = f.prepare_content(&m, content.to_string()).unwrap();
    assert_eq!(r, content);
}

#[test]
fn extraction_args_take_template_and_input() {
    let p = Pandoc::new(None);
    assert_eq!(p.0, "pandoc");
    let args = p.extraction_args("/w/doc.md", "/tmp/h.tpl").unwrap();
    assert_eq!(args, vec!["--template", "/tmp/h.tpl", "/w/doc.md"]);
}

#[test]
fn relative_paths_are_an_internal_error() {
    let p = Pandoc::new(None);
    match p.extraction_args("doc.md", "/tmp/h.tpl") {
        Err(PandocError::RelativePath(path, purpose)) => {
            assert_eq!(path, "doc.md");
            assert_eq!(purpose, "input");
        }
        other => panic!("expected a relative path error, got {:?}", other),
    }
    match check_path("x/y", "template") {
        Err(PandocError::RelativePath(path, purpose)) => {
            assert_eq!(path, "x/y");
            assert_eq!(purpose, "template");
        }
        other => panic!("expected a relative path error, got {:?}", other),
    }
    assert!(check_path("/x/y", "template").is_ok());
}

#[test]
fn conversion_args_for_a_plain_pdf_run() {
    let p = Pandoc::new(None);
    let m = default_metadata();
    let args = p
        .conversion_args("/tmp/in.md", &m, "/w/out.pdf", Some("/w"), false)
        .unwrap();
    assert_eq!(
        args,
        vec![
            "/tmp/in.md",
            "--pdf-engine",
            "xelatex",
            "--wrap=preserve",
            "--resource-path",
            "/w",
            "-o",
            "/w/out.pdf",
        ]
    );
}

#[test]
fn conversion_args_with_every_field_set() {
    let p = Pandoc::new(Some("pandoc-3".to_string()));
    assert_eq!(p.0, "pandoc-3");
    let m = Metadata {
        template: Some("/w/t.tex".to_string()),
        reference: Some("/w/r.docx".to_string()),
        engine: "lualatex".to_string(),
        pandoc_options: Some(vec!["--toc".to_string(), "-V".to_string()]),
        do_tera: false,
        tera_context: None,
        break_description: false,
        bibliography: Some("/w/refs.json".to_string()),
        csl: Some("/w/style.csl".to_string()),
    };
    let args = p
        .conversion_args("/tmp/in.md", &m, "/w/out.docx", Some("/w"), true)
        .unwrap();
    assert_eq!(
        args,
        vec![
            "/tmp/in.md",
            "--pdf-engine",
            "lualatex",
            "--wrap=preserve",
            "--template",
            "/w/t.tex",
            "--toc",
            "-V",
            "--filter",
            "pandoc-citeproc",
            "--bibliography",
            "/w/refs.json",
            "--reference-doc",
            "/w/r.docx",
            "--resource-path",
            "/w",
            "-o",
            "/w/out.docx",
        ]
    );
}

#[test]
fn office_reference_is_left_out_of_pdf_runs() {
    let p = Pandoc::new(None);
    let mut m = default_metadata();
    m.reference = Some("/w/r.docx".to_string());
    let args = p
        .conversion_args("/tmp/in.md", &m, "/w/out.pdf", None, false)
        .unwrap();
    assert!(!args.contains(&"--reference-doc".to_string()));
}

#[test]
fn file_dispatches_on_the_output_format() {
    let dir = tempfile::tempdir().unwrap();
    let base = dir.path().to_str().unwrap().to_string();
    let f = File {
        path: format!("{}/doc.md", base),
        output_path: format!("{}/doc.odt", base),
        output_format: OutputFormat::Odt,
    };
    let mut m = default_metadata();
    m.reference = Some("/w/r.odt".to_string());
    let args = f
        .conversion_args(&Pandoc::new(None), &m, "/tmp/prepared.md")
        .unwrap();
    assert!(args.contains(&"--reference-doc".to_string()));
    assert!(args.contains(&"--resource-path".to_string()));
    assert!(args.contains(&base));
}

#[test]
fn missing_executable_is_distinguishable_from_failure() {
    let r = Pandoc::output_to_result(
        ProcessOutcome::NotFound,
        "pandoc".to_string(),
        false,
        "/in".to_string(),
        "/out".to_string(),
        None,
    );
    match r {
        Err(PandocError::NotFound(bin)) => {
            assert_eq!(bin, "pandoc");
        }
        other => panic!("expected the executable to be missing, got {:?}", other),
    }

    let r = Pandoc::output_to_result(
        ProcessOutcome::Exited {
            success: false,
            stdout: Some(String::new()),
            stderr: "boom".to_string(),
        },
        "pandoc".to_string(),
        false,
        "/in".to_string(),
        "/out".to_string(),
        Some("/t.tex".to_string()),
    );
    match r {
        Err(PandocError::ExecutionFailed(info)) => {
            let msg = info.message();
            assert!(msg.contains("boom"));
            assert!(msg.contains("/in"));
            assert!(msg.contains("/t.tex"));
        }
        other => panic!("expected an execution failure, got {:?}", other),
    }
}

#[test]
fn successful_run_hands_back_stdout() {
    let r = Pandoc::output_to_result(
        ProcessOutcome::Exited {
            success: true,
            stdout: Some("{\"engine\": \"xelatex\"}".to_string()),
            stderr: String::new(),
        },
        "pandoc".to_string(),
        true,
        "/in".to_string(),
        String::new(),
        None,
    );
    assert_eq!(r.unwrap(), "{\"engine\": \"xelatex\"}");

    let r = Pandoc::output_to_result(
        ProcessOutcome::Exited { success: true, stdout: None, stderr: String::new() },
        "pandoc".to_string(),
        true,
        "/in".to_string(),
        String::new(),
        None,
    );
    assert!(matches!(r, Err(PandocError::StringFromUtf8)));

    let r = Pandoc::output_to_result(
        ProcessOutcome::SpawnFailed("permission denied".to_string()),
        "pandoc".to_string(),
        false,
        "/in".to_string(),
        "/out".to_string(),
        None,
    );
    match r {
        Err(PandocError::CallFailed(m)) => assert_eq!(m, "permission denied"),
        other => panic!("expected a spawn failure, got {:?}", other),
    }
}

#[test]
fn pandoc_not_found_messages() {
    let default_err = PandocError::NotFound("pandoc".to_string());
    let named_err = PandocError::NotFound("pandoc-3".to_string());
    assert_eq!(
        default_err.message(),
        "couldn't find \"pandoc\" on your system, use the env \"PANDOC_CMD\" to use an non default executable name"
    );
    assert_eq!(
        named_err.message(),
        "couldn't find pandoc with the executable name \"pandoc-3\" use env \"PANDOC_CMD\" to specify otherwise"
    );
}

#[test]
fn libreoffice_arguments_and_outcome() {
    let lo = LibreOffice::new(None);
    assert_eq!(lo.0, "soffice");
    let args = lo.pdf_args("/w/doc.odt");
    assert_eq!(
        args,
        vec![
            "--headless",
            "--convert-to",
            "pdf:writer_pdf_Export",
            "-env:UserInstallation=file:///tmp/LibreOffice_Conversion_${USER}",
            "/w/doc.odt",
        ]
    );
    let ok = LibreOffice::outcome_to_result(
        ProcessOutcome::Exited { success: true, stdout: None, stderr: String::new() },
        "soffice".to_string(),
        "/w/doc.odt".to_string(),
        "/w/doc.pdf".to_string(),
    );
    assert!(ok.is_ok());
    let missing = LibreOffice::outcome_to_result(
        ProcessOutcome::NotFound,
        "soffice".to_string(),
        "/w/doc.odt".to_string(),
        "/w/doc.pdf".to_string(),
    );
    match missing {
        Err(LibreOfficeError::NotFound(bin)) => assert_eq!(bin, "soffice"),
        other => panic!("expected the executable to be missing, got {:?}", other),
    }
    let failed = LibreOfficeError::ExecutionFailed(
        "/w/doc.odt".to_string(),
        "/w/doc.pdf".to_string(),
        "broken".to_string(),
    );
    assert_eq!(failed.message(), "couldn't convert /w/doc.odt to /w/doc.pdf, broken");
}

#[test]
fn m4_and_templating_messages() {
    assert_eq!(
        M4Error::NotFound("m4".to_string()).message(),
        "couldn't find \"m4\" on your system, use the env \"M4_CMD\" to use an non default executable name"
    );
    assert_eq!(M4Error::ExecutionFailed("oops".to_string()).message(), "m4 failed with oops");
    assert_eq!(
        TemplatingError::Tera("broken".to_string()).message(),
        "tera error broken"
    );
}

#[test]
fn example_document_carries_the_header_fields() {
    let content = Example::as_string().unwrap();
    assert!(content.starts_with("---\n"));
    assert!(content.contains("engine: xelatex"));
    assert!(content.contains("do_tera: true"));
    assert_eq!(content, Example::content());
}

#[test]
fn full_filter_chain_with_templating_and_links() {
    let dir = tempfile::tempdir().unwrap();
    let base = dir.path().to_str().unwrap().to_string();
    let f = File {
        path: format!("{}/doc.md", base),
        output_path: format!("{}/doc.pdf", base),
        output_format: OutputFormat::Pdf,
    };
    let mut map = serde_json::Map::new();
    map.insert(
        "city".to_string(),
        serde_json::Value::String("Basel".to_string()),
    );
    let mut m = default_metadata();
    m.do_tera = true;
    m.tera_context = Some(serde_json::Value::Object(map));
    let r = f
        .prepare_content(&m, "{{ city }} skyline: ![view](img/sky.png)".to_string())
        .unwrap();
    assert_eq!(r, format!("Basel skyline: ![view]({}/img/sky.png)", base));
}

#[test]
fn relative_metadata_paths_are_an_internal_error() {
    let p = Pandoc::new(None);
    let mut m = default_metadata();
    m.template = Some("tpl/t.tex".to_string());
    match p.conversion_args("/tmp/in.md", &m, "/w/out.pdf", Some("/w"), false) {
        Err(PandocError::RelativePath(path, purpose)) => {
            assert_eq!(path, "tpl/t.tex");
            assert_eq!(purpose, "template");
        }
        other => panic!("expected a relative path error, got {:?}", other),
    }
    let mut m = default_metadata();
    m.bibliography = Some("refs.json".to_string());
    match p.conversion_args("/tmp/in.md", &m, "/w/out.pdf", None, false) {
        Err(PandocError::RelativePath(path, purpose)) => {
            assert_eq!(path, "refs.json");
            assert_eq!(purpose, "bibliography");
        }
        other => panic!("expected a relative path error, got {:?}", other),
    }
    let mut m = default_metadata();
    m.reference = Some("r.odt".to_string());
    match p.conversion_args("/tmp/in.md", &m, "/w/out.odt", None, true) {
        Err(PandocError::RelativePath(path, purpose)) => {
            assert_eq!(path, "r.odt");
            assert_eq!(purpose, "reference");
        }
        other => panic!("expected a relative path error, got {:?}", other),
    }
    // Outside the office code path the reference is not handed over, so it
    // is not guarded either.
    let mut m = default_metadata();
    m.reference = Some("r.odt".to_string());
    assert!(p.conversion_args("/tmp/in.md", &m, "/w/out.pdf", None, false).is_ok());
}

#[test]
fn templating_is_the_identity_on_directive_free_content() {
    let dir = tempfile::tempdir().unwrap();
    let base = dir.path().to_str().unwrap().to_string();
    let f = File {
        path: format!("{}/doc.md", base),
        output_path: format!("{}/doc.pdf", base),
        output_format: OutputFormat::Pdf,
    };
    let mut m = default_metadata();
    m.do_tera = true;
    let content = "# Title\n\nA plain paragraph, one { brace and } another.\n";
    let r = f.prepare_content(&m, content.to_string()).unwrap();
    assert_eq!(r, content);
}
