//! Behaviour of the metadata extractor's validation.
use std::io::Write;

use rsmooth::OutputFormat;
use rsmooth::error::SmoothError;
use rsmooth::metadata::Header;
use rsmooth::metadata::JSON_TEMPLATE;
use rsmooth::metadata::JSON_TEMPLATE_PATH;
use rsmooth::metadata::Metadata;
use rsmooth::metadata::check_reference_compatibility;
use rsmooth::metadata::default_break_description;
use rsmooth::metadata::default_do_tera;
use rsmooth::metadata::default_engine;
use rsmooth::metadata::ensure_template_absent;
use rsmooth::metadata::finish_extraction;
use rsmooth::metadata::split_options;

fn empty_header() -> Header {
    Header {
        template: None,
        reference: None,
        engine: None,
        pandoc_options: None,
        do_tera: None,
        tera_context: None,
        break_description: None,
        bibliography: None,
        csl: None,
    }
}

#[test]
fn missing_front_matter_yields_all_defaults() {
    let m = Metadata::from("{}", "/tmp", &OutputFormat::Pdf).unwrap();
    assert_eq!(m.engine, "xelatex");
    assert!(!m.do_tera);
    assert!(!m.break_description);
    assert!(m.template.is_none());
    assert!(m.reference.is_none());
    assert!(m.pandoc_options.is_none());
    assert!(m.tera_context.is_none());
    assert!(m.bibliography.is_none());
    assert!(m.csl.is_none());
}

#[test]
fn defaults_functions() {
    assert_eq!(default_engine(), "xelatex");
    assert!(!default_do_tera());
    assert!(!default_break_description());
}

#[test]
fn declared_engine_is_kept() {
    let m = Metadata::from("{\"engine\": \"lualatex\"}", "/tmp", &OutputFormat::Pdf).unwrap();
    assert_eq!(m.engine, "lualatex");
}

#[test]
fn malformed_json_is_a_parse_failure() {
    let r = Metadata::from("not json at all", "/tmp", &OutputFormat::Pdf);
    assert!(matches!(r, Err(SmoothError::MetadataParseFailure(_))));
    // A JSON value that is no object is no header either.
    let r = Metadata::from("5", "/tmp", &OutputFormat::Pdf);
    assert!(matches!(r, Err(SmoothError::MetadataParseFailure(_))));
}

#[test]
fn pandoc_options_are_split_on_whitespace() {
    let m = Metadata::from(
        "{\"pandoc_options\": \"--toc  -V lang=de\\n--listings\"}",
        "/tmp",
        &OutputFormat::Pdf,
    )
    .unwrap();
    assert_eq!(
        m.pandoc_options.unwrap(),
        vec!["--toc", "-V", "lang=de", "--listings"]
    );
}

#[test]
fn split_options_handles_edges() {
    assert_eq!(split_options(""), Vec::<String>::new());
    assert_eq!(split_options("   "), Vec::<String>::new());
    assert_eq!(split_options(" a  bb "), vec!["a", "bb"]);
    // The splitter understands the whole Unicode white-space class.
    assert_eq!(split_options("a\u{a0}b\u{2003}c"), vec!["a", "b", "c"]);
}

#[test]
fn do_tera_and_break_description_are_read() {
    let m = Metadata::from(
        "{\"do_tera\": true, \"break_description\": true}",
        "/tmp",
        &OutputFormat::Pdf,
    )
    .unwrap();
    assert!(m.do_tera);
    assert!(m.break_description);
}

#[test]
fn missing_bibliography_is_reported_with_the_resolved_path() {
    let dir = tempfile::tempdir().unwrap();
    let base = dir.path().to_str().unwrap().to_string();
    let mut header = empty_header();
    header.bibliography = Some("refs.json".to_string());
    let r = Metadata::build(header, &base, &OutputFormat::Pdf);
    match r {
        Err(SmoothError::BibliographyNotFound(p)) => {
            assert_eq!(p, format!("{}/refs.json", base));
        }
        other => panic!("expected a missing bibliography, got {:?}", other),
    }
}

#[test]
fn existing_bibliography_is_resolved() {
    let dir = tempfile::tempdir().unwrap();
    let base = dir.path().to_str().unwrap().to_string();
    let mut bib = tempfile::Builder::new()
        .suffix(".json")
        .tempfile_in(dir.path())
        .unwrap();
    bib.write_all(b"[]").unwrap();
    let bib_path = bib.path().to_str().unwrap().to_string();
    let mut header = empty_header();
    header.bibliography = Some(bib_path.clone());
    let m = Metadata::build(header, &base, &OutputFormat::Pdf).unwrap();
    assert_eq!(m.bibliography.unwrap(), bib_path);
}

#[test]
fn missing_template_and_csl_have_their_own_errors() {
    let dir = tempfile::tempdir().unwrap();
    let base = dir.path().to_str().unwrap().to_string();
    let mut header = empty_header();
    header.template = Some("tpl.tex".to_string());
    let r = Metadata::build(header, &base, &OutputFormat::Pdf);
    assert!(matches!(r, Err(SmoothError::TemplateNotFound(_))));

    let mut header = empty_header();
    header.csl = Some("style.csl".to_string());
    let r = Metadata::build(header, &base, &OutputFormat::Pdf);
    match r {
        Err(SmoothError::CitationStyleNotFound(p)) => {
            assert_eq!(p, format!("{}/style.csl", base));
        }
        other => panic!("expected a missing citation style, got {:?}", other),
    }
}

#[test]
fn docx_reference_with_odt_output_is_incompatible() {
    let mut header = empty_header();
    header.reference = Some("/somewhere/styles.docx".to_string());
    let r = Metadata::build(header, "/tmp", &OutputFormat::Odt);
    match r {
        Err(SmoothError::IncompatibleReferenceFile(p, f)) => {
            assert_eq!(p, "/somewhere/styles.docx");
            assert_eq!(f, "odt");
        }
        other => panic!("expected an incompatible reference file, got {:?}", other),
    }
}

#[test]
fn docx_reference_with_docx_output_passes_compatibility() {
    // The same path passes validation up to the existence check.
    let mut header = empty_header();
    header.reference = Some("/somewhere/styles.docx".to_string());
    let r = Metadata::build(header, "/tmp", &OutputFormat::Docx);
    assert!(matches!(r, Err(SmoothError::ReferenceNotFound(_))));

    // With an existing file of the right extension the validation succeeds.
    let dir = tempfile::tempdir().unwrap();
    let base = dir.path().to_str().unwrap().to_string();
    let mut reference = tempfile::Builder::new()
        .suffix(".docx")
        .tempfile_in(dir.path())
        .unwrap();
    reference.write_all(b"stub").unwrap();
    let ref_path = reference.path().to_str().unwrap().to_string();
    let mut header = empty_header();
    header.reference = Some(ref_path.clone());
    let m = Metadata::build(header, &base, &OutputFormat::Docx).unwrap();
    assert_eq!(m.reference.unwrap(), ref_path);
}

#[test]
fn reference_compatibility_table() {
    assert!(check_reference_compatibility("/a/s.odt", &OutputFormat::Odt));
    assert!(check_reference_compatibility("/a/s.fodt", &OutputFormat::Odt));
    assert!(!check_reference_compatibility("/a/s.docx", &OutputFormat::Odt));
    assert!(check_reference_compatibility("/a/s.docx", &OutputFormat::Docx));
    assert!(check_reference_compatibility("/a/s.docm", &OutputFormat::Docx));
    assert!(!check_reference_compatibility("/a/s.odt", &OutputFormat::Docx));
    assert!(check_reference_compatibility("/a/s.docx", &OutputFormat::Pdf));
}

#[test]
fn scratch_template_constants() {
    assert_eq!(JSON_TEMPLATE_PATH, "rsmooth-metadata.pandoc-tpl");
    assert_eq!(JSON_TEMPLATE, "$meta-json$");
}

#[test]
fn existing_scratch_template_halts_the_extraction() {
    let dir = tempfile::tempdir().unwrap();
    let mut scratch = tempfile::Builder::new().tempfile_in(dir.path()).unwrap();
    scratch.write_all(b"stale").unwrap();
    let p = scratch.path().to_str().unwrap().to_string();
    match ensure_template_absent(&p) {
        Err(SmoothError::JsonTemplateExists(q)) => assert_eq!(q, p),
        other => panic!("expected the stale scratch file to halt, got {:?}", other),
    }
    let free = format!("{}/not-there.tpl", dir.path().to_str().unwrap());
    assert!(ensure_template_absent(&free).is_ok());
}

#[test]
fn removal_failure_does_not_mask_the_first_error() {
    let primary: Result<String, SmoothError> =
        Err(SmoothError::MetadataParseFailure("broken".to_string()));
    let removal: Result<(), SmoothError> = Err(SmoothError::RemoveJsonTemplateFailed(
        "/tmp/x".to_string(),
        "denied".to_string(),
    ));
    match finish_extraction(primary, removal) {
        Err(SmoothError::MetadataParseFailure(e)) => assert_eq!(e, "broken"),
        other => panic!("expected the first error to win, got {:?}", other),
    }

    let ok: Result<String, SmoothError> = Ok("raw".to_string());
    let removal: Result<(), SmoothError> = Err(SmoothError::RemoveJsonTemplateFailed(
        "/tmp/x".to_string(),
        "denied".to_string(),
    ));
    assert!(matches!(
        finish_extraction(ok, removal),
        Err(SmoothError::RemoveJsonTemplateFailed(_, _))
    ));

    let ok: Result<String, SmoothError> = Ok("raw".to_string());
    assert_eq!(finish_extraction(ok, Ok(())).unwrap(), "raw");
}

#[test]
fn error_messages_name_the_artifact() {
    let e = SmoothError::BibliographyNotFound("/a/refs.json".to_string());
    assert_eq!(e.message(), "couldn't find bibliography file under /a/refs.json");
    let e = SmoothError::IncompatibleReferenceFile("/a/s.docx".to_string(), "odt".to_string());
    assert_eq!(
        e.message(),
        "reference file /a/s.docx isn't compatible to output format odt"
    );
    let e = SmoothError::InputFileNotFound("doc.md".to_string(), "/w/doc.md".to_string());
    assert_eq!(
        e.message(),
        "input file \"doc.md\" couldn't be found under normalized path \"/w/doc.md\""
    );
    let e = SmoothError::InputFileNotFound("/w/doc.md".to_string(), "/w/doc.md".to_string());
    assert_eq!(e.message(), "input file \"/w/doc.md\" couldn't be found");
}
