//! Behaviour of the filter chain: path expansion and templating.
use rsmooth::filters::Filter;
use rsmooth::filters::expand_paths::ExpandOn;
use rsmooth::filters::expand_paths::ExpandPaths;
use rsmooth::filters::template::Template;

fn links_filter() -> ExpandPaths {
    ExpandPaths::new("/base/doc.md", vec![ExpandOn::EmbeddedLinks]).unwrap()
}

#[test]
fn relative_link_target_becomes_absolute() {
    let r = links_filter()
        .apply("before ![alt text](images/a.png) after".to_string())
        .unwrap();
    assert_eq!(r, "before ![alt text](/base/images/a.png) after");
}

#[test]
fn absolute_link_target_is_kept() {
    let r = links_filter()
        .apply("![x](/somewhere/else.png)".to_string())
        .unwrap();
    assert_eq!(r, "![x](/somewhere/else.png)");
}

#[test]
fn several_links_are_all_rewritten() {
    let r = links_filter()
        .apply("![a](x.png) mid ![b](y.png)".to_string())
        .unwrap();
    assert_eq!(r, "![a](/base/x.png) mid ![b](/base/y.png)");
}

#[test]
fn content_without_links_passes_unchanged() {
    let content = "# Title\n\nJust some [normal link](x.md) and text.\n";
    let r = links_filter().apply(content.to_string()).unwrap();
    assert_eq!(r, content);
}

#[test]
fn link_spanning_a_newline_is_no_link() {
    let content = "![alt\ntext](a.png)";
    let r = links_filter().apply(content.to_string()).unwrap();
    assert_eq!(r, content);
}

#[test]
fn failed_expansion_leaves_a_marker() {
    let r = links_filter()
        .apply("![a]($RSMOOTH_SURELY_UNDEFINED_VARIABLE/x.png)".to_string())
        .unwrap();
    assert_eq!(r, "![a](ERROR)");
}

#[test]
fn surrounding_text_is_preserved_verbatim() {
    let r = links_filter()
        .apply("a(b)c ![ odd [alt] ](p.png) d".to_string())
        .unwrap();
    assert_eq!(r, "a(b)c ![ odd [alt] ](/base/p.png) d");
}

#[test]
fn directive_path_is_rewritten() {
    let f = ExpandPaths::new("/base/doc.md", vec![ExpandOn::TemplateDirectives]).unwrap();
    let r = f
        .apply("{% import \"part.md\" %} rest".to_string())
        .unwrap();
    assert_eq!(r, "{% import \"/base/part.md\" %} rest");
}

#[test]
fn malformed_directive_is_left_alone() {
    let f = ExpandPaths::new("/base/doc.md", vec![ExpandOn::TemplateDirectives]).unwrap();
    let content = "{%import \"part.md\" %} and {% import part.md %}";
    let r = f.apply(content.to_string()).unwrap();
    assert_eq!(r, content);
}

#[test]
fn both_kinds_in_sequence() {
    let f = ExpandPaths::new(
        "/base/doc.md",
        vec![ExpandOn::TemplateDirectives, ExpandOn::EmbeddedLinks],
    )
    .unwrap();
    let r = f
        .apply("{% import \"p.md\" %} ![a](i.png)".to_string())
        .unwrap();
    assert_eq!(r, "{% import \"/base/p.md\" %} ![a](/base/i.png)");
}

#[test]
fn filter_without_parent_folder_fails() {
    let r = ExpandPaths::new("/", vec![ExpandOn::EmbeddedLinks]);
    match r {
        Err(e) => {
            assert_eq!(e.name, "expand_paths");
            assert_eq!(e.description, "no parent folder for path / found");
        }
        Ok(_) => panic!("expected the filter construction to fail"),
    }
}

#[test]
fn expand_path_resolves_against_the_working_directory() {
    let f = links_filter();
    assert_eq!(f.expand_path("img/a.png"), "/base/img/a.png");
    assert_eq!(f.expand_path("/abs.png"), "/abs.png");
    assert_eq!(f.expand_path("$RSMOOTH_SURELY_UNDEFINED_VARIABLE/a"), "ERROR");
}

#[test]
fn expand_on_names() {
    assert_eq!(ExpandOn::TemplateDirectives.name(), "template directives");
    assert_eq!(ExpandOn::EmbeddedLinks.name(), "embedded links");
}

#[test]
fn template_filter_renders_variables() {
    let dir = tempfile::tempdir().unwrap();
    let doc = format!("{}/doc.md", dir.path().to_str().unwrap());
    let mut map = serde_json::Map::new();
    map.insert(
        "name".to_string(),
        serde_json::Value::String("World".to_string()),
    );
    let ctx = serde_json::Value::Object(map);
    let tpl = Template::new(&doc, Some(ctx)).unwrap();
    let r = tpl.apply("Hello {{ name }}!".to_string()).unwrap();
    assert_eq!(r, "Hello World!");
}

#[test]
fn template_filter_without_context_renders_plain_text() {
    let dir = tempfile::tempdir().unwrap();
    let doc = format!("{}/doc.md", dir.path().to_str().unwrap());
    let tpl = Template::new(&doc, None).unwrap();
    let r = tpl.apply("No directives at all.".to_string()).unwrap();
    assert_eq!(r, "No directives at all.");
}

#[test]
fn template_filter_reports_engine_errors() {
    let dir = tempfile::tempdir().unwrap();
    let doc = format!("{}/doc.md", dir.path().to_str().unwrap());
    let tpl = Template::new(&doc, None).unwrap();
    let r = tpl.apply("Hello {{ missing_variable }}!".to_string());
    match r {
        Err(e) => assert_eq!(e.name, "template"),
        Ok(_) => panic!("expected the render to fail on an undefined variable"),
    }
}

#[test]
fn filter_trait_applies_like_the_inherent_method() {
    let f = links_filter();
    let r = Filter::apply(f, "![a](x.png)".to_string()).unwrap();
    assert_eq!(r, "![a](/base/x.png)");
}

#[test]
fn empty_alt_and_empty_target() {
    let r = links_filter().apply("![](x.png)".to_string()).unwrap();
    assert_eq!(r, "![](/base/x.png)");
    // An empty target resolves to the base directory itself.
    let r = links_filter().apply("![a]()".to_string()).unwrap();
    assert_eq!(r, "![a](/base/)");
}

#[test]
fn adjacent_links_do_not_overlap() {
    let r = links_filter()
        .apply("![a](x.png)![b](y.png)".to_string())
        .unwrap();
    assert_eq!(r, "![a](/base/x.png)![b](/base/y.png)");
}

#[test]
fn directive_may_span_lines_outside_the_path() {
    let f = ExpandPaths::new("/base/doc.md", vec![ExpandOn::TemplateDirectives]).unwrap();
    let r = f
        .apply("{%\n  import\n  \"p.md\" %}".to_string())
        .unwrap();
    assert_eq!(r, "{%\n  import\n  \"/base/p.md\" %}");
}
