use rust_notes::file_type::ChildEntry;
use rust_notes::file_type::Dir;
use rust_notes::file_type::EntryMeta;
use rust_notes::file_type::FileTypeManager;
use rust_notes::file_type::Markdown;
use rust_notes::file_type::TemplateSources;
use rust_notes::file_type::Unknown;
use rust_notes::AppContext;
use rust_notes::SitePath;

fn path(parts: &[&str]) -> SitePath {
    SitePath::new(parts.iter().map(|p| p.to_string()).collect())
}

fn entry(name: &str, is_dir: bool) -> ChildEntry {
    ChildEntry {
        name: name.to_string(),
        meta: EntryMeta { is_dir, is_file: !is_dir },
    }
}

fn ready_context() -> AppContext {
    let mut ctx = AppContext::new(path(&["site"]), path(&["out"]), None);
    let manager = FileTypeManager::new();
    let sources = TemplateSources {
        header: Some("<html>".to_string()),
        footer: Some("</html>".to_string()),
        note_layout: Some("{{name}}|{{{content}}}|{{#each parents}}{{this.url}};{{/each}}".to_string()),
        dir_layout: Some(
            "{{name}}[{{#each children}}{{this.name}}:{{this.file_type}}@{{this.url}},{{/each}}]"
                .to_string(),
        ),
    };
    assert_eq!(manager.initialize_app_context(&mut ctx, &sources), Ok(()));
    ctx
}

#[test]
fn markdown_convert_renders_note_page() {
    let ctx = ready_context();
    let note = Markdown { path: path(&["site", "notes", "a.md"]) };
    let out = note.convert(&ctx, "# Title").expect("conversion succeeds");
    assert_eq!(out.path.components, vec!["out".to_string(), "a.html".to_string()]);
    assert!(out.contents.starts_with("<html>\n"));
    assert!(out.contents.ends_with("\n</html>"));
    assert!(out.contents.contains("<h1>Title</h1>"));
    assert!(out.contents.contains("a|"));
    assert!(out.contents.contains("/;"));
}

#[test]
fn markdown_convert_nested_names_destination() {
    let ctx = ready_context();
    let note = Markdown { path: path(&["site", "notes", "sub", "b.md"]) };
    let out = note.convert(&ctx, "text").expect("conversion succeeds");
    assert_eq!(
        out.path.components,
        vec!["out".to_string(), "sub".to_string(), "b.html".to_string()]
    );
    assert!(out.contents.contains("<p>text</p>"));
    assert!(out.contents.contains("/;/sub;"));
}

#[test]
fn markdown_convert_without_templates_fails() {
    let ctx = AppContext::new(path(&["site"]), path(&["out"]), None);
    let note = Markdown { path: path(&["site", "notes", "a.md"]) };
    assert!(note.convert(&ctx, "# Title").is_err());
}

#[test]
fn dir_convert_renders_sorted_listing() {
    let ctx = ready_context();
    let dir = Dir {
        path: path(&["site", "notes"]),
        file_type_manager: FileTypeManager::new(),
    };
    let entries = vec![entry("a.md", false), entry("sub", true)];
    let out = dir.convert(&ctx, &entries).expect("conversion succeeds");
    assert_eq!(out.dir.components, vec!["out".to_string()]);
    assert_eq!(
        out.index.path.components,
        vec!["out".to_string(), "index.html".to_string()]
    );
    assert!(out.index.contents.contains("root["));
    assert!(out.index.contents.contains("sub:dir@/sub/,a:markdown@/a.html,"));
}

#[test]
fn dir_convert_nested_lists_note() {
    let ctx = ready_context();
    let dir = Dir {
        path: path(&["site", "notes", "sub"]),
        file_type_manager: FileTypeManager::new(),
    };
    let entries = vec![entry("b.md", false)];
    let out = dir.convert(&ctx, &entries).expect("conversion succeeds");
    assert_eq!(
        out.index.path.components,
        vec!["out".to_string(), "sub".to_string(), "index.html".to_string()]
    );
    assert!(out.index.contents.contains("sub["));
    assert!(out.index.contents.contains("b:markdown@/sub/b.html,"));
}

#[test]
fn converting_twice_is_byte_identical() {
    let ctx = ready_context();
    let note = Markdown { path: path(&["site", "notes", "sub", "b.md"]) };
    let first = note.convert(&ctx, "*hi*").expect("conversion succeeds");
    let second = note.convert(&ctx, "*hi*").expect("conversion succeeds");
    assert_eq!(first.contents, second.contents);
    assert_eq!(first.path.components, second.path.components);
    let dir = Dir {
        path: path(&["site", "notes", "sub"]),
        file_type_manager: FileTypeManager::new(),
    };
    let entries = vec![entry("b.md", false), entry("z.txt", false)];
    let one = dir.convert(&ctx, &entries).expect("conversion succeeds");
    let two = dir.convert(&ctx, &entries).expect("conversion succeeds");
    assert_eq!(one.index.contents, two.index.contents);
}

#[test]
fn quotes_in_names_survive_the_model() {
    let ctx = ready_context();
    let note = Markdown { path: path(&["site", "notes", "q\"uote.md"]) };
    let out = note.convert(&ctx, "x").expect("conversion succeeds");
    // The engine HTML-escapes the quote when substituting {{name}}.
    assert!(out.contents.contains("q&quot;uote|"));
    assert_eq!(
        out.path.components,
        vec!["out".to_string(), "q\"uote.html".to_string()]
    );
}

fn context_with_layouts(note_layout: &str, dir_layout: &str) -> AppContext {
    let mut ctx = AppContext::new(path(&["site"]), path(&["out"]), None);
    let manager = FileTypeManager::new();
    let sources = TemplateSources {
        header: Some("H".to_string()),
        footer: Some("F".to_string()),
        note_layout: Some(note_layout.to_string()),
        dir_layout: Some(dir_layout.to_string()),
    };
    assert_eq!(manager.initialize_app_context(&mut ctx, &sources), Ok(()));
    ctx
}

#[test]
fn note_template_resolves_dir_partial_from_registry() {
    // A `{{> dir}}` reference in the note template is resolved against the
    // other registered template: the output depends on the whole store.
    let ctx = context_with_layouts("N({{> dir}})", "D:{{name}}");
    let note = Markdown { path: path(&["site", "notes", "a.md"]) };
    let out = note.convert(&ctx, "x").expect("conversion succeeds");
    // What is registered under `dir` is the composed header/layout/footer,
    // and that whole text is substituted for the reference.
    assert!(out.contents.contains("N(H\nD:a\nF)"));
}

#[test]
fn render_time_failure_reports_engine_error() {
    // The template compiles, but rendering fails: the partial it names was
    // never registered.
    let ctx = context_with_layouts("{{> nowhere}}", "D");
    let note = Markdown { path: path(&["site", "notes", "a.md"]) };
    match note.convert(&ctx, "x") {
        Ok(_) => panic!("rendering should fail"),
        Err(err) => assert!(!err.is_empty()),
    }
}

#[test]
fn unknown_convert_names_copy_endpoints() {
    let ctx = ready_context();
    let raw = Unknown { path: path(&["site", "notes", "sub", "data.bin"]) };
    let action = raw.convert(&ctx);
    assert_eq!(
        action.from.components,
        vec!["site".to_string(), "notes".to_string(), "sub".to_string(), "data.bin".to_string()]
    );
    assert_eq!(
        action.to.components,
        vec!["out".to_string(), "sub".to_string(), "data.bin".to_string()]
    );
}
