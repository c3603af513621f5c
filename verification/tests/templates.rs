use rust_notes::file_type::compose_template;
use rust_notes::file_type::FileTypeManager;
use rust_notes::file_type::TemplateSources;
use rust_notes::validate_roots;
use rust_notes::AppContext;
use rust_notes::SitePath;

fn path(parts: &[&str]) -> SitePath {
    SitePath::new(parts.iter().map(|p| p.to_string()).collect())
}

fn context() -> AppContext {
    AppContext::new(path(&["site"]), path(&["out"]), None)
}

fn sources(
    header: Option<&str>,
    footer: Option<&str>,
    note: Option<&str>,
    dir: Option<&str>,
) -> TemplateSources {
    TemplateSources {
        header: header.map(|s| s.to_string()),
        footer: footer.map(|s| s.to_string()),
        note_layout: note.map(|s| s.to_string()),
        dir_layout: dir.map(|s| s.to_string()),
    }
}

#[test]
fn compose_template_joins_with_newlines() {
    assert_eq!(compose_template("H", "B", "F"), "H\nB\nF");
}

#[test]
fn initialize_succeeds_with_all_fragments() {
    let mut ctx = context();
    let manager = FileTypeManager::new();
    let srcs = sources(Some("H"), Some("F"), Some("{{name}}"), Some("{{name}}"));
    assert_eq!(manager.initialize_app_context(&mut ctx, &srcs), Ok(()));
}

#[test]
fn missing_note_layout_names_the_file() {
    let mut ctx = context();
    let manager = FileTypeManager::new();
    let srcs = sources(Some("H"), Some("F"), None, Some("{{name}}"));
    assert_eq!(
        manager.initialize_app_context(&mut ctx, &srcs),
        Err("Missing /layouts/note.hbs")
    );
}

#[test]
fn missing_header_names_the_file() {
    let mut ctx = context();
    let manager = FileTypeManager::new();
    let srcs = sources(None, Some("F"), Some("N"), Some("D"));
    assert_eq!(
        manager.initialize_app_context(&mut ctx, &srcs),
        Err("Missing partials/header.hbs")
    );
}

#[test]
fn missing_footer_names_the_file() {
    let mut ctx = context();
    let manager = FileTypeManager::new();
    let srcs = sources(Some("H"), None, Some("N"), Some("D"));
    assert_eq!(
        manager.initialize_app_context(&mut ctx, &srcs),
        Err("Missing partials/footer.hbs")
    );
}

#[test]
fn missing_dir_layout_names_the_file() {
    let mut ctx = context();
    let manager = FileTypeManager::new();
    let srcs = sources(Some("H"), Some("F"), Some("N"), None);
    assert_eq!(
        manager.initialize_app_context(&mut ctx, &srcs),
        Err("Missing /layouts/dir.hbs")
    );
}

#[test]
fn bad_note_template_reports_registration_failure() {
    let mut ctx = context();
    let manager = FileTypeManager::new();
    let srcs = sources(Some("H"), Some("F"), Some("{{#if}}"), Some("D"));
    assert_eq!(
        manager.initialize_app_context(&mut ctx, &srcs),
        Err("Error registering header|note|footer template")
    );
}

#[test]
fn bad_dir_template_reports_registration_failure() {
    let mut ctx = context();
    let manager = FileTypeManager::new();
    let srcs = sources(Some("H"), Some("F"), Some("N"), Some("{{#each}}"));
    assert_eq!(
        manager.initialize_app_context(&mut ctx, &srcs),
        Err("Error registering header|dir|footer template")
    );
}

#[test]
fn validate_roots_errors() {
    assert_eq!(validate_roots(false, false), Err("Invalid source path"));
    assert_eq!(validate_roots(false, true), Err("Invalid source path"));
    assert_eq!(
        validate_roots(true, false),
        Err("Source directory missing required files")
    );
    assert_eq!(validate_roots(true, true), Ok(()));
}
