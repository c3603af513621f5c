use rust_notes::file_type::is_valid_path;
use rust_notes::file_type::EntryMeta;
use rust_notes::file_type::FileTypeKind;
use rust_notes::file_type::FileTypeManager;
use rust_notes::file_type::type_str;
use rust_notes::SitePath;

fn path(parts: &[&str]) -> SitePath {
    SitePath::new(parts.iter().map(|p| p.to_string()).collect())
}

const FILE: EntryMeta = EntryMeta { is_dir: false, is_file: true };
const DIR: EntryMeta = EntryMeta { is_dir: true, is_file: false };
const OTHER: EntryMeta = EntryMeta { is_dir: false, is_file: false };

#[test]
fn classify_directory_is_dir() {
    let manager = FileTypeManager::new();
    let kind = manager.create_file_type(&path(&["site", "notes", "sub"]), DIR);
    assert!(matches!(kind, FileTypeKind::Dir(_)));
    assert_eq!(kind.get_type_str(), "dir");
}

#[test]
fn classify_markdown_extensions() {
    let manager = FileTypeManager::new();
    for name in ["a.md", "a.markdown", "a.mkd"] {
        let kind = manager.create_file_type(&path(&["site", "notes", name]), FILE);
        assert!(matches!(kind, FileTypeKind::Markdown(_)));
        assert_eq!(kind.get_type_str(), "markdown");
    }
}

#[test]
fn classify_other_file_is_unknown() {
    let manager = FileTypeManager::new();
    for name in ["a.txt", "md", "a.MD", "a.mdx", "picture.png"] {
        let kind = manager.create_file_type(&path(&["site", "notes", name]), FILE);
        assert!(matches!(kind, FileTypeKind::Unknown(_)));
        assert_eq!(kind.get_type_str(), "unknown");
    }
}

#[test]
fn classify_directory_named_like_markdown_is_dir() {
    // `is_dir` wins because a directory is never a regular file; the factory
    // order keeps the resolution deterministic regardless.
    let manager = FileTypeManager::new();
    let kind = manager.create_file_type(&path(&["site", "notes", "odd.md"]), DIR);
    assert!(matches!(kind, FileTypeKind::Dir(_)));
}

#[test]
fn classification_is_total() {
    let manager = FileTypeManager::new();
    let kind = manager.create_file_type(&path(&["site", "notes", "socketish"]), OTHER);
    assert!(matches!(kind, FileTypeKind::Unknown(_)));
}

#[test]
fn is_valid_path_checks_file_and_extension() {
    assert!(is_valid_path(&path(&["n", "a.md"]), FILE));
    assert!(is_valid_path(&path(&["n", "a.markdown"]), FILE));
    assert!(is_valid_path(&path(&["n", "a.mkd"]), FILE));
    assert!(!is_valid_path(&path(&["n", "a.md"]), DIR));
    assert!(!is_valid_path(&path(&["n", "a.txt"]), FILE));
    assert!(is_valid_path(&path(&["n", ".md"]), FILE));
}

#[test]
fn markdown_type_str_name() {
    assert_eq!(type_str(), "markdown");
}
