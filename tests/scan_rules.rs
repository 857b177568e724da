use ratifact::scan::{
    is_artifact_entry, is_catalog_dir_name, is_excluded, root_done_line, root_started_line,
    scan_roots, scan_started_line, select_artifacts, total_done_line, WalkEntry,
};
use ratifact::text::{contains_text, decimal, parse_u32, strip_prefix_text, text_eq};

fn entry(name: &str, path: &str, is_dir: bool) -> WalkEntry {
    WalkEntry { name: name.to_string(), path: path.to_string(), is_dir }
}

fn proj_walk() -> Vec<WalkEntry> {
    vec![
        entry("proj", "./proj", true),
        entry("src", "./proj/src", true),
        entry("target", "./proj/target", true),
        entry("main.rs", "./proj/src/main.rs", false),
    ]
}

#[test]
fn one_target_directory_is_found() {
    let found = select_artifacts(&proj_walk(), &vec![]);
    assert_eq!(found, vec!["./proj/target".to_string()]);
    let roots = scan_roots(&vec!["./proj".to_string()]);
    assert_eq!(roots, vec!["./proj".to_string()]);
    assert_eq!(scan_started_line(), "Starting scan...");
    assert_eq!(root_started_line("./proj"), "Scanning path: ./proj");
    assert_eq!(root_done_line("./proj", found.len()), "Scan complete for ./proj. Found 1 artifacts.");
    assert_eq!(total_done_line(found.len()), "Total scan complete. Found 1 artifacts.");
}

#[test]
fn counts_are_written_in_decimal() {
    assert_eq!(total_done_line(0), "Total scan complete. Found 0 artifacts.");
    assert_eq!(total_done_line(120), "Total scan complete. Found 120 artifacts.");
    assert_eq!(root_done_line("/x", 42), "Scan complete for /x. Found 42 artifacts.");
}

#[test]
fn no_configured_roots_walks_current_directory() {
    assert_eq!(scan_roots(&vec![]), vec![".".to_string()]);
}

#[test]
fn catalog_names() {
    for n in ["target", "build", "node_modules", "__pycache__", ".gradle", "vendor", ".nyc_output"] {
        assert!(is_catalog_dir_name(n), "{n}");
    }
    for n in ["src", "targets", "", "Target", "docs"] {
        assert!(!is_catalog_dir_name(n), "{n}");
    }
}

#[test]
fn files_with_catalog_names_are_not_reported() {
    assert!(!is_artifact_entry(&entry("build", "./a/build", false), &vec![]));
    assert!(is_artifact_entry(&entry("build", "./a/build", true), &vec![]));
}

#[test]
fn excluded_text_anywhere_in_path_hides_it() {
    let excluded = vec!["keep".to_string()];
    assert!(is_excluded("./keep/me/target", &excluded));
    assert!(!is_excluded("./other/target", &excluded));
    assert!(!is_artifact_entry(&entry("target", "./keep/target", true), &excluded));
    assert!(!is_excluded("anything", &vec![]));
}

#[test]
fn excluding_then_unexcluding_a_path() {
    let walk = proj_walk();
    let excluded = vec!["./proj/target".to_string()];
    let found = select_artifacts(&walk, &excluded);
    assert!(!found.contains(&"./proj/target".to_string()));
    let found = select_artifacts(&walk, &vec![]);
    assert!(found.contains(&"./proj/target".to_string()));
}

#[test]
fn walk_order_is_kept() {
    let walk = vec![
        entry("node_modules", "./w/node_modules", true),
        entry("dist", "./w/dist", true),
        entry("target", "./w/target", true),
    ];
    let found = select_artifacts(&walk, &vec!["dist".to_string()]);
    assert_eq!(found, vec!["./w/node_modules".to_string(), "./w/target".to_string()]);
}

#[test]
fn text_helpers() {
    assert!(text_eq("abc", "abc"));
    assert!(!text_eq("abc", "abd"));
    assert!(!text_eq("ab", "abc"));
    assert!(contains_text("hello world", "o w"));
    assert!(contains_text("hello", ""));
    assert!(!contains_text("he", "hello"));
    assert_eq!(strip_prefix_text("remove_excluded:/tmp", "remove_excluded:"), Some("/tmp".to_string()));
    assert_eq!(strip_prefix_text("delete", "remove_excluded:"), None);
    assert_eq!(strip_prefix_text("ünïcode", "ün"), Some("ïcode".to_string()));
}

#[test]
fn numbers_read_like_std() {
    for t in ["0", "7", "+42", "007", "4294967295", "4294967296", "", "+", "-0", " 1", "1 ", "12a", "99999999999999999999", "٣"] {
        assert_eq!(parse_u32(t), t.parse::<u32>().ok(), "{t:?}");
    }
    assert_eq!(parse_u32("+42"), Some(42));
}

#[test]
fn decimal_text_of_counts() {
    for n in [0usize, 9, 10, 101, 65535, usize::MAX] {
        assert_eq!(decimal(n), n.to_string());
    }
}
