use filesearch::pattern::{anchored_source, compile_all, Matcher};
use filesearch::tree::{scan_content, DirNode, Entry, FileContent, FileNode, Listing};
use filesearch::walk::{resolve_roots, search, visit_file, walk, SearchConfig, TraversalResult};

fn s(x: &str) -> String {
    x.to_string()
}

fn strings(xs: &[&str]) -> Vec<String> {
    xs.iter().map(|x| x.to_string()).collect()
}

fn content(lines: &[&str]) -> FileContent {
    FileContent { lines: strings(lines), failure: None }
}

fn file_node(dir: &str, name: &str, lines: &[&str]) -> FileNode {
    FileNode { path: format!("{}/{}", dir, name), name: Some(s(name)), content: content(lines) }
}

fn file(dir: &str, name: &str, lines: &[&str]) -> Entry {
    Entry::File(file_node(dir, name, lines))
}

fn dir_node(path: &str, entries: Vec<Entry>) -> DirNode {
    DirNode { path: s(path), listing: Listing::Entries(entries) }
}

fn subdir(path: &str, entries: Vec<Entry>) -> Entry {
    Entry::Dir(dir_node(path, entries))
}

fn config(filters: &[&str], exclude: Option<&str>, hidden: bool, content: bool) -> SearchConfig {
    SearchConfig::new(exclude.map(s), &strings(filters), hidden, content)
}

fn files_of(r: &TraversalResult) -> Vec<&str> {
    r.files.iter().map(|f| f.as_str()).collect()
}

#[test]
fn anchored_source_expands_stars() {
    assert_eq!(anchored_source("*.txt"), "^.*\\.txt$");
    assert_eq!(anchored_source(""), "^$");
    assert_eq!(anchored_source("a*b*"), "^a.*b.*$");
    assert_eq!(anchored_source("(x)"), "^\\(x\\)$");
}

#[test]
fn matcher_matches_whole_name() {
    let m = Matcher::compile("*.txt").unwrap();
    assert!(m.is_match("notes.txt"));
    assert!(!m.is_match("notes.md"));
    assert!(!m.is_match("notes.txt.bak"));
    let lit = Matcher::compile("TODO").unwrap();
    assert!(lit.is_match("TODO"));
    assert!(!lit.is_match("a TODO here"));
}

#[test]
fn other_characters_are_literal() {
    let dot = Matcher::compile("a.b").unwrap();
    assert!(dot.is_match("a.b"));
    assert!(!dot.is_match("axb"));
    let parens = Matcher::compile("(").unwrap();
    assert!(parens.is_match("("));
    let ms = compile_all(&strings(&["[", "*.rs", "x+"]));
    assert_eq!(ms.len(), 3);
    assert!(ms[0].is_match("["));
    assert!(ms[1].is_match("lib.rs"));
    assert!(!ms[1].is_match("librs"));
    assert!(ms[2].is_match("x+"));
    assert!(!ms[2].is_match("xx"));
}

#[test]
fn metacharacter_filters_select_literal_names() {
    let cfg = config(&["(draft)*"], None, false, false);
    let root = dir_node("r", vec![file("r", "(draft) a.md", &[]), file("r", "draft b.md", &[])]);
    assert_eq!(files_of(&walk(&root, &cfg)), vec!["r/(draft) a.md"]);
}

#[test]
fn hidden_env_boundary() {
    let root = dir_node("r", vec![file("r", ".env", &[]), file("r", "app.rs", &[])]);
    let off = walk(&root, &config(&[], None, false, false));
    assert_eq!(files_of(&off), vec!["r/app.rs"]);
    let on = walk(&root, &config(&[], None, true, false));
    assert_eq!(files_of(&on), vec!["r/.env", "r/app.rs"]);
    let filtered_off = walk(&root, &config(&["*env"], None, false, false));
    assert!(filtered_off.files.is_empty());
    let filtered_on = walk(&root, &config(&["*env"], None, true, false));
    assert_eq!(files_of(&filtered_on), vec!["r/.env"]);
}

#[test]
fn exclude_overrides_include() {
    let root = dir_node("r", vec![file("r", "secret.txt", &[]), file("r", "notes.txt", &[]), file("r", "x.md", &[])]);
    let r = walk(&root, &config(&["*.txt"], Some("secret.txt"), false, false));
    assert_eq!(files_of(&r), vec!["r/notes.txt"]);
    assert!(!r.other_error);
}

#[test]
fn content_fallback_selects_by_line() {
    let root = dir_node("r", vec![file("r", "readme.md", &["intro", "TODO", "end"]), file("r", "other.md", &["nothing TODO"])]);
    let r = walk(&root, &config(&["TODO"], None, false, true));
    assert_eq!(files_of(&r), vec!["r/readme.md"]);
    let off = walk(&root, &config(&["TODO"], None, false, false));
    assert!(off.files.is_empty());
}

#[test]
fn content_match_ignores_exclude_and_hidden() {
    let root = dir_node("r", vec![file("r", ".todo", &["TODO"]), file("r", "skip.md", &["TODO"])]);
    let r = walk(&root, &config(&["TODO"], Some("skip*"), false, true));
    assert_eq!(files_of(&r), vec!["r/.todo", "r/skip.md"]);
}

#[test]
fn permission_denied_isolation() {
    let b = subdir("/a/b", vec![file("/a/b", "f.txt", &[]), file("/a/b", "g.txt", &[])]);
    let c = Entry::Dir(DirNode { path: s("/a/c"), listing: Listing::Denied });
    let root = dir_node("/a", vec![b, c]);
    let r = walk(&root, &config(&[], None, false, false));
    assert_eq!(files_of(&r), vec!["/a/b/f.txt", "/a/b/g.txt"]);
    assert_eq!(r.denied, strings(&["/a/c"]));
    assert!(!r.other_error);
    assert_eq!(r.errors, "");
}

#[test]
fn empty_filter_selects_every_visible_name() {
    let root = dir_node("r", vec![file("r", "a", &[]), file("r", ".b", &[]), file("r", "c.txt", &[]), file("r", "d.log", &[])]);
    let r = walk(&root, &config(&[], Some("*.log"), false, false));
    assert_eq!(files_of(&r), vec!["r/a", "r/c.txt"]);
}

#[test]
fn concatenation_keeps_depth_first_order() {
    let c1 = subdir("r/c1", vec![file("r/c1", "x", &[]), subdir("r/c1/d", vec![file("r/c1/d", "y", &[])])]);
    let c2 = subdir("r/c2", vec![file("r/c2", "z", &[])]);
    let root = dir_node("r", vec![file("r", "top", &[]), c1, c2, file("r", "last", &[])]);
    let r = walk(&root, &config(&[], None, false, false));
    assert_eq!(files_of(&r), vec!["r/top", "r/c1/x", "r/c1/d/y", "r/c2/z", "r/last"]);
}

#[test]
fn repeated_walk_is_identical() {
    let root = dir_node(
        "r",
        vec![
            file("r", "a.txt", &[]),
            Entry::Broken(s("bad entry")),
            subdir("r/s", vec![file("r/s", "b.txt", &[])]),
            Entry::Dir(DirNode { path: s("r/p"), listing: Listing::Denied }),
        ],
    );
    let cfg = config(&["*.txt"], None, false, false);
    let r1 = walk(&root, &cfg);
    let r2 = walk(&root, &cfg);
    assert_eq!(r1.files, r2.files);
    assert_eq!(r1.denied, r2.denied);
    assert_eq!(r1.other_error, r2.other_error);
    assert_eq!(r1.errors, r2.errors);
}

#[test]
fn inaccessible_root_contributes_only_its_marker() {
    let root = DirNode { path: s("/root"), listing: Listing::Denied };
    let r = walk(&root, &config(&[], None, false, false));
    assert!(r.files.is_empty());
    assert_eq!(r.denied, strings(&["/root"]));
    assert!(!r.other_error);
    assert_eq!(r.errors, "");
}

#[test]
fn root_errors_are_generic() {
    let cfg = config(&[], None, false, false);
    let lookup = walk(&DirNode { path: s("nope"), listing: Listing::LookupFailed(s("not found")) }, &cfg);
    assert!(lookup.other_error);
    assert!(lookup.denied.is_empty());
    assert_eq!(lookup.errors, "Error accessing nope: not found");
    let not_dir = walk(&DirNode { path: s("f.txt"), listing: Listing::NotDir }, &cfg);
    assert!(not_dir.other_error);
    assert_eq!(not_dir.errors, "Error: f.txt is not a directory");
    let list = walk(&DirNode { path: s("d"), listing: Listing::ListFailed(s("io")) }, &cfg);
    assert!(list.other_error);
    assert_eq!(list.errors, "Error reading directory d: io");
}

#[test]
fn broken_entry_is_generic_error() {
    let root = dir_node("r", vec![Entry::Broken(s("permission denied")), file("r", "a", &[])]);
    let r = walk(&root, &config(&[], None, false, false));
    assert_eq!(files_of(&r), vec!["r/a"]);
    assert!(r.denied.is_empty());
    assert!(r.other_error);
    assert_eq!(r.errors, "Error accessing entry: permission denied\n");
}

#[test]
fn nested_error_text_gets_line_break() {
    let bad = Entry::Dir(DirNode { path: s("r/x"), listing: Listing::NotDir });
    let root = dir_node("r", vec![bad]);
    let r = walk(&root, &config(&[], None, false, false));
    assert_eq!(r.errors, "Error: r/x is not a directory\n");
}

#[test]
fn scan_failure_is_recorded_and_not_a_match() {
    let f = FileNode {
        path: s("r/bin"),
        name: Some(s("bin")),
        content: FileContent { lines: strings(&["abc"]), failure: Some(s("invalid UTF-8")) },
    };
    let r = visit_file(&f, &config(&["TODO"], None, false, true));
    assert!(r.files.is_empty());
    assert!(r.other_error);
    assert_eq!(r.errors, "Error reading file r/bin: invalid UTF-8\n");
    let by_name = visit_file(&f, &config(&["bin"], None, false, true));
    assert_eq!(files_of(&by_name), vec!["r/bin"]);
    assert!(by_name.other_error);
}

#[test]
fn scan_stops_at_first_matching_line() {
    let filters = compile_all(&strings(&["*x*"]));
    let found = FileContent { lines: strings(&["a", "box"]), failure: Some(s("late failure")) };
    assert_eq!(scan_content(&found, &filters), Ok(true));
    let missing = FileContent { lines: strings(&["a"]), failure: Some(s("late failure")) };
    assert_eq!(scan_content(&missing, &filters), Err(s("late failure")));
    assert_eq!(scan_content(&content(&["a", "b"]), &filters), Ok(false));
    assert_eq!(scan_content(&content(&["x"]), &Vec::new()), Ok(false));
}

#[test]
fn unnamed_file_is_skipped() {
    let f = FileNode { path: s("r/?"), name: None, content: content(&["TODO"]) };
    let r = visit_file(&f, &config(&[], None, true, true));
    assert!(r.files.is_empty());
    assert!(!r.other_error);
}

#[test]
fn roots_default_to_current_directory() {
    assert_eq!(resolve_roots(Vec::new(), Vec::new()), strings(&["."]));
    assert_eq!(resolve_roots(strings(&["a"]), strings(&["b", "c"])), strings(&["a", "b", "c"]));
}

#[test]
fn roots_are_concatenated_without_dedup() {
    let cfg = config(&[], None, false, false);
    let r1 = dir_node("r", vec![file("r", "a", &[])]);
    let r2 = dir_node("r", vec![file("r", "a", &[])]);
    let bad = DirNode { path: s("q"), listing: Listing::NotDir };
    let denied = DirNode { path: s("p"), listing: Listing::Denied };
    let r = search(&vec![r1, bad, r2, denied], &cfg);
    assert_eq!(files_of(&r), vec!["r/a", "r/a"]);
    assert_eq!(r.denied, strings(&["p"]));
    assert!(r.other_error);
    assert_eq!(r.errors, "Error: q is not a directory\n");
}
