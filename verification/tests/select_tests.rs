use prefix::Action;
use prefix::Files;
use prefix::HookDefinition;
use prefix::RawConfig;
use prefix::RawEntry;
use prefix::RawHook;
use prefix::applicable_files;
use prefix::build_command;
use prefix::normalize;
use prefix::select;

fn strings(items: &[&str]) -> Vec<String> {
    items.iter().map(|s| s.to_string()).collect()
}

fn context(ls: &[&str], staged: &[&str], push: &[&str]) -> Files {
    Files { ls: strings(ls), staged: strings(staged), push: strings(push) }
}

fn bare(run: &str) -> Action {
    Action { name: None, incl: None, exclude: None, run: run.to_string() }
}

#[test]
fn default_base_is_all_tracked_files() {
    let files = context(&["a.rs", "b.txt"], &["a.rs"], &[]);
    let action = bare("echo hi");
    assert_eq!(applicable_files(&action, &files), strings(&["a.rs", "b.txt"]));
}

#[test]
fn staged_placeholder_selects_staged_files() {
    let files = context(&["a.rs", "b.txt"], &["b.txt"], &["a.rs"]);
    let action = bare("lint {staged_files}");
    assert_eq!(applicable_files(&action, &files), strings(&["b.txt"]));
}

#[test]
fn push_placeholder_selects_push_files() {
    let files = context(&["a.rs", "b.txt"], &["b.txt"], &["a.rs"]);
    let action = bare("lint {push_files}");
    assert_eq!(applicable_files(&action, &files), strings(&["a.rs"]));
}

#[test]
fn staged_placeholder_wins_over_push_placeholder() {
    let files = context(&["ls.txt"], &["staged.txt"], &["push.txt"]);
    let action = bare("lint {staged_files} {push_files}");
    assert_eq!(applicable_files(&action, &files), strings(&["staged.txt"]));
}

#[test]
fn inclusion_filter_keeps_matching_paths() {
    let files = context(&[], &["a.rs", "b.txt"], &[]);
    let action = Action {
        name: None,
        incl: Some("*.rs".to_string()),
        exclude: None,
        run: "lint {staged_files}".to_string(),
    };
    assert_eq!(applicable_files(&action, &files), strings(&["a.rs"]));
}

#[test]
fn exclusion_filter_drops_matching_paths() {
    let files = context(&["a.rs", "notes.md", "b.rs"], &[], &[]);
    let action = Action {
        name: None,
        incl: None,
        exclude: Some("*.md".to_string()),
        run: "check {files}".to_string(),
    };
    assert_eq!(applicable_files(&action, &files), strings(&["a.rs", "b.rs"]));
}

#[test]
fn both_filters_combine() {
    let files = context(&["src/a.rs", "src/b.rs", "doc/c.md"], &[], &[]);
    let action = Action {
        name: None,
        incl: Some("src/*.rs".to_string()),
        exclude: Some("src/b.rs".to_string()),
        run: "check {files}".to_string(),
    };
    assert_eq!(applicable_files(&action, &files), strings(&["src/a.rs"]));
}

#[test]
fn filtering_is_pure() {
    let files = context(&["a.rs", "b.txt", "c.rs"], &[], &[]);
    let action = Action {
        name: None,
        incl: Some("*.rs".to_string()),
        exclude: None,
        run: "check {files}".to_string(),
    };
    let first = applicable_files(&action, &files);
    let second = applicable_files(&action, &files);
    assert_eq!(first, second);
}

#[test]
fn select_missing_hook_is_empty_and_keeps_config() {
    let raw = RawConfig {
        hooks: vec![
            RawHook {
                name: "pre-commit".to_string(),
                actions: vec![
                    RawEntry {
                        id: "t".to_string(),
                        def: HookDefinition::Shorthand("echo hi".to_string()),
                    },
                ],
            },
        ],
    };
    let mut config = normalize(&raw).unwrap();
    let selected = select("post-merge", &mut config);
    assert!(selected.is_empty());
    assert_eq!(config.hooks.len(), 1);
}

#[test]
fn select_consumes_the_hook_entry() {
    let raw = RawConfig {
        hooks: vec![
            RawHook {
                name: "pre-commit".to_string(),
                actions: vec![
                    RawEntry {
                        id: "a".to_string(),
                        def: HookDefinition::Shorthand("echo one".to_string()),
                    },
                    RawEntry {
                        id: "b".to_string(),
                        def: HookDefinition::Shorthand("echo two".to_string()),
                    },
                ],
            },
            RawHook {
                name: "pre-push".to_string(),
                actions: vec![
                    RawEntry {
                        id: "c".to_string(),
                        def: HookDefinition::Shorthand("echo three".to_string()),
                    },
                ],
            },
        ],
    };
    let mut config = normalize(&raw).unwrap();
    let selected = select("pre-commit", &mut config);
    assert_eq!(selected.len(), 2);
    assert_eq!(selected[0].id, "a");
    assert_eq!(selected[1].id, "b");
    assert_eq!(config.hooks.len(), 1);
    assert_eq!(config.hooks[0].name, "pre-push");
    let again = select("pre-commit", &mut config);
    assert!(again.is_empty());
}

#[test]
fn substitution_replaces_every_placeholder() {
    assert_eq!(build_command("lint {staged_files}", "a.rs"), "lint a.rs");
    assert_eq!(
        build_command("a {staged_files} b {push_files} c {files}", "x y"),
        "a x y b x y c x y"
    );
    assert_eq!(build_command("no placeholders", "a.rs"), "no placeholders");
    assert_eq!(build_command("twice {files} {files}", "f"), "twice f f");
}

#[test]
fn glob_dialect_question_mark_and_classes() {
    let files = context(&["cat", "cart", "cut", "9x", "x9"], &[], &[]);
    let action = Action {
        name: None,
        incl: Some("c?t".to_string()),
        exclude: None,
        run: "check {files}".to_string(),
    };
    assert_eq!(applicable_files(&action, &files), strings(&["cat", "cut"]));
    let classes = Action {
        name: None,
        incl: Some("[0-9]*".to_string()),
        exclude: None,
        run: "check {files}".to_string(),
    };
    assert_eq!(applicable_files(&classes, &files), strings(&["9x"]));
}

#[test]
fn glob_dialect_star_crosses_separators_by_default() {
    // the chosen dialect does not treat the path separator as literal, so a
    // single star reaches into subdirectories
    let files = context(&["a.rs", "src/b.rs", "src/c.txt"], &[], &[]);
    let action = Action {
        name: None,
        incl: Some("*.rs".to_string()),
        exclude: None,
        run: "check {files}".to_string(),
    };
    assert_eq!(applicable_files(&action, &files), strings(&["a.rs", "src/b.rs"]));
}

#[test]
fn glob_dialect_recursive_star() {
    let files = context(&["src/mod.rs", "src/a/mod.rs", "src/a/b/mod.rs", "other/mod.rs"], &[], &[]);
    let action = Action {
        name: None,
        incl: Some("src/**/mod.rs".to_string()),
        exclude: None,
        run: "check {files}".to_string(),
    };
    assert_eq!(
        applicable_files(&action, &files),
        strings(&["src/mod.rs", "src/a/mod.rs", "src/a/b/mod.rs"])
    );
}
