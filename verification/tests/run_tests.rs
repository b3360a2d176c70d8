use prefix::Action;
use prefix::ActionOutcome;
use prefix::ActionResult;
use prefix::Dir;
use prefix::Files;
use prefix::HookDefinition;
use prefix::RawConfig;
use prefix::RawEntry;
use prefix::RawHook;
use prefix::exec_plan;
use prefix::executing_line;
use prefix::has_errors;
use prefix::is_noverify_hook;
use prefix::is_stdin_hook;
use prefix::render_report;
use prefix::running_line;
use prefix::sample;
use prefix::script;

fn strings(items: &[&str]) -> Vec<String> {
    items.iter().map(|s| s.to_string()).collect()
}

fn raw_one(hook: &str, id: &str, def: HookDefinition) -> RawConfig {
    RawConfig {
        hooks: vec![
            RawHook {
                name: hook.to_string(),
                actions: vec![RawEntry { id: id.to_string(), def }],
            },
        ],
    }
}

fn result(id: &str, name: Option<&str>, code: Option<i32>, out: &str, err: &str, ms: u64)
    -> ActionResult {
    ActionResult {
        id: id.to_string(),
        action: Action {
            name: name.map(|n| n.to_string()),
            incl: None,
            exclude: None,
            run: "echo hi".to_string(),
        },
        code,
        stdout: out.to_string(),
        stderr: err.to_string(),
        elapsed_ms: ms,
    }
}

#[test]
fn scenario_simple_echo_hook() {
    // config { "pre-commit": { "t": "echo hi" } }, no filters: one action
    // planned against the full tracked set, command unchanged
    let raw = raw_one("pre-commit", "t", HookDefinition::Shorthand("echo hi".to_string()));
    let files = Files { ls: strings(&["a.rs", "b.txt"]), staged: vec![], push: vec![] };
    let plan = exec_plan("pre-commit", &raw, &files, false).unwrap();
    assert_eq!(plan.len(), 1);
    assert_eq!(plan[0].id, "t");
    assert_eq!(plan[0].files, strings(&["a.rs", "b.txt"]));
    assert_eq!(plan[0].command, "echo hi");
    let outcomes = vec![ActionOutcome::Completed(result("t", None, Some(0), "", "", 1000))];
    let report = render_report(&outcomes, "pre-commit", 1000);
    assert_eq!(report, strings(&["+ passed t (1 second)", "> pre-commit complete (1 second)"]));
    assert!(!has_errors(&outcomes));
}

#[test]
fn scenario_staged_filter_builds_command() {
    // run = "lint {staged_files}", matching filter "*.rs",
    // staged = ["a.rs", "b.txt"]: file list ["a.rs"], command "lint a.rs"
    let action = Action {
        name: None,
        incl: Some("*.rs".to_string()),
        exclude: None,
        run: "lint {staged_files}".to_string(),
    };
    let raw = raw_one("pre-commit", "lint", HookDefinition::Action(action));
    let files = Files {
        ls: strings(&["a.rs", "b.txt", "c.md"]),
        staged: strings(&["a.rs", "b.txt"]),
        push: vec![],
    };
    let plan = exec_plan("pre-commit", &raw, &files, false).unwrap();
    assert_eq!(plan.len(), 1);
    assert_eq!(plan[0].files, strings(&["a.rs"]));
    assert_eq!(plan[0].command, "lint a.rs");
}

#[test]
fn scenario_mixed_results_report_in_declared_order() {
    // two actions, one failing with exit 1 and one passing: one failed and
    // one passed line in declared order, and the run signals errors
    let outcomes = vec![
        ActionOutcome::Completed(result("one", None, Some(1), "", "boom", 1)),
        ActionOutcome::Completed(result("two", None, Some(0), "", "", 2)),
    ];
    assert!(has_errors(&outcomes));
    let report = render_report(&outcomes, "pre-commit", 3);
    assert_eq!(
        report,
        strings(&[
            "x failed one (1 milli)",
            "boom",
            "+ passed two (2 millis)",
            "> pre-commit complete (3 millis)",
            "add --no-verify to bypass",
        ])
    );
}

#[test]
fn skip_toggle_plans_nothing() {
    let raw = raw_one("pre-commit", "t", HookDefinition::Shorthand("echo hi".to_string()));
    let files = Files { ls: strings(&["a.rs"]), staged: vec![], push: vec![] };
    let plan = exec_plan("pre-commit", &raw, &files, true).unwrap();
    assert!(plan.is_empty());
    let report = render_report(&vec![], "pre-commit", 0);
    assert_eq!(report, strings(&["> pre-commit complete (0 seconds)"]));
    assert!(!has_errors(&vec![]));
}

#[test]
fn missing_hook_plans_nothing() {
    let raw = raw_one("pre-commit", "t", HookDefinition::Shorthand("echo hi".to_string()));
    let files = Files { ls: strings(&["a.rs"]), staged: vec![], push: vec![] };
    let plan = exec_plan("post-merge", &raw, &files, false).unwrap();
    assert!(plan.is_empty());
}

#[test]
fn empty_action_map_plans_nothing() {
    let raw = RawConfig {
        hooks: vec![RawHook { name: "pre-commit".to_string(), actions: vec![] }],
    };
    let files = Files { ls: strings(&["a.rs"]), staged: vec![], push: vec![] };
    let plan = exec_plan("pre-commit", &raw, &files, false).unwrap();
    assert!(plan.is_empty());
}

#[test]
fn empty_file_list_drops_the_action() {
    // a filter no staged file matches: the action is never planned
    let action = Action {
        name: None,
        incl: Some("*.rs".to_string()),
        exclude: None,
        run: "lint {staged_files}".to_string(),
    };
    let raw = raw_one("pre-commit", "lint", HookDefinition::Action(action));
    let files = Files {
        ls: strings(&["a.rs"]),
        staged: strings(&["notes.md"]),
        push: vec![],
    };
    let plan = exec_plan("pre-commit", &raw, &files, false).unwrap();
    assert!(plan.is_empty());
}

#[test]
fn spawn_errors_count_and_render() {
    let outcomes = vec![ActionOutcome::SpawnFailed("no such shell".to_string())];
    assert!(has_errors(&outcomes));
    let report = render_report(&outcomes, "post-merge", 5);
    assert_eq!(
        report,
        strings(&["error executing action no such shell", "> post-merge complete (5 millis)"])
    );
}

#[test]
fn passing_stdout_is_printed_and_failing_stderr_only_on_failure() {
    let outcomes = vec![
        ActionOutcome::Completed(result("quiet", None, Some(0), "hello", "warning", 1)),
    ];
    let report = render_report(&outcomes, "post-merge", 1);
    assert_eq!(
        report,
        strings(&["+ passed quiet (1 milli)", "hello", "> post-merge complete (1 milli)"])
    );
}

#[test]
fn display_name_prefers_the_given_name() {
    let outcomes = vec![
        ActionOutcome::Completed(result("id", Some("pretty name"), Some(0), "", "", 1)),
    ];
    let report = render_report(&outcomes, "post-merge", 1);
    assert_eq!(report[0], "+ passed pretty name (1 milli)");
}

#[test]
fn abnormal_termination_counts_as_failed() {
    let outcomes = vec![ActionOutcome::Completed(result("sig", None, None, "", "", 1))];
    assert!(has_errors(&outcomes));
    let report = render_report(&outcomes, "post-merge", 1);
    assert_eq!(report[0], "x failed sig (1 milli)");
}

#[test]
fn hook_sets_are_fixed() {
    for hook in ["commit-msg", "pre-commit", "pre-rebase", "pre-push"] {
        assert!(is_noverify_hook(hook));
    }
    assert!(!is_noverify_hook("post-merge"));
    for hook in ["pre-push", "pre-receive", "post-receive", "post-rewrite"] {
        assert!(is_stdin_hook(hook));
    }
    assert!(!is_stdin_hook("pre-commit"));
}

#[test]
fn dir_from_lines_needs_exactly_two_lines() {
    let two = strings(&["/top", ".git"]);
    let dir = Dir::from_lines(&two).unwrap();
    assert_eq!(dir.top_level, "/top");
    assert_eq!(dir.git_dir, ".git");
    assert!(Dir::from_lines(&strings(&["/top"])).is_none());
    assert!(Dir::from_lines(&strings(&[])).is_none());
    assert!(Dir::from_lines(&strings(&["a", "b", "c"])).is_none());
}

#[test]
fn scaffold_texts_are_nonempty() {
    let sample_text = sample();
    assert!(sample_text.contains("pre-commit:"));
    assert!(sample_text.contains("test: echo \"it works\""));
    let script_text = script();
    assert!(script_text.contains("#!/bin/sh"));
    assert!(script_text.contains("run $hook_name"));
}

#[test]
fn bad_config_aborts_before_planning() {
    let action = Action {
        name: None,
        incl: Some("[".to_string()),
        exclude: None,
        run: "echo hi".to_string(),
    };
    let raw = raw_one("pre-commit", "t", HookDefinition::Action(action));
    let files = Files { ls: strings(&["a.rs"]), staged: vec![], push: vec![] };
    assert!(exec_plan("pre-commit", &raw, &files, false).is_err());
    // the toggle does not rescue a configuration that cannot be used
    assert!(exec_plan("pre-commit", &raw, &files, true).is_err());
}

#[test]
fn header_lines() {
    assert_eq!(running_line("pre-commit"), "> Running pre-commit");
    assert_eq!(executing_line("t", &None), "  > Executing t");
    assert_eq!(executing_line("t", &Some("pretty".to_string())), "  > Executing pretty");
}
