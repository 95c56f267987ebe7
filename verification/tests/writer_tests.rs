use odebug::WriteRegistry;
use odebug::plan_write;

const SEP: &str = "-----------------------------------------------------------";

fn apply(file: &mut String, truncate: bool, rendered: &str) {
    // What the shell does with a plan: truncate-then-append, or append.
    if truncate {
        file.clear();
    }
    file.push_str(rendered);
}

#[test]
fn first_write_discards_prior_content() {
    let mut reg = WriteRegistry::new();
    let mut file = String::from("leftover from an earlier run\n");

    let p = plan_write(&mut reg, "run.log", "started", Some("INFO"), None);
    assert!(p.truncate);
    apply(&mut file, p.truncate, &p.rendered);

    let expected = format!("\n{SEP}\n> INFO\n{SEP}\nstarted\n");
    assert_eq!(file, expected);
    assert!(!file.contains("leftover"), "prior on-disk content must be gone");
}

#[test]
fn run_log_scenario_two_blocks_in_order() {
    let mut reg = WriteRegistry::new();
    let mut file = String::from("stale content from last run\n");

    let p1 = plan_write(&mut reg, "run.log", "started", Some("INFO"), None);
    assert!(p1.truncate);
    apply(&mut file, p1.truncate, &p1.rendered);

    let p2 = plan_write(&mut reg, "run.log", "finished", Some("INFO"), None);
    assert!(!p2.truncate);
    apply(&mut file, p2.truncate, &p2.rendered);

    let expected = format!(
        "\n{SEP}\n> INFO\n{SEP}\nstarted\n\n{SEP}\n> INFO\n{SEP}\nfinished\n"
    );
    assert_eq!(file, expected);
}

#[test]
fn later_writes_accumulate_in_order() {
    let mut reg = WriteRegistry::new();
    let mut file = String::new();
    let entries = ["one", "two", "three", "four"];

    for content in entries {
        let p = plan_write(&mut reg, "debug.log", content, None, None);
        apply(&mut file, p.truncate, &p.rendered);
    }

    let expected = String::from("\none\n\ntwo\n\nthree\n\nfour\n");
    assert_eq!(file, expected);
    for content in entries {
        assert_eq!(file.matches(content).count(), 1, "each entry appears exactly once");
    }
}

#[test]
fn distinct_files_truncate_independently() {
    let mut reg = WriteRegistry::new();
    let p1 = plan_write(&mut reg, "debug.log", "a", None, None);
    let p2 = plan_write(&mut reg, "custom.log", "b", None, None);
    let p3 = plan_write(&mut reg, "debug.log", "c", None, None);
    assert!(p1.truncate);
    assert!(p2.truncate);
    assert!(!p3.truncate);
}
