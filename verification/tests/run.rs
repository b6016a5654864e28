use rustbench::db::{database_url, evaluation_row, schema_steps, OnError, CREATE_EVALUATIONS,
    INSERT_EVALUATION};
use rustbench::examples::example_tasks;
use rustbench::ratio::Ratio;
use rustbench::run::{announce, file_of_records, id_of_stamp, load_tasks, run_id, Run};
use rustbench::task::{TaskResult, Tier};

fn number(line: &str) -> Result<u64, String> {
    match serde_json::from_str::<serde_json::Value>(line) {
        Ok(v) => v.as_u64().ok_or(format!("no number: {}", line)),
        Err(_) => Err(format!("no json: {}", line)),
    }
}

#[test]
fn tasks_stand_on_lines() {
    assert_eq!(load_tasks("1\n\n  2 \r\n\t\n3", &number), Ok(vec![1, 2, 3]));
    assert_eq!(load_tasks("", &number), Ok(vec![]));
    assert_eq!(load_tasks(" \n\u{3000}\n", &number), Ok(vec![]));
}

#[test]
fn first_bad_line_decides() {
    assert_eq!(load_tasks("1\n\"x\"\n{\n", &number), Err("no number: \"x\"".to_string()));
    assert_eq!(load_tasks("{\n1", &number), Err("no json: {".to_string()));
}

#[test]
fn task_file_can_be_read_back() {
    let records = vec!["{\"a\":\"1\"}".to_string(), "[2]".to_string(), " 3".to_string()];
    let keep = |line: &str| -> Result<String, String> { Ok(line.to_string()) };
    assert_eq!(load_tasks(&file_of_records(&records), &keep), Ok(records));
    assert_eq!(file_of_records(&vec![]), "");
}

#[test]
fn run_identifiers() {
    assert_eq!(run_id(0), Some("run_19700101_000000".to_string()));
    assert_eq!(run_id(1709210096), Some("run_20240229_123456".to_string()));
    assert_eq!(run_id(-1), Some("run_19691231_235959".to_string()));
    assert_eq!(run_id(i64::MAX), None);
    assert_eq!(id_of_stamp("x"), "run_x");
}

#[test]
fn run_over_the_example_tasks() {
    let mut run = Run::new(example_tasks());
    assert_eq!(run.current().map(|t| t.task_id.as_str()), Some("tier1_sum_vec"));
    run.generation_failed();
    assert_eq!(run.current().map(|t| t.task_id.as_str()), Some("tier2_result_handling"));
    run.record(TaskResult::new("tier2_result_handling".to_string(), Tier::IdiomaticSystems), 42);
    assert_eq!(run.current().map(|t| t.task_id.as_str()), Some("tier3_split_slice"));
    run.record(TaskResult::new("tier3_split_slice".to_string(), Tier::SafetyCritical), 7);
    assert!(run.current().is_none());
    assert_eq!(run.results.len(), 2);
    assert_eq!(run.results[0].task_id, "tier2_result_handling");
    assert_eq!(run.results[0].generation_time_ms, 42);
    assert_eq!(run.results[1].generation_time_ms, 7);
    assert_eq!(run.origins, vec![1, 2]);
    assert_eq!(run.position, 3);
}

#[test]
fn announcement_of_a_task() {
    let tasks = example_tasks();
    assert_eq!(announce(0, 3, &tasks[0]), " [1/3] tier1_sum_vec (Tier1: Algorithmic)");
    assert_eq!(announce(9, 12, &tasks[2]), " [10/12] tier3_split_slice (Tier3: Safety)");
}

#[test]
fn example_tasks_are_complete() {
    let tasks = example_tasks();
    assert_eq!(tasks.len(), 3);
    let tiers: Vec<Tier> = tasks.iter().map(|t| t.tier).collect();
    assert_eq!(
        tiers,
        vec![Tier::AlgorithmicCore, Tier::IdiomaticSystems, Tier::SafetyCritical]
    );
    assert_eq!(tasks[0].tags, vec!["iterators", "basic"]);
    assert_eq!(tasks[1].tags, vec!["error_handling", "result"]);
    assert_eq!(tasks[2].tags, vec!["unsafe", "slices", "miri"]);
    assert_eq!(
        tasks[0].canonical_solution.as_deref(),
        Some("pub fn sum_vec(nums: &[i32]) -> i32 { nums.iter().sum() }")
    );
    assert_eq!(tasks[1].signature, "pub fn parse_or_zero(s: &str) -> i32");
    for t in &tasks {
        assert_eq!(t.min_rust_version, "1.75.0");
        assert_eq!(t.context_code, "");
        assert!(t.dependencies.is_empty());
        assert!(t.miri_compatible);
        assert!(t.tests.starts_with("\n#[test]\n"));
        assert!(t.tests.ends_with("}\n"));
    }
    assert!(tasks[1].tests.contains("parse_or_zero(\"hello\"), 0"));
    assert!(tasks[2].tests.contains("#[should_panic]"));
}

#[test]
fn address_of_the_database() {
    assert_eq!(database_url("/home/x/results.db"), "sqlite:/home/x/results.db?mode=rwc");
}

#[test]
fn schema_is_prepared_in_order() {
    let steps = schema_steps();
    assert_eq!(steps.len(), 13);
    assert_eq!(steps[0].sql, "PRAGMA journal_mode=WAL");
    assert_eq!(steps[2].sql, CREATE_EVALUATIONS);
    for (i, step) in steps.iter().enumerate() {
        match &step.on_error {
            OnError::Ignore => {
                assert!((3..9).contains(&i));
                assert!(step.sql.starts_with("ALTER TABLE evaluations ADD COLUMN "));
            }
            OnError::Fail(what) => {
                assert!(!(3..9).contains(&i));
                assert!(what.starts_with("Failed to "));
            }
        }
    }
    assert!(steps[9].sql.contains("idx_evaluations_model"));
    assert!(steps[12].sql.contains("idx_evaluations_run_id"));
}

#[test]
fn every_stored_column_has_a_place() {
    let open = INSERT_EVALUATION.find('(').unwrap_or(0);
    let close = INSERT_EVALUATION.find(')').unwrap_or(0);
    let columns: Vec<&str> =
        INSERT_EVALUATION[open + 1..close].split(',').map(|c| c.trim()).collect();
    assert_eq!(columns.len(), 26);
    for c in columns {
        assert!(CREATE_EVALUATIONS.contains(&format!("\n                {} ", c)), "{}", c);
    }
    assert!(INSERT_EVALUATION.contains("?26)"));
}

#[test]
fn row_of_a_result() {
    let mut r = TaskResult::new("t".to_string(), Tier::RepositoryArchitecture);
    r.compile_errors = vec!["a".to_string(), "b".to_string()];
    r.error_count = 2;
    r.tests_total = 3;
    r.tests_passed = 1;
    r.tests_failed = 2;
    r.tests_timed_out = true;
    r.test_output = "out".to_string();
    r.clippy_errors = 4;
    r.clippy_warnings = 5;
    r.clippy_output = "lint".to_string();
    r.miri_clean = Some(false);
    r.miri_output = "miri".to_string();
    r.generated_code = "code".to_string();
    r.contains_unsafe = true;
    r.compilation_time_ms = 6;
    r.generation_time_ms = u64::MAX;
    r.scores.rpi = Ratio::new(1, 3);
    r.scores.functional_correctness = Ratio::new(1, 4);
    r.scores.memory_safety = Ratio::new(1, 5);
    r.scores.idiomatic_quality = Ratio::new(1, 6);
    let row = evaluation_row(&r, "m", Some("run_x"));
    assert_eq!(row.run_id.as_deref(), Some("run_x"));
    assert_eq!(row.task_id, "t");
    assert_eq!(row.tier, "repository_architecture");
    assert_eq!(row.model, "m");
    assert!(!row.compiles);
    assert_eq!(row.compile_errors, "a\nb");
    assert_eq!(row.error_count, 2);
    assert_eq!((row.tests_total, row.tests_passed, row.tests_failed), (3, 1, 2));
    assert!(row.tests_timed_out);
    assert_eq!(row.test_output, "out");
    assert_eq!((row.clippy_errors, row.clippy_warnings), (4, 5));
    assert_eq!(row.clippy_output, "lint");
    assert_eq!(row.miri_clean, Some(false));
    assert_eq!(row.miri_output, "miri");
    assert_eq!(row.rpi_score, Ratio::new(1, 3));
    assert_eq!(row.functional_correctness, Ratio::new(1, 4));
    assert_eq!(row.memory_safety, Ratio::new(1, 5));
    assert_eq!(row.idiomatic_quality, Ratio::new(1, 6));
    assert_eq!((row.compilation_time_ms, row.generation_time_ms), (6, -1));
    assert_eq!(row.generated_code, "code");
    assert!(row.contains_unsafe);
    assert_eq!(evaluation_row(&r, "m", None).run_id, None);
}
