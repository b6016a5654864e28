//! The database of results: its address, its schema, and what is stored of a result.

use vstd::prelude::*;
use crate::ratio::Ratio;
use crate::task::{tier_name, TaskResult};
use crate::text::{join, joined, opt_text, texts};

verus! {

/// Enables concurrent reads while a result is written.
pub const ENABLE_WAL: &'static str = "PRAGMA journal_mode=WAL";

pub const CREATE_RUNS: &'static str = "
            CREATE TABLE IF NOT EXISTS runs (
                id TEXT PRIMARY KEY,
                model_name TEXT NOT NULL,
                created_at TIMESTAMP DEFAULT CURRENT_TIMESTAMP,
                config_json TEXT
            )
            ";

pub const CREATE_EVALUATIONS: &'static str = "
            CREATE TABLE IF NOT EXISTS evaluations (
                id INTEGER PRIMARY KEY AUTOINCREMENT,
                run_id TEXT REFERENCES runs(id),
                task_id TEXT NOT NULL,
                tier TEXT NOT NULL,
                model TEXT NOT NULL,
                created_at TIMESTAMP DEFAULT CURRENT_TIMESTAMP,
                compiles BOOLEAN NOT NULL,
                compile_errors TEXT,
                compiler_errors_json TEXT,
                error_count INTEGER NOT NULL DEFAULT 0,
                tests_total INTEGER NOT NULL,
                tests_passed INTEGER NOT NULL,
                tests_failed INTEGER NOT NULL,
                tests_timed_out BOOLEAN NOT NULL,
                test_output TEXT,
                clippy_errors INTEGER NOT NULL,
                clippy_warnings INTEGER NOT NULL,
                clippy_output TEXT,
                miri_clean BOOLEAN,
                miri_output TEXT,
                rpi_score REAL NOT NULL,
                functional_correctness REAL NOT NULL,
                memory_safety REAL NOT NULL DEFAULT 0.0,
                idiomatic_quality REAL NOT NULL,
                compilation_time_ms INTEGER NOT NULL DEFAULT 0,
                generation_time_ms INTEGER NOT NULL,
                generated_code TEXT NOT NULL,
                contains_unsafe BOOLEAN NOT NULL DEFAULT 0
            )
            ";

pub const ADD_RUN_ID: &'static str =
    "ALTER TABLE evaluations ADD COLUMN run_id TEXT REFERENCES runs(id)";

pub const ADD_COMPILER_ERRORS: &'static str =
    "ALTER TABLE evaluations ADD COLUMN compiler_errors_json TEXT";

pub const ADD_ERROR_COUNT: &'static str =
    "ALTER TABLE evaluations ADD COLUMN error_count INTEGER NOT NULL DEFAULT 0";

pub const ADD_MEMORY_SAFETY: &'static str =
    "ALTER TABLE evaluations ADD COLUMN memory_safety REAL NOT NULL DEFAULT 0.0";

pub const ADD_COMPILATION_TIME: &'static str =
    "ALTER TABLE evaluations ADD COLUMN compilation_time_ms INTEGER NOT NULL DEFAULT 0";

pub const ADD_CONTAINS_UNSAFE: &'static str =
    "ALTER TABLE evaluations ADD COLUMN contains_unsafe BOOLEAN NOT NULL DEFAULT 0";

pub const INDEX_MODEL: &'static str =
    "CREATE INDEX IF NOT EXISTS idx_evaluations_model ON evaluations(model)";

pub const INDEX_TASK_ID: &'static str =
    "CREATE INDEX IF NOT EXISTS idx_evaluations_task_id ON evaluations(task_id)";

pub const INDEX_CREATED_AT: &'static str =
    "CREATE INDEX IF NOT EXISTS idx_evaluations_created_at ON evaluations(created_at)";

pub const INDEX_RUN_ID: &'static str =
    "CREATE INDEX IF NOT EXISTS idx_evaluations_run_id ON evaluations(run_id)";

pub const INSERT_RUN: &'static str =
    "INSERT INTO runs (id, model_name, config_json) VALUES (?1, ?2, ?3)";

pub const INSERT_EVALUATION: &'static str = "
            INSERT INTO evaluations (
                run_id, task_id, tier, model, compiles, compile_errors,
                compiler_errors_json, error_count,
                tests_total, tests_passed, tests_failed, tests_timed_out, test_output,
                clippy_errors, clippy_warnings, clippy_output,
                miri_clean, miri_output,
                rpi_score, functional_correctness, memory_safety, idiomatic_quality,
                compilation_time_ms, generation_time_ms, generated_code, contains_unsafe
            ) VALUES (?1, ?2, ?3, ?4, ?5, ?6, ?7, ?8, ?9, ?10, ?11, ?12, ?13, ?14, ?15, ?16, ?17, ?18, ?19, ?20, ?21, ?22, ?23, ?24, ?25, ?26)
            ";

pub const SELECT_BY_MODEL: &'static str =
    "SELECT * FROM evaluations WHERE model = ?1 ORDER BY created_at DESC";

pub const SELECT_BY_TASK: &'static str =
    "SELECT * FROM evaluations WHERE task_id = ?1 ORDER BY rpi_score DESC";

pub const SELECT_MODELS: &'static str = "SELECT DISTINCT model FROM evaluations ORDER BY model";

pub const SELECT_SUMMARY: &'static str = "
            SELECT
                model,
                COUNT(*) as total_tasks,
                AVG(CASE WHEN compiles THEN 1.0 ELSE 0.0 END) as compile_rate,
                AVG(CASE WHEN tests_passed = tests_total AND tests_total > 0 THEN 1.0 ELSE 0.0 END) as test_pass_rate,
                AVG(rpi_score) as avg_rpi,
                AVG(functional_correctness) as avg_functional_correctness,
                AVG(memory_safety) as avg_memory_safety,
                AVG(idiomatic_quality) as avg_idiomatic_quality,
                AVG(generation_time_ms) as avg_generation_time_ms,
                AVG(error_count) as avg_error_count
            FROM evaluations
            WHERE model = ?1
            GROUP BY model
            ";

/// What a failure of a statement means.
#[derive(Debug)]
pub enum OnError {
    /// The database cannot be used; what failed.
    Fail(String),
    /// Nothing: a column that is added may already be there.
    Ignore,
}

/// A statement that prepares the database.
#[derive(Debug)]
pub struct SchemaStep {
    pub sql: String,
    pub on_error: OnError,
}

/// The contents of a statement: where its failure matters, what failed.
pub struct SchemaStepView {
    pub sql: Seq<char>,
    pub fails: Option<Seq<char>>,
}

impl View for SchemaStep {
    type V = SchemaStepView;

    open spec fn view(&self) -> SchemaStepView {
        SchemaStepView {
            sql: self.sql@,
            fails: match self.on_error {
                OnError::Fail(what) => Some(what@),
                OnError::Ignore => None,
            },
        }
    }
}

/// A statement that must succeed.
pub open spec fn required(sql: Seq<char>, what: Seq<char>) -> SchemaStepView {
    SchemaStepView { sql, fails: Some(what) }
}

/// A statement that may fail.
pub open spec fn optional(sql: Seq<char>) -> SchemaStepView {
    SchemaStepView { sql, fails: None }
}

/// The statements that prepare a database, in their order. A database of an earlier version
/// gets the columns that it lacks.
pub open spec fn schema() -> Seq<SchemaStepView> {
    seq![
        required(ENABLE_WAL@, "Failed to enable WAL mode"@),
        required(CREATE_RUNS@, "Failed to create runs table"@),
        required(CREATE_EVALUATIONS@, "Failed to create evaluations table"@),
        optional(ADD_RUN_ID@),
        optional(ADD_COMPILER_ERRORS@),
        optional(ADD_ERROR_COUNT@),
        optional(ADD_MEMORY_SAFETY@),
        optional(ADD_COMPILATION_TIME@),
        optional(ADD_CONTAINS_UNSAFE@),
        required(INDEX_MODEL@, "Failed to create index"@),
        required(INDEX_TASK_ID@, "Failed to create index"@),
        required(INDEX_CREATED_AT@, "Failed to create index"@),
        required(INDEX_RUN_ID@, "Failed to create index"@),
    ]
}

fn must(sql: &str, what: &str) -> (s: SchemaStep)
    ensures
        s@ == required(sql@, what@),
{
    SchemaStep { sql: sql.to_owned(), on_error: OnError::Fail(what.to_owned()) }
}

fn may(sql: &str) -> (s: SchemaStep)
    ensures
        s@ == optional(sql@),
{
    SchemaStep { sql: sql.to_owned(), on_error: OnError::Ignore }
}

/// The statements that prepare a database, in their order.
pub fn schema_steps() -> (steps: Vec<SchemaStep>)
    ensures
        steps@.map_values(|s: SchemaStep| s@) == schema(),
{
    let mut steps: Vec<SchemaStep> = Vec::new();
    steps.push(must(ENABLE_WAL, "Failed to enable WAL mode"));
    steps.push(must(CREATE_RUNS, "Failed to create runs table"));
    steps.push(must(CREATE_EVALUATIONS, "Failed to create evaluations table"));
    steps.push(may(ADD_RUN_ID));
    steps.push(may(ADD_COMPILER_ERRORS));
    steps.push(may(ADD_ERROR_COUNT));
    steps.push(may(ADD_MEMORY_SAFETY));
    steps.push(may(ADD_COMPILATION_TIME));
    steps.push(may(ADD_CONTAINS_UNSAFE));
    steps.push(must(INDEX_MODEL, "Failed to create index"));
    steps.push(must(INDEX_TASK_ID, "Failed to create index"));
    steps.push(must(INDEX_CREATED_AT, "Failed to create index"));
    steps.push(must(INDEX_RUN_ID, "Failed to create index"));
    assert(steps@.map_values(|s: SchemaStep| s@) =~= schema());
    steps
}

/// The address of the database in a file, which is created if it is missing.
pub fn database_url(path: &str) -> (s: String)
    ensures
        s@ == "sqlite:"@ + path@ + "?mode=rwc"@,
{
    let mut s = "sqlite:".to_owned();
    s.append(path);
    s.append("?mode=rwc");
    s
}

/// What is stored of a result, in the order of the columns. The diagnostics are stored
/// beside it.
#[derive(Debug)]
pub struct EvaluationRow {
    pub run_id: Option<String>,
    pub task_id: String,
    pub tier: String,
    pub model: String,
    pub compiles: bool,
    pub compile_errors: String,
    pub error_count: i64,
    pub tests_total: i64,
    pub tests_passed: i64,
    pub tests_failed: i64,
    pub tests_timed_out: bool,
    pub test_output: String,
    pub clippy_errors: i64,
    pub clippy_warnings: i64,
    pub clippy_output: String,
    pub miri_clean: Option<bool>,
    pub miri_output: String,
    pub rpi_score: Ratio,
    pub functional_correctness: Ratio,
    pub memory_safety: Ratio,
    pub idiomatic_quality: Ratio,
    pub compilation_time_ms: i64,
    pub generation_time_ms: i64,
    pub generated_code: String,
    pub contains_unsafe: bool,
}

/// What is stored of a result of a model. Times are stored as signed numbers of 64 bits.
pub fn evaluation_row(result: &TaskResult, model: &str, run_id: Option<&str>) -> (row:
    EvaluationRow)
    ensures
        opt_text(row.run_id) == match run_id {
            Some(id) => Some(id@),
            None => None,
        },
        row.task_id@ == result.task_id@,
        row.tier@ == tier_name(result.tier),
        row.model@ == model@,
        row.compiles == result.compiles,
        row.compile_errors@ == joined(texts(result.compile_errors@), "\n"@),
        row.error_count == result.error_count,
        row.tests_total == result.tests_total,
        row.tests_passed == result.tests_passed,
        row.tests_failed == result.tests_failed,
        row.tests_timed_out == result.tests_timed_out,
        row.test_output@ == result.test_output@,
        row.clippy_errors == result.clippy_errors,
        row.clippy_warnings == result.clippy_warnings,
        row.clippy_output@ == result.clippy_output@,
        row.miri_clean == result.miri_clean,
        row.miri_output@ == result.miri_output@,
        row.rpi_score == result.scores.rpi,
        row.functional_correctness == result.scores.functional_correctness,
        row.memory_safety == result.scores.memory_safety,
        row.idiomatic_quality == result.scores.idiomatic_quality,
        row.compilation_time_ms == result.compilation_time_ms as i64,
        row.generation_time_ms == result.generation_time_ms as i64,
        result.compilation_time_ms <= i64::MAX ==> row.compilation_time_ms
            == result.compilation_time_ms,
        result.generation_time_ms <= i64::MAX ==> row.generation_time_ms
            == result.generation_time_ms,
        row.generated_code@ == result.generated_code@,
        row.contains_unsafe == result.contains_unsafe,
{
    EvaluationRow {
        run_id: match run_id {
            Some(id) => Some(id.to_owned()),
            None => None,
        },
        task_id: result.task_id.clone(),
        tier: result.tier.as_str().to_owned(),
        model: model.to_owned(),
        compiles: result.compiles,
        compile_errors: join(&result.compile_errors, "\n"),
        error_count: result.error_count as i64,
        tests_total: result.tests_total as i64,
        tests_passed: result.tests_passed as i64,
        tests_failed: result.tests_failed as i64,
        tests_timed_out: result.tests_timed_out,
        test_output: result.test_output.clone(),
        clippy_errors: result.clippy_errors as i64,
        clippy_warnings: result.clippy_warnings as i64,
        clippy_output: result.clippy_output.clone(),
        miri_clean: result.miri_clean,
        miri_output: result.miri_output.clone(),
        rpi_score: result.scores.rpi,
        functional_correctness: result.scores.functional_correctness,
        memory_safety: result.scores.memory_safety,
        idiomatic_quality: result.scores.idiomatic_quality,
        compilation_time_ms: #[verifier::truncate] (result.compilation_time_ms as i64),
        generation_time_ms: #[verifier::truncate] (result.generation_time_ms as i64),
        generated_code: result.generated_code.clone(),
        contains_unsafe: result.contains_unsafe,
    }
}

} // verus!
