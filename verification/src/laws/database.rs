//! Laws of the statements that are sent to the database.

use vstd::prelude::*;
use crate::db::{
    schema, SchemaStep, INSERT_EVALUATION, INSERT_RUN, SELECT_BY_MODEL, SELECT_BY_TASK,
    SELECT_MODELS, SELECT_SUMMARY,
};

verus! {

/// The results of a model are read newest first, those of a task best first, and the models
/// in the order of their names, each once.
pub proof fn results_are_read_in_order()
    ensures
        SELECT_BY_MODEL@ == "SELECT * FROM evaluations WHERE model = ?1"@
            + " ORDER BY created_at DESC"@,
        SELECT_BY_TASK@ == "SELECT * FROM evaluations WHERE task_id = ?1"@
            + " ORDER BY rpi_score DESC"@,
        SELECT_MODELS@ == "SELECT DISTINCT model FROM evaluations"@ + " ORDER BY model"@,
        INSERT_RUN@ == "INSERT INTO runs (id, model_name, config_json)"@ + " VALUES (?1, ?2, ?3)"@,
{
    reveal_strlit("SELECT * FROM evaluations WHERE model = ?1 ORDER BY created_at DESC");
    reveal_strlit("SELECT * FROM evaluations WHERE model = ?1");
    reveal_strlit(" ORDER BY created_at DESC");
    reveal_strlit("SELECT * FROM evaluations WHERE task_id = ?1 ORDER BY rpi_score DESC");
    reveal_strlit("SELECT * FROM evaluations WHERE task_id = ?1");
    reveal_strlit(" ORDER BY rpi_score DESC");
    reveal_strlit("SELECT DISTINCT model FROM evaluations ORDER BY model");
    reveal_strlit("SELECT DISTINCT model FROM evaluations");
    reveal_strlit(" ORDER BY model");
    reveal_strlit("INSERT INTO runs (id, model_name, config_json) VALUES (?1, ?2, ?3)");
    reveal_strlit("INSERT INTO runs (id, model_name, config_json)");
    reveal_strlit(" VALUES (?1, ?2, ?3)");
    assert(SELECT_BY_MODEL@ =~= "SELECT * FROM evaluations WHERE model = ?1"@
        + " ORDER BY created_at DESC"@);
    assert(SELECT_BY_TASK@ =~= "SELECT * FROM evaluations WHERE task_id = ?1"@
        + " ORDER BY rpi_score DESC"@);
    assert(SELECT_MODELS@ =~= "SELECT DISTINCT model FROM evaluations"@ + " ORDER BY model"@);
    assert(INSERT_RUN@ =~= "INSERT INTO runs (id, model_name, config_json)"@
        + " VALUES (?1, ?2, ?3)"@);
}

/// A result is stored in the columns of its parts, in the order of a row.
pub proof fn result_is_stored_by_column()
    ensures
        INSERT_EVALUATION@ == "\n            INSERT INTO evaluations (\n"@
            + "                run_id, task_id, tier, model, compiles, compile_errors,\n"@
            + "                compiler_errors_json, error_count,\n"@
            + "                tests_total, tests_passed, tests_failed, tests_timed_out, test_output,\n"@
            + "                clippy_errors, clippy_warnings, clippy_output,\n"@
            + "                miri_clean, miri_output,\n"@
            + "                rpi_score, functional_correctness, memory_safety, idiomatic_quality,\n"@
            + "                compilation_time_ms, generation_time_ms, generated_code, contains_unsafe\n"@
            + "            ) VALUES (?1, ?2, ?3, ?4, ?5, ?6, ?7, ?8, ?9, ?10, ?11, ?12, ?13, ?14, ?15, ?16, ?17, ?18, ?19, ?20, ?21, ?22, ?23, ?24, ?25, ?26)\n            "@,
{
    reveal_strlit("\n            INSERT INTO evaluations (\n                run_id, task_id, tier, model, compiles, compile_errors,\n                compiler_errors_json, error_count,\n                tests_total, tests_passed, tests_failed, tests_timed_out, test_output,\n                clippy_errors, clippy_warnings, clippy_output,\n                miri_clean, miri_output,\n                rpi_score, functional_correctness, memory_safety, idiomatic_quality,\n                compilation_time_ms, generation_time_ms, generated_code, contains_unsafe\n            ) VALUES (?1, ?2, ?3, ?4, ?5, ?6, ?7, ?8, ?9, ?10, ?11, ?12, ?13, ?14, ?15, ?16, ?17, ?18, ?19, ?20, ?21, ?22, ?23, ?24, ?25, ?26)\n            ");
    reveal_strlit("\n            INSERT INTO evaluations (\n");
    reveal_strlit("                run_id, task_id, tier, model, compiles, compile_errors,\n");
    reveal_strlit("                compiler_errors_json, error_count,\n");
    reveal_strlit("                tests_total, tests_passed, tests_failed, tests_timed_out, test_output,\n");
    reveal_strlit("                clippy_errors, clippy_warnings, clippy_output,\n");
    reveal_strlit("                miri_clean, miri_output,\n");
    reveal_strlit("                rpi_score, functional_correctness, memory_safety, idiomatic_quality,\n");
    reveal_strlit("                compilation_time_ms, generation_time_ms, generated_code, contains_unsafe\n");
    reveal_strlit("            ) VALUES (?1, ?2, ?3, ?4, ?5, ?6, ?7, ?8, ?9, ?10, ?11, ?12, ?13, ?14, ?15, ?16, ?17, ?18, ?19, ?20, ?21, ?22, ?23, ?24, ?25, ?26)\n            ");
    assert(INSERT_EVALUATION@ =~= "\n            INSERT INTO evaluations (\n"@
            + "                run_id, task_id, tier, model, compiles, compile_errors,\n"@
            + "                compiler_errors_json, error_count,\n"@
            + "                tests_total, tests_passed, tests_failed, tests_timed_out, test_output,\n"@
            + "                clippy_errors, clippy_warnings, clippy_output,\n"@
            + "                miri_clean, miri_output,\n"@
            + "                rpi_score, functional_correctness, memory_safety, idiomatic_quality,\n"@
            + "                compilation_time_ms, generation_time_ms, generated_code, contains_unsafe\n"@
            + "            ) VALUES (?1, ?2, ?3, ?4, ?5, ?6, ?7, ?8, ?9, ?10, ?11, ?12, ?13, ?14, ?15, ?16, ?17, ?18, ?19, ?20, ?21, ?22, ?23, ?24, ?25, ?26)\n            "@);
}

/// The summary of a model averages over the results of the model: how often code compiles,
/// how often there are tests and all of them passed, and each score.
pub proof fn summary_is_over_a_model()
    ensures
        SELECT_SUMMARY@ == "\n            SELECT\n"@
            + "                model,\n"@
            + "                COUNT(*) as total_tasks,\n"@
            + "                AVG(CASE WHEN compiles THEN 1.0 ELSE 0.0 END) as compile_rate,\n"@
            + "                AVG(CASE WHEN tests_passed = tests_total AND tests_total > 0 THEN 1.0 ELSE 0.0 END) as test_pass_rate,\n"@
            + "                AVG(rpi_score) as avg_rpi,\n"@
            + "                AVG(functional_correctness) as avg_functional_correctness,\n"@
            + "                AVG(memory_safety) as avg_memory_safety,\n"@
            + "                AVG(idiomatic_quality) as avg_idiomatic_quality,\n"@
            + "                AVG(generation_time_ms) as avg_generation_time_ms,\n"@
            + "                AVG(error_count) as avg_error_count\n"@
            + "            FROM evaluations\n            WHERE model = ?1\n            GROUP BY model\n            "@,
{
    reveal_strlit("\n            SELECT\n                model,\n                COUNT(*) as total_tasks,\n                AVG(CASE WHEN compiles THEN 1.0 ELSE 0.0 END) as compile_rate,\n                AVG(CASE WHEN tests_passed = tests_total AND tests_total > 0 THEN 1.0 ELSE 0.0 END) as test_pass_rate,\n                AVG(rpi_score) as avg_rpi,\n                AVG(functional_correctness) as avg_functional_correctness,\n                AVG(memory_safety) as avg_memory_safety,\n                AVG(idiomatic_quality) as avg_idiomatic_quality,\n                AVG(generation_time_ms) as avg_generation_time_ms,\n                AVG(error_count) as avg_error_count\n            FROM evaluations\n            WHERE model = ?1\n            GROUP BY model\n            ");
    reveal_strlit("\n            SELECT\n");
    reveal_strlit("                model,\n");
    reveal_strlit("                COUNT(*) as total_tasks,\n");
    reveal_strlit("                AVG(CASE WHEN compiles THEN 1.0 ELSE 0.0 END) as compile_rate,\n");
    reveal_strlit("                AVG(CASE WHEN tests_passed = tests_total AND tests_total > 0 THEN 1.0 ELSE 0.0 END) as test_pass_rate,\n");
    reveal_strlit("                AVG(rpi_score) as avg_rpi,\n");
    reveal_strlit("                AVG(functional_correctness) as avg_functional_correctness,\n");
    reveal_strlit("                AVG(memory_safety) as avg_memory_safety,\n");
    reveal_strlit("                AVG(idiomatic_quality) as avg_idiomatic_quality,\n");
    reveal_strlit("                AVG(generation_time_ms) as avg_generation_time_ms,\n");
    reveal_strlit("                AVG(error_count) as avg_error_count\n");
    reveal_strlit("            FROM evaluations\n            WHERE model = ?1\n            GROUP BY model\n            ");
    assert(SELECT_SUMMARY@ =~= "\n            SELECT\n"@
            + "                model,\n"@
            + "                COUNT(*) as total_tasks,\n"@
            + "                AVG(CASE WHEN compiles THEN 1.0 ELSE 0.0 END) as compile_rate,\n"@
            + "                AVG(CASE WHEN tests_passed = tests_total AND tests_total > 0 THEN 1.0 ELSE 0.0 END) as test_pass_rate,\n"@
            + "                AVG(rpi_score) as avg_rpi,\n"@
            + "                AVG(functional_correctness) as avg_functional_correctness,\n"@
            + "                AVG(memory_safety) as avg_memory_safety,\n"@
            + "                AVG(idiomatic_quality) as avg_idiomatic_quality,\n"@
            + "                AVG(generation_time_ms) as avg_generation_time_ms,\n"@
            + "                AVG(error_count) as avg_error_count\n"@
            + "            FROM evaluations\n            WHERE model = ?1\n            GROUP BY model\n            "@);
}

/// Only the six statements that add a column may fail; they come after the tables and before
/// the indexes.
pub proof fn only_columns_may_be_there(i: int)
    requires
        0 <= i < schema().len(),
    ensures
        schema().len() == 13,
        schema()[i].fails is None <==> 3 <= i < 9,
{
}

/// What is seen of a statement is its text, and what failed where its failure matters.
pub proof fn statement_is_seen(s: SchemaStep, what: String)
    ensures
        s@.sql == s.sql@,
        s.on_error == crate::db::OnError::Fail(what) ==> s@.fails == Some(what@),
        s.on_error is Ignore ==> s@.fails is None,
{
}

} // verus!
