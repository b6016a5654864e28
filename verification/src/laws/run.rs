//! Laws of a run over a file of tasks.

use vstd::prelude::*;
use crate::decode::not_blank;
use crate::laws::text::trimming_leaves_what_is_there;
use crate::laws::toolchain::same_filter;
use crate::number::numeral;
use crate::run::{announcement, stamped_id, task_lines, Run};
use crate::task::{Task, Tier};
use crate::text::{lines_of, white_space};

verus! {

/// The tasks of a file stand on the lines with a character that is not white space, in their
/// order.
pub proof fn every_full_line_holds_a_task(content: Seq<char>)
    ensures
        task_lines(content) == lines_of(content).filter(
            |line: Seq<char>|
                exists|i: int| 0 <= i < line.len() && !white_space(#[trigger] line[i]),
        ),
{
    let lines = lines_of(content);
    let full = |line: Seq<char>|
        exists|i: int| 0 <= i < line.len() && !white_space(#[trigger] line[i]);
    assert forall|i: int| 0 <= i < lines.len() implies not_blank()(#[trigger] lines[i]) == full(
        lines[i],
    ) by {
        trimming_leaves_what_is_there(lines[i]);
    }
    same_filter(lines, not_blank(), full);
}

/// A task is announced with its number, counted from 1, the number of all tasks, its
/// identifier and its tier.
pub proof fn announcement_names_the_task(position: nat, count: nat, task: Task)
    ensures
        announcement(position, count, task) == " ["@ + numeral(position + 1) + "/"@ + numeral(count)
            + "] "@ + task.task_id@ + " ("@ + (match task.tier {
            Tier::AlgorithmicCore => "Tier1: Algorithmic"@,
            Tier::IdiomaticSystems => "Tier2: Idiomatic"@,
            Tier::SafetyCritical => "Tier3: Safety"@,
            Tier::RepositoryArchitecture => "Tier4: Architecture"@,
        }) + ")"@,
{
}

/// Runs with different stamps have different identifiers.
pub proof fn stamp_tells_runs_apart(a: Seq<char>, b: Seq<char>)
    ensures
        stamped_id(a) == "run_"@ + a,
        stamped_id(a) == stamped_id(b) ==> a == b,
{
    if stamped_id(a) == stamped_id(b) {
        assert(stamped_id(a).skip("run_"@.len() as int) =~= a);
        assert(stamped_id(b).skip("run_"@.len() as int) =~= b);
    }
}

/// Of two results of a run the earlier one is of the earlier task, and each is of the task
/// that it names.
pub proof fn results_follow_the_tasks(run: Run, i: int, j: int)
    requires
        run.wf(),
        0 <= i < j < run.results@.len(),
    ensures
        run.results@.len() == run.origins@.len(),
        run.origins@[i] < run.origins@[j] < run.position <= run.tasks@.len(),
        run.results@[i].task_id@ == run.tasks@[run.origins@[i] as int].task_id@,
        run.results@[j].task_id@ == run.tasks@[run.origins@[j] as int].task_id@,
{
}

} // verus!
