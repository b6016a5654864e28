//! A run over a file of tasks.

use vstd::prelude::*;
use crate::decode::{answers, full_lines, not_blank, total};
use crate::number::{decimal, numeral};
use crate::outside::{format_utc, utc_stamp};
use crate::report::{tier_label, tier_to_string};
use crate::task::{Task, TaskResult};
use crate::text::{join, joined, lines_of, opt_text, texts, trim_of};
use crate::text_laws::{line_list, lines_undo_join};

verus! {

/// The lines of a task file that hold a task.
pub open spec fn task_lines(content: Seq<char>) -> Seq<Seq<char>> {
    lines_of(content).filter(not_blank())
}

/// Reads the tasks of a file that holds one on each line; blank lines are skipped. `decode`
/// reads a line. The first line that it cannot read decides.
pub fn load_tasks<T, E, F: Fn(&str) -> Result<T, E>>(content: &str, decode: &F) -> (r: Result<
    Vec<T>,
    E,
>)
    requires
        total(*decode),
    ensures
        match r {
            Ok(tasks) => {
                &&& tasks@.len() == task_lines(content@).len()
                &&& forall|i: int|
                    0 <= i < tasks@.len() ==> answers(
                        *decode,
                        task_lines(content@)[i],
                        Ok::<T, E>(#[trigger] tasks@[i]),
                    )
            },
            Err(e) => exists|i: int, read: Seq<T>|
                {
                    &&& 0 <= i < task_lines(content@).len()
                    &&& #[trigger] read.len() == i
                    &&& forall|j: int|
                        0 <= j < i ==> answers(
                            *decode,
                            task_lines(content@)[j],
                            Ok::<T, E>(#[trigger] read[j]),
                        )
                    &&& answers(*decode, #[trigger] task_lines(content@)[i], Err::<T, E>(e))
                },
        },
{
    let lines = full_lines(content);
    let ghost source = task_lines(content@);
    let mut tasks: Vec<T> = Vec::new();
    let mut i: usize = 0;
    while i < lines.len()
        invariant
            i <= lines@.len(),
            source == task_lines(content@),
            texts(lines@) == source,
            total(*decode),
            tasks@.len() == i,
            forall|j: int|
                0 <= j < i ==> answers(*decode, source[j], Ok::<T, E>(#[trigger] tasks@[j])),
        decreases lines@.len() - i,
    {
        let line = lines[i].as_str();
        assert(line@ == source[i as int]);
        let answer = decode(line);
        assert(answers(*decode, source[i as int], answer));
        match answer {
            Ok(task) => tasks.push(task),
            Err(e) => {
                assert(tasks@.len() == i);
                return Err(e);
            },
        }
        i += 1;
    }
    Ok(tasks)
}

/// How the start of a run is written in its identifier.
pub const RUN_STAMP: &'static str = "%Y%m%d_%H%M%S";

/// The identifier of a run that starts at the given moment, in seconds since the Unix epoch.
/// There is none for a moment that no calendar date can be given.
pub fn run_id(secs: i64) -> (r: Option<String>)
    ensures
        opt_text(r) == match utc_stamp(secs, RUN_STAMP@) {
            Some(stamp) => Some(stamped_id(stamp)),
            None => None,
        },
{
    match format_utc(secs, RUN_STAMP) {
        Some(stamp) => Some(id_of_stamp(stamp.as_str())),
        None => None,
    }
}

/// The identifier of a run with the given stamp.
pub open spec fn stamped_id(stamp: Seq<char>) -> Seq<char> {
    "run_"@ + stamp
}

/// The identifier of a run with the given stamp.
pub fn id_of_stamp(stamp: &str) -> (s: String)
    ensures
        s@ == stamped_id(stamp@),
{
    let mut s = "run_".to_owned();
    s.append(stamp);
    s
}

/// How far a run has come.
#[derive(Debug)]
pub struct Run {
    /// The tasks, in their order
    pub tasks: Vec<Task>,
    /// How many tasks were taken up and left again
    pub position: usize,
    /// The results, in the order of their tasks
    pub results: Vec<TaskResult>,
    /// Which task each result is of
    pub origins: Vec<usize>,
}

impl Run {
    /// Each result is of a task that was left, the results stand in the order of their
    /// tasks, and no task has two.
    pub open spec fn wf(self) -> bool {
        &&& self.position <= self.tasks@.len()
        &&& self.results@.len() == self.origins@.len()
        &&& forall|i: int|
            0 <= i < self.origins@.len() ==> (#[trigger] self.origins@[i]) < self.position
        &&& forall|i: int, j: int|
            0 <= i < j < self.origins@.len() ==> #[trigger] self.origins@[i]
                < #[trigger] self.origins@[j]
        &&& forall|i: int|
            0 <= i < self.results@.len() ==> (#[trigger] self.results@[i]).task_id@
                == self.tasks@[self.origins@[i] as int].task_id@
    }

    /// A run that begins.
    pub fn new(tasks: Vec<Task>) -> (run: Run)
        ensures
            run.wf(),
            run.tasks == tasks,
            run.position == 0,
            run.results@ == Seq::<TaskResult>::empty(),
    {
        Run { tasks, position: 0, results: Vec::new(), origins: Vec::new() }
    }

    /// The task whose turn it is; none when the run is over.
    pub fn current(&self) -> (task: Option<&Task>)
        ensures
            task == if self.position < self.tasks@.len() {
                Some(&self.tasks@[self.position as int])
            } else {
                None
            },
    {
        if self.position < self.tasks.len() {
            Some(&self.tasks[self.position])
        } else {
            None
        }
    }

    /// Leaves the current task without a result, because no code could be generated for it.
    pub fn generation_failed(&mut self)
        requires
            old(self).wf(),
            old(self).position < old(self).tasks@.len(),
        ensures
            final(self).wf(),
            *final(self) == (Run { position: (old(self).position + 1) as usize, ..*old(self) }),
    {
        assert(self.position < self.tasks.len());
        self.position = self.position + 1;
    }

    /// Leaves the current task with its result and the milliseconds that it took to generate
    /// its code.
    pub fn record(&mut self, result: TaskResult, generation_time_ms: u64)
        requires
            old(self).wf(),
            old(self).position < old(self).tasks@.len(),
            result.task_id@ == old(self).tasks@[old(self).position as int].task_id@,
        ensures
            final(self).wf(),
            final(self).tasks == old(self).tasks,
            final(self).position == old(self).position + 1,
            final(self).results@ == old(self).results@.push(
                TaskResult { generation_time_ms, ..result },
            ),
            final(self).origins@ == old(self).origins@.push(old(self).position),
    {
        assert(self.position < self.tasks.len());
        let mut timed = result;
        timed.generation_time_ms = generation_time_ms;
        self.results.push(timed);
        self.origins.push(self.position);
        self.position = self.position + 1;
    }
}

/// A run has at most one result for each task that it has left.
pub proof fn results_within_tasks(run: Run)
    requires
        run.wf(),
    ensures
        run.results@.len() <= run.position <= run.tasks@.len(),
{
    let o = run.origins@;
    if o.len() > 0 {
        lemma_origins_grow(run, o.len() - 1);
    }
}

/// The task of a result stands no earlier in the file than the result does in the list.
proof fn lemma_origins_grow(run: Run, i: int)
    requires
        run.wf(),
        0 <= i < run.origins@.len(),
    ensures
        run.origins@[i] >= i,
    decreases i,
{
    if i > 0 {
        lemma_origins_grow(run, i - 1);
        assert(run.origins@[i - 1] < run.origins@[i]);
    }
}

/// How a task is announced.
pub open spec fn announcement(position: nat, count: nat, task: Task) -> Seq<char> {
    " ["@ + numeral(position + 1) + "/"@ + numeral(count) + "] "@ + task.task_id@ + " ("@
        + tier_label(task.tier) + ")"@
}

/// How the task at a position among all tasks is announced.
pub fn announce(position: usize, count: usize, task: &Task) -> (s: String)
    ensures
        s@ == announcement(position as nat, count as nat, *task),
{
    let mut s = " [".to_owned();
    s.append(decimal(position as u128 + 1).as_str());
    s.append("/");
    s.append(decimal(count as u128).as_str());
    s.append("] ");
    s.append(task.task_id.as_str());
    s.append(" (");
    s.append(tier_to_string(&task.tier).as_str());
    s.append(")");
    s
}

/// The contents of a file of records: each on a line of its own, without a final line feed.
pub fn file_of_records(records: &Vec<String>) -> (s: String)
    ensures
        s@ == joined(texts(records@), "\n"@),
{
    join(records, "\n")
}

/// A filter that every element passes changes nothing.
proof fn lemma_filter_all<A>(s: Seq<A>, keep: spec_fn(A) -> bool)
    requires
        forall|i: int| 0 <= i < s.len() ==> keep(#[trigger] s[i]),
    ensures
        s.filter(keep) == s,
    decreases s.len(),
{
    reveal(Seq::filter);
    if s.len() > 0 {
        let front = s.drop_last();
        assert forall|i: int| 0 <= i < front.len() implies keep(#[trigger] front[i]) by {
            assert(front[i] == s[i]);
        }
        lemma_filter_all(front, keep);
        assert(s =~= front.push(s.last()));
    }
}

/// A file of tasks gives back the lines that it was written from: lines that hold more than
/// white space and no line feed, and of which only the last may end with a carriage return.
pub proof fn task_file_reads_back(records: Seq<Seq<char>>)
    requires
        line_list(records),
        forall|i: int| 0 <= i < records.len() ==> trim_of(#[trigger] records[i]).len() > 0,
    ensures
        task_lines(joined(records, "\n"@)) == records,
{
    reveal_strlit("\n");
    assert("\n"@ =~= seq!['\n']);
    lines_undo_join(records);
    lemma_filter_all(records, not_blank());
}

} // verus!
