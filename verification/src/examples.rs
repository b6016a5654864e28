//! Tasks to start with.

use vstd::prelude::*;
use crate::task::{Task, TaskView, Tier};
use crate::text::texts;

verus! {

/// The tests of the task `tier1_sum_vec`.
pub const SUM_TESTS: &'static str = "
#[test]
fn test_sum_empty() {
    assert_eq!(sum_vec(&[]), 0);
}

#[test]
fn test_sum_positive() {
    assert_eq!(sum_vec(&[1, 2, 3, 4, 5]), 15);
}

#[test]
fn test_sum_mixed() {
    assert_eq!(sum_vec(&[-1, 1, -2, 2]), 0);
}
";

/// A solution of the task `tier1_sum_vec`.
pub const SUM_SOLUTION: &'static str = "pub fn sum_vec(nums: &[i32]) -> i32 { nums.iter().sum() }";

/// The tests of the task `tier2_result_handling`.
pub const PARSE_TESTS: &'static str = "
#[test]
fn test_valid() {
    assert_eq!(parse_or_zero(\"42\"), 42);
}

#[test]
fn test_invalid() {
    assert_eq!(parse_or_zero(\"hello\"), 0);
}

#[test]
fn test_empty() {
    assert_eq!(parse_or_zero(\"\"), 0);
}
";

/// A solution of the task `tier2_result_handling`.
pub const PARSE_SOLUTION: &'static str = "pub fn parse_or_zero(s: &str) -> i32 { s.parse().unwrap_or(0) }";

/// The tests of the task `tier3_split_slice`.
pub const SPLIT_TESTS: &'static str = "
#[test]
fn test_split() {
    let mut v = vec![1, 2, 3, 4, 5];
    let (left, right) = my_split_at_mut(&mut v, 2);
    assert_eq!(left, &[1, 2]);
    assert_eq!(right, &[3, 4, 5]);
}

#[test]
fn test_split_empty_left() {
    let mut v = vec![1, 2, 3];
    let (left, right) = my_split_at_mut(&mut v, 0);
    assert!(left.is_empty());
    assert_eq!(right, &[1, 2, 3]);
}

#[test]
#[should_panic]
fn test_split_oob() {
    let mut v = vec![1, 2, 3];
    my_split_at_mut(&mut v, 10);
}
";

/// A solution of the task `tier3_split_slice`.
pub const SPLIT_SOLUTION: &'static str = "pub fn my_split_at_mut<T>(slice: &mut [T], mid: usize) -> (&mut [T], &mut [T]) {
    assert!(mid <= slice.len());
    let ptr = slice.as_mut_ptr();
    unsafe {
        (
            std::slice::from_raw_parts_mut(ptr, mid),
            std::slice::from_raw_parts_mut(ptr.add(mid), slice.len() - mid),
        )
    }
}";

/// The contents of the task `tier1_sum_vec`.
pub open spec fn sum_task() -> TaskView {
    TaskView {
        task_id: "tier1_sum_vec"@,
        tier: Tier::AlgorithmicCore,
        min_rust_version: "1.75.0"@,
        prompt: "Implement a function that sums all elements in a vector of i32."@,
        signature: "pub fn sum_vec(nums: &[i32]) -> i32"@,
        context_code: Seq::empty(),
        dependencies: Seq::empty(),
        tests: SUM_TESTS@,
        miri_compatible: true,
        canonical_solution: Some(SUM_SOLUTION@),
        tags: seq!["iterators"@, "basic"@],
    }
}

/// The contents of the task `tier2_result_handling`.
pub open spec fn parse_task() -> TaskView {
    TaskView {
        task_id: "tier2_result_handling"@,
        tier: Tier::IdiomaticSystems,
        min_rust_version: "1.75.0"@,
        prompt: "Parse a string as i32, returning 0 if parsing fails. Use idiomatic error handling."@,
        signature: "pub fn parse_or_zero(s: &str) -> i32"@,
        context_code: Seq::empty(),
        dependencies: Seq::empty(),
        tests: PARSE_TESTS@,
        miri_compatible: true,
        canonical_solution: Some(PARSE_SOLUTION@),
        tags: seq!["error_handling"@, "result"@],
    }
}

/// The contents of the task `tier3_split_slice`.
pub open spec fn split_task() -> TaskView {
    TaskView {
        task_id: "tier3_split_slice"@,
        tier: Tier::SafetyCritical,
        min_rust_version: "1.75.0"@,
        prompt: "Implement split_at_mut: split a mutable slice into two disjoint mutable slices at index mid. If mid > len, panic."@,
        signature: "pub fn my_split_at_mut<T>(slice: &mut [T], mid: usize) -> (&mut [T], &mut [T])"@,
        context_code: Seq::empty(),
        dependencies: Seq::empty(),
        tests: SPLIT_TESTS@,
        miri_compatible: true,
        canonical_solution: Some(SPLIT_SOLUTION@),
        tags: seq!["unsafe"@, "slices"@, "miri"@],
    }
}

/// The tasks to start with.
pub open spec fn starters() -> Seq<TaskView> {
    seq![sum_task(), parse_task(), split_task()]
}

/// The contents of string slices.
pub open spec fn slices(list: Seq<&str>) -> Seq<Seq<char>> {
    list.map_values(|s: &str| s@)
}

/// The slices as strings.
fn owned(list: &Vec<&str>) -> (r: Vec<String>)
    ensures
        texts(r@) == slices(list@),
{
    let mut r: Vec<String> = Vec::new();
    let mut i: usize = 0;
    while i < list.len()
        invariant
            i <= list@.len(),
            texts(r@) == slices(list@).take(i as int),
        decreases list@.len() - i,
    {
        let ghost before = texts(r@);
        r.push(list[i].to_owned());
        assert(texts(r@) =~= before.push(slices(list@)[i as int]));
        i += 1;
        assert(texts(r@) =~= slices(list@).take(i as int));
    }
    assert(slices(list@).take(i as int) =~= slices(list@));
    r
}

/// A task without context code and dependencies that Miri can run.
fn example(
    task_id: &str,
    tier: Tier,
    prompt: &str,
    signature: &str,
    tests: &str,
    solution: &str,
    tags: &Vec<&str>,
) -> (task: Task)
    ensures
        task.wf(),
        task@ == (TaskView {
            task_id: task_id@,
            tier,
            min_rust_version: "1.75.0"@,
            prompt: prompt@,
            signature: signature@,
            context_code: Seq::empty(),
            dependencies: Seq::empty(),
            tests: tests@,
            miri_compatible: true,
            canonical_solution: Some(solution@),
            tags: slices(tags@),
        }),
{
    let task = Task {
        task_id: task_id.to_owned(),
        tier,
        min_rust_version: "1.75.0".to_owned(),
        prompt: prompt.to_owned(),
        signature: signature.to_owned(),
        context_code: String::new(),
        dependencies: Vec::new(),
        tests: tests.to_owned(),
        miri_compatible: true,
        canonical_solution: Some(solution.to_owned()),
        tags: owned(tags),
    };
    assert(task@.dependencies =~= Seq::empty());
    task
}

/// The task `tier1_sum_vec`.
fn sum_example() -> (task: Task)
    ensures
        task.wf(),
        task@ == sum_task(),
{
    let tags: Vec<&str> = vec!["iterators", "basic"];
    let task = example(
        "tier1_sum_vec",
        Tier::AlgorithmicCore,
        "Implement a function that sums all elements in a vector of i32.",
        "pub fn sum_vec(nums: &[i32]) -> i32",
        SUM_TESTS,
        SUM_SOLUTION,
        &tags,
    );
    assert(slices(tags@) =~= sum_task().tags);
    task
}

/// The task `tier2_result_handling`.
fn parse_example() -> (task: Task)
    ensures
        task.wf(),
        task@ == parse_task(),
{
    let tags: Vec<&str> = vec!["error_handling", "result"];
    let task = example(
        "tier2_result_handling",
        Tier::IdiomaticSystems,
        "Parse a string as i32, returning 0 if parsing fails. Use idiomatic error handling.",
        "pub fn parse_or_zero(s: &str) -> i32",
        PARSE_TESTS,
        PARSE_SOLUTION,
        &tags,
    );
    assert(slices(tags@) =~= parse_task().tags);
    task
}

/// The task `tier3_split_slice`.
fn split_example() -> (task: Task)
    ensures
        task.wf(),
        task@ == split_task(),
{
    let tags: Vec<&str> = vec!["unsafe", "slices", "miri"];
    let task = example(
        "tier3_split_slice",
        Tier::SafetyCritical,
        "Implement split_at_mut: split a mutable slice into two disjoint mutable slices at index mid. If mid > len, panic.",
        "pub fn my_split_at_mut<T>(slice: &mut [T], mid: usize) -> (&mut [T], &mut [T])",
        SPLIT_TESTS,
        SPLIT_SOLUTION,
        &tags,
    );
    assert(slices(tags@) =~= split_task().tags);
    task
}

/// The tasks to start with: one for each of the first three tiers.
pub fn example_tasks() -> (tasks: Vec<Task>)
    ensures
        tasks@.map_values(|t: Task| t@) == starters(),
        forall|i: int| 0 <= i < tasks@.len() ==> (#[trigger] tasks@[i]).wf(),
{
    let tasks = vec![sum_example(), parse_example(), split_example()];
    assert(tasks@.map_values(|t: Task| t@) =~= starters());
    tasks
}

} // verus!
