use rustbench::task::ErrorCategory;
use rustbench::toolchain::{
    check_outcome, check_report, check_result, clippy_outcome, clippy_report, clippy_result,
    miri_report, miri_result, test_report, test_result, BuildRun, CargoCompilerMessage, CargoErrorCode, CargoMessage, MiriRun,
    ProcessOutput, TestRun, Tool,
};
use serde_json::Value;

fn text(value: Option<&Value>) -> Option<String> {
    value.and_then(|v| v.as_str()).map(|s| s.to_string())
}

fn decode(line: &str) -> Option<CargoMessage> {
    let value: Value = serde_json::from_str(line).ok()?;
    let message = value.get("message").map(|m| CargoCompilerMessage {
        code: m.get("code").filter(|c| !c.is_null()).map(|c| CargoErrorCode {
            code: text(c.get("code")),
        }),
        level: text(m.get("level")),
        message: text(m.get("message")),
        rendered: text(m.get("rendered")),
    });
    Some(CargoMessage { reason: text(value.get("reason")), message })
}

fn output(success: bool, stdout: &str, stderr: &str) -> ProcessOutput {
    ProcessOutput {
        success,
        stdout: stdout.as_bytes().to_vec(),
        stderr: stderr.as_bytes().to_vec(),
    }
}

fn message(reason: &str, level: Option<&str>, message: Option<&str>) -> Option<CargoMessage> {
    Some(CargoMessage {
        reason: Some(reason.to_string()),
        message: Some(CargoCompilerMessage {
            code: None,
            level: level.map(|s| s.to_string()),
            message: message.map(|s| s.to_string()),
            rendered: None,
        }),
    })
}

const MOVED: &str = "{\"reason\":\"compiler-message\",\"message\":{\"code\":{\"code\":\"E0382\"},\
\"level\":\"error\",\"message\":\"use of moved value\",\"rendered\":\"error[E0382]: moved\\n --> x\"}}";

const UNUSED: &str = "{\"reason\":\"compiler-message\",\"message\":{\"code\":{\"code\":\"unused\"},\
\"level\":\"warning\",\"message\":\"unused variable\",\"rendered\":\"warning: unused\"}}";

#[test]
fn check_lists_reported_errors() {
    let stdout = format!("{}\nno json\n{}\n{{\"reason\":\"build-finished\"}}\n", MOVED, UNUSED);
    let r = check_report(&output(false, &stdout, "error: could not compile\n"), &decode);
    assert!(!r.success);
    assert_eq!(r.errors, vec!["error[E0382]: moved".to_string()]);
    assert_eq!(r.diagnostics.len(), 1);
    assert_eq!(r.diagnostics[0].code.as_deref(), Some("E0382"));
    assert_eq!(r.diagnostics[0].message, "use of moved value");
    assert_eq!(r.diagnostics[0].level, "error");
    assert_eq!(r.diagnostics[0].category, ErrorCategory::BorrowChecker);
}

#[test]
fn check_without_details() {
    let stdout = "{\"reason\":\"compiler-message\",\"message\":{\"level\":\"error\"}}\n\
                  {\"reason\":\"compiler-message\",\"message\":{\"level\":\"error\",\
                  \"message\":\"expected x, found y\",\"rendered\":\"\"}}\n\
                  {\"reason\":\"other\",\"message\":{\"level\":\"error\",\"message\":\"no\"}}\n\
                  {\"message\":{\"level\":\"error\",\"message\":\"no\"}}\n\
                  {\"reason\":\"compiler-message\"}\n";
    let r = check_report(&output(true, stdout, ""), &decode);
    assert!(r.success);
    assert_eq!(r.errors, vec!["unknown error".to_string(), "".to_string()]);
    assert_eq!(r.diagnostics[0].message, "unknown error");
    assert_eq!(r.diagnostics[0].code, None);
    assert_eq!(r.diagnostics[0].category, ErrorCategory::Other);
    assert_eq!(r.diagnostics[1].category, ErrorCategory::Syntax);
}

#[test]
fn check_falls_back_on_standard_error() {
    let stderr = "Compiling\nerror: no such file\r\nnote\nerrors follow";
    let r = check_report(&output(false, UNUSED, stderr), &decode);
    assert_eq!(r.errors, vec!["error: no such file".to_string(), "errors follow".to_string()]);
    assert_eq!(r.diagnostics.len(), 2);
    assert_eq!(r.diagnostics[0].message, "error: no such file");
    assert_eq!(r.diagnostics[1].level, "error");
    assert_eq!(r.diagnostics[1].category, ErrorCategory::Other);
    let silent = check_report(&output(false, "", "nothing to see"), &decode);
    assert!(!silent.success);
    assert!(silent.errors.is_empty());
    let fine = check_report(&output(true, "", stderr), &decode);
    assert!(fine.success);
    assert!(fine.diagnostics.is_empty());
}

#[test]
fn reported_errors_hide_standard_error() {
    let msgs = vec![message("compiler-message", Some("error"), Some("bad"))];
    let a = check_result(false, &msgs, "error: one");
    let b = check_result(false, &msgs, "");
    assert_eq!(a.errors, vec!["bad".to_string()]);
    assert_eq!(a.errors, b.errors);
    assert_eq!(a.diagnostics.len(), b.diagnostics.len());
}

#[test]
fn output_need_not_be_utf8() {
    let out = ProcessOutput {
        success: false,
        stdout: vec![0xff, 0xfe],
        stderr: vec![b'e', b'r', b'r', b'o', b'r', b' ', 0xff, b'!', b'\n'],
    };
    let r = check_report(&out, &decode);
    assert_eq!(r.errors, vec!["error \u{fffd}!".to_string()]);
    let m = miri_report(&MiriRun::Finished(out));
    assert_eq!(m.output, "error \u{fffd}!\n");
}

#[test]
fn clippy_counts_messages() {
    let stdout = format!("{}\n{}\n{}\n", UNUSED, MOVED, UNUSED);
    let r = clippy_report(&output(true, &stdout, "warning: x\nwarning: y\n"), &decode);
    assert_eq!((r.warnings, r.errors), (2, 1));
    assert_eq!(r.details, vec!["unused variable", "use of moved value", "unused variable"]);
    assert_eq!(r.output, "warning: x\nwarning: y\n");
}

#[test]
fn clippy_keeps_ten_details() {
    let mut msgs: Vec<Option<CargoMessage>> = vec![None];
    for i in 0..12 {
        msgs.push(message("compiler-message", Some("warning"), Some(&format!("w{}", i))));
    }
    msgs.push(message("compiler-message", Some("note"), Some("n")));
    msgs.push(message("compiler-message", None, Some("n")));
    msgs.push(message("other", Some("warning"), Some("n")));
    let r = clippy_result(&msgs, String::new());
    assert_eq!((r.warnings, r.errors), (12, 0));
    assert_eq!(r.details.len(), 10);
    assert_eq!(r.details[0], "w0");
    assert_eq!(r.details[9], "w9");
}

#[test]
fn clippy_message_without_text() {
    let msgs = vec![message("compiler-message", Some("error"), None)];
    let r = clippy_result(&msgs, "warning: plain".to_string());
    assert_eq!((r.warnings, r.errors), (0, 1));
    assert!(r.details.is_empty());
}

#[test]
fn clippy_falls_back_on_standard_error() {
    let stderr = "warning: a\nnothing\nerror: b warning: c\n";
    let r = clippy_result(&vec![None], stderr.to_string());
    assert_eq!((r.warnings, r.errors), (2, 1));
    assert_eq!(r.details, vec!["warning: a", "error: b warning: c"]);
    let many = "warning: w\n".repeat(30);
    let r = clippy_result(&vec![], many);
    assert_eq!((r.warnings, r.errors), (30, 0));
    assert_eq!(r.details.len(), 10);
}

#[test]
fn check_that_timed_out() {
    let said = "TIMEOUT: compilation exceeded time limit";
    let r = check_outcome(&BuildRun::TimedOut, &decode);
    assert!(!r.success);
    assert_eq!(r.errors, vec![said]);
    assert_eq!(r.diagnostics.len(), 1);
    assert_eq!(r.diagnostics[0].code, None);
    assert_eq!(r.diagnostics[0].message, said);
    assert_eq!(r.diagnostics[0].level, "error");
    assert_eq!(r.diagnostics[0].category, ErrorCategory::Other);
    let done = check_outcome(&BuildRun::Finished(output(false, MOVED, "")), &decode);
    assert_eq!(done.errors, vec!["error[E0382]: moved"]);
}

#[test]
fn empty_output_lists_nothing() {
    let check = check_outcome(&BuildRun::Finished(output(false, "", "")), &decode);
    assert!(!check.success);
    assert!(check.errors.is_empty());
    assert!(check.diagnostics.is_empty());
    let clippy = clippy_outcome(&BuildRun::Finished(output(true, "", "")), &decode);
    assert_eq!((clippy.warnings, clippy.errors), (0, 0));
    assert_eq!(clippy.output, "");
}

#[test]
fn clippy_that_timed_out() {
    let said = "TIMEOUT: Clippy execution exceeded time limit";
    let r = clippy_outcome(&BuildRun::TimedOut, &decode);
    assert_eq!((r.warnings, r.errors), (0, 1));
    assert_eq!(r.details, vec![said]);
    assert_eq!(r.output, said);
    let done = clippy_outcome(&BuildRun::Finished(output(true, UNUSED, "")), &decode);
    assert_eq!((done.warnings, done.errors), (1, 0));
}

fn tests(success: bool, stdout: &str) -> Option<(u32, u32, bool)> {
    test_report(&TestRun::Finished(output(success, stdout, "")))
        .map(|t| (t.passed, t.total, t.timed_out))
}

#[test]
fn test_summary_is_read() {
    let stdout = "running 3 tests\n\ntest result: FAILED. 2 passed; 1 failed; 0 ignored\n";
    assert_eq!(tests(false, stdout), Some((2, 3, false)));
    let r = test_report(&TestRun::Finished(output(false, stdout, "err")));
    assert_eq!(r.map(|t| t.output), Some(stdout.to_string()));
}

#[test]
fn first_test_summary_counts() {
    let stdout = "4 passed; 0 failed\n9 passed; 9 failed\n";
    assert_eq!(tests(true, stdout), Some((4, 4, false)));
    assert_eq!(tests(true, "5 passed\n1 failed"), Some((1, 1, false)));
}

#[test]
fn test_run_without_summary() {
    assert_eq!(tests(true, "running 0 tests\n"), Some((0, 0, false)));
    assert_eq!(tests(true, "?"), Some((1, 1, false)));
    assert_eq!(tests(false, "?"), Some((0, 1, false)));
}

#[test]
fn test_numbers_out_of_range() {
    assert_eq!(tests(true, "99999999999 passed; 2 failed"), Some((0, 2, false)));
    assert_eq!(tests(true, "4294967295 passed; 0 failed"), Some((4294967295, 4294967295, false)));
    assert_eq!(tests(true, "4294967295 passed; 1 failed"), None);
    assert_eq!(tests(true, "\u{663} passed; 2 failed"), Some((0, 2, false)));
}

#[test]
fn test_run_that_timed_out() {
    let r = test_report(&TestRun::TimedOut);
    assert_eq!(
        r.map(|t| (t.passed, t.total, t.timed_out, t.output)),
        Some((0, 1, true, "TIMEOUT: test execution exceeded time limit".to_string()))
    );
}

#[test]
fn test_result_from_groups() {
    let groups = Some(vec![
        Some("3 passed 4 failed".to_string()),
        Some("3".to_string()),
        Some("4".to_string()),
    ]);
    let r = test_result(&groups, false, "out".to_string());
    assert_eq!(r.map(|t| (t.passed, t.total, t.output)), Some((3, 7, "out".to_string())));
    let missing = Some(vec![None, None]);
    let r = test_result(&missing, true, String::new());
    assert_eq!(r.map(|t| (t.passed, t.total)), Some((0, 0)));
}

#[test]
fn miri_that_cannot_run() {
    let r = miri_report(&MiriRun::NotAvailable);
    assert_eq!(r.clean, None);
    assert_eq!(r.errors, vec!["Miri not available"]);
    assert_eq!(r.output, "Miri not available on this toolchain");
    let r = miri_report(&MiriRun::Finished(output(false, "", "error: no such subcommand: `miri`")));
    assert_eq!(r.clean, None);
    assert_eq!(r.errors, vec!["Miri not installed"]);
    assert_eq!(r.output, "error: no such subcommand: `miri`");
    assert_eq!(miri_result(false, "can't find crate for `std`".to_string()).clean, None);
}

#[test]
fn miri_that_timed_out() {
    let r = miri_report(&MiriRun::TimedOut);
    assert_eq!(r.clean, Some(false));
    assert_eq!(r.errors, vec!["Miri timed out"]);
    assert_eq!(r.output, "TIMEOUT: Miri execution exceeded time limit");
}

#[test]
fn miri_verdicts() {
    assert_eq!(miri_result(true, "all well\n".to_string()).clean, Some(true));
    assert_eq!(miri_result(false, "all well\n".to_string()).clean, Some(false));
    let r = miri_result(true, "a\nUndefined Behavior: x\nb\nerror: y\n".to_string());
    assert_eq!(r.clean, Some(false));
    assert_eq!(r.errors, vec!["Undefined Behavior: x", "error: y"]);
}

#[test]
fn tools_are_called_through_cargo() {
    let check = Tool::Check.command();
    assert_eq!(check.program, "cargo");
    assert_eq!(check.args, vec!["check", "--message-format=json"]);
    assert!(check.env.is_empty());
    let clippy = Tool::Clippy.command();
    assert_eq!(clippy.args, vec!["clippy", "--message-format=json", "--", "-W", "clippy::all"]);
    assert_eq!(Tool::Test.command().args, vec!["test", "--", "--test-threads=1"]);
    let miri = Tool::Miri.command();
    assert_eq!(miri.args, vec!["+nightly", "miri", "test"]);
    assert_eq!(
        miri.env,
        vec![("MIRIFLAGS".to_string(), "-Zmiri-disable-isolation".to_string())]
    );
}
