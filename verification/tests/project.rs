use rustbench::project::{
    complete_code, indent_code, looks_like_rust_item, manifest, project_files,
};
use rustbench::task::{Task, Tier};

fn pair(name: &str, version: &str) -> (String, String) {
    (name.to_string(), version.to_string())
}

const EMPTY_MANIFEST: &str =
    "[package]\nname = \"eval_task\"\nversion = \"0.1.0\"\nedition = \"2021\"\n\n[dependencies]\n";

#[test]
fn manifest_lists_dependencies() {
    assert_eq!(manifest(&vec![]), EMPTY_MANIFEST);
    assert_eq!(
        manifest(&vec![pair("rand", "0.8"), pair("serde", "1.0")]),
        format!("{}rand = \"0.8\"\nserde = \"1.0\"\n", EMPTY_MANIFEST)
    );
}

#[test]
fn beginnings_of_items() {
    let items = [
        "pub fn f() {}", "fn f() {}", "impl A {}", "pub struct A;", "struct A;", "pub enum A {}",
        "enum A {}", "pub type A = B;", "type A = B;", "pub const A: u8 = 1;", "const A: u8 = 1;",
        "pub static A: u8 = 1;", "static A: u8 = 1;", "use a::b;", "mod a {}", "#[inline]",
        "impl<T> Stack<T> { pub fn new() -> Self { Stack(Vec::new()) } }", "trait A {}",
        "pub trait A {}", "pub use a::b;", "pub mod a {}", "pub(crate) fn f() {}",
        "pub async fn f() {}", "pub unsafe fn f() {}", "async fn f() {}", "async unsafe fn f() {}",
        "unsafe fn f() {}", "unsafe impl Send for A {}", "unsafe impl<T> Send for A<T> {}",
        "unsafe trait A {}", "/// Adds.\nfn f() {}",
        "/// Adds\r\n  /// numbers.\n\n///\n#[inline]\nfn f() {}",
    ];
    for item in items {
        assert!(looks_like_rust_item(item), "{}", item);
        assert!(looks_like_rust_item(&format!(" \n\t{}", item)), "{}", item);
    }
    let others = ["", "let x = 1;", "function()", "unsafe { f() }", "async move { 1 }", "fn",
        "// fn f() {}", "/// x\nlet y = 1;\ny", "/// fn f() {}", "//// x\nfn f() {}",
        "/// x\n//// y\nfn f() {}", "macro_rules! m { () => { 1 } }\nm!()", "implement()", "public()", "useful()", "1 + 1"];
    for other in others {
        assert!(!looks_like_rust_item(other), "{}", other);
    }
}

#[test]
fn doc_lines_do_not_decide() {
    for code in ["fn f() {}", "let x = 1;", "", "  pub fn f() {}\n"] {
        let documented = format!("/// Says something.\n{}", code);
        assert_eq!(looks_like_rust_item(&documented), looks_like_rust_item(code), "{}", code);
    }
}

#[test]
fn item_is_kept_and_body_is_wrapped() {
    assert_eq!(complete_code("fn g()", "  fn f() {}\n"), "  fn f() {}\n");
    assert_eq!(complete_code("fn g() -> i32", "\n  1 + 1\n\n"), "fn g() -> i32 {\n1 + 1\n}");
    assert_eq!(complete_code("fn g()", ""), "fn g() {\n\n}");
    assert_eq!(complete_code("fn g()", "impl<T> A<T> {}"), "impl<T> A<T> {}");
    assert_eq!(
        complete_code("fn g() -> i32", "/// x\nlet y = 1;\ny"),
        "fn g() -> i32 {\n/// x\nlet y = 1;\ny\n}"
    );
}

#[test]
fn indentation() {
    assert_eq!(indent_code("a\n  b\n\nc\n", 4), "    a\n      b\n    \n    c");
    assert_eq!(indent_code("a\r\nb", 2), "  a\n  b");
    assert_eq!(indent_code("", 4), "");
    assert_eq!(indent_code("a\nb\n", 0), "a\nb");
}

#[test]
fn indentation_keeps_the_lines() {
    let code = "#[test]\nfn t() {\n    x();\n}";
    let lines: Vec<String> = indent_code(code, 4).lines().map(|l| l.to_string()).collect();
    let expected: Vec<String> = code.lines().map(|l| format!("    {}", l)).collect();
    assert_eq!(lines, expected);
}

#[test]
fn indents_are_added() {
    let code = "fn t() {\n\n    x();\n}\n\n";
    assert_eq!(indent_code(&indent_code(code, 2), 3), indent_code(code, 5));
}

fn task() -> Task {
    Task {
        task_id: "t".to_string(),
        tier: Tier::AlgorithmicCore,
        min_rust_version: "1.75.0".to_string(),
        prompt: "p".to_string(),
        signature: "pub fn two() -> i32".to_string(),
        context_code: "struct Bar;".to_string(),
        dependencies: vec![pair("rand", "0.8")],
        tests: "#[test]\nfn t() {}\n".to_string(),
        miri_compatible: false,
        canonical_solution: None,
        tags: vec![],
    }
}

#[test]
fn files_of_a_task() {
    let files = project_files(&task(), " 1 + 1 ");
    assert_eq!(files.manifest, format!("{}rand = \"0.8\"\n", EMPTY_MANIFEST));
    assert_eq!(
        files.source,
        "#![allow(dead_code)]\n#![allow(unused_imports)]\n\nstruct Bar;\n\n\
         pub fn two() -> i32 {\n1 + 1\n}\n\n#[cfg(test)]\nmod tests {\n    use super::*;\n\n    \
         #[test]\n    fn t() {}\n}\n"
    );
}

#[test]
fn source_holds_context_code_and_tests() {
    let source = project_files(&task(), "pub fn two() -> i32 { 2 }").source;
    assert!(source.contains("struct Bar;"));
    assert!(source.contains("pub fn two() -> i32 { 2 }"));
    assert!(source.contains("    #[test]\n    fn t() {}"));
}
