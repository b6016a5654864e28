use rustbench::lm_studio::{
    build_code_prompt, extract_code, is_healthy, model_response, read_reply, ChatResponse, Choice,
    LmStudio, MessageContent, ReplyError, Usage, SYSTEM_PROMPT,
};

#[test]
fn test_extract_code_plain() {
    let input = "fn add(a: i32, b: i32) -> i32 { a + b }";
    assert_eq!(extract_code(input), input);
}

#[test]
fn test_extract_code_markdown() {
    let input = "```rust\nfn add(a: i32, b: i32) -> i32 { a + b }\n```";
    assert_eq!(extract_code(input), "fn add(a: i32, b: i32) -> i32 { a + b }");
}

#[test]
fn test_build_prompt_no_context() {
    let p = build_code_prompt("Sum numbers", "pub fn sum(v: &[i32]) -> i32", "");
    assert!(p.contains("Sum numbers"));
    assert!(p.contains("pub fn sum"));
    assert!(!p.contains("Context"));
}

#[test]
fn test_build_prompt_with_context() {
    let p = build_code_prompt("Implement", "pub fn foo()", "struct Bar;");
    assert!(p.contains("Context"));
    assert!(p.contains("struct Bar;"));
}

#[test]
fn prompt_without_context_in_full() {
    assert_eq!(
        build_code_prompt("Sum", "fn s()", ""),
        "Sum\n\nImplement this function:\nfn s()\n\nProvide the complete function implementation."
    );
}

#[test]
fn prompt_with_context_in_full() {
    assert_eq!(
        build_code_prompt("Sum", "fn s()", "struct B;"),
        "Sum\n\nContext (already provided, do not repeat):\nstruct B;\n\nImplement this:\nfn s()\n\n\
         Provide ONLY the implementation, not the context."
    );
}

#[test]
fn extraction_trims_plain_text() {
    assert_eq!(extract_code("  \n fn f() {}\u{3000}\n\n"), "fn f() {}");
    assert_eq!(extract_code(""), "");
}

#[test]
fn extraction_takes_the_first_block() {
    let input = "Here:\n```rust\nfn a() {}\n\n    fn b() {}\n```\nor\n```\nfn c() {}\n```\n";
    assert_eq!(extract_code(input), "fn a() {}\n\n    fn b() {}");
}

#[test]
fn extraction_of_an_open_block() {
    assert_eq!(extract_code("text\n  ```rust\r\nfn a() {}\r\nfn b() {}"), "fn a() {}\nfn b() {}");
}

#[test]
fn extraction_of_an_empty_block() {
    assert_eq!(extract_code(" ```\n```\nfn a() {}\n "), "```\n```\nfn a() {}");
}

#[test]
fn extraction_of_a_fence_inside_a_line() {
    assert_eq!(extract_code("say ``` and go\n"), "say ``` and go");
}

#[test]
fn fenced_code_comes_back_unchanged() {
    let code = "fn a() {\n    1;\n}\n\n// \u{2713} end";
    let fenced = format!("```rust,ignore\n{}\n```", code);
    assert_eq!(extract_code(&fenced), code);
}

#[test]
fn extracting_twice_only_trims() {
    let inputs = [
        "```rust\n\n  fn a() {}\n```",
        "```\nlet s = \"```\";\n```\nx",
        "```\n\r\r\n a ``` b\r\n```",
        "plain ",
        "```\n```",
    ];
    for input in inputs {
        let once = extract_code(input);
        assert_eq!(extract_code(&once), once.trim(), "{:?}", input);
    }
}

#[test]
fn server_addresses_and_name() {
    let lm = LmStudio::new("http://localhost:1234/v1", "local-model");
    assert_eq!(lm.name(), "local-model");
    assert_eq!(lm.chat_url(), "http://localhost:1234/v1/chat/completions");
    assert_eq!(lm.models_url(), "http://localhost:1234/v1/models");
}

#[test]
fn chat_request_holds_both_messages() {
    let lm = LmStudio::new("u", "m");
    let r = lm.chat_request("do it", 512, Some(7));
    assert_eq!(r.model, "m");
    assert_eq!(r.messages.len(), 2);
    assert_eq!(r.messages[0].role, "system");
    assert_eq!(r.messages[0].content, SYSTEM_PROMPT);
    assert_eq!(r.messages[1].role, "user");
    assert_eq!(r.messages[1].content, "do it");
    assert_eq!(r.max_tokens, 512);
    assert!(!r.stream);
    assert_eq!(r.seed, Some(7));
    assert!(SYSTEM_PROMPT.starts_with("You are an expert Rust programmer."));
    assert_eq!(SYSTEM_PROMPT.lines().count(), 4);
}

fn choice(content: &str, reason: Option<&str>) -> Choice {
    Choice {
        message: MessageContent { content: content.to_string() },
        finish_reason: reason.map(|r| r.to_string()),
    }
}

#[test]
fn first_choice_is_the_response() {
    let chat = ChatResponse {
        choices: vec![choice("one", Some("stop")), choice("two", None)],
        usage: Some(Usage { prompt_tokens: Some(3), completion_tokens: None }),
    };
    let r = model_response(&chat, 42);
    assert_eq!(r.content, "one");
    assert_eq!(r.finish_reason.as_deref(), Some("stop"));
    assert_eq!(r.input_tokens, Some(3));
    assert_eq!(r.output_tokens, None);
    assert_eq!(r.latency_ms, 42);
}

#[test]
fn no_choice_is_an_empty_response() {
    let r = model_response(&ChatResponse { choices: vec![], usage: None }, 1);
    assert_eq!(r.content, "");
    assert_eq!(r.finish_reason, None);
    assert_eq!(r.input_tokens, None);
    assert_eq!(r.output_tokens, None);
}

fn decode_chat(body: &str) -> Result<ChatResponse, String> {
    let value: serde_json::Value = serde_json::from_str(body).map_err(|e| e.to_string())?;
    let list = match value.get("choices").and_then(|c| c.as_array()) {
        Some(list) => list.clone(),
        None => return Err("no choices".to_string()),
    };
    let choices = list
        .iter()
        .map(|c| {
            choice(
                c.pointer("/message/content").and_then(|s| s.as_str()).unwrap_or(""),
                c.get("finish_reason").and_then(|s| s.as_str()),
            )
        })
        .collect();
    Ok(ChatResponse { choices, usage: None })
}

#[test]
fn reply_that_reports_success() {
    let body = "{\"choices\":[{\"message\":{\"content\":\"fn f() {}\"},\"finish_reason\":\"stop\"}]}";
    match read_reply(200, "200 OK", body, &decode_chat, 9) {
        Ok(r) => {
            assert_eq!(r.content, "fn f() {}");
            assert_eq!(r.latency_ms, 9);
        }
        Err(_) => panic!("a response was sent"),
    }
}

#[test]
fn reply_that_reports_failure() {
    match read_reply(404, "404 Not Found", "nothing here", &decode_chat, 9) {
        Err(ReplyError::Status(said)) => {
            assert_eq!(said, "LM Studio returned error 404 Not Found: nothing here")
        }
        _ => panic!("the status is no success"),
    }
    assert!(matches!(
        read_reply(199, "199", "{\"choices\":[]}", &decode_chat, 9),
        Err(ReplyError::Status(_))
    ));
    assert!(matches!(
        read_reply(300, "300", "{\"choices\":[]}", &decode_chat, 9),
        Err(ReplyError::Status(_))
    ));
}

#[test]
fn reply_that_cannot_be_read() {
    match read_reply(299, "299", "{\"no\":1}", &decode_chat, 9) {
        Err(ReplyError::Unreadable(e)) => assert_eq!(e, "no choices"),
        _ => panic!("the body is no chat response"),
    }
}

#[test]
fn health_is_any_success() {
    assert!(is_healthy(Some(200)));
    assert!(is_healthy(Some(299)));
    assert!(!is_healthy(Some(199)));
    assert!(!is_healthy(Some(300)));
    assert!(!is_healthy(Some(503)));
    assert!(!is_healthy(None));
}
