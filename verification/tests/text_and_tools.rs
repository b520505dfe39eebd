use llmaap::text::{json_object_of, push_decimal, push_json_string};
use llmaap::tools::communicate::{Communicate, Output as CommOutput, Progress, ReplyFailure, webhook_payload, reply_prompt_text};
use llmaap::tools::exec::{Exec, Output as ExecOutput};
use llmaap::tools::memory::{AppendMemory, ReplaceMemory};

fn serde_object(key: &str, value: &str) -> String {
    let mut map = serde_json::Map::new();
    map.insert(String::from(key), serde_json::Value::String(String::from(value)));
    serde_json::to_string(&serde_json::Value::Object(map)).unwrap()
}

#[test]
fn decimal_matches_display() {
    for n in [0i64, 7, 10, 42, 1234567890, -1, -305, i32::MIN as i64, i32::MAX as i64, u32::MAX as i64] {
        let mut s = String::from("x");
        push_decimal(&mut s, n);
        assert_eq!(s, format!("x{}", n));
    }
}

#[test]
fn json_string_escapes_like_serde_json() {
    let tricky = "quote \" backslash \\ tab\t nl\n cr\r bs\u{8} ff\u{c} nul\u{0} us\u{1f} del\u{7f} 日本";
    let mut s = String::new();
    push_json_string(&mut s, tricky);
    assert_eq!(s, serde_json::to_string(tricky).unwrap());
    assert_eq!(s, "\"quote \\\" backslash \\\\ tab\\t nl\\n cr\\r bs\\b ff\\f nul\\u0000 us\\u001f del\u{7f} 日本\"");
}

#[test]
fn json_object_matches_serde_json() {
    assert_eq!(json_object_of("err", "a \"b\""), serde_object("err", "a \"b\""));
    assert_eq!(json_object_of("msg", "Memory updated."), "{\"msg\":\"Memory updated.\"}");
}

#[test]
fn append_memory_trims_and_adds_a_line() {
    let mut memory = String::from("first\n");
    AppendMemory { content: String::from("  second \t\n") }.run(&mut memory);
    assert_eq!(memory, "first\nsecond\n");
    AppendMemory { content: String::from("\u{3000}全角\u{a0}") }.run(&mut memory);
    assert_eq!(memory, "first\nsecond\n全角\n");
}

#[test]
fn replace_memory_forgets_and_trims() {
    let mut memory = String::from("old stuff\nmore\n");
    ReplaceMemory { content: String::from("\n new \n") }.run(&mut memory);
    assert_eq!(memory, "new\n");
    ReplaceMemory { content: String::from("   ") }.run(&mut memory);
    assert_eq!(memory, "\n");
}

#[test]
fn append_after_replace_keeps_both() {
    let mut memory = String::from("anything");
    ReplaceMemory { content: String::from(" a ") }.run(&mut memory);
    AppendMemory { content: String::from(" b ") }.run(&mut memory);
    assert_eq!(memory, "a\nb\n");
}

#[test]
fn exec_output_json() {
    let o = ExecOutput {
        timeout: false,
        exit_code: Some(0),
        stdout: String::from("hello\n"),
        stderr: String::new(),
    };
    assert_eq!(o.to_json(), "{\"timeout\":false,\"exit_code\":0,\"stdout\":\"hello\\n\",\"stderr\":\"\"}");
    let killed = ExecOutput { timeout: true, exit_code: None, stdout: String::new(), stderr: String::from("\"x\"") };
    assert_eq!(killed.to_json(), "{\"timeout\":true,\"exit_code\":null,\"stdout\":\"\",\"stderr\":\"\\\"x\\\"\"}");
    let failed = ExecOutput { timeout: false, exit_code: Some(-2), stdout: String::new(), stderr: String::new() };
    assert_eq!(failed.to_json(), "{\"timeout\":false,\"exit_code\":-2,\"stdout\":\"\",\"stderr\":\"\"}");
    let _ = Exec { command: String::from("true") };
}

#[test]
fn communicate_send_failure() {
    let c = Communicate { message: String::from("hi"), need_reply: true };
    match c.after_send(Err(String::from("refused"))) {
        Progress::Done(o) => {
            assert!(!o.success);
            assert_eq!(o.result, "Failed to send the message to the admin: refused");
            assert!(o.response.is_none());
        }
        Progress::AwaitReply => panic!("should not wait"),
    }
}

#[test]
fn communicate_without_reply() {
    let c = Communicate { message: String::from("hi"), need_reply: false };
    match c.after_send(Ok(())) {
        Progress::Done(o) => {
            assert!(o.success);
            assert_eq!(o.to_json(), "{\"success\":true,\"result\":\"Message sent.\"}");
        }
        Progress::AwaitReply => panic!("should not wait"),
    }
}

#[test]
fn communicate_with_reply() {
    let c = Communicate { message: String::from("hi"), need_reply: true };
    assert!(matches!(c.after_send(Ok(())), Progress::AwaitReply));
    let o = Communicate::after_reply(Ok(String::from("  yes, go ahead\n")));
    assert!(o.success);
    assert_eq!(o.response.as_deref(), Some("yes, go ahead"));
    assert_eq!(
        o.to_json(),
        "{\"success\":true,\"result\":\"Message sent, reply received.\",\"response\":\"yes, go ahead\"}"
    );
}

#[test]
fn communicate_reply_failures() {
    let o = Communicate::after_reply(Err(ReplyFailure::Accept));
    assert!(!o.success);
    assert_eq!(
        o.result,
        "The message was sent, but failed to receive a reply from the admin: Failed to accept a connection from the admin"
    );
    assert_eq!(ReplyFailure::Prompt.describe(), "Failed to keep the connection to the admin");
    assert_eq!(ReplyFailure::Read.describe(), "Failed to decode the response from the admin");
    let _: CommOutput = o;
}

#[test]
fn webhook_payload_and_prompt() {
    assert_eq!(webhook_payload("a\"b"), serde_object("content", "a\"b"));
    assert_eq!(reply_prompt_text(), "=== Waiting for a message ===\n");
}

#[test]
fn replacing_with_trimmed_text_stores_the_same() {
    let mut a = String::new();
    let mut b = String::new();
    ReplaceMemory { content: String::from("\t padded \u{2003}") }.run(&mut a);
    ReplaceMemory { content: String::from("padded") }.run(&mut b);
    assert_eq!(a, b);
}
