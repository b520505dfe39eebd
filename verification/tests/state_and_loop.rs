use llmaap::agent::{boot_message, heartbeat_message, Action, Phase, Session};
use llmaap::config::Config;
use llmaap::data::{Data, SaveData};
use llmaap::llm::{
    authorization, completions_url, offered_tools, request_messages, Choice, FinishReason, Function,
    Message, Response, ResponseMessage, ToolCall, ToolCallType,
};
use llmaap::tools::communicate::Communicate;
use llmaap::tools::exec::Exec;
use llmaap::tools::memory::{AppendMemory, ReplaceMemory};
use llmaap::tools::objective::UpdateObjective;
use llmaap::tools::{call_tool, ToolArgs, ToolStep};

fn config(size: usize) -> Config {
    Config {
        endpoint: String::from("http://localhost:8080/v1"),
        token: None,
        model: String::from("m"),
        webhook: String::from("http://hook"),
        context_size: size,
        system_prompt: String::from("sys"),
        data_path: None,
    }
}

fn user(s: &str) -> Message {
    Message::User { content: String::from(s) }
}

fn text_of(m: &Message) -> String {
    match m {
        Message::System { content } => format!("S:{content}"),
        Message::User { content } => format!("U:{content}"),
        Message::Assistant { content, tool_calls } => {
            format!("A:{content}:{}", tool_calls.as_ref().map(|c| c.len()).unwrap_or(0))
        }
        Message::Tool { content, tool_call_id } => format!("T:{tool_call_id}:{content}"),
    }
}

fn texts(ms: &[Message]) -> Vec<String> {
    ms.iter().map(text_of).collect()
}

fn no_args() -> ToolArgs {
    ToolArgs { exec_args: None, communicate_args: None, append_args: None, replace_args: None }
}

fn data_with(size: usize, turns: Vec<Vec<Message>>) -> Data {
    Data::load(config(size), SaveData { bootcount: 3, memory: String::from("mem\n"), context: turns })
}

fn call(id: &str, name: &str, args: Option<&str>) -> ToolCall {
    ToolCall {
        id: String::from(id),
        call_type: ToolCallType::Function,
        function: Function { name: String::from(name), arguments: args.map(String::from) },
    }
}

fn reply(finish: FinishReason, content: &str, calls: Option<Vec<ToolCall>>) -> Response {
    Response {
        choices: vec![Choice {
            finish_reason: finish,
            message: ResponseMessage { content: String::from(content), tool_calls: calls },
        }],
    }
}

#[test]
fn save_data_load_first_boot_and_later() {
    let first = SaveData::load(None);
    assert_eq!(first.bootcount, 1);
    assert!(first.memory.is_empty());
    assert!(first.context.is_empty());
    let later = SaveData::load(Some(SaveData { bootcount: 7, memory: String::from("m"), context: vec![vec![user("a")]] }));
    assert_eq!(later.bootcount, 8);
    assert_eq!(later.memory, "m");
    assert_eq!(later.context.len(), 1);
    let d = SaveData::default();
    assert_eq!(d.bootcount, 1);
}

#[test]
fn data_load_keeps_the_last_turns() {
    let d = data_with(2, vec![vec![user("1")], vec![user("2")], vec![user("3"), user("3b")]]);
    assert_eq!(d.bootcount, 3);
    assert_eq!(d.memory, "mem\n");
    assert!(!d.shutdown);
    assert!(d.objective.is_none());
    assert_eq!(texts(&d.history()), vec!["U:2", "U:3", "U:3b"]);
    let saved = d.save_data();
    assert_eq!(saved.context.len(), 2);
    assert_eq!(saved.bootcount, 3);
    assert_eq!(saved.memory, "mem\n");
}

#[test]
fn reload_is_stable_and_small_context_restored() {
    let d = data_with(5, vec![vec![user("1")], vec![user("2")]]);
    let again = Data::load(config(5), d.save_data());
    assert_eq!(texts(&again.history()), vec!["U:1", "U:2"]);
}

#[test]
fn enqueue_drops_the_oldest_turn_when_full() {
    let mut d = data_with(2, vec![]);
    d.enqueue(vec![user("a")]);
    d.enqueue(vec![user("b")]);
    d.enqueue(vec![user("c")]);
    assert_eq!(texts(&d.history()), vec!["U:b", "U:c"]);
}

#[test]
fn save_path_defaults_to_data_json() {
    let mut d = data_with(1, vec![]);
    assert_eq!(d.save_path(), "data.json");
    d.config.data_path = Some(String::from("x.json"));
    assert_eq!(d.save_path(), "x.json");
}

#[test]
fn request_messages_open_with_system_prompt() {
    let with_user = request_messages(&String::from("sys"), vec![user("hi")]);
    assert_eq!(texts(&with_user), vec!["S:sys", "U:hi"]);
    let without = request_messages(
        &String::from("sys"),
        vec![Message::Tool { content: String::from("r"), tool_call_id: String::from("c1") }],
    );
    assert_eq!(
        texts(&without),
        vec!["S:sys", "U:System: これ以前のログは切り捨てられています。", "T:c1:r"]
    );
}

#[test]
fn url_header_and_tools() {
    let mut c = config(1);
    assert_eq!(completions_url(&c), "http://localhost:8080/v1/chat/completions");
    assert!(authorization(&c).is_none());
    c.token = Some(String::from("abc"));
    assert_eq!(authorization(&c).as_deref(), Some("Bearer abc"));
    let names: Vec<String> = offered_tools().into_iter().map(|t| t.name).collect();
    assert_eq!(names, vec!["exec", "ask", "notify", "shutdown"]);
}

#[test]
fn from_resp_message_is_assistant() {
    let m = Message::from_resp_message(ResponseMessage { content: String::from("ok"), tool_calls: None });
    assert_eq!(text_of(&m), "A:ok:0");
}

#[test]
fn call_tool_errors() {
    let mut d = data_with(1, vec![]);
    let r = call_tool("exec", None, no_args(), &mut d);
    assert!(matches!(r, ToolStep::Reply(ref s) if s == "{\"err\":\"Failed to call `exec`: No arguments specified\"}"));
    let args = String::from("{}");
    let r = call_tool("communicate", Some(&args), no_args(), &mut d);
    assert!(matches!(r, ToolStep::Reply(ref s) if s == "{\"err\":\"Failed to call `communicate`: Malformed arguments\"}"));
    let r = call_tool("append_memory", Some(&args), no_args(), &mut d);
    assert!(matches!(r, ToolStep::Reply(ref s) if s == "{\"err\":\"Failed to call `append_memory`: Malformed arguments\"}"));
    let r = call_tool("replace_memory", None, no_args(), &mut d);
    assert!(matches!(r, ToolStep::Reply(ref s) if s == "{\"err\":\"Failed to call `replace_memory`: No arguments specified\"}"));
    let r = call_tool("fly", None, no_args(), &mut d);
    assert!(matches!(r, ToolStep::Reply(ref s) if s == "{\"err\":\"Failed to call a tool: Unknown function `fly`\"}"));
    assert_eq!(d.memory, "mem\n");
    assert!(!d.shutdown);
}

#[test]
fn call_tool_runs_memory_tools_and_shutdown() {
    let mut d = data_with(1, vec![]);
    let args = String::from("{\"content\":\" x \"}");
    let mut parsed = no_args();
    parsed.replace_args = Some(ReplaceMemory { content: String::from(" x ") });
    let r = call_tool("replace_memory", Some(&args), parsed, &mut d);
    assert!(matches!(r, ToolStep::Reply(ref s) if s == "{\"msg\":\"Memory updated.\"}"));
    let mut parsed = no_args();
    parsed.append_args = Some(AppendMemory { content: String::from("y\t") });
    call_tool("append_memory", Some(&args), parsed, &mut d);
    let r = call_tool("get_memory", None, no_args(), &mut d);
    assert!(matches!(r, ToolStep::Reply(ref s) if s == "{\"content\":\"x\\ny\\n\"}"));
    let r = call_tool("shutdown", None, no_args(), &mut d);
    assert!(matches!(r, ToolStep::Reply(ref s) if s == "{\"msg\":\"Shutdown scheduled.\"}"));
    assert!(d.shutdown);
}

#[test]
fn call_tool_hands_out_exec_and_communicate() {
    let mut d = data_with(1, vec![]);
    let args = String::from("{}");
    let mut parsed = no_args();
    parsed.exec_args = Some(Exec { command: String::from("ls") });
    match call_tool("exec", Some(&args), parsed, &mut d) {
        ToolStep::Exec(e) => assert_eq!(e.command, "ls"),
        _ => panic!("expected a command"),
    }
    let mut parsed = no_args();
    parsed.communicate_args = Some(Communicate { message: String::from("hi"), need_reply: false });
    match call_tool("communicate", Some(&args), parsed, &mut d) {
        ToolStep::Communicate(c) => assert_eq!(c.message, "hi"),
        _ => panic!("expected a message"),
    }
}

#[test]
fn update_objective_sets_and_clears() {
    let mut d = data_with(1, vec![]);
    assert!(UpdateObjective { content: Some(String::from(" win \n")) }.run(&mut d));
    assert_eq!(d.objective.as_deref(), Some("win"));
    assert!(!UpdateObjective::default().run(&mut d));
    assert!(d.objective.is_none());
}

#[test]
fn boot_and_heartbeat_messages() {
    assert_eq!(
        boot_message("2024年01月02日 03時04分", 12, None),
        "System: 起動完了。現在時刻は2024年01月02日 03時04分、これが12回目の起動です。"
    );
    let admin = String::from("hello");
    assert_eq!(
        boot_message("t", 1, Some(&admin)),
        "System: 起動完了。現在時刻はt、これが1回目の起動です。\n\n管理者からメッセージがあります:\nhello"
    );
    assert_eq!(heartbeat_message("t"), "System: heartbeat; 現在時刻: t");
}

#[test]
fn session_runs_a_tool_turn_then_a_stop_turn() {
    let d = data_with(10, vec![]);
    let mut s = Session::boot(d, String::from("boot"));
    match s.next_action() {
        Action::Send(h) => assert_eq!(texts(&h), vec!["U:boot"]),
        _ => panic!("expected a request"),
    }
    s.on_reply(reply(
        FinishReason::ToolCalls,
        "thinking",
        Some(vec![call("c1", "get_memory", None), call("c2", "shutdown", None)]),
    ));
    let mut answered = 0;
    while let Action::Execute(c) = s.next_action() {
        let step = call_tool(&c.function.name, c.function.arguments.as_ref(), no_args(), &mut s.data);
        let text = match step {
            ToolStep::Reply(t) => t,
            _ => panic!("unexpected"),
        };
        s.on_tool_result(text);
        answered += 1;
    }
    assert_eq!(answered, 2);
    assert!(matches!(s.next_action(), Action::Save));
    s.on_saved();
    match s.next_action() {
        Action::Send(h) => assert_eq!(
            texts(&h),
            vec![
                "U:boot",
                "A:thinking:2",
                "T:c1:{\"content\":\"mem\\n\"}",
                "T:c2:{\"msg\":\"Shutdown scheduled.\"}"
            ]
        ),
        _ => panic!("expected a request"),
    }
    s.on_reply(reply(FinishReason::Stop, "bye", None));
    assert!(matches!(s.next_action(), Action::Save));
    s.on_saved();
    assert!(matches!(s.next_action(), Action::Heartbeat));
    s.on_clock("now");
    assert!(matches!(s.phase, Phase::Halted));
    assert!(matches!(s.next_action(), Action::Stop));
    let all = texts(&s.data.history());
    assert_eq!(all[all.len() - 2], "A:bye:0");
    assert_eq!(all[all.len() - 1], "U:System: heartbeat; 現在時刻: now");
}

#[test]
fn session_goes_on_after_a_stop_without_shutdown() {
    let d = data_with(2, vec![]);
    let mut s = Session::boot(d, String::from("boot"));
    s.on_reply(reply(FinishReason::Stop, "done", Some(vec![call("x", "exec", None)])));
    assert!(matches!(s.next_action(), Action::Save));
    s.on_saved();
    s.on_clock("t1");
    assert!(matches!(s.phase, Phase::Requesting));
    match s.next_action() {
        Action::Send(h) => assert_eq!(texts(&h), vec!["A:done:1", "U:System: heartbeat; 現在時刻: t1"]),
        _ => panic!("expected a request"),
    }
}

#[test]
fn context_holds_the_most_recent_turns() {
    let mut d = data_with(3, vec![vec![user("s1")], vec![user("s2")], vec![user("s3")], vec![user("s4")]]);
    assert_eq!(texts(&d.history()), vec!["U:s2", "U:s3", "U:s4"]);
    for t in ["n1", "n2"] {
        d.enqueue(vec![user(t)]);
    }
    assert_eq!(texts(&d.history()), vec!["U:s4", "U:n1", "U:n2"]);
}
