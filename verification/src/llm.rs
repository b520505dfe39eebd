//! The chat messages exchanged with the model, the replies it sends back,
//! and how a request is put together from the conversation context.
use vstd::prelude::*;

use crate::config::Config;

verus! {

/// One message of the conversation, tagged by who speaks.
#[derive(Clone)]
pub enum Message {
    System { content: String },
    User { content: String },
    Assistant { content: String, tool_calls: Option<Vec<ToolCall>> },
    Tool { content: String, tool_call_id: String },
}

/// A call of one of the agent's tools that the model asks for.
#[derive(Clone)]
pub struct ToolCall {
    pub id: String,
    pub call_type: ToolCallType,
    pub function: Function,
}

/// The kind of a tool call; the model only calls functions.
#[derive(Clone, Copy, PartialEq, Eq, Structural)]
pub enum ToolCallType {
    Function,
}

/// The tool's name and the JSON text of its arguments.
#[derive(Clone)]
pub struct Function {
    pub name: String,
    pub arguments: Option<String>,
}

/// The model's reply to a request.
pub struct Response {
    pub choices: Vec<Choice>,
}

/// One completion of the reply.
pub struct Choice {
    pub finish_reason: FinishReason,
    pub message: ResponseMessage,
}

/// Why the model stopped: it is done, or it waits for the results of tool calls.
#[derive(Clone, Copy, PartialEq, Eq, Structural)]
pub enum FinishReason {
    Stop,
    ToolCalls,
}

/// The message the model replied with.
pub struct ResponseMessage {
    pub content: String,
    pub tool_calls: Option<Vec<ToolCall>>,
}

impl Message {
    /// The assistant message that records a reply of the model.
    pub fn from_resp_message(resp_message: ResponseMessage) -> (r: Self)
        ensures
            r == (Message::Assistant {
                content: resp_message.content,
                tool_calls: resp_message.tool_calls,
            }),
    {
        Message::Assistant { content: resp_message.content, tool_calls: resp_message.tool_calls }
    }
}

impl Function {
    /// A copy of the function's name and arguments.
    pub fn duplicate(&self) -> (r: Self)
        ensures
            r == *self,
    {
        let arguments = match &self.arguments {
            Some(a) => Some(a.clone()),
            None => None,
        };
        Function { name: self.name.clone(), arguments }
    }
}

impl ToolCall {
    /// A copy of the call.
    pub fn duplicate(&self) -> (r: Self)
        ensures
            r == *self,
    {
        ToolCall { id: self.id.clone(), call_type: self.call_type, function: self.function.duplicate() }
    }
}

/// A copy of a list of tool calls.
pub fn duplicate_calls(calls: &Vec<ToolCall>) -> (r: Vec<ToolCall>)
    ensures
        r@ == calls@,
{
    let mut r: Vec<ToolCall> = Vec::new();
    let n = calls.len();
    for i in 0..n
        invariant
            n == calls@.len(),
            r@ == calls@.take(i as int),
    {
        r.push(calls[i].duplicate());
        assert(r@ =~= calls@.take(i + 1));
    }
    assert(calls@.take(n as int) =~= calls@);
    r
}

/// The notice that stands before a context whose first message is not the
/// user's, because older turns were dropped.
pub open spec fn truncation_notice() -> Seq<char> {
    "System: これ以前のログは切り捨てられています。"@
}

/// The messages sent to the model: the system prompt, then the truncation
/// notice when the context does not open with a user message, then the
/// context.
pub fn request_messages(system_prompt: &String, memory: Vec<Message>) -> (r: Vec<Message>)
    requires
        memory@.len() > 0,
    ensures
        r@[0] == (Message::System { content: *system_prompt }),
        memory@[0] is User ==> r@ == seq![Message::System { content: *system_prompt }] + memory@,
        !(memory@[0] is User) ==> {
            &&& r@.len() == memory@.len() + 2
            &&& r@[1] matches Message::User { content } && content@ == truncation_notice()
            &&& r@.skip(2) == memory@
        },
{
    let mut messages: Vec<Message> = Vec::new();
    messages.push(Message::System { content: system_prompt.clone() });
    let opens_with_user = match &memory[0] {
        Message::User { .. } => true,
        _ => false,
    };
    if !opens_with_user {
        messages.push(Message::User { content: String::from_str("System: これ以前のログは切り捨てられています。") });
    }
    let ghost before = messages@;
    let ghost context = memory@;
    let mut memory = memory;
    messages.append(&mut memory);
    proof {
        if opens_with_user {
            assert(messages@ =~= seq![Message::System { content: *system_prompt }] + context) by {
                assert(before =~= seq![Message::System { content: *system_prompt }]);
            }
        } else {
            assert(messages@.skip(2) =~= context);
        }
    }
    messages
}

/// The URL that chat completions are posted to.
pub fn completions_url(config: &Config) -> (r: String)
    ensures
        r@ == config.endpoint@ + "/chat/completions"@,
{
    let mut url = config.endpoint.clone();
    url.append("/chat/completions");
    url
}

/// The `Authorization` header value, when the configuration has a token.
pub fn authorization(config: &Config) -> (r: Option<String>)
    ensures
        r is Some <==> config.token is Some,
        r matches Some(h) ==> h@ == "Bearer "@ + config.token->0@,
{
    match &config.token {
        Some(token) => {
            let mut header = String::from_str("Bearer ");
            header.append(token.as_str());
            Some(header)
        },
        None => None,
    }
}

/// A tool that the model is offered: its name, what it does, and the one
/// string parameter it requires, if it takes any.
pub struct ToolSpec {
    pub name: String,
    pub description: String,
    pub parameter: Option<String>,
}

/// The names of the tools that the model is offered, in order.
pub open spec fn offered_tool_names() -> Seq<Seq<char>> {
    seq!["exec"@, "ask"@, "notify"@, "shutdown"@]
}

fn tool_spec(name: &str, description: &str, parameter: Option<&str>) -> (r: ToolSpec)
    ensures
        r.name@ == name@,
        r.description@ == description@,
        r.parameter is Some <==> parameter is Some,
        r.parameter matches Some(p) ==> p@ == parameter->0@,
{
    ToolSpec {
        name: String::from_str(name),
        description: String::from_str(description),
        parameter: match parameter {
            Some(p) => Some(String::from_str(p)),
            None => None,
        },
    }
}

/// What each offered tool is described as, in order.
pub open spec fn offered_tool_descriptions() -> Seq<Seq<char>> {
    seq![
        "Executes a UNIX command or a Shellscript"@,
        "Ask the admin"@,
        "Notify the admin"@,
        "Schedule a shutdown; Use only when requested by the admin"@,
    ]
}

/// The tools that every request offers the model.
pub fn offered_tools() -> (r: Vec<ToolSpec>)
    ensures
        r@.len() == offered_tool_names().len(),
        forall|i: int| 0 <= i < r@.len() ==> #[trigger] r@[i].name@ == offered_tool_names()[i],
        forall|i: int|
            0 <= i < r@.len() ==> #[trigger] r@[i].description@ == offered_tool_descriptions()[i],
        r@[0].parameter matches Some(p) && p@ == "command"@,
        r@[1].parameter matches Some(p) && p@ == "query"@,
        r@[2].parameter matches Some(p) && p@ == "message"@,
        r@[3].parameter is None,
{
    let mut tools: Vec<ToolSpec> = Vec::new();
    tools.push(tool_spec("exec", "Executes a UNIX command or a Shellscript", Some("command")));
    tools.push(tool_spec("ask", "Ask the admin", Some("query")));
    tools.push(tool_spec("notify", "Notify the admin", Some("message")));
    tools.push(
        tool_spec("shutdown", "Schedule a shutdown; Use only when requested by the admin", None),
    );
    tools
}

} // verus!
