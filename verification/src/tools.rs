//! The tools that the model may call, and how a call is answered.
use vstd::prelude::*;

pub mod communicate;
pub mod exec;
pub mod memory;
pub mod objective;

use crate::data::Data;
use crate::text::{json_escaped, json_object1, json_object_of, json_string, str_equal};
use communicate::Communicate;
use exec::Exec;
use memory::{appended, replaced, AppendMemory, ReplaceMemory};

verus! {

/// A call's arguments read as each tool's argument type: each field holds
/// the arguments when their JSON text parses as that type.
pub struct ToolArgs {
    pub exec_args: Option<Exec>,
    pub communicate_args: Option<Communicate>,
    pub append_args: Option<AppendMemory>,
    pub replace_args: Option<ReplaceMemory>,
}

/// How a tool call goes on: answered at once, or a command or a message to
/// the admin to be carried out first, whose report is then the answer.
pub enum ToolStep {
    Reply(String),
    Exec(Exec),
    Communicate(Communicate),
}

/// The answer that reports an error.
pub open spec fn err_reply(text: Seq<char>) -> Seq<char> {
    json_object1("err"@, text)
}

/// The answer that reports a success.
pub open spec fn msg_reply(text: Seq<char>) -> Seq<char> {
    json_object1("msg"@, text)
}

/// The error text for a call of `tool` without arguments.
pub open spec fn missing_text(tool: Seq<char>) -> Seq<char> {
    "Failed to call `"@ + tool + "`: No arguments specified"@
}

/// The error text for a call of `tool` whose arguments do not parse.
pub open spec fn malformed_text(tool: Seq<char>) -> Seq<char> {
    "Failed to call `"@ + tool + "`: Malformed arguments"@
}

/// The error text for a call of a tool that does not exist.
pub open spec fn unknown_text(name: Seq<char>) -> Seq<char> {
    "Failed to call a tool: Unknown function `"@ + name + "`"@
}

/// `r` answers at once with the text `text`.
pub open spec fn replies(r: ToolStep, text: Seq<char>) -> bool {
    r matches ToolStep::Reply(s) && s@ == text
}

/// The names of the tools that `call_tool` knows.
pub open spec fn known_tool(name: Seq<char>) -> bool {
    ||| name == "exec"@
    ||| name == "communicate"@
    ||| name == "append_memory"@
    ||| name == "replace_memory"@
    ||| name == "get_memory"@
    ||| name == "shutdown"@
}

/// An immediate answer has one text: `replies` never holds of two
/// different texts for the same step, and never of a step that is not an
/// immediate answer.
pub proof fn lemma_replies_determined(r: ToolStep, a: Seq<char>, b: Seq<char>)
    ensures
        replies(r, a) && replies(r, b) ==> a == b,
        !(r is Reply) ==> !replies(r, a),
{
}

/// The error texts name the tool they are about, between fixed words that
/// do not depend on the tool: each is the text for the empty name with the
/// name put in after the opening backquote.
pub proof fn lemma_error_texts_name_the_tool(tool: Seq<char>)
    ensures
        missing_text(tool) == missing_text(Seq::empty()).take(16) + tool + missing_text(Seq::empty()).skip(16),
        malformed_text(tool) == malformed_text(Seq::empty()).take(16) + tool + malformed_text(Seq::empty()).skip(16),
        unknown_text(tool) == unknown_text(Seq::empty()).take(41) + tool + unknown_text(Seq::empty()).skip(41),
{
    reveal_strlit("Failed to call `");
    reveal_strlit("Failed to call a tool: Unknown function `");
    assert(missing_text(tool) =~= missing_text(Seq::empty()).take(16) + tool + missing_text(Seq::empty()).skip(16));
    assert(malformed_text(tool) =~= malformed_text(Seq::empty()).take(16) + tool + malformed_text(Seq::empty()).skip(16));
    assert(unknown_text(tool) =~= unknown_text(Seq::empty()).take(41) + tool + unknown_text(Seq::empty()).skip(41));
}

/// An answer object is `{"err":` (or `{"msg":`) followed by the text as a
/// JSON string literal and `}`.
pub proof fn lemma_reply_objects(text: Seq<char>)
    ensures
        err_reply(text) == seq!['{', '"', 'e', 'r', 'r', '"', ':'] + json_string(text) + seq!['}'],
        msg_reply(text) == seq!['{', '"', 'm', 's', 'g', '"', ':'] + json_string(text) + seq!['}'],
{
    reveal_strlit("err");
    reveal_strlit("msg");
    assert(json_escaped("err"@) =~= "err"@) by {
        reveal_with_fuel(json_escaped, 4);
    }
    assert(json_escaped("msg"@) =~= "msg"@) by {
        reveal_with_fuel(json_escaped, 4);
    }
    assert(err_reply(text) =~= seq!['{', '"', 'e', 'r', 'r', '"', ':'] + json_string(text) + seq!['}']);
    assert(msg_reply(text) =~= seq!['{', '"', 'm', 's', 'g', '"', ':'] + json_string(text) + seq!['}']);
}

fn three(a: &str, b: &str, c: &str) -> (r: String)
    ensures
        r@ == a@ + b@ + c@,
{
    let mut s = String::from_str(a);
    s.append(b);
    s.append(c);
    s
}

fn err_json(text: String) -> (r: String)
    ensures
        r@ == err_reply(text@),
{
    json_object_of("err", text.as_str())
}

/// Answers the model's call of the tool `name` with the JSON text `args`
/// (read beforehand as each tool's argument type, in `parsed`):
/// `exec` and `communicate` go on to be carried out, the memory tools read
/// or write the memory, `shutdown` schedules the shutdown, and a call without
/// arguments, with arguments that do not parse, or of an unknown tool is
/// answered with an error.
pub fn call_tool(name: &str, args: Option<&String>, parsed: ToolArgs, data: &mut Data) -> (r: ToolStep)
    ensures
        old(data).wf() ==> final(data).wf(),
        name@ == "exec"@ ==> {
            &&& *final(data) == *old(data)
            &&& args is None ==> replies(r, err_reply(missing_text("exec"@)))
            &&& args is Some && parsed.exec_args is None ==> replies(r, err_reply(malformed_text("exec"@)))
            &&& args is Some && parsed.exec_args is Some ==> r == ToolStep::Exec(parsed.exec_args->0)
        },
        name@ == "communicate"@ ==> {
            &&& *final(data) == *old(data)
            &&& args is None ==> replies(r, err_reply(missing_text("communicate"@)))
            &&& args is Some && parsed.communicate_args is None ==> replies(
                r,
                err_reply(malformed_text("communicate"@)),
            )
            &&& args is Some && parsed.communicate_args is Some ==> r == ToolStep::Communicate(
                parsed.communicate_args->0,
            )
        },
        name@ == "append_memory"@ ==> {
            &&& args is None ==> replies(r, err_reply(missing_text("append_memory"@)))
                && *final(data) == *old(data)
            &&& args is Some && parsed.append_args is None ==> replies(
                r,
                err_reply(malformed_text("append_memory"@)),
            ) && *final(data) == *old(data)
            &&& args is Some && parsed.append_args is Some ==> {
                &&& replies(r, msg_reply("Memory updated."@))
                &&& final(data).memory@ == appended(
                    old(data).memory@,
                    parsed.append_args->0.content@,
                )
                &&& *final(data) == (Data { memory: final(data).memory, ..*old(data) })
            }
        },
        name@ == "replace_memory"@ ==> {
            &&& args is None ==> replies(r, err_reply(missing_text("replace_memory"@)))
                && *final(data) == *old(data)
            &&& args is Some && parsed.replace_args is None ==> replies(
                r,
                err_reply(malformed_text("replace_memory"@)),
            ) && *final(data) == *old(data)
            &&& args is Some && parsed.replace_args is Some ==> {
                &&& replies(r, msg_reply("Memory updated."@))
                &&& final(data).memory@ == replaced(parsed.replace_args->0.content@)
                &&& *final(data) == (Data { memory: final(data).memory, ..*old(data) })
            }
        },
        name@ == "get_memory"@ ==> replies(r, json_object1("content"@, old(data).memory@))
            && *final(data) == *old(data),
        name@ == "shutdown"@ ==> replies(r, msg_reply("Shutdown scheduled."@)) && *final(data)
            == (Data { shutdown: true, ..*old(data) }),
        !known_tool(name@) ==> replies(r, err_reply(unknown_text(name@))) && *final(data)
            == *old(data),
{
    proof {
        reveal_strlit("exec");
        reveal_strlit("communicate");
        reveal_strlit("append_memory");
        reveal_strlit("replace_memory");
        reveal_strlit("get_memory");
        reveal_strlit("shutdown");
        assert("exec"@.len() == 4 && "communicate"@.len() == 11 && "append_memory"@.len() == 13);
        assert("replace_memory"@.len() == 14 && "get_memory"@.len() == 10 && "shutdown"@.len() == 8);
    }
    if str_equal(name, "exec") {
        if args.is_none() {
            return ToolStep::Reply(err_json(three("Failed to call `", "exec", "`: No arguments specified")));
        }
        match parsed.exec_args {
            None => ToolStep::Reply(err_json(three("Failed to call `", "exec", "`: Malformed arguments"))),
            Some(e) => ToolStep::Exec(e),
        }
    } else if str_equal(name, "communicate") {
        if args.is_none() {
            return ToolStep::Reply(
                err_json(three("Failed to call `", "communicate", "`: No arguments specified")),
            );
        }
        match parsed.communicate_args {
            None => ToolStep::Reply(
                err_json(three("Failed to call `", "communicate", "`: Malformed arguments")),
            ),
            Some(c) => ToolStep::Communicate(c),
        }
    } else if str_equal(name, "append_memory") {
        if args.is_none() {
            return ToolStep::Reply(
                err_json(three("Failed to call `", "append_memory", "`: No arguments specified")),
            );
        }
        match parsed.append_args {
            None => ToolStep::Reply(
                err_json(three("Failed to call `", "append_memory", "`: Malformed arguments")),
            ),
            Some(a) => {
                a.run(&mut data.memory);
                ToolStep::Reply(json_object_of("msg", "Memory updated."))
            },
        }
    } else if str_equal(name, "replace_memory") {
        if args.is_none() {
            return ToolStep::Reply(
                err_json(three("Failed to call `", "replace_memory", "`: No arguments specified")),
            );
        }
        match parsed.replace_args {
            None => ToolStep::Reply(
                err_json(three("Failed to call `", "replace_memory", "`: Malformed arguments")),
            ),
            Some(a) => {
                a.run(&mut data.memory);
                ToolStep::Reply(json_object_of("msg", "Memory updated."))
            },
        }
    } else if str_equal(name, "get_memory") {
        ToolStep::Reply(json_object_of("content", data.memory.as_str()))
    } else if str_equal(name, "shutdown") {
        data.shutdown = true;
        ToolStep::Reply(json_object_of("msg", "Shutdown scheduled."))
    } else {
        ToolStep::Reply(err_json(three("Failed to call a tool: Unknown function `", name, "`")))
    }
}

} // verus!
