//! The `communicate` tool: a message to the admin over a webhook, and, when
//! asked for, the admin's reply read from a local socket.
use vstd::prelude::*;

use crate::text::{
    lemma_member_plain, plain_char,
    json_bool, json_member, json_object1, json_object_of, json_string, push_char, push_json_bool,
    push_json_string, push_member_key, trim, trimmed,
};

verus! {

/// Arguments of `communicate`: the message, and whether to wait for a reply.
pub struct Communicate {
    pub message: String,
    pub need_reply: bool,
}

/// How the exchange went: whether it succeeded, what happened, and the
/// admin's reply if one came.
pub struct Output {
    pub success: bool,
    pub result: String,
    pub response: Option<String>,
}

/// Where a run stands once the message has been handed to the webhook.
pub enum Progress {
    /// The exchange is over.
    Done(Output),
    /// The admin's reply is to be read next.
    AwaitReply,
}

/// Why no reply could be read from the admin's socket.
#[derive(Clone, Copy, PartialEq, Eq, Structural)]
pub enum ReplyFailure {
    Accept,
    Prompt,
    Read,
}

/// The line written to the admin before the reply is read.
pub open spec fn reply_prompt() -> Seq<char> {
    "=== Waiting for a message ===\n"@
}

/// What a failure to read the reply is reported as.
pub open spec fn failure_text(f: ReplyFailure) -> Seq<char> {
    match f {
        ReplyFailure::Accept => "Failed to accept a connection from the admin"@,
        ReplyFailure::Prompt => "Failed to keep the connection to the admin"@,
        ReplyFailure::Read => "Failed to decode the response from the admin"@,
    }
}

impl ReplyFailure {
    /// The text that reports this failure.
    pub fn describe(&self) -> (r: String)
        ensures
            r@ == failure_text(*self),
    {
        match self {
            ReplyFailure::Accept => String::from_str("Failed to accept a connection from the admin"),
            ReplyFailure::Prompt => String::from_str("Failed to keep the connection to the admin"),
            ReplyFailure::Read => String::from_str("Failed to decode the response from the admin"),
        }
    }
}

/// The text written to the admin's socket before the reply is read.
pub fn reply_prompt_text() -> (r: String)
    ensures
        r@ == reply_prompt(),
{
    String::from_str("=== Waiting for a message ===\n")
}

/// The JSON body posted to the webhook: the message as its `content`.
pub fn webhook_payload(message: &str) -> (r: String)
    ensures
        r@ == json_object1("content"@, message@),
{
    json_object_of("content", message)
}

/// `prefix` followed by `detail`.
fn joined(prefix: &str, detail: &str) -> (r: String)
    ensures
        r@ == prefix@ + detail@,
{
    let mut s = String::from_str(prefix);
    s.append(detail);
    s
}

impl Communicate {
    /// The next step once the message was handed to the webhook (`sent` is
    /// the webhook's error text when that failed): a failure report, the end
    /// of the exchange when no reply is wanted, or the wait for the reply.
    pub fn after_send(&self, sent: Result<(), String>) -> (r: Progress)
        ensures
            sent matches Err(e) ==> r matches Progress::Done(o) && !o.success
                && o.result@ == "Failed to send the message to the admin: "@ + e@ && o.response is None,
            sent is Ok && !self.need_reply ==> (r matches Progress::Done(o) && o.success
                && o.result@ == "Message sent."@ && o.response is None),
            sent is Ok && self.need_reply ==> r is AwaitReply,
    {
        match sent {
            Err(e) => Progress::Done(Output {
                success: false,
                result: joined("Failed to send the message to the admin: ", e.as_str()),
                response: None,
            }),
            Ok(()) => {
                if !self.need_reply {
                    Progress::Done(
                        Output {
                            success: true,
                            result: String::from_str("Message sent."),
                            response: None,
                        },
                    )
                } else {
                    Progress::AwaitReply
                }
            },
        }
    }

    /// The end of the exchange once the reply was read (`reply` is the raw
    /// text read, or why none could be): the reply, trimmed, or the failure.
    pub fn after_reply(reply: Result<String, ReplyFailure>) -> (r: Output)
        ensures
            reply matches Ok(raw) ==> r.success && r.result@ == "Message sent, reply received."@
                && (r.response matches Some(t) && t@ == trimmed(raw@)),
            reply matches Err(f) ==> !r.success && r.result@
                == "The message was sent, but failed to receive a reply from the admin: "@
                + failure_text(f) && r.response is None,
    {
        match reply {
            Ok(raw) => Output {
                success: true,
                result: String::from_str("Message sent, reply received."),
                response: Some(trim(raw.as_str()).to_owned()),
            },
            Err(f) => {
                let why = f.describe();
                Output {
                    success: false,
                    result: joined(
                        "The message was sent, but failed to receive a reply from the admin: ",
                        why.as_str(),
                    ),
                    response: None,
                }
            },
        }
    }
}

/// The JSON report of an exchange: `success`, `result`, and `response` only
/// when there is one.
pub open spec fn output_json(o: Output) -> Seq<char> {
    seq!['{'] + json_member("success"@, json_bool(o.success)) + seq![','] + json_member(
        "result"@,
        json_string(o.result@),
    ) + match o.response {
        Some(t) => seq![','] + json_member("response"@, json_string(t@)),
        None => Seq::empty(),
    } + seq!['}']
}

proof fn lemma_plain_keys()
    ensures
        forall|i: int| 0 <= i < "success"@.len() ==> plain_char(#[trigger] "success"@[i]),
        forall|i: int| 0 <= i < "result"@.len() ==> plain_char(#[trigger] "result"@[i]),
        forall|i: int| 0 <= i < "response"@.len() ==> plain_char(#[trigger] "response"@[i]),
{
    reveal_strlit("success");
    reveal_strlit("result");
    reveal_strlit("response");
}

/// The report is the exchange's own outcome: `{"success":` then `true`
/// exactly when the exchange succeeded, `,"result":` then its result text,
/// then `,"response":` and the admin's reply only when there is one, then `}`.
pub proof fn lemma_report_fields(o: Output)
    ensures
        output_json(o) == seq!['{', '"'] + "success"@ + seq!['"', ':'] + (if o.success {
            "true"@
        } else {
            "false"@
        }) + seq![',', '"'] + "result"@ + seq!['"', ':'] + json_string(o.result@) + match o.response {
            Some(t) => seq![',', '"'] + "response"@ + seq!['"', ':'] + json_string(t@),
            None => Seq::empty(),
        } + seq!['}'],
{
    lemma_plain_keys();
    lemma_member_plain("success"@, json_bool(o.success));
    lemma_member_plain("result"@, json_string(o.result@));
    match o.response {
        Some(t) => {
            lemma_member_plain("response"@, json_string(t@));
        },
        None => {},
    }
    assert(output_json(o) =~= seq!['{', '"'] + "success"@ + seq!['"', ':'] + (if o.success {
        "true"@
    } else {
        "false"@
    }) + seq![',', '"'] + "result"@ + seq!['"', ':'] + json_string(o.result@) + match o.response {
        Some(t) => seq![',', '"'] + "response"@ + seq!['"', ':'] + json_string(t@),
        None => Seq::empty(),
    } + seq!['}']);
}

/// A failed exchange is never reported as a success: the report of an
/// outcome that did not succeed starts with `{"success":false`, and that of
/// one that did with `{"success":true`.
pub proof fn lemma_report_success_flag(o: Output)
    ensures
        ({
            let flag = seq!['{', '"'] + "success"@ + seq!['"', ':'] + if o.success {
                "true"@
            } else {
                "false"@
            };
            output_json(o).len() >= flag.len() && output_json(o).take(flag.len() as int) == flag
        }),
{
    lemma_report_fields(o);
    let flag = seq!['{', '"'] + "success"@ + seq!['"', ':'] + if o.success {
        "true"@
    } else {
        "false"@
    };
    assert(output_json(o).take(flag.len() as int) =~= flag);
}

impl Output {
    /// The JSON text of the report, which is the tool's reply.
    pub fn to_json(&self) -> (r: String)
        ensures
            r@ == output_json(*self),
    {
        let mut out = String::new();
        push_char(&mut out, '{');
        push_member_key(&mut out, "success");
        push_json_bool(&mut out, self.success);
        push_char(&mut out, ',');
        push_member_key(&mut out, "result");
        push_json_string(&mut out, self.result.as_str());
        match &self.response {
            Some(t) => {
                push_char(&mut out, ',');
                push_member_key(&mut out, "response");
                push_json_string(&mut out, t.as_str());
            },
            None => {},
        }
        push_char(&mut out, '}');
        assert(out@ =~= output_json(*self));
        out
    }
}

} // verus!
