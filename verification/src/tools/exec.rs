//! The `exec` tool: a shell command, and the report of how it ran.
use vstd::prelude::*;

use crate::text::{
    lemma_member_plain, plain_char,
    decimal, json_bool, json_member, json_string, push_char, push_decimal, push_json_bool,
    push_json_string, push_member_key,
};

verus! {

/// Arguments of `exec`: the command line handed to `sh -c`.
pub struct Exec {
    pub command: String,
}

/// How a command ran: whether it was killed for running past its time, its
/// exit code if it had one, and what it wrote.
pub struct Output {
    pub timeout: bool,
    pub exit_code: Option<i32>,
    pub stdout: String,
    pub stderr: String,
}

/// The seconds a command may run before it is killed.
pub const TIMEOUT_SECS: u64 = 60;

/// The JSON text of an exit code: the number, or `null`.
pub open spec fn json_exit_code(code: Option<i32>) -> Seq<char> {
    match code {
        Some(n) => decimal(n as int),
        None => "null"@,
    }
}

/// The JSON report of a run: `timeout`, `exit_code`, `stdout`, `stderr`.
pub open spec fn output_json(o: Output) -> Seq<char> {
    seq!['{'] + json_member("timeout"@, json_bool(o.timeout)) + seq![','] + json_member(
        "exit_code"@,
        json_exit_code(o.exit_code),
    ) + seq![','] + json_member("stdout"@, json_string(o.stdout@)) + seq![','] + json_member(
        "stderr"@,
        json_string(o.stderr@),
    ) + seq!['}']
}

proof fn lemma_plain_keys()
    ensures
        forall|i: int| 0 <= i < "timeout"@.len() ==> plain_char(#[trigger] "timeout"@[i]),
        forall|i: int| 0 <= i < "exit_code"@.len() ==> plain_char(#[trigger] "exit_code"@[i]),
        forall|i: int| 0 <= i < "stdout"@.len() ==> plain_char(#[trigger] "stdout"@[i]),
        forall|i: int| 0 <= i < "stderr"@.len() ==> plain_char(#[trigger] "stderr"@[i]),
{
    reveal_strlit("timeout");
    reveal_strlit("exit_code");
    reveal_strlit("stdout");
    reveal_strlit("stderr");
}

/// The literal text of a run's report, member by member.
pub open spec fn report_head(o: Output) -> Seq<char> {
    seq!['{', '"'] + "timeout"@ + seq!['"', ':'] + (if o.timeout {
        "true"@
    } else {
        "false"@
    }) + seq![',', '"'] + "exit_code"@ + seq!['"', ':'] + match o.exit_code {
        Some(n) => decimal(n as int),
        None => "null"@,
    }
}

/// The literal text of the end of a run's report: its stdout and stderr.
pub open spec fn report_tail(o: Output) -> Seq<char> {
    seq![',', '"'] + "stdout"@ + seq!['"', ':'] + json_string(o.stdout@) + seq![',', '"']
        + "stderr"@ + seq!['"', ':'] + json_string(o.stderr@) + seq!['}']
}

proof fn lemma_report_split(o: Output)
    ensures
        output_json(o) == report_head(o) + report_tail(o),
{
    lemma_plain_keys();
    let b = json_bool(o.timeout);
    let c = json_exit_code(o.exit_code);
    let out = json_string(o.stdout@);
    let err = json_string(o.stderr@);
    lemma_member_plain("timeout"@, b);
    lemma_member_plain("exit_code"@, c);
    lemma_member_plain("stdout"@, out);
    lemma_member_plain("stderr"@, err);
    let m1 = json_member("timeout"@, b);
    let m2 = json_member("exit_code"@, c);
    let m3 = json_member("stdout"@, out);
    let m4 = json_member("stderr"@, err);
    assert(output_json(o) == seq!['{'] + m1 + seq![','] + m2 + seq![','] + m3 + seq![','] + m4 + seq!['}']);
    assert(report_head(o) =~= seq!['{'] + m1 + seq![','] + m2);
    assert(report_tail(o) =~= seq![','] + m3 + seq![','] + m4 + seq!['}']);
    assert(output_json(o) =~= report_head(o) + report_tail(o));
}

/// The report begins with the run's own timeout flag and exit code:
/// `{"timeout":` then `true` or `false`, then `,"exit_code":` then the
/// code in decimal, or `null` when the command had none.
pub proof fn lemma_report_head(o: Output)
    ensures
        output_json(o).len() >= report_head(o).len(),
        output_json(o).take(report_head(o).len() as int) == report_head(o),
{
    lemma_report_split(o);
    assert((report_head(o) + report_tail(o)).take(report_head(o).len() as int) =~= report_head(o));
}

/// The report ends with the run's own output, whatever its exit code:
/// `,"stdout":` then the JSON string of what the command wrote to stdout,
/// `,"stderr":` then the JSON string of what it wrote to stderr, then `}`.
pub proof fn lemma_report_tail(o: Output)
    ensures
        output_json(o).len() >= report_tail(o).len(),
        output_json(o).skip(output_json(o).len() - report_tail(o).len()) == report_tail(o),
{
    lemma_report_split(o);
    assert((report_head(o) + report_tail(o)).skip(report_head(o).len() as int) =~= report_tail(o));
}

impl Output {
    /// The JSON text of the report, which is the tool's reply.
    pub fn to_json(&self) -> (r: String)
        ensures
            r@ == output_json(*self),
    {
        let mut out = String::new();
        push_char(&mut out, '{');
        push_member_key(&mut out, "timeout");
        push_json_bool(&mut out, self.timeout);
        push_char(&mut out, ',');
        push_member_key(&mut out, "exit_code");
        match self.exit_code {
            Some(n) => push_decimal(&mut out, n as i64),
            None => out.append("null"),
        }
        push_char(&mut out, ',');
        push_member_key(&mut out, "stdout");
        push_json_string(&mut out, self.stdout.as_str());
        push_char(&mut out, ',');
        push_member_key(&mut out, "stderr");
        push_json_string(&mut out, self.stderr.as_str());
        push_char(&mut out, '}');
        assert(out@ =~= output_json(*self));
        out
    }
}

} // verus!
