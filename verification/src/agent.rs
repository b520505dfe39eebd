//! The agent's conversation loop as a state machine: the library decides
//! what to do next and how each outcome changes the state; the caller
//! performs the actions (requests, tool runs, saving, reading the clock) and
//! reports back.
use vstd::prelude::*;

use crate::data::{flatten, last_n, lemma_push_keeps_last, Data};
use crate::llm::{duplicate_calls, FinishReason, Message, Response, ToolCall};
use crate::ring::{pushed, ring_items};
use crate::text::{decimal, push_decimal};

verus! {

/// The seconds to wait before a failed request is sent again.
pub const RETRY_DELAY_SECS: u64 = 10;

/// The message the agent boots with, given the local time, the boot count
/// and the admin's message if there is one.
pub open spec fn boot_text(now: Seq<char>, bootcount: u32, initial: Option<Seq<char>>) -> Seq<char> {
    "System: 起動完了。現在時刻は"@ + now + "、これが"@ + decimal(bootcount as int) + "回目の起動です。"@
        + match initial {
        Some(m) => "\n\n管理者からメッセージがあります:\n"@ + m,
        None => Seq::empty(),
    }
}

/// The message that starts a new round after the model stopped.
pub open spec fn heartbeat_text(now: Seq<char>) -> Seq<char> {
    "System: heartbeat; 現在時刻: "@ + now
}

/// A turn that is the one heartbeat message for the local time `now`.
pub open spec fn is_heartbeat_turn(turn: Seq<Message>, now: Seq<char>) -> bool {
    &&& turn.len() == 1
    &&& turn[0] matches Message::User { content } && content@ == heartbeat_text(now)
}

/// The admin's message is never dropped: whatever the boot count, the boot
/// message with an initial message `m` is the one without it followed by
/// the admin's header and `m`.
pub proof fn lemma_boot_text_keeps_admin_message(now: Seq<char>, bootcount: u32, m: Seq<char>)
    ensures
        boot_text(now, bootcount, Some(m)) == boot_text(now, bootcount, None)
            + "\n\n管理者からメッセージがあります:\n"@ + m,
        boot_text(now, bootcount, Some(m)).len() > m.len(),
        boot_text(now, bootcount, Some(m)).skip(boot_text(now, bootcount, Some(m)).len() - m.len())
            == m,
{
    let base = boot_text(now, bootcount, None);
    let full = boot_text(now, bootcount, Some(m));
    assert(base =~= "System: 起動完了。現在時刻は"@ + now + "、これが"@ + decimal(bootcount as int)
        + "回目の起動です。"@);
    assert(full =~= base + "\n\n管理者からメッセージがあります:\n"@ + m);
    reveal_strlit("\n\n管理者からメッセージがあります:\n");
    assert(full.skip(full.len() - m.len()) =~= m);
}

/// The boot message without an admin message is the header, the local time,
/// the boot count in decimal and the closing words, in that order.
pub proof fn lemma_boot_text_parts(now: Seq<char>, bootcount: u32)
    ensures
        boot_text(now, bootcount, None) == "System: 起動完了。現在時刻は"@ + now + "、これが"@ + decimal(
            bootcount as int,
        ) + "回目の起動です。"@,
{
    assert(boot_text(now, bootcount, None) =~= "System: 起動完了。現在時刻は"@ + now + "、これが"@
        + decimal(bootcount as int) + "回目の起動です。"@);
}

/// The heartbeat for any time is the fixed heartbeat words followed by
/// that time.
pub proof fn lemma_heartbeat_inserts_time(now: Seq<char>)
    ensures
        heartbeat_text(now) == heartbeat_text(Seq::empty()) + now,
{
    assert(heartbeat_text(Seq::empty()) =~= "System: heartbeat; 現在時刻: "@);
}

/// The local time stands in the boot message right after the fixed opening
/// words, which do not depend on it.
pub proof fn lemma_boot_text_inserts_time(now: Seq<char>, bootcount: u32, initial: Option<Seq<char>>)
    ensures
        boot_text(now, bootcount, initial) == boot_text(Seq::empty(), bootcount, initial).take(18) + now
            + boot_text(Seq::empty(), bootcount, initial).skip(18),
{
    reveal_strlit("System: 起動完了。現在時刻は");
    let opening = "System: 起動完了。現在時刻は"@;
    let rest = "、これが"@ + decimal(bootcount as int) + "回目の起動です。"@ + match initial {
        Some(m) => "\n\n管理者からメッセージがあります:\n"@ + m,
        None => Seq::empty(),
    };
    assert(boot_text(now, bootcount, initial) =~= opening + now + rest);
    assert(boot_text(Seq::empty(), bootcount, initial) =~= opening + rest);
    assert((opening + rest).take(18) =~= opening);
    assert((opening + rest).skip(18) =~= rest);
}

/// The heartbeat ends with the local time it was given.
pub proof fn lemma_heartbeat_ends_with_time(now: Seq<char>)
    ensures
        heartbeat_text(now).len() >= now.len(),
        heartbeat_text(now).skip(heartbeat_text(now).len() - now.len()) == now,
{
    assert(heartbeat_text(now).skip(heartbeat_text(now).len() - now.len()) =~= now);
}

/// The boot message: the local time `now`, how many times the agent has
/// booted, and the admin's message when one was given.
pub fn boot_message(now: &str, bootcount: u32, initial_message: Option<&String>) -> (r: String)
    ensures
        r@ == boot_text(
            now@,
            bootcount,
            match initial_message {
                Some(m) => Some(m@),
                None => None,
            },
        ),
{
    let mut s = String::from_str("System: 起動完了。現在時刻は");
    s.append(now);
    s.append("、これが");
    push_decimal(&mut s, bootcount as i64);
    s.append("回目の起動です。");
    let ghost head = s@;
    if let Some(m) = initial_message {
        s.append("\n\n管理者からメッセージがあります:\n");
        s.append(m.as_str());
        assert(s@ =~= head + ("\n\n管理者からメッセージがあります:\n"@ + m@));
    } else {
        assert(s@ =~= head + Seq::<char>::empty());
    }
    s
}

/// The heartbeat message for the local time `now`.
pub fn heartbeat_message(now: &str) -> (r: String)
    ensures
        r@ == heartbeat_text(now@),
{
    let mut s = String::from_str("System: heartbeat; 現在時刻: ");
    s.append(now);
    s
}

/// The turn being assembled while the model's tool calls are carried out:
/// the model's message followed by one result per call carried out so far.
pub struct Turn {
    pub buffer: Vec<Message>,
    pub calls: Vec<ToolCall>,
    pub finish: FinishReason,
}

/// The messages after the first answer the first `buffer.len() - 1` calls,
/// in order, each naming its call.
pub open spec fn answers_calls(buffer: Seq<Message>, calls: Seq<ToolCall>) -> bool {
    &&& buffer.len() >= 1
    &&& buffer.len() - 1 <= calls.len()
    &&& forall|i: int|
        1 <= i < buffer.len() ==> (#[trigger] buffer[i] matches Message::Tool { tool_call_id, .. }
            && tool_call_id == calls[i - 1].id)
}

/// Where the conversation stands.
pub enum Phase {
    /// The context is to be sent to the model.
    Requesting,
    /// The model's tool calls are being carried out.
    Calling(Turn),
    /// The turn is in the context and the state is to be saved.
    Saving(FinishReason),
    /// The model stopped; the heartbeat is to be added.
    Resting,
    /// A shutdown was scheduled and the model stopped: the agent halts.
    Halted,
}

/// What the caller is to do next.
pub enum Action {
    /// Send these messages (the whole context) to the model.
    Send(Vec<Message>),
    /// Carry out this tool call and report its answer.
    Execute(ToolCall),
    /// Write the save file.
    Save,
    /// Read the clock and report the local time.
    Heartbeat,
    /// Halt.
    Stop,
}

/// The running agent: its state and where the conversation stands.
pub struct Session {
    pub data: Data,
    pub phase: Phase,
}

/// The turns held after each of `turns` is pushed in order onto a buffer
/// holding `items` with room for `capacity`.
pub open spec fn pushed_all(items: Seq<Seq<Message>>, capacity: nat, turns: Seq<Seq<Message>>) -> Seq<
    Seq<Message>,
>
    decreases turns.len(),
{
    if turns.len() == 0 {
        items
    } else {
        pushed(pushed_all(items, capacity, turns.drop_last()), capacity, turns.last())
    }
}

/// Whatever turns are added, the context holds the most recent
/// `context_size` turns of everything the conversation went through.
pub proof fn lemma_context_window(history: Seq<Seq<Message>>, capacity: nat, turns: Seq<Seq<Message>>)
    requires
        capacity > 0,
    ensures
        pushed_all(last_n(history, capacity), capacity, turns) == last_n(history + turns, capacity),
    decreases turns.len(),
{
    if turns.len() == 0 {
        assert(history + turns =~= history);
    } else {
        lemma_context_window(history, capacity, turns.drop_last());
        lemma_push_keeps_last(history + turns.drop_last(), capacity, turns.last());
        assert((history + turns.drop_last()).push(turns.last()) =~= history + turns);
    }
}

/// A running agent halts only once a shutdown was scheduled.
pub proof fn lemma_halts_only_on_shutdown(s: Session)
    requires
        s.wf(),
        s.phase is Halted,
    ensures
        s.data.shutdown,
{
}

impl Session {
    /// The state is well formed, a turn being assembled answers its calls so
    /// far with calls left to answer, and the agent halts only once a shutdown
    /// was scheduled.
    pub open spec fn wf(self) -> bool {
        &&& self.data.wf()
        &&& self.phase matches Phase::Calling(t) ==> {
            &&& answers_calls(t.buffer@, t.calls@)
            &&& t.buffer@.len() - 1 < t.calls@.len()
        }
        &&& self.phase is Halted ==> self.data.shutdown
    }

    /// Boots with the given state: the boot message becomes the first turn
    /// added to the context, and the conversation starts unless a shutdown
    /// is already scheduled.
    pub fn boot(data: Data, boot_message: String) -> (r: Session)
        requires
            data.wf(),
        ensures
            r.wf(),
            ring_items(r.data.context) == pushed(
                ring_items(data.context),
                data.config.context_size as nat,
                seq![Message::User { content: boot_message }],
            ),
            r.data == (Data { context: r.data.context, ..data }),
            r.phase is Requesting <==> !data.shutdown,
            r.phase is Halted <==> data.shutdown,
    {
        let mut data = data;
        let mut turn: Vec<Message> = Vec::new();
        turn.push(Message::User { content: boot_message });
        assert(turn@ =~= seq![Message::User { content: boot_message }]);
        data.enqueue(turn);
        let phase = if data.shutdown {
            Phase::Halted
        } else {
            Phase::Requesting
        };
        Session { data, phase }
    }

    /// What to do next: send the context, carry out the next tool call, save,
    /// add the heartbeat, or halt.
    pub fn next_action(&self) -> (r: Action)
        requires
            self.wf(),
        ensures
            self.phase is Requesting ==> (r matches Action::Send(h) && h@ == flatten(
                ring_items(self.data.context),
            )),
            self.phase matches Phase::Calling(t) ==> r == Action::Execute(
                t.calls@[t.buffer@.len() - 1],
            ),
            self.phase is Saving ==> r is Save,
            self.phase is Resting ==> r is Heartbeat,
            self.phase is Halted ==> r is Stop,
    {
        match &self.phase {
            Phase::Requesting => Action::Send(self.data.history()),
            Phase::Calling(t) => Action::Execute(t.calls[t.buffer.len() - 1].duplicate()),
            Phase::Saving(_) => Action::Save,
            Phase::Resting => Action::Heartbeat,
            Phase::Halted => Action::Stop,
        }
    }

    /// The model replied: its message opens a turn; when it asks for tool
    /// calls they are carried out next, else the turn goes into the context
    /// at once and the state is saved. A reply that stops carries no calls,
    /// whatever its message lists.
    pub fn on_reply(&mut self, resp: Response)
        requires
            old(self).wf(),
            old(self).phase is Requesting,
            resp.choices@.len() > 0,
            resp.choices@[0].finish_reason == FinishReason::ToolCalls
                ==> resp.choices@[0].message.tool_calls is Some,
        ensures
            final(self).wf(),
            ({
                let c = resp.choices@[0];
                let reply = Message::Assistant {
                    content: c.message.content,
                    tool_calls: c.message.tool_calls,
                };
                let calls = if c.finish_reason == FinishReason::ToolCalls {
                    c.message.tool_calls->0@
                } else {
                    Seq::empty()
                };
                if calls.len() == 0 {
                    &&& ring_items(final(self).data.context) == pushed(
                        ring_items(old(self).data.context),
                        old(self).data.config.context_size as nat,
                        seq![reply],
                    )
                    &&& final(self).data == (Data {
                        context: final(self).data.context,
                        ..old(self).data
                    })
                    &&& final(self).phase == Phase::Saving(c.finish_reason)
                } else {
                    &&& final(self).data == old(self).data
                    &&& final(self).phase matches Phase::Calling(t) && t.buffer@ == seq![reply]
                        && t.calls@ == calls && t.finish == c.finish_reason
                }
            }),
    {
        let mut choices = resp.choices;
        let choice = choices.remove(0);
        let finish = choice.finish_reason;
        let message = choice.message;
        let calls = if finish == FinishReason::ToolCalls {
            match &message.tool_calls {
                Some(cs) => duplicate_calls(cs),
                None => Vec::new(),
            }
        } else {
            Vec::new()
        };
        let reply = Message::from_resp_message(message);
        let mut buffer: Vec<Message> = Vec::new();
        buffer.push(reply);
        if calls.len() == 0 {
            self.data.enqueue(buffer);
            self.phase = Phase::Saving(finish);
        } else {
            self.phase = Phase::Calling(Turn { buffer, calls, finish });
        }
    }

    /// The current tool call was answered with `content`: the answer joins
    /// the turn; after the last call the turn goes into the context and the
    /// state is saved.
    pub fn on_tool_result(&mut self, content: String)
        requires
            old(self).wf(),
            old(self).phase is Calling,
        ensures
            final(self).wf(),
            old(self).phase matches Phase::Calling(t) && ({
                let k = t.buffer@.len() - 1;
                let answered = t.buffer@.push(
                    Message::Tool { content, tool_call_id: t.calls@[k].id },
                );
                if k + 1 == t.calls@.len() {
                    &&& answers_calls(answered, t.calls@)
                    &&& answered.len() == t.calls@.len() + 1
                    &&& ring_items(final(self).data.context) == pushed(
                        ring_items(old(self).data.context),
                        old(self).data.config.context_size as nat,
                        answered,
                    )
                    &&& final(self).data == (Data {
                        context: final(self).data.context,
                        ..old(self).data
                    })
                    &&& final(self).phase == Phase::Saving(t.finish)
                } else {
                    &&& final(self).data == old(self).data
                    &&& final(self).phase matches Phase::Calling(t2) && t2.buffer@ == answered
                        && t2.calls == t.calls && t2.finish == t.finish
                }
            }),
    {
        let mut phase = Phase::Halted;
        core::mem::swap(&mut phase, &mut self.phase);
        match phase {
            Phase::Calling(t) => {
                let Turn { mut buffer, calls, finish } = t;
                let k = buffer.len() - 1;
                let id = calls[k].id.clone();
                let ghost before = buffer@;
                buffer.push(Message::Tool { content, tool_call_id: id });
                assert(answers_calls(buffer@, calls@)) by {
                    assert forall|i: int| 1 <= i < buffer@.len() implies (#[trigger] buffer@[i] matches Message::Tool { tool_call_id, .. }
                        && tool_call_id == calls@[i - 1].id) by {
                        if i < before.len() {
                            assert(buffer@[i] == before[i]);
                        }
                    }
                }
                if k + 1 == calls.len() {
                    self.data.enqueue(buffer);
                    self.phase = Phase::Saving(finish);
                } else {
                    self.phase = Phase::Calling(Turn { buffer, calls, finish });
                }
            },
            _ => {
                self.phase = phase;
            },
        }
    }

    /// The state was saved: after a stop the heartbeat comes next, else the
    /// context is sent again with the tools' answers.
    pub fn on_saved(&mut self)
        requires
            old(self).wf(),
            old(self).phase is Saving,
        ensures
            final(self).wf(),
            final(self).data == old(self).data,
            old(self).phase matches Phase::Saving(f) && (if f == FinishReason::Stop {
                final(self).phase is Resting
            } else {
                final(self).phase is Requesting
            }),
    {
        let next = match &self.phase {
            Phase::Saving(f) => {
                if *f == FinishReason::Stop {
                    Phase::Resting
                } else {
                    Phase::Requesting
                }
            },
            _ => Phase::Requesting,
        };
        self.phase = next;
    }

    /// The clock read `now`: the heartbeat joins the context as a turn of its
    /// own, and the agent halts if a shutdown was scheduled, else goes on.
    pub fn on_clock(&mut self, now: &str)
        requires
            old(self).wf(),
            old(self).phase is Resting,
        ensures
            final(self).wf(),
            ({
                let items = ring_items(final(self).data.context);
                &&& items.len() > 0
                &&& is_heartbeat_turn(items.last(), now@)
                &&& items == pushed(
                    ring_items(old(self).data.context),
                    old(self).data.config.context_size as nat,
                    items.last(),
                )
            }),
            final(self).data == (Data { context: final(self).data.context, ..old(self).data }),
            final(self).phase is Halted <==> old(self).data.shutdown,
            final(self).phase is Requesting <==> !old(self).data.shutdown,
    {
        let hb = heartbeat_message(now);
        let mut turn: Vec<Message> = Vec::new();
        turn.push(Message::User { content: hb });
        self.data.enqueue(turn);
        self.phase = if self.data.shutdown {
            Phase::Halted
        } else {
            Phase::Requesting
        };
    }
}

} // verus!
