//! The tools that write the agent's long-term memory.
use vstd::prelude::*;

use crate::text::{trim, trimmed};

verus! {

/// Arguments of `append_memory`: the text to add.
pub struct AppendMemory {
    pub content: String,
}

/// Arguments of `replace_memory`: the text that becomes the whole memory.
pub struct ReplaceMemory {
    pub content: String,
}

/// The memory after `content` is appended to `memory`: the content trimmed,
/// on a line of its own.
pub open spec fn appended(memory: Seq<char>, content: Seq<char>) -> Seq<char> {
    memory + trimmed(content) + seq!['\n']
}

/// The memory after it is replaced by `content`: the content trimmed, as one line.
pub open spec fn replaced(content: Seq<char>) -> Seq<char> {
    trimmed(content) + seq!['\n']
}

impl AppendMemory {
    /// Adds the trimmed content as a new line at the end of the memory.
    pub fn run(&self, memory: &mut String)
        ensures
            final(memory)@ == appended(old(memory)@, self.content@),
    {
        let t = trim(self.content.as_str());
        memory.append(t);
        memory.append("\n");
        proof {
            reveal_strlit("\n");
        }
    }
}

impl ReplaceMemory {
    /// Replaces the memory by the trimmed content as one line.
    pub fn run(&self, memory: &mut String)
        ensures
            final(memory)@ == replaced(self.content@),
    {
        let t = trim(self.content.as_str());
        *memory = String::new();
        memory.append(t);
        memory.append("\n");
        proof {
            reveal_strlit("\n");
        }
    }
}

/// What an append adds after the old memory is exactly what a replacement
/// stores: the trimmed content and one newline.
pub proof fn lemma_append_adds_replacement(memory: Seq<char>, content: Seq<char>)
    ensures
        appended(memory, content) == memory + replaced(content),
        replaced(content).len() == trimmed(content).len() + 1,
        replaced(content).last() == '\n',
        replaced(content).drop_last() == trimmed(content),
{
    assert(appended(memory, content) =~= memory + replaced(content));
    assert(replaced(content).drop_last() =~= trimmed(content));
}

/// Replacing the memory forgets what it held before.
pub proof fn lemma_replace_forgets(content: Seq<char>)
    ensures
        replaced(content) == appended(Seq::empty(), content),
{
    assert(Seq::<char>::empty() + trimmed(content) =~= trimmed(content));
}

/// Appending after a replacement leaves both texts, trimmed, one per line.
pub proof fn lemma_append_after_replace(first: Seq<char>, second: Seq<char>)
    ensures
        appended(replaced(first), second) == trimmed(first) + seq!['\n'] + trimmed(second) + seq!['\n'],
{
}

/// Appending keeps what the memory held as its beginning.
pub proof fn lemma_append_keeps_prefix(memory: Seq<char>, content: Seq<char>)
    ensures
        appended(memory, content).take(memory.len() as int) == memory,
        appended(memory, content).len() == memory.len() + trimmed(content).len() + 1,
{
    assert(appended(memory, content).take(memory.len() as int) =~= memory);
}

/// Storing a text that is already trimmed stores it as it is: surrounding
/// white space never reaches the memory twice.
pub proof fn lemma_replace_trimmed(content: Seq<char>)
    ensures
        replaced(trimmed(content)) == replaced(content),
{
    crate::text::lemma_trimmed_idempotent(content);
}

} // verus!
