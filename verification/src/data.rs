//! The agent's state: how many times it booted, its memory, its context of
//! recent turns and its pending shutdown, and the save file that carries
//! them across boots.
use vstd::prelude::*;

use ringbuffer::AllocRingBuffer;

use crate::config::{save_file, save_file_path, Config};
use crate::llm::Message;
use crate::ring::{MAX_CAPACITY, pushed, ring_capacity, ring_enqueue, ring_items, ring_new, ring_to_vec};

verus! {

/// What the save file holds.
pub struct SaveData {
    pub bootcount: u32,
    pub memory: String,
    pub context: Vec<Vec<Message>>,
}

/// The turns of a saved context, each as the sequence of its messages.
pub open spec fn turn_views(turns: Seq<Vec<Message>>) -> Seq<Seq<Message>> {
    turns.map_values(|t: Vec<Message>| t@)
}

/// The last `n` turns of `turns` (all of them when there are no more than `n`).
pub open spec fn last_n(turns: Seq<Seq<Message>>, n: nat) -> Seq<Seq<Message>> {
    if turns.len() <= n {
        turns
    } else {
        turns.skip(turns.len() - n)
    }
}

/// All messages of the turns, in order.
pub open spec fn flatten(turns: Seq<Seq<Message>>) -> Seq<Message>
    decreases turns.len(),
{
    if turns.len() == 0 {
        Seq::empty()
    } else {
        flatten(turns.drop_last()) + turns.last()
    }
}

impl Default for SaveData {
    /// The state of a first boot: boot count one, no memory, no context.
    fn default() -> (r: Self)
        ensures
            r.bootcount == 1,
            r.memory@ == Seq::<char>::empty(),
            r.context@ == Seq::<Vec<Message>>::empty(),
    {
        SaveData { bootcount: 1, memory: String::new(), context: Vec::new() }
    }
}

impl SaveData {
    /// The state to boot with, given what was read from the save file
    /// (`None` when it could not be read or parsed): a first boot's state,
    /// or the saved state with the boot count raised by one.
    pub fn load(parsed: Option<SaveData>) -> (r: SaveData)
        requires
            parsed matches Some(d) ==> d.bootcount < u32::MAX,
        ensures
            parsed is None ==> r.bootcount == 1 && r.memory@ == Seq::<char>::empty()
                && r.context@ == Seq::<Vec<Message>>::empty(),
            parsed matches Some(d) ==> r.bootcount == d.bootcount + 1 && r.memory == d.memory
                && r.context == d.context,
    {
        match parsed {
            None => SaveData::default(),
            Some(mut data) => {
                data.bootcount = data.bootcount + 1;
                data
            },
        }
    }
}

/// The agent's state while it runs.
pub struct Data {
    pub bootcount: u32,
    pub config: Config,
    pub memory: String,
    pub context: AllocRingBuffer<Vec<Message>>,
    pub shutdown: bool,
    pub objective: Option<String>,
}

/// The turns held by the context of `d`.
pub open spec fn context_of(d: Data) -> Seq<Seq<Message>> {
    ring_items(d.context)
}

impl Data {
    /// The context buffer holds as many turns as the configuration allows,
    /// at least one, and never more.
    pub open spec fn wf(self) -> bool {
        &&& ring_capacity(self.context) == self.config.context_size
        &&& 0 < self.config.context_size <= MAX_CAPACITY
        &&& ring_items(self.context).len() <= ring_capacity(self.context)
    }

    /// The state to run with: the saved state under the given configuration,
    /// with the last `context_size` saved turns in the context.
    pub fn load(config: Config, savedata: SaveData) -> (r: Data)
        requires
            0 < config.context_size <= MAX_CAPACITY,
        ensures
            r.wf(),
            r.bootcount == savedata.bootcount,
            r.config == config,
            r.memory == savedata.memory,
            ring_items(r.context) == last_n(turn_views(savedata.context@), config.context_size as nat),
            !r.shutdown,
            r.objective is None,
    {
        let cap = config.context_size;
        let mut context = ring_new(cap);
        let ghost saved = turn_views(savedata.context@);
        let SaveData { bootcount, memory, context: shards } = savedata;
        for shard in it: shards
            invariant
                ring_capacity(context) == cap,
                cap > 0,
                saved == turn_views(it.seq()),
                ring_items(context) == last_n(saved.take(it.index() as int), cap as nat),
        {
            proof {
                lemma_push_keeps_last(saved.take(it.index() as int), cap as nat, shard@);
                assert(saved.take(it.index() as int).push(shard@) =~= saved.take(it.index() + 1));
            }
            ring_enqueue(&mut context, shard);
        }
        proof {
            assert(saved.take(saved.len() as int) =~= saved);
        }
        Data { bootcount, config, memory, context, shutdown: false, objective: None }
    }

    /// What is written to the save file: the boot count, the memory and the
    /// turns of the context, oldest first.
    pub fn save_data(&self) -> (r: SaveData)
        ensures
            r.bootcount == self.bootcount,
            r.memory == self.memory,
            turn_views(r.context@) == ring_items(self.context),
    {
        SaveData {
            bootcount: self.bootcount,
            memory: self.memory.clone(),
            context: ring_to_vec(&self.context),
        }
    }

    /// The path of the save file: the configured one, else `data.json`.
    pub fn save_path(&self) -> (r: String)
        ensures
            r@ == save_file(self.config),
    {
        save_file_path(&self.config)
    }

    /// Appends a turn to the context; once it is full the oldest turn leaves.
    pub fn enqueue(&mut self, turn: Vec<Message>)
        requires
            old(self).wf(),
        ensures
            final(self).wf(),
            ring_items(final(self).context) == pushed(
                ring_items(old(self).context),
                old(self).config.context_size as nat,
                turn@,
            ),
            final(self).bootcount == old(self).bootcount,
            final(self).config == old(self).config,
            final(self).memory == old(self).memory,
            final(self).shutdown == old(self).shutdown,
            final(self).objective == old(self).objective,
    {
        ring_enqueue(&mut self.context, turn);
    }

    /// All messages of the context, oldest first: what the model is sent.
    pub fn history(&self) -> (r: Vec<Message>)
        ensures
            r@ == flatten(ring_items(self.context)),
    {
        let turns = ring_to_vec(&self.context);
        let ghost views = turn_views(turns@);
        let mut out: Vec<Message> = Vec::new();
        for turn in it: turns
            invariant
                views == turn_views(it.seq()),
                out@ == flatten(views.take(it.index() as int)),
        {
            let mut turn = turn;
            out.append(&mut turn);
            proof {
                let next = views.take(it.index() + 1);
                assert(next.drop_last() =~= views.take(it.index() as int));
                assert(next.last() == views[it.index() as int]);
            }
        }
        proof {
            assert(views.take(views.len() as int) =~= views);
        }
        out
    }
}

/// What is sent for a context is its turns' messages one after another:
/// the empty context sends nothing.
pub proof fn lemma_flatten_empty()
    ensures
        flatten(Seq::<Seq<Message>>::empty()) == Seq::<Message>::empty(),
{
}

/// One more turn at the end of the context adds exactly its messages at the
/// end of what is sent, however many turns the context holds.
pub proof fn lemma_flatten_push(turns: Seq<Seq<Message>>, turn: Seq<Message>)
    ensures
        flatten(turns.push(turn)) == flatten(turns) + turn,
{
    assert(turns.push(turn).drop_last() =~= turns);
}

/// The messages of two runs of turns are the messages of the first run
/// followed by those of the second.
pub proof fn lemma_flatten_concat(a: Seq<Seq<Message>>, b: Seq<Seq<Message>>)
    ensures
        flatten(a + b) == flatten(a) + flatten(b),
    decreases b.len(),
{
    if b.len() == 0 {
        assert(a + b =~= a);
        assert(flatten(a) + flatten(b) =~= flatten(a));
    } else {
        lemma_flatten_concat(a, b.drop_last());
        assert((a + b).drop_last() =~= a + b.drop_last());
        assert((a + b).last() == b.last());
        assert(flatten(a + b) =~= flatten(a) + flatten(b));
    }
}

/// A context of one turn sends exactly that turn's messages.
pub proof fn lemma_flatten_single(turn: Seq<Message>)
    ensures
        flatten(seq![turn]) == turn,
{
    lemma_flatten_push(Seq::<Seq<Message>>::empty(), turn);
    assert(Seq::<Seq<Message>>::empty().push(turn) =~= seq![turn]);
    assert(Seq::<Message>::empty() + turn =~= turn);
}

/// The sum of the turns' lengths.
pub open spec fn total_len(turns: Seq<Seq<Message>>) -> nat
    decreases turns.len(),
{
    if turns.len() == 0 {
        0
    } else {
        total_len(turns.drop_last()) + turns.last().len()
    }
}

/// Every message of every turn is sent, none twice: what is sent is as long
/// as all the turns together.
pub proof fn lemma_flatten_len(turns: Seq<Seq<Message>>)
    ensures
        flatten(turns).len() == total_len(turns),
    decreases turns.len(),
{
    if turns.len() > 0 {
        lemma_flatten_len(turns.drop_last());
    }
}

/// The last `n` turns are a suffix of the history, of length the smaller
/// of `n` and the history's length.
pub proof fn lemma_last_n_suffix(turns: Seq<Seq<Message>>, n: nat)
    ensures
        last_n(turns, n).len() == if turns.len() <= n { turns.len() } else { n },
        last_n(turns, n) == turns.subrange(turns.len() - last_n(turns, n).len(), turns.len() as int),
{
    if turns.len() <= n {
        assert(turns.subrange(0, turns.len() as int) =~= turns);
    } else {
        assert(turns.skip(turns.len() - n) =~= turns.subrange(turns.len() - n, turns.len() as int));
    }
}

/// Pushing a turn onto a buffer that holds the last `n` turns of a history
/// leaves it holding the last `n` turns of the history extended by that turn:
/// the context is always the most recent `context_size` turns.
pub proof fn lemma_push_keeps_last(turns: Seq<Seq<Message>>, n: nat, turn: Seq<Message>)
    requires
        n > 0,
    ensures
        pushed(last_n(turns, n), n, turn) == last_n(turns.push(turn), n),
{
    if turns.len() < n {
        assert(last_n(turns.push(turn), n) == turns.push(turn));
    } else {
        assert(pushed(last_n(turns, n), n, turn) =~= last_n(turns.push(turn), n));
    }
}

/// Loading a context that was saved right after a load restores it
/// unchanged: reloading is stable.
pub proof fn lemma_reload_stable(turns: Seq<Seq<Message>>, n: nat)
    ensures
        last_n(last_n(turns, n), n) == last_n(turns, n),
{
}

/// A save file with no more turns than the context size is restored in full.
pub proof fn lemma_small_context_restored(turns: Seq<Seq<Message>>, n: nat)
    requires
        turns.len() <= n,
    ensures
        last_n(turns, n) == turns,
{
}

} // verus!
