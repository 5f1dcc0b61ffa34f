//! Bookkeeping of the queue backends: which broker delivery a received
//! task came from, and what a health probe's reply means.
use std::collections::HashMap;
use vstd::prelude::*;

verus! {

broadcast use vstd::std_specs::hash::group_hash_axioms;

/// Delivery tags of received tasks that are not yet acknowledged or
/// rejected, by task identifier.
#[derive(Debug)]
pub struct PendingAcks {
    tags: HashMap<u128, u64>,
}

impl View for PendingAcks {
    type V = Map<u128, u64>;

    closed spec fn view(&self) -> Map<u128, u64> {
        self.tags@
    }
}

impl PendingAcks {
    /// No pending deliveries.
    pub fn new() -> (p: PendingAcks)
        ensures
            p@ == Map::<u128, u64>::empty(),
    {
        PendingAcks { tags: HashMap::new() }
    }

    /// Records that `task_id` was received in delivery `tag`, replacing any
    /// earlier record for it.
    pub fn record(&mut self, task_id: u128, tag: u64)
        ensures
            final(self)@ == old(self)@.insert(task_id, tag),
    {
        self.tags.insert(task_id, tag);
    }

    /// Removes and returns the delivery tag recorded for `task_id`, if any.
    pub fn take(&mut self, task_id: u128) -> (tag: Option<u64>)
        ensures
            final(self)@ == old(self)@.remove(task_id),
            match tag {
                Some(t) => old(self)@.contains_key(task_id) && old(self)@[task_id] == t,
                None => !old(self)@.contains_key(task_id),
            },
    {
        self.tags.remove(&task_id)
    }
}

/// What a task is answered after recording its delivery: taking it back
/// gives that delivery's tag, and taking it again gives nothing.
pub proof fn lemma_take_after_record(p: Map<u128, u64>, task_id: u128, tag: u64)
    ensures
        p.insert(task_id, tag).contains_key(task_id),
        p.insert(task_id, tag)[task_id] == tag,
        !p.insert(task_id, tag).remove(task_id).contains_key(task_id),
        p.insert(task_id, tag).remove(task_id) == p.remove(task_id),
{
    assert(p.insert(task_id, tag).remove(task_id) =~= p.remove(task_id));
}

/// Whether a Redis `PING` reply reports a healthy server.
pub fn ping_reply_is_healthy(reply: &str) -> (b: bool)
    ensures
        b == (reply@ == "PONG"@),
{
    let expected = String::from_str("PONG");
    let got = String::from_str(reply);
    got == expected
}

} // verus!
