//! Which chats have a queue.
//!
//! The queues run outside, one beside the other; here each has a number. The numbers count up from
//! zero in the order in which the queues were set up.

use vstd::prelude::*;
use std::collections::HashMap;

verus! {

broadcast use vstd::std_specs::hash::group_hash_axioms;

/// The number of the queue of each chat that has one.
#[derive(Debug)]
pub struct Chats {
    queues: HashMap<i64, usize>,
}

impl View for Chats {
    type V = Map<i64, nat>;

    closed spec fn view(&self) -> Map<i64, nat> {
        self.queues@.map_values(|q: usize| q as nat)
    }
}

/// The queue of a chat that a message came from.
#[derive(Debug, Clone, Copy, PartialEq, Eq, Structural)]
pub struct ChatQueue {
    /// The number of the queue.
    pub number: usize,
    /// The chat had none before: it is to be set up.
    pub is_new: bool,
}

/// No two chats share a queue, and the numbers count up from zero.
pub open spec fn are_numbered(queues: Map<i64, nat>) -> bool {
    &&& queues.dom().finite()
    &&& forall|c: i64| #[trigger] queues.dom().contains(c) ==> queues[c] < queues.len()
    &&& forall|c: i64, d: i64|
        #![trigger queues[c], queues[d]]
        queues.dom().contains(c) && queues.dom().contains(d) && queues[c] == queues[d] ==> c == d
}

/// The queues after a message from a chat: a chat without one gets the next.
pub open spec fn opened(queues: Map<i64, nat>, chat_id: i64) -> Map<i64, nat> {
    if queues.dom().contains(chat_id) {
        queues
    } else {
        queues.insert(chat_id, queues.len())
    }
}

impl Chats {
    /// The queues are numbered.
    pub open spec fn wf(self) -> bool {
        are_numbered(self@)
    }

    /// No chat has a queue yet.
    pub fn new() -> (r: Chats)
        ensures
            r.wf(),
            r@ == Map::<i64, nat>::empty(),
    {
        let r = Chats { queues: HashMap::new() };
        assert(r@ =~= Map::<i64, nat>::empty());
        r
    }

    /// The number of the queue of a chat, if it has one.
    pub fn find(&self, chat_id: i64) -> (r: Option<usize>)
        ensures
            r is Some <==> self@.dom().contains(chat_id),
            r matches Some(number) ==> number == self@[chat_id],
    {
        match self.queues.get(&chat_id) {
            Some(number) => Some(*number),
            None => None,
        }
    }

    /// The queue of a chat, which is new where the chat had none.
    pub fn open(&mut self, chat_id: i64) -> (r: ChatQueue)
        requires
            old(self).wf(),
        ensures
            final(self).wf(),
            final(self)@ == opened(old(self)@, chat_id),
            r.is_new == !old(self)@.dom().contains(chat_id),
            r.number == final(self)@[chat_id],
    {
        match self.find(chat_id) {
            Some(number) => ChatQueue { number, is_new: false },
            None => {
                let number: usize = self.queues.len();
                assert(self.queues@.dom() =~= self@.dom());
                self.queues.insert(chat_id, number);
                proof {
                    assert(self@ =~= opened(old(self)@, chat_id));
                    lemma_opening_keeps_numbers(old(self)@, chat_id);
                }
                ChatQueue { number, is_new: true }
            },
        }
    }
}

proof fn lemma_opening_keeps_numbers(queues: Map<i64, nat>, chat_id: i64)
    requires
        are_numbered(queues),
    ensures
        are_numbered(opened(queues, chat_id)),
{
    let after = opened(queues, chat_id);
    if !queues.dom().contains(chat_id) {
        assert(after.dom() =~= queues.dom().insert(chat_id));
        assert forall|c: i64| #[trigger] after.dom().contains(c) implies after[c] < after.len() by {
            if c != chat_id {
                assert(queues.dom().contains(c));
            }
        }
        assert forall|c: i64, d: i64|
            #![trigger after[c], after[d]]
            after.dom().contains(c) && after.dom().contains(d) && after[c] == after[d] implies c
            == d by {
            if c != chat_id && d != chat_id {
                assert(queues[c] == queues[d]);
            } else if c != chat_id {
                assert(queues.dom().contains(c));
            } else if d != chat_id {
                assert(queues.dom().contains(d));
            }
        }
    }
}

/// The queues after a series of messages, each from one of these chats.
pub open spec fn opened_all(queues: Map<i64, nat>, chats: Seq<i64>) -> Map<i64, nat>
    decreases chats.len(),
{
    if chats.len() == 0 {
        queues
    } else {
        opened(opened_all(queues, chats.drop_last()), chats.last())
    }
}

/// Whatever messages come, a chat has one queue: it keeps the one it has, no two chats share one,
/// and there are queues for the chats that had one and for those that wrote, no others.
pub proof fn law_one_queue_per_chat(queues: Map<i64, nat>, chats: Seq<i64>)
    requires
        are_numbered(queues),
    ensures
        ({
            let after = opened_all(queues, chats);
            &&& are_numbered(after)
            &&& forall|c: i64| #[trigger]
                queues.dom().contains(c) ==> after.dom().contains(c) && after[c] == queues[c]
            &&& forall|c: i64| #[trigger]
                after.dom().contains(c) <==> queues.dom().contains(c) || chats.contains(c)
        }),
    decreases chats.len(),
{
    if chats.len() > 0 {
        let rest = chats.drop_last();
        let before = opened_all(queues, rest);
        let after = opened_all(queues, chats);
        law_one_queue_per_chat(queues, rest);
        lemma_opening_keeps_numbers(before, chats.last());
        assert(chats =~= rest.push(chats.last()));
        assert forall|c: i64| #[trigger]
            after.dom().contains(c) <==> queues.dom().contains(c) || chats.contains(c) by {
            assert(before.dom().contains(c) <==> queues.dom().contains(c) || rest.contains(c));
            if rest.contains(c) {
                let k = choose|k: int| 0 <= k < rest.len() && rest[k] == c;
                assert(chats[k] == c);
            }
            if chats.contains(c) && c != chats.last() {
                let k = choose|k: int| 0 <= k < chats.len() && chats[k] == c;
                assert(rest[k] == c);
            }
            assert(chats[chats.len() - 1] == chats.last());
        }
        assert forall|c: i64| #[trigger] queues.dom().contains(c) implies after.dom().contains(c)
            && after[c] == queues[c] by {
            assert(before.dom().contains(c) && before[c] == queues[c]);
        }
    }
}

/// A message from a chat leaves every queue with its chat. The chat itself has a queue from then
/// on: the one it had, or else one that no other chat has, with the next number.
pub proof fn law_a_new_queue_is_not_shared(queues: Map<i64, nat>, chat_id: i64, other: i64)
    requires
        queues.dom().finite(),
        forall|c: i64| #[trigger] queues.dom().contains(c) ==> queues[c] < queues.len(),
        other != chat_id,
    ensures
        ({
            let after = opened(queues, chat_id);
            &&& after.dom().contains(chat_id)
            &&& after.dom().contains(other) <==> queues.dom().contains(other)
            &&& queues.dom().contains(other) ==> after[other] == queues[other]
            &&& queues.dom().contains(chat_id) ==> after[chat_id] == queues[chat_id]
            &&& !queues.dom().contains(chat_id) ==> after[chat_id] == queues.len()
            &&& !queues.dom().contains(chat_id) && queues.dom().contains(other) ==> after[chat_id]
                != after[other]
        }),
{
}

/// Two chats with a queue each have queues of their own, with numbers below that of the next.
pub proof fn law_queues_are_apart(queues: Map<i64, nat>, c: i64, d: i64)
    requires
        are_numbered(queues),
        queues.dom().contains(c),
        queues.dom().contains(d),
        c != d,
    ensures
        queues[c] != queues[d],
        queues[c] < queues.len(),
{
}

} // verus!
