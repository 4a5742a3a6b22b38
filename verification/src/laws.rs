use vstd::prelude::*;
use crate::node::{gossip_merge_post, gossip_message_for, gossip_ok, BroadcastNode, BroadcastPayload};
use crate::protocol::Message;

verus! {

/// Monotonicity over any run: each consumed event only grows the set of known
/// values — as `step` ensures of every event — so along any chain of states a
/// value once learned is still known in the last state.
pub proof fn lemma_monotone_chain(states: Seq<Set<u64>>)
    requires
        states.len() > 0,
        forall|i: int|
            0 <= i < states.len() - 1 ==> (#[trigger] states[i]).subset_of(states[i + 1]),
    ensures
        states[0].subset_of(states[states.len() - 1]),
    decreases states.len(),
{
    if states.len() > 1 {
        let front = states.drop_last();
        assert(forall|i: int|
            0 <= i < front.len() - 1 ==> (#[trigger] front[i]).subset_of(front[i + 1]));
        lemma_monotone_chain(front);
        assert(states[states.len() - 2].subset_of(states[states.len() - 1]));
        assert forall|v: u64| states[0].contains(v) implies states[states.len() - 1].contains(
            v,
        ) by {
            assert(front[0].contains(v));
            assert(front[front.len() - 1].contains(v));
        }
    }
}

/// Learning a value twice — by Broadcast, by Gossip, or one of each — leaves
/// the set of known values exactly as it was after the first time: inserting
/// is idempotent, and an already-known value changes nothing.
pub proof fn lemma_learn_idempotent(s: Set<u64>, v: u64)
    ensures
        s.insert(v).insert(v) == s.insert(v),
        s.contains(v) ==> s.insert(v) == s,
{
    assert(s.insert(v).insert(v) =~= s.insert(v));
    if s.contains(v) {
        assert(s.insert(v) =~= s);
    }
}

/// Merging the same gossip payload twice leaves the set of known values
/// exactly as it was after the first merge.
pub proof fn lemma_merge_idempotent(s: Set<u64>, seen: Set<u64>)
    ensures
        s.union(seen).union(seen) == s.union(seen),
{
    assert(s.union(seen).union(seen) =~= s.union(seen));
}

/// The convergence step of anti-entropy gossip: when a node's estimate of a
/// neighbor's knowledge is sound — the neighbor really knows every estimated
/// value — then one gossip payload composed against that estimate, merged by
/// the neighbor, leaves the neighbor knowing everything both nodes knew.
/// Repeated along a path of sound estimates, every value reaches every node a
/// connected topology can reach.
pub proof fn lemma_gossip_hop_converges(
    msgs: Seq<u64>,
    known_n: Seq<u64>,
    seen: Seq<u64>,
    receiver: Set<u64>,
)
    requires
        gossip_ok(msgs, known_n, seen),
        known_n.to_set().subset_of(receiver),
    ensures
        receiver.union(seen.to_set()) == receiver.union(msgs.to_set()),
{
    assert(receiver.union(seen.to_set()) =~= receiver.union(msgs.to_set())) by {
        assert forall|v: u64| receiver.union(msgs.to_set()).contains(v) implies receiver.union(
            seen.to_set(),
        ).contains(v) by {
            if !receiver.contains(v) {
                assert(msgs.contains(v));
                if known_n.contains(v) {
                    assert(known_n.to_set().contains(v));
                } else {
                    assert(seen.contains(v));
                }
            }
        }
        assert forall|v: u64| receiver.union(seen.to_set()).contains(v) implies receiver.union(
            msgs.to_set(),
        ).contains(v) by {
            if !receiver.contains(v) {
                assert(seen.contains(v));
                assert(msgs.contains(v));
            }
        }
    }
}

/// The same convergence step, stated over the engine's own contracts: a
/// gossip message that one tick of node `a` composed for neighbor `b` (as
/// `gossip_tick` ensures), merged by `b` (as `step` on an inbound gossip
/// message ensures), leaves `b` knowing the union of what the two nodes knew —
/// provided `a`'s knowledge slot for `b` was sound. Enough ticks along a
/// connected topology therefore carry every value to every node.
pub proof fn lemma_engine_hop_converges(
    a: BroadcastNode,
    b_pre: BroadcastNode,
    b_post: BroadcastNode,
    nbr: String,
    msg: Message<BroadcastPayload>,
    seen: Vec<u64>,
)
    requires
        gossip_message_for(a, nbr, msg),
        msg.body.payload == (BroadcastPayload::Gossip { seen: seen }),
        // soundness of a's estimate: b really knows every value estimated
        a.known@[a.member_index(nbr@)]@.to_set().subset_of(b_pre.messages_set()),
        gossip_merge_post(b_pre, b_post, a.node@, seen@),
    ensures
        b_post.messages_set() == b_pre.messages_set().union(a.messages_set()),
{
    assert(gossip_ok(a.messages@, a.known@[a.member_index(nbr@)]@, seen@));
    lemma_gossip_hop_converges(
        a.messages@,
        a.known@[a.member_index(nbr@)]@,
        seen@,
        b_pre.messages_set(),
    );
}

/// The soundness half of the convergence induction, over the engine's own
/// contracts: when node `b` merges a gossip message that node `a` composed,
/// `b`'s knowledge slot for `a` gains only values `a` itself knows, so a sound
/// slot stays sound. Together with `lemma_engine_hop_converges` this is the
/// induction step of convergence along any path of the topology.
pub proof fn lemma_engine_estimate_stays_sound(
    a: BroadcastNode,
    b_pre: BroadcastNode,
    b_post: BroadcastNode,
    nbr: String,
    msg: Message<BroadcastPayload>,
    seen: Vec<u64>,
)
    requires
        gossip_message_for(a, nbr, msg),
        msg.body.payload == (BroadcastPayload::Gossip { seen: seen }),
        b_pre.known@[b_pre.member_index(a.node@)]@.to_set().subset_of(a.messages_set()),
        gossip_merge_post(b_pre, b_post, a.node@, seen@),
    ensures
        b_post.known@[b_pre.member_index(a.node@)]@.to_set().subset_of(a.messages_set()),
{
    assert(gossip_ok(a.messages@, a.known@[a.member_index(nbr@)]@, seen@));
    assert(seen@.to_set().subset_of(a.messages_set())) by {
        assert forall|v: u64| seen@.to_set().contains(v) implies a.messages_set().contains(
            v,
        ) by {
            assert(seen@.contains(v));
            assert(a.messages@.contains(v));
        }
    }
    lemma_estimate_stays_sound(
        b_pre.known@[b_pre.member_index(a.node@)]@.to_set(),
        a.messages_set(),
        seen@.to_set(),
    );
}

/// A knowledge estimate that is updated only from what the peer itself sent
/// stays sound: if every estimated value and every newly gossiped value is
/// known to the peer, the merged estimate still only holds values the peer
/// knows.
pub proof fn lemma_estimate_stays_sound(estimate: Set<u64>, peer: Set<u64>, seen: Set<u64>)
    requires
        estimate.subset_of(peer),
        seen.subset_of(peer),
    ensures
        estimate.union(seen).subset_of(peer),
{
}

} // verus!
