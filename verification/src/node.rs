use vstd::prelude::*;
use crate::protocol::{Body, Event, InjectedPayload, Message, is_reply_to};

verus! {

/// The tagged payload of the broadcast protocol. Decoding an unrecognized tag
/// never reaches the engine: the closed enum is matched exhaustively.
pub enum BroadcastPayload {
    Broadcast { message: u64 },
    BroadcastOk,
    Read,
    ReadOk { messages: Vec<u64> },
    Topology { topology: Vec<(String, Vec<String>)> },
    TopologyOk,
    Gossip { seen: Vec<u64> },
}

/// A configuration or protocol violation that must abort the node. Each
/// variant names the offending id so the operator sees what was wrong.
pub enum Fatal {
    /// A topology assignment held no entry for this node's own id.
    MissingTopologyEntry { node: String },
    /// Gossip arrived from an id that was never part of the cluster membership.
    UnknownGossipSender { src: String },
    /// The neighborhood names an id that was never part of the cluster membership.
    UnknownNeighbor { neighbor: String },
}

/// The views of a list of node ids, as sequences of characters.
pub open spec fn ids_view(ids: Seq<String>) -> Seq<Seq<char>> {
    ids.map_values(|s: String| s@)
}

/// The broadcast/gossip engine: the set of values this node has learned, a
/// per-member estimate of what each peer already knows, and the neighbors this
/// node gossips with. All state is owned by the single event consumer.
pub struct BroadcastNode {
    /// This node's own id.
    pub node: String,
    /// Monotonic counter handing out fresh message ids.
    pub msg_id: u64,
    /// Every value this node has ever learned, without duplicates.
    pub messages: Vec<u64>,
    /// The full cluster membership, fixed at initialization.
    pub member_ids: Vec<String>,
    /// `known[i]` estimates what `member_ids[i]` already knows.
    pub known: Vec<Vec<u64>>,
    /// The ids this node gossips to; empty until a topology assignment arrives.
    pub neighborhood: Vec<String>,
}

impl BroadcastNode {
    /// Structural invariant: one knowledge slot per member, distinct member
    /// ids, and duplicate-free value lists.
    pub open spec fn wf(self) -> bool {
        &&& self.known.len() == self.member_ids.len()
        &&& ids_view(self.member_ids@).no_duplicates()
        &&& self.messages@.no_duplicates()
        &&& forall|i: int| 0 <= i < self.known@.len() ==> (#[trigger] self.known@[i])@.no_duplicates()
    }

    /// The set of values this node knows.
    pub open spec fn messages_set(self) -> Set<u64> {
        self.messages@.to_set()
    }

    /// Whether `id` names a cluster member.
    pub open spec fn is_member(self, id: Seq<char>) -> bool {
        ids_view(self.member_ids@).contains(id)
    }

    /// The knowledge slot of the member named `id`.
    pub open spec fn member_index(self, id: Seq<char>) -> int {
        ids_view(self.member_ids@).index_of(id)
    }

    /// Builds the engine from the initialization handshake: no values yet, an
    /// empty knowledge estimate for every member, no neighbors, and the
    /// message-id counter starting at one.
    pub fn from_init(node_id: String, node_ids: Vec<String>) -> (r: BroadcastNode)
        requires
            ids_view(node_ids@).no_duplicates(),
        ensures
            r.wf(),
            r.node == node_id,
            r.msg_id == 1,
            r.messages@.len() == 0,
            r.member_ids == node_ids,
            r.known@.len() == node_ids@.len(),
            forall|i: int| 0 <= i < r.known@.len() ==> (#[trigger] r.known@[i])@.len() == 0,
            r.neighborhood@.len() == 0,
    {
        let mut known: Vec<Vec<u64>> = Vec::new();
        let mut i: usize = 0;
        while i < node_ids.len()
            invariant
                i <= node_ids@.len(),
                known@.len() == i,
                forall|j: int| 0 <= j < i ==> (#[trigger] known@[j])@.len() == 0,
            decreases node_ids@.len() - i,
        {
            known.push(Vec::new());
            i = i + 1;
        }
        BroadcastNode {
            node: node_id,
            msg_id: 1,
            messages: Vec::new(),
            member_ids: node_ids,
            known,
            neighborhood: Vec::new(),
        }
    }

    /// Learns one broadcast value: the set of known values gains `message` and
    /// nothing else; learning an already-known value changes nothing.
    pub fn learn_value(&mut self, message: u64)
        requires
            old(self).wf(),
        ensures
            final(self).wf(),
            final(self).messages_set() == old(self).messages_set().insert(message),
            old(self).messages@.contains(message) ==> final(self).messages@ == old(self).messages@,
            final(self).node == old(self).node,
            final(self).msg_id == old(self).msg_id,
            final(self).member_ids == old(self).member_ids,
            final(self).known == old(self).known,
            final(self).neighborhood == old(self).neighborhood,
    {
        insert_value(&mut self.messages, message);
    }

    /// Returns a snapshot of every value this node knows, without duplicates.
    pub fn read_values(&self) -> (r: Vec<u64>)
        ensures
            r@ == self.messages@,
    {
        let mut out: Vec<u64> = Vec::new();
        let mut i: usize = 0;
        while i < self.messages.len()
            invariant
                i <= self.messages@.len(),
                out@ == self.messages@.take(i as int),
            decreases self.messages@.len() - i,
        {
            let m: u64 = self.messages[i];
            proof {
                assert(self.messages@.take(i as int + 1) =~= self.messages@.take(i as int).push(m));
            }
            out.push(m);
            i = i + 1;
        }
        proof {
            assert(self.messages@.take(self.messages@.len() as int) =~= self.messages@);
        }
        out
    }
}

/// How one inbound gossip message changes the engine: the carried values are
/// unioned into the known values, and into the knowledge slot of the sender —
/// the sender plainly knows what it sent — while every other slot stays as it
/// was.
pub open spec fn gossip_merge_post(
    pre: BroadcastNode,
    post: BroadcastNode,
    src: Seq<char>,
    seen: Seq<u64>,
) -> bool {
    let i = pre.member_index(src);
    &&& post.messages_set() == pre.messages_set().union(seen.to_set())
    &&& post.known@.len() == pre.known@.len()
    &&& post.known@[i]@.to_set() == pre.known@[i]@.to_set().union(seen.to_set())
    &&& forall|j: int| 0 <= j < pre.known@.len() && j != i ==> post.known@[j] == pre.known@[j]
}

/// Whether `j` is the first entry of the topology assignment whose key is `id`.
pub open spec fn topology_entry_at(
    t: Seq<(String, Vec<String>)>,
    id: Seq<char>,
    j: int,
) -> bool {
    &&& 0 <= j < t.len()
    &&& t[j].0@ == id
    &&& forall|k: int| 0 <= k < j ==> (#[trigger] t[k]).0@ != id
}

impl BroadcastNode {
    /// Merges one inbound gossip message sent by `src`. Gossip from an id that
    /// was never part of the membership is a fatal protocol violation and
    /// changes nothing.
    pub fn merge_gossip(&mut self, src: &String, seen: &Vec<u64>) -> (r: Option<Fatal>)
        requires
            old(self).wf(),
        ensures
            final(self).wf(),
            final(self).node == old(self).node,
            final(self).msg_id == old(self).msg_id,
            final(self).member_ids == old(self).member_ids,
            final(self).neighborhood == old(self).neighborhood,
            old(self).messages_set().subset_of(final(self).messages_set()),
            match r {
                None => old(self).is_member(src@)
                    && gossip_merge_post(*old(self), *final(self), src@, seen@),
                Some(f) => {
                    &&& !old(self).is_member(src@)
                    &&& f == (Fatal::UnknownGossipSender { src: *src })
                    &&& *final(self) == *old(self)
                },
            },
    {
        match find_index(&self.member_ids, src) {
            None => Some(Fatal::UnknownGossipSender { src: src.clone() }),
            Some(i) => {
                proof {
                    lemma_index_of_unique(ids_view(self.member_ids@), i as int);
                }
                union_values(&mut self.known[i], seen);
                union_values(&mut self.messages, seen);
                proof {
                    assert(self.messages@.to_set() =~= old(self).messages@.to_set().union(
                        seen@.to_set(),
                    ));
                }
                None
            },
        }
    }

    /// Stores the neighborhood this node was assigned: the first topology
    /// entry keyed by this node's id replaces the neighborhood wholesale. An
    /// assignment that omits this node is a fatal configuration error and
    /// changes nothing.
    pub fn assign_topology(&mut self, topology: Vec<(String, Vec<String>)>) -> (r: Option<Fatal>)
        requires
            old(self).wf(),
        ensures
            final(self).wf(),
            final(self).node == old(self).node,
            final(self).msg_id == old(self).msg_id,
            final(self).member_ids == old(self).member_ids,
            final(self).messages == old(self).messages,
            final(self).known == old(self).known,
            match r {
                None => exists|j: int|
                    #[trigger] topology_entry_at(topology@, old(self).node@, j)
                        && final(self).neighborhood == topology@[j].1,
                Some(f) => {
                    &&& forall|k: int|
                        0 <= k < topology@.len() ==> (#[trigger] topology@[k]).0@
                            != old(self).node@
                    &&& f == (Fatal::MissingTopologyEntry { node: old(self).node })
                    &&& *final(self) == *old(self)
                },
            },
    {
        let ghost topo0 = topology@;
        let mut topology = topology;
        match find_entry(&topology, &self.node) {
            None => Some(Fatal::MissingTopologyEntry { node: self.node.clone() }),
            Some(j) => {
                let entry = topology.remove(j);
                self.neighborhood = entry.1;
                proof {
                    assert(topology_entry_at(topo0, old(self).node@, j as int));
                }
                None
            },
        }
    }
}

/// Finds the first topology entry whose key is `id`, comparing by characters.
fn find_entry(topology: &Vec<(String, Vec<String>)>, id: &String) -> (r: Option<usize>)
    ensures
        match r {
            Some(j) => topology_entry_at(topology@, id@, j as int),
            None => forall|k: int|
                0 <= k < topology@.len() ==> (#[trigger] topology@[k]).0@ != id@,
        },
{
    let mut j: usize = 0;
    while j < topology.len()
        invariant
            j <= topology@.len(),
            forall|k: int| 0 <= k < j ==> (#[trigger] topology@[k]).0@ != id@,
        decreases topology@.len() - j,
    {
        if topology[j].0 == *id {
            return Some(j);
        }
        j = j + 1;
    }
    None
}

/// Whether the duplicate-free vector `v` holds `x`.
fn contains_value(v: &Vec<u64>, x: u64) -> (r: bool)
    ensures
        r == v@.contains(x),
{
    let mut i: usize = 0;
    while i < v.len()
        invariant
            i <= v@.len(),
            forall|j: int| 0 <= j < i ==> v@[j] != x,
        decreases v@.len() - i,
    {
        if v[i] == x {
            return true;
        }
        i = i + 1;
    }
    false
}

/// Adds `x` to a duplicate-free vector unless it is already there: the set of
/// held values gains exactly `x`.
fn insert_value(v: &mut Vec<u64>, x: u64)
    requires
        old(v)@.no_duplicates(),
    ensures
        final(v)@.no_duplicates(),
        final(v)@.to_set() == old(v)@.to_set().insert(x),
        old(v)@.contains(x) ==> final(v)@ == old(v)@,
        !old(v)@.contains(x) ==> final(v)@ == old(v)@.push(x),
{
    if !contains_value(v, x) {
        let ghost pre = v@;
        v.push(x);
        proof {
            assert forall|p: int, q: int|
                0 <= p < v@.len() && 0 <= q < v@.len() && p != q implies v@[p] != v@[q] by {
                if p < pre.len() && q < pre.len() {
                    assert(pre[p] == v@[p] && pre[q] == v@[q]);
                } else if q == pre.len() {
                    assert(v@[q] == x && v@[p] == pre[p]);
                } else {
                    assert(v@[p] == x && v@[q] == pre[q]);
                }
            }
            assert(v@.to_set() =~= pre.to_set().insert(x)) by {
                assert(forall|y: u64| #[trigger] v@.contains(y) <==> (pre.contains(y) || y == x)) by {
                    assert(forall|y: u64| #[trigger] pre.contains(y) ==> v@.contains(y)) by {
                        assert(forall|j: int| 0 <= j < pre.len() ==> v@[j] == pre[j]);
                    }
                    assert(v@[pre.len() as int] == x);
                }
            }
        }
    } else {
        proof {
            assert(v@.to_set() =~= v@.to_set().insert(x));
        }
    }
}

/// Unions the values of `other` into the duplicate-free vector `v`.
fn union_values(v: &mut Vec<u64>, other: &Vec<u64>)
    requires
        old(v)@.no_duplicates(),
    ensures
        final(v)@.no_duplicates(),
        final(v)@.to_set() == old(v)@.to_set().union(other@.to_set()),
{
    let mut i: usize = 0;
    while i < other.len()
        invariant
            i <= other@.len(),
            v@.no_duplicates(),
            v@.to_set() == old(v)@.to_set().union(other@.take(i as int).to_set()),
        decreases other@.len() - i,
    {
        let x: u64 = other[i];
        proof {
            assert(other@.take(i as int + 1) =~= other@.take(i as int).push(x));
            assert(other@.take(i as int).push(x).to_set() =~= other@.take(i as int).to_set().insert(x)) by {
                other@.take(i as int).lemma_push_to_set_commute(x);
            }
        }
        insert_value(v, x);
        proof {
            assert(v@.to_set() =~= old(v)@.to_set().union(other@.take(i as int + 1).to_set()));
        }
        i = i + 1;
    }
    proof {
        assert(other@.take(other@.len() as int) =~= other@);
    }
}

/// Finds the position of `id` in a list of ids, comparing by characters.
fn find_index(ids: &Vec<String>, id: &String) -> (r: Option<usize>)
    ensures
        match r {
            Some(i) => i < ids@.len() && ids@[i as int]@ == id@,
            None => !ids_view(ids@).contains(id@),
        },
{
    let mut i: usize = 0;
    while i < ids.len()
        invariant
            i <= ids@.len(),
            forall|j: int| 0 <= j < i ==> ids_view(ids@)[j] != id@,
        decreases ids@.len() - i,
    {
        if ids[i] == *id {
            return Some(i);
        }
        i = i + 1;
    }
    proof {
        assert(forall|j: int| 0 <= j < ids_view(ids@).len() ==> ids_view(ids@)[j] != id@);
    }
    None
}

/// How many values of `s` are absent from `t`.
pub open spec fn count_absent(s: Seq<u64>, t: Seq<u64>) -> int
    decreases s.len(),
{
    if s.len() == 0 {
        0
    } else {
        count_absent(s.drop_last(), t) + if t.contains(s.last()) {
            0int
        } else {
            1int
        }
    }
}

/// How many values of `s` are present in `t`.
pub open spec fn count_present(s: Seq<u64>, t: Seq<u64>) -> int
    decreases s.len(),
{
    if s.len() == 0 {
        0
    } else {
        count_present(s.drop_last(), t) + if t.contains(s.last()) {
            1int
        } else {
            0int
        }
    }
}

/// What a gossip payload for one neighbor must hold, given the values this
/// node knows (`msgs`) and the neighbor's estimated knowledge (`known_n`):
/// every value believed unknown to the neighbor, nothing the node does not
/// know, and at most ten values beyond the unknown ones — the bounded
/// re-confirmation sample that keeps knowledge estimates converging.
pub open spec fn gossip_ok(msgs: Seq<u64>, known_n: Seq<u64>, seen: Seq<u64>) -> bool {
    &&& forall|v: u64| msgs.contains(v) && !known_n.contains(v) ==> #[trigger] seen.contains(v)
    &&& forall|v: u64| #[trigger] seen.contains(v) ==> msgs.contains(v)
    &&& seen.len() <= count_absent(msgs, known_n) + vstd::math::min(
        10,
        count_present(msgs, known_n),
    )
}

/// Draws the bounded random re-confirmation sample from the pool of values the
/// neighbor is already believed to know: each pool value is included by a coin
/// flip of ratio `min(10, pool size) / pool size`, and never more than ten in
/// all, so a neighbor keeps re-learning that this node knows what it sent.
fn sample_extras(pool: &Vec<u64>) -> (r: Vec<u64>)
    ensures
        r@.len() <= 10,
        r@.len() <= pool@.len(),
        forall|k: int| 0 <= k < r@.len() ==> pool@.contains(#[trigger] r@[k]),
{
    let mut out: Vec<u64> = Vec::new();
    if pool.len() == 0 {
        return out;
    }
    let den: u32 = if pool.len() >= 0xFFFF_FFFFusize {
        0xFFFF_FFFFu32
    } else {
        pool.len() as u32
    };
    let num: u32 = if den < 10 {
        den
    } else {
        10
    };
    let mut i: usize = 0;
    while i < pool.len()
        invariant
            i <= pool@.len(),
            out@.len() <= 10,
            out@.len() <= i,
            0 < num <= den,
            forall|k: int| 0 <= k < out@.len() ==> pool@.contains(#[trigger] out@[k]),
        decreases pool@.len() - i,
    {
        if out.len() < 10 && crate::rng::coin_with_ratio(num, den) {
            let x: u64 = pool[i];
            proof {
                assert(pool@.contains(x));
            }
            out.push(x);
        }
        i = i + 1;
    }
    out
}

impl BroadcastNode {
    /// Composes the values to gossip to the member in knowledge slot `i`:
    /// everything this node knows that the neighbor is not believed to know,
    /// plus the bounded random re-confirmation sample.
    pub fn gossip_values(&self, i: usize) -> (r: Vec<u64>)
        requires
            self.wf(),
            i < self.known@.len(),
        ensures
            gossip_ok(self.messages@, self.known@[i as int]@, r@),
    {
        broadcast use vstd::seq_lib::group_seq_properties;

        let ghost ms = self.messages@;
        let ghost kn = self.known@[i as int]@;
        let mut notify: Vec<u64> = Vec::new();
        let mut already: Vec<u64> = Vec::new();
        let mut k: usize = 0;
        while k < self.messages.len()
            invariant
                i < self.known@.len(),
                ms == self.messages@,
                kn == self.known@[i as int]@,
                k <= ms.len(),
                notify@.len() == count_absent(ms.take(k as int), kn),
                already@.len() == count_present(ms.take(k as int), kn),
                forall|v: u64|
                    ms.take(k as int).contains(v) && !kn.contains(v) ==> #[trigger] notify@.contains(
                        v,
                    ),
                forall|j: int| 0 <= j < notify@.len() ==> ms.contains(#[trigger] notify@[j]),
                forall|j: int| 0 <= j < already@.len() ==> ms.contains(#[trigger] already@[j]),
            decreases ms.len() - k,
        {
            broadcast use vstd::seq_lib::group_seq_properties;

            let m: u64 = self.messages[k];
            proof {
                assert(ms.take(k as int + 1).drop_last() =~= ms.take(k as int));
                assert(ms.take(k as int + 1).last() == m);
                assert(ms.contains(m));
            }
            if contains_value(&self.known[i], m) {
                already.push(m);
            } else {
                notify.push(m);
            }
            k = k + 1;
            proof {
                assert(ms.take(k as int) =~= ms.take(k as int - 1).push(m));
            }
        }
        proof {
            assert(ms.take(ms.len() as int) =~= ms);
        }
        let ghost n_absent = count_absent(ms, kn);
        let ghost n_present = count_present(ms, kn);
        let mut extras: Vec<u64> = sample_extras(&already);
        let ghost notify0 = notify@;
        let ghost extras0 = extras@;
        notify.append(&mut extras);
        proof {
            assert(notify@ == notify0 + extras0);
            assert forall|v: u64| #[trigger] notify@.contains(v) implies ms.contains(v) by {
                let j = choose|j: int| 0 <= j < notify@.len() && notify@[j] == v;
                if j < notify0.len() {
                    assert(notify@[j] == notify0[j]);
                } else {
                    assert(notify@[j] == extras0[j - notify0.len()]);
                    assert(already@.contains(v));
                    let q = choose|q: int| 0 <= q < already@.len() && already@[q] == v;
                    assert(ms.contains(already@[q]));
                }
            }
            assert forall|v: u64| ms.contains(v) && !kn.contains(v) implies #[trigger] notify@.contains(
                v,
            ) by {
                assert(notify0.contains(v));
                let j = choose|j: int| 0 <= j < notify0.len() && notify0[j] == v;
                assert(notify@[j] == v);
            }
            assert(notify@.len() <= n_absent + vstd::math::min(10, n_present));
        }
        notify
    }
}

/// What one outbound gossip message to neighbor `nbr` must look like: a
/// one-way message from this node, carrying no correlation ids, whose payload
/// satisfies `gossip_ok` against the neighbor's knowledge slot.
pub open spec fn gossip_message_for(
    pre: BroadcastNode,
    nbr: String,
    msg: Message<BroadcastPayload>,
) -> bool {
    &&& msg.src@ == pre.node@
    &&& msg.dst@ == nbr@
    &&& msg.body.id is None
    &&& msg.body.in_reply_to is None
    &&& msg.body.payload matches BroadcastPayload::Gossip { seen } && gossip_ok(
        pre.messages@,
        pre.known@[pre.member_index(nbr@)]@,
        seen@,
    )
}

/// How one gossip tick changes the engine: the state is untouched except for
/// the counter, and one gossip message goes to each neighbor in stored order —
/// unless a neighbor has no knowledge slot, which aborts the tick at that
/// neighbor with a fatal error.
pub open spec fn tick_post(
    pre: BroadcastNode,
    post: BroadcastNode,
    out: Seq<Message<BroadcastPayload>>,
    fatal: Option<Fatal>,
) -> bool {
    &&& post.messages == pre.messages
    &&& post.known == pre.known
    &&& post.neighborhood == pre.neighborhood
    &&& match fatal {
        None => {
            &&& out.len() == pre.neighborhood@.len()
            &&& post.msg_id == pre.msg_id + out.len()
            &&& forall|k: int|
                0 <= k < out.len() ==> pre.is_member((#[trigger] pre.neighborhood@[k])@)
            &&& forall|k: int|
                0 <= k < out.len() ==> gossip_message_for(
                    pre,
                    pre.neighborhood@[k],
                    #[trigger] out[k],
                )
        },
        Some(f) => exists|b: int|
            #![auto]
            {
                &&& 0 <= b < pre.neighborhood@.len()
                &&& !pre.is_member(pre.neighborhood@[b]@)
                &&& forall|k: int|
                    0 <= k < b ==> pre.is_member((#[trigger] pre.neighborhood@[k])@)
                &&& f == (Fatal::UnknownNeighbor { neighbor: pre.neighborhood@[b] })
                &&& out.len() == b
                &&& post.msg_id == pre.msg_id + b
                &&& forall|k: int|
                    0 <= k < b ==> gossip_message_for(pre, pre.neighborhood@[k], #[trigger] out[k])
            },
    }
}

/// How one inbound protocol message changes the engine and what it sends back.
pub open spec fn message_post(
    pre: BroadcastNode,
    post: BroadcastNode,
    input: Message<BroadcastPayload>,
    out: Seq<Message<BroadcastPayload>>,
    fatal: Option<Fatal>,
) -> bool {
    &&& post.node == pre.node
    &&& post.member_ids == pre.member_ids
    &&& post.msg_id == pre.msg_id + 1
    &&& match input.body.payload {
        BroadcastPayload::Broadcast { message } => {
            &&& fatal is None
            &&& post.messages_set() == pre.messages_set().insert(message)
            &&& post.known == pre.known
            &&& post.neighborhood == pre.neighborhood
            &&& out.len() == 1
            &&& is_reply_to(input, pre.msg_id, BroadcastPayload::BroadcastOk, out[0])
        },
        BroadcastPayload::Read => {
            &&& fatal is None
            &&& post.messages == pre.messages
            &&& post.known == pre.known
            &&& post.neighborhood == pre.neighborhood
            &&& out.len() == 1
            &&& out[0].src == input.dst
            &&& out[0].dst == input.src
            &&& out[0].body.id == Some(pre.msg_id)
            &&& out[0].body.in_reply_to == input.body.id
            &&& out[0].body.payload matches BroadcastPayload::ReadOk { messages }
                && messages@.to_set() == pre.messages_set() && messages@.no_duplicates()
        },
        BroadcastPayload::Gossip { seen } => {
            &&& out.len() == 0
            &&& post.neighborhood == pre.neighborhood
            &&& if pre.is_member(input.src@) {
                fatal is None && gossip_merge_post(pre, post, input.src@, seen@)
            } else {
                &&& fatal == Some(Fatal::UnknownGossipSender { src: input.src })
                &&& post.messages == pre.messages
                &&& post.known == pre.known
            }
        },
        BroadcastPayload::Topology { topology } => {
            &&& post.messages == pre.messages
            &&& post.known == pre.known
            &&& if exists|j: int| #[trigger] topology_entry_at(topology@, pre.node@, j) {
                &&& fatal is None
                &&& exists|j: int|
                    #[trigger] topology_entry_at(topology@, pre.node@, j)
                        && post.neighborhood == topology@[j].1
                &&& out.len() == 1
                &&& is_reply_to(input, pre.msg_id, BroadcastPayload::TopologyOk, out[0])
            } else {
                &&& fatal == Some(Fatal::MissingTopologyEntry { node: pre.node })
                &&& out.len() == 0
                &&& post.neighborhood == pre.neighborhood
            }
        },
        _ => {
            &&& fatal is None
            &&& out.len() == 0
            &&& post.messages == pre.messages
            &&& post.known == pre.known
            &&& post.neighborhood == pre.neighborhood
        },
    }
}

/// How one event changes the engine: nothing on end of input, a gossip round
/// on a tick, and the protocol handling on an inbound message.
pub open spec fn step_post(
    pre: BroadcastNode,
    post: BroadcastNode,
    event: Event<BroadcastPayload>,
    out: Seq<Message<BroadcastPayload>>,
    fatal: Option<Fatal>,
) -> bool {
    match event {
        Event::Eof => out.len() == 0 && fatal is None && post == pre,
        Event::Injected(InjectedPayload::Gossip) => tick_post(pre, post, out, fatal),
        Event::Message(m) => message_post(pre, post, m, out, fatal),
    }
}

impl BroadcastNode {
    /// Runs one gossip round: sends to every neighbor, in the stored order,
    /// the values the neighbor is not believed to know plus the bounded
    /// re-confirmation sample, advancing the counter once per message sent.
    pub fn gossip_tick(&mut self) -> (r: (Vec<Message<BroadcastPayload>>, Option<Fatal>))
        requires
            old(self).wf(),
            old(self).msg_id + old(self).neighborhood@.len() <= u64::MAX,
        ensures
            final(self).wf(),
            final(self).node == old(self).node,
            final(self).member_ids == old(self).member_ids,
            tick_post(*old(self), *final(self), r.0@, r.1),
    {
        let mut out: Vec<Message<BroadcastPayload>> = Vec::new();
        let mut k: usize = 0;
        while k < self.neighborhood.len()
            invariant
                self.wf(),
                self.node == old(self).node,
                self.messages == old(self).messages,
                self.known == old(self).known,
                self.member_ids == old(self).member_ids,
                self.neighborhood == old(self).neighborhood,
                old(self).msg_id + old(self).neighborhood@.len() <= u64::MAX,
                k <= self.neighborhood@.len(),
                self.msg_id == old(self).msg_id + k,
                out@.len() == k,
                forall|j: int|
                    0 <= j < k ==> old(self).is_member((#[trigger] old(self).neighborhood@[j])@),
                forall|j: int|
                    0 <= j < k ==> gossip_message_for(
                        *old(self),
                        old(self).neighborhood@[j],
                        #[trigger] out@[j],
                    ),
            decreases self.neighborhood@.len() - k,
        {
            let nbr: String = self.neighborhood[k].clone();
            match find_index(&self.member_ids, &nbr) {
                None => {
                    return (out, Some(Fatal::UnknownNeighbor { neighbor: nbr }));
                },
                Some(i) => {
                    proof {
                        lemma_index_of_unique(ids_view(self.member_ids@), i as int);
                    }
                    let seen = self.gossip_values(i);
                    let msg = Message {
                        src: self.node.clone(),
                        dst: nbr,
                        body: Body {
                            id: None,
                            in_reply_to: None,
                            payload: BroadcastPayload::Gossip { seen },
                        },
                    };
                    out.push(msg);
                    self.msg_id = self.msg_id + 1;
                },
            }
            k = k + 1;
        }
        (out, None)
    }

    /// Handles one inbound protocol message: the counter advances once, the
    /// payload is dispatched by its tag, and the replies the protocol owes are
    /// returned in order.
    pub fn handle_message(&mut self, input: Message<BroadcastPayload>) -> (r: (
        Vec<Message<BroadcastPayload>>,
        Option<Fatal>,
    ))
        requires
            old(self).wf(),
            old(self).msg_id < u64::MAX,
        ensures
            final(self).wf(),
            final(self).node == old(self).node,
            final(self).member_ids == old(self).member_ids,
            old(self).messages_set().subset_of(final(self).messages_set()),
            message_post(*old(self), *final(self), input, r.0@, r.1),
    {
        let reply = input.into_reply(&mut self.msg_id);
        let Message { src: rsrc, dst: rdst, body } = reply;
        let Body { id: rid, in_reply_to: rirt, payload } = body;
        let mut out: Vec<Message<BroadcastPayload>> = Vec::new();
        match payload {
            BroadcastPayload::Broadcast { message } => {
                self.learn_value(message);
                out.push(
                    Message {
                        src: rsrc,
                        dst: rdst,
                        body: Body {
                            id: rid,
                            in_reply_to: rirt,
                            payload: BroadcastPayload::BroadcastOk,
                        },
                    },
                );
                (out, None)
            },
            BroadcastPayload::Read => {
                let values = self.read_values();
                out.push(
                    Message {
                        src: rsrc,
                        dst: rdst,
                        body: Body {
                            id: rid,
                            in_reply_to: rirt,
                            payload: BroadcastPayload::ReadOk { messages: values },
                        },
                    },
                );
                (out, None)
            },
            BroadcastPayload::Gossip { seen } => {
                let f = self.merge_gossip(&rdst, &seen);
                (out, f)
            },
            BroadcastPayload::Topology { topology } => {
                match self.assign_topology(topology) {
                    Some(f) => (out, Some(f)),
                    None => {
                        out.push(
                            Message {
                                src: rsrc,
                                dst: rdst,
                                body: Body {
                                    id: rid,
                                    in_reply_to: rirt,
                                    payload: BroadcastPayload::TopologyOk,
                                },
                            },
                        );
                        (out, None)
                    },
                }
            },
            BroadcastPayload::BroadcastOk => (out, None),
            BroadcastPayload::ReadOk { messages: _ } => (out, None),
            BroadcastPayload::TopologyOk => (out, None),
        }
    }

    /// Consumes one event of the merged stream. The set of known values never
    /// loses a value, whatever the event was.
    pub fn step(&mut self, event: Event<BroadcastPayload>) -> (r: (
        Vec<Message<BroadcastPayload>>,
        Option<Fatal>,
    ))
        requires
            old(self).wf(),
            old(self).msg_id + 1 + old(self).neighborhood@.len() <= u64::MAX,
        ensures
            final(self).wf(),
            final(self).node == old(self).node,
            final(self).member_ids == old(self).member_ids,
            old(self).messages_set().subset_of(final(self).messages_set()),
            step_post(*old(self), *final(self), event, r.0@, r.1),
    {
        match event {
            Event::Eof => (Vec::new(), None),
            Event::Injected(InjectedPayload::Gossip) => self.gossip_tick(),
            Event::Message(input) => self.handle_message(input),
        }
    }
}

/// In a duplicate-free id list, the slot found for an id is the only one.
proof fn lemma_index_of_unique(ids: Seq<Seq<char>>, i: int)
    requires
        ids.no_duplicates(),
        0 <= i < ids.len(),
    ensures
        ids.contains(ids[i]),
        ids.index_of(ids[i]) == i,
{
    assert(ids.contains(ids[i]));
    let j = ids.index_of(ids[i]);
    assert(0 <= j < ids.len() && ids[j] == ids[i]);
    if j != i {
        assert(false);
    }
}

} // verus!
