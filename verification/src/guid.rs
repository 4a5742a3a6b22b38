use vstd::prelude::*;
use vstd::pervasive::unreached;
use vstd::string::StringExecFns;
use crate::protocol::{Body, Event, Message};

verus! {

/// The payload of the unique-id protocol.
pub enum UniquePayload {
    Generate,
    GenerateOk { guid: String },
}

/// The digit character of `d`, for `d` below ten.
pub open spec fn digit_char(d: nat) -> char {
    if d == 0 {
        '0'
    } else if d == 1 {
        '1'
    } else if d == 2 {
        '2'
    } else if d == 3 {
        '3'
    } else if d == 4 {
        '4'
    } else if d == 5 {
        '5'
    } else if d == 6 {
        '6'
    } else if d == 7 {
        '7'
    } else if d == 8 {
        '8'
    } else {
        '9'
    }
}

/// The decimal digits of `n`, most significant first.
pub open spec fn decimal_digits(n: nat) -> Seq<char>
    decreases n,
{
    if n < 10 {
        seq![digit_char(n)]
    } else {
        decimal_digits(n / 10).push(digit_char(n % 10))
    }
}

/// Appends the decimal digits of `n` to `s`.
fn append_decimal(s: &mut String, n: u64)
    ensures
        final(s)@ == old(s)@ + decimal_digits(n as nat),
    decreases n,
{
    let ghost mid0 = s@;
    if n >= 10 {
        append_decimal(s, n / 10);
    }
    let ghost mid = s@;
    let d: u64 = n % 10;
    let digit: &str = if d == 0 {
        "0"
    } else if d == 1 {
        "1"
    } else if d == 2 {
        "2"
    } else if d == 3 {
        "3"
    } else if d == 4 {
        "4"
    } else if d == 5 {
        "5"
    } else if d == 6 {
        "6"
    } else if d == 7 {
        "7"
    } else if d == 8 {
        "8"
    } else {
        "9"
    };
    proof {
        reveal_strlit("0");
        reveal_strlit("1");
        reveal_strlit("2");
        reveal_strlit("3");
        reveal_strlit("4");
        reveal_strlit("5");
        reveal_strlit("6");
        reveal_strlit("7");
        reveal_strlit("8");
        reveal_strlit("9");
        assert(digit@ =~= seq![digit_char((n % 10) as nat)]);
    }
    s.append(digit);
    proof {
        if n < 10 {
            assert(decimal_digits(n as nat) =~= seq![digit_char(n as nat)]);
            assert(s@ =~= old(s)@ + decimal_digits(n as nat));
        } else {
            assert(decimal_digits(n as nat) == decimal_digits((n / 10) as nat).push(
                digit_char((n % 10) as nat),
            ));
            assert(s@ =~= old(s)@ + decimal_digits(n as nat));
        }
    }
}

/// The id issued by `node` at counter value `n`: the node id, a dash, and the
/// decimal digits of the counter. The counter never repeats on one node, so
/// the pair makes the id fresh without any cluster coordination.
pub fn generate_guid(node: &String, n: u64) -> (r: String)
    ensures
        r@ == node@ + seq!['-'] + decimal_digits(n as nat),
{
    let mut out: String = node.clone();
    proof {
        reveal_strlit("-");
        assert("-"@ =~= seq!['-']);
    }
    out.append("-");
    append_decimal(&mut out, n);
    proof {
        assert(out@ =~= node@ + seq!['-'] + decimal_digits(n as nat));
    }
    out
}

/// The unique-id node: its identity and the monotonic counter whose values
/// make each issued id fresh.
pub struct UniqueNode {
    /// This node's own id.
    pub node: String,
    /// Monotonic counter handing out fresh message ids.
    pub msg_id: u64,
}

impl UniqueNode {
    /// Builds the node from the initialization handshake.
    pub fn from_init(node_id: String) -> (r: UniqueNode)
        ensures
            r.node == node_id,
            r.msg_id == 1,
    {
        UniqueNode { node: node_id, msg_id: 1 }
    }

    /// Handles one event. This node takes no injected events and stops before
    /// the end of input, so the event is always an inbound message: a generate
    /// request is answered with a fresh cluster-unique id, and a stray
    /// acknowledgement is ignored.
    pub fn step(&mut self, event: Event<UniquePayload>) -> (r: Vec<Message<UniquePayload>>)
        requires
            old(self).msg_id < u64::MAX,
            event matches Event::Message(_),
        ensures
            final(self).node == old(self).node,
            final(self).msg_id == old(self).msg_id + 1,
            match event {
                Event::Message(input) => match input.body.payload {
                    UniquePayload::Generate => {
                        &&& r@.len() == 1
                        &&& r@[0].src == input.dst
                        &&& r@[0].dst == input.src
                        &&& r@[0].body.id == Some(old(self).msg_id)
                        &&& r@[0].body.in_reply_to == input.body.id
                        &&& r@[0].body.payload matches UniquePayload::GenerateOk { guid }
                            && guid@ == old(self).node@ + seq!['-'] + decimal_digits(
                            (old(self).msg_id + 1) as nat,
                        )
                    },
                    UniquePayload::GenerateOk { .. } => r@.len() == 0,
                },
                _ => false,
            },
    {
        match event {
            Event::Message(input) => {
                let reply = input.into_reply(&mut self.msg_id);
                let Message { src: rsrc, dst: rdst, body } = reply;
                let Body { id: rid, in_reply_to: rirt, payload } = body;
                let mut out: Vec<Message<UniquePayload>> = Vec::new();
                match payload {
                    UniquePayload::Generate => {
                        let guid = generate_guid(&self.node, self.msg_id);
                        out.push(
                            Message {
                                src: rsrc,
                                dst: rdst,
                                body: Body {
                                    id: rid,
                                    in_reply_to: rirt,
                                    payload: UniquePayload::GenerateOk { guid },
                                },
                            },
                        );
                        out
                    },
                    UniquePayload::GenerateOk { guid: _ } => out,
                }
            },
            Event::Injected(_) => unreached(),
            Event::Eof => unreached(),
        }
    }
}

} // verus!
