use vstd::prelude::*;

verus! {

/// A signal injected into the event stream by the node itself rather than by
/// the network; the only variant today is the periodic gossip tick.
pub enum InjectedPayload {
    Gossip,
}

/// The body of a wire message: a tagged payload, an optional fresh message id,
/// and an optional reference to the request this message answers.
pub struct Body<P> {
    pub id: Option<u64>,
    pub in_reply_to: Option<u64>,
    pub payload: P,
}

/// A wire-level message envelope.
pub struct Message<P> {
    pub src: String,
    pub dst: String,
    pub body: Body<P>,
}

/// One unit of the single ordered stream a node consumes: an inbound message,
/// an internally injected signal, or the end of the inbound transport.
pub enum Event<P> {
    Message(Message<P>),
    Injected(InjectedPayload),
    Eof,
}

impl<P> Message<P> {
    /// Turns a request into its reply: source and destination swap, the reply
    /// answers the request's message id, and it takes a fresh id from the
    /// monotonic counter, which advances by one.
    pub fn into_reply(self, counter: &mut u64) -> (r: Message<P>)
        requires
            *old(counter) < u64::MAX,
        ensures
            r.src == self.dst,
            r.dst == self.src,
            r.body.id == Some(*old(counter)),
            r.body.in_reply_to == self.body.id,
            r.body.payload == self.body.payload,
            *final(counter) == *old(counter) + 1,
    {
        let fresh: u64 = *counter;
        *counter = fresh + 1;
        Message {
            src: self.dst,
            dst: self.src,
            body: Body { id: Some(fresh), in_reply_to: self.body.id, payload: self.body.payload },
        }
    }
}

/// Holds when `r` is the reply that answers request `req`, carries payload
/// `pay`, and took `fresh` as its new message id.
pub open spec fn is_reply_to<P>(req: Message<P>, fresh: u64, pay: P, r: Message<P>) -> bool {
    &&& r.src == req.dst
    &&& r.dst == req.src
    &&& r.body.id == Some(fresh)
    &&& r.body.in_reply_to == req.body.id
    &&& r.body.payload == pay
}

} // verus!
