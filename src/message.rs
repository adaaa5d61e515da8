use vstd::prelude::*;

verus! {

/// A message of the cluster protocol: who sent it, to whom, and its body.
///
/// It is generic over the payload type `P`, a closed set of tagged variants
/// chosen by each protocol.
pub struct Message<P> {
    /// The identifier of the node that sent the message.
    pub src: String,
    /// The identifier of the recipient.
    pub dst: String,
    /// The body, generic over the payload type.
    pub body: Body<P>,
}

/// The body of a [`Message`]: its optional identifiers and its payload.
pub struct Body<P> {
    /// An optional id for the message.
    pub msg_id: Option<usize>,
    /// The id of the message this one answers, if any.
    pub in_reply_to: Option<usize>,
    /// The tagged payload.
    pub payload: P,
}

/// The answer to `m`: source and destination swapped, `in_reply_to` taken from
/// `m`'s own id, with the given id and payload.
pub open spec fn response_to<P>(m: Message<P>, msg_id: Option<usize>, payload: P) -> Message<P> {
    Message {
        src: m.dst,
        dst: m.src,
        body: Body { msg_id: msg_id, in_reply_to: m.body.msg_id, payload: payload },
    }
}

impl<P> Message<P> {
    /// Builds the response to this message: `src` and `dst` are swapped and
    /// `in_reply_to` is set to this message's `msg_id`.
    pub fn to_response(self, msg_id: Option<usize>, payload: P) -> (r: Self)
        ensures
            r == response_to(self, msg_id, payload),
    {
        Message {
            src: self.dst,
            dst: self.src,
            body: Body { msg_id, in_reply_to: self.body.msg_id, payload },
        }
    }
}

} // verus!
