use vstd::prelude::*;
use crate::broadcast::Violation;
use crate::message::{Body, Message};
use crate::session::NodeMetadata;

verus! {

/// The payloads of the echo protocol.
pub enum EchoPayload {
    /// A client asks for its text back.
    Echo { echo: String },
    /// The node sends the text back.
    EchoOk { echo: String },
}

/// Answers an `Echo` request with the same text, from this node, with the next
/// message id. An `EchoOk` is refused, and so is a request when no message id
/// is left; the metadata is then unchanged.
pub fn echo_reply(meta: &mut NodeMetadata, msg: Message<EchoPayload>) -> (r: Result<Message<EchoPayload>, Violation>)
    ensures
        msg.body.payload is EchoOk ==> r == Err::<Message<EchoPayload>, Violation>(Violation::UnexpectedPayload)
            && *final(meta) == *old(meta),
        msg.body.payload is Echo && old(meta).next_id() == usize::MAX ==> r == Err::<Message<EchoPayload>, Violation>(Violation::IdsExhausted)
            && *final(meta) == *old(meta),
        msg.body.payload is Echo && old(meta).next_id() < usize::MAX ==> {
            &&& r is Ok
            &&& r->Ok_0.src == old(meta).node_id
            &&& r->Ok_0.dst == msg.src
            &&& r->Ok_0.body.msg_id == Some(old(meta).next_id())
            &&& r->Ok_0.body.in_reply_to == msg.body.msg_id
            &&& r->Ok_0.body.payload is EchoOk
            &&& r->Ok_0.body.payload->EchoOk_echo == msg.body.payload->Echo_echo
            &&& final(meta).next_id() == old(meta).next_id() + 1
            &&& final(meta).node_id == old(meta).node_id
            &&& final(meta).other_nodes_ids == old(meta).other_nodes_ids
        },
{
    let Message { src, dst: _, body } = msg;
    let Body { msg_id, in_reply_to: _, payload } = body;
    match payload {
        EchoPayload::Echo { echo } => {
            if meta.peek_next_msg_id() == usize::MAX {
                return Err(Violation::IdsExhausted);
            }
            let id = meta.get_next_msg_id();
            Ok(Message {
                src: meta.node_id.clone(),
                dst: src,
                body: Body { msg_id: Some(id), in_reply_to: msg_id, payload: EchoPayload::EchoOk { echo } },
            })
        },
        EchoPayload::EchoOk { .. } => Err(Violation::UnexpectedPayload),
    }
}

} // verus!
