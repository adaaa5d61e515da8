use vstd::prelude::*;
use crate::broadcast::Violation;
use crate::message::{Body, Message};
use crate::session::NodeMetadata;

verus! {

/// The payloads of the unique-id protocol.
pub enum UniqueIdPayload {
    /// A client asks for a fresh id.
    Generate,
    /// The node answers with an id.
    GenerateOk { id: String },
}

/// Relies on uuid::Uuid::new_v4 and its `Display`: a random version-4 UUID in
/// hyphenated form, 36 characters. Nothing more is promised of its value.
#[verifier::external_body]
fn fresh_uuid() -> (r: String)
    ensures
        r@.len() == 36,
{
    uuid::Uuid::new_v4().to_string()
}

/// Answers a `Generate` request with the id `fresh`, from this node, with the
/// next message id. A `GenerateOk` is refused, and so is a request when no
/// message id is left; the metadata is then unchanged.
pub fn generate_reply(meta: &mut NodeMetadata, msg: Message<UniqueIdPayload>, fresh: String) -> (r: Result<Message<UniqueIdPayload>, Violation>)
    ensures
        msg.body.payload is GenerateOk ==> r == Err::<Message<UniqueIdPayload>, Violation>(Violation::UnexpectedPayload)
            && *final(meta) == *old(meta),
        msg.body.payload is Generate && old(meta).next_id() == usize::MAX ==> r == Err::<Message<UniqueIdPayload>, Violation>(Violation::IdsExhausted)
            && *final(meta) == *old(meta),
        msg.body.payload is Generate && old(meta).next_id() < usize::MAX ==> {
            &&& r is Ok
            &&& r->Ok_0.src == old(meta).node_id
            &&& r->Ok_0.dst == msg.src
            &&& r->Ok_0.body.msg_id == Some(old(meta).next_id())
            &&& r->Ok_0.body.in_reply_to == msg.body.msg_id
            &&& r->Ok_0.body.payload == (UniqueIdPayload::GenerateOk { id: fresh })
            &&& final(meta).next_id() == old(meta).next_id() + 1
            &&& final(meta).node_id == old(meta).node_id
            &&& final(meta).other_nodes_ids == old(meta).other_nodes_ids
        },
{
    let Message { src, dst: _, body } = msg;
    let Body { msg_id, in_reply_to: _, payload } = body;
    match payload {
        UniqueIdPayload::Generate => {
            if meta.peek_next_msg_id() == usize::MAX {
                return Err(Violation::IdsExhausted);
            }
            let id = meta.get_next_msg_id();
            Ok(Message {
                src: meta.node_id.clone(),
                dst: src,
                body: Body { msg_id: Some(id), in_reply_to: msg_id, payload: UniqueIdPayload::GenerateOk { id: fresh } },
            })
        },
        UniqueIdPayload::GenerateOk { .. } => Err(Violation::UnexpectedPayload),
    }
}

/// Answers a `Generate` request with a freshly drawn random UUID (36
/// characters, hyphenated); otherwise as `generate_reply`.
pub fn unique_id_reply(meta: &mut NodeMetadata, msg: Message<UniqueIdPayload>) -> (r: Result<Message<UniqueIdPayload>, Violation>)
    ensures
        msg.body.payload is GenerateOk ==> r == Err::<Message<UniqueIdPayload>, Violation>(Violation::UnexpectedPayload)
            && *final(meta) == *old(meta),
        msg.body.payload is Generate && old(meta).next_id() == usize::MAX ==> r == Err::<Message<UniqueIdPayload>, Violation>(Violation::IdsExhausted)
            && *final(meta) == *old(meta),
        msg.body.payload is Generate && old(meta).next_id() < usize::MAX ==> {
            &&& r is Ok
            &&& r->Ok_0.src == old(meta).node_id
            &&& r->Ok_0.dst == msg.src
            &&& r->Ok_0.body.msg_id == Some(old(meta).next_id())
            &&& r->Ok_0.body.in_reply_to == msg.body.msg_id
            &&& r->Ok_0.body.payload is GenerateOk
            &&& r->Ok_0.body.payload->GenerateOk_id@.len() == 36
            &&& final(meta).next_id() == old(meta).next_id() + 1
            &&& final(meta).node_id == old(meta).node_id
            &&& final(meta).other_nodes_ids == old(meta).other_nodes_ids
        },
{
    if matches!(msg.body.payload, UniqueIdPayload::Generate) && meta.peek_next_msg_id() < usize::MAX {
        let fresh = fresh_uuid();
        generate_reply(meta, msg, fresh)
    } else {
        generate_reply(meta, msg, String::new())
    }
}

} // verus!
