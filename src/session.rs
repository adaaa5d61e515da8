use vstd::prelude::*;
use crate::message::{Body, Message};

verus! {

/// The payloads of the handshake that opens every session.
pub enum InitPayload {
    /// Sent once by the harness: this node's id and the ids of all nodes.
    Init { node_id: String, node_ids: Vec<String> },
    /// The node's answer to `Init`.
    InitOk,
}

/// Why a handshake could not give the node its identity.
#[derive(Debug, PartialEq, Eq, Structural)]
pub enum InitError {
    /// The first message was not an `Init` request.
    NotInit,
}

/// The ids of `ids` other than `me`, in their order.
pub open spec fn peers_of(ids: Seq<String>, me: Seq<char>) -> Seq<String>
    decreases ids.len(),
{
    if ids.len() == 0 {
        Seq::empty()
    } else if ids.last()@ == me {
        peers_of(ids.drop_last(), me)
    } else {
        peers_of(ids.drop_last(), me).push(ids.last())
    }
}

/// What a node knows of itself after the handshake.
pub struct NodeMetadata {
    /// Id of this node.
    pub node_id: String,
    /// Ids of all the other nodes of the cluster.
    pub other_nodes_ids: Vec<String>,
    /// The id that the next call of `get_next_msg_id` hands out.
    pub next_message_id: usize,
}

impl NodeMetadata {
    /// The id that the next call of `get_next_msg_id` hands out.
    pub open spec fn next_id(&self) -> usize {
        self.next_message_id
    }

    /// Makes the metadata of a node.
    pub fn new(node_id: String, other_nodes_ids: Vec<String>, next_message_id: usize) -> (r: Self)
        ensures
            r.node_id == node_id,
            r.other_nodes_ids == other_nodes_ids,
            r.next_id() == next_message_id,
    {
        Self { node_id, other_nodes_ids, next_message_id }
    }

    /// The id that the next call of `get_next_msg_id` hands out.
    pub fn peek_next_msg_id(&self) -> (r: usize)
        ensures
            r == self.next_id(),
    {
        self.next_message_id
    }

    /// Hands out the next message id and advances the counter by one.
    pub fn get_next_msg_id(&mut self) -> (r: usize)
        requires
            old(self).next_id() < usize::MAX,
        ensures
            r == old(self).next_id(),
            final(self).next_id() == old(self).next_id() + 1,
            final(self).node_id == old(self).node_id,
            final(self).other_nodes_ids == old(self).other_nodes_ids,
    {
        let next_msg_id = self.next_message_id;
        self.next_message_id = self.next_message_id + 1;
        next_msg_id
    }
}

/// The handshake of a node.
pub struct Maelstrom {}

impl Maelstrom {
    /// Answers the first message of a session, which must be an `Init` request.
    ///
    /// On success it returns the node's metadata, whose peers are all the ids
    /// but the node's own (in order) and whose next message id is 1, and the
    /// `InitOk` answer, with message id 0, to send before anything else.
    pub fn init(init_msg: Message<InitPayload>) -> (r: Result<(NodeMetadata, Message<InitPayload>), InitError>)
        ensures
            (init_msg.body.payload is InitOk) <==> r == Err::<(NodeMetadata, Message<InitPayload>), InitError>(InitError::NotInit),
            init_msg.body.payload is Init ==> r is Ok && {
                let (meta, reply) = r->Ok_0;
                &&& meta.node_id == init_msg.body.payload->node_id
                &&& meta.other_nodes_ids@ == peers_of(init_msg.body.payload->node_ids@, meta.node_id@)
                &&& meta.next_id() == 1
                &&& reply.src == init_msg.dst
                &&& reply.dst == init_msg.src
                &&& reply.body.msg_id == Some(0usize)
                &&& reply.body.in_reply_to == init_msg.body.msg_id
                &&& reply.body.payload is InitOk
            },
    {
        let Message { src, dst, body } = init_msg;
        let Body { msg_id, in_reply_to: _, payload } = body;
        match payload {
            InitPayload::Init { node_id, node_ids } => {
                let mut peers: Vec<String> = Vec::new();
                let mut i: usize = 0;
                while i < node_ids.len()
                    invariant
                        i <= node_ids.len(),
                        peers@ == peers_of(node_ids@.subrange(0, i as int), node_id@),
                    decreases node_ids.len() - i,
                {
                    assert(node_ids@.subrange(0, i + 1).drop_last() =~= node_ids@.subrange(0, i as int));
                    if node_ids[i] != node_id {
                        peers.push(node_ids[i].clone());
                    }
                    i = i + 1;
                }
                assert(node_ids@.subrange(0, node_ids.len() as int) =~= node_ids@);
                let reply = Message {
                    src: dst,
                    dst: src,
                    body: Body { msg_id: Some(0), in_reply_to: msg_id, payload: InitPayload::InitOk },
                };
                Ok((NodeMetadata::new(node_id, peers, 1), reply))
            },
            InitPayload::InitOk => Err(InitError::NotInit),
        }
    }
}

} // verus!
