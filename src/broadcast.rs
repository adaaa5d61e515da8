use vstd::prelude::*;
use crate::known::{merge, KnownValues};
use crate::message::{Body, Message};
use crate::session::NodeMetadata;
use crate::topology::Topology;

verus! {

/// The payloads of the broadcast protocol.
pub enum BroadcastPayload {
    /// Sets the gossip topology of the cluster.
    Topology { topology: Topology },
    /// Acknowledges `Topology`.
    TopologyOk,
    /// Asks the node to record a value.
    Broadcast { message: usize },
    /// Acknowledges `Broadcast`.
    BroadcastOk,
    /// Asks for every value the node knows.
    Read,
    /// Answers `Read` with the known values.
    ReadOk { messages: Vec<usize> },
    /// Carries a node's whole known set to a neighbour; never acknowledged.
    Gossip { known: Vec<usize> },
}

/// Whether `p` is an acknowledgment, which a node never expects to receive.
pub open spec fn is_ack(p: BroadcastPayload) -> bool {
    p is TopologyOk || p is BroadcastOk || p is ReadOk
}

/// Whether `p` is a request that the node answers.
pub open spec fn is_request(p: BroadcastPayload) -> bool {
    p is Topology || p is Broadcast || p is Read
}

/// What the dispatcher reacts to, in the order in which it arrives.
pub enum Event {
    /// The input has ended: the dispatcher stops.
    Eof,
    /// Time to gossip the known set to the neighbours.
    GossipTick,
    /// A message arrived from the network.
    MessageReceived(Message<BroadcastPayload>),
}

/// What went wrong while handling a message.
#[derive(Debug, PartialEq, Eq, Structural)]
pub enum Violation {
    /// The node received an acknowledgment, which it never asked for.
    UnexpectedPayload,
    /// Every message id has been handed out, so no answer can be sent.
    IdsExhausted,
}

/// What the dispatcher does after an event.
pub enum Step {
    /// Send these messages, in order, and go on.
    Continue(Vec<Message<BroadcastPayload>>),
    /// Stop consuming events.
    Stop,
}

/// Whether `m` is a gossip message from `from` to `to` carrying exactly `known`.
pub open spec fn is_gossip(m: Message<BroadcastPayload>, from: String, to: String, known: Set<usize>) -> bool {
    &&& m.src == from
    &&& m.dst == to
    &&& m.body.msg_id is None
    &&& m.body.in_reply_to is None
    &&& m.body.payload is Gossip
    &&& m.body.payload->known@.no_duplicates()
    &&& m.body.payload->known@.to_set() == known
}

/// Whether `r` answers `req` with message id `id`.
pub open spec fn is_reply(r: Message<BroadcastPayload>, req: Message<BroadcastPayload>, id: usize) -> bool {
    &&& r.src == req.dst
    &&& r.dst == req.src
    &&& r.body.msg_id == Some(id)
    &&& r.body.in_reply_to == req.body.msg_id
}

/// The state of a broadcast node: its identity, the values it knows and,
/// once received, the topology.
pub struct BroadcastNode {
    /// The node's identity and message id counter.
    pub metadata: NodeMetadata,
    /// The values the node knows; the set only grows.
    pub known: KnownValues,
    /// The topology, unknown until a `Topology` message arrives.
    pub topology: Option<Topology>,
}

impl BroadcastNode {
    /// The node's state is well formed.
    pub open spec fn wf(&self) -> bool {
        self.known.wf()
    }

    /// The neighbours this node gossips to: none while the topology is
    /// unknown or does not list the node.
    pub open spec fn gossip_targets(&self) -> Seq<String> {
        match self.topology {
            Some(t) => match t.neighbours_of(self.metadata.node_id@) {
                Some(ns) => ns,
                None => Seq::empty(),
            },
            None => Seq::empty(),
        }
    }

    /// `out` is one gossip round of this node: one message to each neighbour,
    /// in the topology's order, carrying the whole known set.
    pub open spec fn is_gossip_round(&self, out: Seq<Message<BroadcastPayload>>) -> bool {
        &&& out.len() == self.gossip_targets().len()
        &&& forall|k: int| 0 <= k < out.len() ==> #[trigger] is_gossip(
            out[k],
            self.metadata.node_id,
            self.gossip_targets()[k],
            self.known@,
        )
    }

    /// How handling the message `msg` takes the node from `pre` to `post` with
    /// result `r`.
    pub open spec fn handled(
        pre: BroadcastNode,
        post: BroadcastNode,
        msg: Message<BroadcastPayload>,
        r: Result<Seq<Message<BroadcastPayload>>, Violation>,
    ) -> bool {
        let p = msg.body.payload;
        let id = pre.metadata.next_id();
        if is_ack(p) {
            r == Err::<Seq<Message<BroadcastPayload>>, Violation>(Violation::UnexpectedPayload) && post == pre
        } else if is_request(p) && id == usize::MAX {
            r == Err::<Seq<Message<BroadcastPayload>>, Violation>(Violation::IdsExhausted) && post == pre
        } else if is_request(p) {
            &&& r is Ok
            &&& r->Ok_0.len() == 1
            &&& is_reply(r->Ok_0[0], msg, id)
            &&& post.metadata.next_id() == id + 1
            &&& post.metadata.node_id == pre.metadata.node_id
            &&& post.metadata.other_nodes_ids == pre.metadata.other_nodes_ids
            &&& match p {
                BroadcastPayload::Topology { topology } => {
                    &&& post.topology == Some(topology)
                    &&& post.known@ == pre.known@
                    &&& r->Ok_0[0].body.payload is TopologyOk
                },
                BroadcastPayload::Broadcast { message } => {
                    &&& post.topology == pre.topology
                    &&& post.known@ == pre.known@.insert(message)
                    &&& r->Ok_0[0].body.payload is BroadcastOk
                },
                _ => {
                    &&& post.topology == pre.topology
                    &&& post.known@ == pre.known@
                    &&& r->Ok_0[0].body.payload is ReadOk
                    &&& r->Ok_0[0].body.payload->messages@.no_duplicates()
                    &&& r->Ok_0[0].body.payload->messages@.to_set() == pre.known@
                },
            }
        } else {
            &&& r is Ok
            &&& r->Ok_0.len() == 0
            &&& post.metadata == pre.metadata
            &&& post.topology == pre.topology
            &&& post.known@ == merge(pre.known@, p->known@.to_set())
        }
    }

    /// A node that knows no value and no topology yet.
    pub fn new(metadata: NodeMetadata) -> (r: Self)
        ensures
            r.wf(),
            r.metadata == metadata,
            r.known@ == Set::<usize>::empty(),
            r.topology is None,
    {
        BroadcastNode { metadata, known: KnownValues::new(), topology: None }
    }

    /// The values the node knows, each once.
    pub fn read_values(&self) -> (r: Vec<usize>)
        requires
            self.wf(),
        ensures
            r@.no_duplicates(),
            r@.to_set() == self.known@,
    {
        self.known.snapshot()
    }

    /// One round of gossip: the whole known set to each neighbour listed for
    /// this node, in order; nothing while the topology is unknown or does not
    /// list the node.
    pub fn gossip(&self) -> (out: Vec<Message<BroadcastPayload>>)
        requires
            self.wf(),
        ensures
            self.is_gossip_round(out@),
    {
        let mut out: Vec<Message<BroadcastPayload>> = Vec::new();
        match &self.topology {
            None => {},
            Some(t) => match t.neighbours(&self.metadata.node_id) {
                None => {},
                Some(ns) => {
                    let mut i: usize = 0;
                    while i < ns.len()
                        invariant
                            self.wf(),
                            ns@ == self.gossip_targets(),
                            i <= ns.len(),
                            out@.len() == i,
                            forall|k: int| 0 <= k < i ==> #[trigger] is_gossip(
                                out@[k],
                                self.metadata.node_id,
                                self.gossip_targets()[k],
                                self.known@,
                            ),
                        decreases ns.len() - i,
                    {
                        let m = Message {
                            src: self.metadata.node_id.clone(),
                            dst: ns[i].clone(),
                            body: Body {
                                msg_id: None,
                                in_reply_to: None,
                                payload: BroadcastPayload::Gossip { known: self.known.snapshot() },
                            },
                        };
                        out.push(m);
                        i = i + 1;
                    }
                },
            },
        }
        out
    }

    /// Handles one message from the network and returns the messages to send.
    ///
    /// `Topology` stores the topology, `Broadcast` records the value and
    /// `Read` answers with the known values; each is answered once, with the
    /// next message id. `Gossip` merges the neighbour's set into the known set
    /// and is not answered. An acknowledgment is refused, and so is a request
    /// when no message id is left; the node is then left as it was.
    pub fn on_message(&mut self, msg: Message<BroadcastPayload>) -> (r: Result<Vec<Message<BroadcastPayload>>, Violation>)
        requires
            old(self).wf(),
        ensures
            final(self).wf(),
            old(self).known@.subset_of(final(self).known@),
            Self::handled(
                *old(self),
                *final(self),
                msg,
                match r {
                    Ok(v) => Ok(v@),
                    Err(e) => Err(e),
                },
            ),
    {
        let Message { src, dst, body } = msg;
        let Body { msg_id, in_reply_to: _, payload } = body;
        let mut out: Vec<Message<BroadcastPayload>> = Vec::new();
        match payload {
            BroadcastPayload::Gossip { known } => {
                self.known.merge_from(&known);
                return Ok(out);
            },
            BroadcastPayload::TopologyOk => {
                return Err(Violation::UnexpectedPayload);
            },
            BroadcastPayload::BroadcastOk => {
                return Err(Violation::UnexpectedPayload);
            },
            BroadcastPayload::ReadOk { .. } => {
                return Err(Violation::UnexpectedPayload);
            },
            BroadcastPayload::Topology { topology } => {
                if self.metadata.peek_next_msg_id() == usize::MAX {
                    return Err(Violation::IdsExhausted);
                }
                self.topology = Some(topology);
                let id = self.metadata.get_next_msg_id();
                out.push(Message {
                    src: dst,
                    dst: src,
                    body: Body { msg_id: Some(id), in_reply_to: msg_id, payload: BroadcastPayload::TopologyOk },
                });
            },
            BroadcastPayload::Broadcast { message } => {
                if self.metadata.peek_next_msg_id() == usize::MAX {
                    return Err(Violation::IdsExhausted);
                }
                self.known.insert(message);
                let id = self.metadata.get_next_msg_id();
                out.push(Message {
                    src: dst,
                    dst: src,
                    body: Body { msg_id: Some(id), in_reply_to: msg_id, payload: BroadcastPayload::BroadcastOk },
                });
            },
            BroadcastPayload::Read => {
                if self.metadata.peek_next_msg_id() == usize::MAX {
                    return Err(Violation::IdsExhausted);
                }
                let messages = self.known.snapshot();
                let id = self.metadata.get_next_msg_id();
                out.push(Message {
                    src: dst,
                    dst: src,
                    body: Body { msg_id: Some(id), in_reply_to: msg_id, payload: BroadcastPayload::ReadOk { messages } },
                });
            },
        }
        Ok(out)
    }

    /// Handles one event of the queue: `Eof` stops the dispatcher, a gossip
    /// tick yields one gossip round, and a message is handled by
    /// `on_message`. The known set never shrinks.
    pub fn handle(&mut self, event: Event) -> (r: Result<Step, Violation>)
        requires
            old(self).wf(),
        ensures
            final(self).wf(),
            old(self).known@.subset_of(final(self).known@),
            match event {
                Event::Eof => r == Ok::<Step, Violation>(Step::Stop) && *final(self) == *old(self),
                Event::GossipTick => {
                    &&& *final(self) == *old(self)
                    &&& r is Ok
                    &&& r->Ok_0 is Continue
                    &&& old(self).is_gossip_round(r->Ok_0->Continue_0@)
                },
                Event::MessageReceived(m) => Self::handled(
                    *old(self),
                    *final(self),
                    m,
                    match r {
                        Ok(Step::Continue(v)) => Ok(v@),
                        Ok(Step::Stop) => Ok(Seq::empty()),
                        Err(e) => Err(e),
                    },
                ) && !(r matches Ok(Step::Stop)),
            },
    {
        match event {
            Event::Eof => Ok(Step::Stop),
            Event::GossipTick => Ok(Step::Continue(self.gossip())),
            Event::MessageReceived(m) => match self.on_message(m) {
                Ok(out) => Ok(Step::Continue(out)),
                Err(e) => Err(e),
            },
        }
    }
}

} // verus!
