use node_driver::{
    echo_reply, generate_reply, unique_id_reply, Body, BroadcastNode, BroadcastPayload, EchoPayload, Event,
    InitError, InitPayload, KnownValues, Maelstrom, Message, NodeMetadata, Step, Topology, UniqueIdPayload,
    Violation,
};

fn s(x: &str) -> String {
    x.to_string()
}

fn msg<P>(src: &str, dst: &str, msg_id: Option<usize>, payload: P) -> Message<P> {
    Message { src: s(src), dst: s(dst), body: Body { msg_id, in_reply_to: None, payload } }
}

fn node(id: &str) -> BroadcastNode {
    BroadcastNode::new(NodeMetadata::new(s(id), vec![], 1))
}

fn sorted(mut v: Vec<usize>) -> Vec<usize> {
    v.sort();
    v
}

fn continued(r: Result<Step, Violation>) -> Vec<Message<BroadcastPayload>> {
    match r {
        Ok(Step::Continue(out)) => out,
        Ok(Step::Stop) => panic!("unexpected stop"),
        Err(e) => panic!("unexpected error {:?}", e),
    }
}

fn topology(entries: &[(&str, &[&str])]) -> Topology {
    Topology {
        entries: entries
            .iter()
            .map(|(k, ns)| (s(k), ns.iter().map(|n| s(n)).collect()))
            .collect(),
    }
}

#[test]
fn to_response_swaps_ends_and_links_ids() {
    let m = msg("c1", "n1", Some(7), 3u8);
    let r = m.to_response(Some(2), 4u8);
    assert_eq!(r.src, "n1");
    assert_eq!(r.dst, "c1");
    assert_eq!(r.body.msg_id, Some(2));
    assert_eq!(r.body.in_reply_to, Some(7));
    assert_eq!(r.body.payload, 4u8);
}

#[test]
fn next_msg_id_counts_up() {
    let mut meta = NodeMetadata::new(s("n1"), vec![s("n2")], 1);
    assert_eq!(meta.get_next_msg_id(), 1);
    assert_eq!(meta.get_next_msg_id(), 2);
    assert_eq!(meta.peek_next_msg_id(), 3);
}

#[test]
fn handshake_answers_and_drops_self() {
    let init = msg(
        "c0",
        "n1",
        Some(11),
        InitPayload::Init { node_id: s("n1"), node_ids: vec![s("n1"), s("n2"), s("n3")] },
    );
    let (mut meta, reply) = Maelstrom::init(init).unwrap();
    assert_eq!(meta.node_id, "n1");
    assert_eq!(meta.other_nodes_ids, vec![s("n2"), s("n3")]);
    assert_eq!(reply.src, "n1");
    assert_eq!(reply.dst, "c0");
    assert_eq!(reply.body.msg_id, Some(0));
    assert_eq!(reply.body.in_reply_to, Some(11));
    assert!(matches!(reply.body.payload, InitPayload::InitOk));
    assert_eq!(meta.get_next_msg_id(), 1);
}

#[test]
fn handshake_keeps_peer_order() {
    let init = msg(
        "c0",
        "n2",
        None,
        InitPayload::Init { node_id: s("n2"), node_ids: vec![s("n3"), s("n2"), s("n1")] },
    );
    let (meta, reply) = Maelstrom::init(init).unwrap();
    assert_eq!(meta.other_nodes_ids, vec![s("n3"), s("n1")]);
    assert_eq!(reply.body.in_reply_to, None);
}

#[test]
fn handshake_refuses_init_ok() {
    let r = Maelstrom::init(msg("c0", "n1", Some(1), InitPayload::InitOk));
    assert_eq!(r.err(), Some(InitError::NotInit));
}

#[test]
fn broadcast_is_acked_and_read_back() {
    let mut n = node("n1");
    let out = continued(n.handle(Event::MessageReceived(msg(
        "c1",
        "n1",
        Some(1),
        BroadcastPayload::Broadcast { message: 5 },
    ))));
    assert_eq!(out.len(), 1);
    assert!(matches!(out[0].body.payload, BroadcastPayload::BroadcastOk));
    assert_eq!(out[0].body.in_reply_to, Some(1));
    assert_eq!(out[0].body.msg_id, Some(1));
    assert_eq!(out[0].src, "n1");
    assert_eq!(out[0].dst, "c1");
    let out = continued(n.handle(Event::MessageReceived(msg("c1", "n1", Some(2), BroadcastPayload::Read))));
    assert_eq!(out.len(), 1);
    assert_eq!(out[0].body.in_reply_to, Some(2));
    assert_eq!(out[0].body.msg_id, Some(2));
    match &out[0].body.payload {
        BroadcastPayload::ReadOk { messages } => assert_eq!(messages, &vec![5]),
        _ => panic!("expected read_ok"),
    }
}

#[test]
fn broadcast_twice_keeps_one_copy() {
    let mut n = node("n1");
    for id in 1..3 {
        continued(n.handle(Event::MessageReceived(msg(
            "c1",
            "n1",
            Some(id),
            BroadcastPayload::Broadcast { message: 9 },
        ))));
    }
    assert_eq!(n.read_values(), vec![9]);
}

#[test]
fn topology_is_acked_and_gossip_goes_to_neighbours() {
    let mut n = node("n1");
    let out = continued(n.handle(Event::MessageReceived(msg(
        "c1",
        "n1",
        Some(3),
        BroadcastPayload::Topology { topology: topology(&[("n1", &["n2"]), ("n2", &["n1"])]) },
    ))));
    assert_eq!(out.len(), 1);
    assert!(matches!(out[0].body.payload, BroadcastPayload::TopologyOk));
    assert_eq!(out[0].body.in_reply_to, Some(3));
    continued(n.handle(Event::MessageReceived(msg(
        "c1",
        "n1",
        Some(4),
        BroadcastPayload::Broadcast { message: 5 },
    ))));
    let out = continued(n.handle(Event::GossipTick));
    assert_eq!(out.len(), 1);
    assert_eq!(out[0].src, "n1");
    assert_eq!(out[0].dst, "n2");
    assert_eq!(out[0].body.msg_id, None);
    assert_eq!(out[0].body.in_reply_to, None);
    match &out[0].body.payload {
        BroadcastPayload::Gossip { known } => assert_eq!(known, &vec![5]),
        _ => panic!("expected gossip"),
    }
}

#[test]
fn gossip_without_own_entry_sends_nothing() {
    let mut n = node("n1");
    continued(n.handle(Event::MessageReceived(msg(
        "c1",
        "n1",
        Some(1),
        BroadcastPayload::Topology { topology: topology(&[("n2", &["n1"])]) },
    ))));
    continued(n.handle(Event::MessageReceived(msg(
        "c1",
        "n1",
        Some(2),
        BroadcastPayload::Broadcast { message: 5 },
    ))));
    assert!(continued(n.handle(Event::GossipTick)).is_empty());
}

#[test]
fn gossip_before_topology_sends_nothing() {
    let mut n = node("n1");
    continued(n.handle(Event::MessageReceived(msg(
        "c1",
        "n1",
        Some(1),
        BroadcastPayload::Broadcast { message: 5 },
    ))));
    assert!(continued(n.handle(Event::GossipTick)).is_empty());
}

#[test]
fn gossip_follows_topology_order_and_last_listing() {
    let mut n = node("n1");
    continued(n.handle(Event::MessageReceived(msg(
        "c1",
        "n1",
        Some(1),
        BroadcastPayload::Topology { topology: topology(&[("n1", &["n9"]), ("n1", &["n3", "n2"])]) },
    ))));
    let out = continued(n.handle(Event::GossipTick));
    let dsts: Vec<&str> = out.iter().map(|m| m.dst.as_str()).collect();
    assert_eq!(dsts, vec!["n3", "n2"]);
}

#[test]
fn received_gossip_is_merged_without_reply() {
    let mut n = node("n2");
    continued(n.handle(Event::MessageReceived(msg(
        "c1",
        "n2",
        Some(1),
        BroadcastPayload::Broadcast { message: 1 },
    ))));
    let before = n.metadata.peek_next_msg_id();
    let out = continued(n.handle(Event::MessageReceived(msg(
        "n1",
        "n2",
        None,
        BroadcastPayload::Gossip { known: vec![1, 2, 3] },
    ))));
    assert!(out.is_empty());
    assert_eq!(sorted(n.read_values()), vec![1, 2, 3]);
    assert_eq!(n.metadata.peek_next_msg_id(), before);
}

#[test]
fn reads_never_shrink() {
    let mut n = node("n1");
    let mut last: Vec<usize> = vec![];
    let events = vec![
        Event::MessageReceived(msg("c1", "n1", Some(1), BroadcastPayload::Broadcast { message: 4 })),
        Event::MessageReceived(msg("n2", "n1", None, BroadcastPayload::Gossip { known: vec![] })),
        Event::GossipTick,
        Event::MessageReceived(msg("n2", "n1", None, BroadcastPayload::Gossip { known: vec![4, 8] })),
        Event::MessageReceived(msg("c1", "n1", Some(2), BroadcastPayload::Broadcast { message: 4 })),
    ];
    for e in events {
        continued(n.handle(e));
        let now = n.read_values();
        assert!(last.iter().all(|v| now.contains(v)));
        last = now;
    }
    assert_eq!(sorted(last), vec![4, 8]);
}

#[test]
fn acknowledgments_are_refused() {
    let mut n = node("n1");
    for p in vec![
        BroadcastPayload::TopologyOk,
        BroadcastPayload::BroadcastOk,
        BroadcastPayload::ReadOk { messages: vec![1] },
    ] {
        let r = n.handle(Event::MessageReceived(msg("n2", "n1", Some(1), p)));
        assert_eq!(r.err(), Some(Violation::UnexpectedPayload));
    }
    assert!(n.read_values().is_empty());
    assert_eq!(n.metadata.peek_next_msg_id(), 1);
}

#[test]
fn exhausted_ids_refuse_requests() {
    let mut n = BroadcastNode::new(NodeMetadata::new(s("n1"), vec![], usize::MAX));
    let r = n.handle(Event::MessageReceived(msg("c1", "n1", Some(1), BroadcastPayload::Broadcast { message: 3 })));
    assert_eq!(r.err(), Some(Violation::IdsExhausted));
    assert!(n.read_values().is_empty());
    let out = continued(n.handle(Event::MessageReceived(msg(
        "n2",
        "n1",
        None,
        BroadcastPayload::Gossip { known: vec![3] },
    ))));
    assert!(out.is_empty());
    assert_eq!(n.read_values(), vec![3]);
}

#[test]
fn eof_stops() {
    let mut n = node("n1");
    assert!(matches!(n.handle(Event::Eof), Ok(Step::Stop)));
}

#[test]
fn merge_is_associative_commutative_idempotent() {
    let a = vec![1usize, 2];
    let b = vec![2usize, 3];
    let c = vec![5usize];
    let merged = |parts: &[&Vec<usize>]| {
        let mut k = KnownValues::new();
        for p in parts {
            k.merge_from(p);
        }
        sorted(k.snapshot())
    };
    assert_eq!(merged(&[&a, &b, &c]), merged(&[&c, &b, &a]));
    assert_eq!(merged(&[&a, &b]), merged(&[&b, &a]));
    assert_eq!(merged(&[&a, &a]), sorted(a.clone()));
    assert_eq!(merged(&[&a, &b, &c]), vec![1, 2, 3, 5]);
    let mut k = KnownValues::new();
    assert!(!k.contains(4));
    k.insert(4);
    k.insert(4);
    assert!(k.contains(4));
    assert_eq!(k.snapshot(), vec![4]);
}

#[test]
fn line_of_three_nodes_converges() {
    let ids = ["n1", "n2", "n3"];
    let topo = &[("n1", &["n2"][..]), ("n2", &["n1", "n3"][..]), ("n3", &["n2"][..])];
    let mut nodes: Vec<BroadcastNode> = ids.iter().map(|id| node(id)).collect();
    for (k, n) in nodes.iter_mut().enumerate() {
        continued(n.handle(Event::MessageReceived(msg("c", ids[k], Some(1), BroadcastPayload::Topology {
            topology: topology(topo),
        }))));
        continued(n.handle(Event::MessageReceived(msg("c", ids[k], Some(2), BroadcastPayload::Broadcast {
            message: 10 * (k + 1),
        }))));
    }
    for _ in 0..2 {
        let mut sent = vec![];
        for n in nodes.iter_mut() {
            sent.extend(continued(n.handle(Event::GossipTick)));
        }
        // deliver in reverse order, each twice
        for m in sent.into_iter().rev() {
            let to = ids.iter().position(|id| *id == m.dst).unwrap();
            let known = match &m.body.payload {
                BroadcastPayload::Gossip { known } => known.clone(),
                _ => panic!("expected gossip"),
            };
            for _ in 0..2 {
                let copy = msg(&m.src, &m.dst, None, BroadcastPayload::Gossip { known: known.clone() });
                continued(nodes[to].handle(Event::MessageReceived(copy)));
            }
        }
    }
    for n in &nodes {
        assert_eq!(sorted(n.read_values()), vec![10, 20, 30]);
    }
}

#[test]
fn echo_sends_text_back() {
    let mut meta = NodeMetadata::new(s("n1"), vec![], 1);
    let r = echo_reply(&mut meta, msg("c1", "n1", Some(4), EchoPayload::Echo { echo: s("hi") })).unwrap();
    assert_eq!(r.src, "n1");
    assert_eq!(r.dst, "c1");
    assert_eq!(r.body.msg_id, Some(1));
    assert_eq!(r.body.in_reply_to, Some(4));
    match r.body.payload {
        EchoPayload::EchoOk { echo } => assert_eq!(echo, "hi"),
        _ => panic!("expected echo_ok"),
    }
    let e = echo_reply(&mut meta, msg("c1", "n1", Some(5), EchoPayload::EchoOk { echo: s("x") }));
    assert_eq!(e.err(), Some(Violation::UnexpectedPayload));
    assert_eq!(meta.peek_next_msg_id(), 2);
}

#[test]
fn generate_uses_given_id() {
    let mut meta = NodeMetadata::new(s("n1"), vec![], 7);
    let r = generate_reply(&mut meta, msg("c1", "n1", Some(2), UniqueIdPayload::Generate), s("abc")).unwrap();
    assert_eq!(r.body.msg_id, Some(7));
    assert_eq!(r.body.in_reply_to, Some(2));
    match r.body.payload {
        UniqueIdPayload::GenerateOk { id } => assert_eq!(id, "abc"),
        _ => panic!("expected generate_ok"),
    }
    let e = generate_reply(&mut meta, msg("c1", "n1", Some(3), UniqueIdPayload::GenerateOk { id: s("x") }), s("y"));
    assert_eq!(e.err(), Some(Violation::UnexpectedPayload));
}

#[test]
fn generated_ids_are_uuids_and_differ() {
    let mut meta = NodeMetadata::new(s("n1"), vec![], 1);
    let mut ids = vec![];
    for k in 0..2 {
        let r = unique_id_reply(&mut meta, msg("c1", "n1", Some(k), UniqueIdPayload::Generate)).unwrap();
        match r.body.payload {
            UniqueIdPayload::GenerateOk { id } => ids.push(id),
            _ => panic!("expected generate_ok"),
        }
    }
    assert_eq!(ids[0].len(), 36);
    assert_eq!(ids[0].matches('-').count(), 4);
    assert_ne!(ids[0], ids[1]);
    let mut spent = NodeMetadata::new(s("n1"), vec![], usize::MAX);
    let e = unique_id_reply(&mut spent, msg("c1", "n1", Some(1), UniqueIdPayload::Generate));
    assert_eq!(e.err(), Some(Violation::IdsExhausted));
}
