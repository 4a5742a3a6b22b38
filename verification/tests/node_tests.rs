use rustengan::node::{BroadcastNode, BroadcastPayload, Fatal};
use rustengan::protocol::{Body, Event, Message};

fn new_node(own: &str, members: &[&str]) -> BroadcastNode {
    BroadcastNode::from_init(
        own.to_string(),
        members.iter().map(|s| s.to_string()).collect::<Vec<String>>(),
    )
}

fn inbound(
    src: &str,
    dst: &str,
    id: Option<u64>,
    payload: BroadcastPayload,
) -> Event<BroadcastPayload> {
    Event::Message(Message {
        src: src.to_string(),
        dst: dst.to_string(),
        body: Body { id, in_reply_to: None, payload },
    })
}

fn sorted_read(node: &BroadcastNode) -> Vec<u64> {
    let mut values = node.read_values();
    values.sort();
    values
}

#[test]
fn init_starts_empty() {
    let node = new_node("n1", &["n1", "n2"]);
    assert_eq!(node.msg_id, 1);
    assert!(node.read_values().is_empty());
    assert!(node.neighborhood.is_empty());
    assert_eq!(node.known.len(), 2);
}

#[test]
fn broadcast_then_read_snapshot() {
    let mut node = new_node("n1", &["n1", "n2"]);
    let (out, fatal) = node.step(inbound(
        "c1",
        "n1",
        Some(1),
        BroadcastPayload::Broadcast { message: 5 },
    ));
    assert!(fatal.is_none());
    assert_eq!(out.len(), 1);
    assert!(matches!(out[0].body.payload, BroadcastPayload::BroadcastOk));
    assert_eq!(out[0].src, "n1");
    assert_eq!(out[0].dst, "c1");
    assert_eq!(out[0].body.in_reply_to, Some(1));

    let (_, fatal) = node.step(inbound(
        "c1",
        "n1",
        Some(2),
        BroadcastPayload::Broadcast { message: 7 },
    ));
    assert!(fatal.is_none());

    let (out, fatal) = node.step(inbound("c1", "n1", Some(3), BroadcastPayload::Read));
    assert!(fatal.is_none());
    assert_eq!(out.len(), 1);
    let first = match &out[0].body.payload {
        BroadcastPayload::ReadOk { messages } => {
            let mut m = messages.clone();
            m.sort();
            m
        }
        _ => panic!("expected a read acknowledgement"),
    };
    assert_eq!(first, vec![5, 7]);

    let (out, fatal) = node.step(inbound("c1", "n1", Some(4), BroadcastPayload::Read));
    assert!(fatal.is_none());
    let second = match &out[0].body.payload {
        BroadcastPayload::ReadOk { messages } => {
            let mut m = messages.clone();
            m.sort();
            m
        }
        _ => panic!("expected a read acknowledgement"),
    };
    assert_eq!(second, first);
}

#[test]
fn duplicate_broadcast_is_idempotent_and_acknowledged() {
    let mut node = new_node("n1", &["n1"]);
    let (out, _) = node.step(inbound(
        "c1",
        "n1",
        Some(1),
        BroadcastPayload::Broadcast { message: 5 },
    ));
    assert!(matches!(out[0].body.payload, BroadcastPayload::BroadcastOk));
    let after_first = sorted_read(&node);
    let (out, fatal) = node.step(inbound(
        "c1",
        "n1",
        Some(2),
        BroadcastPayload::Broadcast { message: 5 },
    ));
    assert!(fatal.is_none());
    assert_eq!(out.len(), 1);
    assert!(matches!(out[0].body.payload, BroadcastPayload::BroadcastOk));
    assert_eq!(sorted_read(&node), after_first);
    assert_eq!(after_first, vec![5]);
}

#[test]
fn gossip_only_grows_known_values() {
    let mut node = new_node("n1", &["n1", "n2"]);
    node.step(inbound(
        "c1",
        "n1",
        Some(1),
        BroadcastPayload::Broadcast { message: 1 },
    ));
    let (out, fatal) = node.step(inbound(
        "n2",
        "n1",
        None,
        BroadcastPayload::Gossip { seen: vec![2, 3] },
    ));
    assert!(fatal.is_none());
    assert!(out.is_empty());
    assert_eq!(sorted_read(&node), vec![1, 2, 3]);

    let (_, fatal) = node.step(inbound(
        "n2",
        "n1",
        None,
        BroadcastPayload::Gossip { seen: vec![2] },
    ));
    assert!(fatal.is_none());
    assert_eq!(sorted_read(&node), vec![1, 2, 3]);
}

#[test]
fn gossip_from_unknown_sender_is_fatal() {
    let mut node = new_node("n1", &["n1", "n2"]);
    let (out, fatal) = node.step(inbound(
        "n9",
        "n1",
        None,
        BroadcastPayload::Gossip { seen: vec![4] },
    ));
    assert!(out.is_empty());
    match fatal {
        Some(Fatal::UnknownGossipSender { src }) => assert_eq!(src, "n9"),
        _ => panic!("expected a fatal unknown-sender error"),
    }
    assert!(node.read_values().is_empty());
}

#[test]
fn topology_assignment_replaces_neighborhood() {
    let mut node = new_node("n1", &["n1", "n2", "n3"]);
    let first = vec![
        ("n1".to_string(), vec!["n2".to_string()]),
        ("n2".to_string(), vec!["n1".to_string()]),
    ];
    let (out, fatal) = node.step(inbound(
        "c1",
        "n1",
        Some(1),
        BroadcastPayload::Topology { topology: first },
    ));
    assert!(fatal.is_none());
    assert!(matches!(out[0].body.payload, BroadcastPayload::TopologyOk));
    let (out, fatal) = node.step(Event::Injected(rustengan::protocol::InjectedPayload::Gossip));
    assert!(fatal.is_none());
    let dsts: Vec<String> = out.iter().map(|m| m.dst.clone()).collect();
    assert_eq!(dsts, vec!["n2".to_string()]);

    let second = vec![("n1".to_string(), vec!["n3".to_string()])];
    let (_, fatal) = node.step(inbound(
        "c1",
        "n1",
        Some(2),
        BroadcastPayload::Topology { topology: second },
    ));
    assert!(fatal.is_none());
    assert_eq!(node.neighborhood, vec!["n3".to_string()]);
    let (out, fatal) = node.step(Event::Injected(rustengan::protocol::InjectedPayload::Gossip));
    assert!(fatal.is_none());
    let dsts: Vec<String> = out.iter().map(|m| m.dst.clone()).collect();
    assert_eq!(dsts, vec!["n3".to_string()]);
}

#[test]
fn topology_without_own_entry_is_fatal() {
    let mut node = new_node("n1", &["n1", "n2"]);
    let bad = vec![("n2".to_string(), vec!["n1".to_string()])];
    let (out, fatal) = node.step(inbound(
        "c1",
        "n1",
        Some(1),
        BroadcastPayload::Topology { topology: bad },
    ));
    assert!(out.is_empty());
    match fatal {
        Some(Fatal::MissingTopologyEntry { node: id }) => assert_eq!(id, "n1"),
        _ => panic!("expected a fatal missing-entry error"),
    }
    assert!(node.neighborhood.is_empty());
}

#[test]
fn tick_with_unknown_neighbor_is_fatal() {
    let mut node = new_node("n1", &["n1", "n2"]);
    let topo = vec![("n1".to_string(), vec!["n7".to_string()])];
    let (_, fatal) = node.step(inbound(
        "c1",
        "n1",
        Some(1),
        BroadcastPayload::Topology { topology: topo },
    ));
    assert!(fatal.is_none());
    let (out, fatal) = node.step(Event::Injected(rustengan::protocol::InjectedPayload::Gossip));
    assert!(out.is_empty());
    match fatal {
        Some(Fatal::UnknownNeighbor { neighbor }) => assert_eq!(neighbor, "n7"),
        _ => panic!("expected a fatal unknown-neighbor error"),
    }
}

#[test]
fn gossip_volume_is_bounded() {
    let mut node = new_node("n1", &["n1", "n2"]);
    let thousand: Vec<u64> = (0..1000).collect();
    let (_, fatal) = node.step(inbound(
        "n2",
        "n1",
        None,
        BroadcastPayload::Gossip { seen: thousand },
    ));
    assert!(fatal.is_none());
    let topo = vec![("n1".to_string(), vec!["n2".to_string()])];
    node.step(inbound(
        "c1",
        "n1",
        Some(1),
        BroadcastPayload::Topology { topology: topo },
    ));
    let (out, fatal) = node.step(Event::Injected(rustengan::protocol::InjectedPayload::Gossip));
    assert!(fatal.is_none());
    assert_eq!(out.len(), 1);
    match &out[0].body.payload {
        BroadcastPayload::Gossip { seen } => {
            assert!(seen.len() <= 10);
            assert!(seen.iter().all(|v| *v < 1000));
        }
        _ => panic!("expected a gossip payload"),
    }

    for v in 2000..2005u64 {
        node.step(inbound(
            "c1",
            "n1",
            Some(v),
            BroadcastPayload::Broadcast { message: v },
        ));
    }
    let (out, fatal) = node.step(Event::Injected(rustengan::protocol::InjectedPayload::Gossip));
    assert!(fatal.is_none());
    match &out[0].body.payload {
        BroadcastPayload::Gossip { seen } => {
            assert!(seen.len() <= 5 + 10);
            for v in 2000..2005u64 {
                assert!(seen.contains(&v));
            }
        }
        _ => panic!("expected a gossip payload"),
    }
}

#[test]
fn small_pool_is_reconfirmed_whole() {
    let mut node = new_node("n1", &["n1", "n2"]);
    let (_, fatal) = node.step(inbound(
        "n2",
        "n1",
        None,
        BroadcastPayload::Gossip { seen: vec![1, 2, 3] },
    ));
    assert!(fatal.is_none());
    let topo = vec![("n1".to_string(), vec!["n2".to_string()])];
    node.step(inbound(
        "c1",
        "n1",
        Some(1),
        BroadcastPayload::Topology { topology: topo },
    ));
    let (out, _) = node.step(Event::Injected(rustengan::protocol::InjectedPayload::Gossip));
    match &out[0].body.payload {
        BroadcastPayload::Gossip { seen } => {
            let mut s = seen.clone();
            s.sort();
            assert_eq!(s, vec![1, 2, 3]);
        }
        _ => panic!("expected a gossip payload"),
    }
}

#[test]
fn counter_advances_once_per_message_and_per_gossip() {
    let mut node = new_node("n1", &["n1", "n2"]);
    assert_eq!(node.msg_id, 1);
    node.step(inbound(
        "c1",
        "n1",
        Some(1),
        BroadcastPayload::Broadcast { message: 5 },
    ));
    assert_eq!(node.msg_id, 2);
    let topo = vec![("n1".to_string(), vec!["n2".to_string()])];
    node.step(inbound(
        "c1",
        "n1",
        Some(2),
        BroadcastPayload::Topology { topology: topo },
    ));
    assert_eq!(node.msg_id, 3);
    node.step(Event::Injected(rustengan::protocol::InjectedPayload::Gossip));
    assert_eq!(node.msg_id, 4);
    let (_, fatal) = node.step(Event::Eof);
    assert!(fatal.is_none());
    assert_eq!(node.msg_id, 4);
}
