use gossip_chat::identity::{NodeAddress, NodeIdentity};
use gossip_chat::ticket::{decode, encode, Ticket};
use gossip_chat::topic::TopicId;
use std::str::FromStr;

const KEY_ONE: &str = "ae58ff8833241ac82d6ff7611046ed67b5072d142c588d0063e942d9a75502b6";

fn key(text: &str) -> iroh_base::PublicKey {
    iroh_base::PublicKey::from_str(text).unwrap()
}

fn ticket_payload(topic: &iroh_gossip::proto::TopicId, nodes: &[iroh_base::NodeAddr]) -> Vec<u8> {
    let mut fields = serde_json::Map::new();
    fields.insert("topic".to_string(), serde_json::to_value(topic).unwrap());
    fields.insert("nodes".to_string(), serde_json::to_value(nodes).unwrap());
    serde_json::to_vec(&serde_json::Value::Object(fields)).unwrap()
}

#[test]
fn short_form_is_that_of_the_transport() {
    let node = key(KEY_ONE);
    let id = NodeIdentity::from_bytes(*node.as_bytes());
    assert_eq!(id.fmt_short(), node.fmt_short());
    assert_eq!(id.fmt_short(), "ae58ff8833");
    assert_eq!(id.to_hex(), node.to_string());
    let zero = iroh_base::PublicKey::from_bytes(&[0; 32]).unwrap();
    assert_eq!(NodeIdentity::from_bytes([0; 32]).fmt_short(), zero.fmt_short());
}

#[test]
fn topic_text_is_that_of_the_transport() {
    let mut bytes = [0u8; 32];
    for (at, byte) in bytes.iter_mut().enumerate() {
        *byte = 255 - at as u8;
    }
    let theirs = iroh_gossip::proto::TopicId::from_bytes(bytes);
    assert_eq!(TopicId::from_bytes(bytes).to_hex(), theirs.to_string());
}

#[test]
fn a_ticket_round_trips_through_its_text() {
    let topic = iroh_gossip::proto::TopicId::from_bytes([0x42; 32]);
    let relay = iroh_base::RelayUrl::from_str("https://relay.example.org").unwrap();
    let nodes = vec![
        iroh_base::NodeAddr::new(key(KEY_ONE)).with_relay_url(relay),
        iroh_base::NodeAddr::new(iroh_base::PublicKey::from_bytes(&[0; 32]).unwrap()),
    ];
    let payload = ticket_payload(&topic, &nodes);
    let text = encode(&payload);
    assert!(text.chars().all(|c| c.is_ascii_lowercase() || c.is_ascii_digit()));
    for shown in [text.clone(), text.to_uppercase()] {
        let bytes = decode(&shown).unwrap();
        assert_eq!(bytes, payload);
        let value: serde_json::Value = serde_json::from_slice(&bytes).unwrap();
        let topic_back: iroh_gossip::proto::TopicId =
            serde_json::from_value(value["topic"].clone()).unwrap();
        let nodes_back: Vec<iroh_base::NodeAddr> =
            serde_json::from_value(value["nodes"].clone()).unwrap();
        assert_eq!(topic_back, topic);
        assert_eq!(nodes_back, nodes);
        let ticket = Ticket {
            topic: TopicId::from_bytes(*topic_back.as_bytes()),
            nodes: nodes_back
                .iter()
                .map(|node| NodeAddress {
                    identity: NodeIdentity::from_bytes(*node.node_id.as_bytes()),
                    relay_url: node.relay_url.as_ref().map(|url| url.to_string()),
                    direct_addresses: node.direct_addresses.iter().map(|a| a.to_string()).collect(),
                })
                .collect(),
        };
        assert_eq!(ticket.topic.to_hex(), "42".repeat(32));
        assert_eq!(
            ticket.node_ids(),
            vec![
                NodeIdentity::from_bytes(*key(KEY_ONE).as_bytes()),
                NodeIdentity::from_bytes([0; 32]),
            ]
        );
    }
}

#[test]
fn text_is_that_of_the_encoding_crate() {
    let payload: Vec<u8> = (0..=255u8).collect();
    let theirs = data_encoding::BASE32_NOPAD.encode(&payload).to_ascii_lowercase();
    assert_eq!(encode(&payload), theirs);
    assert_eq!(decode(&theirs), Ok(payload));
}
