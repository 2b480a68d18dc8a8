use gossip_chat::identity::NodeIdentity;
use gossip_chat::render::{
    bell, chat_line, chat_line_now, farewell_line, history_line, join_line, unknown_command_line,
};
use gossip_chat::topic::TopicId;

#[test]
fn chat_line_colours_the_time_and_the_name() {
    assert_eq!(
        chat_line("12:34:56", "alice", "hello there"),
        "\x1b[1;32m[12:34:56]\x1b[0m \x1b[1;34malice:\x1b[0m hello there"
    );
    assert_eq!(chat_line("", "", ""), "\x1b[1;32m[]\x1b[0m \x1b[1;34m:\x1b[0m ");
}

#[test]
fn chat_line_now_carries_a_time_of_day() {
    let line = chat_line_now("bob", "hi");
    let prefix = "\x1b[1;32m[";
    let suffix = "]\x1b[0m \x1b[1;34mbob:\x1b[0m hi";
    assert!(line.starts_with(prefix));
    assert!(line.ends_with(suffix));
    let time = &line[prefix.len()..line.len() - suffix.len()];
    let chars: Vec<char> = time.chars().collect();
    assert_eq!(chars.len(), 8);
    for (at, c) in chars.iter().enumerate() {
        if at == 2 || at == 5 {
            assert_eq!(*c, ':');
        } else {
            assert!(c.is_ascii_digit());
        }
    }
}

#[test]
fn join_line_names_the_peer() {
    assert_eq!(join_line("ae58ff8833", "bob"), "-> ae58ff8833 joined chat as bob");
}

#[test]
fn unknown_command_line_repeats_the_command() {
    assert_eq!(unknown_command_line("/dance"), "unknown command: /dance");
}

#[test]
fn history_line_lists_the_names_as_debug_does() {
    assert_eq!(history_line(&Vec::new()), "user history: []");
    assert_eq!(history_line(&vec!["bob".to_string()]), "user history: [\"bob\"]");
    assert_eq!(
        history_line(&vec!["a\"b".to_string(), "c\n".to_string()]),
        "user history: [\"a\\\"b\", \"c\\n\"]"
    );
}

#[test]
fn farewell_and_bell() {
    assert_eq!(farewell_line(), "leaving chat...");
    assert_eq!(bell(), "\x07");
}

#[test]
fn identity_forms_are_hexadecimal() {
    let mut bytes = [0u8; 32];
    for (at, byte) in bytes.iter_mut().enumerate() {
        *byte = (at as u8) * 8 + 1;
    }
    let id = NodeIdentity::from_bytes(bytes);
    assert_eq!(id.fmt_short(), "0109111921");
    assert_eq!(
        id.to_hex(),
        "0109111921293139414951596169717981899199a1a9b1b9c1c9d1d9e1e9f1f9"
    );
    assert_eq!(NodeIdentity::from_bytes([0xab; 32]).fmt_short(), "ababababab");
}

#[test]
fn topic_form_is_hexadecimal() {
    let topic = TopicId::from_bytes([0x5c; 32]);
    assert_eq!(topic.to_hex(), "5c".repeat(32));
    assert_eq!(topic.as_bytes(), &[0x5c; 32]);
    assert!(topic.same(&TopicId::from_bytes([0x5c; 32])));
    assert!(!topic.same(&TopicId::from_bytes([0x5d; 32])));
}

#[test]
fn random_topics_differ() {
    let first = TopicId::random();
    let second = TopicId::random();
    assert!(!first.same(&second));
}
