use status_monitor::message::TxMessage;

fn is_uuid_v4_text(s: &str) -> bool {
    let chars: Vec<char> = s.chars().collect();
    if chars.len() != 36 {
        return false;
    }
    for (i, c) in chars.iter().enumerate() {
        if i == 8 || i == 13 || i == 18 || i == 23 {
            if *c != '-' {
                return false;
            }
        } else if !(c.is_ascii_digit() || ('a'..='f').contains(c)) {
            return false;
        }
    }
    chars[14] == '4' && "89ab".contains(chars[19])
}

#[test]
fn new_message_gets_a_random_uuid_id() {
    let m = TxMessage::new(5u8);
    assert_eq!(m.msg, 5);
    assert!(is_uuid_v4_text(&m.id), "{}", m.id);
}

#[test]
fn new_messages_get_distinct_ids() {
    let a = TxMessage::new(());
    let b = TxMessage::new(());
    assert_ne!(a.id, b.id);
}

#[test]
fn map_keeps_the_id() {
    let m = TxMessage { msg: 1u32, id: "abc".to_string() };
    let n = m.map("payload");
    assert_eq!(n.id, "abc");
    assert_eq!(n.msg, "payload");
}

#[test]
fn clone_keeps_id_and_payload() {
    let m = TxMessage { msg: vec![1u8, 2, 3], id: "xyz".to_string() };
    let c = m.clone();
    assert_eq!(c, m);
}
