use session_engine::outbox::{Outbox, OUTBOX_CAPACITY};

#[test]
fn a_new_outbox_is_empty() {
    let mut outbox = Outbox::new();
    assert_eq!(outbox.len(), 0);
    assert_eq!(outbox.drain(), Vec::<String>::new());
}

#[test]
fn frames_come_out_in_the_order_they_went_in() {
    let mut outbox = Outbox::new();
    outbox.push("a".to_string());
    outbox.push("b".to_string());
    outbox.push("c".to_string());
    assert_eq!(outbox.len(), 3);
    assert_eq!(outbox.drain(), vec!["a".to_string(), "b".to_string(), "c".to_string()]);
    assert_eq!(outbox.len(), 0);
    outbox.push("d".to_string());
    assert_eq!(outbox.drain(), vec!["d".to_string()]);
}

#[test]
fn the_capacity_is_256_frames() {
    assert_eq!(OUTBOX_CAPACITY, 256);
    let mut outbox = Outbox::new();
    for n in 0..256 {
        outbox.push(n.to_string());
    }
    assert_eq!(outbox.len(), 256);
    outbox.push("256".to_string());
    assert_eq!(outbox.len(), 256);
    let frames = outbox.drain();
    assert_eq!(frames[0], "1");
    assert_eq!(frames[255], "256");
}

#[test]
fn a_full_outbox_drops_one_frame_for_each_new_one() {
    let mut outbox = Outbox::new();
    for n in 0..1000 {
        outbox.push(n.to_string());
        assert!(outbox.len() <= 256);
    }
    let expected: Vec<String> = (744..1000).map(|n| n.to_string()).collect();
    assert_eq!(outbox.drain(), expected);
}
