use minecraft_server_manager::log_ring::LogRing;

#[test]
fn ring_keeps_arrival_order_below_capacity() {
    let mut ring = LogRing::new();
    ring.push_log(b"first".to_vec());
    ring.push_log(b"second".to_vec());
    ring.push_log(b"third".to_vec());
    assert_eq!(ring.len(), 3);
    assert_eq!(ring.entries[0], b"first".to_vec());
    assert_eq!(ring.entries[1], b"second".to_vec());
    assert_eq!(ring.entries[2], b"third".to_vec());
}

#[test]
fn ring_evicts_oldest_at_capacity() {
    let mut ring = LogRing::new();
    for i in 0..1000 {
        ring.push_log(format!("line {}", i).into_bytes());
    }
    assert_eq!(ring.len(), 1000);
    assert_eq!(ring.entries[0], b"line 0".to_vec());
    // The 1001st append evicts the oldest line and keeps the most
    // recent 1000 in arrival order.
    ring.push_log(b"line 1000".to_vec());
    assert_eq!(ring.len(), 1000);
    assert_eq!(ring.entries[0], b"line 1".to_vec());
    assert_eq!(ring.entries[999], b"line 1000".to_vec());
    for (k, entry) in ring.entries.iter().enumerate() {
        assert_eq!(*entry, format!("line {}", k + 1).into_bytes());
    }
}
