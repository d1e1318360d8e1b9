use himawari::gate::HashGate;

#[test]
fn gate_hands_out_at_most_its_capacity() {
    let mut gate = HashGate::new(8);
    for _ in 0..8 {
        assert!(gate.try_acquire());
    }
    assert!(!gate.try_acquire());
    assert_eq!(gate.in_use(), 8);
}

#[test]
fn release_frees_a_permit() {
    let mut gate = HashGate::new(2);
    assert!(gate.try_acquire());
    assert!(gate.try_acquire());
    assert!(!gate.try_acquire());
    gate.release();
    assert!(gate.try_acquire());
}

#[test]
fn queue_of_requests_beyond_capacity_all_complete_within_bound() {
    // twenty jobs against a capacity of eight: every job completes, and the
    // ledger never shows more than eight permits out at once
    let capacity = 8u64;
    let mut gate = HashGate::new(capacity);
    let mut pending: Vec<u32> = (0..20).collect();
    let mut running: Vec<u32> = Vec::new();
    let mut done: Vec<u32> = Vec::new();
    let mut max_seen = 0u64;
    while done.len() < 20 {
        while let Some(&job) = pending.last() {
            if gate.try_acquire() {
                pending.pop();
                running.push(job);
            } else {
                break;
            }
        }
        assert!(gate.in_use() <= capacity);
        max_seen = max_seen.max(gate.in_use());
        if let Some(job) = running.pop() {
            gate.release();
            done.push(job);
        }
    }
    assert_eq!(done.len(), 20);
    assert_eq!(max_seen, capacity);
    assert_eq!(gate.in_use(), 0);
}

#[test]
fn cancelled_waiter_leaves_no_permit_behind() {
    let mut gate = HashGate::new(1);
    assert!(gate.try_acquire());
    // a second request queues: its acquisition fails, so its cancellation
    // has nothing to give back
    assert!(!gate.try_acquire());
    assert_eq!(gate.in_use(), 1);
    gate.release();
    assert_eq!(gate.in_use(), 0);
}
