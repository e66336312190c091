use veddb_client::PoolLedger;

#[test]
fn new_pool_lends_exactly_its_size_then_waits() {
    let n = 4;
    let mut pool = PoolLedger::new(n);
    let mut lent = Vec::new();
    for _ in 0..n {
        lent.push(pool.acquire().expect("an idle slot"));
    }
    lent.sort();
    assert_eq!(lent, vec![0, 1, 2, 3]);
    assert_eq!(pool.acquire(), None);
    assert_eq!(pool.idle(), 0);
    assert!(pool.release(2));
    assert_eq!(pool.acquire(), Some(2));
}

#[test]
fn release_counts_exactly_once() {
    let mut pool = PoolLedger::new(2);
    let a = pool.acquire().unwrap();
    assert!(pool.release(a));
    assert!(!pool.release(a));
    assert!(!pool.release(17));
    assert_eq!(pool.idle(), 2);
    assert_eq!(pool.checked_out(), 0);
}

#[test]
fn idle_plus_lent_is_size_over_interleaved_cycles() {
    let size = 8;
    let mut pool = PoolLedger::new(size);
    let mut held: Vec<Vec<usize>> = vec![Vec::new(); 8];
    let mut state: u64 = 0x2545F4914F6CDD1D;
    for step in 0..1000 {
        state ^= state << 13;
        state ^= state >> 7;
        state ^= state << 17;
        let task = (state % 8) as usize;
        if step % 3 != 2 {
            if let Some(slot) = pool.acquire() {
                assert!(pool.is_lent(slot));
                held[task].push(slot);
            } else {
                assert_eq!(pool.idle(), 0);
            }
        } else if let Some(slot) = held[task].pop() {
            assert!(pool.release(slot));
            assert!(!pool.is_lent(slot));
        }
        let out: usize = held.iter().map(|h| h.len()).sum();
        assert_eq!(pool.checked_out(), out);
        assert_eq!(pool.idle() + pool.checked_out(), pool.size());
    }
}

#[test]
fn empty_pool_never_lends() {
    let mut pool = PoolLedger::new(0);
    assert_eq!(pool.acquire(), None);
    assert_eq!(pool.size(), 0);
}
