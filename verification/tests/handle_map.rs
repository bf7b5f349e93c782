use klystron::handle::{Handle, HandleMap};

#[test]
fn insert_then_get_returns_value() {
    let mut m: HandleMap<u32> = HandleMap::new();
    let a = m.insert(10);
    let b = m.insert(20);
    assert_eq!(m.get(a), Some(&10));
    assert_eq!(m.get(b), Some(&20));
}

#[test]
fn remove_then_get_is_not_found() {
    let mut m: HandleMap<u32> = HandleMap::new();
    let a = m.insert(10);
    assert_eq!(m.remove(a), Some(10));
    assert_eq!(m.get(a), None);
    assert_eq!(m.remove(a), None);
}

#[test]
fn stale_handle_never_revives_after_slot_reuse() {
    let mut m: HandleMap<u32> = HandleMap::new();
    let a = m.insert(10);
    assert_eq!(m.remove(a), Some(10));
    // The freed slot is reused, but under a new generation.
    let b = m.insert(30);
    assert_eq!(a.index, b.index);
    assert_ne!(a.generation, b.generation);
    assert_eq!(m.get(a), None);
    assert_eq!(m.get(b), Some(&30));
}

#[test]
fn live_handles_never_alias() {
    let mut m: HandleMap<u32> = HandleMap::new();
    let mut live: Vec<Handle> = Vec::new();
    for round in 0..5u32 {
        for v in 0..4u32 {
            live.push(m.insert(round * 10 + v));
        }
        // Remove every other handle issued this round.
        let keep: Vec<Handle> = live
            .iter()
            .enumerate()
            .filter(|(i, _)| i % 2 == 0)
            .map(|(_, h)| *h)
            .collect();
        for h in live.iter().skip(1).step_by(2) {
            m.remove(*h);
        }
        live = keep;
        for (i, h1) in live.iter().enumerate() {
            for h2 in live.iter().skip(i + 1) {
                assert_ne!(h1, h2);
                assert_ne!(h1.index, h2.index);
            }
        }
    }
}

#[test]
fn iter_lists_live_handles_in_slot_order() {
    let mut m: HandleMap<u32> = HandleMap::new();
    let a = m.insert(1);
    let b = m.insert(2);
    let c = m.insert(3);
    m.remove(b);
    let handles = m.iter();
    assert_eq!(handles, vec![a, c]);
}

#[test]
fn get_mut_updates_the_entry() {
    let mut m: HandleMap<u32> = HandleMap::new();
    let a = m.insert(1);
    if let Some(v) = m.get_mut(a) {
        *v = 99;
    }
    assert_eq!(m.get(a), Some(&99));
}

#[test]
fn drain_empties_and_reports_pairs() {
    let mut m: HandleMap<u32> = HandleMap::new();
    let a = m.insert(1);
    let b = m.insert(2);
    let pairs = m.drain();
    assert_eq!(pairs, vec![(a, 1), (b, 2)]);
    assert_eq!(m.get(a), None);
    assert_eq!(m.get(b), None);
    assert_eq!(m.iter(), vec![]);
}
