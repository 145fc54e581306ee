//! The open-addressed store: minimum-distance semantics, length, and
//! survival across resizes.

use smbsearch::case::w11::{w11_options, w11_start};
use smbsearch::options::Platform;
use smbsearch::state::CompressedState;
use smbsearch::store::VecHashMap;
use std::collections::HashMap;

fn key_for(i: u32) -> CompressedState {
    let c = w11_options();
    let mut s = w11_start(Platform::NTSC);
    s.x_pos = 0x2000 + (i as i32) * 0x10;
    s.y_pos = 0xd000 + ((i as i32 * 7) % 0x100) * 0x100;
    CompressedState::from_state(&s, &c)
}

#[test]
fn store_reports_minimum_distance_ever_inserted() {
    let mut map = VecHashMap::with_capacity(0);
    let mut mirror: HashMap<Vec<u8>, u16> = HashMap::new();
    // A fixed pseudo-random walk over keys and distances.
    let mut x: u32 = 0x12345;
    for _ in 0..4000 {
        x = x.wrapping_mul(1664525).wrapping_add(1013904223);
        let ki = (x >> 8) % 300;
        let d = (x % 997) as u16;
        let key = key_for(ki);
        let kb = key.buf.clone();
        let expect_better = match mirror.get(&kb) {
            None => true,
            Some(old) => *old > d,
        };
        let got = map.check_and_update_dist(key, d);
        assert_eq!(got, expect_better);
        if expect_better {
            mirror.insert(kb, d);
        }
        assert_eq!(map.len(), mirror.len());
    }
    // Every key still reports its minimum: an equal re-insert is refused.
    for (kb, d) in mirror.iter() {
        let mut s = CompressedState::invalid();
        s.buf = kb.clone();
        assert!(!map.check_and_update_dist(s, *d));
    }
}

#[test]
fn store_survives_the_load_threshold_and_resize() {
    let mut map = VecHashMap::with_capacity(100);
    for i in 0..120 {
        assert!(map.check_and_update_dist(key_for(i), 5));
    }
    assert_eq!(map.len(), 120);
    // All keys are still present with their distance after the growth.
    for i in 0..120 {
        assert!(!map.check_and_update_dist(key_for(i), 5));
        assert!(map.check_and_update_dist(key_for(i), 4));
    }
    assert_eq!(map.len(), 120);
}

#[test]
fn increment_all_dists_relaxes_every_entry_by_one() {
    let mut map = VecHashMap::with_capacity(10);
    for i in 0..50 {
        assert!(map.check_and_update_dist(key_for(i), i as u16));
    }
    map.increment_all_dists();
    for i in 0..50 {
        // The stored distance is now i + 1: i is again an improvement,
        // i + 1 is not.
        assert!(!map.check_and_update_dist(key_for(i), (i + 1) as u16));
        assert!(map.check_and_update_dist(key_for(i), i as u16));
    }
    let (entries, slots, max_probe) = map.debug_info();
    assert_eq!(entries, 50);
    assert!(slots > entries);
    assert!(max_probe < slots);
}
