//! The fingerprint codec: stability, buffer length, and the occupancy
//! sentinel.

use smbsearch::case::w11::{w11_options, w11_start};
use smbsearch::case::w11::W11SubSidePipeEntry;
use smbsearch::case::SmbSearchCase;
use smbsearch::options::Platform;
use smbsearch::state::CompressedState;

#[test]
fn fingerprint_is_stable_across_calls() {
    let c = w11_options();
    let s = w11_start(Platform::NTSC);
    let a = CompressedState::from_state(&s, &c);
    let b = CompressedState::from_state(&s, &c);
    assert_eq!(a.buf, b.buf);
}

#[test]
fn fingerprint_length_is_the_bit_sum_rounded_to_bytes() {
    // Fixed fields alone: 77 bits, 10 bytes.
    let c = w11_options();
    let s = w11_start(Platform::NTSC);
    assert_eq!(CompressedState::from_state(&s, &c).buf.len(), 10);

    // Nineteen coin bits on top: 96 bits, 12 bytes.
    let c19 = <W11SubSidePipeEntry as SmbSearchCase>::options();
    assert_eq!(CompressedState::from_state(&s, &c19).buf.len(), 12);
}

#[test]
fn fingerprint_ignores_dropped_subpixel_bits() {
    let c = w11_options();
    let s1 = w11_start(Platform::NTSC);
    let mut s2 = s1;
    s2.x_pos += 0xf; // below the codec's 16-subpixel resolution
    let mut s3 = s1;
    s3.x_pos += 0x10; // one whole packed unit
    let a = CompressedState::from_state(&s1, &c);
    let b = CompressedState::from_state(&s2, &c);
    let d = CompressedState::from_state(&s3, &c);
    assert_eq!(a.buf, b.buf);
    assert_ne!(a.buf, d.buf);
}

#[test]
fn sentinel_byte_is_never_zero() {
    let c = w11_options();
    let mut s = w11_start(Platform::NTSC);
    // A spread of reachable-looking states: the sentinel byte must be
    // nonzero for every one of them.
    for dx in 0..64 {
        s.x_pos = 0x2800 + dx * 0x10;
        s.x_spd = (dx as i16) * 4 - 64;
        let f = CompressedState::from_state(&s, &c);
        assert!(f.is_valid());
        assert_ne!(f.buf[7], 0);
    }
}

#[test]
fn reserved_fingerprint_is_invalid() {
    let inv = CompressedState::invalid();
    assert!(!inv.is_valid());
}
