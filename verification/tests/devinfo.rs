use pixel_bootctl::devinfo::{
    apply_mark_successful, apply_set_active, parse_slot, Devinfo, SlotData, F_ACTIVE,
    F_SUCCESSFUL, F_UNBOOTABLE,
};
use pixel_bootctl::error::ErrorKind;

// A 128-byte devinfo image resembling a live device: magic DEVI, version 3.15, slot A
// active+successful (retry 7), slot B successful (retry 7), not active.
fn sample() -> Vec<u8> {
    let mut b = vec![0u8; 128];
    b[0..4].copy_from_slice(b"DEVI");
    b[4..6].copy_from_slice(&3u16.to_le_bytes());
    b[6..8].copy_from_slice(&15u16.to_le_bytes());
    b[48] = 7;
    b[49] = 0x0e;
    b[52] = 7;
    b[53] = 0x02;
    b
}

#[test]
fn parses_version_and_slots() {
    let d = Devinfo::parse(&sample()).unwrap();
    assert_eq!((d.major_version, d.minor_version), (3, 15));
    assert!(d.slots[0].active && d.slots[0].successful && d.slots[0].retry_count == 7);
    assert!(!d.slots[1].active && d.slots[1].successful);
}

#[test]
fn rejects_bad_magic_and_short() {
    let mut b = sample();
    b[0] = b'X';
    assert!(Devinfo::parse(&b).is_err());
    assert!(Devinfo::parse(&[0u8; 8]).is_err());
}

#[test]
fn set_active_b_is_rollback_safe_by_default() {
    let mut b = sample();
    apply_set_active(&mut b, 1, false).unwrap();
    let d = Devinfo::parse(&b).unwrap();
    // B becomes active with a full retry budget, but NOT successful: it is unconfirmed, so the
    // bootloader can roll back. A loses active but keeps successful (the rollback target).
    assert!(d.slots[1].active && d.slots[1].retry_count == 7 && !d.slots[1].successful);
    assert!(!d.slots[0].active && d.slots[0].successful);
    // Bytes outside the two flag bytes are untouched (magic intact, version intact).
    assert_eq!(&b[0..8], &sample()[0..8]);
}

#[test]
fn set_active_clears_stale_successful_on_target() {
    let mut b = sample();
    b[53] = F_SUCCESSFUL | F_ACTIVE; // B was previously good+active
    apply_set_active(&mut b, 1, false).unwrap();
    // Re-activating unconfirmed must drop the stale successful so it re-validates.
    assert!(!Devinfo::parse(&b).unwrap().slots[1].successful);
}

#[test]
fn set_active_force_trust_sets_successful() {
    let mut b = sample();
    apply_set_active(&mut b, 1, true).unwrap();
    let d = Devinfo::parse(&b).unwrap();
    assert!(d.slots[1].active && d.slots[1].successful && d.slots[1].retry_count == 7);
    assert!(!d.slots[0].active && d.slots[0].successful);
}

#[test]
fn set_active_a_clears_unbootable_without_marking_successful() {
    let mut b = sample();
    b[49] = F_UNBOOTABLE; // pretend A was marked unbootable
    apply_set_active(&mut b, 0, false).unwrap();
    let d = Devinfo::parse(&b).unwrap();
    assert!(d.slots[0].active && !d.slots[0].unbootable && !d.slots[0].successful);
}

#[test]
fn mark_successful_commits_without_touching_active() {
    let mut b = sample();
    apply_set_active(&mut b, 1, false).unwrap(); // switch to B, unconfirmed
    apply_mark_successful(&mut b, 1).unwrap(); // confirmed-good boot
    let d = Devinfo::parse(&b).unwrap();
    assert!(d.slots[1].active && d.slots[1].successful && d.slots[1].retry_count == 7);
    // Must not disturb ACTIVE bits: A stays inactive, B stays active.
    assert!(!d.slots[0].active);
}

#[test]
fn parse_slot_letters() {
    assert_eq!(parse_slot('a').unwrap(), 0);
    assert_eq!(parse_slot('B').unwrap(), 1);
    assert!(parse_slot('c').is_err());
}

#[test]
fn parse_slot_takes_both_cases_and_nothing_else() {
    assert_eq!(parse_slot('A').unwrap(), 0);
    assert_eq!(parse_slot('b').unwrap(), 1);
    for c in ['c', '0', '_', ' ', '\u{e1}', '\u{ff41}'] {
        let e = parse_slot(c).unwrap_err();
        assert_eq!(e.kind, ErrorKind::InvalidInput);
        assert_eq!(e.message, "slot must be a or b");
    }
}

#[test]
fn slot_data_decodes_each_flag() {
    for flags in 0..=255u8 {
        let s = SlotData::from_bytes(&[9, flags]);
        assert_eq!(
            s,
            SlotData {
                retry_count: 9,
                unbootable: flags % 2 == 1,
                successful: flags / 2 % 2 == 1,
                active: flags / 4 % 2 == 1,
                fastboot_ok: flags / 8 % 2 == 1,
            }
        );
    }
    // Bytes past the second do not matter.
    assert_eq!(SlotData::from_bytes(&[1, 2, 3, 4]), SlotData::from_bytes(&[1, 2]));
}

#[test]
fn parse_reads_little_endian_versions() {
    let mut b = sample();
    b[4..8].copy_from_slice(&[0x34, 0x12, 0xff, 0xfe]);
    let d = Devinfo::parse(&b).unwrap();
    assert_eq!((d.major_version, d.minor_version), (0x1234, 0xfeff));
}

#[test]
fn length_is_judged_before_magic() {
    let b = sample();
    assert!(Devinfo::parse(&b[..56]).is_ok());
    let short = Devinfo::parse(&b[..55]).unwrap_err();
    assert_eq!((short.kind, short.message.as_str()), (ErrorKind::InvalidData, "devinfo too short"));
    let empty = Devinfo::parse(&[]).unwrap_err();
    assert_eq!(empty.message, "devinfo too short");
    for i in 0..4 {
        let mut bad = sample();
        bad[i] ^= 1;
        let e = Devinfo::parse(&bad).unwrap_err();
        assert_eq!(e.kind, ErrorKind::InvalidData);
        assert_eq!(e.message, "bad devinfo magic (expected DEVI)");
    }
}

#[test]
fn refused_images_stay_as_they_are() {
    let mut bad = sample();
    bad[3] = b'X';
    let before = bad.clone();
    assert!(apply_set_active(&mut bad, 0, true).is_err());
    assert!(apply_mark_successful(&mut bad, 1).is_err());
    // What the slot is does not matter for an image that is refused anyway.
    assert!(apply_set_active(&mut bad, 5, true).is_err());
    assert_eq!(bad, before);
    let mut short = [0xffu8; 55];
    assert!(apply_set_active(&mut short, 0, false).is_err());
    assert_eq!(short, [0xffu8; 55]);
}

#[test]
fn set_active_writes_three_bytes_only() {
    for slot in 0..2usize {
        for mark in [false, true] {
            for target in 0..=255u8 {
                let mut b: Vec<u8> = (0..128).map(|i| i as u8 ^ 0x5a).collect();
                b[0..4].copy_from_slice(b"DEVI");
                let (t, o) = (48 + 4 * slot, 52 - 4 * slot);
                b[t + 1] = target;
                b[o + 1] = !target;
                let mut expected = b.clone();
                expected[t] = 7;
                expected[t + 1] = (target & 0xfc) | 4 | if mark { 2 } else { 0 };
                expected[o + 1] = !target & 0xfb;
                apply_set_active(&mut b, slot, mark).unwrap();
                assert_eq!(b, expected);
            }
        }
    }
}

#[test]
fn mark_successful_writes_two_bytes_only() {
    for slot in 0..2usize {
        for target in 0..=255u8 {
            let mut b: Vec<u8> = (0..64).map(|i| 255 - i as u8).collect();
            b[0..4].copy_from_slice(b"DEVI");
            b[49 + 4 * slot] = target;
            let mut expected = b.clone();
            expected[48 + 4 * slot] = 7;
            expected[49 + 4 * slot] = (target & 0xfe) | 2;
            apply_mark_successful(&mut b, slot).unwrap();
            assert_eq!(b, expected);
        }
    }
}

#[test]
fn switch_then_confirm_is_switch_with_trust() {
    for slot in 0..2usize {
        let mut slow = sample();
        apply_set_active(&mut slow, slot, false).unwrap();
        apply_mark_successful(&mut slow, slot).unwrap();
        let mut fast = sample();
        apply_set_active(&mut fast, slot, true).unwrap();
        assert_eq!(slow, fast);
    }
}

#[test]
fn updates_done_twice_change_nothing_more() {
    let mut b = sample();
    apply_set_active(&mut b, 1, false).unwrap();
    let once = b.clone();
    apply_set_active(&mut b, 1, false).unwrap();
    assert_eq!(b, once);
    apply_mark_successful(&mut b, 1).unwrap();
    let once = b.clone();
    apply_mark_successful(&mut b, 1).unwrap();
    assert_eq!(b, once);
}

#[test]
fn switching_back_restores_the_active_slot() {
    let mut b = sample();
    apply_set_active(&mut b, 1, false).unwrap();
    apply_set_active(&mut b, 0, false).unwrap();
    let d = Devinfo::parse(&b).unwrap();
    assert!(d.slots[0].active && !d.slots[1].active);
    assert_eq!((d.major_version, d.minor_version), (3, 15));
}
