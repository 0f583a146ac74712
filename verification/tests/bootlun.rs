use std::path::PathBuf;

use pixel_bootctl::bootlun;
use pixel_bootctl::bootlun::{detect, lun_value, Backend, Detection, LunWrite, Scan, Sighting, Step};
use pixel_bootctl::error::ErrorKind;
use pixel_bootctl::ufsbsg;

#[test]
fn lun_value_maps_slots() {
    assert_eq!(lun_value(0), "1"); // A -> boot LUN A
    assert_eq!(lun_value(1), "2"); // B -> boot LUN B
}

#[test]
fn backends_write_the_same_number() {
    for slot in 0..2usize {
        assert_eq!(lun_value(slot), ufsbsg::lun_value(slot).to_string());
        assert_eq!(ufsbsg::lun_value(slot) as usize, slot + 1);
    }
}

// Run the search over a directory listing the way a caller does.
fn search(listing: &[(Option<&str>, bool)]) -> Option<usize> {
    for (i, (name, node)) in listing.iter().enumerate() {
        if detect(Sighting::Entry(*name)).unwrap() == Scan::CheckNode
            && detect(Sighting::Node(*node)).unwrap() == Scan::Found
        {
            return Some(i);
        }
    }
    assert!(detect(Sighting::End).is_err());
    None
}

#[test]
fn detect_takes_the_first_ufs_entry_with_a_node() {
    let listing = [
        (Some("serial8250"), true),
        (None, true),
        (Some("13200000.ufs"), false),
        (Some("ufs"), true),
        (Some("14700000.ufs"), true),
        (Some("99.ufs"), true),
    ];
    assert_eq!(search(&listing), Some(4));
    assert_eq!(search(&listing[..4]), None);
    assert_eq!(search(&[(Some(".ufs"), true)]), Some(0));
    assert_eq!(search(&[(Some("a.ufs.x"), true), (Some("a.UFS"), true)]), None);
}

#[test]
fn detect_fails_at_the_end() {
    let e = detect(Sighting::End).unwrap_err();
    assert_eq!(e.kind, ErrorKind::NotFound);
    assert_eq!(
        e.message,
        "boot_lun_enabled not found under /sys/devices/platform/*.ufs/pixel/; pass --boot-lun"
    );
}

#[test]
fn a_given_node_is_used_without_a_search() {
    let path = PathBuf::from("/tmp/node");
    for backend in [Backend::Auto, Backend::Aosp] {
        assert_eq!(
            bootlun::set(1, backend, Some(path.clone())),
            Step::Write(LunWrite::Node { slot: 1, path: path.clone() })
        );
    }
}

#[test]
fn linux_never_touches_a_node() {
    for given in [None, Some("node")] {
        assert_eq!(
            bootlun::set(0, Backend::Linux, given),
            Step::Write(LunWrite::Attribute { slot: 0 })
        );
    }
}

#[test]
fn only_auto_falls_back() {
    let auto: Step<&str> = bootlun::set(1, Backend::Auto, None);
    assert_eq!(auto, Step::Detect(Detection { slot: 1, fallback: true }));
    let aosp: Step<&str> = bootlun::set(1, Backend::Aosp, None);
    assert_eq!(aosp, Step::Detect(Detection { slot: 1, fallback: false }));
    let auto = Detection { slot: 1, fallback: true };
    let aosp = Detection { slot: 1, fallback: false };
    let missing: Result<&str, &str> = Err("none");
    assert_eq!(auto.resolve(missing), Ok(LunWrite::Attribute { slot: 1 }));
    assert_eq!(aosp.resolve(missing), Err("none"));
    let found: Result<&str, &str> = Ok("n");
    for d in [auto, aosp] {
        assert_eq!(d.resolve(found), Ok(LunWrite::Node { slot: 1, path: "n" }));
    }
}

#[test]
fn writes_are_described() {
    assert_eq!(
        LunWrite::Node { slot: 0, path: () }.describe("/sys/x"),
        "boot LUN: wrote 1 to /sys/x (AOSP sysfs)"
    );
    assert_eq!(
        LunWrite::<()>::Attribute { slot: 1 }.describe(""),
        "boot LUN: wrote 2 to /dev/bsg/ufs-bsg0 via ufs-bsg WRITE ATTRIBUTE (mainline)"
    );
}
