use pixel_bootctl::error::ErrorKind;
use pixel_bootctl::slot::{current, parse_slot_suffix, Lookup, Source};

#[test]
fn parses_bootconfig_form() {
    assert_eq!(
        parse_slot_suffix("androidboot.slot_suffix = \"_a\"\n"),
        Some(0)
    );
    assert_eq!(
        parse_slot_suffix("x\nandroidboot.slot_suffix = \"_b\"\ny"),
        Some(1)
    );
}

#[test]
fn parses_cmdline_form() {
    assert_eq!(
        parse_slot_suffix("console=ttynull androidboot.slot_suffix=_b root=/dev/x"),
        Some(1)
    );
}

#[test]
fn none_when_absent_or_bad() {
    // The key itself contains an underscore; make sure we don't latch onto it.
    assert_eq!(parse_slot_suffix("no suffix here"), None);
    assert_eq!(parse_slot_suffix("slot_suffix = \"_c\""), None);
}

#[test]
fn suffix_edges() {
    assert_eq!(parse_slot_suffix(""), None);
    assert_eq!(parse_slot_suffix("slot_suffix"), None);
    assert_eq!(parse_slot_suffix("slot_suffix=a"), None);
    assert_eq!(parse_slot_suffix("slot_suffix=_"), None);
    assert_eq!(parse_slot_suffix("slot_suffix_a"), Some(0));
    assert_eq!(parse_slot_suffix("slot_suffix=_B"), None);
    assert_eq!(parse_slot_suffix("slot_suffix=_\u{e1}"), None);
    // Only the first key counts, and after it only the first underscore.
    assert_eq!(parse_slot_suffix("slot_suffix=_c slot_suffix=_a"), None);
    assert_eq!(parse_slot_suffix("slot_suffix=b_x_a"), None);
    assert_eq!(parse_slot_suffix("slot_suffi slot_slot_suffix = \u{20ac}_b"), Some(1));
    assert_eq!(parse_slot_suffix("_a slot_suffix"), None);
}

#[test]
fn the_full_key_comes_before_the_bare_one() {
    let other = "vendor.slot_suffix=_b androidboot.slot_suffix=_a";
    assert_eq!(parse_slot_suffix(other), Some(0));
    let after = "androidboot.slot_suffix = \"_b\"\nvendor.slot_suffix = \"_a\"\n";
    assert_eq!(parse_slot_suffix(after), Some(1));
    // Where the full key is, the bare one does not stand in for it.
    assert_eq!(parse_slot_suffix("slot_suffix=_a androidboot.slot_suffix=_c"), None);
    assert_eq!(parse_slot_suffix("slot_suffix=_a androidboot.slot_suffix="), None);
    // Of several full keys the first counts.
    let twice = "androidboot.slot_suffix=_b androidboot.slot_suffix=_a";
    assert_eq!(parse_slot_suffix(twice), Some(1));
}

#[test]
fn surroundings_do_not_matter() {
    for setting in ["androidboot.slot_suffix=_b", "slot_suffix = \"_b\""] {
        for before in ["", "_a slot_", "console=x _a\n"] {
            for after in ["", "a", "\nslot_suffix=_a", "\" _a"] {
                assert_eq!(parse_slot_suffix(&format!("{before}{setting}{after}")), Some(1));
            }
        }
    }
}

#[test]
fn bootconfig_comes_first() {
    assert_eq!(Source::first().path(), "/proc/bootconfig");
    assert_eq!(Source::Cmdline.path(), "/proc/cmdline");
    let named = Some("slot_suffix=_b");
    assert_eq!(current(Source::Bootconfig, named).unwrap(), Lookup::Slot(1));
    let next = Lookup::Read(Source::Cmdline);
    assert_eq!(current(Source::Bootconfig, Some("nothing")).unwrap(), next);
    assert_eq!(current(Source::Bootconfig, None).unwrap(), next);
    assert_eq!(current(Source::Cmdline, Some("slot_suffix=_a")).unwrap(), Lookup::Slot(0));
}

#[test]
fn search_fails_after_the_command_line() {
    for text in [None, Some(""), Some("slot_suffix=_z")] {
        let e = current(Source::Cmdline, text).unwrap_err();
        assert_eq!(e.kind, ErrorKind::NotFound);
        assert_eq!(
            e.message,
            "could not determine the running slot from androidboot.slot_suffix; pass --slot <a|b>"
        );
    }
}
