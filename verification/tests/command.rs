use pixel_bootctl::bootlun::LunWrite;
use pixel_bootctl::command::{
    cmd_mark_successful, cmd_probe, cmd_send, cmd_set_active, cmd_status, probe_heading,
    probe_report, response_line, running_slot, sending_line, sent_line, DevinfoUpdate, LunSwitch,
    MarkSuccessful, Probe, SetActive,
};
use pixel_bootctl::devinfo::Devinfo;
use pixel_bootctl::error::ErrorKind;
use pixel_bootctl::slot::Source;
use pixel_bootctl::trusty::CANDIDATE_PORTS;

fn image() -> Vec<u8> {
    let mut b = vec![0u8; 128];
    b[0..4].copy_from_slice(b"DEVI");
    b[4] = 3;
    b[6] = 15;
    b[48] = 7;
    b[49] = 0x0e;
    b[52] = 10;
    b[53] = 0x03;
    b
}

#[test]
fn status_lists_both_slots() {
    assert_eq!(
        cmd_status(&image()).unwrap(),
        "devinfo Version 3.15\n\
         slot: A\n    retry count: 7\n    successful:  true\n    unbootable:  false\n    \
         active:      true\n    fastboot ok: true\n\
         slot: B\n    retry count: 10\n    successful:  true\n    unbootable:  true\n    \
         active:      false\n    fastboot ok: false\n"
    );
    let mut b = image();
    b[4..8].copy_from_slice(&[0xff, 0xff, 0, 0]);
    assert!(cmd_status(&b).unwrap().starts_with("devinfo Version 65535.0\n"));
    assert_eq!(cmd_status(&b[..10]).unwrap_err().message, "devinfo too short");
}

#[test]
fn set_active_with_a_given_node() {
    let update = DevinfoUpdate::SetActive { slot: 1, mark_successful: false };
    let first = cmd_set_active('B', Some("/n"), false).unwrap();
    let switch = LunSwitch { write: LunWrite::Node { slot: 1, path: "/n" }, update };
    assert_eq!(first, SetActive::Switch(switch));
    if let SetActive::Switch(switch) = first {
        let (line, update) = switch.switched("/n");
        assert_eq!(line, "boot LUN: wrote 2 to /n (AOSP sysfs)");
        let d = Devinfo::parse(&update.apply(image()).unwrap()).unwrap();
        assert!(d.slots[1].active && !d.slots[1].successful && !d.slots[0].active);
        assert_eq!(
            update.describe(),
            "devinfo: slot B marked active, NOT successful (retry 7) \u{2014} rolls back unless a \
             good boot runs `pixel-bootctl mark-successful`\ndone. reboot to boot slot B.\n"
        );
    }
}

#[test]
fn set_active_after_a_search() {
    for found in [Ok("/sys/n"), Err("none")] {
        match cmd_set_active::<&str>('a', None, true).unwrap() {
            SetActive::Search(search) => {
                let switch = search.resolve(found).unwrap();
                match found {
                    Ok(path) => assert_eq!(switch.write, LunWrite::Node { slot: 0, path }),
                    Err(_) => assert_eq!(switch.write, LunWrite::Attribute { slot: 0 }),
                }
                let (_, update) = switch.switched("");
                let d = Devinfo::parse(&update.apply(image()).unwrap()).unwrap();
                assert!(d.slots[0].active && d.slots[0].successful && !d.slots[1].active);
                assert_eq!(
                    update.describe(),
                    "devinfo: slot A marked active+successful (retry 7) \u{2014} force-trust, NO \
                     rollback\ndone. reboot to boot slot A.\n"
                );
            }
            SetActive::Switch(_) => panic!("no search"),
        }
    }
}

#[test]
fn set_active_refuses_other_letters() {
    let e = cmd_set_active('x', Some(()), false).unwrap_err();
    assert_eq!((e.kind, e.message.as_str()), (ErrorKind::InvalidInput, "slot must be a or b"));
}

#[test]
fn updates_refuse_what_is_no_devinfo() {
    let update = DevinfoUpdate::MarkSuccessful { slot: 0 };
    assert_eq!(update.apply(vec![0; 55]).unwrap_err().message, "devinfo too short");
    let bad = update.apply(vec![0; 56]).unwrap_err();
    assert_eq!(bad.message, "bad devinfo magic (expected DEVI)");
}

#[test]
fn mark_successful_goes_by_the_running_slot() {
    let first = cmd_mark_successful(None).unwrap();
    assert_eq!(first, MarkSuccessful::Read(Source::Bootconfig));
    let next = running_slot(Source::Bootconfig, None).unwrap();
    assert_eq!(next, MarkSuccessful::Read(Source::Cmdline));
    let last = running_slot(Source::Cmdline, Some("slot_suffix=_b")).unwrap();
    let update = DevinfoUpdate::MarkSuccessful { slot: 1 };
    assert_eq!(last, MarkSuccessful::Update(update));
    assert_eq!(update.describe(), "devinfo: slot B marked successful (retry 7)\n");
    let d = Devinfo::parse(&update.apply(image()).unwrap()).unwrap();
    assert!(d.slots[0].active && !d.slots[1].active);
    assert!(d.slots[1].successful && !d.slots[1].unbootable && d.slots[1].retry_count == 7);
    let e = running_slot(Source::Cmdline, Some("nothing")).unwrap_err();
    assert_eq!(e.kind, ErrorKind::NotFound);
}

#[test]
fn mark_successful_with_an_override() {
    assert_eq!(
        cmd_mark_successful(Some('A')).unwrap(),
        MarkSuccessful::Update(DevinfoUpdate::MarkSuccessful { slot: 0 })
    );
    assert_eq!(cmd_mark_successful(Some('1')).unwrap_err().kind, ErrorKind::InvalidInput);
}

#[test]
fn probe_ports_and_lines() {
    assert_eq!(cmd_probe(None), CANDIDATE_PORTS.to_vec());
    assert_eq!(cmd_probe(Some("p")), vec!["p"]);
    assert_eq!(probe_heading(25, "/dev/t"), "probing 25 via /dev/t");
    assert_eq!(probe_report("p", Probe::Connected), "  [CONNECTED] p");
    for code in [0, 2, 22, 110, 1234, -1, -12, i32::MIN] {
        let reason = "why";
        assert_eq!(
            probe_report("p", Probe::Refused { code: Some(code), reason }),
            format!("  [   {code:>3} ] p  ({reason})")
        );
    }
    assert_eq!(
        probe_report("q", Probe::Refused { code: None, reason: "" }),
        "  [    -1 ] q  ()"
    );
}

#[test]
fn send_payload_and_lines() {
    assert_eq!(cmd_send("01 00").unwrap(), vec![1, 0]);
    let e = cmd_send("0").unwrap_err();
    assert_eq!((e.kind, e.message.as_str()), (ErrorKind::InvalidInput, "hex must have even length"));
    assert_eq!(cmd_send("0z").unwrap_err().message, "invalid digit found in string");
    assert_eq!(sending_line("p", 12), "connected to p, sending 12 bytes");
    assert_eq!(sent_line(0), "wrote 0 bytes");
    assert_eq!(sent_line(usize::MAX), format!("wrote {} bytes", usize::MAX));
    assert_eq!(response_line(&[], -1), "no response (timeout -1ms)");
    assert_eq!(response_line(&[], 1000), "no response (timeout 1000ms)");
    assert_eq!(response_line(&[0xca, 0xfe, 0], 5), "response (3 bytes): cafe00");
}
