use pixel_bootctl::error::ErrorKind;
use pixel_bootctl::ufsbsg::{complete, envelope, lun_value, upiu_bytes, Completion};

#[test]
fn request_writes_the_attribute() {
    for slot in 0..2usize {
        let req = pixel_bootctl::ufsbsg::set(slot);
        assert_eq!(req.msgcode, 0x16);
        let h = req.upiu_req.header;
        assert_eq!((h.transaction_code, h.query_function), (0x16, 0x81));
        assert_eq!([h.flags, h.lun, h.task_tag, h.iid_cmd_set_type, h.response, h.status], [0; 6]);
        assert_eq!((h.ehs_length, h.device_information, h.data_segment_length), (0, 0, 0));
        let q = req.upiu_req.qr;
        assert_eq!((q.opcode, q.idn, q.index, q.selector), (4, 0, 0, 0));
        assert_eq!((q.reserved_osf, q.length, q.reserved), (0, 0, [0, 0]));
        assert_eq!(q.value, lun_value(slot).to_be_bytes());
    }
    assert_eq!((lun_value(0), lun_value(1)), (1, 2));
}

#[test]
fn request_bytes_in_memory() {
    for slot in 0..2u8 {
        let req = pixel_bootctl::ufsbsg::set(slot as usize);
        let mut expected = [0u8; 32];
        expected[0] = 0x16;
        expected[5] = 0x81;
        expected[12] = 0x04;
        expected[23] = slot + 1;
        assert_eq!(upiu_bytes(&req.upiu_req), expected);
    }
}

#[test]
fn every_byte_field_has_its_place() {
    let mut req = pixel_bootctl::ufsbsg::set(0).upiu_req;
    req.header.transaction_code = 1;
    req.header.flags = 2;
    req.header.lun = 3;
    req.header.task_tag = 4;
    req.header.iid_cmd_set_type = 5;
    req.header.query_function = 6;
    req.header.response = 7;
    req.header.status = 8;
    req.header.ehs_length = 9;
    req.header.device_information = 10;
    req.qr.opcode = 11;
    req.qr.idn = 12;
    req.qr.index = 13;
    req.qr.selector = 14;
    req.qr.value = [15, 16, 17, 18];
    let mut expected = [0u8; 32];
    expected[..10].copy_from_slice(&[1, 2, 3, 4, 5, 6, 7, 8, 9, 10]);
    expected[12..16].copy_from_slice(&[11, 12, 13, 14]);
    expected[20..24].copy_from_slice(&[15, 16, 17, 18]);
    assert_eq!(upiu_bytes(&req), expected);
}

#[test]
fn envelope_points_at_request_and_reply() {
    let h = envelope(0x1122_3344_5566_7788, 0x99);
    assert_eq!(h.guard, b'Q' as i32);
    assert_eq!((h.protocol, h.subprotocol, h.timeout), (0, 2, 5000));
    assert_eq!((h.request, h.request_len), (0x1122_3344_5566_7788, 36));
    assert_eq!((h.response, h.max_response_len), (0x99, 40));
    assert_eq!((h.request_tag, h.dout_xferp, h.din_xferp, h.flags, h.usr_ptr), (0, 0, 0, 0, 0));
    assert_eq!((h.din_resid, h.dout_resid, h.spare_out, h.padding), (0, 0, 0, 0));
}

#[test]
fn completion_is_judged_by_both_codes() {
    assert!(matches!(complete(0, 0), Completion::Written));
    assert!(matches!(complete(3, 0), Completion::Written));
    assert!(matches!(complete(-1, 0), Completion::NotSubmitted));
    assert!(matches!(complete(-1, 5), Completion::NotSubmitted));
    for result in [1, -5, 255, 4096, i32::MAX, i32::MIN, -1] {
        match complete(0, result) {
            Completion::Refused(e) => {
                assert_eq!(e.kind, ErrorKind::Other);
                assert_eq!(
                    e.message,
                    format!(
                        "ufs-bsg WRITE ATTRIBUTE bBootLunEn failed: reply result = {} (0x{:x})",
                        result, result
                    )
                );
            }
            _ => panic!("not refused"),
        }
    }
}
