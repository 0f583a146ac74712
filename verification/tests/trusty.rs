use pixel_bootctl::trusty::{
    connect, recv, recv_wait, send, Attempt, Connect, Wait, CANDIDATE_PORTS, TIPC_IOC_CONNECT,
};

#[test]
fn ioctl_constant_matches_iow_r_0x80_charptr() {
    // _IOW('r', 0x80, char*) on 64-bit: dir=1, size=8, type=0x72, nr=0x80
    let expected: libc::Ioctl = (1 << 30) | (8 << 16) | (0x72 << 8) | 0x80;
    assert_eq!(TIPC_IOC_CONNECT as libc::Ioctl, expected);
    assert_eq!(TIPC_IOC_CONNECT, 0x4008_7280);
}

#[test]
fn connecting_opens_then_binds() {
    assert_eq!(connect(Attempt::Open, -1), Connect::Fail(None));
    assert_eq!(connect(Attempt::Open, 0), Connect::Bind(0));
    assert_eq!(connect(Attempt::Open, 7), Connect::Bind(7));
    assert_eq!(connect(Attempt::Bind(7), -1), Connect::Fail(Some(7)));
    assert_eq!(connect(Attempt::Bind(7), 0), Connect::Connected(7));
    assert_eq!(connect(Attempt::Bind(7), 3), Connect::Connected(7));
}

#[test]
fn sending_counts_or_fails() {
    assert_eq!(send(-1), None);
    assert_eq!(send(0), Some(0));
    assert_eq!(send(isize::MAX), Some(isize::MAX as usize));
}

#[test]
fn waiting_and_reading() {
    assert_eq!(recv_wait(-1), Wait::Failed);
    assert_eq!(recv_wait(0), Wait::TimedOut);
    assert_eq!(recv_wait(1), Wait::Ready);
    assert_eq!(recv(vec![1, 2, 3, 0, 0], 3), Some(vec![1, 2, 3]));
    assert_eq!(recv(vec![1, 2, 3], 0), Some(vec![]));
    assert_eq!(recv(vec![1, 2, 3], 9), Some(vec![1, 2, 3]));
    assert_eq!(recv(vec![1, 2, 3], -1), None);
}

#[test]
fn candidate_ports_are_distinct() {
    assert_eq!(CANDIDATE_PORTS.len(), 25);
    assert_eq!(CANDIDATE_PORTS[0], "com.android.trusty.boot_control");
    assert_eq!(CANDIDATE_PORTS[24], "com.android.trusty.device_tree");
    for (i, p) in CANDIDATE_PORTS.iter().enumerate() {
        assert!(!CANDIDATE_PORTS[..i].contains(p));
    }
}
