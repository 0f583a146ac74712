//! What to make of Trusty IPC over `/dev/trusty-ipc-dev0`.
//!
//! These are diagnostics: probing for Trusty service ports and poking at them. Slot switching does
//! not go through Trusty (see [`crate::bootlun`]).
use vstd::prelude::*;

verus! {

/// The Trusty IPC device.
pub const DEFAULT_DEV: &'static str = "/dev/trusty-ipc-dev0";

/// The ioctl that binds an open channel to a port: `_IOW('r', 0x80, char *)`, so direction 1 from
/// bit 30, the 8-byte size of a pointer from bit 16, the type `r` from bit 8, and the number 0x80.
pub const TIPC_IOC_CONNECT: u32 = 0x4008_7280;

/// The longest response that is read.
pub const MAX_RESPONSE: usize = 4096;

/// Trusty service ports to probe (boot, AVB and security related ones first).
pub const CANDIDATE_PORTS: [&'static str; 25] = [
    "com.android.trusty.boot_control",
    "com.android.trusty.bootcontrol",
    "com.android.trusty.boot",
    "com.android.trusty.avb",
    "com.android.trusty.hwbcc",
    "com.android.trusty.hwkey",
    "com.android.trusty.hwwsk",
    "com.android.trusty.keymaster",
    "com.android.trusty.keymaster.secure",
    "com.android.trusty.keymint",
    "com.android.trusty.gatekeeper",
    "com.android.trusty.secure_storage",
    "com.android.trusty.storage.client.td",
    "com.android.trusty.storage.client.tp",
    "com.android.trusty.storage.client.tdea",
    "com.android.trusty.storage.proxy",
    "com.android.trusty.system_state",
    "com.android.trusty.metrics",
    "com.android.trusty.gsa.hwmgr",
    "com.android.trusty.gsa.hwmgr.tpu",
    "com.android.trusty.gsa.hwmgr.aoc",
    "com.android.trusty.gsa.boot",
    "com.android.trusty.gsa.bootloader",
    "com.google.trusty.gsa.boot_control",
    "com.android.trusty.device_tree",
];

/// What was done last to connect to a port.
#[derive(Clone, Copy, Debug, PartialEq, Eq, Structural)]
pub enum Attempt {
    /// Open the device.
    Open,
    /// Bind the channel with this descriptor to the port.
    Bind(i32),
}

/// What to do next to connect to a port.
#[derive(Clone, Copy, Debug, PartialEq, Eq, Structural)]
pub enum Connect {
    /// Bind the channel with this descriptor to the port.
    Bind(i32),
    /// Give up with the operating system's error, after closing the descriptor if there is one.
    Fail(Option<i32>),
    /// The channel with this descriptor is connected.
    Connected(i32),
}

/// What follows an attempt that returned `returned`.
pub open spec fn connect_next(attempt: Attempt, returned: i32) -> Connect {
    match attempt {
        Attempt::Open => if returned < 0 {
            Connect::Fail(None)
        } else {
            Connect::Bind(returned)
        },
        Attempt::Bind(fd) => if returned < 0 {
            Connect::Fail(Some(fd))
        } else {
            Connect::Connected(fd)
        },
    }
}

/// The number of bytes sent by a write that returned `returned`.
pub open spec fn sent_bytes(returned: int) -> Option<int> {
    if returned < 0 {
        None
    } else {
        Some(returned)
    }
}

/// What a poll that returned `returned` says.
pub open spec fn wait_outcome(returned: i32) -> Wait {
    if returned < 0 {
        Wait::Failed
    } else if returned == 0 {
        Wait::TimedOut
    } else {
        Wait::Ready
    }
}

/// The response that a read into `buf` which returned `returned` gives.
pub open spec fn response_read(buf: Seq<u8>, returned: int) -> Option<Seq<u8>> {
    if returned < 0 {
        None
    } else if returned < buf.len() {
        Some(buf.take(returned))
    } else {
        Some(buf)
    }
}

/// What to do next, given what the last attempt returned: the descriptor of the open device, or the
/// return code of binding; negative if it failed.
pub fn connect(attempt: Attempt, returned: i32) -> (next: Connect)
    ensures
        next == match attempt {
            Attempt::Open => if returned < 0 {
                Connect::Fail(None)
            } else {
                Connect::Bind(returned)
            },
            Attempt::Bind(fd) => if returned < 0 {
                Connect::Fail(Some(fd))
            } else {
                Connect::Connected(fd)
            },
        },
        next == connect_next(attempt, returned),
{
    match attempt {
        Attempt::Open => {
            if returned < 0 {
                Connect::Fail(None)
            } else {
                Connect::Bind(returned)
            }
        },
        Attempt::Bind(fd) => {
            if returned < 0 {
                Connect::Fail(Some(fd))
            } else {
                Connect::Connected(fd)
            }
        },
    }
}

/// The number of bytes sent, given what the write returned; nothing if it failed.
pub fn send(returned: isize) -> (sent: Option<usize>)
    ensures
        match sent {
            Some(n) => n == returned,
            None => returned < 0,
        },
        sent_bytes(returned as int) == match sent {
            Some(n) => Some(n as int),
            None => None,
        },
{
    if returned < 0 {
        None
    } else {
        Some(returned as usize)
    }
}

/// What waiting for a response came to.
#[derive(Clone, Copy, Debug, PartialEq, Eq, Structural)]
pub enum Wait {
    /// The wait failed; the operating system's error says why.
    Failed,
    /// There was no response in time: the response is empty.
    TimedOut,
    /// A response is there to be read.
    Ready,
}

/// What waiting for a response came to, given what the poll returned.
pub fn recv_wait(returned: i32) -> (w: Wait)
    ensures
        w == if returned < 0 {
            Wait::Failed
        } else if returned == 0 {
            Wait::TimedOut
        } else {
            Wait::Ready
        },
        w == wait_outcome(returned),
{
    if returned < 0 {
        Wait::Failed
    } else if returned == 0 {
        Wait::TimedOut
    } else {
        Wait::Ready
    }
}

/// The response, given the buffer that it was read into and what the read returned: as many bytes
/// as were read. Nothing, if the read failed.
pub fn recv(buf: Vec<u8>, returned: isize) -> (response: Option<Vec<u8>>)
    ensures
        match response {
            Some(bytes) => 0 <= returned && bytes@ == if returned < buf@.len() {
                buf@.take(returned as int)
            } else {
                buf@
            },
            None => returned < 0,
        },
        response_read(buf@, returned as int) == match response {
            Some(bytes) => Some(bytes@),
            None => None,
        },
{
    if returned < 0 {
        return None;
    }
    let mut buf = buf;
    buf.truncate(returned as usize);
    Some(buf)
}

/// The ports that are probed, in order, the device, the request that binds a channel, and how much
/// of a response is read.
pub proof fn law_places()
    ensures
        CANDIDATE_PORTS@[0]@ == "com.android.trusty.boot_control"@,
        CANDIDATE_PORTS@[1]@ == "com.android.trusty.bootcontrol"@,
        CANDIDATE_PORTS@[2]@ == "com.android.trusty.boot"@,
        CANDIDATE_PORTS@[3]@ == "com.android.trusty.avb"@,
        CANDIDATE_PORTS@[4]@ == "com.android.trusty.hwbcc"@,
        CANDIDATE_PORTS@[5]@ == "com.android.trusty.hwkey"@,
        CANDIDATE_PORTS@[6]@ == "com.android.trusty.hwwsk"@,
        CANDIDATE_PORTS@[7]@ == "com.android.trusty.keymaster"@,
        CANDIDATE_PORTS@[8]@ == "com.android.trusty.keymaster.secure"@,
        CANDIDATE_PORTS@[9]@ == "com.android.trusty.keymint"@,
        CANDIDATE_PORTS@[10]@ == "com.android.trusty.gatekeeper"@,
        CANDIDATE_PORTS@[11]@ == "com.android.trusty.secure_storage"@,
        CANDIDATE_PORTS@[12]@ == "com.android.trusty.storage.client.td"@,
        CANDIDATE_PORTS@[13]@ == "com.android.trusty.storage.client.tp"@,
        CANDIDATE_PORTS@[14]@ == "com.android.trusty.storage.client.tdea"@,
        CANDIDATE_PORTS@[15]@ == "com.android.trusty.storage.proxy"@,
        CANDIDATE_PORTS@[16]@ == "com.android.trusty.system_state"@,
        CANDIDATE_PORTS@[17]@ == "com.android.trusty.metrics"@,
        CANDIDATE_PORTS@[18]@ == "com.android.trusty.gsa.hwmgr"@,
        CANDIDATE_PORTS@[19]@ == "com.android.trusty.gsa.hwmgr.tpu"@,
        CANDIDATE_PORTS@[20]@ == "com.android.trusty.gsa.hwmgr.aoc"@,
        CANDIDATE_PORTS@[21]@ == "com.android.trusty.gsa.boot"@,
        CANDIDATE_PORTS@[22]@ == "com.android.trusty.gsa.bootloader"@,
        CANDIDATE_PORTS@[23]@ == "com.google.trusty.gsa.boot_control"@,
        CANDIDATE_PORTS@[24]@ == "com.android.trusty.device_tree"@,
        DEFAULT_DEV@ == "/dev/trusty-ipc-dev0"@,
        TIPC_IOC_CONNECT == 0x4000_0000 + 8 * 0x1_0000 + 0x72 * 0x100 + 0x80,
        MAX_RESPONSE == 4096,
{
}

/// Connecting, from what opening the device and then binding the channel return: it gives up with
/// nothing to close if the device does not open; else it binds the very descriptor that was opened,
/// and closes that one before giving up if binding fails, and is connected through it if not.
pub proof fn law_connecting(opened: i32, bound: i32)
    ensures
        opened < 0 ==> connect_next(Attempt::Open, opened) == Connect::Fail(None),
        opened >= 0 ==> connect_next(Attempt::Open, opened) == Connect::Bind(opened),
        bound < 0 ==> connect_next(Attempt::Bind(opened), bound) == Connect::Fail(Some(opened)),
        bound >= 0 ==> connect_next(Attempt::Bind(opened), bound) == Connect::Connected(opened),
{
}

/// A write or a read failed exactly if it returned a negative number. A write sent as many bytes as
/// it returned. A response is the front of the buffer, as long as the read returned but no longer
/// than the buffer.
pub proof fn law_transfers(buf: Seq<u8>, returned: int)
    ensures
        sent_bytes(returned) is None <==> returned < 0,
        returned >= 0 ==> sent_bytes(returned) == Some(returned),
        response_read(buf, returned) is None <==> returned < 0,
        response_read(buf, returned) matches Some(r) ==> r.len() <= buf.len() && r.len() <= returned
            && (r.len() == buf.len() || r.len() == returned) && forall|i: int|
            0 <= i < r.len() ==> #[trigger] r[i] == buf[i],
{
}

/// A wait failed if it returned a negative number, timed out if it returned zero, and has something
/// to read otherwise.
pub proof fn law_waiting(returned: i32)
    ensures
        wait_outcome(returned) == Wait::Failed <==> returned < 0,
        wait_outcome(returned) == Wait::TimedOut <==> returned == 0,
        wait_outcome(returned) == Wait::Ready <==> returned > 0,
{
}

} // verus!
