//! The mainline A/B switch: the UFS attribute bBootLunEn (query IDN 0x00), written by a raw WRITE
//! ATTRIBUTE UPIU that is issued through the ufs-bsg endpoint.
//!
//! The Pixel kernel has a *writable* sysfs node for the attribute; mainline shows it read-only. The
//! bsg endpoint lets userspace issue the same WRITE ATTRIBUTE that the bootloader honours. The
//! request mirrors the kernel's `ufshcd_query_attr()` and `scsi_bsg_ufs.h`.
use crate::error::{Error, ErrorKind};
use crate::text::{hexadecimal, push_hexadecimal, push_signed, signed_decimal};
use vstd::prelude::*;

verus! {

/// The ufs-bsg endpoint.
pub const DEV: &'static str = "/dev/bsg/ufs-bsg0";

/// The ioctl that submits an [`SgIoV4`].
pub const SG_IO: u32 = 0x2285;

/// `Q`: an [`SgIoV4`] follows.
pub const SG_GUARD: i32 = 0x51;

pub const BSG_PROTOCOL_SCSI: u32 = 0;

pub const BSG_SUB_PROTOCOL_SCSI_TRANSPORT: u32 = 2;

/// How long the device may take, in milliseconds.
pub const SG_TIMEOUT_MS: u32 = 5000;

pub const UPIU_TRANSACTION_QUERY_REQ: u8 = 0x16;

/// The query function "standard write request".
pub const QUERY_FUNC_WRITE: u8 = 0x81;

pub const OPCODE_WRITE_ATTR: u8 = 0x4;

pub const IDN_BOOT_LU_EN: u8 = 0x00;

/// Size of a [`UfsBsgRequest`] in memory: a message code, a 3-word header and a 5-word query.
pub const REQUEST_LEN: u32 = 36;

/// Size of the reply in memory: a result, a length, a 3-word header and a 5-word query.
pub const REPLY_LEN: u32 = 40;

/// The header of a UPIU, 3 words long.
#[derive(Clone, Copy, Debug)]
pub struct UtpUpiuHeader {
    pub transaction_code: u8,
    pub flags: u8,
    pub lun: u8,
    pub task_tag: u8,
    pub iid_cmd_set_type: u8,
    pub query_function: u8,
    pub response: u8,
    pub status: u8,
    pub ehs_length: u8,
    pub device_information: u8,
    pub data_segment_length: u16,
}

/// The fields of a UPIU that are special to a query, 5 words long.
#[derive(Clone, Copy, Debug)]
pub struct UtpUpiuQuery {
    pub opcode: u8,
    pub idn: u8,
    pub index: u8,
    pub selector: u8,
    pub reserved_osf: u16,
    pub length: u16,
    /// The value as it stands on the wire, most significant byte first.
    pub value: [u8; 4],
    pub reserved: [u32; 2],
}

/// A query UPIU.
#[derive(Clone, Copy, Debug)]
pub struct UtpUpiuReq {
    pub header: UtpUpiuHeader,
    pub qr: UtpUpiuQuery,
}

/// What is handed to the ufs-bsg endpoint.
#[derive(Clone, Copy, Debug)]
pub struct UfsBsgRequest {
    pub msgcode: u32,
    pub upiu_req: UtpUpiuReq,
}

/// The kernel's `sg_io_v4`: where the request and the reply are in memory, and how to carry the
/// request out.
#[derive(Clone, Copy, Debug)]
pub struct SgIoV4 {
    pub guard: i32,
    pub protocol: u32,
    pub subprotocol: u32,
    pub request_len: u32,
    pub request: u64,
    pub request_tag: u64,
    pub request_attr: u32,
    pub request_priority: u32,
    pub request_extra: u32,
    pub max_response_len: u32,
    pub response: u64,
    pub dout_iovec_count: u32,
    pub dout_xfer_len: u32,
    pub din_iovec_count: u32,
    pub din_xfer_len: u32,
    pub dout_xferp: u64,
    pub din_xferp: u64,
    pub timeout: u32,
    pub flags: u32,
    pub usr_ptr: u64,
    pub spare_in: u32,
    pub driver_status: u32,
    pub transport_status: u32,
    pub device_status: u32,
    pub retry_delay: u32,
    pub info: u32,
    pub duration: u32,
    pub response_len: u32,
    pub din_resid: i32,
    pub dout_resid: i32,
    pub generated_tag: u64,
    pub spare_out: u32,
    pub padding: u32,
}

impl SgIoV4 {
    /// All fields zero.
    pub open spec fn zeroed() -> SgIoV4 {
        SgIoV4 {
            guard: 0,
            protocol: 0,
            subprotocol: 0,
            request_len: 0,
            request: 0,
            request_tag: 0,
            request_attr: 0,
            request_priority: 0,
            request_extra: 0,
            max_response_len: 0,
            response: 0,
            dout_iovec_count: 0,
            dout_xfer_len: 0,
            din_iovec_count: 0,
            din_xfer_len: 0,
            dout_xferp: 0,
            din_xferp: 0,
            timeout: 0,
            flags: 0,
            usr_ptr: 0,
            spare_in: 0,
            driver_status: 0,
            transport_status: 0,
            device_status: 0,
            retry_delay: 0,
            info: 0,
            duration: 0,
            response_len: 0,
            din_resid: 0,
            dout_resid: 0,
            generated_tag: 0,
            spare_out: 0,
            padding: 0,
        }
    }
}

impl Default for SgIoV4 {
    fn default() -> (h: Self)
        ensures
            h == SgIoV4::zeroed(),
    {
        SgIoV4 {
            guard: 0,
            protocol: 0,
            subprotocol: 0,
            request_len: 0,
            request: 0,
            request_tag: 0,
            request_attr: 0,
            request_priority: 0,
            request_extra: 0,
            max_response_len: 0,
            response: 0,
            dout_iovec_count: 0,
            dout_xfer_len: 0,
            din_iovec_count: 0,
            din_xfer_len: 0,
            dout_xferp: 0,
            din_xferp: 0,
            timeout: 0,
            flags: 0,
            usr_ptr: 0,
            spare_in: 0,
            driver_status: 0,
            transport_status: 0,
            device_status: 0,
            retry_delay: 0,
            info: 0,
            duration: 0,
            response_len: 0,
            din_resid: 0,
            dout_resid: 0,
            generated_tag: 0,
            spare_out: 0,
            padding: 0,
        }
    }
}

/// The header of a query request that writes, everything else zero.
pub open spec fn write_header() -> UtpUpiuHeader {
    UtpUpiuHeader {
        transaction_code: UPIU_TRANSACTION_QUERY_REQ,
        flags: 0,
        lun: 0,
        task_tag: 0,
        iid_cmd_set_type: 0,
        query_function: QUERY_FUNC_WRITE,
        response: 0,
        status: 0,
        ehs_length: 0,
        device_information: 0,
        data_segment_length: 0,
    }
}

/// The number whose bytes, most significant first, are `b`.
pub open spec fn be_number(b: Seq<u8>) -> int {
    ((b[0] * 256 + b[1]) * 256 + b[2]) * 256 + b[3]
}

impl UtpUpiuQuery {
    /// Whether this writes `value` to the attribute bBootLunEn, everything else zero.
    pub open spec fn writes_boot_lun(self, value: int) -> bool {
        &&& self.opcode == OPCODE_WRITE_ATTR
        &&& self.idn == IDN_BOOT_LU_EN
        &&& self.index == 0
        &&& self.selector == 0
        &&& self.reserved_osf == 0
        &&& self.length == 0
        &&& be_number(self.value@) == value
        &&& self.reserved@ == seq![0u32, 0u32]
    }
}

impl UtpUpiuReq {
    /// Whether all fields wider than a byte are zero, the value excepted, which is kept as bytes.
    /// The UPIU is then the same in memory on every machine.
    pub open spec fn is_plain(self) -> bool {
        &&& self.header.data_segment_length == 0
        &&& self.qr.reserved_osf == 0
        &&& self.qr.length == 0
        &&& self.qr.reserved@ == seq![0u32, 0u32]
    }

    /// The 8 words of a plain UPIU: 3 of the header, then 5 of the query.
    pub open spec fn laid_out(self) -> Seq<u8> {
        let h = self.header;
        let q = self.qr;
        seq![
            h.transaction_code, h.flags, h.lun, h.task_tag,
            h.iid_cmd_set_type, h.query_function, h.response, h.status,
            h.ehs_length, h.device_information, 0, 0,
            q.opcode, q.idn, q.index, q.selector,
            0, 0, 0, 0,
            q.value@[0], q.value@[1], q.value@[2], q.value@[3],
            0, 0, 0, 0,
            0, 0, 0, 0,
        ]
    }
}

impl UfsBsgRequest {
    /// Whether this is the request to write `value` to the attribute bBootLunEn.
    pub open spec fn writes_boot_lun(self, value: int) -> bool {
        &&& self.msgcode == UPIU_TRANSACTION_QUERY_REQ
        &&& self.upiu_req.header == write_header()
        &&& self.upiu_req.qr.writes_boot_lun(value)
    }
}

/// The bBootLunEn value for a slot: 1 for A (0), 2 for B (1).
pub open spec fn lun_number(slot: usize) -> u32 {
    if slot == 0 {
        1
    } else {
        2
    }
}

/// The bBootLunEn value for a slot.
pub fn lun_value(slot: usize) -> (v: u32)
    ensures
        v == lun_number(slot),
{
    if slot == 0 {
        1
    } else {
        2
    }
}

/// The bytes of `n`, most significant first.
fn be_bytes(n: u32) -> (b: [u8; 4])
    ensures
        be_number(b@) == n,
{
    [
        (n / 0x100_0000) as u8,
        (n / 0x1_0000 % 0x100) as u8,
        (n / 0x100 % 0x100) as u8,
        (n % 0x100) as u8,
    ]
}

/// The request that selects the boot LUN of `slot`.
pub fn set(slot: usize) -> (req: UfsBsgRequest)
    ensures
        req.writes_boot_lun(lun_number(slot) as int),
        req.upiu_req.is_plain(),
{
    UfsBsgRequest {
        msgcode: UPIU_TRANSACTION_QUERY_REQ as u32,
        upiu_req: UtpUpiuReq {
            header: UtpUpiuHeader {
                transaction_code: UPIU_TRANSACTION_QUERY_REQ,
                flags: 0,
                lun: 0,
                task_tag: 0,
                iid_cmd_set_type: 0,
                query_function: QUERY_FUNC_WRITE,
                response: 0,
                status: 0,
                ehs_length: 0,
                device_information: 0,
                data_segment_length: 0,
            },
            qr: UtpUpiuQuery {
                opcode: OPCODE_WRITE_ATTR,
                idn: IDN_BOOT_LU_EN,
                index: 0,
                selector: 0,
                reserved_osf: 0,
                length: 0,
                value: be_bytes(lun_value(slot)),
                reserved: [0, 0],
            },
        },
    }
}

/// A plain UPIU as it lies in memory, behind the message code of the request.
pub fn upiu_bytes(req: &UtpUpiuReq) -> (b: [u8; 32])
    requires
        req.is_plain(),
    ensures
        b@ == req.laid_out(),
{
    let h: UtpUpiuHeader = req.header;
    let q: UtpUpiuQuery = req.qr;
    [
        h.transaction_code, h.flags, h.lun, h.task_tag,
        h.iid_cmd_set_type, h.query_function, h.response, h.status,
        h.ehs_length, h.device_information, 0, 0,
        q.opcode, q.idn, q.index, q.selector,
        0, 0, 0, 0,
        q.value[0], q.value[1], q.value[2], q.value[3],
        0, 0, 0, 0,
        0, 0, 0, 0,
    ]
}

/// The request that selects the boot LUN of `slot` is a plain UPIU, and this is all of it, byte for
/// byte. With the message code in front it is as long as the envelope says.
pub proof fn law_request_bytes(slot: usize, req: UfsBsgRequest)
    requires
        req.writes_boot_lun(lun_number(slot) as int),
    ensures
        req.msgcode == 0x16,
        req.upiu_req.is_plain(),
        req.upiu_req.laid_out() == seq![
            0x16u8, 0, 0, 0,
            0, 0x81, 0, 0,
            0, 0, 0, 0,
            0x04, 0x00, 0, 0,
            0, 0, 0, 0,
            0, 0, 0, if slot == 0 { 1u8 } else { 2u8 },
            0, 0, 0, 0,
            0, 0, 0, 0,
        ],
        4 + req.upiu_req.laid_out().len() == REQUEST_LEN,
{
}

/// The envelope of a request at address `request` whose reply goes to address `response`.
pub open spec fn envelope_spec(request: u64, response: u64) -> SgIoV4 {
    SgIoV4 {
        guard: SG_GUARD,
        protocol: BSG_PROTOCOL_SCSI,
        subprotocol: BSG_SUB_PROTOCOL_SCSI_TRANSPORT,
        request_len: REQUEST_LEN,
        request,
        max_response_len: REPLY_LEN,
        response,
        timeout: SG_TIMEOUT_MS,
        ..SgIoV4::zeroed()
    }
}

/// The envelope of a request at address `request` whose reply goes to address `response`.
pub fn envelope(request: u64, response: u64) -> (h: SgIoV4)
    ensures
        h == envelope_spec(request, response),
{
    let mut h: SgIoV4 = Default::default();
    h.guard = SG_GUARD;
    h.protocol = BSG_PROTOCOL_SCSI;
    h.subprotocol = BSG_SUB_PROTOCOL_SCSI_TRANSPORT;
    h.request_len = REQUEST_LEN;
    h.request = request;
    h.max_response_len = REPLY_LEN;
    h.response = response;
    h.timeout = SG_TIMEOUT_MS;
    h
}

/// How a submitted request ended.
#[derive(Debug)]
pub enum Completion {
    /// The submission itself failed; the operating system's error says why.
    NotSubmitted,
    /// The device answered with an error.
    Refused(Error),
    /// The attribute was written.
    Written,
}

/// The 32-bit two's complement of `n`.
pub open spec fn twos_complement(n: i32) -> nat {
    if n < 0 {
        (n + 0x1_0000_0000) as nat
    } else {
        n as nat
    }
}

/// The text of the error for a reply with the result `result`.
pub open spec fn refusal_text(result: i32) -> Seq<char> {
    "ufs-bsg WRITE ATTRIBUTE bBootLunEn failed: reply result = "@ + signed_decimal(result as int)
        + " (0x"@ + hexadecimal(twos_complement(result)) + ")"@
}

/// Whether `c` is how a submission ended whose ioctl returned `rc` and whose reply holds `result`.
pub open spec fn ends_as(rc: i32, result: i32, c: Completion) -> bool {
    match c {
        Completion::NotSubmitted => rc < 0,
        Completion::Refused(e) => rc >= 0 && result != 0 && e.says(
            ErrorKind::Other,
            refusal_text(result),
        ),
        Completion::Written => rc >= 0 && result == 0,
    }
}

/// Judge a submission by what the ioctl returned and by the result in the reply.
pub fn complete(rc: i32, result: i32) -> (c: Completion)
    ensures
        match c {
            Completion::NotSubmitted => rc < 0,
            Completion::Refused(e) => rc >= 0 && result != 0 && e.says(
                ErrorKind::Other,
                refusal_text(result),
            ),
            Completion::Written => rc >= 0 && result == 0,
        },
        ends_as(rc, result, c),
{
    if rc < 0 {
        return Completion::NotSubmitted;
    }
    if result != 0 {
        let bits: u32 = if result < 0 {
            (result as i64 + 0x1_0000_0000) as u32
        } else {
            result as u32
        };
        let mut message = "ufs-bsg WRITE ATTRIBUTE bBootLunEn failed: reply result = ".to_owned();
        push_signed(&mut message, result);
        message.append(" (0x");
        push_hexadecimal(&mut message, bits);
        message.append(")");
        return Completion::Refused(Error { kind: ErrorKind::Other, message });
    }
    Completion::Written
}

/// The value for slot A is 1, and for any other slot 2.
pub proof fn law_lun_number(slot: usize)
    ensures
        slot == 0 ==> lun_number(slot) == 1,
        slot != 0 ==> lun_number(slot) == 2,
{
}

/// Four bytes, most significant first, are read as a number in the usual way.
pub proof fn law_be_number(b: Seq<u8>)
    requires
        b.len() == 4,
    ensures
        be_number(b) == 0x100_0000 * b[0] + 0x1_0000 * b[1] + 0x100 * b[2] + b[3],
{
}

/// Where each field of a plain UPIU lies, counted in bytes from its start; everything between them
/// is zero.
pub proof fn law_upiu_layout(req: UtpUpiuReq)
    ensures
        ({
            let b = req.laid_out();
            &&& b.len() == 32
            &&& b[0] == req.header.transaction_code
            &&& b[1] == req.header.flags
            &&& b[2] == req.header.lun
            &&& b[3] == req.header.task_tag
            &&& b[4] == req.header.iid_cmd_set_type
            &&& b[5] == req.header.query_function
            &&& b[6] == req.header.response
            &&& b[7] == req.header.status
            &&& b[8] == req.header.ehs_length
            &&& b[9] == req.header.device_information
            &&& b[12] == req.qr.opcode
            &&& b[13] == req.qr.idn
            &&& b[14] == req.qr.index
            &&& b[15] == req.qr.selector
            &&& b.subrange(20, 24) == req.qr.value@
            &&& forall|i: int|
                10 <= i < 12 || 16 <= i < 20 || 24 <= i < 32 ==> #[trigger] b[i] == 0
        }),
        req.is_plain() <==> req.header.data_segment_length == 0 && req.qr.reserved_osf == 0
            && req.qr.length == 0 && req.qr.reserved@ == seq![0u32, 0u32],
{
    assert(req.laid_out().subrange(20, 24) =~= req.qr.value@);
}

/// Every field of the envelope: the two addresses as given, the sizes of request and reply, the
/// guard, the SCSI transport protocol, a timeout of five seconds, and zero everywhere else.
pub proof fn law_envelope(request: u64, response: u64)
    ensures
        ({
            let h = envelope_spec(request, response);
            &&& h.guard == 0x51
            &&& h.protocol == 0
            &&& h.subprotocol == 2
            &&& h.request_len == 36
            &&& h.request == request
            &&& h.request_tag == 0
            &&& h.request_attr == 0
            &&& h.request_priority == 0
            &&& h.request_extra == 0
            &&& h.max_response_len == 40
            &&& h.response == response
            &&& h.dout_iovec_count == 0
            &&& h.dout_xfer_len == 0
            &&& h.din_iovec_count == 0
            &&& h.din_xfer_len == 0
            &&& h.dout_xferp == 0
            &&& h.din_xferp == 0
            &&& h.timeout == 5000
            &&& h.flags == 0
            &&& h.usr_ptr == 0
            &&& h.spare_in == 0
            &&& h.driver_status == 0
            &&& h.transport_status == 0
            &&& h.device_status == 0
            &&& h.retry_delay == 0
            &&& h.info == 0
            &&& h.duration == 0
            &&& h.response_len == 0
            &&& h.din_resid == 0
            &&& h.dout_resid == 0
            &&& h.generated_tag == 0
            &&& h.spare_out == 0
            &&& h.padding == 0
        }),
{
}

/// The report of a refused request shows the result twice: as a signed decimal number, and as the
/// hexadecimal number of its 32 bits.
pub proof fn law_refusal_text(result: i32)
    ensures
        refusal_text(result) == "ufs-bsg WRITE ATTRIBUTE bBootLunEn failed: reply result = "@
            + signed_decimal(result as int) + " (0x"@ + hexadecimal(
            (if result < 0 {
                0x1_0000_0000 + result
            } else {
                result as int
            }) as nat,
        ) + ")"@,
{
}

/// Where requests are submitted, and how.
pub proof fn law_places()
    ensures
        DEV@ == "/dev/bsg/ufs-bsg0"@,
        SG_IO == 0x2285,
{
}

/// A submission ends in one way only: not submitted if the ioctl failed, whatever the reply holds;
/// else written if the result is zero, and refused, with the result in the text, if it is not.
pub proof fn law_completion(rc: i32, result: i32, c: Completion)
    requires
        ends_as(rc, result, c),
    ensures
        rc < 0 ==> c is NotSubmitted,
        rc >= 0 && result == 0 ==> c is Written,
        rc >= 0 && result != 0 ==> (c matches Completion::Refused(e) && e.kind == ErrorKind::Other
            && e.message@ == refusal_text(result)),
{
}

/// A blank envelope is zero in every field.
pub proof fn law_zeroed()
    ensures
        ({
            let h = SgIoV4::zeroed();
            &&& h.guard == 0
            &&& h.protocol == 0
            &&& h.subprotocol == 0
            &&& h.request_len == 0
            &&& h.request == 0
            &&& h.request_tag == 0
            &&& h.request_attr == 0
            &&& h.request_priority == 0
            &&& h.request_extra == 0
            &&& h.max_response_len == 0
            &&& h.response == 0
            &&& h.dout_iovec_count == 0
            &&& h.dout_xfer_len == 0
            &&& h.din_iovec_count == 0
            &&& h.din_xfer_len == 0
            &&& h.dout_xferp == 0
            &&& h.din_xferp == 0
            &&& h.timeout == 0
            &&& h.flags == 0
            &&& h.usr_ptr == 0
            &&& h.spare_in == 0
            &&& h.driver_status == 0
            &&& h.transport_status == 0
            &&& h.device_status == 0
            &&& h.retry_delay == 0
            &&& h.info == 0
            &&& h.duration == 0
            &&& h.response_len == 0
            &&& h.din_resid == 0
            &&& h.dout_resid == 0
            &&& h.generated_tag == 0
            &&& h.spare_out == 0
            &&& h.padding == 0
        }),
{
}

} // verus!
