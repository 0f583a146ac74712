//! Parsing and bookkeeping for the `devinfo` partition's A/B boot flags.
//!
//! The partition starts with a 128-byte struct: the magic `DEVI`, a little-endian major and minor
//! version, and, at offset 48 (slot A) and 52 (slot B), one 4-byte record per slot:
//!
//! - byte 0: retry count
//! - byte 1: bit 0 unbootable, bit 1 successful, bit 2 active, bit 3 fastboot ok
//!
//! Editing these flags is bookkeeping. The slot switch itself is the UFS boot LUN (see
//! [`crate::bootlun`]).
use crate::error::{Error, ErrorKind};
use vstd::prelude::*;

verus! {

/// Where the devinfo partition is found.
pub const DEVINFO_PATH: &'static str = "/dev/disk/by-partlabel/devinfo";

/// The magic `DEVI` that a devinfo image starts with.
pub const MAGIC: [u8; 4] = [0x44, 0x45, 0x56, 0x49];

/// Offset of slot A's record.
pub const SLOT_A_OFFSET: usize = 48;

/// Length of one slot's record.
pub const SLOT_LEN: usize = 4;

/// Shortest image that holds both slots' records.
pub const MIN_LEN: usize = SLOT_A_OFFSET + 2 * SLOT_LEN;

/// Retry budget of a slot that was just made active or confirmed good.
pub const FULL_RETRIES: u8 = 7;

pub const F_UNBOOTABLE: u8 = 0b0001;

pub const F_SUCCESSFUL: u8 = 0b0010;

pub const F_ACTIVE: u8 = 0b0100;

pub const F_FASTBOOT_OK: u8 = 0b1000;

/// Per-slot boot flags.
#[derive(Copy, Clone, Debug, PartialEq, Eq, Structural)]
pub struct SlotData {
    pub retry_count: u8,
    pub unbootable: bool,
    pub successful: bool,
    pub active: bool,
    pub fastboot_ok: bool,
}

impl SlotData {
    /// The flags held by a record whose first byte is `retry` and whose second byte is `flags`.
    pub open spec fn decoded(retry: u8, flags: u8) -> SlotData {
        SlotData {
            retry_count: retry,
            unbootable: flags & F_UNBOOTABLE != 0,
            successful: flags & F_SUCCESSFUL != 0,
            active: flags & F_ACTIVE != 0,
            fastboot_ok: flags & F_FASTBOOT_OK != 0,
        }
    }

    /// Decode a slot record. Only its first two bytes matter.
    pub fn from_bytes(d: &[u8]) -> (s: Self)
        requires
            d@.len() >= 2,
        ensures
            s == SlotData::decoded(d@[0], d@[1]),
    {
        Self {
            retry_count: d[0],
            unbootable: d[1] & F_UNBOOTABLE != 0,
            successful: d[1] & F_SUCCESSFUL != 0,
            active: d[1] & F_ACTIVE != 0,
            fastboot_ok: d[1] & F_FASTBOOT_OK != 0,
        }
    }
}

/// Parsed view of the devinfo header and both slots.
#[derive(Copy, Clone, Debug)]
pub struct Devinfo {
    pub major_version: u16,
    pub minor_version: u16,
    pub slots: [SlotData; 2],
}

/// Offset of the record of `slot` (0 = A, 1 = B).
pub open spec fn record_at(slot: int) -> int {
    SLOT_A_OFFSET + slot * SLOT_LEN
}

/// The flags that the image `b` holds for `slot`.
pub open spec fn slot_in(b: Seq<u8>, slot: int) -> SlotData {
    SlotData::decoded(b[record_at(slot)], b[record_at(slot) + 1])
}

/// The little-endian 16-bit number at offset `at` of `b`.
pub open spec fn le16_at(b: Seq<u8>, at: int) -> int {
    b[at] + 256 * b[at + 1]
}

/// Whether `b` starts with the magic `DEVI`.
pub open spec fn has_magic(b: Seq<u8>) -> bool {
    b.len() >= 4 && b.take(4) == MAGIC@
}

/// Whether `b` is a devinfo image: long enough for both slots, and with the right magic.
pub open spec fn is_devinfo(b: Seq<u8>) -> bool {
    b.len() >= MIN_LEN && has_magic(b)
}

/// Whether `e` is the error owed for `b`, which is no devinfo image: a short image is reported as
/// short, whatever its first bytes are.
pub open spec fn is_refusal(b: Seq<u8>, e: Error) -> bool {
    if b.len() < MIN_LEN {
        e.says(ErrorKind::InvalidData, "devinfo too short"@)
    } else {
        e.says(ErrorKind::InvalidData, "bad devinfo magic (expected DEVI)"@)
    }
}

/// Accept exactly the devinfo images.
fn check(buf: &[u8]) -> (r: Result<(), Error>)
    ensures
        match r {
            Ok(_) => is_devinfo(buf@),
            Err(e) => !is_devinfo(buf@) && is_refusal(buf@, e),
        },
{
    if buf.len() < MIN_LEN {
        return Err(Error::new(ErrorKind::InvalidData, "devinfo too short"));
    }
    let magic: [u8; 4] = MAGIC;
    if !(buf[0] == magic[0] && buf[1] == magic[1] && buf[2] == magic[2] && buf[3] == magic[3]) {
        assert(forall|i: int| 0 <= i < 4 ==> buf@.take(4)[i] == buf@[i]);
        return Err(Error::new(ErrorKind::InvalidData, "bad devinfo magic (expected DEVI)"));
    }
    assert(buf@.take(4) == MAGIC@);
    Ok(())
}

/// The 16-bit number whose little-endian bytes are `lo`, `hi`.
fn le16(lo: u8, hi: u8) -> (n: u16)
    ensures
        n == lo + 256 * hi,
{
    lo as u16 + 256 * (hi as u16)
}

impl Devinfo {
    /// Whether this is what the image `b` says.
    pub open spec fn describes(self, b: Seq<u8>) -> bool {
        &&& self.major_version == le16_at(b, 4)
        &&& self.minor_version == le16_at(b, 6)
        &&& self.slots@ == seq![slot_in(b, 0), slot_in(b, 1)]
    }

    /// Parse a devinfo image.
    pub fn parse(buf: &[u8]) -> (r: Result<Self, Error>)
        ensures
            match r {
                Ok(d) => is_devinfo(buf@) && d.describes(buf@),
                Err(e) => !is_devinfo(buf@) && is_refusal(buf@, e),
            },
    {
        check(buf)?;
        let a: usize = SLOT_A_OFFSET;
        let b: usize = SLOT_A_OFFSET + SLOT_LEN;
        Ok(
            Self {
                major_version: le16(buf[4], buf[5]),
                minor_version: le16(buf[6], buf[7]),
                slots: [
                    SlotData::from_bytes(&buf[a..a + SLOT_LEN]),
                    SlotData::from_bytes(&buf[b..b + SLOT_LEN]),
                ],
            },
        )
    }
}

/// Offset of the record of `slot` (0 = A, 1 = B).
fn slot_offset(slot: usize) -> (at: usize)
    requires
        slot < 2,
    ensures
        at == record_at(slot as int),
{
    SLOT_A_OFFSET + slot * SLOT_LEN
}

/// The flag byte `byte` with its four flags replaced by those of `s`; its upper four bits, which
/// mean nothing here, are kept.
pub open spec fn with_flags(byte: u8, s: SlotData) -> u8 {
    (byte & 0b1111_0000) | (if s.unbootable {
        F_UNBOOTABLE
    } else {
        0
    }) | (if s.successful {
        F_SUCCESSFUL
    } else {
        0
    }) | (if s.active {
        F_ACTIVE
    } else {
        0
    }) | (if s.fastboot_ok {
        F_FASTBOOT_OK
    } else {
        0
    })
}

/// The image `b` with the retry count and the flags of `slot` replaced by those of `s`.
pub open spec fn put_slot(b: Seq<u8>, slot: int, s: SlotData) -> Seq<u8> {
    let t = record_at(slot);
    b.update(t, s.retry_count).update(t + 1, with_flags(b[t + 1], s))
}

/// What becomes of a slot `s` that is made the active one.
pub open spec fn activated(s: SlotData, mark_successful: bool) -> SlotData {
    SlotData {
        retry_count: FULL_RETRIES,
        unbootable: false,
        successful: mark_successful,
        active: true,
        fastboot_ok: s.fastboot_ok,
    }
}

/// What becomes of a slot `s` when the other one is made active.
pub open spec fn deactivated(s: SlotData) -> SlotData {
    SlotData { active: false, ..s }
}

/// What becomes of a slot `s` that is confirmed good.
pub open spec fn confirmed(s: SlotData) -> SlotData {
    SlotData { retry_count: FULL_RETRIES, unbootable: false, successful: true, ..s }
}

/// The image `b` once `slot` was made the active one.
pub open spec fn set_active(b: Seq<u8>, slot: int, mark_successful: bool) -> Seq<u8> {
    put_slot(
        put_slot(b, slot, activated(slot_in(b, slot), mark_successful)),
        1 - slot,
        deactivated(slot_in(b, 1 - slot)),
    )
}

/// The image `b` once `slot` was marked successful.
pub open spec fn mark_successful(b: Seq<u8>, slot: int) -> Seq<u8> {
    put_slot(b, slot, confirmed(slot_in(b, slot)))
}

/// The bit operations on a flag byte do what [`with_flags`] says.
proof fn lemma_flag_bits(retry: u8, byte: u8)
    ensures
        with_flags(byte, activated(SlotData::decoded(retry, byte), false)) == (byte & !F_UNBOOTABLE
            & !F_SUCCESSFUL) | F_ACTIVE,
        with_flags(byte, activated(SlotData::decoded(retry, byte), true)) == (byte & !F_UNBOOTABLE
            & !F_SUCCESSFUL) | F_ACTIVE | F_SUCCESSFUL,
        with_flags(byte, deactivated(SlotData::decoded(retry, byte))) == byte & !F_ACTIVE,
        with_flags(byte, confirmed(SlotData::decoded(retry, byte))) == (byte & !F_UNBOOTABLE)
            | F_SUCCESSFUL,
{
    let u: u8 = if byte & 1 != 0 { 1 } else { 0 };
    let s: u8 = if byte & 2 != 0 { 2 } else { 0 };
    let a: u8 = if byte & 4 != 0 { 4 } else { 0 };
    let f: u8 = if byte & 8 != 0 { 8 } else { 0 };
    assert(u == byte & 1 && s == byte & 2 && a == byte & 4 && f == byte & 8) by {
        assert(byte & 1 == 0 || byte & 1 == 1) by (bit_vector);
        assert(byte & 2 == 0 || byte & 2 == 2) by (bit_vector);
        assert(byte & 4 == 0 || byte & 4 == 4) by (bit_vector);
        assert(byte & 8 == 0 || byte & 8 == 8) by (bit_vector);
    }
    assert({
        &&& (byte & 0xf0) | 0 | 0 | 4 | f == (byte & !1u8 & !2u8) | 4
        &&& (byte & 0xf0) | 0 | 2 | 4 | f == (byte & !1u8 & !2u8) | 4 | 2
        &&& (byte & 0xf0) | u | s | 0 | f == byte & !4u8
        &&& (byte & 0xf0) | 0 | 2 | a | f == (byte & !1u8) | 2
    }) by (bit_vector)
        requires
            u == byte & 1,
            s == byte & 2,
            a == byte & 4,
            f == byte & 8,
    ;
}

/// A flag byte written by [`with_flags`] reads back as the flags that were written.
proof fn lemma_flags_read_back(byte: u8, s: SlotData)
    ensures
        SlotData::decoded(s.retry_count, with_flags(byte, s)) == s,
        with_flags(byte, SlotData::decoded(s.retry_count, byte)) == byte,
        forall|later: SlotData| #[trigger]
            with_flags(with_flags(byte, s), later) == with_flags(byte, later),
{
    let u: u8 = if s.unbootable { 1 } else { 0 };
    let c: u8 = if s.successful { 2 } else { 0 };
    let a: u8 = if s.active { 4 } else { 0 };
    let f: u8 = if s.fastboot_ok { 8 } else { 0 };
    let w: u8 = (byte & 0xf0) | u | c | a | f;
    assert(w & 1 == u && w & 2 == c && w & 4 == a && w & 8 == f && w & 0xf0 == byte & 0xf0)
        by (bit_vector)
        requires
            w == (byte & 0xf0) | u | c | a | f,
            u == 0 || u == 1,
            c == 0 || c == 2,
            a == 0 || a == 4,
            f == 0 || f == 8,
    ;
    assert((byte & 0xf0) | (byte & 1) | (byte & 2) | (byte & 4) | (byte & 8) == byte)
        by (bit_vector);
    assert(byte & 1 == 0 || byte & 1 == 1) by (bit_vector);
    assert(byte & 2 == 0 || byte & 2 == 2) by (bit_vector);
    assert(byte & 4 == 0 || byte & 4 == 4) by (bit_vector);
    assert(byte & 8 == 0 || byte & 8 == 8) by (bit_vector);
}

/// In place, make `slot` the active boot slot: a full retry budget, active and bootable; the other
/// slot loses its active flag.
///
/// The slot is **not** marked successful, and a stale mark is cleared: a freshly switched slot is
/// unconfirmed, so the bootloader counts its retries down and falls back to the other slot if it
/// never boots. [`apply_mark_successful`] commits it after a good boot. With `mark_successful` it
/// is marked at once, which defeats that fallback; this is for manual recovery only.
///
/// All other bytes are left as they are, and so is an image that is refused.
pub fn apply_set_active(buf: &mut [u8], slot: usize, mark_successful: bool) -> (r: Result<(), Error>)
    requires
        is_devinfo(old(buf)@) ==> slot < 2,
    ensures
        match r {
            Ok(_) => {
                &&& is_devinfo(old(buf)@)
                &&& final(buf)@ == set_active(old(buf)@, slot as int, mark_successful)
            },
            Err(e) => {
                &&& !is_devinfo(old(buf)@)
                &&& is_refusal(old(buf)@, e)
                &&& final(buf)@ == old(buf)@
            },
        },
{
    check(buf)?;
    let t: usize = slot_offset(slot);
    let o: usize = slot_offset((slot + 1) % 2);
    proof {
        lemma_flag_bits(buf@[t as int], buf@[t + 1]);
        lemma_flag_bits(buf@[o as int], buf@[o + 1]);
    }
    buf[t] = FULL_RETRIES;
    let mut flags: u8 = (buf[t + 1] & !F_UNBOOTABLE & !F_SUCCESSFUL) | F_ACTIVE;
    if mark_successful {
        flags = flags | F_SUCCESSFUL;
    }
    buf[t + 1] = flags;
    buf[o + 1] = buf[o + 1] & !F_ACTIVE;
    Ok(())
}

/// In place, mark `slot` successful: a full retry budget, bootable and successful. The active flag
/// of neither slot is touched: run on the *running* slot after a good boot, this commits it and
/// leaves the other slot as the one to fall back to.
pub fn apply_mark_successful(buf: &mut [u8], slot: usize) -> (r: Result<(), Error>)
    requires
        is_devinfo(old(buf)@) ==> slot < 2,
    ensures
        match r {
            Ok(_) => {
                &&& is_devinfo(old(buf)@)
                &&& final(buf)@ == mark_successful(old(buf)@, slot as int)
            },
            Err(e) => {
                &&& !is_devinfo(old(buf)@)
                &&& is_refusal(old(buf)@, e)
                &&& final(buf)@ == old(buf)@
            },
        },
{
    check(buf)?;
    let t: usize = slot_offset(slot);
    proof {
        lemma_flag_bits(buf@[t as int], buf@[t + 1]);
    }
    buf[t] = FULL_RETRIES;
    buf[t + 1] = (buf[t + 1] & !F_UNBOOTABLE) | F_SUCCESSFUL;
    Ok(())
}

/// What is put into a slot's record is read back from it, and nothing else changes: not the other
/// slot, nor any byte outside the two that were written. What was in the record before, flags that
/// mean nothing here excepted, leaves no trace, and putting back what is there changes nothing.
pub proof fn law_put_slot(b: Seq<u8>, slot: int, s: SlotData)
    requires
        is_devinfo(b),
        0 <= slot < 2,
    ensures
        is_devinfo(put_slot(b, slot, s)),
        put_slot(b, slot, s).len() == b.len(),
        slot_in(put_slot(b, slot, s), slot) == s,
        slot_in(put_slot(b, slot, s), 1 - slot) == slot_in(b, 1 - slot),
        forall|i: int|
            0 <= i < b.len() && i != record_at(slot) && i != record_at(slot) + 1
                ==> #[trigger] put_slot(b, slot, s)[i] == b[i],
        forall|later: SlotData| #[trigger]
            put_slot(put_slot(b, slot, s), slot, later) == put_slot(b, slot, later),
        put_slot(b, slot, slot_in(b, slot)) == b,
{
    let t = record_at(slot);
    let w = put_slot(b, slot, s);
    lemma_flags_read_back(b[t + 1], s);
    lemma_flags_read_back(b[t + 1], slot_in(b, slot));
    assert(w.take(4) == b.take(4));
    assert forall|later: SlotData| #[trigger] put_slot(w, slot, later) == put_slot(b, slot, later) by {
        assert(with_flags(w[t + 1], later) == with_flags(b[t + 1], later));
        assert(put_slot(w, slot, later) =~= put_slot(b, slot, later));
    }
    assert(put_slot(b, slot, slot_in(b, slot)) =~= b);
}

/// Records of different slots are independent: the order in which they are written is immaterial.
pub proof fn law_put_slots_commute(b: Seq<u8>, slot: int, s: SlotData, other: SlotData)
    requires
        is_devinfo(b),
        0 <= slot < 2,
    ensures
        put_slot(put_slot(b, slot, s), 1 - slot, other) == put_slot(
            put_slot(b, 1 - slot, other),
            slot,
            s,
        ),
{
    assert(put_slot(put_slot(b, slot, s), 1 - slot, other) =~= put_slot(
        put_slot(b, 1 - slot, other),
        slot,
        s,
    ));
}

/// Making a slot active leaves exactly that slot active, with a full retry budget, bootable, and
/// successful only if that was asked for. The other slot keeps everything but its active flag, so
/// it stays what the bootloader falls back to. The image stays a devinfo image with the same
/// versions, and only the slot's first two bytes and the other slot's flag byte change.
pub proof fn law_set_active(b: Seq<u8>, slot: int, mark: bool)
    requires
        is_devinfo(b),
        0 <= slot < 2,
    ensures
        is_devinfo(set_active(b, slot, mark)),
        set_active(b, slot, mark).len() == b.len(),
        slot_in(set_active(b, slot, mark), slot) == activated(slot_in(b, slot), mark),
        slot_in(set_active(b, slot, mark), 1 - slot) == deactivated(slot_in(b, 1 - slot)),
        forall|i: int|
            0 <= i < 2 ==> (#[trigger] slot_in(set_active(b, slot, mark), i).active <==> i == slot),
        le16_at(set_active(b, slot, mark), 4) == le16_at(b, 4),
        le16_at(set_active(b, slot, mark), 6) == le16_at(b, 6),
        forall|i: int|
            0 <= i < b.len() && i != record_at(slot) && i != record_at(slot) + 1 && i != record_at(
                1 - slot,
            ) + 1 ==> #[trigger] set_active(b, slot, mark)[i] == b[i],
{
    let first = put_slot(b, slot, activated(slot_in(b, slot), mark));
    law_put_slot(b, slot, activated(slot_in(b, slot), mark));
    law_put_slot(first, 1 - slot, deactivated(slot_in(b, 1 - slot)));
    assert(set_active(b, slot, mark)[record_at(1 - slot)] == b[record_at(1 - slot)]);
}

/// Marking a slot successful gives it a full retry budget and makes it bootable and successful. It
/// leaves the active flag of both slots, the whole record of the other slot and every other byte
/// as they were.
pub proof fn law_mark_successful(b: Seq<u8>, slot: int)
    requires
        is_devinfo(b),
        0 <= slot < 2,
    ensures
        is_devinfo(mark_successful(b, slot)),
        mark_successful(b, slot).len() == b.len(),
        slot_in(mark_successful(b, slot), slot) == confirmed(slot_in(b, slot)),
        slot_in(mark_successful(b, slot), 1 - slot) == slot_in(b, 1 - slot),
        forall|i: int|
            0 <= i < 2 ==> #[trigger] slot_in(mark_successful(b, slot), i).active == slot_in(
                b,
                i,
            ).active,
        forall|i: int|
            0 <= i < b.len() && i != record_at(slot) && i != record_at(slot) + 1
                ==> #[trigger] mark_successful(b, slot)[i] == b[i],
{
    law_put_slot(b, slot, confirmed(slot_in(b, slot)));
}

/// Switching to a slot and then confirming it gives, byte for byte, what switching to it with
/// immediate trust gives.
pub proof fn law_switch_then_confirm(b: Seq<u8>, slot: int)
    requires
        is_devinfo(b),
        0 <= slot < 2,
    ensures
        mark_successful(set_active(b, slot, false), slot) == set_active(b, slot, true),
{
    let unsure = activated(slot_in(b, slot), false);
    let sure = activated(slot_in(b, slot), true);
    let other = deactivated(slot_in(b, 1 - slot));
    law_set_active(b, slot, false);
    law_put_slot(b, slot, unsure);
    law_put_slots_commute(b, slot, unsure, other);
    law_put_slots_commute(b, slot, sure, other);
    law_put_slot(b, 1 - slot, other);
    law_put_slot(put_slot(b, 1 - slot, other), slot, unsure);
}

/// Doing either update twice is doing it once.
pub proof fn law_updates_idempotent(b: Seq<u8>, slot: int, mark: bool)
    requires
        is_devinfo(b),
        0 <= slot < 2,
    ensures
        set_active(set_active(b, slot, mark), slot, mark) == set_active(b, slot, mark),
        mark_successful(mark_successful(b, slot), slot) == mark_successful(b, slot),
{
    let once = set_active(b, slot, mark);
    law_set_active(b, slot, mark);
    law_put_slot(once, slot, slot_in(once, slot));
    law_put_slot(once, 1 - slot, slot_in(once, 1 - slot));
    law_mark_successful(b, slot);
    law_put_slot(mark_successful(b, slot), slot, slot_in(mark_successful(b, slot), slot));
}

/// A switch is undone by switching back: whatever was switched to in between, the slot set last is
/// the only active one.
pub proof fn law_switch_back(b: Seq<u8>, slot: int, mark: bool, mark_back: bool)
    requires
        is_devinfo(b),
        0 <= slot < 2,
    ensures
        ({
            let back = set_active(set_active(b, 1 - slot, mark), slot, mark_back);
            &&& is_devinfo(back)
            &&& slot_in(back, slot) == activated(slot_in(b, slot), mark_back)
            &&& slot_in(back, 1 - slot) == deactivated(activated(slot_in(b, 1 - slot), mark))
        }),
{
    law_set_active(b, 1 - slot, mark);
    law_set_active(set_active(b, 1 - slot, mark), slot, mark_back);
}

/// The slot that the letter `c` names, in either case.
pub open spec fn slot_named(c: char) -> Option<usize> {
    if c == 'a' || c == 'A' {
        Some(0)
    } else if c == 'b' || c == 'B' {
        Some(1)
    } else {
        None
    }
}

/// The slot that a letter names (a/A is 0, b/B is 1).
pub fn parse_slot(c: char) -> (r: Result<usize, Error>)
    ensures
        match r {
            Ok(slot) => slot_named(c) == Some(slot),
            Err(e) => slot_named(c) is None && e.says(
                ErrorKind::InvalidInput,
                "slot must be a or b"@,
            ),
        },
{
    match c {
        'a' | 'A' => Ok(0),
        'b' | 'B' => Ok(1),
        _ => Err(Error::new(ErrorKind::InvalidInput, "slot must be a or b")),
    }
}

/// What an image is accepted for, by its bytes: at least 56 of them, the first four `DEVI`. One that
/// is refused is refused as too short if it is, and for its magic otherwise.
pub proof fn law_accepted(b: Seq<u8>, e: Error)
    ensures
        is_devinfo(b) <==> b.len() >= 56 && b[0] == 0x44 && b[1] == 0x45 && b[2] == 0x56 && b[3]
            == 0x49,
        is_refusal(b, e) ==> e.kind == ErrorKind::InvalidData && e.message@ == if b.len() < 56 {
            "devinfo too short"@
        } else {
            "bad devinfo magic (expected DEVI)"@
        },
{
    if b.len() >= 56 {
        let m = b.take(4);
        assert(m[0] == b[0] && m[1] == b[1] && m[2] == b[2] && m[3] == b[3]);
        if b[0] == 0x44 && b[1] == 0x45 && b[2] == 0x56 && b[3] == 0x49 {
            assert(m =~= MAGIC@);
        }
    }
}

/// What the two bytes of a record mean, by their numbers: the first is the retry count, and the
/// flags are the binary digits of the second, unbootable the lowest.
pub proof fn law_record_meaning(retry: u8, flags: u8)
    ensures
        ({
            let s = SlotData::decoded(retry, flags);
            &&& s.retry_count == retry
            &&& s.unbootable <==> flags % 2 == 1
            &&& s.successful <==> flags / 2 % 2 == 1
            &&& s.active <==> flags / 4 % 2 == 1
            &&& s.fastboot_ok <==> flags / 8 % 2 == 1
        }),
{
    assert({
        &&& (flags & 1 != 0 <==> flags % 2 == 1)
        &&& (flags & 2 != 0 <==> flags / 2 % 2 == 1)
        &&& (flags & 4 != 0 <==> flags / 4 % 2 == 1)
        &&& (flags & 8 != 0 <==> flags / 8 % 2 == 1)
    }) by (bit_vector);
}

/// What a parsed image says, by the bytes: the versions are the little-endian numbers at 4 and 6;
/// the retry counts are the bytes 48 (A) and 52 (B), and the flags the binary digits of the bytes
/// behind them.
pub proof fn law_parse_meaning(d: Devinfo, b: Seq<u8>, slot: int)
    requires
        d.describes(b),
        0 <= slot < 2,
    ensures
        d.major_version == b[4] + 256 * b[5],
        d.minor_version == b[6] + 256 * b[7],
        d.slots@.len() == 2,
        d.slots@[slot] == slot_in(b, slot),
        d.slots@[slot].retry_count == b[48 + 4 * slot],
        d.slots@[slot].unbootable <==> b[49 + 4 * slot] % 2 == 1,
        d.slots@[slot].successful <==> b[49 + 4 * slot] / 2 % 2 == 1,
        d.slots@[slot].active <==> b[49 + 4 * slot] / 4 % 2 == 1,
        d.slots@[slot].fastboot_ok <==> b[49 + 4 * slot] / 8 % 2 == 1,
{
    law_record_meaning(b[48 + 4 * slot], b[49 + 4 * slot]);
}

/// Making a slot active, by the bytes: its retry count is 7; of its flag byte the unbootable bit is
/// clear, the successful bit is as asked, the active bit is set, and all other bits are kept; the
/// other slot's flag byte loses its active bit; and no other byte changes.
pub proof fn law_set_active_bytes(b: Seq<u8>, slot: int, mark: bool)
    requires
        is_devinfo(b),
        0 <= slot < 2,
    ensures
        ({
            let after = set_active(b, slot, mark);
            let f = b[49 + 4 * slot];
            let g = b[53 - 4 * slot];
            &&& after.len() == b.len()
            &&& after[48 + 4 * slot] == 7
            &&& after[49 + 4 * slot] == f / 8 * 8 + 4 + (if mark {
                2int
            } else {
                0int
            })
            &&& after[53 - 4 * slot] == g / 8 * 8 + g % 4
            &&& forall|i: int|
                0 <= i < b.len() && i != 48 + 4 * slot && i != 49 + 4 * slot && i != 53 - 4 * slot
                    ==> #[trigger] after[i] == b[i]
        }),
{
    let f = b[49 + 4 * slot];
    let g = b[53 - 4 * slot];
    law_set_active(b, slot, mark);
    lemma_flag_bits(b[48 + 4 * slot], f);
    lemma_flag_bits(b[52 - 4 * slot], g);
    assert({
        &&& (f & !1u8 & !2u8) | 4u8 == f / 8 * 8 + 4
        &&& (f & !1u8 & !2u8) | 4u8 | 2u8 == f / 8 * 8 + 6
        &&& g & !4u8 == g / 8 * 8 + g % 4
    }) by (bit_vector);
}

/// Marking a slot successful, by the bytes: its retry count is 7, whatever it was; of its flag byte
/// the unbootable bit is clear, the successful bit is set, and all other bits are kept; and no
/// other byte changes.
pub proof fn law_mark_successful_bytes(b: Seq<u8>, slot: int)
    requires
        is_devinfo(b),
        0 <= slot < 2,
    ensures
        ({
            let after = mark_successful(b, slot);
            let f = b[49 + 4 * slot];
            &&& after.len() == b.len()
            &&& after[48 + 4 * slot] == 7
            &&& after[49 + 4 * slot] == f / 4 * 4 + 2
            &&& forall|i: int|
                0 <= i < b.len() && i != 48 + 4 * slot && i != 49 + 4 * slot
                    ==> #[trigger] after[i] == b[i]
        }),
{
    let f = b[49 + 4 * slot];
    law_mark_successful(b, slot);
    lemma_flag_bits(b[48 + 4 * slot], f);
    assert((f & !1u8) | 2u8 == f / 4 * 4 + 2) by (bit_vector);
}

/// Making a slot active, flag by flag.
pub proof fn law_set_active_fields(b: Seq<u8>, slot: int, mark: bool)
    requires
        is_devinfo(b),
        0 <= slot < 2,
    ensures
        ({
            let after = set_active(b, slot, mark);
            let s = slot_in(after, slot);
            let o = slot_in(after, 1 - slot);
            &&& s.retry_count == 7
            &&& !s.unbootable
            &&& s.successful == mark
            &&& s.active
            &&& s.fastboot_ok == slot_in(b, slot).fastboot_ok
            &&& o.retry_count == slot_in(b, 1 - slot).retry_count
            &&& o.unbootable == slot_in(b, 1 - slot).unbootable
            &&& o.successful == slot_in(b, 1 - slot).successful
            &&& !o.active
            &&& o.fastboot_ok == slot_in(b, 1 - slot).fastboot_ok
        }),
{
    law_set_active(b, slot, mark);
}

/// Marking a slot successful, flag by flag: the retry count is 7 whatever it was before.
pub proof fn law_mark_successful_fields(b: Seq<u8>, slot: int)
    requires
        is_devinfo(b),
        0 <= slot < 2,
    ensures
        ({
            let s = slot_in(mark_successful(b, slot), slot);
            &&& s.retry_count == 7
            &&& !s.unbootable
            &&& s.successful
            &&& s.active == slot_in(b, slot).active
            &&& s.fastboot_ok == slot_in(b, slot).fastboot_ok
        }),
{
    law_mark_successful(b, slot);
}

/// Two letters name slots, each in both cases, and nothing else does.
pub proof fn law_slot_letters(c: char)
    ensures
        slot_named(c) == Some(0usize) <==> c == 'a' || c == 'A',
        slot_named(c) == Some(1usize) <==> c == 'b' || c == 'B',
        slot_named(c) matches Some(slot) ==> slot < 2,
{
}

/// Where the partition is found.
pub proof fn law_places()
    ensures
        DEVINFO_PATH@ == "/dev/disk/by-partlabel/devinfo"@,
{
}

} // verus!
