//! The commands of the tool, less their input and output: what each decides, in which order, and
//! what it reports. A value stands for what is left to be done outside; its methods take what came
//! of that and give what follows.
use crate::bootlun::{begin, Backend, Detection, LunWrite, Step};
use crate::devinfo::{
    apply_mark_successful, apply_set_active, confirmed, is_devinfo, is_refusal,
    law_mark_successful, law_mark_successful_bytes, law_record_meaning, law_set_active,
    law_set_active_bytes, le16_at, mark_successful, parse_slot, set_active, slot_in, slot_named,
    Devinfo, SlotData, FULL_RETRIES,
};
use crate::error::{Error, ErrorKind};
use crate::hexutil::{decode, decoding, encode, encoding, law_decode_encode};
use crate::slot::{current, lookup, suffix_slot, Lookup, Source};
use crate::text::{
    decimal, occurs_at, push_decimal, push_right_aligned, push_signed, push_truth, right_aligned,
    signed_decimal, truth,
};
use crate::trusty::CANDIDATE_PORTS;
use vstd::prelude::*;

verus! {

/// The letter of a slot.
pub open spec fn letter(slot: usize) -> Seq<char> {
    if slot == 0 {
        "A"@
    } else {
        "B"@
    }
}

/// The letter of a slot.
fn slot_letter(slot: usize) -> (l: &'static str)
    ensures
        l@ == letter(slot),
{
    if slot == 0 {
        "A"
    } else {
        "B"
    }
}

/// The lines that report the state `s` of `slot`.
pub open spec fn slot_lines(slot: usize, s: SlotData) -> Seq<char> {
    "slot: "@ + letter(slot) + "\n    retry count: "@ + decimal(s.retry_count as nat)
        + "\n    successful:  "@ + truth(s.successful) + "\n    unbootable:  "@ + truth(
        s.unbootable,
    ) + "\n    active:      "@ + truth(s.active) + "\n    fastboot ok: "@ + truth(s.fastboot_ok)
        + "\n"@
}

/// The lines that report the state that the devinfo image `b` holds.
pub open spec fn status_lines(b: Seq<u8>) -> Seq<char> {
    "devinfo Version "@ + decimal(le16_at(b, 4) as nat) + "."@ + decimal(le16_at(b, 6) as nat)
        + "\n"@ + slot_lines(0, slot_in(b, 0)) + slot_lines(1, slot_in(b, 1))
}

/// The lines that report the state `s` of `slot`.
fn slot_report(slot: usize, s: SlotData) -> (out: String)
    ensures
        out@ == slot_lines(slot, s),
{
    let mut out = "slot: ".to_owned();
    out.append(slot_letter(slot));
    out.append("\n    retry count: ");
    push_decimal(&mut out, s.retry_count as u64);
    out.append("\n    successful:  ");
    push_truth(&mut out, s.successful);
    out.append("\n    unbootable:  ");
    push_truth(&mut out, s.unbootable);
    out.append("\n    active:      ");
    push_truth(&mut out, s.active);
    out.append("\n    fastboot ok: ");
    push_truth(&mut out, s.fastboot_ok);
    out.append("\n");
    out
}

/// `status`: report the slot state that the devinfo image `buf` holds, each line with its end.
pub fn cmd_status(buf: &[u8]) -> (r: Result<String, Error>)
    ensures
        match r {
            Ok(lines) => is_devinfo(buf@) && lines@ == status_lines(buf@),
            Err(e) => !is_devinfo(buf@) && is_refusal(buf@, e),
        },
{
    let d: Devinfo = match Devinfo::parse(buf) {
        Ok(d) => d,
        Err(e) => {
            return Err(e);
        },
    };
    let mut out = "devinfo Version ".to_owned();
    push_decimal(&mut out, d.major_version as u64);
    out.append(".");
    push_decimal(&mut out, d.minor_version as u64);
    out.append("\n");
    out.append(slot_report(0, d.slots[0]).as_str());
    out.append(slot_report(1, d.slots[1]).as_str());
    Ok(out)
}

/// A change to the devinfo partition: read the image, [`DevinfoUpdate::apply`] the change, and
/// write the image that it gives.
#[derive(Clone, Copy, Debug, PartialEq, Eq, Structural)]
pub enum DevinfoUpdate {
    /// Make a slot the active one.
    SetActive { slot: usize, mark_successful: bool },
    /// Confirm a slot as good.
    MarkSuccessful { slot: usize },
}

impl DevinfoUpdate {
    /// The slot that the change is about.
    pub open spec fn slot(self) -> usize {
        match self {
            DevinfoUpdate::SetActive { slot, mark_successful: _ } => slot,
            DevinfoUpdate::MarkSuccessful { slot } => slot,
        }
    }

    /// The image `b` after the change.
    pub open spec fn applied(self, b: Seq<u8>) -> Seq<u8> {
        match self {
            DevinfoUpdate::SetActive { slot, mark_successful } => set_active(
                b,
                slot as int,
                mark_successful,
            ),
            DevinfoUpdate::MarkSuccessful { slot } => mark_successful(b, slot as int),
        }
    }

    /// The image to write back, given the one that was read.
    pub fn apply(self, image: Vec<u8>) -> (r: Result<Vec<u8>, Error>)
        requires
            is_devinfo(image@) ==> self.slot() < 2,
        ensures
            match r {
                Ok(new) => is_devinfo(image@) && new@ == self.applied(image@),
                Err(e) => !is_devinfo(image@) && is_refusal(image@, e),
            },
    {
        let mut new: Vec<u8> = image;
        let done = match self {
            DevinfoUpdate::SetActive { slot, mark_successful } => apply_set_active(
                new.as_mut_slice(),
                slot,
                mark_successful,
            ),
            DevinfoUpdate::MarkSuccessful { slot } => apply_mark_successful(
                new.as_mut_slice(),
                slot,
            ),
        };
        match done {
            Ok(_) => Ok(new),
            Err(e) => Err(e),
        }
    }

    /// The lines that report the change.
    pub open spec fn described(self) -> Seq<char> {
        match self {
            DevinfoUpdate::SetActive { slot, mark_successful: true } => "devinfo: slot "@ + letter(
                slot,
            ) + " marked active+successful (retry 7) — force-trust, NO rollback\n"@
                + "done. reboot to boot slot "@ + letter(slot) + ".\n"@,
            DevinfoUpdate::SetActive { slot, mark_successful: false } => "devinfo: slot "@ + letter(
                slot,
            )
                + " marked active, NOT successful (retry 7) — rolls back unless a good boot runs `pixel-bootctl mark-successful`\n"@
                + "done. reboot to boot slot "@ + letter(slot) + ".\n"@,
            DevinfoUpdate::MarkSuccessful { slot } => "devinfo: slot "@ + letter(slot)
                + " marked successful (retry 7)\n"@,
        }
    }

    /// Report the change once the image was written, each line with its end.
    pub fn describe(self) -> (lines: String)
        ensures
            lines@ == self.described(),
    {
        let mut out = "devinfo: slot ".to_owned();
        match self {
            DevinfoUpdate::SetActive { slot, mark_successful } => {
                out.append(slot_letter(slot));
                if mark_successful {
                    out.append(
                        " marked active+successful (retry 7) — force-trust, NO rollback\n",
                    );
                } else {
                    out.append(
                        " marked active, NOT successful (retry 7) — rolls back unless a good boot runs `pixel-bootctl mark-successful`\n",
                    );
                }
                out.append("done. reboot to boot slot ");
                out.append(slot_letter(slot));
                out.append(".\n");
            },
            DevinfoUpdate::MarkSuccessful { slot } => {
                out.append(slot_letter(slot));
                out.append(" marked successful (retry 7)\n");
            },
        }
        out
    }
}

/// A switch whose first step is to search for the sysfs node.
#[derive(Clone, Copy, Debug, PartialEq, Eq, Structural)]
pub struct NodeSearch {
    pub detection: Detection,
    pub update: DevinfoUpdate,
}

impl NodeSearch {
    /// The switch that follows once the search has found a node or failed.
    pub open spec fn resolved<P, E>(self, found: Result<P, E>) -> Result<LunSwitch<P>, E> {
        match self.detection.resolved(found) {
            Ok(write) => Ok(LunSwitch { write, update: self.update }),
            Err(e) => Err(e),
        }
    }

    /// The switch that follows once the search has found a node or failed.
    pub fn resolve<P, E>(self, found: Result<P, E>) -> (r: Result<LunSwitch<P>, E>)
        ensures
            r == self.resolved(found),
    {
        match self.detection.resolve(found) {
            Ok(write) => Ok(LunSwitch { write, update: self.update }),
            Err(e) => Err(e),
        }
    }
}

/// A switch whose next step is to write the boot LUN.
#[derive(Debug, PartialEq, Eq)]
pub struct LunSwitch<P> {
    pub write: LunWrite<P>,
    pub update: DevinfoUpdate,
}

impl<P> LunSwitch<P> {
    /// Once the boot LUN was written: the line to report, without its end, and the change to make
    /// to devinfo. `shown` is the node's path as it is shown to the user.
    pub fn switched(self, shown: &str) -> (r: (String, DevinfoUpdate))
        ensures
            r.0@ == self.write.described(shown@),
            r.1 == self.update,
    {
        (self.write.describe(shown), self.update)
    }
}

/// How `set-active-slot` begins.
#[derive(Debug, PartialEq, Eq)]
pub enum SetActive<P> {
    /// With the search for the sysfs node.
    Search(NodeSearch),
    /// With the switch of the boot LUN.
    Switch(LunSwitch<P>),
}

/// How `set-active-slot` begins for `slot`, given the node's location or none.
pub open spec fn set_active_begin<P>(
    slot: usize,
    boot_lun: Option<P>,
    mark_successful: bool,
) -> SetActive<P> {
    let update = DevinfoUpdate::SetActive { slot, mark_successful };
    match begin(slot, Backend::Auto, boot_lun) {
        Step::Write(write) => SetActive::Switch(LunSwitch { write, update }),
        Step::Detect(detection) => SetActive::Search(NodeSearch { detection, update }),
    }
}

/// How `set-active-slot` begins for the slot that `slot_char` names. It does not if it names none.
pub open spec fn set_active_command<P>(
    slot_char: char,
    boot_lun: Option<P>,
    mark_successful: bool,
) -> Option<SetActive<P>> {
    match slot_named(slot_char) {
        Some(slot) => Some(set_active_begin(slot, boot_lun, mark_successful)),
        None => None,
    }
}

/// `set-active-slot`: switch the boot LUN to that of the slot that `slot_char` names, and only once
/// that is done mark the slot active in devinfo. It is marked successful too if `mark_successful`
/// says so. `boot_lun` is where the sysfs node is, if the user said so.
pub fn cmd_set_active<P>(slot_char: char, boot_lun: Option<P>, mark_successful: bool) -> (r: Result<
    SetActive<P>,
    Error,
>)
    ensures
        match r {
            Ok(first) => slot_named(slot_char) matches Some(slot) && first == set_active_begin(
                slot,
                boot_lun,
                mark_successful,
            ),
            Err(e) => slot_named(slot_char) is None && e.says(
                ErrorKind::InvalidInput,
                "slot must be a or b"@,
            ),
        },
        set_active_command(slot_char, boot_lun, mark_successful) == match r {
            Ok(first) => Some(first),
            Err(_) => None,
        },
{
    let slot: usize = match parse_slot(slot_char) {
        Ok(slot) => slot,
        Err(e) => {
            return Err(e);
        },
    };
    let update = DevinfoUpdate::SetActive { slot, mark_successful };
    match crate::bootlun::set(slot, Backend::Auto, boot_lun) {
        Step::Write(write) => Ok(SetActive::Switch(LunSwitch { write, update })),
        Step::Detect(detection) => Ok(SetActive::Search(NodeSearch { detection, update })),
    }
}

impl<P> SetActive<P> {
    /// The switch that `set-active-slot` comes to, given what a search for the node would come to.
    pub open spec fn lun_switch<E>(self, found: Result<P, E>) -> Result<LunSwitch<P>, E> {
        match self {
            SetActive::Switch(switch) => Ok(switch),
            SetActive::Search(search) => search.resolved(found),
        }
    }
}

/// Whether or not a node is given or found, `set-active-slot` comes to a switch of the boot LUN to
/// the slot that was asked for, followed by a change that leaves devinfo with that slot, and no
/// other, active: with a full retry budget, and successful only if that was asked for. The other
/// slot stays as successful and as bootable as it was.
pub proof fn law_set_active_run<P, E>(
    slot_char: char,
    boot_lun: Option<P>,
    found: Result<P, E>,
    mark: bool,
    slot: usize,
    b: Seq<u8>,
)
    requires
        slot_named(slot_char) == Some(slot),
        is_devinfo(b),
    ensures
        set_active_begin(slot, boot_lun, mark).lun_switch(found) matches Ok(switch) && {
            let after = switch.update.applied(b);
            let other = 1 - slot;
            &&& switch.write.slot() == slot
            &&& switch.update.slot() == slot
            &&& is_devinfo(after)
            &&& slot_in(after, slot as int).active
            &&& slot_in(after, slot as int).retry_count == FULL_RETRIES
            &&& !slot_in(after, slot as int).unbootable
            &&& slot_in(after, slot as int).successful == mark
            &&& !slot_in(after, other).active
            &&& slot_in(after, other).successful == slot_in(b, other).successful
            &&& slot_in(after, other).unbootable == slot_in(b, other).unbootable
            &&& slot_in(after, other).retry_count == slot_in(b, other).retry_count
        },
{
    law_set_active(b, slot as int, mark);
}

/// How `mark-successful` goes on.
#[derive(Clone, Copy, Debug, PartialEq, Eq, Structural)]
pub enum MarkSuccessful {
    /// Read this source, then see [`running_slot`].
    Read(Source),
    /// Change devinfo. The boot LUN is not touched.
    Update(DevinfoUpdate),
}

/// How `mark-successful` begins, given the slot's letter or none. It does not if the letter names no
/// slot.
pub open spec fn mark_begin(slot_override: Option<char>) -> Option<MarkSuccessful> {
    match slot_override {
        None => Some(MarkSuccessful::Read(Source::Bootconfig)),
        Some(c) => match slot_named(c) {
            Some(slot) => Some(MarkSuccessful::Update(DevinfoUpdate::MarkSuccessful { slot })),
            None => None,
        },
    }
}

/// `mark-successful`: confirm the slot that the user named, or else the running one.
pub fn cmd_mark_successful(slot_override: Option<char>) -> (r: Result<MarkSuccessful, Error>)
    ensures
        match slot_override {
            None => r == Ok::<MarkSuccessful, Error>(MarkSuccessful::Read(Source::Bootconfig)),
            Some(c) => match r {
                Ok(next) => slot_named(c) matches Some(slot) && next == MarkSuccessful::Update(
                    DevinfoUpdate::MarkSuccessful { slot },
                ),
                Err(e) => slot_named(c) is None && e.says(
                    ErrorKind::InvalidInput,
                    "slot must be a or b"@,
                ),
            },
        },
        mark_begin(slot_override) == match r {
            Ok(next) => Some(next),
            Err(_) => None,
        },
{
    match slot_override {
        Some(c) => match parse_slot(c) {
            Ok(slot) => Ok(MarkSuccessful::Update(DevinfoUpdate::MarkSuccessful { slot })),
            Err(e) => Err(e),
        },
        None => Ok(MarkSuccessful::Read(Source::first())),
    }
}

/// How `mark-successful` goes on once `text` was read of `source`. It does not if the search for the
/// running slot has failed.
pub open spec fn mark_next(source: Source, text: Option<&str>) -> Option<MarkSuccessful> {
    match lookup(source, text) {
        Some(Lookup::Read(next)) => Some(MarkSuccessful::Read(next)),
        Some(Lookup::Slot(slot)) => Some(
            MarkSuccessful::Update(DevinfoUpdate::MarkSuccessful { slot }),
        ),
        None => None,
    }
}

/// How `mark-successful` goes on once `source` was read: `text` is what it holds, or nothing if it
/// could not be read.
pub fn running_slot(source: Source, text: Option<&str>) -> (r: Result<MarkSuccessful, Error>)
    ensures
        match r {
            Ok(next) => mark_next(source, text) == Some(next),
            Err(e) => mark_next(source, text) is None && e.says(
                ErrorKind::NotFound,
                "could not determine the running slot from androidboot.slot_suffix; pass --slot <a|b>"@,
            ),
        },
        r matches Ok(MarkSuccessful::Update(update)) ==> update.slot() < 2,
{
    match current(source, text) {
        Ok(Lookup::Read(next)) => Ok(MarkSuccessful::Read(next)),
        Ok(Lookup::Slot(slot)) => Ok(
            MarkSuccessful::Update(DevinfoUpdate::MarkSuccessful { slot }),
        ),
        Err(e) => Err(e),
    }
}

/// The change that `mark-successful` comes to when the user names no slot and the sources read as
/// given.
pub open spec fn mark_run(bootconfig: Option<&str>, cmdline: Option<&str>) -> Option<
    DevinfoUpdate,
> {
    match mark_next(Source::Bootconfig, bootconfig) {
        Some(MarkSuccessful::Update(update)) => Some(update),
        Some(MarkSuccessful::Read(next)) => match mark_next(next, cmdline) {
            Some(MarkSuccessful::Update(update)) => Some(update),
            _ => None,
        },
        None => None,
    }
}

/// Without a slot from the user, `mark-successful` confirms the running slot, as the search for it
/// finds it, and fails exactly if that search does. It leaves devinfo with the same slot active as
/// before, and with the other slot's record as it was.
pub proof fn law_mark_successful_run(
    bootconfig: Option<&str>,
    cmdline: Option<&str>,
    b: Seq<u8>,
)
    requires
        is_devinfo(b),
    ensures
        match crate::slot::search(bootconfig, cmdline) {
            Some(slot) => {
                let update = DevinfoUpdate::MarkSuccessful { slot };
                let after = update.applied(b);
                let other = 1 - slot;
                &&& mark_run(bootconfig, cmdline) == Some(update)
                &&& slot < 2
                &&& is_devinfo(after)
                &&& slot_in(after, slot as int) == confirmed(slot_in(b, slot as int))
                &&& slot_in(after, slot as int).active == slot_in(b, slot as int).active
                &&& slot_in(after, other) == slot_in(b, other)
            },
            None => mark_run(bootconfig, cmdline) is None,
        },
{
    if let Some(update) = mark_run(bootconfig, cmdline) {
        law_mark_successful(b, update.slot() as int);
    }
}

/// The ports that `probe` tries.
pub open spec fn probe_ports(single: Option<&str>) -> Seq<&str> {
    match single {
        Some(port) => seq![port],
        None => CANDIDATE_PORTS@,
    }
}

/// The line that announces a probe.
pub open spec fn heading(ports: nat, dev: Seq<char>) -> Seq<char> {
    "probing "@ + decimal(ports) + " via "@ + dev
}

/// The line that announces what is sent.
pub open spec fn sending(port: Seq<char>, bytes: nat) -> Seq<char> {
    "connected to "@ + port + ", sending "@ + decimal(bytes) + " bytes"@
}

/// The line that reports how much was sent.
pub open spec fn sent(bytes: nat) -> Seq<char> {
    "wrote "@ + decimal(bytes) + " bytes"@
}

/// The line that reports a response.
pub open spec fn responded(response: Seq<u8>, timeout_ms: int) -> Seq<char> {
    if response.len() == 0 {
        "no response (timeout "@ + signed_decimal(timeout_ms) + "ms)"@
    } else {
        "response ("@ + decimal(response.len()) + " bytes): "@ + encoding(response)
    }
}

/// `probe`: the ports to try, in order. All the candidates, unless the user named one.
pub fn cmd_probe<'a>(single: Option<&'a str>) -> (ports: Vec<&'a str>)
    ensures
        match single {
            Some(port) => ports@ == seq![port],
            None => ports@ == CANDIDATE_PORTS@,
        },
        ports@ == probe_ports(single),
{
    let mut ports: Vec<&'a str> = Vec::new();
    match single {
        Some(port) => {
            ports.push(port);
        },
        None => {
            let all: [&'static str; 25] = CANDIDATE_PORTS;
            let mut i: usize = 0;
            while i < 25
                invariant
                    i <= 25,
                    all == CANDIDATE_PORTS,
                    ports@ == all@.take(i as int),
                decreases 25 - i,
            {
                ports.push(all[i]);
                i = i + 1;
            }
            assert(all@.take(25) == all@);
        },
    }
    ports
}

/// The line that announces how many ports are tried on which device.
pub fn probe_heading(ports: usize, dev: &str) -> (line: String)
    ensures
        line@ == "probing "@ + decimal(ports as nat) + " via "@ + dev@,
        line@ == heading(ports as nat, dev@),
{
    let mut line = "probing ".to_owned();
    push_decimal(&mut line, ports as u64);
    line.append(" via ");
    line.append(dev);
    line
}

/// What came of trying a port.
#[derive(Clone, Copy, Debug)]
pub enum Probe<'a> {
    /// It accepted the connection.
    Connected,
    /// It did not, for this reason. `code` is the operating system's number for it, if it has one.
    Refused { code: Option<i32>, reason: &'a str },
}

/// The line that reports what came of trying `port`.
pub open spec fn probe_line(port: Seq<char>, outcome: Probe) -> Seq<char> {
    match outcome {
        Probe::Connected => "  [CONNECTED] "@ + port,
        Probe::Refused { code, reason } => "  [   "@ + right_aligned(
            signed_decimal(
                match code {
                    Some(n) => n as int,
                    None => -1,
                },
            ),
            3,
        ) + " ] "@ + port + "  ("@ + reason@ + ")"@,
    }
}

/// Report what came of trying `port`.
pub fn probe_report(port: &str, outcome: Probe) -> (line: String)
    ensures
        line@ == probe_line(port@, outcome),
{
    match outcome {
        Probe::Connected => {
            let mut line = "  [CONNECTED] ".to_owned();
            line.append(port);
            line
        },
        Probe::Refused { code, reason } => {
            let number: i32 = match code {
                Some(n) => n,
                None => -1,
            };
            let mut line = "  [   ".to_owned();
            push_right_aligned(&mut line, number, 3);
            line.append(" ] ");
            line.append(port);
            line.append("  (");
            line.append(reason);
            line.append(")");
            line
        },
    }
}

/// `send`: the bytes to send for the user's hex text.
pub fn cmd_send(hex: &str) -> (r: Result<Vec<u8>, Error>)
    ensures
        match r {
            Ok(payload) => decoding(hex@) == Ok::<Seq<u8>, Seq<char>>(payload@),
            Err(e) => e.kind == ErrorKind::InvalidInput && decoding(hex@) == Err::<
                Seq<u8>,
                Seq<char>,
            >(e.message@),
        },
{
    match decode(hex) {
        Ok(payload) => Ok(payload),
        Err(message) => Err(Error { kind: ErrorKind::InvalidInput, message }),
    }
}

/// The line that announces what is sent to `port`.
pub fn sending_line(port: &str, bytes: usize) -> (line: String)
    ensures
        line@ == "connected to "@ + port@ + ", sending "@ + decimal(bytes as nat) + " bytes"@,
        line@ == sending(port@, bytes as nat),
{
    let mut line = "connected to ".to_owned();
    line.append(port);
    line.append(", sending ");
    push_decimal(&mut line, bytes as u64);
    line.append(" bytes");
    line
}

/// The line that reports how much was sent.
pub fn sent_line(bytes: usize) -> (line: String)
    ensures
        line@ == "wrote "@ + decimal(bytes as nat) + " bytes"@,
        line@ == sent(bytes as nat),
{
    let mut line = "wrote ".to_owned();
    push_decimal(&mut line, bytes as u64);
    line.append(" bytes");
    line
}

/// The line that reports the response; an empty one means that none came in time.
pub fn response_line(response: &[u8], timeout_ms: i32) -> (line: String)
    ensures
        line@ == if response@.len() == 0 {
            "no response (timeout "@ + signed_decimal(timeout_ms as int) + "ms)"@
        } else {
            "response ("@ + decimal(response@.len()) + " bytes): "@ + encoding(response@)
        },
        line@ == responded(response@, timeout_ms as int),
{
    if response.len() == 0 {
        let mut line = "no response (timeout ".to_owned();
        push_signed(&mut line, timeout_ms);
        line.append("ms)");
        line
    } else {
        let mut line = "response (".to_owned();
        push_decimal(&mut line, response.len() as u64);
        line.append(" bytes): ");
        line.append(encode(response).as_str());
        line
    }
}

/// `set-active-slot` uses the given node as it is. Where none is given it begins with a search, and
/// writes to the node that the search found; only if none is given and the search failed does it
/// go to the attribute. All of this is for the slot that was asked for, and whichever way is taken
/// the same change to devinfo follows.
pub proof fn law_switch_choice<P, E>(
    slot_char: char,
    slot: usize,
    mark_successful: bool,
    path: P,
    error: E,
)
    requires
        slot_named(slot_char) == Some(slot),
    ensures
        slot_char == 'a' || slot_char == 'A' ==> slot == 0,
        slot_char == 'b' || slot_char == 'B' ==> slot == 1,
        ({
            let update = DevinfoUpdate::SetActive { slot, mark_successful };
            let node = LunSwitch { write: LunWrite::Node { slot, path }, update };
            let attribute = LunSwitch { write: LunWrite::<P>::Attribute { slot }, update };
            &&& set_active_begin(slot, Some(path), mark_successful) == SetActive::Switch(node)
            &&& set_active_begin(slot, None::<P>, mark_successful) matches SetActive::Search(search)
                && search.update == update && search.resolved(Ok::<P, E>(path)) == Ok::<
                LunSwitch<P>,
                E,
            >(node) && search.resolved(Err::<P, E>(error)) == Ok::<LunSwitch<P>, E>(attribute)
        }),
{
}

/// A search that has to be made hands on the change to devinfo with whatever write it leads to, and
/// its failure stands exactly if there is nothing to fall back to.
pub proof fn law_node_search<P, E>(search: NodeSearch, path: P, error: E)
    ensures
        search.resolved(Ok::<P, E>(path)) == Ok::<LunSwitch<P>, E>(
            (LunSwitch {
                write: LunWrite::Node { slot: search.detection.slot, path },
                update: search.update,
            }),
        ),
        search.resolved(Err::<P, E>(error)) == if search.detection.fallback {
            Ok::<LunSwitch<P>, E>(
                (LunSwitch {
                    write: LunWrite::Attribute { slot: search.detection.slot },
                    update: search.update,
                }),
            )
        } else {
            Err::<LunSwitch<P>, E>(error)
        },
{
}

/// What a change does to the bytes of an image. Either gives its slot a retry count of 7 and clears
/// the unbootable bit. Making a slot active sets its active bit, sets or clears its successful bit
/// as asked, and clears the other slot's active bit; marking it successful sets its successful bit.
/// No other bit of any byte changes.
pub proof fn law_update_bytes(b: Seq<u8>, slot: usize, mark_successful: bool)
    requires
        is_devinfo(b),
        slot < 2,
    ensures
        ({
            let after = (DevinfoUpdate::SetActive { slot, mark_successful }).applied(b);
            let f = b[49 + 4 * slot];
            let g = b[53 - 4 * slot];
            &&& after.len() == b.len()
            &&& after[48 + 4 * slot] == 7
            &&& after[49 + 4 * slot] == f / 8 * 8 + 4 + (if mark_successful {
                2int
            } else {
                0int
            })
            &&& after[53 - 4 * slot] == g / 8 * 8 + g % 4
            &&& forall|i: int|
                0 <= i < b.len() && i != 48 + 4 * slot && i != 49 + 4 * slot && i != 53 - 4 * slot
                    ==> #[trigger] after[i] == b[i]
        }),
        ({
            let after = (DevinfoUpdate::MarkSuccessful { slot }).applied(b);
            let f = b[49 + 4 * slot];
            &&& after.len() == b.len()
            &&& after[48 + 4 * slot] == 7
            &&& after[49 + 4 * slot] == f / 4 * 4 + 2
            &&& forall|i: int|
                0 <= i < b.len() && i != 48 + 4 * slot && i != 49 + 4 * slot
                    ==> #[trigger] after[i] == b[i]
        }),
        (DevinfoUpdate::SetActive { slot, mark_successful }).slot() == slot,
        (DevinfoUpdate::MarkSuccessful { slot }).slot() == slot,
{
    law_set_active_bytes(b, slot as int, mark_successful);
    law_mark_successful_bytes(b, slot as int);
}

/// The report of a change names its slot by letter, and says whether the slot was trusted at once,
/// can still roll back, or was confirmed.
pub proof fn law_update_report(slot: usize)
    ensures
        ({
            let name = if slot == 0 {
                "A"@
            } else {
                "B"@
            };
            &&& (DevinfoUpdate::SetActive { slot, mark_successful: true }).described()
                == "devinfo: slot "@ + name
                + " marked active+successful (retry 7) — force-trust, NO rollback\n"@
                + "done. reboot to boot slot "@ + name + ".\n"@
            &&& (DevinfoUpdate::SetActive { slot, mark_successful: false }).described()
                == "devinfo: slot "@ + name
                + " marked active, NOT successful (retry 7) — rolls back unless a good boot runs `pixel-bootctl mark-successful`\n"@
                + "done. reboot to boot slot "@ + name + ".\n"@
            &&& (DevinfoUpdate::MarkSuccessful { slot }).described() == "devinfo: slot "@ + name
                + " marked successful (retry 7)\n"@
        }),
{
}

/// The status of an image, by its bytes: the versions are those at 4 and 6, and the part of each
/// slot gives the retry count and, behind each label, the word for the binary digit of the flag byte
/// that the label stands for.
pub proof fn law_status(b: Seq<u8>, slot: usize)
    requires
        slot < 2,
    ensures
        status_lines(b) == "devinfo Version "@ + decimal((b[4] + 256 * b[5]) as nat) + "."@
            + decimal((b[6] + 256 * b[7]) as nat) + "\n"@ + slot_lines(0, slot_in(b, 0))
            + slot_lines(1, slot_in(b, 1)),
        ({
            let name = if slot == 0 {
                "A"@
            } else {
                "B"@
            };
            let f = b[49 + 4 * slot];
            let unbootable = if f % 2 == 1 {
                "true"@
            } else {
                "false"@
            };
            let successful = if f / 2 % 2 == 1 {
                "true"@
            } else {
                "false"@
            };
            let active = if f / 4 % 2 == 1 {
                "true"@
            } else {
                "false"@
            };
            let fastboot_ok = if f / 8 % 2 == 1 {
                "true"@
            } else {
                "false"@
            };
            slot_lines(slot, slot_in(b, slot as int)) == "slot: "@ + name
                + "\n    retry count: "@ + decimal(b[48 + 4 * slot] as nat)
                + "\n    successful:  "@ + successful + "\n    unbootable:  "@ + unbootable
                + "\n    active:      "@ + active + "\n    fastboot ok: "@ + fastboot_ok + "\n"@
        }),
{
    law_record_meaning(b[48 + 4 * slot], b[49 + 4 * slot]);
}

/// A label with its word stands where it was put, whatever is put after it.
proof fn lemma_label_stands(
    head: Seq<char>,
    label: Seq<char>,
    word: Seq<char>,
    tail: Seq<char>,
    whole: Seq<char>,
)
    requires
        whole == head + label + word + tail,
    ensures
        occurs_at(whole, label + word, head.len() as int),
{
    let at = head.len() as int;
    assert(whole.subrange(at, at + (label + word).len()) =~= label + word);
}

/// Putting more texts after one, one by one or all at once, is the same.
proof fn lemma_append_all(
    s: Seq<char>,
    a: Seq<char>,
    b: Seq<char>,
    c: Seq<char>,
)
    ensures
        s + a + b + c == s + (a + b + c),
{
    assert(s + a + b + c =~= s + (a + b + c));
}

/// In the status of each slot the word that follows a label is `true` if the flag that the label
/// names is set in the slot's flag byte, and `false` if it is not.
pub proof fn law_status_words(
    b: Seq<u8>,
    slot: usize,
    unbootable: Seq<char>,
    successful: Seq<char>,
    active: Seq<char>,
    fastboot_ok: Seq<char>,
)
    requires
        slot < 2,
        unbootable == if b[49 + 4 * slot] % 2 == 1 {
            "true"@
        } else {
            "false"@
        },
        successful == if b[49 + 4 * slot] / 2 % 2 == 1 {
            "true"@
        } else {
            "false"@
        },
        active == if b[49 + 4 * slot] / 4 % 2 == 1 {
            "true"@
        } else {
            "false"@
        },
        fastboot_ok == if b[49 + 4 * slot] / 8 % 2 == 1 {
            "true"@
        } else {
            "false"@
        },
    ensures
        ({
            let part = slot_lines(slot, slot_in(b, slot as int));
            &&& exists|p: int| #[trigger] occurs_at(part, "\n    successful:  "@ + successful, p)
            &&& exists|p: int| #[trigger] occurs_at(part, "\n    unbootable:  "@ + unbootable, p)
            &&& exists|p: int| #[trigger] occurs_at(part, "\n    active:      "@ + active, p)
            &&& exists|p: int| #[trigger] occurs_at(part, "\n    fastboot ok: "@ + fastboot_ok, p)
        }),
{
    law_status(b, slot);
    let part = slot_lines(slot, slot_in(b, slot as int));
    let head = "slot: "@ + letter(slot) + "\n    retry count: "@ + decimal(b[48 + 4 * slot] as nat);
    let l1 = "\n    successful:  "@;
    let l2 = "\n    unbootable:  "@;
    let l3 = "\n    active:      "@;
    let l4 = "\n    fastboot ok: "@;
    let end = "\n"@;
    let h2 = head + l1 + successful;
    let h3 = h2 + l2 + unbootable;
    let h4 = h3 + l3 + active;
    let h5 = h4 + l4 + fastboot_ok;
    assert(part == h5 + end);
    lemma_label_stands(h4, l4, fastboot_ok, end, part);
    lemma_append_all(h4, l4, fastboot_ok, end);
    let t3 = l4 + fastboot_ok + end;
    lemma_label_stands(h3, l3, active, t3, part);
    lemma_append_all(h3, l3, active, t3);
    let t2 = l3 + active + t3;
    lemma_label_stands(h2, l2, unbootable, t2, part);
    lemma_append_all(h2, l2, unbootable, t2);
    let t1 = l2 + unbootable + t2;
    lemma_label_stands(head, l1, successful, t1, part);
}

/// Once a source was read, `mark-successful` confirms the slot that its text names. Where it names
/// none or could not be read, the boot configuration is followed by the command line, and after the
/// command line the command fails.
pub proof fn law_mark_next(source: Source, text: &str)
    ensures
        suffix_slot(text@) matches Some(slot) ==> mark_next(source, Some(text)) == Some(
            MarkSuccessful::Update(DevinfoUpdate::MarkSuccessful { slot }),
        ),
        suffix_slot(text@) is None ==> mark_next(source, Some(text)) == mark_next(source, None),
        mark_next(Source::Bootconfig, None) == Some(MarkSuccessful::Read(Source::Cmdline)),
        mark_next(Source::Cmdline, None) is None,
{
}

/// The line for a port names it, and says that it connected or else why it did not: the operating
/// system's number, or -1 if there is none, right-aligned in three columns, and the reason.
pub proof fn law_probe_line(port: Seq<char>, number: i32, reason: &str)
    ensures
        probe_line(port, Probe::Connected) == "  [CONNECTED] "@ + port,
        probe_line(port, (Probe::Refused { code: Some(number), reason })) == "  [   "@
            + right_aligned(signed_decimal(number as int), 3) + " ] "@ + port + "  ("@ + reason@
            + ")"@,
        probe_line(port, (Probe::Refused { code: None, reason })) == "  [   "@ + right_aligned(
            signed_decimal(-1),
            3,
        ) + " ] "@ + port + "  ("@ + reason@ + ")"@,
{
}

/// From the letter to the write: `set-active-slot` refuses every letter but a and b; for those it
/// comes to a write for slot 0 or 1, to the given node, or else to the one that the search it then
/// begins with finds, or else to the attribute; and the change to devinfo that follows is for the
/// same slot and as trusting as was asked.
pub proof fn law_set_active_command<P, E>(
    slot_char: char,
    given: Option<P>,
    mark: bool,
    found: Result<P, E>,
)
    ensures
        ({
            let command = set_active_command(slot_char, given, mark);
            let a = slot_char == 'a' || slot_char == 'A';
            let b = slot_char == 'b' || slot_char == 'B';
            let slot: usize = if a {
                0
            } else {
                1
            };
            &&& command is Some <==> a || b
            &&& command matches Some(first) ==> {
                &&& first is Search <==> given is None
                &&& first.lun_switch(found) == Ok::<LunSwitch<P>, E>(
                    LunSwitch {
                        write: match (given, found) {
                            (Some(path), _) => LunWrite::Node { slot, path },
                            (None, Ok(path)) => LunWrite::Node { slot, path },
                            (None, Err(_)) => LunWrite::Attribute { slot },
                        },
                        update: DevinfoUpdate::SetActive { slot, mark_successful: mark },
                    },
                )
            }
        }),
{
}

/// `mark-successful` takes the slot that the user names by letter, reads the boot configuration if
/// the user names none, and refuses any other letter.
pub proof fn law_mark_begin(c: char)
    ensures
        mark_begin(None) == Some(MarkSuccessful::Read(Source::Bootconfig)),
        c == 'a' || c == 'A' ==> mark_begin(Some(c)) == Some(
            MarkSuccessful::Update((DevinfoUpdate::MarkSuccessful { slot: 0 })),
        ),
        c == 'b' || c == 'B' ==> mark_begin(Some(c)) == Some(
            MarkSuccessful::Update((DevinfoUpdate::MarkSuccessful { slot: 1 })),
        ),
        c != 'a' && c != 'A' && c != 'b' && c != 'B' ==> mark_begin(Some(c)) is None,
{
}

/// One port is tried if the user names it, and it is that one; else all the candidates are, in
/// order.
pub proof fn law_probe_ports(port: &str)
    ensures
        probe_ports(Some(port)).len() == 1,
        probe_ports(Some(port))[0] == port,
        probe_ports(None).len() == 25,
        forall|i: int| 0 <= i < 25 ==> #[trigger] probe_ports(None)[i] == CANDIDATE_PORTS@[i],
{
}

/// A response that is not empty is reported with its length and, at the end of the line, in hex that
/// decodes to the very response; an empty one is reported as none within the timeout.
pub proof fn law_response_report(response: Seq<u8>, timeout_ms: int, head: Seq<char>)
    requires
        head == "response ("@ + decimal(response.len()) + " bytes): "@,
    ensures
        response.len() == 0 ==> responded(response, timeout_ms) == "no response (timeout "@
            + signed_decimal(timeout_ms) + "ms)"@,
        response.len() > 0 ==> {
            let line = responded(response, timeout_ms);
            &&& line.len() >= head.len()
            &&& line.take(head.len() as int) == head
            &&& decoding(line.skip(head.len() as int)) == Ok::<Seq<u8>, Seq<char>>(response)
            &&& line.skip(head.len() as int) == encoding(response)
        },
{
    if response.len() > 0 {
        let line = responded(response, timeout_ms);
        assert(line.take(head.len() as int) =~= head);
        assert(line.skip(head.len() as int) =~= encoding(response));
        law_decode_encode(response);
    }
}

/// The other lines of the diagnostics hold the numbers, the port and the device that they are about.
pub proof fn law_diagnostic_lines(n: nat, name: Seq<char>)
    ensures
        heading(n, name) == "probing "@ + decimal(n) + " via "@ + name,
        sending(name, n) == "connected to "@ + name + ", sending "@ + decimal(n) + " bytes"@,
        sent(n) == "wrote "@ + decimal(n) + " bytes"@,
{
}

} // verus!
