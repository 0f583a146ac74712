//! The A/B slot switch itself: the UFS attribute bBootLunEn. The value 1 selects boot LUN A (slot
//! A), 2 selects B. There are two ways to write it:
//!
//! - AOSP: the Pixel kernel has a *writable* sysfs node for it,
//!   `/sys/devices/platform/<ufs>/pixel/boot_lun_enabled`.
//! - Linux: mainline shows it read-only, so the same WRITE ATTRIBUTE is issued through the ufs-bsg
//!   endpoint (see [`crate::ufsbsg`]).
//!
//! The functions here decide what to do; the caller does it and reports back. `P` is whatever the
//! caller names a file by.
use crate::error::{Error, ErrorKind};
use crate::text::{decimal, digit, ends_with, has_suffix};
use crate::ufsbsg;
use vstd::prelude::*;

verus! {

/// The directory that holds one entry per platform device.
pub const PLATFORM_DIR: &'static str = "/sys/devices/platform";

/// How the entry of a UFS controller ends.
pub const UFS_SUFFIX: &'static str = ".ufs";

/// Where the node is, below the entry of a UFS controller.
pub const NODE_REL: &'static str = "pixel/boot_lun_enabled";

/// Which way the boot LUN is written.
#[derive(Clone, Copy, Debug, PartialEq, Eq, Structural)]
pub enum Backend {
    /// Use the AOSP sysfs node if there is one, else the mainline ufs-bsg endpoint.
    Auto,
    /// Use the AOSP sysfs node.
    Aosp,
    /// Use the mainline ufs-bsg endpoint.
    Linux,
}

/// The text to write for a slot: `1` for A (0), `2` for B (1).
pub open spec fn lun_text(slot: usize) -> Seq<char> {
    if slot == 0 {
        "1"@
    } else {
        "2"@
    }
}

/// The text to write for a slot.
pub fn lun_value(slot: usize) -> (v: &'static str)
    ensures
        v@ == lun_text(slot),
{
    if slot == 0 {
        "1"
    } else {
        "2"
    }
}

/// What the search for the sysfs node came across in the platform directory.
#[derive(Clone, Copy, Debug)]
pub enum Sighting<'a> {
    /// An entry with this name; no name, if it is not valid Unicode.
    Entry(Option<&'a str>),
    /// Whether the entry that was just checked has the node.
    Node(bool),
    /// There are no more entries.
    End,
}

/// How the search for the sysfs node goes on.
#[derive(Clone, Copy, Debug, PartialEq, Eq, Structural)]
pub enum Scan {
    /// Look at the next entry.
    Next,
    /// Check whether this entry has the node.
    CheckNode,
    /// The node of the entry that was just checked is the one.
    Found,
}

/// Whether an entry with this name is that of a UFS controller.
pub open spec fn is_ufs(name: Option<&str>) -> bool {
    name matches Some(n) && ends_with(n@, UFS_SUFFIX@)
}

/// How the search goes on after `seen`; it fails at the end of the directory.
pub open spec fn scan(seen: Sighting) -> Option<Scan> {
    match seen {
        Sighting::Entry(name) => if is_ufs(name) {
            Some(Scan::CheckNode)
        } else {
            Some(Scan::Next)
        },
        Sighting::Node(there) => if there {
            Some(Scan::Found)
        } else {
            Some(Scan::Next)
        },
        Sighting::End => None,
    }
}

/// One step of the search for `/sys/devices/platform/<*.ufs>/pixel/boot_lun_enabled`, a node that
/// only AOSP kernels have.
pub fn detect(seen: Sighting) -> (r: Result<Scan, Error>)
    ensures
        match r {
            Ok(next) => scan(seen) == Some(next),
            Err(e) => scan(seen) is None && e.says(
                ErrorKind::NotFound,
                "boot_lun_enabled not found under /sys/devices/platform/*.ufs/pixel/; pass --boot-lun"@,
            ),
        },
{
    match seen {
        Sighting::Entry(Some(name)) => {
            if has_suffix(name, UFS_SUFFIX) {
                Ok(Scan::CheckNode)
            } else {
                Ok(Scan::Next)
            }
        },
        Sighting::Entry(None) => Ok(Scan::Next),
        Sighting::Node(true) => Ok(Scan::Found),
        Sighting::Node(false) => Ok(Scan::Next),
        Sighting::End => Err(
            Error::new(
                ErrorKind::NotFound,
                "boot_lun_enabled not found under /sys/devices/platform/*.ufs/pixel/; pass --boot-lun",
            ),
        ),
    }
}

/// A write that switches the boot LUN.
#[derive(Debug, PartialEq, Eq)]
pub enum LunWrite<P> {
    /// Write [`lun_value`] of the slot to the sysfs node at `path`.
    Node { slot: usize, path: P },
    /// Submit [`ufsbsg::set`] of the slot to [`ufsbsg::DEV`].
    Attribute { slot: usize },
}

/// The sysfs node has to be found before anything is written.
#[derive(Clone, Copy, Debug, PartialEq, Eq, Structural)]
pub struct Detection {
    pub slot: usize,
    /// Whether the ufs-bsg endpoint is used if there is no node.
    pub fallback: bool,
}

/// How to begin a switch of the boot LUN.
#[derive(Debug, PartialEq, Eq)]
pub enum Step<P> {
    /// Do this write.
    Write(LunWrite<P>),
    /// Search for the node, then see [`Detection::resolve`].
    Detect(Detection),
}

/// How to begin a switch to `slot` with this backend, given the node's location or none.
pub open spec fn begin<P>(slot: usize, backend: Backend, given: Option<P>) -> Step<P> {
    match (backend, given) {
        (Backend::Linux, _) => Step::Write(LunWrite::Attribute { slot }),
        (_, Some(path)) => Step::Write(LunWrite::Node { slot, path }),
        (Backend::Aosp, None) => Step::Detect(Detection { slot, fallback: false }),
        (Backend::Auto, None) => Step::Detect(Detection { slot, fallback: true }),
    }
}

impl Detection {
    /// The write to do once the search has found a node or failed. Its failure stands if there is
    /// nothing to fall back to.
    pub open spec fn resolved<P, E>(self, found: Result<P, E>) -> Result<LunWrite<P>, E> {
        match found {
            Ok(path) => Ok(LunWrite::Node { slot: self.slot, path }),
            Err(e) => if self.fallback {
                Ok(LunWrite::Attribute { slot: self.slot })
            } else {
                Err(e)
            },
        }
    }

    /// The write to do once the search has found a node or failed.
    pub fn resolve<P, E>(self, found: Result<P, E>) -> (w: Result<LunWrite<P>, E>)
        ensures
            w == self.resolved(found),
    {
        match found {
            Ok(path) => Ok(LunWrite::Node { slot: self.slot, path }),
            Err(e) => {
                if self.fallback {
                    Ok(LunWrite::Attribute { slot: self.slot })
                } else {
                    Err(e)
                }
            },
        }
    }
}

/// Switch through the sysfs node, wherever it is.
fn set_aosp<P>(slot: usize, path: Option<P>) -> (s: Step<P>)
    ensures
        s == begin(slot, Backend::Aosp, path),
{
    match path {
        Some(path) => Step::Write(LunWrite::Node { slot, path }),
        None => Step::Detect(Detection { slot, fallback: false }),
    }
}

/// Switch through the ufs-bsg endpoint.
fn set_linux<P>(slot: usize) -> (s: Step<P>)
    ensures
        s == Step::<P>::Write(LunWrite::Attribute { slot }),
{
    Step::Write(LunWrite::Attribute { slot })
}

/// Begin a switch of the active boot LUN to that of `slot`. `aosp_path` overrides where the sysfs
/// node is, and implies the AOSP backend when `backend` is [`Backend::Auto`].
pub fn set<P>(slot: usize, backend: Backend, aosp_path: Option<P>) -> (s: Step<P>)
    ensures
        s == begin(slot, backend, aosp_path),
{
    match backend {
        Backend::Aosp => set_aosp(slot, aosp_path),
        Backend::Linux => set_linux(slot),
        Backend::Auto => match aosp_path {
            Some(path) => set_aosp(slot, Some(path)),
            None => Step::Detect(Detection { slot, fallback: true }),
        },
    }
}

impl<P> LunWrite<P> {
    /// The slot that is switched to.
    pub open spec fn slot(self) -> usize {
        match self {
            LunWrite::Node { slot, path: _ } => slot,
            LunWrite::Attribute { slot } => slot,
        }
    }

    /// What is reported of this write, where `shown` is the node's path as it is shown to the user.
    pub open spec fn described(self, shown: Seq<char>) -> Seq<char> {
        match self {
            LunWrite::Node { slot, path } => "boot LUN: wrote "@ + lun_text(slot) + " to "@ + shown
                + " (AOSP sysfs)"@,
            LunWrite::Attribute { slot } => "boot LUN: wrote "@ + lun_text(slot) + " to "@
                + ufsbsg::DEV@ + " via ufs-bsg WRITE ATTRIBUTE (mainline)"@,
        }
    }

    /// Describe this write once it was done. `shown` is the node's path as it is shown to the user;
    /// it does not matter for a write that goes to no node.
    pub fn describe(&self, shown: &str) -> (d: String)
        ensures
            d@ == self.described(shown@),
    {
        let mut d = "boot LUN: wrote ".to_owned();
        match self {
            LunWrite::Node { slot, path } => {
                d.append(lun_value(*slot));
                d.append(" to ");
                d.append(shown);
                d.append(" (AOSP sysfs)");
            },
            LunWrite::Attribute { slot } => {
                d.append(lun_value(*slot));
                d.append(" to ");
                d.append(ufsbsg::DEV);
                d.append(" via ufs-bsg WRITE ATTRIBUTE (mainline)");
            },
        }
        d
    }
}

/// Both ways to switch write the same number for a slot: the sysfs text is the decimal numeral of
/// the attribute's value. Different slots are written differently.
pub proof fn law_backends_agree(slot: usize)
    ensures
        lun_text(slot) == decimal(ufsbsg::lun_number(slot) as nat),
        slot < 2 ==> ufsbsg::lun_number(slot) == slot + 1,
{
    reveal_strlit("1");
    reveal_strlit("2");
    assert(lun_text(slot) =~= seq![digit(ufsbsg::lun_number(slot) as int)]);
}

/// The write that a switch comes to, given the node's location or none, and what a search for it
/// would come to.
pub open spec fn outcome<P, E>(
    slot: usize,
    backend: Backend,
    given: Option<P>,
    found: Result<P, E>,
) -> Result<LunWrite<P>, E> {
    match begin(slot, backend, given) {
        Step::Write(write) => Ok(write),
        Step::Detect(detection) => detection.resolved(found),
    }
}

/// Forcing AOSP writes to a node only: the given one or else the one found, and the search's failure
/// stands if there is neither. Forcing Linux never touches a node. Leaving it open writes to the
/// given node, or else to the one found, or else to the attribute, and always comes to a write. A
/// given node is used as it is, without a search. Whatever is written, it is for the slot that was
/// asked for.
pub proof fn law_outcome<P, E>(slot: usize, given: Option<P>, found: Result<P, E>)
    ensures
        outcome(slot, Backend::Aosp, given, found) == match (given, found) {
            (Some(path), _) => Ok::<LunWrite<P>, E>(LunWrite::Node { slot, path }),
            (None, Ok(path)) => Ok(LunWrite::Node { slot, path }),
            (None, Err(e)) => Err(e),
        },
        outcome(slot, Backend::Linux, given, found) == Ok::<LunWrite<P>, E>(
            LunWrite::Attribute { slot },
        ),
        outcome(slot, Backend::Auto, given, found) == match (given, found) {
            (Some(path), _) => Ok::<LunWrite<P>, E>(LunWrite::Node { slot, path }),
            (None, Ok(path)) => Ok(LunWrite::Node { slot, path }),
            (None, Err(e)) => Ok(LunWrite::Attribute { slot }),
        },
        forall|backend: Backend|
            given is Some ==> #[trigger] begin(slot, backend, given) is Write,
{
}

/// The entry at which the search through entries with these names ends, from entry `from` on, where
/// `nodes` says which of them have the node.
pub open spec fn search(names: Seq<Option<&str>>, nodes: Seq<bool>, from: int) -> Option<int>
    decreases names.len() - from,
{
    if from < 0 || from >= names.len() {
        None
    } else if scan(Sighting::Entry(names[from])) == Some(Scan::CheckNode) && scan(
        Sighting::Node(nodes[from]),
    ) == Some(Scan::Found) {
        Some(from)
    } else {
        search(names, nodes, from + 1)
    }
}

/// The search ends at the first entry that is a UFS controller's and has the node, and it fails
/// exactly if there is no such entry.
pub proof fn law_search(names: Seq<Option<&str>>, nodes: Seq<bool>, from: int)
    requires
        0 <= from,
        names.len() == nodes.len(),
    ensures
        match search(names, nodes, from) {
            Some(i) => {
                &&& from <= i < names.len()
                &&& is_ufs(names[i]) && nodes[i]
                &&& forall|j: int| from <= j < i ==> !(is_ufs(#[trigger] names[j]) && nodes[j])
            },
            None => forall|j: int|
                from <= j < names.len() ==> !(is_ufs(#[trigger] names[j]) && nodes[j]),
        },
        scan(Sighting::End) is None,
    decreases names.len() - from,
{
    if from < names.len() {
        law_search(names, nodes, from + 1);
    }
}

/// The text for slot A is `1`, and for any other slot `2`.
pub proof fn law_lun_text(slot: usize)
    ensures
        slot == 0 ==> lun_text(slot) == "1"@,
        slot != 0 ==> lun_text(slot) == "2"@,
{
}

/// An entry is a UFS controller's exactly if its name is known and its last four characters are
/// `.ufs`.
pub proof fn law_ufs_names(name: &str)
    ensures
        is_ufs(Some(name)) <==> name@.len() >= 4 && name@[name@.len() - 4] == '.' && name@[name@.len()
            - 3] == 'u' && name@[name@.len() - 2] == 'f' && name@[name@.len() - 1] == 's',
        !is_ufs(None),
{
    let n = name@;
    let suffix = UFS_SUFFIX@;
    reveal_strlit(".ufs");
    assert(suffix == seq!['.', 'u', 'f', 's']);
    crate::text::law_occurs(n, suffix, 0);
    if n.len() >= 4 {
        if ends_with(n, suffix) {
            assert(suffix[0] == n[n.len() - 4 + 0]);
            assert(suffix[1] == n[n.len() - 4 + 1]);
            assert(suffix[2] == n[n.len() - 4 + 2]);
            assert(suffix[3] == n[n.len() - 4 + 3]);
        }
    }
}

/// The search checks an entry exactly if it is a UFS controller's, is over exactly if the entry that
/// it checked has the node, fails exactly at the end, and goes on to the next entry in all other
/// cases.
pub proof fn law_scan(name: Option<&str>, there: bool)
    ensures
        is_ufs(name) ==> scan(Sighting::Entry(name)) == Some(Scan::CheckNode),
        !is_ufs(name) ==> scan(Sighting::Entry(name)) == Some(Scan::Next),
        there ==> scan(Sighting::Node(there)) == Some(Scan::Found),
        !there ==> scan(Sighting::Node(there)) == Some(Scan::Next),
        scan(Sighting::End) is None,
{
}

/// A switch begins with a search exactly if no node is given and Linux is not forced; what the
/// search comes to is used, and only where the choice was left open does its failure lead to the
/// attribute.
pub proof fn law_begin<P, E>(slot: usize, path: P, error: E)
    ensures
        begin(slot, Backend::Auto, Some(path)) == Step::Write(LunWrite::Node { slot, path }),
        begin(slot, Backend::Aosp, Some(path)) == Step::Write(LunWrite::Node { slot, path }),
        begin(slot, Backend::Linux, Some(path)) == Step::Write(LunWrite::<P>::Attribute { slot }),
        begin(slot, Backend::Linux, None::<P>) == Step::Write(LunWrite::<P>::Attribute { slot }),
        begin(slot, Backend::Auto, None::<P>) matches Step::Detect(d) && d.slot == slot && d.resolved(
            Ok::<P, E>(path),
        ) == Ok::<LunWrite<P>, E>(LunWrite::Node { slot, path }) && d.resolved(Err::<P, E>(error))
            == Ok::<LunWrite<P>, E>(LunWrite::Attribute { slot }),
        begin(slot, Backend::Aosp, None::<P>) matches Step::Detect(d) && d.slot == slot && d.resolved(
            Ok::<P, E>(path),
        ) == Ok::<LunWrite<P>, E>(LunWrite::Node { slot, path }) && d.resolved(Err::<P, E>(error))
            == Err::<LunWrite<P>, E>(error),
{
}

/// What a search that has to be made comes to: a node that was found is written for the slot, and a
/// failure leads to the attribute or stands, as the fallback says.
pub proof fn law_resolved<P, E>(d: Detection, path: P, error: E)
    ensures
        d.resolved(Ok::<P, E>(path)) == Ok::<LunWrite<P>, E>(
            LunWrite::Node { slot: d.slot, path },
        ),
        d.fallback ==> d.resolved(Err::<P, E>(error)) == Ok::<LunWrite<P>, E>(
            LunWrite::Attribute { slot: d.slot },
        ),
        !d.fallback ==> d.resolved(Err::<P, E>(error)) == Err::<LunWrite<P>, E>(error),
{
}

/// The report of a write names the value that was written, where it went and by which way: the
/// node's path as shown, or the endpoint.
pub proof fn law_described<P>(slot: usize, path: P, shown: Seq<char>)
    ensures
        (LunWrite::Node { slot, path }).described(shown) == "boot LUN: wrote "@ + (if slot == 0 {
            "1"@
        } else {
            "2"@
        }) + " to "@ + shown + " (AOSP sysfs)"@,
        (LunWrite::<P>::Attribute { slot }).described(shown) == "boot LUN: wrote "@ + (if slot == 0 {
            "1"@
        } else {
            "2"@
        }) + " to "@ + "/dev/bsg/ufs-bsg0"@ + " via ufs-bsg WRITE ATTRIBUTE (mainline)"@,
        (LunWrite::Node { slot, path }).slot() == slot,
        (LunWrite::<P>::Attribute { slot }).slot() == slot,
{
}

/// Where the node is searched for.
pub proof fn law_places()
    ensures
        PLATFORM_DIR@ == "/sys/devices/platform"@,
        UFS_SUFFIX@ == ".ufs"@,
        NODE_REL@ == "pixel/boot_lun_enabled"@,
{
}

} // verus!
