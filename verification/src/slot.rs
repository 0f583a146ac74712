//! The *running* A/B slot: the one that the bootloader booted, which the kernel shows as
//! `androidboot.slot_suffix` in its boot configuration and on its command line. It is what the
//! per-boot mark-successful step goes by, whatever devinfo's own active flag says.
use crate::error::{Error, ErrorKind};
use crate::text::{chars_of, find, find_from, lemma_find_from, occurs_at, position};
use vstd::prelude::*;

verus! {

/// The first place to look for the running slot.
pub const BOOTCONFIG: &'static str = "/proc/bootconfig";

/// The place to look for the running slot when the first does not name it.
pub const CMDLINE: &'static str = "/proc/cmdline";

/// The slot that the letter after the underscore of a slot suffix stands for.
pub open spec fn suffix_letter(c: char) -> Option<usize> {
    if c == 'a' {
        Some(0)
    } else if c == 'b' {
        Some(1)
    } else {
        None
    }
}

/// The slot that the value starting at position `from` of `s` names: its first underscore must have
/// an `a` or a `b` right behind it.
pub open spec fn slot_after(s: Seq<char>, from: int) -> Option<usize> {
    match find_from(s, "_"@, from) {
        None => None,
        Some(mark) => if mark + 1 < s.len() {
            suffix_letter(s[mark + 1])
        } else {
            None
        },
    }
}

/// The slot that the text `s` names: the value behind the first `androidboot.slot_suffix` or, only
/// where that key is absent, behind the first bare `slot_suffix`.
pub open spec fn suffix_slot(s: Seq<char>) -> Option<usize> {
    match find(s, "androidboot.slot_suffix"@) {
        Some(at) => slot_after(s, at + "androidboot.slot_suffix"@.len()),
        None => match find(s, "slot_suffix"@) {
            Some(at) => slot_after(s, at + "slot_suffix"@.len()),
            None => None,
        },
    }
}

/// The position right behind the first `key` in `text`.
fn behind(text: &Vec<char>, key: &str) -> (r: Option<usize>)
    ensures
        match r {
            Some(from) => from <= text@.len() && find(text@, key@) == Some(from - key@.len()),
            None => find(text@, key@) is None,
        },
{
    let key: Vec<char> = chars_of(key);
    proof {
        lemma_find_from(text@, key@, 0);
    }
    match position(text, &key, 0) {
        Some(at) => {
            assert(occurs_at(text@, key@, at as int) && at + key.len() <= text.len());
            Some(at + key.len())
        },
        None => None,
    }
}

/// The slot that the value starting at position `from` of `text` names.
fn read_value(text: &Vec<char>, from: usize) -> (r: Option<usize>)
    ensures
        r == slot_after(text@, from as int),
        r matches Some(slot) ==> slot < 2,
{
    let mark: Vec<char> = chars_of("_");
    proof {
        lemma_find_from(text@, "_"@, from as int);
        reveal_strlit("_");
    }
    let under: usize = match position(text, &mark, from) {
        Some(i) => i,
        None => {
            return None;
        },
    };
    if text.len() - under < 2 {
        return None;
    }
    match text[under + 1] {
        'a' => Some(0),
        'b' => Some(1),
        _ => None,
    }
}

/// Read the running slot out of a text that holds `androidboot.slot_suffix = "_a"` (boot
/// configuration) or `androidboot.slot_suffix=_a` (command line). Other keys that end in
/// `slot_suffix` do not count beside that one.
pub fn parse_slot_suffix(s: &str) -> (r: Option<usize>)
    ensures
        r == suffix_slot(s@),
        r matches Some(slot) ==> slot < 2,
{
    let text: Vec<char> = chars_of(s);
    match behind(&text, "androidboot.slot_suffix") {
        Some(from) => read_value(&text, from),
        None => match behind(&text, "slot_suffix") {
            Some(from) => read_value(&text, from),
            None => None,
        },
    }
}

/// A place where the kernel shows the running slot.
#[derive(Clone, Copy, Debug, PartialEq, Eq, Structural)]
pub enum Source {
    Bootconfig,
    Cmdline,
}

impl Source {
    /// The place to read first.
    pub fn first() -> (s: Source)
        ensures
            s == Source::Bootconfig,
    {
        Source::Bootconfig
    }

    /// The file to read.
    pub fn path(self) -> (p: &'static str)
        ensures
            p@ == match self {
                Source::Bootconfig => BOOTCONFIG@,
                Source::Cmdline => CMDLINE@,
            },
    {
        match self {
            Source::Bootconfig => BOOTCONFIG,
            Source::Cmdline => CMDLINE,
        }
    }
}

/// What to do once a source was read.
#[derive(Clone, Copy, Debug, PartialEq, Eq, Structural)]
pub enum Lookup {
    /// This is the running slot.
    Slot(usize),
    /// This source is to be read next.
    Read(Source),
}

/// The slot that what was read of a source names; nothing, if it could not be read.
pub open spec fn slot_read(text: Option<&str>) -> Option<usize> {
    match text {
        Some(s) => suffix_slot(s@),
        None => None,
    }
}

/// What follows from having read `text` of `source`. Nothing follows, and the search has failed,
/// when the last source names no slot.
pub open spec fn lookup(source: Source, text: Option<&str>) -> Option<Lookup> {
    match (slot_read(text), source) {
        (Some(slot), _) => Some(Lookup::Slot(slot)),
        (None, Source::Bootconfig) => Some(Lookup::Read(Source::Cmdline)),
        (None, Source::Cmdline) => None,
    }
}

/// One step of the search for the running slot, which starts with [`Source::first`]: `text` is what
/// was read of `source`, or nothing if it could not be read.
pub fn current(source: Source, text: Option<&str>) -> (r: Result<Lookup, Error>)
    ensures
        match r {
            Ok(next) => lookup(source, text) == Some(next),
            Err(e) => lookup(source, text) is None && e.says(
                ErrorKind::NotFound,
                "could not determine the running slot from androidboot.slot_suffix; pass --slot <a|b>"@,
            ),
        },
        r matches Ok(Lookup::Slot(slot)) ==> slot < 2,
{
    if let Some(s) = text {
        if let Some(slot) = parse_slot_suffix(s) {
            return Ok(Lookup::Slot(slot));
        }
    }
    match source {
        Source::Bootconfig => Ok(Lookup::Read(Source::Cmdline)),
        Source::Cmdline => Err(
            Error::new(
                ErrorKind::NotFound,
                "could not determine the running slot from androidboot.slot_suffix; pass --slot <a|b>",
            ),
        ),
    }
}

/// A key whose last character stands nowhere else in it is first found where it was put, if it does
/// not stand in what was put before it.
proof fn lemma_key_found(before: Seq<char>, key: Seq<char>, after: Seq<char>)
    requires
        find(before, key) is None,
        key.len() > 0,
        forall|m: int| 0 <= m < key.len() - 1 ==> key[m] != key.last(),
    ensures
        find(before + key + after, key) == Some(before.len() as int),
{
    let s = before + key + after;
    let at = before.len() as int;
    lemma_find_from(s, key, 0);
    lemma_find_from(before, key, 0);
    assert(occurs_at(s, key, at)) by {
        assert(s.subrange(at, at + key.len()) =~= key);
    }
    assert forall|j: int| 0 <= j < at implies !occurs_at(s, key, j) by {
        if occurs_at(s, key, j) {
            let part = s.subrange(j, j + key.len());
            if j + key.len() <= at {
                assert(before.subrange(j, j + key.len()) =~= part);
                assert(occurs_at(before, key, j));
            } else {
                let end = j + key.len() - 1;
                assert(part[key.len() - 1] == s[end]);
                assert(s[end] == key[end - at]);
            }
        }
    }
}

/// A single character is first found where it first stands.
proof fn lemma_char_found(s: Seq<char>, c: char, from: int, at: int)
    requires
        0 <= from <= at < s.len(),
        s[at] == c,
        forall|j: int| from <= j < at ==> s[j] != c,
    ensures
        find_from(s, seq![c], from) == Some(at),
{
    lemma_find_from(s, seq![c], from);
    assert(occurs_at(s, seq![c], at)) by {
        assert(s.subrange(at, at + 1) =~= seq![c]);
    }
    assert forall|j: int| from <= j < at implies !occurs_at(s, seq![c], j) by {
        if occurs_at(s, seq![c], j) {
            assert(s.subrange(j, j + 1)[0] == c);
        }
    }
}

/// The value behind a key is read from the first underscore after the key, whatever stands between
/// them and after the letter.
proof fn lemma_value_read(head: Seq<char>, between: Seq<char>, letter: char, rest: Seq<char>)
    requires
        !between.contains('_'),
    ensures
        slot_after(head + between + seq!['_', letter] + rest, head.len() as int) == suffix_letter(
            letter,
        ),
{
    let s = head + between + seq!['_', letter] + rest;
    let start = head.len() as int;
    let mark = start + between.len();
    assert("_"@ == seq!['_']) by {
        reveal_strlit("_");
    }
    assert(s[mark] == '_' && s[mark + 1] == letter);
    assert forall|j: int| start <= j < mark implies s[j] != '_' by {
        assert(s[j] == between[j - start]);
        assert(between.contains(between[j - start]));
    }
    lemma_char_found(s, '_', start, mark);
}

/// Whatever stands before the key `androidboot.slot_suffix`, other keys that end in `slot_suffix`
/// included, between it and the next underscore, and after the letter: it is the letter that names
/// the slot. Both forms that the kernel uses are of this shape.
pub proof fn law_suffix_shape(
    before: Seq<char>,
    between: Seq<char>,
    letter: char,
    rest: Seq<char>,
)
    requires
        find(before, "androidboot.slot_suffix"@) is None,
        !between.contains('_'),
    ensures
        suffix_slot(
            before + "androidboot.slot_suffix"@ + between + seq!['_', letter] + rest,
        ) == if letter == 'a' {
            Some(0usize)
        } else if letter == 'b' {
            Some(1usize)
        } else {
            None
        },
{
    let key = "androidboot.slot_suffix"@;
    let s = before + key + between + seq!['_', letter] + rest;
    let after = between + seq!['_', letter] + rest;
    assert(s =~= before + key + after);
    assert(key.len() > 0 && forall|m: int| 0 <= m < key.len() - 1 ==> key[m] != key.last()) by {
        reveal_strlit("androidboot.slot_suffix");
    }
    lemma_key_found(before, key, after);
    lemma_value_read(before + key, between, letter, rest);
}

/// A text without the key `androidboot.slot_suffix` is read in the same way by its first bare
/// `slot_suffix`.
pub proof fn law_bare_suffix_shape(
    before: Seq<char>,
    between: Seq<char>,
    letter: char,
    rest: Seq<char>,
)
    requires
        find(
            before + "slot_suffix"@ + between + seq!['_', letter] + rest,
            "androidboot.slot_suffix"@,
        ) is None,
        find(before, "slot_suffix"@) is None,
        !between.contains('_'),
    ensures
        suffix_slot(before + "slot_suffix"@ + between + seq!['_', letter] + rest) == if letter == 'a' {
            Some(0usize)
        } else if letter == 'b' {
            Some(1usize)
        } else {
            None
        },
{
    let key = "slot_suffix"@;
    let s = before + key + between + seq!['_', letter] + rest;
    let after = between + seq!['_', letter] + rest;
    assert(s =~= before + key + after);
    assert(key.len() > 0 && forall|m: int| 0 <= m < key.len() - 1 ==> key[m] != key.last()) by {
        reveal_strlit("slot_suffix");
    }
    lemma_key_found(before, key, after);
    lemma_value_read(before + key, between, letter, rest);
}

/// What stands around a text `s` that names a slot behind `key` does not matter, as long as what
/// stands before does not put `key` in an earlier place.
proof fn lemma_surrounded(
    before: Seq<char>,
    s: Seq<char>,
    after: Seq<char>,
    key: Seq<char>,
    at: int,
)
    requires
        find(s, key) == Some(at),
        find(before + s, key) == Some(before.len() + at),
        slot_after(s, at + key.len()) is Some,
    ensures
        find(before + s + after, key) == Some(before.len() + at),
        slot_after(before + s + after, before.len() + at + key.len()) == slot_after(
            s,
            at + key.len(),
        ),
{
    let near = before + s;
    let x = near + after;
    let new_at = before.len() + at;
    lemma_find_from(s, key, 0);
    lemma_find_from(near, key, 0);
    lemma_find_from(x, key, 0);
    assert forall|j: int| 0 <= j <= new_at implies occurs_at(x, key, j) == occurs_at(
        near,
        key,
        j,
    ) by {
        assert(x.subrange(j, j + key.len()) =~= near.subrange(j, j + key.len()));
    }
    assert(occurs_at(x, key, new_at));
    assert("_"@ == seq!['_']) by {
        reveal_strlit("_");
    }
    let from = at + key.len();
    lemma_find_from(s, "_"@, from);
    let mark = find_from(s, "_"@, from)->0;
    assert(s.subrange(mark, mark + 1)[0] == s[mark]);
    assert forall|j: int| from <= j < mark implies s[j] != '_' by {
        if s[j] == '_' {
            assert(s.subrange(j, j + 1) =~= "_"@);
            assert(occurs_at(s, "_"@, j));
        }
    }
    assert forall|j: int| before.len() + from <= j < before.len() + mark implies x[j] != '_' by {
        assert(x[j] == s[j - before.len()]);
    }
    lemma_char_found(x, '_', before.len() + from, before.len() + mark);
}

/// Text put around one that names a slot does not change the slot, provided that the key that named
/// it stays the first: what is put before must not make another `androidboot.slot_suffix` come
/// earlier; and around a text that names the slot by the bare `slot_suffix`, no
/// `androidboot.slot_suffix` may come in at all and no bare key earlier.
pub proof fn law_surroundings(before: Seq<char>, s: Seq<char>, after: Seq<char>, at: int)
    requires
        suffix_slot(s) is Some,
        ({
            let full = "androidboot.slot_suffix"@;
            let bare = "slot_suffix"@;
            if find(s, full) is Some {
                &&& find(s, full) == Some(at)
                &&& find(before + s, full) == Some(before.len() + at)
            } else {
                &&& find(s, bare) == Some(at)
                &&& find(before + s, bare) == Some(before.len() + at)
                &&& find(before + s + after, full) is None
            }
        }),
    ensures
        suffix_slot(before + s + after) == suffix_slot(s),
{
    if find(s, "androidboot.slot_suffix"@) is Some {
        lemma_surrounded(before, s, after, "androidboot.slot_suffix"@, at);
    } else {
        lemma_surrounded(before, s, after, "slot_suffix"@, at);
    }
}

/// The slot that the search finds when the sources read as given.
pub open spec fn search(bootconfig: Option<&str>, cmdline: Option<&str>) -> Option<usize> {
    match lookup(Source::Bootconfig, bootconfig) {
        Some(Lookup::Slot(slot)) => Some(slot),
        Some(Lookup::Read(next)) => match lookup(next, cmdline) {
            Some(Lookup::Slot(slot)) => Some(slot),
            _ => None,
        },
        None => None,
    }
}

/// The search finds the slot that the boot configuration names, and the slot that the command line
/// names if that one names none or cannot be read; it fails if neither names one. The command line
/// is looked at in the second case only, and nothing is looked at after it.
pub proof fn law_search(bootconfig: Option<&str>, cmdline: Option<&str>)
    ensures
        search(bootconfig, cmdline) == match slot_read(bootconfig) {
            Some(slot) => Some(slot),
            None => slot_read(cmdline),
        },
        lookup(Source::Bootconfig, bootconfig) matches Some(Lookup::Read(next)) ==> slot_read(
            bootconfig,
        ) is None && next == Source::Cmdline,
        !(lookup(Source::Cmdline, cmdline) matches Some(Lookup::Read(_))),
{
}

/// A text that holds neither key names no slot; nor does one whose key has no underscore behind it,
/// or only one that is the text's last character. The bare key counts only where the full one is
/// absent.
pub proof fn law_no_suffix(before: Seq<char>, tail: Seq<char>)
    requires
        forall|j: int| 0 <= j < tail.len() - 1 ==> #[trigger] tail[j] != '_',
    ensures
        find(before, "slot_suffix"@) is None && find(before, "androidboot.slot_suffix"@) is None
            ==> suffix_slot(before) is None,
        find(before, "androidboot.slot_suffix"@) is None ==> suffix_slot(
            before + "androidboot.slot_suffix"@ + tail,
        ) is None,
        find(before, "slot_suffix"@) is None && find(
            before + "slot_suffix"@ + tail,
            "androidboot.slot_suffix"@,
        ) is None ==> suffix_slot(before + "slot_suffix"@ + tail) is None,
{
    let full = "androidboot.slot_suffix"@;
    let bare = "slot_suffix"@;
    assert(full.len() > 0 && forall|m: int| 0 <= m < full.len() - 1 ==> full[m] != full.last()) by {
        reveal_strlit("androidboot.slot_suffix");
    }
    assert(bare.len() > 0 && forall|m: int| 0 <= m < bare.len() - 1 ==> bare[m] != bare.last()) by {
        reveal_strlit("slot_suffix");
    }
    lemma_no_value(before + full, tail);
    lemma_no_value(before + bare, tail);
    if find(before, full) is None {
        lemma_key_found(before, full, tail);
    }
    if find(before, bare) is None {
        lemma_key_found(before, bare, tail);
    }
}

/// A value without an underscore, or with one only as its last character, names no slot.
proof fn lemma_no_value(head: Seq<char>, tail: Seq<char>)
    requires
        forall|j: int| 0 <= j < tail.len() - 1 ==> #[trigger] tail[j] != '_',
    ensures
        slot_after(head + tail, head.len() as int) is None,
{
    let s = head + tail;
    let from = head.len() as int;
    assert("_"@ == seq!['_']) by {
        reveal_strlit("_");
    }
    lemma_find_from(s, "_"@, from);
    if let Some(mark) = find_from(s, "_"@, from) {
        assert(s.subrange(mark, mark + 1)[0] == s[mark]);
        assert(s[mark] == tail[mark - from]);
    }
}

/// One step of the search reports the slot that the text of the source names, whichever source it
/// is. Where the source names none or could not be read, the boot configuration is followed by the
/// command line, and nothing follows the command line.
pub proof fn law_lookup(source: Source, text: &str)
    ensures
        suffix_slot(text@) matches Some(slot) ==> lookup(source, Some(text)) == Some(
            Lookup::Slot(slot),
        ),
        suffix_slot(text@) is None ==> lookup(source, Some(text)) == lookup(source, None),
        lookup(Source::Bootconfig, None) == Some(Lookup::Read(Source::Cmdline)),
        lookup(Source::Cmdline, None) is None,
{
}

/// A source whose text holds `androidboot.slot_suffix`, then a value without an underscore before
/// it, then `_a` or `_b`, ends the search: with slot 0 for `a` and slot 1 for `b`.
pub proof fn law_source_names_slot(
    source: Source,
    text: &str,
    before: Seq<char>,
    between: Seq<char>,
    letter: char,
    rest: Seq<char>,
)
    requires
        text@ == before + "androidboot.slot_suffix"@ + between + seq!['_', letter] + rest,
        find(before, "androidboot.slot_suffix"@) is None,
        !between.contains('_'),
        letter == 'a' || letter == 'b',
    ensures
        letter == 'a' ==> lookup(source, Some(text)) == Some(Lookup::Slot(0)),
        letter == 'b' ==> lookup(source, Some(text)) == Some(Lookup::Slot(1)),
{
    law_suffix_shape(before, between, letter, rest);
}

/// The search reports the slot that the text of the first source naming one names.
pub proof fn law_search_by_texts(bootconfig: &str, cmdline: &str)
    ensures
        suffix_slot(bootconfig@) is Some ==> search(Some(bootconfig), Some(cmdline)) == suffix_slot(
            bootconfig@,
        ) && search(Some(bootconfig), None) == suffix_slot(bootconfig@),
        suffix_slot(bootconfig@) is None ==> search(Some(bootconfig), Some(cmdline)) == suffix_slot(
            cmdline@,
        ),
        search(None, Some(cmdline)) == suffix_slot(cmdline@),
        search(None, None) is None,
{
}

/// Where the sources are.
pub proof fn law_places()
    ensures
        BOOTCONFIG@ == "/proc/bootconfig"@,
        CMDLINE@ == "/proc/cmdline"@,
{
}

} // verus!
