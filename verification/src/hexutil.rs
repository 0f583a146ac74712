//! Hex text to bytes and back, for the Trusty `send` diagnostic.
use crate::text::{chars_of, digit, digit_text};
use vstd::prelude::*;
use vstd::utf8::*;

verus! {

/// Whether `c` has the Unicode property White_Space.
pub open spec fn is_blank(c: char) -> bool {
    let u = c as u32;
    ||| 0x09 <= u <= 0x0d
    ||| u == 0x20 || u == 0x85 || u == 0xa0 || u == 0x1680
    ||| 0x2000 <= u <= 0x200a
    ||| u == 0x2028 || u == 0x2029 || u == 0x202f || u == 0x205f || u == 0x3000
}

/// The text `s` without its white space.
pub open spec fn stripped(s: Seq<char>) -> Seq<char> {
    s.filter(|c: char| !is_blank(c))
}

/// The number of bytes of `c` in UTF-8.
pub open spec fn utf8_width(c: char) -> nat {
    let u = c as u32;
    if u < 0x80 {
        1
    } else if u < 0x800 {
        2
    } else if u < 0x10000 {
        3
    } else {
        4
    }
}

/// The value of the hex digit `c`, of either case.
pub open spec fn hex_value(c: char) -> Option<int> {
    if '0' <= c <= '9' {
        Some(c as int - '0' as int)
    } else if 'a' <= c <= 'f' {
        Some(c as int - 'a' as int + 10)
    } else if 'A' <= c <= 'F' {
        Some(c as int - 'A' as int + 10)
    } else {
        None
    }
}

/// The byte that a pair of characters stands for: both must be hex digits.
pub open spec fn pair_value(first: char, second: char) -> Option<int> {
    match (hex_value(first), hex_value(second)) {
        (Some(hi), Some(lo)) => Some(16 * hi + lo),
        _ => None,
    }
}

/// The byte that pair number `k` of the text `t` stands for.
pub open spec fn pair_at(t: Seq<char>, k: int) -> Option<int> {
    pair_value(t[2 * k], t[2 * k + 1])
}

/// Whether `t` is made of pairs that each stand for a byte.
pub open spec fn all_pairs(t: Seq<char>) -> bool {
    &&& t.len() % 2 == 0
    &&& forall|k: int| 0 <= k < t.len() / 2 ==> pair_at(t, k) is Some
}

/// The bytes that the pairs of `t` stand for.
pub open spec fn pair_bytes(t: Seq<char>) -> Seq<u8> {
    Seq::new(t.len() / 2, |k: int| pair_at(t, k)->0 as u8)
}

/// What the text `s` decodes to, or the text of the error. White space does not count; what is left
/// must have an even number of bytes and be made of pairs.
pub open spec fn decoding(s: Seq<char>) -> Result<Seq<u8>, Seq<char>> {
    let t = stripped(s);
    if encode_utf8(t).len() % 2 != 0 {
        Err("hex must have even length"@)
    } else if all_pairs(t) {
        Ok(pair_bytes(t))
    } else {
        Err("invalid digit found in string"@)
    }
}

/// The hex text for the bytes `b`: two lower-case digits per byte.
pub open spec fn encoding(b: Seq<u8>) -> Seq<char> {
    Seq::new(
        2 * b.len(),
        |i: int|
            digit(
                if i % 2 == 0 {
                    b[i / 2] as int / 16
                } else {
                    b[i / 2] as int % 16
                },
            ),
    )
}

/// Decide whether `c` is white space.
fn blank(c: char) -> (r: bool)
    ensures
        r == is_blank(c),
{
    let u: u32 = c as u32;
    (0x09 <= u && u <= 0x0d) || u == 0x20 || u == 0x85 || u == 0xa0 || u == 0x1680 || (0x2000 <= u
        && u <= 0x200a) || u == 0x2028 || u == 0x2029 || u == 0x202f || u == 0x205f || u == 0x3000
}

/// The characters of `s` that are not white space.
fn strip(s: &str) -> (t: Vec<char>)
    ensures
        t@ == stripped(s@),
{
    let all: Vec<char> = chars_of(s);
    let mut t: Vec<char> = Vec::new();
    let mut i: usize = 0;
    while i < all.len()
        invariant
            i <= all@.len(),
            t@ == stripped(all@.take(i as int)),
        decreases all.len() - i,
    {
        proof {
            reveal(Seq::filter);
            assert(all@.take(i + 1).drop_last() == all@.take(i as int));
        }
        if !blank(all[i]) {
            t.push(all[i]);
        }
        i = i + 1;
    }
    assert(all@.take(all@.len() as int) == all@);
    t
}

/// Appending a character to a text appends its bytes.
proof fn lemma_encode_push(t: Seq<char>, c: char)
    ensures
        encode_utf8(t.push(c)).len() == encode_utf8(t).len() + utf8_width(c),
    decreases t.len(),
{
    if t.len() == 0 {
        assert(t.push(c).drop_first() == t);
        assert(encode_utf8(t.push(c)) == encode_scalar(c as u32) + encode_utf8(t));
    } else {
        assert(t.push(c).drop_first() == t.drop_first().push(c));
        lemma_encode_push(t.drop_first(), c);
    }
}

/// Decide whether `t` takes an odd number of bytes.
fn odd_bytes(t: &Vec<char>) -> (odd: bool)
    ensures
        odd == (encode_utf8(t@).len() % 2 != 0),
{
    let mut odd: bool = false;
    let mut i: usize = 0;
    while i < t.len()
        invariant
            i <= t@.len(),
            odd == (encode_utf8(t@.take(i as int)).len() % 2 != 0),
        decreases t.len() - i,
    {
        proof {
            assert(t@.take(i + 1) == t@.take(i as int).push(t@[i as int]));
            lemma_encode_push(t@.take(i as int), t@[i as int]);
        }
        let w: usize = width(t[i]);
        if w % 2 != 0 {
            odd = !odd;
        }
        i = i + 1;
    }
    assert(t@.take(t@.len() as int) == t@);
    odd
}

/// The number of bytes of `c` in UTF-8.
fn width(c: char) -> (w: usize)
    ensures
        w == utf8_width(c),
{
    let u: u32 = c as u32;
    if u < 0x80 {
        1
    } else if u < 0x800 {
        2
    } else if u < 0x10000 {
        3
    } else {
        4
    }
}

/// The value of a hex digit.
fn hex_digit(c: char) -> (r: Option<u8>)
    ensures
        match r {
            Some(v) => hex_value(c) == Some(v as int) && v < 16,
            None => hex_value(c) is None,
        },
{
    let u: u32 = c as u32;
    if 0x30 <= u && u <= 0x39 {
        Some((u - 0x30) as u8)
    } else if 0x61 <= u && u <= 0x66 {
        Some((u - 0x61 + 10) as u8)
    } else if 0x41 <= u && u <= 0x46 {
        Some((u - 0x41 + 10) as u8)
    } else {
        None
    }
}

/// The byte that a pair of characters stands for.
fn pair(first: char, second: char) -> (r: Option<u8>)
    ensures
        match r {
            Some(v) => pair_value(first, second) == Some(v as int),
            None => pair_value(first, second) is None,
        },
{
    match (hex_digit(first), hex_digit(second)) {
        (Some(hi), Some(lo)) => Some(16 * hi + lo),
        _ => None,
    }
}

/// Decode hex text: white space is ignored, and the rest must be pairs of hex digits.
pub fn decode(s: &str) -> (r: Result<Vec<u8>, String>)
    ensures
        match r {
            Ok(bytes) => decoding(s@) == Ok::<Seq<u8>, Seq<char>>(bytes@),
            Err(message) => decoding(s@) == Err::<Seq<u8>, Seq<char>>(message@),
        },
{
    let t: Vec<char> = strip(s);
    if odd_bytes(&t) {
        return Err("hex must have even length".to_owned());
    }
    let mut out: Vec<u8> = Vec::new();
    let mut i: usize = 0;
    while t.len() - i > 1
        invariant
            i == 2 * out@.len(),
            i <= t@.len(),
            t@ == stripped(s@),
            encode_utf8(t@).len() % 2 == 0,
            forall|j: int| 0 <= j < out@.len() ==> pair_at(t@, j) == Some(#[trigger] out@[j] as int),
        decreases t.len() - i,
    {
        match pair(t[i], t[i + 1]) {
            Some(v) => {
                out.push(v);
            },
            None => {
                assert(pair_at(t@, out@.len() as int) is None);
                return Err("invalid digit found in string".to_owned());
            },
        }
        i = i + 2;
    }
    if i < t.len() {
        return Err("invalid digit found in string".to_owned());
    }
    assert forall|k: int| 0 <= k < t@.len() / 2 implies pair_at(t@, k) is Some by {
        assert(pair_at(t@, k) == Some(out@[k] as int));
    }
    assert(out@ == pair_bytes(t@));
    Ok(out)
}

/// Encode bytes as hex text.
pub fn encode(b: &[u8]) -> (s: String)
    ensures
        s@ == encoding(b@),
{
    let mut s = String::new();
    let mut i: usize = 0;
    assert(s@ == encoding(b@.take(0)));
    while i < b.len()
        invariant
            i <= b@.len(),
            s@ == encoding(b@.take(i as int)),
        decreases b.len() - i,
    {
        let ghost before = s@;
        s.append(digit_text(b[i] / 16));
        s.append(digit_text(b[i] % 16));
        proof {
            let hi = digit(b@[i as int] as int / 16);
            let lo = digit(b@[i as int] as int % 16);
            assert(s@ == before + seq![hi] + seq![lo]);
            assert(s@ =~= encoding(b@.take(i + 1)));
        }
        i = i + 1;
    }
    assert(b@.take(b@.len() as int) == b@);
    s
}

/// A text without white space is its own stripped form.
proof fn lemma_nothing_to_strip(t: Seq<char>)
    requires
        forall|i: int| 0 <= i < t.len() ==> !is_blank(#[trigger] t[i]),
    ensures
        stripped(t) == t,
    decreases t.len(),
{
    reveal(Seq::filter);
    if t.len() > 0 {
        lemma_nothing_to_strip(t.drop_last());
        assert(t.drop_last().push(t.last()) == t);
    }
}

/// A text of white space strips to nothing.
proof fn lemma_strip_blanks(t: Seq<char>)
    requires
        forall|i: int| 0 <= i < t.len() ==> is_blank(#[trigger] t[i]),
    ensures
        stripped(t) == Seq::<char>::empty(),
    decreases t.len(),
{
    reveal(Seq::filter);
    if t.len() > 0 {
        lemma_strip_blanks(t.drop_last());
    }
}

/// A text of one-byte characters has as many bytes as characters.
proof fn lemma_narrow_len(t: Seq<char>)
    requires
        forall|i: int| 0 <= i < t.len() ==> utf8_width(#[trigger] t[i]) == 1,
    ensures
        encode_utf8(t).len() == t.len(),
    decreases t.len(),
{
    if t.len() > 0 {
        lemma_narrow_len(t.drop_last());
        lemma_encode_push(t.drop_last(), t.last());
        assert(t.drop_last().push(t.last()) == t);
    }
}

/// What was encoded decodes to the bytes it was encoded from, for any bytes.
pub proof fn law_decode_encode(b: Seq<u8>)
    ensures
        decoding(encoding(b)) == Ok::<Seq<u8>, Seq<char>>(b),
{
    let t = encoding(b);
    assert forall|i: int| 0 <= i < t.len() implies !is_blank(#[trigger] t[i]) && utf8_width(t[i])
        == 1 by {}
    lemma_nothing_to_strip(t);
    lemma_narrow_len(t);
    assert forall|k: int| 0 <= k < t.len() / 2 implies #[trigger] pair_at(t, k) == Some(
        b[k] as int,
    ) by {
        assert(t[2 * k] == digit(b[k] as int / 16));
        assert(t[2 * k + 1] == digit(b[k] as int % 16));
    }
    assert(pair_bytes(t) =~= b);
}

/// The lower-case form of an ASCII character.
pub open spec fn lower(c: char) -> char {
    if 'A' <= c <= 'Z' {
        (c as int + 32) as char
    } else {
        c
    }
}

/// Encoding what a text decodes to gives the text back, in lower case and without its white space.
pub proof fn law_encode_decode(s: Seq<char>, b: Seq<u8>)
    requires
        decoding(s) == Ok::<Seq<u8>, Seq<char>>(b),
    ensures
        encoding(b) == stripped(s).map_values(|c: char| lower(c)),
{
    let t = stripped(s);
    assert forall|i: int| 0 <= i < t.len() implies encoding(b)[i] == lower(#[trigger] t[i]) by {
        let k = i / 2;
        assert(pair_at(t, k) is Some);
    }
    assert(encoding(b) =~= t.map_values(|c: char| lower(c)));
}

/// A text decodes exactly if, white space aside, it is an even number of hex digits and nothing
/// else. Any other character, wherever it stands, has the whole text refused.
pub proof fn law_hex_only(s: Seq<char>)
    ensures
        decoding(s) is Ok <==> stripped(s).len() % 2 == 0 && forall|i: int|
            0 <= i < stripped(s).len() ==> hex_value(#[trigger] stripped(s)[i]) is Some,
{
    let t = stripped(s);
    if decoding(s) is Ok {
        assert forall|i: int| 0 <= i < t.len() implies hex_value(#[trigger] t[i]) is Some by {
            assert(pair_at(t, i / 2) is Some);
        }
    }
    if t.len() % 2 == 0 && forall|i: int| 0 <= i < t.len() ==> hex_value(#[trigger] t[i]) is Some {
        lemma_narrow_len(t);
    }
}

/// White space anywhere in a text is immaterial.
pub proof fn law_blanks_ignored(before: Seq<char>, blanks: Seq<char>, after: Seq<char>)
    requires
        forall|i: int| 0 <= i < blanks.len() ==> is_blank(#[trigger] blanks[i]),
    ensures
        decoding(before + blanks + after) == decoding(before + after),
{
    let keep = |c: char| !is_blank(c);
    Seq::filter_distributes_over_add(before + blanks, after, keep);
    Seq::filter_distributes_over_add(before, blanks, keep);
    Seq::filter_distributes_over_add(before, after, keep);
    lemma_strip_blanks(blanks);
    assert(stripped(before) + stripped(blanks) == stripped(before));
}

/// A hex digit stands for its value; no other character stands for any.
pub proof fn law_hex_value(c: char)
    ensures
        ({
            let u = c as int;
            if 0x30 <= u <= 0x39 {
                hex_value(c) == Some(u - 0x30)
            } else if 0x41 <= u <= 0x46 {
                hex_value(c) == Some(u - 0x41 + 10)
            } else if 0x61 <= u <= 0x66 {
                hex_value(c) == Some(u - 0x61 + 10)
            } else {
                hex_value(c) is None
            }
        }),
{
}

/// Stripping goes character by character: of one character it leaves nothing if that is white
/// space, and the character if not; of two texts put together, what it leaves of each.
pub proof fn law_stripped(a: Seq<char>, b: Seq<char>, c: char)
    ensures
        stripped(Seq::<char>::empty()) == Seq::<char>::empty(),
        stripped(seq![c]) == if {
            let u = c as int;
            ||| 0x09 <= u <= 0x0d
            ||| u == 0x20
            ||| u == 0x85
            ||| u == 0xa0
            ||| u == 0x1680
            ||| 0x2000 <= u <= 0x200a
            ||| u == 0x2028
            ||| u == 0x2029
            ||| u == 0x202f
            ||| u == 0x205f
            ||| u == 0x3000
        } {
            Seq::<char>::empty()
        } else {
            seq![c]
        },
        stripped(a + b) == stripped(a) + stripped(b),
{
    Seq::filter_distributes_over_add(a, b, |c: char| !is_blank(c));
    lemma_nothing_to_strip(Seq::<char>::empty());
    if is_blank(c) {
        lemma_strip_blanks(seq![c]);
    } else {
        lemma_nothing_to_strip(seq![c]);
    }
}

/// The bytes come in the order of the text: byte `k` is 16 times the value of character `2k` plus
/// the value of character `2k + 1`, white space aside.
pub proof fn law_decode_in_order(s: Seq<char>, b: Seq<u8>, k: int)
    requires
        decoding(s) == Ok::<Seq<u8>, Seq<char>>(b),
    ensures
        stripped(s).len() == 2 * b.len(),
        0 <= k < b.len() ==> hex_value(stripped(s)[2 * k]) is Some,
        0 <= k < b.len() ==> hex_value(stripped(s)[2 * k + 1]) is Some,
        0 <= k < b.len() ==> b[k] == 16 * hex_value(stripped(s)[2 * k])->0 + hex_value(
            stripped(s)[2 * k + 1],
        )->0,
{
    if 0 <= k < b.len() {
        assert(pair_at(stripped(s), k) is Some);
    }
}

/// A text is refused for its length exactly if, white space aside, it has an odd number of bytes,
/// and for a digit in all other cases in which it is refused.
pub proof fn law_decode_refusals(s: Seq<char>, message: Seq<char>)
    requires
        decoding(s) == Err::<Seq<u8>, Seq<char>>(message),
    ensures
        message == if encode_utf8(stripped(s)).len() % 2 == 1 {
            "hex must have even length"@
        } else {
            "invalid digit found in string"@
        },
{
}

/// Decoding two texts put together gives their bytes put together.
pub proof fn law_decode_concatenation(s: Seq<char>, t: Seq<char>, b: Seq<u8>, c: Seq<u8>)
    requires
        decoding(s) == Ok::<Seq<u8>, Seq<char>>(b),
        decoding(t) == Ok::<Seq<u8>, Seq<char>>(c),
    ensures
        decoding(s + t) == Ok::<Seq<u8>, Seq<char>>(b + c),
{
    let x = stripped(s);
    let y = stripped(t);
    law_stripped(s, t, ' ');
    law_decode_in_order(s, b, 0);
    law_decode_in_order(t, c, 0);
    law_hex_only(s);
    law_hex_only(t);
    law_hex_only(s + t);
    let z = stripped(s + t);
    assert(z == x + y);
    assert forall|i: int| 0 <= i < z.len() implies hex_value(#[trigger] z[i]) is Some by {
        if i < x.len() {
            assert(z[i] == x[i]);
        } else {
            assert(z[i] == y[i - x.len()]);
        }
    }
    let d = decoding(s + t)->Ok_0;
    law_decode_in_order(s + t, d, 0);
    assert forall|k: int| 0 <= k < d.len() implies d[k] == (b + c)[k] by {
        law_decode_in_order(s + t, d, k);
        if k < b.len() {
            law_decode_in_order(s, b, k);
            assert(z[2 * k] == x[2 * k] && z[2 * k + 1] == x[2 * k + 1]);
            assert(b[k] == (b + c)[k]);
        } else {
            let m = k - b.len();
            law_decode_in_order(t, c, m);
            assert(z[2 * k] == y[2 * m] && z[2 * k + 1] == y[2 * m + 1]);
            assert(c[m] == (b + c)[k]);
        }
    }
    assert(d =~= b + c);
}

/// The digits come in the order of the bytes: characters `2k` and `2k + 1` are the lower-case digits
/// for the upper and the lower half of byte `k`. So encoding two runs of bytes put together gives
/// their texts put together.
pub proof fn law_encode_in_order(b: Seq<u8>, c: Seq<u8>)
    ensures
        encoding(b).len() == 2 * b.len(),
        forall|k: int|
            0 <= k < b.len() ==> {
                &&& hex_value(encoding(b)[2 * k]) == Some((#[trigger] b[k]) as int / 16)
                &&& hex_value(encoding(b)[2 * k + 1]) == Some(b[k] as int % 16)
            },
        forall|i: int|
            0 <= i < encoding(b).len() ==> (0x30 <= (#[trigger] encoding(b)[i]) as int <= 0x39 || 0x61
                <= encoding(b)[i] as int <= 0x66),
        encoding(b + c) == encoding(b) + encoding(c),
{
    assert forall|k: int| 0 <= k < b.len() implies {
        &&& hex_value(encoding(b)[2 * k]) == Some((#[trigger] b[k]) as int / 16)
        &&& hex_value(encoding(b)[2 * k + 1]) == Some(b[k] as int % 16)
    } by {
        assert(encoding(b)[2 * k] == digit(b[k] as int / 16));
        assert(encoding(b)[2 * k + 1] == digit(b[k] as int % 16));
    }
    assert(encoding(b + c) =~= encoding(b) + encoding(c));
}

} // verus!
