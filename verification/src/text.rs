//! Characters, numerals and searches: the small text layer the other modules share.
use vstd::prelude::*;

verus! {

/// The characters of `s`, in order.
pub fn chars_of(s: &str) -> (v: Vec<char>)
    ensures
        v@ == s@,
{
    let mut v: Vec<char> = Vec::new();
    for c in it: s.chars()
        invariant
            v@ == s@.take(it.index() as int),
            it.seq() == s@,
    {
        assert(s@.take(it.index() + 1) == s@.take(it.index() as int).push(c));
        v.push(c);
    }
    assert(s@.take(s@.len() as int) == s@);
    v
}

/// The lower-case digit for `d`, which is less than 16.
pub open spec fn digit(d: int) -> char {
    if d < 10 {
        ('0' as int + d) as char
    } else {
        ('a' as int + (d - 10)) as char
    }
}

/// The digit for `d` as a one-character text.
pub fn digit_text(d: u8) -> (t: &'static str)
    requires
        d < 16,
    ensures
        t@ == seq![digit(d as int)],
{
    proof {
        reveal_strlit("0");
        reveal_strlit("1");
        reveal_strlit("2");
        reveal_strlit("3");
        reveal_strlit("4");
        reveal_strlit("5");
        reveal_strlit("6");
        reveal_strlit("7");
        reveal_strlit("8");
        reveal_strlit("9");
        reveal_strlit("a");
        reveal_strlit("b");
        reveal_strlit("c");
        reveal_strlit("d");
        reveal_strlit("e");
        reveal_strlit("f");
    }
    match d {
        0 => "0",
        1 => "1",
        2 => "2",
        3 => "3",
        4 => "4",
        5 => "5",
        6 => "6",
        7 => "7",
        8 => "8",
        9 => "9",
        10 => "a",
        11 => "b",
        12 => "c",
        13 => "d",
        14 => "e",
        _ => "f",
    }
}

/// The decimal numeral for `n`, without leading zeros.
pub open spec fn decimal(n: nat) -> Seq<char>
    decreases n,
{
    if n < 10 {
        seq![digit(n as int)]
    } else {
        decimal(n / 10).push(digit((n % 10) as int))
    }
}

/// The decimal numeral for `n`, with a minus sign if it is negative.
pub open spec fn signed_decimal(n: int) -> Seq<char> {
    if n < 0 {
        seq!['-'] + decimal((-n) as nat)
    } else {
        decimal(n as nat)
    }
}

/// The lower-case hexadecimal numeral for `n`, without leading zeros.
pub open spec fn hexadecimal(n: nat) -> Seq<char>
    decreases n,
{
    if n < 16 {
        seq![digit(n as int)]
    } else {
        hexadecimal(n / 16).push(digit((n % 16) as int))
    }
}

/// The word for a truth value.
pub open spec fn truth(b: bool) -> Seq<char> {
    if b {
        "true"@
    } else {
        "false"@
    }
}

/// `s` with blanks in front, as many as it takes to fill `width`.
pub open spec fn right_aligned(s: Seq<char>, width: nat) -> Seq<char> {
    if s.len() < width {
        Seq::new((width - s.len()) as nat, |i: int| ' ') + s
    } else {
        s
    }
}

/// Append the decimal numeral for `n`.
pub fn push_decimal(out: &mut String, n: u64)
    ensures
        final(out)@ == old(out)@ + decimal(n as nat),
    decreases n,
{
    if n >= 10 {
        push_decimal(out, n / 10);
    }
    let ghost before = out@;
    out.append(digit_text((n % 10) as u8));
    proof {
        if n >= 10 {
            assert(before + seq![digit((n % 10) as int)] == old(out)@ + decimal(n as nat));
        }
    }
}

/// Append the decimal numeral for `n`, with its sign if it is negative.
pub fn push_signed(out: &mut String, n: i32)
    ensures
        final(out)@ == old(out)@ + signed_decimal(n as int),
{
    if n < 0 {
        proof {
            reveal_strlit("-");
        }
        out.append("-");
        push_decimal(out, (-(n as i64)) as u64);
        assert("-"@ == seq!['-']);
        assert(out@ == old(out)@ + signed_decimal(n as int));
    } else {
        push_decimal(out, n as u64);
    }
}

/// Append the hexadecimal numeral for `n`.
pub fn push_hexadecimal(out: &mut String, n: u32)
    ensures
        final(out)@ == old(out)@ + hexadecimal(n as nat),
    decreases n,
{
    if n >= 16 {
        push_hexadecimal(out, n / 16);
    }
    let ghost before = out@;
    out.append(digit_text((n % 16) as u8));
    proof {
        if n >= 16 {
            assert(before + seq![digit((n % 16) as int)] == old(out)@ + hexadecimal(n as nat));
        }
    }
}

/// Append the word for `b`.
pub fn push_truth(out: &mut String, b: bool)
    ensures
        final(out)@ == old(out)@ + truth(b),
{
    if b {
        out.append("true");
    } else {
        out.append("false");
    }
}

/// Append the numeral for `n`, right-aligned in `width` columns.
pub fn push_right_aligned(out: &mut String, n: i32, width: usize)
    ensures
        final(out)@ == old(out)@ + right_aligned(signed_decimal(n as int), width as nat),
{
    let mut numeral = String::new();
    push_signed(&mut numeral, n);
    assert(numeral@ == signed_decimal(n as int));
    let len: usize = numeral.as_str().unicode_len();
    let mut i: usize = len;
    proof {
        reveal_strlit(" ");
        assert(Seq::new(0, |i: int| ' ') == Seq::<char>::empty());
    }
    while i < width
        invariant
            len <= i,
            i <= width || i == len,
            out@ == old(out)@ + Seq::new((i - len) as nat, |i: int| ' '),
            " "@ == seq![' '],
        decreases width - i,
    {
        proof {
            assert(Seq::new((i - len) as nat, |i: int| ' ') + seq![' '] == Seq::new(
                (i + 1 - len) as nat,
                |i: int| ' ',
            ));
        }
        out.append(" ");
        i = i + 1;
        assert(out@ == old(out)@ + Seq::new((i - len) as nat, |i: int| ' '));
    }
    out.append(numeral.as_str());
    assert(out@ == old(out)@ + right_aligned(signed_decimal(n as int), width as nat));
}

/// Whether `needle` stands in `s` at position `i`.
pub open spec fn occurs_at(s: Seq<char>, needle: Seq<char>, i: int) -> bool {
    &&& 0 <= i <= s.len() - needle.len()
    &&& s.subrange(i, i + needle.len()) == needle
}

/// The first position of `s`, from `from` on, at which `needle` stands.
pub open spec fn find_from(s: Seq<char>, needle: Seq<char>, from: int) -> Option<int>
    decreases s.len() - needle.len() - from + 1,
{
    if from < 0 || from > s.len() - needle.len() {
        None
    } else if occurs_at(s, needle, from) {
        Some(from)
    } else {
        find_from(s, needle, from + 1)
    }
}

/// The first position of `s` at which `needle` stands.
pub open spec fn find(s: Seq<char>, needle: Seq<char>) -> Option<int> {
    find_from(s, needle, 0)
}

/// [`find_from`] gives the least position at which the text occurs, if it occurs at all.
pub proof fn lemma_find_from(s: Seq<char>, needle: Seq<char>, from: int)
    requires
        0 <= from,
    ensures
        match find_from(s, needle, from) {
            Some(i) => from <= i && occurs_at(s, needle, i) && forall|j: int|
                from <= j < i ==> !occurs_at(s, needle, j),
            None => forall|j: int| from <= j ==> !occurs_at(s, needle, j),
        },
    decreases s.len() - needle.len() - from + 1,
{
    if from <= s.len() - needle.len() && !occurs_at(s, needle, from) {
        lemma_find_from(s, needle, from + 1);
        assert forall|j: int| from <= j && occurs_at(s, needle, j) implies from + 1 <= j by {
            assert(j != from);
        }
    }
}

/// Whether `s` ends with `suffix`.
pub open spec fn ends_with(s: Seq<char>, suffix: Seq<char>) -> bool {
    occurs_at(s, suffix, s.len() - suffix.len())
}

/// Decide whether `needle` stands in `s` at position `i`.
pub fn stands_at(s: &Vec<char>, needle: &Vec<char>, i: usize) -> (r: bool)
    ensures
        r == occurs_at(s@, needle@, i as int),
{
    if needle.len() > s.len() || i > s.len() - needle.len() {
        return false;
    }
    let ghost part = s@.subrange(i as int, i + needle@.len());
    let mut k: usize = 0;
    while k < needle.len()
        invariant
            k <= needle.len(),
            needle.len() <= s.len(),
            i <= s.len() - needle.len(),
            part == s@.subrange(i as int, i + needle@.len()),
            forall|j: int| 0 <= j < k ==> part[j] == needle@[j],
        decreases needle.len() - k,
    {
        if s[i + k] != needle[k] {
            assert(part[k as int] != needle@[k as int]);
            return false;
        }
        k = k + 1;
    }
    assert(part == needle@);
    true
}

/// Find the first position of `s`, from `from` on, at which `needle` stands.
pub fn position(s: &Vec<char>, needle: &Vec<char>, from: usize) -> (r: Option<usize>)
    ensures
        match r {
            Some(i) => find_from(s@, needle@, from as int) == Some(i as int),
            None => find_from(s@, needle@, from as int) is None,
        },
{
    if needle.len() > s.len() {
        return None;
    }
    let last: usize = s.len() - needle.len();
    let mut i: usize = from;
    while i <= last
        invariant
            last == s@.len() - needle@.len(),
            i <= last + 1 || i == from,
            find_from(s@, needle@, from as int) == find_from(s@, needle@, i as int),
        decreases last + 1 - i,
    {
        if stands_at(s, needle, i) {
            return Some(i);
        }
        if i == last {
            assert(find_from(s@, needle@, i + 1) is None);
            return None;
        }
        i = i + 1;
    }
    None
}

/// Decide whether `s` ends with `suffix`.
pub fn has_suffix(s: &str, suffix: &str) -> (r: bool)
    ensures
        r == ends_with(s@, suffix@),
{
    let s: Vec<char> = chars_of(s);
    let suffix: Vec<char> = chars_of(suffix);
    if suffix.len() > s.len() {
        return false;
    }
    stands_at(&s, &suffix, s.len() - suffix.len())
}

/// The digits are those of ASCII: the ten from `0` on, then the six from `a` on.
pub proof fn law_digit(d: int)
    requires
        0 <= d < 16,
    ensures
        d < 10 ==> digit(d) as int == 0x30 + d,
        d >= 10 ==> digit(d) as int == 0x61 + d - 10,
{
}

/// The number that a decimal numeral reads as.
pub open spec fn decimal_value(s: Seq<char>) -> int
    decreases s.len(),
{
    if s.len() == 0 {
        0
    } else {
        10 * decimal_value(s.drop_last()) + (s.last() as int - 0x30)
    }
}

/// The number that a lower-case hexadecimal numeral reads as.
pub open spec fn hexadecimal_value(s: Seq<char>) -> int
    decreases s.len(),
{
    if s.len() == 0 {
        0
    } else {
        16 * hexadecimal_value(s.drop_last()) + if s.last() as int <= 0x39 {
            s.last() as int - 0x30
        } else {
            s.last() as int - 0x61 + 10
        }
    }
}

/// A decimal numeral is made of decimal digits, reads as the number that it was made for, and has
/// no leading zero but for the number zero.
pub proof fn law_decimal(n: nat)
    ensures
        decimal(n).len() >= 1,
        decimal_value(decimal(n)) == n,
        forall|i: int| 0 <= i < decimal(n).len() ==> 0x30 <= (#[trigger] decimal(n)[i]) as int <= 0x39,
        n > 0 ==> decimal(n)[0] as int != 0x30,
        n == 0 ==> decimal(n).len() == 1,
    decreases n,
{
    reveal_with_fuel(decimal_value, 2);
    if n >= 10 {
        law_decimal(n / 10);
        assert(decimal(n).drop_last() =~= decimal(n / 10));
    } else {
        assert(decimal(n).drop_last() =~= Seq::<char>::empty());
    }
}

/// A hexadecimal numeral is made of lower-case hexadecimal digits, reads as the number that it was
/// made for, and has no leading zero but for the number zero.
pub proof fn law_hexadecimal(n: nat)
    ensures
        hexadecimal(n).len() >= 1,
        hexadecimal_value(hexadecimal(n)) == n,
        forall|i: int|
            0 <= i < hexadecimal(n).len() ==> (0x30 <= (#[trigger] hexadecimal(n)[i]) as int <= 0x39
                || 0x61 <= hexadecimal(n)[i] as int <= 0x66),
        n > 0 ==> hexadecimal(n)[0] as int != 0x30,
        n == 0 ==> hexadecimal(n).len() == 1,
    decreases n,
{
    reveal_with_fuel(hexadecimal_value, 2);
    if n >= 16 {
        law_hexadecimal(n / 16);
        assert(hexadecimal(n).drop_last() =~= hexadecimal(n / 16));
    } else {
        assert(hexadecimal(n).drop_last() =~= Seq::<char>::empty());
    }
}

/// A negative number is shown as a minus sign and its absolute value; any other as it is.
pub proof fn law_signed_decimal(n: int)
    ensures
        n >= 0 ==> signed_decimal(n) == decimal(n as nat),
        n < 0 ==> signed_decimal(n).len() > 0 && signed_decimal(n)[0] == '-' && signed_decimal(
            n,
        ).drop_first() == decimal((-n) as nat),
{
    if n < 0 {
        assert(signed_decimal(n).drop_first() =~= decimal((-n) as nat));
    }
}

/// A right-aligned text ends with the text, has only blanks before it, and is as long as the width
/// or the text, whichever is longer.
pub proof fn law_right_aligned(s: Seq<char>, width: nat)
    ensures
        right_aligned(s, width).len() == if s.len() < width {
            width
        } else {
            s.len()
        },
        right_aligned(s, width).skip(right_aligned(s, width).len() - s.len()) == s,
        forall|i: int|
            0 <= i < right_aligned(s, width).len() - s.len() ==> #[trigger] right_aligned(s, width)[i]
                == ' ',
{
    assert(right_aligned(s, width).skip(right_aligned(s, width).len() - s.len()) =~= s);
}

/// The words for truth values.
pub proof fn law_truth(b: bool)
    ensures
        b ==> truth(b) == "true"@,
        !b ==> truth(b) == "false"@,
{
}

/// A text stands at a position exactly if it fits there and agrees character for character; at the
/// end of another text, if that position is the last at which it fits; and the first position at
/// which it stands has no other before it.
pub proof fn law_occurs(s: Seq<char>, needle: Seq<char>, i: int)
    ensures
        occurs_at(s, needle, i) <==> 0 <= i && i + needle.len() <= s.len() && forall|k: int|
            0 <= k < needle.len() ==> #[trigger] needle[k] == s[i + k],
        ends_with(s, needle) <==> needle.len() <= s.len() && forall|k: int|
            0 <= k < needle.len() ==> #[trigger] needle[k] == s[s.len() - needle.len() + k],
        find(s, needle) == Some(i) <==> occurs_at(s, needle, i) && forall|j: int|
            0 <= j < i ==> !occurs_at(s, needle, j),
        find(s, needle) is None <==> forall|j: int| !occurs_at(s, needle, j),
{
    lemma_agree(s, needle, i);
    lemma_agree(s, needle, s.len() - needle.len());
    lemma_find_from(s, needle, 0);
    if let Some(first) = find(s, needle) {
        assert(occurs_at(s, needle, first));
        if occurs_at(s, needle, i) && forall|j: int| 0 <= j < i ==> !occurs_at(s, needle, j) {
            assert(i == first);
        }
    }
}

/// Equal parts agree character for character.
proof fn lemma_agree(s: Seq<char>, needle: Seq<char>, i: int)
    ensures
        occurs_at(s, needle, i) <==> 0 <= i && i + needle.len() <= s.len() && forall|k: int|
            0 <= k < needle.len() ==> #[trigger] needle[k] == s[i + k],
{
    if 0 <= i && i + needle.len() <= s.len() {
        let part = s.subrange(i, i + needle.len());
        assert forall|k: int| 0 <= k < needle.len() implies part[k] == s[i + k] by {}
        if part == needle {
            assert forall|k: int| 0 <= k < needle.len() implies #[trigger] needle[k] == s[i + k] by {
                assert(part[k] == s[i + k]);
            }
        }
        if forall|k: int| 0 <= k < needle.len() ==> #[trigger] needle[k] == s[i + k] {
            assert(part =~= needle);
        }
    }
}

} // verus!
