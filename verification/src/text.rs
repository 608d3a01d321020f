//! Text as sequences of characters: the few operations that the engine's
//! decisions need, each with an exact statement of what it computes.

use vstd::prelude::*;

verus! {

broadcast use vstd::string::group_string_axioms;

/// `needle` stands in `hay` at position `at`.
pub open spec fn occurs_at(hay: Seq<char>, needle: Seq<char>, at: int) -> bool {
    &&& 0 <= at
    &&& at + needle.len() <= hay.len()
    &&& hay.subrange(at, at + needle.len()) == needle
}

/// `needle` stands somewhere in `hay`.
pub open spec fn contains(hay: Seq<char>, needle: Seq<char>) -> bool {
    exists|at: int| occurs_at(hay, needle, at)
}

/// `hay` ends in `suffix`.
pub open spec fn ends_with(hay: Seq<char>, suffix: Seq<char>) -> bool {
    occurs_at(hay, suffix, hay.len() - suffix.len())
}

/// The characters of a string slice, in order.
pub fn chars_of(s: &str) -> (v: Vec<char>)
    ensures
        v@ == s@,
{
    let mut v: Vec<char> = Vec::new();
    for c in it: s.chars()
        invariant
            it.seq() == s@,
            v@ == it.seq().take(it.index() as int),
    {
        v.push(c);
        assert(it.seq().take(it.index() + 1) == it.seq().take(it.index() as int).push(c));
    }
    assert(s@.take(s@.len() as int) == s@);
    v
}

/// Whether `needle` stands in `hay` at `at`.
pub fn matches_at(hay: &Vec<char>, needle: &Vec<char>, at: usize) -> (r: bool)
    ensures
        r == occurs_at(hay@, needle@, at as int),
{
    if needle.len() > hay.len() || at > hay.len() - needle.len() {
        return false;
    }
    let mut k: usize = 0;
    while k < needle.len()
        invariant
            k <= needle.len(),
            at + needle.len() <= hay.len(),
            forall|j: int| 0 <= j < k ==> hay@[at + j] == needle@[j],
        decreases needle.len() - k,
    {
        if hay[at + k] != needle[k] {
            assert(hay@.subrange(at as int, at + needle.len())[k as int] == hay@[at + k]);
            return false;
        }
        k += 1;
    }
    assert(hay@.subrange(at as int, at + needle.len()) =~= needle@);
    true
}

/// Whether `hay` ends in `suffix`.
pub fn has_suffix(hay: &Vec<char>, suffix: &Vec<char>) -> (r: bool)
    ensures
        r == ends_with(hay@, suffix@),
{
    if suffix.len() > hay.len() {
        return false;
    }
    matches_at(hay, suffix, hay.len() - suffix.len())
}

/// Whether `needle` stands somewhere in `hay`.
pub fn has_infix(hay: &Vec<char>, needle: &Vec<char>) -> (r: bool)
    ensures
        r == contains(hay@, needle@),
{
    if needle.len() > hay.len() {
        return false;
    }
    let last: usize = hay.len() - needle.len();
    let mut at: usize = 0;
    loop
        invariant
            at <= last,
            last == hay.len() - needle.len(),
            needle.len() <= hay.len(),
            forall|j: int| 0 <= j < at ==> !occurs_at(hay@, needle@, j),
        decreases last - at,
    {
        if matches_at(hay, needle, at) {
            return true;
        }
        if at == last {
            return false;
        }
        at += 1;
    }
}

/// Whether two character lists are the same.
pub fn equal_chars(a: &Vec<char>, b: &Vec<char>) -> (r: bool)
    ensures
        r == (a@ == b@),
{
    if a.len() != b.len() {
        return false;
    }
    let mut k: usize = 0;
    while k < a.len()
        invariant
            k <= a.len(),
            a.len() == b.len(),
            forall|j: int| 0 <= j < k ==> a@[j] == b@[j],
        decreases a.len() - k,
    {
        if a[k] != b[k] {
            return false;
        }
        k += 1;
    }
    assert(a@ =~= b@);
    true
}

/// Whether the text `hay` contains the text `needle`.
pub fn text_contains(hay: &str, needle: &str) -> (r: bool)
    ensures
        r == contains(hay@, needle@),
{
    let x = chars_of(hay);
    let y = chars_of(needle);
    has_infix(&x, &y)
}

} // verus!

verus! {

/// The decimal digit of a number below ten.
pub open spec fn digit(d: nat) -> char {
    if d == 0 {
        '0'
    } else if d == 1 {
        '1'
    } else if d == 2 {
        '2'
    } else if d == 3 {
        '3'
    } else if d == 4 {
        '4'
    } else if d == 5 {
        '5'
    } else if d == 6 {
        '6'
    } else if d == 7 {
        '7'
    } else if d == 8 {
        '8'
    } else {
        '9'
    }
}

/// The decimal digits of a number, the last digit first.
pub open spec fn digits_from_last(n: nat) -> Seq<char>
    decreases n,
{
    if n < 10 {
        seq![digit(n)]
    } else {
        seq![digit(n % 10)] + digits_from_last(n / 10)
    }
}

/// A number as decimal text, without leading zeros.
pub open spec fn decimal(n: nat) -> Seq<char> {
    digits_from_last(n).reverse()
}

/// An integer as decimal text, with a minus sign if it is negative.
pub open spec fn signed_decimal(n: int) -> Seq<char> {
    if n < 0 {
        "-"@ + decimal((-n) as nat)
    } else {
        decimal(n as nat)
    }
}

/// The digits of a list of numbers below ten.
pub open spec fn digit_chars(digits: Seq<u8>) -> Seq<char> {
    Seq::new(digits.len(), |i: int| digit(digits[i] as nat))
}

fn digit_text(d: u8) -> (t: &'static str)
    requires
        d < 10,
    ensures
        t@ == seq![digit(d as nat)],
{
    proof {
        reveal_strlit("0");
        reveal_strlit("1");
        reveal_strlit("2");
        reveal_strlit("3");
        reveal_strlit("4");
        reveal_strlit("5");
        reveal_strlit("6");
        reveal_strlit("7");
        reveal_strlit("8");
        reveal_strlit("9");
    }
    let t = if d == 0 {
        "0"
    } else if d == 1 {
        "1"
    } else if d == 2 {
        "2"
    } else if d == 3 {
        "3"
    } else if d == 4 {
        "4"
    } else if d == 5 {
        "5"
    } else if d == 6 {
        "6"
    } else if d == 7 {
        "7"
    } else if d == 8 {
        "8"
    } else {
        "9"
    };
    assert(t@ =~= seq![digit(d as nat)]);
    t
}

/// Appends the text `s` to `out`.
pub fn push_text(out: &mut String, s: &str)
    ensures
        final(out)@ == old(out)@ + s@,
{
    out.append(s);
}

/// Appends the decimal text of `n` to `out`.
pub fn push_decimal(out: &mut String, n: u128)
    ensures
        final(out)@ == old(out)@ + decimal(n as nat),
{
    let mut last_first: Vec<u8> = Vec::new();
    let mut m: u128 = n;
    loop
        invariant_except_break
            digits_from_last(n as nat) == digit_chars(last_first@) + digits_from_last(m as nat),
        invariant
            forall|i: int| 0 <= i < last_first@.len() ==> last_first@[i] < 10,
        ensures
            digit_chars(last_first@) == digits_from_last(n as nat),
        decreases m,
    {
        let ghost before = last_first@;
        if m < 10 {
            last_first.push(m as u8);
            assert(digit_chars(last_first@) =~= digit_chars(before) + digits_from_last(m as nat));
            break ;
        }
        last_first.push((m % 10) as u8);
        assert(digit_chars(last_first@) + digits_from_last((m / 10) as nat) =~= digit_chars(before)
            + digits_from_last(m as nat));
        m = m / 10;
    }
    let ghost start = out@;
    let ghost digits = digit_chars(last_first@);
    let mut k: usize = last_first.len();
    while k > 0
        invariant
            k <= last_first@.len(),
            digits == digit_chars(last_first@),
            forall|i: int| 0 <= i < last_first@.len() ==> last_first@[i] < 10,
            out@ == start + digits.reverse().take(last_first@.len() - k),
        decreases k,
    {
        k = k - 1;
        out.append(digit_text(last_first[k]));
        assert(digits.reverse().take(last_first@.len() - k) =~= digits.reverse().take(
            last_first@.len() - k - 1,
        ) + seq![digit(last_first@[k as int] as nat)]);
    }
    assert(digits.reverse().take(last_first@.len() as int) =~= digits.reverse());
}

/// Appends the decimal text of `n`, with its sign, to `out`.
pub fn push_signed_decimal(out: &mut String, n: i64)
    ensures
        final(out)@ == old(out)@ + signed_decimal(n as int),
{
    if n < 0 {
        out.append("-");
        let magnitude: u128 = (-(n as i128)) as u128;
        push_decimal(out, magnitude);
        assert(out@ =~= old(out)@ + ("-"@ + decimal((-n) as nat)));
    } else {
        push_decimal(out, n as u128);
    }
}

/// `hay` with every occurrence of `needle` taken out, going from left to
/// right and never looking back into what was taken out. An empty `needle`
/// occurs nowhere.
pub open spec fn without(hay: Seq<char>, needle: Seq<char>) -> Seq<char>
    decreases hay.len(),
{
    if needle.len() == 0 || hay.len() < needle.len() {
        hay
    } else if occurs_at(hay, needle, 0) {
        without(hay.skip(needle.len() as int), needle)
    } else {
        seq![hay[0]] + without(hay.skip(1), needle)
    }
}

/// Appends to `out` the text `hay` with every occurrence of `needle`
/// taken out.
pub fn push_without(out: &mut String, hay: &str, needle: &str)
    ensures
        final(out)@ == old(out)@ + without(hay@, needle@),
{
    let text = chars_of(hay);
    let gap = chars_of(needle);
    if gap.len() == 0 {
        out.append(hay);
        return;
    }
    let ghost start = out@;
    let mut i: usize = 0;
    assert(hay@.skip(0) =~= hay@);
    while i < text.len()
        invariant
            i <= text@.len(),
            text@ == hay@,
            gap@ == needle@,
            gap@.len() > 0,
            start + without(hay@, needle@) == out@ + without(hay@.skip(i as int), needle@),
        decreases text@.len() - i,
    {
        let ghost rest = hay@.skip(i as int);
        if matches_at(&text, &gap, i) {
            proof {
                assert(rest.subrange(0, gap@.len() as int) =~= hay@.subrange(
                    i as int,
                    i + gap@.len(),
                ));
                assert(rest.skip(gap@.len() as int) =~= hay@.skip(i + gap@.len()));
            }
            i = i + gap.len();
        } else {
            let ghost before = out@;
            let piece = hay.substring_char(i, i + 1);
            out.append(piece);
            proof {
                assert(piece@ =~= seq![rest[0]]);
                assert(rest.skip(1) =~= hay@.skip(i + 1));
                if rest.len() >= gap@.len() {
                    assert(rest.subrange(0, gap@.len() as int) =~= hay@.subrange(
                        i as int,
                        i + gap@.len(),
                    ));
                    assert(out@ + without(hay@.skip(i + 1), needle@) =~= before + (seq![rest[0]]
                        + without(rest.skip(1), needle@)));
                } else {
                    assert(out@ + hay@.skip(i + 1) =~= before + rest);
                }
            }
            i = i + 1;
        }
    }
    assert(hay@.skip(hay@.len() as int).len() == 0);
    assert(out@ + Seq::<char>::empty() =~= out@);
    assert(start + without(hay@, needle@) == out@);
}

} // verus!
