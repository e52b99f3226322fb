//! Strings: comparison, prefixes, blank strings, and decimal numbers.

use vstd::prelude::*;
use vstd::string::*;

verus! {

/// `String::push` appends one character.
pub assume_specification[ String::push ](s: &mut String, c: char)
    ensures
        final(s)@ == old(s)@.push(c),
;

/// Whether a character has the Unicode property `White_Space`.
pub open spec fn white_space(c: char) -> bool {
    ||| '\u{9}' <= c <= '\u{d}'
    ||| c == ' '
    ||| c == '\u{85}'
    ||| c == '\u{a0}'
    ||| c == '\u{1680}'
    ||| '\u{2000}' <= c <= '\u{200a}'
    ||| c == '\u{2028}'
    ||| c == '\u{2029}'
    ||| c == '\u{202f}'
    ||| c == '\u{205f}'
    ||| c == '\u{3000}'
}

fn is_white_space(c: char) -> (r: bool)
    ensures
        r == white_space(c),
{
    ('\u{9}' <= c && c <= '\u{d}') || c == ' ' || c == '\u{85}' || c == '\u{a0}' || c == '\u{1680}'
        || ('\u{2000}' <= c && c <= '\u{200a}') || c == '\u{2028}' || c == '\u{2029}' || c
        == '\u{202f}' || c == '\u{205f}' || c == '\u{3000}'
}

/// Whether `s` has nothing but white space. Such a string is empty once it is
/// trimmed.
pub open spec fn blank(s: Seq<char>) -> bool {
    forall|i: int| 0 <= i < s.len() ==> #[trigger] white_space(s[i])
}

pub fn is_blank(s: &str) -> (r: bool)
    ensures
        r == blank(s@),
{
    let n = s.unicode_len();
    let mut i: usize = 0;
    while i < n
        invariant
            i <= n == s@.len(),
            forall|j: int| 0 <= j < i ==> #[trigger] white_space(s@[j]),
        decreases n - i,
    {
        if !is_white_space(s.get_char(i)) {
            assert(!white_space(s@[i as int]));
            return false;
        }
        i = i + 1;
    }
    true
}

pub fn same(a: &str, b: &str) -> (r: bool)
    ensures
        r == (a@ == b@),
{
    a.to_owned() == b.to_owned()
}

/// Whether `s` begins with `prefix`.
pub open spec fn begins_with(s: Seq<char>, prefix: Seq<char>) -> bool {
    prefix.len() <= s.len() && s.take(prefix.len() as int) == prefix
}

pub fn starts_with(s: &str, prefix: &str) -> (r: bool)
    ensures
        r == begins_with(s@, prefix@),
{
    let n = prefix.unicode_len();
    if s.unicode_len() < n {
        return false;
    }
    let head = s.substring_char(0, n);
    assert(head@ =~= s@.take(n as int));
    same(head, prefix)
}

/// Whether `s` ends with `suffix`.
pub open spec fn ends_with(s: Seq<char>, suffix: Seq<char>) -> bool {
    suffix.len() <= s.len() && s.skip(s.len() - suffix.len()) == suffix
}

/// Whether `part` occurs in `s`.
pub open spec fn holds(s: Seq<char>, part: Seq<char>) -> bool {
    exists|i: int| 0 <= i <= s.len() && #[trigger] begins_with(s.skip(i), part)
}

/// `c` in upper case where it is an ASCII letter.
pub open spec fn ascii_upper(c: char) -> char {
    if 'a' <= c <= 'z' {
        (c as u32 - 32) as char
    } else {
        c
    }
}

pub fn to_ascii_upper(c: char) -> (r: char)
    ensures
        r == ascii_upper(c),
{
    if 'a' <= c && c <= 'z' {
        (c as u8 - 32) as char
    } else {
        c
    }
}

/// The digit of `n % 10`.
pub open spec fn digit(n: nat) -> char {
    (48 + n % 10) as char
}

/// `n` in decimal.
pub open spec fn decimal(n: nat) -> Seq<char>
    decreases n,
{
    if n < 10 {
        seq![digit(n)]
    } else {
        decimal(n / 10).push(digit(n))
    }
}

/// `n` in decimal, with a minus sign where it is negative.
pub open spec fn signed_decimal(n: int) -> Seq<char> {
    if n < 0 {
        seq!['-'] + decimal((-n) as nat)
    } else {
        decimal(n as nat)
    }
}

pub fn decimal_u64(n: u64) -> (r: String)
    ensures
        r@ == decimal(n as nat),
    decreases n,
{
    let mut s: String = if n < 10 {
        String::new()
    } else {
        decimal_u64(n / 10)
    };
    let last: u8 = (48 + n % 10) as u8;
    s.push(last as char);
    assert(s@ =~= decimal(n as nat));
    s
}

pub fn decimal_i64(n: i64) -> (r: String)
    ensures
        r@ == signed_decimal(n as int),
{
    if n < 0 {
        let count: u64 = (-(n as i128)) as u64;
        let mut s = String::new();
        s.push('-');
        assert(s@ =~= seq!['-']);
        s.append(decimal_u64(count).as_str());
        s
    } else {
        decimal_u64(n as u64)
    }
}

/// The number that a string of decimal digits stands for.
pub open spec fn number(digits: Seq<char>) -> int
    decreases digits.len(),
{
    if digits.len() == 0 {
        0
    } else {
        10 * number(digits.drop_last()) + (digits.last() as int - '0' as int)
    }
}

/// A number in decimal has nothing but digits, no leading zero unless it is zero, and
/// stands for the number.
pub proof fn lemma_decimal(n: nat)
    ensures
        number(decimal(n)) == n,
        decimal(n).len() > 0,
        decimal(n)[0] == '0' <==> n == 0,
        decimal(n).len() > 1 ==> n >= 10,
        forall|i: int| 0 <= i < decimal(n).len() ==> '0' <= #[trigger] decimal(n)[i] <= '9',
    decreases n,
{
    let s = decimal(n);
    if n < 10 {
        assert(s.drop_last() =~= Seq::<char>::empty());
        assert(number(s.drop_last()) == 0);
    } else {
        let before = decimal(n / 10);
        lemma_decimal(n / 10);
        assert(s.drop_last() =~= before);
        assert(s[0] == before[0]);
        assert forall|i: int| 0 <= i < s.len() implies '0' <= #[trigger] s[i] <= '9' by {
            if i < before.len() {
                assert(s[i] == before[i]);
            }
        }
    }
}

/// A negative number in decimal has a minus sign before its digits, and no other number
/// has one. Two numbers are written alike only where they are the same.
pub proof fn lemma_signed_decimal(n: int, m: int)
    ensures
        n >= 0 ==> number(signed_decimal(n)) == n && signed_decimal(n)[0] != '-',
        n < 0 ==> signed_decimal(n)[0] == '-' && number(signed_decimal(n).drop_first()) == -n,
        signed_decimal(n) == signed_decimal(m) ==> n == m,
{
    lemma_decimal((if n < 0 { -n } else { n }) as nat);
    lemma_decimal((if m < 0 { -m } else { m }) as nat);
    if n < 0 {
        assert(signed_decimal(n).drop_first() =~= decimal((-n) as nat));
    }
    if m < 0 {
        assert(signed_decimal(m).drop_first() =~= decimal((-m) as nat));
    }
}

/// A letter of the ASCII alphabet gets the letter in the same place of the upper-case
/// alphabet. Every other character stays.
pub proof fn lemma_ascii_upper(c: char)
    ensures
        'a' <= c <= 'z' ==> 'A' <= ascii_upper(c) <= 'Z' && ascii_upper(c) as int - 'A' as int
            == c as int - 'a' as int,
        !('a' <= c <= 'z') ==> ascii_upper(c) == c,
        ascii_upper(ascii_upper(c)) == ascii_upper(c),
{
}

/// The white space of Unicode, by code point.
pub proof fn lemma_white_space(c: char)
    ensures
        white_space(c) <==> {
            let point = c as int;
            ||| 9 <= point <= 13
            ||| point == 32
            ||| point == 133
            ||| point == 160
            ||| point == 5760
            ||| 8192 <= point <= 8202
            ||| point == 8232
            ||| point == 8233
            ||| point == 8239
            ||| point == 8287
            ||| point == 12288
        },
{
}

/// A string is blank exactly where both of its halves are, wherever it is cut. The empty
/// string is blank, and one character is blank where it is white space.
pub proof fn lemma_blank(a: Seq<char>, b: Seq<char>, c: char)
    ensures
        blank(a + b) <==> blank(a) && blank(b),
        blank(Seq::<char>::empty()),
        blank(seq![c]) <==> white_space(c),
{
    let s = a + b;
    if blank(s) {
        assert forall|i: int| 0 <= i < a.len() implies #[trigger] white_space(a[i]) by {
            assert(white_space(s[i]));
        }
        assert forall|i: int| 0 <= i < b.len() implies #[trigger] white_space(b[i]) by {
            assert(white_space(s[a.len() + i]));
        }
    }
    if blank(a) && blank(b) {
        assert forall|i: int| 0 <= i < s.len() implies #[trigger] white_space(s[i]) by {
            if i < a.len() {
                assert(white_space(a[i]));
            } else {
                assert(white_space(b[i - a.len()]));
            }
        }
    }
    if blank(seq![c]) {
        assert(white_space(seq![c][0]));
    }
}

/// A string begins with what stands before any part of it, ends with what stands after,
/// and holds the part.
pub proof fn lemma_parts(before: Seq<char>, part: Seq<char>, after: Seq<char>)
    ensures
        begins_with(before + part + after, before),
        holds(before + part + after, part),
        ends_with(before + part + after, after),
{
    let s = before + part + after;
    assert(s.take(before.len() as int) =~= before);
    assert(s.skip(s.len() - after.len()) =~= after);
    assert(s.skip(before.len() as int).take(part.len() as int) =~= part);
    assert(begins_with(s.skip(before.len() as int), part));
}

/// What a string begins with stands at its beginning, character for character, and what
/// it ends with at its end.
pub proof fn lemma_ends(s: Seq<char>, part: Seq<char>)
    ensures
        begins_with(s, part) <==> part.len() <= s.len() && forall|i: int|
            0 <= i < part.len() ==> #[trigger] s[i] == part[i],
        ends_with(s, part) <==> part.len() <= s.len() && forall|i: int|
            0 <= i < part.len() ==> s[s.len() - part.len() + i] == #[trigger] part[i],
{
    if part.len() <= s.len() {
        let (head, tail) = (s.take(part.len() as int), s.skip(s.len() - part.len()));
        if head == part {
            assert forall|i: int| 0 <= i < part.len() implies #[trigger] s[i] == part[i] by {
                assert(head[i] == s[i]);
            }
        }
        if forall|i: int| 0 <= i < part.len() ==> #[trigger] s[i] == part[i] {
            assert(head =~= part);
        }
        if tail == part {
            assert forall|i: int| 0 <= i < part.len() implies s[s.len() - part.len() + i]
                == #[trigger] part[i] by {
                assert(tail[i] == s[s.len() - part.len() + i]);
            }
        }
        if forall|i: int|
            0 <= i < part.len() ==> s[s.len() - part.len() + i] == #[trigger] part[i] {
            assert(tail =~= part);
        }
    }
}

} // verus!
