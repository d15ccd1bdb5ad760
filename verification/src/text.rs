//! Verified text helpers: decimal rendering of integers and character-level
//! string predicates (equality, prefix, substring search).

use vstd::prelude::*;
use vstd::string::StringSliceAdditionalSpecFns;
use vstd::string::StrSliceExecFns;
use vstd::string::StringExecFns;

verus! {

/// The character for a single decimal digit.
pub open spec fn digit_char(d: int) -> char {
    if d == 0 {
        '0'
    } else if d == 1 {
        '1'
    } else if d == 2 {
        '2'
    } else if d == 3 {
        '3'
    } else if d == 4 {
        '4'
    } else if d == 5 {
        '5'
    } else if d == 6 {
        '6'
    } else if d == 7 {
        '7'
    } else if d == 8 {
        '8'
    } else {
        '9'
    }
}

/// The decimal representation of `n`: most significant digit first,
/// no leading zeros (`0` is written as the single character `'0'`).
pub open spec fn spec_decimal(n: nat) -> Seq<char>
    decreases n,
{
    if n < 10 {
        seq![digit_char(n as int)]
    } else {
        spec_decimal(n / 10).push(digit_char((n % 10) as int))
    }
}

fn digit_str(d: usize) -> (r: &'static str)
    requires
        d < 10,
    ensures
        r@ == seq![digit_char(d as int)],
{
    match d {
        0 => {
            proof {
                reveal_strlit("0");
                assert("0"@ =~= seq![digit_char(0)]);
            }
            "0"
        },
        1 => {
            proof {
                reveal_strlit("1");
                assert("1"@ =~= seq![digit_char(1)]);
            }
            "1"
        },
        2 => {
            proof {
                reveal_strlit("2");
                assert("2"@ =~= seq![digit_char(2)]);
            }
            "2"
        },
        3 => {
            proof {
                reveal_strlit("3");
                assert("3"@ =~= seq![digit_char(3)]);
            }
            "3"
        },
        4 => {
            proof {
                reveal_strlit("4");
                assert("4"@ =~= seq![digit_char(4)]);
            }
            "4"
        },
        5 => {
            proof {
                reveal_strlit("5");
                assert("5"@ =~= seq![digit_char(5)]);
            }
            "5"
        },
        6 => {
            proof {
                reveal_strlit("6");
                assert("6"@ =~= seq![digit_char(6)]);
            }
            "6"
        },
        7 => {
            proof {
                reveal_strlit("7");
                assert("7"@ =~= seq![digit_char(7)]);
            }
            "7"
        },
        8 => {
            proof {
                reveal_strlit("8");
                assert("8"@ =~= seq![digit_char(8)]);
            }
            "8"
        },
        _ => {
            proof {
                reveal_strlit("9");
                assert("9"@ =~= seq![digit_char(9)]);
            }
            "9"
        },
    }
}

fn push_decimal(s: &mut String, n: usize)
    ensures
        final(s)@ == old(s)@ + spec_decimal(n as nat),
    decreases n,
{
    if n >= 10 {
        push_decimal(s, n / 10);
    }
    let ghost mid = s@;
    let d = digit_str(n % 10);
    s.append(d);
    proof {
        if n < 10 {
            assert(old(s)@ + seq![digit_char((n % 10) as int)] =~= old(s)@ + spec_decimal(
                n as nat,
            ));
        } else {
            assert((old(s)@ + spec_decimal((n / 10) as nat)) + seq![digit_char((n % 10) as int)]
                =~= old(s)@ + spec_decimal(n as nat));
        }
    }
}

/// Renders `n` in decimal, exactly as its mathematical decimal representation.
pub fn usize_to_string(n: usize) -> (r: String)
    ensures
        r@ == spec_decimal(n as nat),
{
    let mut s = String::new();
    push_decimal(&mut s, n);
    proof {
        assert(Seq::<char>::empty() + spec_decimal(n as nat) =~= spec_decimal(n as nat));
    }
    s
}

/// Character-for-character string equality.
pub fn str_eq(a: &str, b: &str) -> (r: bool)
    ensures
        r == (a@ == b@),
{
    let alen = a.unicode_len();
    if alen != b.unicode_len() {
        return false;
    }
    let mut i: usize = 0;
    while i < alen
        invariant
            i <= alen,
            alen == a@.len(),
            alen == b@.len(),
            forall|k: int| 0 <= k < i ==> a@[k] == b@[k],
        decreases alen - i,
    {
        if a.get_char(i) != b.get_char(i) {
            return false;
        }
        i += 1;
    }
    proof {
        assert(a@ =~= b@);
    }
    true
}

/// Saturating 16-bit addition.
pub open spec fn sat_add16(a: u16, b: u16) -> u16 {
    if a + b > u16::MAX {
        u16::MAX
    } else {
        (a + b) as u16
    }
}

/// Saturating 16-bit subtraction.
pub open spec fn sat_sub16(a: u16, b: u16) -> u16 {
    if a >= b {
        (a - b) as u16
    } else {
        0
    }
}

pub open spec fn min16(a: u16, b: u16) -> u16 {
    if a <= b {
        a
    } else {
        b
    }
}

proof fn lemma_sat_add16_assoc(a: u16, b: u16, c: u16)
    ensures
        sat_add16(a, sat_add16(b, c)) == sat_add16(sat_add16(a, b), c),
{
}

/// The length of the first line: the index of the first newline byte, or
/// the whole length where none occurs.
pub open spec fn line_break(b: Seq<u8>) -> nat
    decreases b.len(),
{
    if b.len() == 0 {
        0
    } else if b[0] == 10 {
        0
    } else {
        1 + line_break(b.drop_first())
    }
}

proof fn lemma_line_break_at(b: Seq<u8>, k: int)
    requires
        0 <= k <= b.len(),
        forall|j: int| 0 <= j < k ==> b[j] != 10,
        k < b.len() ==> b[k] == 10,
    ensures
        line_break(b) == k,
    decreases k,
{
    if k > 0 {
        lemma_line_break_at(b.drop_first(), k - 1);
    }
}

/// The rows one line of `n` bytes occupies when wrapped at `width` columns:
/// its length, truncated to 16 bits as the drawing layer measures it,
/// divided by the width, plus one.
pub open spec fn spec_line_rows(n: nat, width: u16) -> u16
    recommends
        width >= 1,
{
    sat_add16((((n as u16) as int) / (width as int)) as u16, 1)
}

/// The rows a text occupies when each of its newline-separated lines wraps
/// at `width` columns; the row counts add up, saturating at the 16-bit
/// maximum. A trailing newline ends the last line without starting a new
/// one.
pub open spec fn spec_wrapped_height(b: Seq<u8>, width: u16) -> u16
    recommends
        width >= 1,
    decreases b.len(),
{
    if b.len() == 0 {
        0
    } else {
        let k = line_break(b);
        if k >= b.len() {
            spec_line_rows(b.len(), width)
        } else {
            sat_add16(
                spec_line_rows(k, width),
                spec_wrapped_height(b.skip(k as int + 1), width),
            )
        }
    }
}

/// Measures the rows `s` occupies when each line wraps at `width` columns.
pub fn wrapped_height(s: &str, width: u16) -> (h: u16)
    requires
        width >= 1,
    ensures
        h == spec_wrapped_height(s.spec_bytes(), width),
{
    let bytes = s.as_bytes();
    proof {
        assert(bytes@.skip(0) =~= bytes@);
    }
    let mut acc: u16 = 0;
    let mut ls: usize = 0;
    let mut i: usize = 0;
    let mut cur: usize = 0;
    while i < bytes.len()
        invariant
            bytes@ == s.spec_bytes(),
            ls <= i <= bytes@.len(),
            cur == i - ls,
            width >= 1,
            forall|j: int| ls <= j < i ==> bytes@[j] != 10,
            sat_add16(acc, spec_wrapped_height(bytes@.skip(ls as int), width))
                == spec_wrapped_height(bytes@, width),
        decreases bytes@.len() - i,
    {
        if bytes[i] == 10 {
            let ghost tail = bytes@.skip(ls as int);
            proof {
                lemma_line_break_at(tail, cur as int);
                assert(tail.skip(cur + 1) =~= bytes@.skip(i + 1));
                lemma_sat_add16_assoc(
                    acc,
                    spec_line_rows(cur as nat, width),
                    spec_wrapped_height(bytes@.skip(i + 1), width),
                );
            }
            let rows = line_rows(cur, width);
            acc = acc.saturating_add(rows);
            ls = i + 1;
            cur = 0;
        } else {
            cur = cur + 1;
        }
        i += 1;
    }
    if cur > 0 {
        let ghost tail = bytes@.skip(ls as int);
        proof {
            lemma_line_break_at(tail, cur as int);
        }
        let rows = line_rows(cur, width);
        acc = acc.saturating_add(rows);
    } else {
        proof {
            assert(bytes@.skip(ls as int) =~= Seq::<u8>::empty());
        }
    }
    acc
}

fn line_rows(n: usize, width: u16) -> (r: u16)
    requires
        width >= 1,
    ensures
        r == spec_line_rows(n as nat, width),
{
    let t = #[verifier::truncate] (n as u16);
    (t / width).saturating_add(1)
}

/// A run of `n` spaces.
pub fn repeat_spaces(n: usize) -> (r: String)
    ensures
        r@ == Seq::new(n as nat, |i: int| ' '),
{
    let mut s = String::new();
    let mut i: usize = 0;
    while i < n
        invariant
            i <= n,
            s@ == Seq::new(i as nat, |k: int| ' '),
        decreases n - i,
    {
        proof {
            reveal_strlit(" ");
        }
        s.append(" ");
        proof {
            assert(s@ =~= Seq::new((i + 1) as nat, |k: int| ' '));
        }
        i += 1;
    }
    s
}

/// `p` is a prefix of `s`.
pub open spec fn spec_starts_with(s: Seq<char>, p: Seq<char>) -> bool {
    p.len() <= s.len() && s.subrange(0, p.len() as int) == p
}

pub fn str_starts_with(s: &str, p: &str) -> (r: bool)
    ensures
        r == spec_starts_with(s@, p@),
{
    let plen = p.unicode_len();
    if plen > s.unicode_len() {
        return false;
    }
    let mut i: usize = 0;
    while i < plen
        invariant
            i <= plen,
            plen == p@.len(),
            plen <= s@.len(),
            forall|k: int| 0 <= k < i ==> s@[k] == p@[k],
        decreases plen - i,
    {
        if s.get_char(i) != p.get_char(i) {
            proof {
                assert(s@.subrange(0, p@.len() as int)[i as int] != p@[i as int]);
            }
            return false;
        }
        i += 1;
    }
    proof {
        assert(s@.subrange(0, p@.len() as int) =~= p@);
    }
    true
}

/// `p` occurs somewhere in `s` as a contiguous run.
pub open spec fn spec_contains(s: Seq<char>, p: Seq<char>) -> bool {
    exists|i: int|
        0 <= i && i + p.len() <= s.len() && #[trigger] s.subrange(i, i + p.len() as int) == p
}

fn match_at(s: &str, p: &str, at: usize) -> (r: bool)
    requires
        at + p@.len() <= s@.len(),
    ensures
        r == (s@.subrange(at as int, at + p@.len() as int) == p@),
{
    let slen = s.unicode_len();
    let plen = p.unicode_len();
    let mut j: usize = 0;
    while j < plen
        invariant
            j <= plen,
            plen == p@.len(),
            slen == s@.len(),
            at + plen <= s@.len(),
            forall|k: int| 0 <= k < j ==> s@[at + k] == p@[k],
        decreases plen - j,
    {
        if s.get_char(at + j) != p.get_char(j) {
            proof {
                assert(s@.subrange(at as int, at + p@.len() as int)[j as int] != p@[j as int]);
            }
            return false;
        }
        j += 1;
    }
    proof {
        assert(s@.subrange(at as int, at + p@.len() as int) =~= p@);
    }
    true
}

pub fn str_contains(s: &str, p: &str) -> (r: bool)
    ensures
        r == spec_contains(s@, p@),
{
    let slen = s.unicode_len();
    let plen = p.unicode_len();
    if plen > slen {
        return false;
    }
    if plen == 0 {
        proof {
            assert(s@.subrange(0, 0) =~= p@);
            assert(s@.subrange(0, 0 + p@.len() as int) == p@);
        }
        return true;
    }
    let limit = slen - plen;
    let mut i: usize = 0;
    while i <= limit
        invariant
            plen == p@.len(),
            slen == s@.len(),
            1 <= plen <= slen,
            limit == slen - plen,
            i <= limit + 1,
            forall|k: int|
                0 <= k < i ==> #[trigger] s@.subrange(k, k + p@.len() as int) != p@,
        decreases limit + 1 - i,
    {
        if match_at(s, p, i) {
            return true;
        }
        i += 1;
    }
    false
}

} // verus!
