//! The persistence format of the read-history document: one JSON object
//! with one field per topic label, each an array of ids in ascending order,
//! written without whitespace. `encode_history` writes the canonical form;
//! `parse_history` accepts exactly that canonical form and rejects anything
//! else, so a corrupt file degrades to "nothing recorded" at the caller.
//! Parsing a document back yields exactly the ids that were written.

use vstd::prelude::*;
use vstd::string::StringExecFns;

use crate::storages::read_history::sorted_strict;
use crate::storages::read_history::ReadHistoryData;
use crate::text::digit_char;
use crate::text::spec_decimal;
use crate::text::usize_to_string;

verus! {

/// The ids of one topic, written in order and separated by commas.
pub open spec fn spec_ids_list(ids: Seq<usize>) -> Seq<char>
    decreases ids.len(),
{
    if ids.len() == 0 {
        Seq::empty()
    } else if ids.len() == 1 {
        spec_decimal(ids[0] as nat)
    } else {
        spec_decimal(ids[0] as nat) + ","@ + spec_ids_list(ids.drop_first())
    }
}

/// One topic's field: the quoted label, a colon, and the bracketed id list.
#[verifier::opaque]
pub open spec fn spec_block(label: Seq<char>, ids: Seq<usize>) -> Seq<char> {
    "\""@ + label + "\":["@ + spec_ids_list(ids) + "]"@
}

/// The whole document: the five topic fields, in a fixed order, inside one
/// object.
#[verifier::opaque]
pub open spec fn spec_encode(d: ReadHistoryData) -> Seq<char> {
    "{"@ + spec_block("Top"@, d.top@) + ","@ + spec_block("New"@, d.new@) + ","@ + spec_block(
        "Show"@,
        d.show@,
    ) + ","@ + spec_block("Best"@, d.best@) + ","@ + spec_block("Jobs"@, d.jobs@) + "}"@
}

fn encode_ids_from(ids: &Vec<usize>, from: usize) -> (r: String)
    requires
        from <= ids@.len(),
    ensures
        r@ == spec_ids_list(ids@.skip(from as int)),
    decreases ids@.len() - from,
{
    if from >= ids.len() {
        let r = String::new();
        proof {
            assert(ids@.skip(from as int) =~= Seq::<usize>::empty());
        }
        r
    } else if from + 1 == ids.len() {
        let r = usize_to_string(ids[from]);
        proof {
            assert(ids@.skip(from as int).len() == 1);
            assert(ids@.skip(from as int)[0] == ids@[from as int]);
        }
        r
    } else {
        let mut r = usize_to_string(ids[from]);
        r.append(",");
        let rest = encode_ids_from(ids, from + 1);
        r.append(rest.as_str());
        proof {
            let tail = ids@.skip(from as int);
            assert(tail.drop_first() =~= ids@.skip(from as int + 1));
            assert(tail[0] == ids@[from as int]);
            assert(r@ =~= spec_decimal(tail[0] as nat) + ","@ + spec_ids_list(tail.drop_first()));
        }
        r
    }
}

fn encode_block(label: &str, ids: &Vec<usize>) -> (r: String)
    ensures
        r@ == spec_block(label@, ids@),
{
    let mut r = String::from_str("\"");
    r.append(label);
    r.append("\":[");
    let list = encode_ids_from(ids, 0);
    r.append(list.as_str());
    r.append("]");
    proof {
        reveal(spec_block);
        assert(ids@.skip(0) =~= ids@);
        assert(r@ =~= spec_block(label@, ids@));
    }
    r
}

/// Writes the document in its canonical persisted form.
pub fn encode_history(doc: &ReadHistoryData) -> (r: String)
    ensures
        r@ == spec_encode(*doc),
{
    let mut r = String::from_str("{");
    let b = encode_block("Top", &doc.top);
    r.append(b.as_str());
    r.append(",");
    let b = encode_block("New", &doc.new);
    r.append(b.as_str());
    r.append(",");
    let b = encode_block("Show", &doc.show);
    r.append(b.as_str());
    r.append(",");
    let b = encode_block("Best", &doc.best);
    r.append(b.as_str());
    r.append(",");
    let b = encode_block("Jobs", &doc.jobs);
    r.append(b.as_str());
    r.append("}");
    proof {
        reveal(spec_encode);
        reveal(spec_block);
        assert(r@ =~= spec_encode(*doc));
    }
    r
}

/// The value of a decimal digit character, `-1` for any other character.
pub open spec fn digit_val(c: char) -> int {
    if c == '0' {
        0
    } else if c == '1' {
        1
    } else if c == '2' {
        2
    } else if c == '3' {
        3
    } else if c == '4' {
        4
    } else if c == '5' {
        5
    } else if c == '6' {
        6
    } else if c == '7' {
        7
    } else if c == '8' {
        8
    } else if c == '9' {
        9
    } else {
        -1
    }
}

pub open spec fn is_digit(c: char) -> bool {
    digit_val(c) >= 0
}

/// The length of the run of digit characters starting at `pos`.
pub open spec fn digits_run(s: Seq<char>, pos: int) -> nat
    decreases s.len() - pos,
{
    if pos < 0 || pos >= s.len() || !is_digit(s[pos]) {
        0
    } else {
        1 + digits_run(s, pos + 1)
    }
}

/// The value of a run of digit characters, most significant first.
pub open spec fn digits_val(ds: Seq<char>) -> nat
    decreases ds.len(),
{
    if ds.len() == 0 {
        0
    } else {
        (digits_val(ds.drop_last()) * 10 + (if digit_val(ds.last()) >= 0 {
            digit_val(ds.last())
        } else {
            0
        })) as nat
    }
}

/// Parses one canonical decimal number at `pos`: a non-empty digit run, no
/// leading zero, at most twenty digits, value within `usize`.
pub open spec fn spec_parse_usize(s: Seq<char>, pos: int) -> Option<(usize, int)> {
    let k = digits_run(s, pos);
    if pos < 0 || pos > s.len() {
        Option::None
    } else if k == 0 {
        Option::None
    } else if s[pos] == '0' && k > 1 {
        Option::None
    } else if k > 20 {
        Option::None
    } else {
        let v = digits_val(s.subrange(pos, pos + k as int));
        if v > usize::MAX as int {
            Option::None
        } else {
            Option::Some((v as usize, pos + k as int))
        }
    }
}

/// Parses `(',' number)*`, stopping at the first position holding no comma.
pub open spec fn spec_parse_ids_tail(s: Seq<char>, pos: int) -> Option<(Seq<usize>, int)>
    decreases s.len() - pos,
{
    if 0 <= pos < s.len() && s[pos] == ',' {
        match spec_parse_usize(s, pos + 1) {
            Option::None => Option::None,
            Option::Some((v, p2)) => if p2 <= s.len() {
                match spec_parse_ids_tail(s, p2) {
                    Option::None => Option::None,
                    Option::Some((rest, p3)) => Option::Some((seq![v] + rest, p3)),
                }
            } else {
                Option::None
            },
        }
    } else {
        Option::Some((Seq::empty(), pos))
    }
}

/// Parses a possibly empty comma-separated id list; an empty list is
/// recognized by the closing bracket that follows it.
pub open spec fn spec_parse_ids(s: Seq<char>, pos: int) -> Option<(Seq<usize>, int)> {
    if 0 <= pos < s.len() && s[pos] == ']' {
        Option::Some((Seq::empty(), pos))
    } else {
        match spec_parse_usize(s, pos) {
            Option::None => Option::None,
            Option::Some((v, p2)) => if p2 <= s.len() {
                match spec_parse_ids_tail(s, p2) {
                    Option::None => Option::None,
                    Option::Some((rest, p3)) => Option::Some((seq![v] + rest, p3)),
                }
            } else {
                Option::None
            },
        }
    }
}

/// The exact literal `lit` at `pos`.
pub open spec fn spec_expect(s: Seq<char>, pos: int, lit: Seq<char>) -> Option<int> {
    if 0 <= pos && pos + lit.len() <= s.len() && s.subrange(pos, pos + lit.len() as int) == lit {
        Option::Some(pos + lit.len() as int)
    } else {
        Option::None
    }
}

/// One topic's field: the quoted label, the colon, and the bracketed list.
pub open spec fn spec_parse_block(s: Seq<char>, pos: int, label: Seq<char>) -> Option<
    (Seq<usize>, int),
> {
    match spec_expect(s, pos, "\""@ + label + "\":["@) {
        Option::None => Option::None,
        Option::Some(p1) => match spec_parse_ids(s, p1) {
            Option::None => Option::None,
            Option::Some((ids, p2)) => match spec_expect(s, p2, "]"@) {
                Option::None => Option::None,
                Option::Some(p3) => Option::Some((ids, p3)),
            },
        },
    }
}

/// The whole document, in its canonical form and nothing after it, with
/// every topic's ids strictly ascending.
pub open spec fn spec_parse_history(s: Seq<char>) -> Option<
    (Seq<usize>, Seq<usize>, Seq<usize>, Seq<usize>, Seq<usize>),
> {
    match spec_expect(s, 0, "{"@) {
        Option::None => Option::None,
        Option::Some(p0) => match spec_parse_block(s, p0, "Top"@) {
            Option::None => Option::None,
            Option::Some((top, p1)) => match spec_expect(s, p1, ","@) {
                Option::None => Option::None,
                Option::Some(p1c) => match spec_parse_block(s, p1c, "New"@) {
                    Option::None => Option::None,
                    Option::Some((new, p2)) => match spec_expect(s, p2, ","@) {
                        Option::None => Option::None,
                        Option::Some(p2c) => match spec_parse_block(s, p2c, "Show"@) {
                            Option::None => Option::None,
                            Option::Some((show, p3)) => match spec_expect(s, p3, ","@) {
                                Option::None => Option::None,
                                Option::Some(p3c) => match spec_parse_block(s, p3c, "Best"@) {
                                    Option::None => Option::None,
                                    Option::Some((best, p4)) => match spec_expect(s, p4, ","@) {
                                        Option::None => Option::None,
                                        Option::Some(p4c) => match spec_parse_block(
                                            s,
                                            p4c,
                                            "Jobs"@,
                                        ) {
                                            Option::None => Option::None,
                                            Option::Some((jobs, p5)) => match spec_expect(
                                                s,
                                                p5,
                                                "}"@,
                                            ) {
                                                Option::None => Option::None,
                                                Option::Some(p6) => if p6 == s.len()
                                                    && sorted_strict(top) && sorted_strict(new)
                                                    && sorted_strict(show) && sorted_strict(best)
                                                    && sorted_strict(jobs) {
                                                    Option::Some((top, new, show, best, jobs))
                                                } else {
                                                    Option::None
                                                },
                                            },
                                        },
                                    },
                                },
                            },
                        },
                    },
                },
            },
        },
    }
}

proof fn lemma_digit_char(d: int)
    requires
        0 <= d <= 9,
    ensures
        digit_val(digit_char(d)) == d,
        digit_char(d) != ',',
        digit_char(d) != ']',
        d >= 1 ==> digit_char(d) != '0',
{
}

proof fn lemma_decimal_digits(n: nat)
    ensures
        spec_decimal(n).len() >= 1,
        forall|i: int| 0 <= i < spec_decimal(n).len() ==> is_digit(#[trigger] spec_decimal(n)[i]),
        n >= 1 ==> spec_decimal(n)[0] != '0',
        n < 10 ==> spec_decimal(n).len() == 1,
        n >= 10 ==> spec_decimal(n).len() >= 2,
    decreases n,
{
    if n < 10 {
        lemma_digit_char(n as int);
    } else {
        lemma_decimal_digits(n / 10);
        lemma_digit_char((n % 10) as int);
        assert(spec_decimal(n) == spec_decimal(n / 10).push(digit_char((n % 10) as int)));
        assert(spec_decimal(n)[0] == spec_decimal(n / 10)[0]);
        assert(n / 10 >= 1);
    }
}

proof fn lemma_decimal_val(n: nat)
    ensures
        digits_val(spec_decimal(n)) == n,
    decreases n,
{
    if n < 10 {
        lemma_digit_char(n as int);
        assert(digits_val(Seq::<char>::empty()) == 0);
        assert(spec_decimal(n).drop_last() =~= Seq::<char>::empty());
        assert(spec_decimal(n).last() == digit_char(n as int));
    } else {
        lemma_decimal_val(n / 10);
        lemma_digit_char((n % 10) as int);
        let ds = spec_decimal(n);
        assert(ds == spec_decimal(n / 10).push(digit_char((n % 10) as int)));
        assert(ds.drop_last() =~= spec_decimal(n / 10));
        assert(ds.last() == digit_char((n % 10) as int));
        assert(n / 10 * 10 + n % 10 == n);
    }
}

spec fn pow10(k: nat) -> nat
    decreases k,
{
    if k == 0 {
        1nat
    } else {
        10 * pow10((k - 1) as nat)
    }
}

proof fn lemma_decimal_len_bound(n: nat, k: nat)
    requires
        k >= 1,
        n < pow10(k),
    ensures
        spec_decimal(n).len() <= k,
    decreases k,
{
    if n < 10 {
    } else {
        assert(pow10(k) == 10 * pow10((k - 1) as nat));
        assert(n / 10 * 10 + n % 10 == n);
        assert(n / 10 < pow10((k - 1) as nat));
        assert(k - 1 >= 1) by {
            if k == 1 {
                assert(pow10(1nat) == 10 * pow10(0nat));
                assert(pow10(0nat) == 1);
            }
        }
        lemma_decimal_len_bound(n / 10, (k - 1) as nat);
    }
}

proof fn lemma_decimal_len_20(n: nat)
    requires
        n <= usize::MAX,
    ensures
        spec_decimal(n).len() <= 20,
{
    assert(pow10(20nat) == 100000000000000000000) by {
        reveal_with_fuel(pow10, 21);
    }
    assert(usize::MAX <= u64::MAX);
    lemma_decimal_len_bound(n, 20);
}

proof fn lemma_digits_run_exact(s: Seq<char>, pos: int, k: int)
    requires
        0 <= pos,
        0 <= k,
        pos + k <= s.len(),
        forall|j: int| 0 <= j < k ==> is_digit(#[trigger] s[pos + j]),
        pos + k == s.len() || !is_digit(s[pos + k]),
    ensures
        digits_run(s, pos) == k,
    decreases k,
{
    if k == 0 {
    } else {
        assert(is_digit(s[pos + 0]));
        assert forall|j: int| 0 <= j < k - 1 implies is_digit(#[trigger] s[pos + 1 + j]) by {
            assert(is_digit(s[pos + (j + 1)]));
        }
        lemma_digits_run_exact(s, pos + 1, k - 1);
    }
}

proof fn lemma_parse_decimal(s: Seq<char>, pos: int, n: usize)
    requires
        0 <= pos,
        pos + spec_decimal(n as nat).len() <= s.len(),
        s.subrange(pos, pos + spec_decimal(n as nat).len() as int) == spec_decimal(n as nat),
        pos + spec_decimal(n as nat).len() == s.len() || !is_digit(
            s[pos + spec_decimal(n as nat).len() as int],
        ),
    ensures
        spec_parse_usize(s, pos) == Option::Some(
            (n, pos + spec_decimal(n as nat).len() as int),
        ),
{
    let ds = spec_decimal(n as nat);
    let len = ds.len() as int;
    lemma_decimal_digits(n as nat);
    assert(forall|j: int| 0 <= j < len ==> #[trigger] s[pos + j] == ds[j]) by {
        assert(forall|j: int|
            0 <= j < len ==> s.subrange(pos, pos + len)[j] == #[trigger] s[pos + j]);
    }
    lemma_digits_run_exact(s, pos, len);
    assert(digits_run(s, pos) == len);
    assert(s[pos + 0] == ds[0]);
    if len > 1 {
        assert(n >= 10);
        assert(s[pos] != '0');
    }
    lemma_decimal_len_20(n as nat);
    lemma_decimal_val(n as nat);
    assert(s.subrange(pos, pos + len) == ds);
    assert(digits_val(s.subrange(pos, pos + len)) == n);
}

/// What follows the first number of a non-empty id list: a comma and a
/// number for each remaining id.
pub open spec fn spec_ids_tail_list(ids: Seq<usize>) -> Seq<char>
    decreases ids.len(),
{
    if ids.len() == 0 {
        Seq::empty()
    } else {
        ","@ + spec_decimal(ids[0] as nat) + spec_ids_tail_list(ids.drop_first())
    }
}

proof fn lemma_ids_list_decompose(ids: Seq<usize>)
    requires
        ids.len() >= 1,
    ensures
        spec_ids_list(ids) == spec_decimal(ids[0] as nat) + spec_ids_tail_list(ids.drop_first()),
    decreases ids.len(),
{
    if ids.len() == 1 {
        assert(ids.drop_first().len() == 0);
        assert(spec_ids_list(ids) =~= spec_decimal(ids[0] as nat) + spec_ids_tail_list(
            ids.drop_first(),
        ));
    } else {
        let df = ids.drop_first();
        lemma_ids_list_decompose(df);
        assert(spec_ids_list(ids) =~= spec_decimal(ids[0] as nat) + spec_ids_tail_list(df));
    }
}

proof fn lemma_comma_bracket_not_digit()
    ensures
        !is_digit(','),
        !is_digit(']'),
{
}

proof fn proof_reveal_comma()
    ensures
        ","@.len() == 1,
        ","@[0] == ',',
{
    reveal_strlit(",");
}

proof fn lemma_parse_tail_encode(s: Seq<char>, pos: int, rest: Seq<usize>)
    requires
        0 <= pos,
        pos + spec_ids_tail_list(rest).len() < s.len(),
        s.subrange(pos, pos + spec_ids_tail_list(rest).len() as int) == spec_ids_tail_list(rest),
        s[pos + spec_ids_tail_list(rest).len() as int] == ']',
    ensures
        spec_parse_ids_tail(s, pos) == Option::Some(
            (rest, pos + spec_ids_tail_list(rest).len() as int),
        ),
    decreases rest.len(),
{
    let tl = spec_ids_tail_list(rest);
    let tlen = tl.len() as int;
    proof_reveal_comma();
    assert(forall|j: int| 0 <= j < tlen ==> #[trigger] s[pos + j] == tl[j]) by {
        assert(forall|j: int| 0 <= j < tlen ==> s.subrange(pos, pos + tlen)[j] == #[trigger] s[pos
            + j]);
    }
    if rest.len() == 0 {
        assert(s[pos] == ']');
        assert(spec_parse_ids_tail(s, pos) == Option::Some((Seq::<usize>::empty(), pos)));
        assert(rest =~= Seq::<usize>::empty());
    } else {
        let n = rest[0];
        let ds = spec_decimal(n as nat);
        let dlen = ds.len() as int;
        let tl2 = spec_ids_tail_list(rest.drop_first());
        lemma_decimal_digits(n as nat);
        assert(tl == ","@ + ds + tl2);
        assert(tl[0] == ',') by {
            reveal_strlit(",");
        }
        assert(s[pos] == ',');
        // the number sits right after the comma
        assert(forall|j: int| 0 <= j < dlen ==> tl[1 + j] == ds[j]);
        assert(s.subrange(pos + 1, pos + 1 + dlen) =~= ds) by {
            assert(forall|j: int|
                0 <= j < dlen ==> s.subrange(pos + 1, pos + 1 + dlen)[j] == #[trigger] s[pos + 1
                    + j]);
        }
        // and the character after it is a comma or the closing bracket
        let p2 = pos + 1 + dlen;
        assert(tlen == 1 + dlen + tl2.len());
        if rest.drop_first().len() == 0 {
            assert(tl2.len() == 0);
            assert(p2 == pos + tlen);
            assert(s[p2] == ']');
            lemma_comma_bracket_not_digit();
        } else {
            assert(tl2[0] == ',') by {
                reveal_strlit(",");
            }
            assert(tl[1 + dlen + 0] == tl2[0]);
            assert(s[p2] == ',');
            lemma_comma_bracket_not_digit();
        }
        lemma_parse_decimal(s, pos + 1, n);
        assert(spec_parse_usize(s, pos + 1) == Option::Some((n, p2)));
        // the rest of the tail follows
        assert(s.subrange(p2, p2 + tl2.len() as int) =~= tl2) by {
            assert(forall|j: int|
                0 <= j < tl2.len() ==> s.subrange(p2, p2 + tl2.len() as int)[j] == #[trigger] s[p2
                    + j]);
            assert(forall|j: int| 0 <= j < tl2.len() ==> tl[1 + dlen + j] == tl2[j]);
            assert(forall|j: int| 0 <= j < tl2.len() ==> #[trigger] s[p2 + j] == s[pos + (1 + dlen
                + j)]);
        }
        assert(s[p2 + tl2.len() as int] == ']');
        lemma_parse_tail_encode(s, p2, rest.drop_first());
        assert(seq![n] + rest.drop_first() =~= rest);
    }
}

proof fn lemma_parse_ids_encode(s: Seq<char>, pos: int, ids: Seq<usize>)
    requires
        0 <= pos,
        pos + spec_ids_list(ids).len() < s.len(),
        s.subrange(pos, pos + spec_ids_list(ids).len() as int) == spec_ids_list(ids),
        s[pos + spec_ids_list(ids).len() as int] == ']',
    ensures
        spec_parse_ids(s, pos) == Option::Some((ids, pos + spec_ids_list(ids).len() as int)),
{
    let ls = spec_ids_list(ids);
    let llen = ls.len() as int;
    proof_reveal_comma();
    assert(forall|j: int| 0 <= j < llen ==> #[trigger] s[pos + j] == ls[j]) by {
        assert(forall|j: int| 0 <= j < llen ==> s.subrange(pos, pos + llen)[j] == #[trigger] s[pos
            + j]);
    }
    if ids.len() == 0 {
        assert(llen == 0);
        assert(s[pos] == ']');
        assert(ids =~= Seq::<usize>::empty());
    } else {
        let n = ids[0];
        let ds = spec_decimal(n as nat);
        let dlen = ds.len() as int;
        let tl = spec_ids_tail_list(ids.drop_first());
        lemma_ids_list_decompose(ids);
        assert(ls == ds + tl);
        lemma_decimal_digits(n as nat);
        assert(ls[0] == ds[0]);
        assert(is_digit(s[pos]));
        lemma_comma_bracket_not_digit();
        assert(s[pos] != ']');
        assert(s.subrange(pos, pos + dlen) =~= ds) by {
            assert(forall|j: int|
                0 <= j < dlen ==> s.subrange(pos, pos + dlen)[j] == #[trigger] s[pos + j]);
        }
        let p2 = pos + dlen;
        assert(llen == dlen + tl.len());
        if ids.drop_first().len() == 0 {
            assert(tl.len() == 0);
            assert(s[p2] == ']');
        } else {
            assert(tl[0] == ',') by {
                reveal_strlit(",");
            }
            assert(ls[dlen + 0] == tl[0]);
            assert(s[p2] == ',');
        }
        lemma_parse_decimal(s, pos, n);
        assert(spec_parse_usize(s, pos) == Option::Some((n, p2)));
        assert(s.subrange(p2, p2 + tl.len() as int) =~= tl) by {
            assert(forall|j: int|
                0 <= j < tl.len() ==> s.subrange(p2, p2 + tl.len() as int)[j] == #[trigger] s[p2
                    + j]);
            assert(forall|j: int| 0 <= j < tl.len() ==> ls[dlen + j] == tl[j]);
            assert(forall|j: int| 0 <= j < tl.len() ==> #[trigger] s[p2 + j] == s[pos + (dlen
                + j)]);
        }
        assert(s[p2 + tl.len() as int] == ']');
        lemma_parse_tail_encode(s, p2, ids.drop_first());
        assert(seq![n] + ids.drop_first() =~= ids);
    }
}

proof fn lemma_parse_block_encode(s: Seq<char>, pos: int, label: Seq<char>, ids: Seq<usize>)
    requires
        0 <= pos,
        pos + spec_block(label, ids).len() <= s.len(),
        s.subrange(pos, pos + spec_block(label, ids).len() as int) == spec_block(label, ids),
    ensures
        spec_parse_block(s, pos, label) == Option::Some(
            (ids, pos + spec_block(label, ids).len() as int),
        ),
{
    let lit = "\""@ + label + "\":["@;
    let ls = spec_ids_list(ids);
    let block = spec_block(label, ids);
    let blen = block.len() as int;
    let litlen = lit.len() as int;
    let llen = ls.len() as int;
    reveal(spec_block);
    reveal_strlit("\"");
    reveal_strlit("\":[");
    reveal_strlit("]");
    assert(block == lit + ls + "]"@) by {
        assert(("\""@ + label + "\":["@ + ls + "]"@) =~= (lit + ls + "]"@));
    }
    assert(blen == litlen + llen + 1);
    assert(forall|j: int| 0 <= j < blen ==> #[trigger] s[pos + j] == block[j]) by {
        assert(forall|j: int| 0 <= j < blen ==> s.subrange(pos, pos + blen)[j] == #[trigger] s[pos
            + j]);
    }
    assert(s.subrange(pos, pos + litlen) =~= lit) by {
        assert(forall|j: int|
            0 <= j < litlen ==> s.subrange(pos, pos + litlen)[j] == #[trigger] s[pos + j]);
        assert(forall|j: int| 0 <= j < litlen ==> block[j] == lit[j]);
    }
    assert(spec_expect(s, pos, lit) == Option::Some(pos + litlen));
    let p1 = pos + litlen;
    assert(s.subrange(p1, p1 + llen) =~= ls) by {
        assert(forall|j: int|
            0 <= j < llen ==> s.subrange(p1, p1 + llen)[j] == #[trigger] s[p1 + j]);
        assert(forall|j: int| 0 <= j < llen ==> block[litlen + j] == ls[j]);
        assert(forall|j: int| 0 <= j < llen ==> #[trigger] s[p1 + j] == s[pos + (litlen + j)]);
    }
    let p2 = p1 + llen;
    assert(block[litlen + llen] == ']');
    assert(s[p2] == ']');
    lemma_parse_ids_encode(s, p1, ids);
    assert(spec_parse_ids(s, p1) == Option::Some((ids, p2)));
    assert(s.subrange(p2, p2 + 1) =~= "]"@);
    assert(spec_expect(s, p2, "]"@) == Option::Some(p2 + 1));
    assert(p2 + 1 == pos + blen);
}

/// The encoded document, as the five blocks with their separators.
spec fn enc_tower(d: ReadHistoryData) -> Seq<char> {
    "{"@ + spec_block("Top"@, d.top@) + ","@ + spec_block("New"@, d.new@) + ","@ + spec_block(
        "Show"@,
        d.show@,
    ) + ","@ + spec_block("Best"@, d.best@) + ","@ + spec_block("Jobs"@, d.jobs@) + "}"@
}

spec fn block_start(d: ReadHistoryData, i: int) -> int {
    let n1 = spec_block("Top"@, d.top@).len() as int;
    let n2 = spec_block("New"@, d.new@).len() as int;
    let n3 = spec_block("Show"@, d.show@).len() as int;
    let n4 = spec_block("Best"@, d.best@).len() as int;
    if i == 1 {
        1
    } else if i == 2 {
        2 + n1
    } else if i == 3 {
        3 + n1 + n2
    } else if i == 4 {
        4 + n1 + n2 + n3
    } else {
        5 + n1 + n2 + n3 + n4
    }
}

#[verifier::rlimit(60)]
proof fn lemma_rt_block(d: ReadHistoryData, i: int, label: Seq<char>, ids: Seq<usize>)
    requires
        1 <= i <= 5,
        i == 1 ==> label == "Top"@ && ids == d.top@,
        i == 2 ==> label == "New"@ && ids == d.new@,
        i == 3 ==> label == "Show"@ && ids == d.show@,
        i == 4 ==> label == "Best"@ && ids == d.best@,
        i == 5 ==> label == "Jobs"@ && ids == d.jobs@,
    ensures
        spec_parse_block(spec_encode(d), block_start(d, i), label) == Option::Some(
            (ids, block_start(d, i) + spec_block(label, ids).len() as int),
        ),
{
    let s = spec_encode(d);
    let b = spec_block(label, ids);
    let p = block_start(d, i);
    reveal(spec_encode);
    reveal_strlit("{");
    reveal_strlit(",");
    reveal_strlit("}");
    assert(s.subrange(p, p + b.len() as int) =~= b);
    lemma_parse_block_encode(s, p, label, ids);
}

proof fn lemma_rt_lens(d: ReadHistoryData)
    ensures
        spec_encode(d).len() == 6 + spec_block("Top"@, d.top@).len() + spec_block(
            "New"@,
            d.new@,
        ).len() + spec_block("Show"@, d.show@).len() + spec_block("Best"@, d.best@).len()
            + spec_block("Jobs"@, d.jobs@).len(),
{
    reveal(spec_encode);
    reveal_strlit("{");
    reveal_strlit(",");
    reveal_strlit("}");
}

#[verifier::rlimit(60)]
proof fn lemma_rt_open(d: ReadHistoryData)
    ensures
        spec_expect(spec_encode(d), 0, "{"@) == Option::Some(1int),
{
    reveal(spec_encode);
    reveal_strlit("{");
    lemma_rt_lens(d);
    let s = spec_encode(d);
    assert(s[0] == '{');
    assert(s.subrange(0, 1) =~= "{"@);
}

#[verifier::rlimit(60)]
proof fn lemma_rt_comma(d: ReadHistoryData, i: int)
    requires
        2 <= i <= 5,
    ensures
        spec_expect(spec_encode(d), block_start(d, i) - 1, ","@) == Option::Some(
            block_start(d, i),
        ),
{
    reveal(spec_encode);
    reveal_strlit("{");
    reveal_strlit(",");
    reveal_strlit("}");
    lemma_rt_lens(d);
    let s = spec_encode(d);
    let q = block_start(d, i) - 1;
    let b1 = spec_block("Top"@, d.top@);
    let b2 = spec_block("New"@, d.new@);
    let b3 = spec_block("Show"@, d.show@);
    let b4 = spec_block("Best"@, d.best@);
    let b5 = spec_block("Jobs"@, d.jobs@);
    let t1 = "{"@ + b1;
    let t2 = t1 + ","@;
    let t3 = t2 + b2;
    let t4 = t3 + ","@;
    let t5 = t4 + b3;
    let t6 = t5 + ","@;
    let t7 = t6 + b4;
    let t8 = t7 + ","@;
    let t9 = t8 + b5;
    assert(s == t9 + "}"@);
    if i == 2 {
        assert(q == t1.len());
        assert(t2[q] == ',');
        assert(s[q] == ',');
    } else if i == 3 {
        assert(q == t3.len());
        assert(t4[q] == ',');
        assert(s[q] == ',');
    } else if i == 4 {
        assert(q == t5.len());
        assert(t6[q] == ',');
        assert(s[q] == ',');
    } else {
        assert(q == t7.len());
        assert(t8[q] == ',');
        assert(s[q] == ',');
    }
    assert(s.subrange(q, q + 1) =~= ","@);
}

#[verifier::rlimit(60)]
proof fn lemma_rt_close(d: ReadHistoryData)
    ensures
        spec_expect(
            spec_encode(d),
            block_start(d, 5) + spec_block("Jobs"@, d.jobs@).len(),
            "}"@,
        ) == Option::Some(spec_encode(d).len() as int),
        spec_encode(d).len() == block_start(d, 5) + spec_block("Jobs"@, d.jobs@).len() + 1,
{
    reveal(spec_encode);
    reveal_strlit("{");
    reveal_strlit(",");
    reveal_strlit("}");
    lemma_rt_lens(d);
    let s = spec_encode(d);
    let e = block_start(d, 5) + spec_block("Jobs"@, d.jobs@).len() as int;
    assert(s[e] == '}');
    assert(s.subrange(e, e + 1) =~= "}"@);
}

/// Round trip: the canonical encoding of a well-formed history document
/// parses back to exactly the ids that were written, topic for topic.
#[verifier::rlimit(100)]
pub proof fn lemma_history_round_trip(d: ReadHistoryData)
    requires
        d.wf(),
    ensures
        spec_parse_history(spec_encode(d)) == Option::Some(
            (d.top@, d.new@, d.show@, d.best@, d.jobs@),
        ),
{
    lemma_rt_open(d);
    lemma_rt_comma(d, 2);
    lemma_rt_comma(d, 3);
    lemma_rt_comma(d, 4);
    lemma_rt_comma(d, 5);
    lemma_rt_close(d);
    lemma_rt_block(d, 1, "Top"@, d.top@);
    lemma_rt_block(d, 2, "New"@, d.new@);
    lemma_rt_block(d, 3, "Show"@, d.show@);
    lemma_rt_block(d, 4, "Best"@, d.best@);
    lemma_rt_block(d, 5, "Jobs"@, d.jobs@);
}


/// Round trip at the store level: for every topic and id, a document parsed
/// back from its own encoding reports exactly the `is_read` answers of the
/// document that was written.
pub proof fn lemma_round_trip_is_read(
    d: ReadHistoryData,
    t: crate::api_url::StoryType,
    id: usize,
)
    requires
        d.wf(),
    ensures
        spec_parse_history(spec_encode(d)) matches Some(lists) && {
            let parsed = match t {
                crate::api_url::StoryType::Top => lists.0,
                crate::api_url::StoryType::New => lists.1,
                crate::api_url::StoryType::Show => lists.2,
                crate::api_url::StoryType::Best => lists.3,
                crate::api_url::StoryType::Jobs => lists.4,
            };
            parsed.contains(id) <==> d.spec_ids(t).contains(id)
        },
{
    lemma_history_round_trip(d);
}

proof fn lemma_digits_val_bound(ds: Seq<char>)
    ensures
        digits_val(ds) < pow10(ds.len()),
    decreases ds.len(),
{
    if ds.len() == 0 {
    } else {
        lemma_digits_val_bound(ds.drop_last());
        assert(pow10(ds.len()) == 10 * pow10((ds.len() - 1) as nat));
    }
}

fn digit_value(c: char) -> (r: Option<u8>)
    ensures
        match r {
            Option::Some(d) => digit_val(c) == d as int,
            Option::None => digit_val(c) == -1,
        },
{
    match c {
        '0' => Option::Some(0),
        '1' => Option::Some(1),
        '2' => Option::Some(2),
        '3' => Option::Some(3),
        '4' => Option::Some(4),
        '5' => Option::Some(5),
        '6' => Option::Some(6),
        '7' => Option::Some(7),
        '8' => Option::Some(8),
        '9' => Option::Some(9),
        _ => Option::None,
    }
}

fn expect_lit(s: &str, pos: usize, lit: &str) -> (r: Option<usize>)
    ensures
        match r {
            Option::Some(p) => spec_expect(s@, pos as int, lit@) == Option::Some(p as int),
            Option::None => spec_expect(s@, pos as int, lit@) is None,
        },
{
    let slen = s.unicode_len();
    let litlen = lit.unicode_len();
    if pos > slen || litlen > slen - pos {
        return Option::None;
    }
    let mut j: usize = 0;
    while j < litlen
        invariant
            j <= litlen,
            pos + litlen <= slen,
            slen == s@.len(),
            litlen == lit@.len(),
            forall|k: int| 0 <= k < j ==> s@[pos + k] == lit@[k],
        decreases litlen - j,
    {
        if s.get_char(pos + j) != lit.get_char(j) {
            proof {
                assert(s@.subrange(pos as int, pos as int + lit@.len() as int)[j as int]
                    != lit@[j as int]);
            }
            return Option::None;
        }
        j += 1;
    }
    proof {
        assert(s@.subrange(pos as int, pos as int + lit@.len() as int) =~= lit@);
    }
    Option::Some(pos + litlen)
}

fn parse_usize_at(s: &str, pos: usize) -> (r: Option<(usize, usize)>)
    ensures
        match r {
            Option::Some((v, p)) => spec_parse_usize(s@, pos as int) == Option::Some(
                (v, p as int),
            ) && pos < p <= s@.len(),
            Option::None => spec_parse_usize(s@, pos as int) is None,
        },
{
    let slen = s.unicode_len();
    if pos > slen {
        return Option::None;
    }
    let mut k: usize = 0;
    while pos + k < slen && digit_value(s.get_char(pos + k)).is_some()
        invariant
            pos + k <= slen,
            slen == s@.len(),
            forall|j: int| 0 <= j < k ==> is_digit(#[trigger] s@[pos + j]),
        decreases slen - pos - k,
    {
        k += 1;
    }
    proof {
        lemma_digits_run_exact(s@, pos as int, k as int);
    }
    if k == 0 {
        return Option::None;
    }
    if s.get_char(pos) == '0' && k > 1 {
        return Option::None;
    }
    if k > 20 {
        return Option::None;
    }
    proof {
        assert(pow10(20nat) == 100000000000000000000) by {
            reveal_with_fuel(pow10, 21);
        }
    }
    let mut val: u128 = 0;
    let mut j: usize = 0;
    while j < k
        invariant
            j <= k <= 20,
            pos + k <= slen,
            slen == s@.len(),
            forall|m: int| 0 <= m < k ==> is_digit(#[trigger] s@[pos + m]),
            val as nat == digits_val(s@.subrange(pos as int, pos as int + j as int)),
            val < 100000000000000000000,
            pow10(20nat) == 100000000000000000000,
        decreases k - j,
    {
        let d = match digit_value(s.get_char(pos + j)) {
            Option::Some(d) => d,
            Option::None => 0,
        };
        proof {
            let pre = s@.subrange(pos as int, pos as int + j as int);
            let cur = s@.subrange(pos as int, pos as int + j as int + 1);
            assert(cur.drop_last() =~= pre);
            assert(cur.last() == s@[pos + j as int]);
            lemma_digits_val_bound(pre);
            assert(pow10(pre.len()) <= pow10(19nat)) by {
                lemma_pow10_le(pre.len(), 19nat);
            }
            assert(pow10(20nat) == 10 * pow10(19nat));
        }
        val = val * 10 + (d as u128);
        j += 1;
    }
    if val > (usize::MAX as u128) {
        return Option::None;
    }
    Option::Some((val as usize, pos + k))
}

proof fn lemma_pow10_le(a: nat, b: nat)
    requires
        a <= b,
    ensures
        pow10(a) <= pow10(b),
    decreases b,
{
    if a < b {
        lemma_pow10_le(a, (b - 1) as nat);
        assert(pow10(b) == 10 * pow10((b - 1) as nat));
    }
}

fn parse_ids_tail_at(s: &str, pos: usize) -> (r: Option<(Vec<usize>, usize)>)
    ensures
        match r {
            Option::Some((ids, p)) => spec_parse_ids_tail(s@, pos as int) == Option::Some(
                (ids@, p as int),
            ),
            Option::None => spec_parse_ids_tail(s@, pos as int) is None,
        },
    decreases s@.len() - pos,
{
    let slen = s.unicode_len();
    if pos >= slen {
        let empty: Vec<usize> = Vec::new();
        proof {
            assert(empty@ =~= Seq::<usize>::empty());
        }
        return Option::Some((empty, pos));
    }
    if s.get_char(pos) != ',' {
        let empty: Vec<usize> = Vec::new();
        proof {
            assert(empty@ =~= Seq::<usize>::empty());
        }
        return Option::Some((empty, pos));
    }
    match parse_usize_at(s, pos + 1) {
        Option::None => Option::None,
        Option::Some((v, p2)) => match parse_ids_tail_at(s, p2) {
            Option::None => Option::None,
            Option::Some((rest, p3)) => {
                let mut out = rest;
                out.insert(0, v);
                proof {
                    assert(out@ =~= seq![v] + out@.drop_first());
                }
                Option::Some((out, p3))
            },
        },
    }
}

fn parse_ids_at(s: &str, pos: usize) -> (r: Option<(Vec<usize>, usize)>)
    ensures
        match r {
            Option::Some((ids, p)) => spec_parse_ids(s@, pos as int) == Option::Some(
                (ids@, p as int),
            ),
            Option::None => spec_parse_ids(s@, pos as int) is None,
        },
{
    let slen = s.unicode_len();
    if pos < slen && s.get_char(pos) == ']' {
        let empty: Vec<usize> = Vec::new();
        proof {
            assert(empty@ =~= Seq::<usize>::empty());
        }
        return Option::Some((empty, pos));
    }
    match parse_usize_at(s, pos) {
        Option::None => Option::None,
        Option::Some((v, p2)) => match parse_ids_tail_at(s, p2) {
            Option::None => Option::None,
            Option::Some((rest, p3)) => {
                let mut out = rest;
                out.insert(0, v);
                proof {
                    assert(out@ =~= seq![v] + out@.drop_first());
                }
                Option::Some((out, p3))
            },
        },
    }
}

fn parse_block_at(s: &str, pos: usize, label: &str) -> (r: Option<(Vec<usize>, usize)>)
    ensures
        match r {
            Option::Some((ids, p)) => spec_parse_block(s@, pos as int, label@) == Option::Some(
                (ids@, p as int),
            ),
            Option::None => spec_parse_block(s@, pos as int, label@) is None,
        },
{
    let lit = String::from_str("\"").concat(label).concat("\":[");
    proof {
        assert(lit@ == "\""@ + label@ + "\":["@);
    }
    match expect_lit(s, pos, lit.as_str()) {
        Option::None => Option::None,
        Option::Some(p1) => match parse_ids_at(s, p1) {
            Option::None => Option::None,
            Option::Some((ids, p2)) => match expect_lit(s, p2, "]") {
                Option::None => Option::None,
                Option::Some(p3) => Option::Some((ids, p3)),
            },
        },
    }
}

fn is_sorted_strict(v: &Vec<usize>) -> (r: bool)
    ensures
        r == sorted_strict(v@),
{
    let n = v.len();
    if n == 0 {
        return true;
    }
    let mut i: usize = 0;
    while i < n - 1
        invariant
            1 <= n == v@.len(),
            i <= n - 1,
            forall|a: int, b: int| 0 <= a < b <= i ==> v@[a] < v@[b],
        decreases n - i,
    {
        if v[i] >= v[i + 1] {
            return false;
        }
        i += 1;
    }
    true
}

/// Reads a persisted history document back. Exactly the canonical form with
/// ascending ids is accepted; anything else — other shapes, other orders,
/// trailing bytes — is rejected, and the caller falls back to an empty
/// history.
pub fn parse_history(s: &str) -> (r: Option<ReadHistoryData>)
    ensures
        match r {
            Option::Some(doc) => {
                &&& spec_parse_history(s@) == Option::Some(
                    (doc.top@, doc.new@, doc.show@, doc.best@, doc.jobs@),
                )
                &&& doc.wf()
            },
            Option::None => spec_parse_history(s@) is None,
        },
{
    let p0 = match expect_lit(s, 0, "{") {
        Option::None => {
            return Option::None;
        },
        Option::Some(p) => p,
    };
    let (top, p1) = match parse_block_at(s, p0, "Top") {
        Option::None => {
            return Option::None;
        },
        Option::Some(x) => x,
    };
    let p1c = match expect_lit(s, p1, ",") {
        Option::None => {
            return Option::None;
        },
        Option::Some(p) => p,
    };
    let (new, p2) = match parse_block_at(s, p1c, "New") {
        Option::None => {
            return Option::None;
        },
        Option::Some(x) => x,
    };
    let p2c = match expect_lit(s, p2, ",") {
        Option::None => {
            return Option::None;
        },
        Option::Some(p) => p,
    };
    let (show, p3) = match parse_block_at(s, p2c, "Show") {
        Option::None => {
            return Option::None;
        },
        Option::Some(x) => x,
    };
    let p3c = match expect_lit(s, p3, ",") {
        Option::None => {
            return Option::None;
        },
        Option::Some(p) => p,
    };
    let (best, p4) = match parse_block_at(s, p3c, "Best") {
        Option::None => {
            return Option::None;
        },
        Option::Some(x) => x,
    };
    let p4c = match expect_lit(s, p4, ",") {
        Option::None => {
            return Option::None;
        },
        Option::Some(p) => p,
    };
    let (jobs, p5) = match parse_block_at(s, p4c, "Jobs") {
        Option::None => {
            return Option::None;
        },
        Option::Some(x) => x,
    };
    let p6 = match expect_lit(s, p5, "}") {
        Option::None => {
            return Option::None;
        },
        Option::Some(p) => p,
    };
    if p6 != s.unicode_len() {
        return Option::None;
    }
    if !is_sorted_strict(&top) || !is_sorted_strict(&new) || !is_sorted_strict(&show)
        || !is_sorted_strict(&best) || !is_sorted_strict(&jobs) {
        return Option::None;
    }
    Option::Some(ReadHistoryData { top, new, show, best, jobs })
}

} // verus!
