//! Canonical character encoding of session content.
//!
//! The state token is a digest over a serialization of every client-visible
//! session field. The serialization here is canonical (the same content always
//! encodes to the same characters) and injective (distinct content encodes to
//! distinct characters), so the digest input changes exactly when the content
//! does. Lengths and counts are rendered as fixed-width decimal fields, which
//! makes every encoder self-delimiting.

use vstd::prelude::*;
use vstd::string::*;

verus! {

/// Width of every decimal length/count field. All `u64` values fit in 20
/// decimal digits.
pub open spec fn len_width() -> nat {
    20
}

pub open spec fn pow10(w: nat) -> nat
    decreases w,
{
    if w == 0 {
        1
    } else {
        10 * pow10((w - 1) as nat)
    }
}

pub open spec fn digit_char(d: nat) -> char {
    if d == 0 {
        '0'
    } else if d == 1 {
        '1'
    } else if d == 2 {
        '2'
    } else if d == 3 {
        '3'
    } else if d == 4 {
        '4'
    } else if d == 5 {
        '5'
    } else if d == 6 {
        '6'
    } else if d == 7 {
        '7'
    } else if d == 8 {
        '8'
    } else {
        '9'
    }
}

pub open spec fn char_digit(c: char) -> nat {
    if c == '0' {
        0
    } else if c == '1' {
        1
    } else if c == '2' {
        2
    } else if c == '3' {
        3
    } else if c == '4' {
        4
    } else if c == '5' {
        5
    } else if c == '6' {
        6
    } else if c == '7' {
        7
    } else if c == '8' {
        8
    } else {
        9
    }
}

/// The last `w` decimal digits of `n`, most significant first.
pub open spec fn dec_digits(n: nat, w: nat) -> Seq<char>
    decreases w,
{
    if w == 0 {
        Seq::empty()
    } else {
        dec_digits(n / 10, (w - 1) as nat).push(digit_char(n % 10))
    }
}

/// The number a digit string denotes.
pub open spec fn digits_val(s: Seq<char>) -> nat
    decreases s.len(),
{
    if s.len() == 0 {
        0
    } else {
        digits_val(s.drop_last()) * 10 + char_digit(s.last())
    }
}

pub proof fn lemma_pow10_pos(w: nat)
    ensures
        pow10(w) >= 1,
    decreases w,
{
    if w > 0 {
        lemma_pow10_pos((w - 1) as nat);
    }
}

pub proof fn lemma_dec_digits_len(n: nat, w: nat)
    ensures
        dec_digits(n, w).len() == w,
    decreases w,
{
    if w > 0 {
        lemma_dec_digits_len(n / 10, (w - 1) as nat);
    }
}

/// Rendering `w` digits and reading them back recovers `n` modulo `10^w`.
pub proof fn lemma_dec_digits_val(n: nat, w: nat)
    ensures
        digits_val(dec_digits(n, w)) == n % pow10(w),
    decreases w,
{
    if w == 0 {
        assert(n % 1 == 0) by (nonlinear_arith);
    } else {
        let p = pow10((w - 1) as nat);
        lemma_pow10_pos((w - 1) as nat);
        lemma_dec_digits_val(n / 10, (w - 1) as nat);
        let s = dec_digits(n, w);
        assert(s.drop_last() =~= dec_digits(n / 10, (w - 1) as nat));
        assert(digits_val(s) == (n / 10 % p) * 10 + n % 10);
        vstd::arithmetic::div_mod::lemma_mod_breakdown(n as int, 10, p as int);
    }
}

/// Fixed-width decimal rendering is injective below `10^w`.
pub proof fn lemma_dec_digits_injective(n1: nat, n2: nat, w: nat)
    requires
        n1 < pow10(w),
        n2 < pow10(w),
        dec_digits(n1, w) == dec_digits(n2, w),
    ensures
        n1 == n2,
{
    lemma_dec_digits_val(n1, w);
    lemma_dec_digits_val(n2, w);
    lemma_pow10_pos(w);
    assert(n1 % pow10(w) == n1) by (nonlinear_arith)
        requires
            n1 < pow10(w),
            pow10(w) >= 1,
    ;
    assert(n2 % pow10(w) == n2) by (nonlinear_arith)
        requires
            n2 < pow10(w),
            pow10(w) >= 1,
    ;
}

/// Splitting equal concatenations at equal offsets yields equal parts.
pub proof fn lemma_concat_peel(a1: Seq<char>, b1: Seq<char>, a2: Seq<char>, b2: Seq<char>)
    requires
        a1.len() == a2.len(),
        a1 + b1 == a2 + b2,
    ensures
        a1 == a2,
        b1 == b2,
{
    assert forall|i: int| 0 <= i < a1.len() implies a1[i] == a2[i] by {
        assert((a1 + b1)[i] == a1[i]);
        assert((a2 + b2)[i] == a2[i]);
    }
    assert(a1 =~= a2);
    assert((a1 + b1).len() == a1.len() + b1.len());
    assert((a2 + b2).len() == a2.len() + b2.len());
    assert(b1.len() == b2.len());
    assert forall|i: int| 0 <= i < b1.len() implies b1[i] == b2[i] by {
        assert(0 <= a1.len() + i < (a1 + b1).len());
        assert((a1 + b1)[a1.len() + i] == b1[i]);
        assert((a2 + b2)[a2.len() + i] == b2[i]);
    }
    assert(b1 =~= b2);
}

/// Every `u64` has at most 20 decimal digits.
pub proof fn lemma_u64_below_width(n: u64)
    ensures
        (n as nat) < pow10(len_width()),
{
    reveal_with_fuel(pow10, 21);
    assert(pow10(len_width()) == 100000000000000000000);
}

// ---- string fields ----

/// A string field: its character count, then its characters.
pub open spec fn enc_str(s: Seq<char>) -> Seq<char> {
    dec_digits(s.len(), len_width()) + s
}

pub open spec fn enc_bool(b: bool) -> Seq<char> {
    if b {
        seq!['T']
    } else {
        seq!['F']
    }
}

/// `enc_str` is self-delimiting: equal streams that both start with an
/// encoded string carry the same string and the same remainder.
pub proof fn lemma_enc_str_peel(s1: Seq<char>, r1: Seq<char>, s2: Seq<char>, r2: Seq<char>)
    requires
        s1.len() < pow10(len_width()),
        s2.len() < pow10(len_width()),
        enc_str(s1) + r1 == enc_str(s2) + r2,
    ensures
        s1 == s2,
        r1 == r2,
{
    let d1 = dec_digits(s1.len(), len_width());
    let d2 = dec_digits(s2.len(), len_width());
    lemma_dec_digits_len(s1.len(), len_width());
    lemma_dec_digits_len(s2.len(), len_width());
    assert((d1 + s1) + r1 =~= d1 + (s1 + r1));
    assert((d2 + s2) + r2 =~= d2 + (s2 + r2));
    lemma_concat_peel(d1, s1 + r1, d2, s2 + r2);
    lemma_dec_digits_injective(s1.len(), s2.len(), len_width());
    lemma_concat_peel(s1, r1, s2, r2);
}

pub proof fn lemma_dec20_peel(n1: nat, r1: Seq<char>, n2: nat, r2: Seq<char>)
    requires
        n1 < pow10(len_width()),
        n2 < pow10(len_width()),
        dec_digits(n1, len_width()) + r1 == dec_digits(n2, len_width()) + r2,
    ensures
        n1 == n2,
        r1 == r2,
{
    lemma_dec_digits_len(n1, len_width());
    lemma_dec_digits_len(n2, len_width());
    lemma_concat_peel(dec_digits(n1, len_width()), r1, dec_digits(n2, len_width()), r2);
    lemma_dec_digits_injective(n1, n2, len_width());
}

pub proof fn lemma_enc_bool_peel(b1: bool, r1: Seq<char>, b2: bool, r2: Seq<char>)
    requires
        enc_bool(b1) + r1 == enc_bool(b2) + r2,
    ensures
        b1 == b2,
        r1 == r2,
{
    lemma_concat_peel(enc_bool(b1), r1, enc_bool(b2), r2);
    assert(enc_bool(b1)[0] == enc_bool(b2)[0]);
}

// ---- lists of strings ----

pub open spec fn enc_str_items(l: Seq<Seq<char>>) -> Seq<char>
    decreases l.len(),
{
    if l.len() == 0 {
        Seq::empty()
    } else {
        enc_str(l.first()) + enc_str_items(l.drop_first())
    }
}

/// A list of string fields: its entry count, then each entry.
pub open spec fn enc_str_list(l: Seq<Seq<char>>) -> Seq<char> {
    dec_digits(l.len(), len_width()) + enc_str_items(l)
}

pub open spec fn strs_wf(l: Seq<Seq<char>>) -> bool {
    forall|i: int| 0 <= i < l.len() ==> (#[trigger] l[i]).len() < pow10(len_width())
}

pub proof fn lemma_enc_str_items_snoc(l: Seq<Seq<char>>, x: Seq<char>)
    ensures
        enc_str_items(l.push(x)) == enc_str_items(l) + enc_str(x),
    decreases l.len(),
{
    reveal_with_fuel(enc_str_items, 3);
    if l.len() == 0 {
        assert(l.push(x).drop_first() =~= Seq::<Seq<char>>::empty());
        assert(l.push(x).first() == x);
        assert(enc_str(x) + Seq::<char>::empty() =~= enc_str(x));
        assert(Seq::<char>::empty() + enc_str(x) =~= enc_str(x));
    } else {
        lemma_enc_str_items_snoc(l.drop_first(), x);
        assert(l.push(x).drop_first() =~= l.drop_first().push(x));
        assert(l.push(x).first() == l.first());
        assert(enc_str(l.first()) + (enc_str_items(l.drop_first()) + enc_str(x)) =~= (enc_str(
            l.first(),
        ) + enc_str_items(l.drop_first())) + enc_str(x));
    }
}

pub proof fn lemma_enc_str_items_peel(
    l1: Seq<Seq<char>>,
    r1: Seq<char>,
    l2: Seq<Seq<char>>,
    r2: Seq<char>,
)
    requires
        l1.len() == l2.len(),
        strs_wf(l1),
        strs_wf(l2),
        enc_str_items(l1) + r1 == enc_str_items(l2) + r2,
    ensures
        l1 == l2,
        r1 == r2,
    decreases l1.len(),
{
    if l1.len() == 0 {
        assert(l1 =~= l2);
        assert(Seq::<char>::empty() + r1 =~= r1);
        assert(Seq::<char>::empty() + r2 =~= r2);
    } else {
        let t1 = enc_str_items(l1.drop_first()) + r1;
        let t2 = enc_str_items(l2.drop_first()) + r2;
        assert((enc_str(l1.first()) + enc_str_items(l1.drop_first())) + r1 =~= enc_str(l1.first())
            + t1);
        assert((enc_str(l2.first()) + enc_str_items(l2.drop_first())) + r2 =~= enc_str(l2.first())
            + t2);
        assert(l1[0] == l1.first());
        assert(l2[0] == l2.first());
        lemma_enc_str_peel(l1.first(), t1, l2.first(), t2);
        assert(strs_wf(l1.drop_first())) by {
            assert forall|i: int| 0 <= i < l1.drop_first().len() implies (#[trigger] l1.drop_first()[i]).len()
                < pow10(len_width()) by {
                assert(l1.drop_first()[i] == l1[i + 1]);
            }
        }
        assert(strs_wf(l2.drop_first())) by {
            assert forall|i: int| 0 <= i < l2.drop_first().len() implies (#[trigger] l2.drop_first()[i]).len()
                < pow10(len_width()) by {
                assert(l2.drop_first()[i] == l2[i + 1]);
            }
        }
        lemma_enc_str_items_peel(l1.drop_first(), r1, l2.drop_first(), r2);
        assert forall|i: int| 0 <= i < l1.len() implies l1[i] == l2[i] by {
            if i == 0 {
            } else {
                assert(l1.drop_first()[i - 1] == l1[i]);
                assert(l2.drop_first()[i - 1] == l2[i]);
            }
        }
        assert(l1 =~= l2);
    }
}

pub proof fn lemma_enc_str_list_peel(
    l1: Seq<Seq<char>>,
    r1: Seq<char>,
    l2: Seq<Seq<char>>,
    r2: Seq<char>,
)
    requires
        l1.len() < pow10(len_width()),
        l2.len() < pow10(len_width()),
        strs_wf(l1),
        strs_wf(l2),
        enc_str_list(l1) + r1 == enc_str_list(l2) + r2,
    ensures
        l1 == l2,
        r1 == r2,
{
    let d1 = dec_digits(l1.len(), len_width());
    let d2 = dec_digits(l2.len(), len_width());
    assert((d1 + enc_str_items(l1)) + r1 =~= d1 + (enc_str_items(l1) + r1));
    assert((d2 + enc_str_items(l2)) + r2 =~= d2 + (enc_str_items(l2) + r2));
    lemma_dec20_peel(l1.len(), enc_str_items(l1) + r1, l2.len(), enc_str_items(l2) + r2);
    lemma_enc_str_items_peel(l1, r1, l2, r2);
}

// ---- lists of string pairs ----

pub open spec fn enc_pair(p: (Seq<char>, Seq<char>)) -> Seq<char> {
    enc_str(p.0) + enc_str(p.1)
}

pub open spec fn enc_pair_items(l: Seq<(Seq<char>, Seq<char>)>) -> Seq<char>
    decreases l.len(),
{
    if l.len() == 0 {
        Seq::empty()
    } else {
        enc_pair(l.first()) + enc_pair_items(l.drop_first())
    }
}

/// A list of string-pair fields: its entry count, then each entry.
pub open spec fn enc_pair_list(l: Seq<(Seq<char>, Seq<char>)>) -> Seq<char> {
    dec_digits(l.len(), len_width()) + enc_pair_items(l)
}

pub open spec fn pairs_wf(l: Seq<(Seq<char>, Seq<char>)>) -> bool {
    forall|i: int| 0 <= i < l.len() ==> (#[trigger] l[i]).0.len() < pow10(len_width()) && l[i].1.len()
        < pow10(len_width())
}

pub proof fn lemma_enc_pair_peel(
    p1: (Seq<char>, Seq<char>),
    r1: Seq<char>,
    p2: (Seq<char>, Seq<char>),
    r2: Seq<char>,
)
    requires
        p1.0.len() < pow10(len_width()),
        p1.1.len() < pow10(len_width()),
        p2.0.len() < pow10(len_width()),
        p2.1.len() < pow10(len_width()),
        enc_pair(p1) + r1 == enc_pair(p2) + r2,
    ensures
        p1 == p2,
        r1 == r2,
{
    assert((enc_str(p1.0) + enc_str(p1.1)) + r1 =~= enc_str(p1.0) + (enc_str(p1.1) + r1));
    assert((enc_str(p2.0) + enc_str(p2.1)) + r2 =~= enc_str(p2.0) + (enc_str(p2.1) + r2));
    lemma_enc_str_peel(p1.0, enc_str(p1.1) + r1, p2.0, enc_str(p2.1) + r2);
    lemma_enc_str_peel(p1.1, r1, p2.1, r2);
}

pub proof fn lemma_enc_pair_items_snoc(l: Seq<(Seq<char>, Seq<char>)>, x: (Seq<char>, Seq<char>))
    ensures
        enc_pair_items(l.push(x)) == enc_pair_items(l) + enc_pair(x),
    decreases l.len(),
{
    reveal_with_fuel(enc_pair_items, 3);
    if l.len() == 0 {
        assert(l.push(x).drop_first() =~= Seq::<(Seq<char>, Seq<char>)>::empty());
        assert(l.push(x).first() == x);
        assert(enc_pair(x) + Seq::<char>::empty() =~= enc_pair(x));
        assert(Seq::<char>::empty() + enc_pair(x) =~= enc_pair(x));
    } else {
        lemma_enc_pair_items_snoc(l.drop_first(), x);
        assert(l.push(x).drop_first() =~= l.drop_first().push(x));
        assert(l.push(x).first() == l.first());
        assert(enc_pair(l.first()) + (enc_pair_items(l.drop_first()) + enc_pair(x)) =~= (enc_pair(
            l.first(),
        ) + enc_pair_items(l.drop_first())) + enc_pair(x));
    }
}

pub proof fn lemma_enc_pair_items_peel(
    l1: Seq<(Seq<char>, Seq<char>)>,
    r1: Seq<char>,
    l2: Seq<(Seq<char>, Seq<char>)>,
    r2: Seq<char>,
)
    requires
        l1.len() == l2.len(),
        pairs_wf(l1),
        pairs_wf(l2),
        enc_pair_items(l1) + r1 == enc_pair_items(l2) + r2,
    ensures
        l1 == l2,
        r1 == r2,
    decreases l1.len(),
{
    if l1.len() == 0 {
        assert(l1 =~= l2);
        assert(Seq::<char>::empty() + r1 =~= r1);
        assert(Seq::<char>::empty() + r2 =~= r2);
    } else {
        let t1 = enc_pair_items(l1.drop_first()) + r1;
        let t2 = enc_pair_items(l2.drop_first()) + r2;
        assert((enc_pair(l1.first()) + enc_pair_items(l1.drop_first())) + r1 =~= enc_pair(
            l1.first(),
        ) + t1);
        assert((enc_pair(l2.first()) + enc_pair_items(l2.drop_first())) + r2 =~= enc_pair(
            l2.first(),
        ) + t2);
        assert(l1[0] == l1.first());
        assert(l2[0] == l2.first());
        lemma_enc_pair_peel(l1.first(), t1, l2.first(), t2);
        assert(pairs_wf(l1.drop_first())) by {
            assert forall|i: int| 0 <= i < l1.drop_first().len() implies (#[trigger] l1.drop_first()[i]).0.len()
                < pow10(len_width()) && l1.drop_first()[i].1.len() < pow10(len_width()) by {
                assert(l1.drop_first()[i] == l1[i + 1]);
            }
        }
        assert(pairs_wf(l2.drop_first())) by {
            assert forall|i: int| 0 <= i < l2.drop_first().len() implies (#[trigger] l2.drop_first()[i]).0.len()
                < pow10(len_width()) && l2.drop_first()[i].1.len() < pow10(len_width()) by {
                assert(l2.drop_first()[i] == l2[i + 1]);
            }
        }
        lemma_enc_pair_items_peel(l1.drop_first(), r1, l2.drop_first(), r2);
        assert forall|i: int| 0 <= i < l1.len() implies l1[i] == l2[i] by {
            if i == 0 {
            } else {
                assert(l1.drop_first()[i - 1] == l1[i]);
                assert(l2.drop_first()[i - 1] == l2[i]);
            }
        }
        assert(l1 =~= l2);
    }
}

pub proof fn lemma_enc_pair_list_peel(
    l1: Seq<(Seq<char>, Seq<char>)>,
    r1: Seq<char>,
    l2: Seq<(Seq<char>, Seq<char>)>,
    r2: Seq<char>,
)
    requires
        l1.len() < pow10(len_width()),
        l2.len() < pow10(len_width()),
        pairs_wf(l1),
        pairs_wf(l2),
        enc_pair_list(l1) + r1 == enc_pair_list(l2) + r2,
    ensures
        l1 == l2,
        r1 == r2,
{
    let d1 = dec_digits(l1.len(), len_width());
    let d2 = dec_digits(l2.len(), len_width());
    assert((d1 + enc_pair_items(l1)) + r1 =~= d1 + (enc_pair_items(l1) + r1));
    assert((d2 + enc_pair_items(l2)) + r2 =~= d2 + (enc_pair_items(l2) + r2));
    lemma_dec20_peel(l1.len(), enc_pair_items(l1) + r1, l2.len(), enc_pair_items(l2) + r2);
    lemma_enc_pair_items_peel(l1, r1, l2, r2);
}

// ---- executable encoders ----

fn digit_str(d: u64) -> (r: &'static str)
    requires
        d < 10,
    ensures
        r@ == seq![digit_char(d as nat)],
{
    proof {
        reveal_strlit("0");
        reveal_strlit("1");
        reveal_strlit("2");
        reveal_strlit("3");
        reveal_strlit("4");
        reveal_strlit("5");
        reveal_strlit("6");
        reveal_strlit("7");
        reveal_strlit("8");
        reveal_strlit("9");
    }
    if d == 0 {
        proof {
            assert("0"@ =~= seq![digit_char(0)]);
        }
        "0"
    } else if d == 1 {
        proof {
            assert("1"@ =~= seq![digit_char(1)]);
        }
        "1"
    } else if d == 2 {
        proof {
            assert("2"@ =~= seq![digit_char(2)]);
        }
        "2"
    } else if d == 3 {
        proof {
            assert("3"@ =~= seq![digit_char(3)]);
        }
        "3"
    } else if d == 4 {
        proof {
            assert("4"@ =~= seq![digit_char(4)]);
        }
        "4"
    } else if d == 5 {
        proof {
            assert("5"@ =~= seq![digit_char(5)]);
        }
        "5"
    } else if d == 6 {
        proof {
            assert("6"@ =~= seq![digit_char(6)]);
        }
        "6"
    } else if d == 7 {
        proof {
            assert("7"@ =~= seq![digit_char(7)]);
        }
        "7"
    } else if d == 8 {
        proof {
            assert("8"@ =~= seq![digit_char(8)]);
        }
        "8"
    } else {
        proof {
            assert("9"@ =~= seq![digit_char(9)]);
        }
        "9"
    }
}

fn push_dec_digits(out: &mut String, n: u64, w: usize)
    ensures
        final(out)@ == old(out)@ + dec_digits(n as nat, w as nat),
    decreases w,
{
    if w == 0 {
        proof {
            assert(old(out)@ + dec_digits(n as nat, 0) =~= old(out)@);
        }
    } else {
        push_dec_digits(out, n / 10, w - 1);
        let ds = digit_str(n % 10);
        out.append(ds);
        proof {
            assert((n as nat) / 10 == (n / 10) as nat);
            assert((n as nat) % 10 == (n % 10) as nat);
            assert((old(out)@ + dec_digits((n / 10) as nat, (w - 1) as nat)) + seq![digit_char(
                (n % 10) as nat,
            )] =~= old(out)@ + dec_digits(n as nat, w as nat));
        }
    }
}

pub fn push_dec20(out: &mut String, n: u64)
    ensures
        final(out)@ == old(out)@ + dec_digits(n as nat, len_width()),
{
    push_dec_digits(out, n, 20);
}

pub fn push_enc_str(out: &mut String, s: &str)
    ensures
        final(out)@ == old(out)@ + enc_str(s@),
{
    let l = s.unicode_len();
    push_dec20(out, l as u64);
    out.append(s);
    proof {
        assert((old(out)@ + dec_digits(s@.len(), len_width())) + s@ =~= old(out)@ + enc_str(s@));
    }
}

pub fn push_enc_bool(out: &mut String, b: bool)
    ensures
        final(out)@ == old(out)@ + enc_bool(b),
{
    proof {
        reveal_strlit("T");
        reveal_strlit("F");
        assert("T"@ =~= seq!['T']);
        assert("F"@ =~= seq!['F']);
    }
    if b {
        out.append("T");
    } else {
        out.append("F");
    }
}

pub fn push_enc_str_list(out: &mut String, l: &Vec<String>)
    ensures
        final(out)@ == old(out)@ + enc_str_list(l@.map_values(|s: String| s@)),
{
    let ghost lv = l@.map_values(|s: String| s@);
    push_dec20(out, l.len() as u64);
    let mut i: usize = 0;
    while i < l.len()
        invariant
            i <= l.len(),
            lv == l@.map_values(|s: String| s@),
            out@ == old(out)@ + dec_digits(lv.len(), len_width()) + enc_str_items(
                lv.take(i as int),
            ),
        decreases l.len() - i,
    {
        push_enc_str(out, l[i].as_str());
        proof {
            lemma_enc_str_items_snoc(lv.take(i as int), lv[i as int]);
            assert(lv.take(i as int).push(lv[i as int]) =~= lv.take(i as int + 1));
            assert((old(out)@ + dec_digits(lv.len(), len_width()) + enc_str_items(
                lv.take(i as int),
            )) + enc_str(lv[i as int]) =~= old(out)@ + dec_digits(lv.len(), len_width())
                + enc_str_items(lv.take(i as int + 1)));
        }
        i += 1;
    }
    proof {
        assert(lv.take(lv.len() as int) =~= lv);
        assert(old(out)@ + dec_digits(lv.len(), len_width()) + enc_str_items(lv) =~= old(out)@
            + enc_str_list(lv));
    }
}

pub fn push_enc_pair_list(out: &mut String, l: &Vec<(String, String)>)
    ensures
        final(out)@ == old(out)@ + enc_pair_list(
            l@.map_values(|p: (String, String)| (p.0@, p.1@)),
        ),
{
    let ghost lv = l@.map_values(|p: (String, String)| (p.0@, p.1@));
    push_dec20(out, l.len() as u64);
    let mut i: usize = 0;
    while i < l.len()
        invariant
            i <= l.len(),
            lv == l@.map_values(|p: (String, String)| (p.0@, p.1@)),
            out@ == old(out)@ + dec_digits(lv.len(), len_width()) + enc_pair_items(
                lv.take(i as int),
            ),
        decreases l.len() - i,
    {
        push_enc_str(out, l[i].0.as_str());
        push_enc_str(out, l[i].1.as_str());
        proof {
            lemma_enc_pair_items_snoc(lv.take(i as int), lv[i as int]);
            assert(lv.take(i as int).push(lv[i as int]) =~= lv.take(i as int + 1));
            assert(((old(out)@ + dec_digits(lv.len(), len_width()) + enc_pair_items(
                lv.take(i as int),
            )) + enc_str(lv[i as int].0)) + enc_str(lv[i as int].1) =~= old(out)@ + dec_digits(
                lv.len(),
                len_width(),
            ) + enc_pair_items(lv.take(i as int + 1)));
        }
        i += 1;
    }
    proof {
        assert(lv.take(lv.len() as int) =~= lv);
        assert(old(out)@ + dec_digits(lv.len(), len_width()) + enc_pair_items(lv) =~= old(out)@
            + enc_pair_list(lv));
    }
}

} // verus!
