//! The text form of the register file surface: each control file accepts
//! and returns a decimal ASCII integer (`"0"`/`"1"` for enable), usually
//! with a trailing newline. Absent or unparseable content reads as zero,
//! never as an error.

use vstd::arithmetic::div_mod::lemma_fundamental_div_mod;
use vstd::prelude::*;

verus! {

/// ASCII whitespace, as the register files pad their values with it.
pub open spec fn is_space_spec(b: u8) -> bool {
    (0x09 <= b <= 0x0D) || b == 0x20
}

/// An ASCII decimal digit.
pub open spec fn is_digit_spec(b: u8) -> bool {
    0x30 <= b <= 0x39
}

/// The bytes with leading and trailing whitespace removed.
pub open spec fn trim_spec(s: Seq<u8>) -> Seq<u8>
    decreases s.len(),
{
    if s.len() == 0 {
        s
    } else if is_space_spec(s[0]) {
        trim_spec(s.drop_first())
    } else if is_space_spec(s[s.len() - 1]) {
        trim_spec(s.drop_last())
    } else {
        s
    }
}

/// Every byte is a decimal digit.
pub open spec fn all_digits_spec(s: Seq<u8>) -> bool {
    forall|i: int| 0 <= i < s.len() ==> is_digit_spec(s[i])
}

/// The number a digit string denotes.
pub open spec fn dec_value_spec(s: Seq<u8>) -> int
    decreases s.len(),
{
    if s.len() == 0 {
        0
    } else {
        dec_value_spec(s.drop_last()) * 10 + (s[s.len() - 1] - 0x30)
    }
}

/// What an enable file's content means: exactly the digit one, once
/// trimmed.
pub open spec fn enable_text_spec(s: Seq<u8>) -> bool {
    trim_spec(s) == seq![0x31u8]
}

/// What a value file's content reads as: the denoted number if the trimmed
/// content is a nonempty digit string whose value is representable, zero
/// otherwise.
pub open spec fn parse_reg_u32_spec(s: Seq<u8>) -> u32 {
    let t = trim_spec(s);
    if t.len() > 0 && all_digits_spec(t) && dec_value_spec(t) <= 0xFFFF_FFFF {
        dec_value_spec(t) as u32
    } else {
        0
    }
}

/// Bounds of the trimmed content within the raw bytes.
fn trim_bounds(bytes: &Vec<u8>) -> (r: (usize, usize))
    ensures
        0 <= r.0 <= r.1 <= bytes@.len(),
        trim_spec(bytes@) == bytes@.subrange(r.0 as int, r.1 as int),
        r.0 < r.1 ==> !is_space_spec(bytes@[r.0 as int]) && !is_space_spec(bytes@[r.1 - 1]),
{
    let mut lo: usize = 0;
    let mut hi: usize = bytes.len();
    proof {
        assert(bytes@.subrange(0, bytes@.len() as int) =~= bytes@);
    }
    while lo < hi && is_space(bytes[lo])
        invariant
            0 <= lo <= hi <= bytes@.len(),
            trim_spec(bytes@) == trim_spec(bytes@.subrange(lo as int, hi as int)),
        decreases hi - lo,
    {
        proof {
            let sub = bytes@.subrange(lo as int, hi as int);
            assert(sub.drop_first() =~= bytes@.subrange(lo as int + 1, hi as int));
        }
        lo = lo + 1;
    }
    while lo < hi && is_space(bytes[hi - 1])
        invariant
            0 <= lo <= hi <= bytes@.len(),
            trim_spec(bytes@) == trim_spec(bytes@.subrange(lo as int, hi as int)),
            lo < hi ==> !is_space_spec(bytes@[lo as int]),
        decreases hi - lo,
    {
        proof {
            let sub = bytes@.subrange(lo as int, hi as int);
            assert(sub.drop_last() =~= bytes@.subrange(lo as int, hi as int - 1));
        }
        hi = hi - 1;
    }
    proof {
        let sub = bytes@.subrange(lo as int, hi as int);
        if lo == hi {
            assert(sub.len() == 0);
        }
        assert(trim_spec(sub) == sub);
    }
    (lo, hi)
}

/// Whether a byte is ASCII whitespace.
fn is_space(b: u8) -> (r: bool)
    ensures
        r == is_space_spec(b),
{
    (0x09 <= b && b <= 0x0D) || b == 0x20
}

/// Read an enable file's content: `true` exactly for the digit one, with
/// any surrounding whitespace ignored.
pub fn parse_enable(bytes: &Vec<u8>) -> (r: bool)
    ensures
        r == enable_text_spec(bytes@),
{
    let (lo, hi) = trim_bounds(bytes);
    let r = hi - lo == 1 && bytes[lo] == 0x31;
    proof {
        let t = bytes@.subrange(lo as int, hi as int);
        if r {
            assert(t =~= seq![0x31u8]);
        }
        if t == seq![0x31u8] {
            assert(t.len() == 1);
            assert(t[0] == 0x31);
        }
    }
    r
}

/// Powers of ten.
pub open spec fn pow10(n: nat) -> int
    decreases n,
{
    if n == 0 {
        1
    } else {
        10 * pow10((n - 1) as nat)
    }
}

proof fn lemma_pow10_positive(n: nat)
    ensures
        pow10(n) >= 1,
    decreases n,
{
    if n > 0 {
        lemma_pow10_positive((n - 1) as nat);
    }
}

proof fn lemma_pow10_increases(a: nat, b: nat)
    requires
        a <= b,
    ensures
        pow10(a) <= pow10(b),
    decreases b,
{
    if a < b {
        lemma_pow10_increases(a, (b - 1) as nat);
        lemma_pow10_positive((b - 1) as nat);
    }
}

/// A digit string of length `n` denotes a value in `0..pow10(n)`.
proof fn lemma_dec_value_bounds(s: Seq<u8>)
    requires
        all_digits_spec(s),
    ensures
        0 <= dec_value_spec(s) < pow10(s.len()),
    decreases s.len(),
{
    if s.len() > 0 {
        assert forall|i: int| 0 <= i < s.drop_last().len() implies is_digit_spec(
            s.drop_last()[i],
        ) by {
            assert(s.drop_last()[i] == s[i]);
        }
        lemma_dec_value_bounds(s.drop_last());
    }
}

/// A digit string without a leading zero denotes at least `pow10` of one
/// less than its length.
proof fn lemma_dec_value_lower(s: Seq<u8>)
    requires
        all_digits_spec(s),
        s.len() > 0,
        s[0] != 0x30,
    ensures
        dec_value_spec(s) >= pow10((s.len() - 1) as nat),
    decreases s.len(),
{
    if s.len() == 1 {
        assert(is_digit_spec(s[0]));
        assert(dec_value_spec(s.drop_last()) == 0);
        assert(dec_value_spec(s) == s[0] - 0x30);
        assert(pow10(0) == 1);
    } else {
        assert forall|i: int| 0 <= i < s.drop_last().len() implies is_digit_spec(
            s.drop_last()[i],
        ) by {
            assert(s.drop_last()[i] == s[i]);
        }
        assert(s.drop_last()[0] == s[0]);
        lemma_dec_value_lower(s.drop_last());
        assert(is_digit_spec(s[s.len() - 1]));
        assert(pow10((s.len() - 1) as nat) == 10 * pow10((s.len() - 2) as nat));
        assert(dec_value_spec(s) == dec_value_spec(s.drop_last()) * 10 + (s[s.len() - 1] - 0x30));
    }
}

/// A leading zero does not change the denoted value.
proof fn lemma_dec_leading_zero(s: Seq<u8>)
    requires
        all_digits_spec(s),
        s.len() > 0,
        s[0] == 0x30,
    ensures
        dec_value_spec(s) == dec_value_spec(s.drop_first()),
    decreases s.len(),
{
    if s.len() == 1 {
        assert(s.drop_first() =~= Seq::<u8>::empty());
        assert(s.drop_last() =~= Seq::<u8>::empty());
    } else {
        let sl = s.drop_last();
        assert forall|i: int| 0 <= i < sl.len() implies is_digit_spec(sl[i]) by {
            assert(sl[i] == s[i]);
        }
        assert(sl[0] == s[0]);
        lemma_dec_leading_zero(sl);
        assert(sl.drop_first() =~= s.drop_first().drop_last());
        assert(s.drop_first()[s.drop_first().len() - 1] == s[s.len() - 1]);
    }
}

/// Prepending a digit adds its value at the string's magnitude.
proof fn lemma_dec_value_prepend(d: u8, s: Seq<u8>)
    ensures
        dec_value_spec(seq![d] + s) == (d - 0x30) * pow10(s.len()) + dec_value_spec(s),
    decreases s.len(),
{
    if s.len() == 0 {
        assert(seq![d] + s =~= seq![d]);
        assert(seq![d].drop_last() =~= Seq::<u8>::empty());
        assert(seq![d].len() == 1);
        assert(seq![d][0] == d);
        assert(dec_value_spec(seq![d].drop_last()) == 0);
        assert(dec_value_spec(seq![d]) == dec_value_spec(seq![d].drop_last()) * 10 + (seq![d][0]
            - 0x30));
        assert(dec_value_spec(seq![d]) == d - 0x30);
        assert(pow10(s.len()) == 1);
        assert(dec_value_spec(s) == 0);
    } else {
        let ds = seq![d] + s;
        assert(ds.drop_last() =~= seq![d] + s.drop_last());
        assert(ds[ds.len() - 1] == s[s.len() - 1]);
        lemma_dec_value_prepend(d, s.drop_last());
        assert(dec_value_spec(ds) == dec_value_spec(seq![d] + s.drop_last()) * 10 + (s[s.len()
            - 1] - 0x30));
        assert(dec_value_spec(seq![d] + s.drop_last()) == (d - 0x30) * pow10(
            (s.len() - 1) as nat,
        ) + dec_value_spec(s.drop_last()));
        assert(pow10(s.len()) == 10 * pow10((s.len() - 1) as nat));
        assert(((d - 0x30) * pow10((s.len() - 1) as nat)) * 10 == (d - 0x30) * pow10(s.len()))
            by (nonlinear_arith)
            requires
                pow10(s.len()) == 10 * pow10((s.len() - 1) as nat),
        ;
        assert(dec_value_spec(s) == dec_value_spec(s.drop_last()) * 10 + (s[s.len() - 1] - 0x30));
    }
}

/// Whether a byte is an ASCII decimal digit.
fn is_digit(b: u8) -> (r: bool)
    ensures
        r == is_digit_spec(b),
{
    0x30 <= b && b <= 0x39
}

/// Read a value file's content: the denoted number when the trimmed bytes
/// are a nonempty digit string that fits the register width, zero for
/// anything else.
pub fn parse_reg_u32(bytes: &Vec<u8>) -> (v: u32)
    ensures
        v == parse_reg_u32_spec(bytes@),
{
    let (lo, hi) = trim_bounds(bytes);
    let ghost t = bytes@.subrange(lo as int, hi as int);
    if lo == hi {
        return 0;
    }
    let mut i: usize = lo;
    while i < hi
        invariant
            lo <= i <= hi <= bytes@.len(),
            t == bytes@.subrange(lo as int, hi as int),
            trim_spec(bytes@) == t,
            lo < hi,
            forall|j: int| lo <= j < i ==> is_digit_spec(bytes@[j]),
        decreases hi - i,
    {
        if !is_digit(bytes[i]) {
            proof {
                assert(t[i - lo] == bytes@[i as int]);
                assert(!all_digits_spec(t));
            }
            return 0;
        }
        i = i + 1;
    }
    proof {
        assert forall|j: int| 0 <= j < t.len() implies is_digit_spec(t[j]) by {
            assert(t[j] == bytes@[lo + j]);
        }
    }
    let mut z: usize = lo;
    while z + 1 < hi && bytes[z] == 0x30
        invariant
            lo <= z < hi <= bytes@.len(),
            t == bytes@.subrange(lo as int, hi as int),
            all_digits_spec(t),
            forall|j: int| lo <= j < hi ==> is_digit_spec(bytes@[j]),
            dec_value_spec(t) == dec_value_spec(bytes@.subrange(z as int, hi as int)),
        decreases hi - z,
    {
        proof {
            let sub = bytes@.subrange(z as int, hi as int);
            assert forall|j: int| 0 <= j < sub.len() implies is_digit_spec(sub[j]) by {
                assert(sub[j] == bytes@[z + j]);
            }
            lemma_dec_leading_zero(sub);
            assert(sub.drop_first() =~= bytes@.subrange(z as int + 1, hi as int));
        }
        z = z + 1;
    }
    let ghost u = bytes@.subrange(z as int, hi as int);
    proof {
        assert forall|j: int| 0 <= j < u.len() implies is_digit_spec(u[j]) by {
            assert(u[j] == bytes@[z + j]);
        }
        lemma_dec_value_bounds(u);
    }
    if hi - z > 10 {
        proof {
            assert(bytes@[z as int] != 0x30);
            assert(u[0] == bytes@[z as int]);
            lemma_dec_value_lower(u);
            lemma_pow10_increases(10, (u.len() - 1) as nat);
            lemma_pow10_value();
        }
        return 0;
    }
    let mut acc: u64 = 0;
    let mut k: usize = z;
    proof {
        assert(bytes@.subrange(z as int, z as int) =~= Seq::<u8>::empty());
        lemma_pow10_value();
    }
    while k < hi
        invariant
            z <= k <= hi <= bytes@.len(),
            hi - z <= 10,
            u == bytes@.subrange(z as int, hi as int),
            all_digits_spec(u),
            forall|j: int| z <= j < hi ==> is_digit_spec(bytes@[j]),
            acc == dec_value_spec(bytes@.subrange(z as int, k as int)),
            acc < 10_000_000_000,
        decreases hi - k,
    {
        let d = bytes[k] - 0x30;
        proof {
            let pre = bytes@.subrange(z as int, k as int);
            let pre2 = bytes@.subrange(z as int, k as int + 1);
            assert(pre2.drop_last() =~= pre);
            assert(pre2[pre2.len() - 1] == bytes@[k as int]);
            assert forall|j: int| 0 <= j < pre2.len() implies is_digit_spec(pre2[j]) by {
                assert(pre2[j] == bytes@[z + j]);
            }
            lemma_dec_value_bounds(pre2);
            lemma_pow10_increases(pre2.len() as nat, 10);
            lemma_pow10_value();
        }
        acc = acc * 10 + (d as u64);
        k = k + 1;
    }
    proof {
        assert(dec_value_spec(t) == acc);
    }
    if acc > 0xFFFF_FFFF {
        0
    } else {
        acc as u32
    }
}

proof fn lemma_pow10_value()
    ensures
        pow10(10) == 10_000_000_000,
{
    assert(pow10(0) == 1);
    assert(pow10(1) == 10);
    assert(pow10(2) == 100);
    assert(pow10(3) == 1000);
    assert(pow10(4) == 10000);
    assert(pow10(5) == 100000);
    assert(pow10(6) == 1000000);
    assert(pow10(7) == 10000000);
    assert(pow10(8) == 100000000);
    assert(pow10(9) == 1000000000);
    assert(pow10(10) == 10000000000);
}

/// Write a value in the register files' text form: the plain decimal
/// digits of the value. Reading the written bytes back gives the value:
/// the surface round-trips.
pub fn format_reg_u32(v: u32) -> (r: Vec<u8>)
    ensures
        r@.len() >= 1,
        all_digits_spec(r@),
        dec_value_spec(r@) == v,
        trim_spec(r@) == r@,
        parse_reg_u32_spec(r@) == v,
{
    if v == 0 {
        let r: Vec<u8> = vec![0x30];
        proof {
            assert(r@ =~= seq![0x30u8]);
            assert(r@.drop_last() =~= Seq::<u8>::empty());
            assert(dec_value_spec(Seq::<u8>::empty()) == 0);
            assert(dec_value_spec(r@) == 0);
            assert(is_digit_spec(0x30u8));
            assert(all_digits_spec(r@));
            assert(!is_space_spec(r@[0]));
            assert(trim_spec(r@) == r@);
        }
        return r;
    }
    let mut tmp: Vec<u8> = Vec::new();
    let mut x = v;
    proof {
        assert(tmp@.reverse() =~= Seq::<u8>::empty());
    }
    while x > 0
        invariant
            v as int == (x as int) * pow10(tmp@.len() as nat) + dec_value_spec(tmp@.reverse()),
            all_digits_spec(tmp@.reverse()),
            x == 0 ==> tmp@.len() >= 1,
        decreases x,
    {
        let d: u8 = 0x30 + (x % 10) as u8;
        proof {
            let rev = tmp@.reverse();
            let k = tmp@.len() as nat;
            assert(tmp@.push(d).reverse() =~= seq![d] + rev);
            lemma_dec_value_prepend(d, rev);
            lemma_fundamental_div_mod(x as int, 10);
            assert((10 * ((x as int) / 10) + ((x as int) % 10)) * pow10(k) == ((x as int) / 10)
                * (10 * pow10(k)) + ((x as int) % 10) * pow10(k)) by (nonlinear_arith);
            assert forall|j: int| 0 <= j < (seq![d] + rev).len() implies is_digit_spec(
                (seq![d] + rev)[j],
            ) by {
                if j > 0 {
                    assert((seq![d] + rev)[j] == rev[j - 1]);
                }
            }
        }
        tmp.push(d);
        x = x / 10;
    }
    let mut r: Vec<u8> = Vec::new();
    let mut i = tmp.len();
    while i > 0
        invariant
            0 <= i <= tmp@.len(),
            r@.len() == tmp@.len() - i,
            forall|j: int| 0 <= j < r@.len() ==> r@[j] == tmp@[tmp@.len() - 1 - j],
        decreases i,
    {
        i = i - 1;
        r.push(tmp[i]);
    }
    proof {
        assert(r@ =~= tmp@.reverse());
        assert(!is_space_spec(r@[0]));
        assert(!is_space_spec(r@[r@.len() - 1]));
        lemma_dec_value_bounds(r@);
    }
    r
}

} // verus!
