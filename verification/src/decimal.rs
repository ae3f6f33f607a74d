//! Verified decimal text: formatting unsigned integers, parsing unsigned
//! integers, and parsing fixed-point readings into thousandths.

use vstd::prelude::*;
use vstd::string::*;

verus! {

/// The character for one decimal digit value.
pub open spec fn digit_char(d: int) -> char {
    if d == 0 {
        '0'
    } else if d == 1 {
        '1'
    } else if d == 2 {
        '2'
    } else if d == 3 {
        '3'
    } else if d == 4 {
        '4'
    } else if d == 5 {
        '5'
    } else if d == 6 {
        '6'
    } else if d == 7 {
        '7'
    } else if d == 8 {
        '8'
    } else {
        '9'
    }
}

/// Whether `c` is a decimal digit.
pub open spec fn is_digit(c: char) -> bool {
    48 <= c as int <= 57
}

/// The standard decimal representation of `n`, no sign, no leading zeros.
pub open spec fn dec_rep(n: nat) -> Seq<char>
    decreases n,
{
    if n < 10 {
        seq![digit_char(n as int)]
    } else {
        dec_rep(n / 10).push(digit_char((n % 10) as int))
    }
}

/// A nonempty, all-digit character sequence.
pub open spec fn is_digits(s: Seq<char>) -> bool {
    s.len() >= 1 && forall|i: int| 0 <= i < s.len() ==> is_digit(#[trigger] s[i])
}

/// Numeric value of a digit sequence (most significant first).
pub open spec fn dec_val(s: Seq<char>) -> int
    decreases s.len(),
{
    if s.len() == 0 {
        0
    } else {
        dec_val(s.drop_last()) * 10 + (s.last() as int - 48)
    }
}

/// One digit as a string slice.
fn digit_str(d: u32) -> (s: &'static str)
    requires
        d < 10,
    ensures
        s@ =~= seq![digit_char(d as int)],
{
    proof {
        reveal_strlit("0");
        reveal_strlit("1");
        reveal_strlit("2");
        reveal_strlit("3");
        reveal_strlit("4");
        reveal_strlit("5");
        reveal_strlit("6");
        reveal_strlit("7");
        reveal_strlit("8");
        reveal_strlit("9");
    }
    if d == 0 {
        "0"
    } else if d == 1 {
        "1"
    } else if d == 2 {
        "2"
    } else if d == 3 {
        "3"
    } else if d == 4 {
        "4"
    } else if d == 5 {
        "5"
    } else if d == 6 {
        "6"
    } else if d == 7 {
        "7"
    } else if d == 8 {
        "8"
    } else {
        "9"
    }
}

/// Formats `n` as decimal text.
pub fn format_u32(n: u32) -> (s: String)
    ensures
        s@ == dec_rep(n as nat),
    decreases n,
{
    if n < 10 {
        digit_str(n).to_owned()
    } else {
        let mut s = format_u32(n / 10);
        s.append(digit_str(n % 10));
        proof {
            assert(s@ =~= dec_rep((n / 10) as nat).push(digit_char((n % 10) as int)));
        }
        s
    }
}

/// The value of a digit sequence is nonnegative and prefixes never exceed
/// longer prefixes.
pub proof fn lemma_dec_val_prefix(s: Seq<char>, i: int, j: int)
    requires
        0 <= i <= j <= s.len(),
        forall|k: int| 0 <= k < s.len() ==> is_digit(#[trigger] s[k]),
    ensures
        0 <= dec_val(s.take(i)) <= dec_val(s.take(j)),
    decreases j - i,
{
    if i == j {
        lemma_dec_val_nonneg(s.take(i));
    } else {
        lemma_dec_val_prefix(s, i, j - 1);
        assert(s.take(j).drop_last() =~= s.take(j - 1));
        lemma_dec_val_nonneg(s.take(j - 1));
    }
}

/// A digit sequence has a nonnegative value.
pub proof fn lemma_dec_val_nonneg(s: Seq<char>)
    requires
        forall|k: int| 0 <= k < s.len() ==> is_digit(#[trigger] s[k]),
    ensures
        dec_val(s) >= 0,
    decreases s.len(),
{
    if s.len() > 0 {
        lemma_dec_val_nonneg(s.drop_last());
    }
}

/// Index of the first `.` in `s` at or after `i`, or `s.len()` if none.
pub open spec fn dot_pos(s: Seq<char>, i: int) -> int
    decreases s.len() - i when 0 <= i <= s.len()
{
    if i < 0 || i >= s.len() {
        s.len() as int
    } else if s[i] == '.' {
        i
    } else {
        dot_pos(s, i + 1)
    }
}

proof fn lemma_dot_pos_value(s: Seq<char>, i: int, dpos: int)
    requires
        0 <= i <= dpos <= s.len(),
        forall|k: int| i <= k < dpos ==> s[k] != '.',
        dpos == s.len() || s[dpos] == '.',
    ensures
        dot_pos(s, i) == dpos,
    decreases dpos - i,
{
    if i < dpos {
        lemma_dot_pos_value(s, i + 1, dpos);
    }
}

/// The digits and optional leading sign of a reading, without the sign.
pub open spec fn fixed_body(s: Seq<char>) -> Seq<char> {
    if s.len() >= 1 && s[0] == '-' {
        s.skip(1)
    } else {
        s
    }
}

/// Whether a reading carries a leading minus sign.
pub open spec fn is_neg(s: Seq<char>) -> bool {
    s.len() >= 1 && s[0] == '-'
}

/// An unsigned fixed-point body: one or more whole digits, then optionally a
/// dot followed by zero or more fraction digits.
pub open spec fn well_formed_fixed(b: Seq<char>) -> bool {
    let p = dot_pos(b, 0);
    &&& p >= 1
    &&& forall|k: int| 0 <= k < p ==> is_digit(#[trigger] b[k])
    &&& forall|k: int| p < k < b.len() ==> is_digit(#[trigger] b[k])
}

/// The fraction digits of a body (empty when there is no dot).
pub open spec fn frac_digits(b: Seq<char>) -> Seq<char> {
    let p = dot_pos(b, 0);
    if p < b.len() {
        b.subrange(p + 1, b.len() as int)
    } else {
        Seq::empty()
    }
}

/// Thousandths contributed by the fraction digits: the first three digits,
/// padded with zeros on the right; further digits are truncated away.
pub open spec fn frac_milli(f: Seq<char>) -> int {
    if f.len() >= 3 {
        dec_val(f.take(3))
    } else if f.len() == 2 {
        dec_val(f) * 10
    } else if f.len() == 1 {
        dec_val(f) * 100
    } else {
        0
    }
}

/// Value of the whole-number digits of a body.
pub open spec fn whole_val(b: Seq<char>) -> int {
    dec_val(b.take(dot_pos(b, 0)))
}

/// Magnitude of a body in thousandths.
pub open spec fn milli_mag(b: Seq<char>) -> int {
    whole_val(b) * 1000 + frac_milli(frac_digits(b))
}

/// Bound on the whole part a reading may carry.
pub const WHOLE_LIMIT: u64 = 1000000000000;

/// A reading `parse_milli` accepts: an optional minus sign, a well-formed
/// fixed-point body, and a whole part below [`WHOLE_LIMIT`].
pub open spec fn fixed_point_ok(s: Seq<char>) -> bool {
    well_formed_fixed(fixed_body(s)) && whole_val(fixed_body(s)) < WHOLE_LIMIT
}

/// The signed value of a reading, in thousandths.
pub open spec fn milli_value(s: Seq<char>) -> int {
    if is_neg(s) {
        -milli_mag(fixed_body(s))
    } else {
        milli_mag(fixed_body(s))
    }
}

/// Parses a fixed-point reading such as `25.73` or `-3.5` into thousandths
/// (`25730`, `-3500`), truncating fraction digits beyond the third. Succeeds
/// exactly on inputs satisfying [`fixed_point_ok`].
pub fn parse_milli(s: &str) -> (r: Option<i64>)
    ensures
        match r {
            Some(v) => fixed_point_ok(s@) && v as int == milli_value(s@),
            None => !fixed_point_ok(s@),
        },
{
    let n = s.unicode_len();
    if n == 0 {
        return None;
    }
    let neg = s.get_char(0) == '-';
    let off: usize = if neg {
        1
    } else {
        0
    };
    let ghost b = s@.skip(off as int);
    proof {
        assert(b =~= fixed_body(s@));
    }
    let mut d: usize = off;
    while d < n && s.get_char(d) != '.'
        invariant
            n == s@.len(),
            off <= d <= n,
            forall|k: int| off <= k < d ==> s@[k] != '.',
        decreases n - d,
    {
        d += 1;
    }
    proof {
        lemma_dot_pos_value(b, 0, (d - off) as int);
    }
    if d == off {
        return None;
    }
    let ghost p = (d - off) as int;
    let mut acc: u64 = 0;
    let mut i: usize = off;
    while i < d
        invariant
            n == s@.len(),
            b == s@.skip(off as int),
            b == fixed_body(s@),
            p == dot_pos(b, 0),
            off <= i <= d <= n,
            p == d - off,
            forall|k: int| 0 <= k < i - off ==> is_digit(#[trigger] b[k]),
            acc < WHOLE_LIMIT,
            acc as int == dec_val(b.take(i - off)),
        decreases d - i,
    {
        let c = s.get_char(i);
        let v = c as u32;
        if !(48 <= v && v <= 57) {
            proof {
                assert(!is_digit(b[i - off]));
            }
            return None;
        }
        acc = acc * 10 + (v - 48) as u64;
        proof {
            assert(b.take(i - off + 1).drop_last() =~= b.take(i - off));
            assert(b.take(i - off + 1).last() == b[i - off]);
        }
        i += 1;
        if acc >= WHOLE_LIMIT {
            proof {
                if well_formed_fixed(b) {
                    let whole = b.take(p);
                    assert(forall|k: int|
                        0 <= k < whole.len() ==> is_digit(#[trigger] whole[k]));
                    lemma_dec_val_prefix(whole, i - off, p);
                    assert(whole.take(i - off) =~= b.take(i - off));
                    assert(whole.take(p) =~= whole);
                }
            }
            return None;
        }
    }
    let mut frac: u64 = 0;
    let ghost f = frac_digits(b);
    if d < n {
        proof {
            assert(f =~= b.subrange(p + 1, b.len() as int));
        }
        let mut j: usize = d + 1;
        while j < n
            invariant
                n == s@.len(),
                b == s@.skip(off as int),
                b == fixed_body(s@),
                p == dot_pos(b, 0),
                off < d < n,
                p == d - off,
                d + 1 <= j <= n,
                f == b.subrange(p + 1, b.len() as int),
                f.len() == n - d - 1,
                forall|k: int| 0 <= k < j - d - 1 ==> is_digit(#[trigger] f[k]),
                frac <= 999,
                frac as int == dec_val(f.take(if j - d - 1 >= 3 {
                    3int
                } else {
                    j - d - 1
                })),
            decreases n - j,
        {
            let c = s.get_char(j);
            let v = c as u32;
            if !(48 <= v && v <= 57) {
                proof {
                    assert(!is_digit(f[j - d - 1]));
                    assert(!well_formed_fixed(b)) by {
                        assert(b[p + 1 + (j - d - 1)] == f[j - d - 1]);
                    }
                }
                return None;
            }
            if j - d - 1 < 3 {
                frac = frac * 10 + (v - 48) as u64;
                proof {
                    let t = j - d - 1;
                    assert(f.take(t + 1).drop_last() =~= f.take(t as int));
                    assert(f.take(t + 1).last() == f[t as int]);
                    lemma_dec_val_nonneg(f.take(t + 1));
                    assert(frac <= 999) by {
                        lemma_dec_val_small(f.take(t + 1));
                    }
                }
            }
            j += 1;
        }
        let flen = n - d - 1;
        proof {
            if flen < 3 {
                assert(f.take(flen as int) =~= f);
                lemma_dec_val_small(f);
            }
        }
        if flen == 2 {
            frac = frac * 10;
        } else if flen == 1 {
            frac = frac * 100;
        }
    }
    proof {
        assert(frac as int == frac_milli(f));
        assert(well_formed_fixed(b)) by {
            if p < b.len() {
                assert forall|k: int| p < k < b.len() implies is_digit(#[trigger] b[k]) by {
                    assert(b[k] == f[k - p - 1]);
                }
            }
        }
        assert(acc as int == whole_val(b)) by {
            assert(b.take(p) =~= b.take(d - off));
        }
    }
    let milli: u64 = acc * 1000 + frac;
    if neg {
        Some(-(milli as i64))
    } else {
        Some(milli as i64)
    }
}

/// A short digit sequence has a correspondingly small value.
proof fn lemma_dec_val_small(s: Seq<char>)
    requires
        s.len() <= 3,
        forall|k: int| 0 <= k < s.len() ==> is_digit(#[trigger] s[k]),
    ensures
        dec_val(s) <= (if s.len() == 0 {
            0int
        } else if s.len() == 1 {
            9int
        } else if s.len() == 2 {
            99int
        } else {
            999int
        }),
        dec_val(s) >= 0,
    decreases s.len(),
{
    if s.len() > 0 {
        lemma_dec_val_small(s.drop_last());
    }
}

/// Parses decimal text into a `u32`: succeeds exactly on nonempty all-digit
/// input whose value fits.
pub fn parse_u32(s: &str) -> (r: Option<u32>)
    ensures
        match r {
            Some(v) => is_digits(s@) && dec_val(s@) == v as int,
            None => !(is_digits(s@) && dec_val(s@) <= u32::MAX),
        },
{
    let n = s.unicode_len();
    if n == 0 {
        return None;
    }
    let mut acc: u64 = 0;
    let mut i: usize = 0;
    while i < n
        invariant
            n == s@.len(),
            0 < n,
            i <= n,
            forall|k: int| 0 <= k < i ==> is_digit(#[trigger] s@[k]),
            acc <= u32::MAX,
            acc as int == dec_val(s@.take(i as int)),
        decreases n - i,
    {
        let c = s.get_char(i);
        let v = c as u32;
        if !(48 <= v && v <= 57) {
            proof {
                assert(!is_digit(s@[i as int]));
            }
            return None;
        }
        acc = acc * 10 + (v - 48) as u64;
        proof {
            assert(s@.take(i as int + 1).drop_last() =~= s@.take(i as int));
            assert(s@.take(i as int + 1).last() == s@[i as int]);
        }
        i += 1;
        if acc > u32::MAX as u64 {
            proof {
                if is_digits(s@) {
                    lemma_dec_val_prefix(s@, i as int, n as int);
                    assert(s@.take(n as int) =~= s@);
                }
            }
            return None;
        }
    }
    proof {
        assert(s@.take(n as int) =~= s@);
    }
    Some(acc as u32)
}

} // verus!
