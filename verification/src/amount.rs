//! Amounts as the user reads them.

use vstd::prelude::*;
use vstd::string::*;

use crate::text;

verus! {

broadcast use vstd::string::group_string_axioms;

/// Zatoshis in one ZEC.
pub const ZAT_PER_ZEC: u64 = 100_000_000;

/// The smallest amount that is shown in ZEC: 0.001 ZEC.
pub const DUST: u64 = 100_000;

/// A text without the zeros at its end.
pub open spec fn strip_zeros(s: Seq<char>) -> Seq<char>
    decreases s.len(),
{
    if s.len() > 0 && s.last() == '0' {
        strip_zeros(s.drop_last())
    } else {
        s
    }
}

/// An amount in ZEC: the whole part, and up to eight decimals when there are any.
pub open spec fn zec_text(zat: nat) -> Seq<char> {
    let whole = zat / ZAT_PER_ZEC as nat;
    let frac = zat % ZAT_PER_ZEC as nat;
    if frac == 0 {
        text::decimal(whole)
    } else {
        text::decimal(whole) + seq!['.'] + strip_zeros(text::fixed_digits(frac, 8))
    }
}

/// A user-facing amount: zatoshis for dust, ZEC otherwise.
pub open spec fn amount_text(zat: nat) -> Seq<char> {
    if 0 < zat < DUST {
        text::decimal(zat) + " zatoshis"@
    } else {
        zec_text(zat) + " ZEC"@
    }
}

proof fn strip_zeros_takes(s: Seq<char>, n: int)
    requires
        0 <= n <= s.len(),
        forall|i: int| n <= i < s.len() ==> #[trigger] s[i] == '0',
        n > 0 ==> s[n - 1] != '0',
    ensures
        strip_zeros(s) == s.take(n),
    decreases s.len() - n,
{
    if n < s.len() {
        strip_zeros_takes(s.drop_last(), n);
        assert(s.drop_last().take(n) =~= s.take(n));
    } else {
        assert(s.take(n) =~= s);
    }
}

fn strip_zeros_text(s: &str) -> (r: String)
    ensures
        r@ == strip_zeros(s@),
{
    let chars = text::chars_of(s);
    let mut to: usize = chars.len();
    while to > 0 && chars[to - 1] == '0'
        invariant
            to <= chars@.len(),
            forall|i: int| to <= i < chars@.len() ==> #[trigger] chars@[i] == '0',
        ensures
            to <= chars@.len(),
            forall|i: int| to <= i < chars@.len() ==> #[trigger] chars@[i] == '0',
            to > 0 ==> chars@[to - 1] != '0',
        decreases to,
    {
        to = to - 1;
    }
    proof {
        strip_zeros_takes(s@, to as int);
        assert(s@.take(to as int) =~= s@.subrange(0, to as int));
    }
    text::text_between(&chars, 0, to)
}

/// An amount in ZEC, without the zeros at the end of its decimals.
pub fn format_zec(zat: u64) -> (r: String)
    ensures
        r@ == zec_text(zat as nat),
{
    let whole: u64 = zat / ZAT_PER_ZEC;
    let frac: u64 = zat % ZAT_PER_ZEC;
    let mut s = text::u64_text(whole);
    if frac != 0 {
        s.push('.');
        let digits = text::fixed_text(frac, 8);
        let decimals = strip_zeros_text(digits.as_str());
        s.append(decimals.as_str());
        assert(s@ =~= zec_text(zat as nat));
    }
    s
}

/// A user-facing amount. ZEC reads naturally for most values, but sub-0.001 ZEC
/// dust turns into a wall of leading zeros, so those show as plain zatoshis.
pub fn format_amount(zat: u64) -> (r: String)
    ensures
        r@ == amount_text(zat as nat),
{
    if zat != 0 && zat < DUST {
        let mut s = text::u64_text(zat);
        s.append(" zatoshis");
        s
    } else {
        let mut s = format_zec(zat);
        s.append(" ZEC");
        s
    }
}

// ---------------------------------------------------------------------------
// An amount's text tells the amount
// ---------------------------------------------------------------------------

/// A power of ten.
pub open spec fn pow10(n: nat) -> nat
    decreases n,
{
    if n == 0 {
        1
    } else {
        10 * pow10((n - 1) as nat)
    }
}

proof fn fixed_digits_denote(n: nat, width: nat)
    requires
        n < pow10(width),
    ensures
        text::fixed_digits(n, width).len() == width,
        text::decimal_value(text::fixed_digits(n, width)) == n,
    decreases width,
{
    if width > 0 {
        fixed_digits_denote(n / 10, (width - 1) as nat);
        let s = text::fixed_digits(n, width);
        assert(s.drop_last() =~= text::fixed_digits(n / 10, (width - 1) as nat));
    } else {
        assert(text::fixed_digits(n, width) =~= seq![]);
    }
}

proof fn strip_zeros_injective(s: Seq<char>, t: Seq<char>)
    requires
        s.len() == t.len(),
        strip_zeros(s) == strip_zeros(t),
    ensures
        s == t,
    decreases s.len(),
{
    strip_zeros_shorter(s);
    strip_zeros_shorter(t);
    if s.len() > 0 {
        if s.last() == '0' && t.last() == '0' {
            strip_zeros_injective(s.drop_last(), t.drop_last());
            assert(s =~= s.drop_last().push('0'));
            assert(t =~= t.drop_last().push('0'));
        } else if s.last() == '0' {
            strip_zeros_shorter(s.drop_last());
        } else if t.last() == '0' {
            strip_zeros_shorter(t.drop_last());
        }
    } else {
        assert(s =~= t);
    }
}

proof fn strip_zeros_shorter(s: Seq<char>)
    ensures
        strip_zeros(s).len() <= s.len(),
    decreases s.len(),
{
    if s.len() > 0 && s.last() == '0' {
        strip_zeros_shorter(s.drop_last());
    }
}

/// Two amounts with one ZEC text are one amount: no digit is lost in showing it.
pub proof fn zec_text_injective(a: nat, b: nat)
    requires
        zec_text(a) == zec_text(b),
    ensures
        a == b,
{
    let unit = ZAT_PER_ZEC as nat;
    let (wa, wb) = (a / unit, b / unit);
    let (fa, fb) = (a % unit, b % unit);
    let (da, db) = (text::decimal(wa), text::decimal(wb));
    text::decimal_denotes(wa);
    text::decimal_denotes(wb);
    reveal_with_fuel(pow10, 9);
    assert(pow10(8) == unit);
    fixed_digits_denote(fa, 8);
    fixed_digits_denote(fb, 8);
    let (ta, tb) = (zec_text(a), zec_text(b));
    assert(forall|i: int| 0 <= i < da.len() ==> ta[i] == da[i]);
    assert(forall|i: int| 0 <= i < db.len() ==> tb[i] == db[i]);
    if fa != 0 {
        assert(ta[da.len() as int] == '.');
    }
    if fb != 0 {
        assert(tb[db.len() as int] == '.');
    }
    if da.len() < db.len() {
        assert(0x30 <= db[da.len() as int] as u32);
        assert(false);
    }
    if db.len() < da.len() {
        assert(0x30 <= da[db.len() as int] as u32);
        assert(false);
    }
    assert(da =~= db) by {
        assert forall|i: int| 0 <= i < da.len() implies da[i] == db[i] by {
            assert(ta[i] == tb[i]);
        }
    }
    assert(wa == wb);
    if fa != 0 && fb != 0 {
        let (sa, sb) = (
            strip_zeros(text::fixed_digits(fa, 8)),
            strip_zeros(text::fixed_digits(fb, 8)),
        );
        assert(ta.skip(da.len() as int + 1) =~= sa);
        assert(tb.skip(db.len() as int + 1) =~= sb);
        strip_zeros_injective(text::fixed_digits(fa, 8), text::fixed_digits(fb, 8));
    }
    assert(fa == fb);
}

/// Two amounts that the user reads alike are one amount.
pub proof fn amount_text_injective(a: nat, b: nat)
    requires
        amount_text(a) == amount_text(b),
    ensures
        a == b,
{
    reveal_strlit(" zatoshis");
    reveal_strlit(" ZEC");
    let (ta, tb) = (amount_text(a), amount_text(b));
    if 0 < a < DUST {
        assert(ta[ta.len() - 1] == 's');
    } else {
        assert(ta[ta.len() - 1] == 'C');
    }
    if 0 < b < DUST {
        assert(tb[tb.len() - 1] == 's');
    } else {
        assert(tb[tb.len() - 1] == 'C');
    }
    if 0 < a < DUST {
        assert(ta.take(ta.len() - 9) =~= text::decimal(a));
        assert(tb.take(tb.len() - 9) =~= text::decimal(b));
        text::decimal_injective(a, b);
    } else {
        assert(ta.take(ta.len() - 4) =~= zec_text(a));
        assert(tb.take(tb.len() - 4) =~= zec_text(b));
        zec_text_injective(a, b);
    }
}

proof fn stripped_value(s: Seq<char>)
    ensures
        strip_zeros(s).len() <= s.len(),
        strip_zeros(s) == s.take(strip_zeros(s).len() as int),
        strip_zeros(s).len() > 0 ==> strip_zeros(s).last() != '0',
        text::decimal_value(s) == text::decimal_value(strip_zeros(s)) * pow10(
            (s.len() - strip_zeros(s).len()) as nat,
        ),
    decreases s.len(),
{
    if s.len() > 0 && s.last() == '0' {
        let t = s.drop_last();
        stripped_value(t);
        let r = strip_zeros(t);
        assert(strip_zeros(s) == r);
        assert(t.take(r.len() as int) =~= s.take(r.len() as int));
        let d = (t.len() - r.len()) as nat;
        let (v, p) = (text::decimal_value(r), pow10(d));
        assert(pow10(d + 1) == 10 * p);
        assert((s.len() - r.len()) as nat == d + 1);
        assert(text::decimal_value(s) == 10 * text::decimal_value(t));
        assert(text::decimal_value(t) == v * p);
        assert(10 * (v * p) == v * (10 * p)) by (nonlinear_arith);
    } else {
        assert(s.take(s.len() as int) =~= s);
        assert(pow10(0) == 1);
        let v = text::decimal_value(s);
        assert(v * 1 == v) by (nonlinear_arith);
    }
}

/// An amount in ZEC is its whole part, and where it has a fraction a point and decimals
/// that denote the fraction to the hundred-millionth, at most eight of them and without
/// zeros at the end.
pub proof fn zec_text_denotes(zat: nat)
    ensures
        zat % 100_000_000 == 0 ==> zec_text(zat) == text::decimal(zat / 100_000_000),
        zat % 100_000_000 != 0 ==> exists|decimals: Seq<char>| #[trigger]
            is_fraction(decimals, zat % 100_000_000) && zec_text(zat) == text::decimal(
                zat / 100_000_000,
            ) + seq!['.'] + decimals,
{
    let frac = zat % 100_000_000;
    if frac != 0 {
        let digits = text::fixed_digits(frac, 8);
        reveal_with_fuel(pow10, 9);
        assert(pow10(8) == 100_000_000);
        fixed_digits_denote(frac, 8);
        stripped_value(digits);
        let decimals = strip_zeros(digits);
        if decimals.len() == 0 {
            assert(text::decimal_value(decimals) == 0);
            assert(0 * pow10(8) == 0);
        }
        assert(is_fraction(decimals, frac));
    }
}

/// Whether decimals denote a fraction of a hundred million, shortest.
pub open spec fn is_fraction(decimals: Seq<char>, frac: nat) -> bool {
    &&& 0 < decimals.len() <= 8
    &&& decimals.last() != '0'
    &&& text::decimal_value(decimals) * pow10((8 - decimals.len()) as nat) == frac
}

/// Less than a thousandth of a ZEC, but more than nothing, reads in zatoshis, and any other
/// amount in ZEC.
pub proof fn only_dust_reads_in_zatoshis(zat: nat)
    ensures
        0 < zat < 100_000 ==> amount_text(zat) == text::decimal(zat) + " zatoshis"@,
        zat == 0 || zat >= 100_000 ==> amount_text(zat) == zec_text(zat) + " ZEC"@,
{
}

/// An amount is written so that it can be told from any other.
pub proof fn an_amount_is_told_from_others(a: u64, r: String, b: u64, s: String)
    requires
        call_ensures(format_amount, (a,), r),
        call_ensures(format_amount, (b,), s),
    ensures
        r@ == s@ <==> a == b,
        0 < a < 100_000 ==> r@ == text::decimal(a as nat) + " zatoshis"@,
        a >= 100_000 && a % 100_000_000 == 0 ==> r@ == text::decimal((a / 100_000_000) as nat)
            + " ZEC"@,
{
    if r@ == s@ {
        amount_text_injective(a as nat, b as nat);
    }
}

} // verus!
