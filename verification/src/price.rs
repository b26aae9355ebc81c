//! Prices as exact decimals, and the texts they are read from and written to.

use vstd::prelude::*;
use vstd::arithmetic::power::pow;
use crate::text::{chars_of, is_white_space, is_whitespace, string_of};

verus! {

/// A non-negative decimal number: `units` counted in steps of `10^-scale`.
///
/// `12.34` is `units = 1234, scale = 2`; `5.00` is `units = 500, scale = 2`.
#[derive(Clone, Copy, Debug, PartialEq, Eq, Structural)]
pub struct Price {
    pub units: u64,
    pub scale: u32,
}

/// A decimal comma becomes a decimal point; every other character stays.
pub open spec fn point_for_comma(c: char) -> char {
    if c == ',' {
        '.'
    } else {
        c
    }
}

/// A price text without its whitespace and with points for commas.
pub open spec fn normalized(s: Seq<char>) -> Seq<char>
    decreases s.len(),
{
    if s.len() == 0 {
        Seq::empty()
    } else if is_white_space(s.last()) {
        normalized(s.drop_last())
    } else {
        normalized(s.drop_last()).push(point_for_comma(s.last()))
    }
}

/// A text that normalization leaves as it is: no whitespace and no comma.
pub open spec fn is_normal(s: Seq<char>) -> bool {
    forall|i: int| 0 <= i < s.len() ==> !is_white_space(#[trigger] s[i]) && s[i] != ','
}

/// Normalization yields a normal text.
pub proof fn lemma_normalized_is_normal(s: Seq<char>)
    ensures
        is_normal(normalized(s)),
    decreases s.len(),
{
    if s.len() > 0 {
        lemma_normalized_is_normal(s.drop_last());
    }
}

/// Normalization changes nothing in a normal text.
pub proof fn lemma_normal_is_fixed(s: Seq<char>)
    requires
        is_normal(s),
    ensures
        normalized(s) == s,
    decreases s.len(),
{
    if s.len() > 0 {
        lemma_normal_is_fixed(s.drop_last());
        assert(s.drop_last().push(s.last()) =~= s);
    }
}

/// Normalizing twice is normalizing once.
pub proof fn lemma_normalize_idempotent(s: Seq<char>)
    ensures
        normalized(normalized(s)) == normalized(s),
{
    lemma_normalized_is_normal(s);
    lemma_normal_is_fixed(normalized(s));
}

/// Strips all whitespace from a price text, wherever it stands, and
/// replaces each decimal comma by a decimal point.
pub fn normalize(text: &str) -> (r: String)
    ensures
        r@ == normalized(text@),
        is_normal(r@),
{
    let chars = chars_of(text);
    let mut out: Vec<char> = Vec::new();
    let mut i: usize = 0;
    while i < chars.len()
        invariant
            i <= chars.len(),
            out@ == normalized(chars@.take(i as int)),
        decreases chars.len() - i,
    {
        let c = chars[i];
        assert(chars@.take(i + 1).drop_last() =~= chars@.take(i as int));
        if is_whitespace(c) {
        } else if c == ',' {
            out.push('.');
        } else {
            out.push(c);
        }
        i += 1;
    }
    assert(chars@.take(chars@.len() as int) =~= chars@);
    proof {
        lemma_normalized_is_normal(text@);
    }
    string_of(&out)
}

/// A decimal digit.
pub open spec fn is_digit(c: char) -> bool {
    '0' <= c && c <= '9'
}

/// The number that a decimal digit stands for.
pub open spec fn digit_value(c: char) -> nat {
    (c as u32 - '0' as u32) as nat
}

/// Every character is a decimal digit.
pub open spec fn all_digits(s: Seq<char>) -> bool {
    forall|i: int| 0 <= i < s.len() ==> is_digit(#[trigger] s[i])
}

/// The number that a run of decimal digits writes; the empty run writes 0.
pub open spec fn digits_value(s: Seq<char>) -> nat
    decreases s.len(),
{
    if s.len() == 0 {
        0
    } else {
        digits_value(s.drop_last()) * 10 + digit_value(s.last())
    }
}

/// The place of the first decimal point of `s`, or its length where it has
/// none.
pub open spec fn point_at(s: Seq<char>) -> int
    decreases s.len(),
{
    if s.len() == 0 || s.first() == '.' {
        0
    } else {
        1 + point_at(s.drop_first())
    }
}

/// What stands before the first decimal point.
pub open spec fn whole_part(s: Seq<char>) -> Seq<char> {
    s.take(point_at(s))
}

/// What stands behind the first decimal point.
pub open spec fn fraction_part(s: Seq<char>) -> Seq<char> {
    if point_at(s) < s.len() {
        s.skip(point_at(s) + 1)
    } else {
        Seq::empty()
    }
}

/// A decimal numeral: digits with at most one decimal point before, among
/// or behind them, and at least one digit.
///
/// A price is written without a sign and without an exponent. Texts such
/// as `+5`, `-5`, `1e3`, `inf` or `nan`, which a parser of floating-point
/// numbers takes, are no numerals here: a page that shows one of them
/// where a price belongs is better reported than read.
pub open spec fn is_numeral(s: Seq<char>) -> bool {
    &&& all_digits(whole_part(s))
    &&& all_digits(fraction_part(s))
    &&& whole_part(s).len() + fraction_part(s).len() > 0
}

/// The digits of a numeral read as one number, the point left out.
pub open spec fn numeral_units(s: Seq<char>) -> nat {
    digits_value(whole_part(s) + fraction_part(s))
}

/// The number of digits behind the point.
pub open spec fn numeral_scale(s: Seq<char>) -> nat {
    fraction_part(s).len()
}

/// The price that a text writes: it is a decimal numeral whose digits fit
/// the price's fields.
pub open spec fn decimal_of(s: Seq<char>) -> Option<Price> {
    if is_numeral(s) && numeral_units(s) <= u64::MAX && numeral_scale(s) <= u32::MAX {
        Some(Price { units: numeral_units(s) as u64, scale: numeral_scale(s) as u32 })
    } else {
        None
    }
}

/// Where no point stands before place `k`, the first point stands at `k` or
/// behind it: at `k` where a point stands there or the text ends there.
pub proof fn lemma_point_at(s: Seq<char>, k: int)
    requires
        0 <= k <= s.len(),
        forall|j: int| 0 <= j < k ==> s[j] != '.',
    ensures
        k <= point_at(s) <= s.len(),
        k == s.len() || s[k] == '.' ==> point_at(s) == k,
    decreases s.len(),
{
    if s.len() == 0 || s.first() == '.' {
    } else if k == 0 {
        lemma_point_at(s.drop_first(), 0);
    } else {
        let rest = s.drop_first();
        assert forall|j: int| 0 <= j < k - 1 implies rest[j] != '.' by {
            assert(rest[j] == s[j + 1]);
        }
        lemma_point_at(rest, k - 1);
    }
}

/// A run of digits writes no smaller a number than any of its beginnings.
pub proof fn lemma_digits_value_grows(s: Seq<char>, k: int)
    requires
        0 <= k <= s.len(),
    ensures
        digits_value(s.take(k)) <= digits_value(s),
    decreases s.len(),
{
    if k == s.len() {
        assert(s.take(k) =~= s);
    } else {
        assert(s.drop_last().take(k) =~= s.take(k));
        lemma_digits_value_grows(s.drop_last(), k);
        assert(digits_value(s.drop_last()) * 10 >= digits_value(s.drop_last())) by (nonlinear_arith);
    }
}

/// Where the first point is said to stand inside the text, a point stands.
pub proof fn lemma_point_is_there(s: Seq<char>)
    ensures
        0 <= point_at(s) <= s.len(),
        point_at(s) < s.len() ==> s[point_at(s)] == '.',
    decreases s.len(),
{
    if s.len() == 0 || s.first() == '.' {
    } else {
        lemma_point_is_there(s.drop_first());
    }
}

/// A decimal numeral is a normal text: it holds digits and at most one
/// point, and so neither whitespace nor a comma.
pub proof fn lemma_numeral_is_normal(s: Seq<char>)
    requires
        is_numeral(s),
    ensures
        is_normal(s),
        normalized(s) == s,
        decimal_of(normalized(s)) == decimal_of(s),
{
    let p = point_at(s);
    assert forall|j: int| 0 <= j < 0 implies s[j] != '.' by {}
    lemma_point_at(s, 0);
    assert forall|i: int| 0 <= i < s.len() implies !is_white_space(#[trigger] s[i]) && s[i]
        != ',' by {
        if i < p {
            assert(whole_part(s)[i] == s[i]);
        } else if i == p {
            lemma_point_is_there(s);
        } else {
            assert(fraction_part(s)[i - p - 1] == s[i]);
        }
    }
    lemma_normal_is_fixed(s);
}

fn is_digit_char(c: char) -> (b: bool)
    ensures
        b == is_digit(c),
{
    '0' <= c && c <= '9'
}

fn digit_of(c: char) -> (d: u64)
    requires
        is_digit(c),
    ensures
        d == digit_value(c),
        d <= 9,
{
    (c as u32 - '0' as u32) as u64
}

/// Reads a decimal numeral.
///
/// Returns the price exactly when the text is a numeral, its digits read as
/// one number fit 64 bits, and the digits behind the point can be counted
/// in 32 bits.
pub fn parse_decimal(text: &str) -> (r: Option<Price>)
    ensures
        r == decimal_of(text@),
{
    let chars = chars_of(text);
    let n = chars.len();
    let ghost s = chars@;
    let mut units: u64 = 0;
    let mut i: usize = 0;
    assert(s.take(0) =~= Seq::<char>::empty());
    while i < n && is_digit_char(chars[i])
        invariant
            i <= n,
            n == chars.len(),
            s == chars@,
            s == text@,
            all_digits(s.take(i as int)),
            units == digits_value(s.take(i as int)),
        decreases n - i,
    {
        let d = digit_of(chars[i]);
        proof {
            assert(s.take(i + 1).drop_last() =~= s.take(i as int));
            assert(s.take(i + 1).last() == s[i as int]);
        }
        if units > (u64::MAX - d) / 10 {
            proof {
                assert forall|j: int| 0 <= j < i + 1 implies s[j] != '.' by {
                    assert(s.take(i + 1)[j] == s[j]);
                    if j < i {
                        assert(s.take(i as int)[j] == s[j]);
                    }
                }
                lemma_point_at(s, i + 1);
                let digits = whole_part(s) + fraction_part(s);
                assert(digits.take(i + 1) =~= s.take(i + 1));
                lemma_digits_value_grows(digits, i + 1);
            }
            return None;
        }
        units = units * 10 + d;
        i += 1;
    }
    proof {
        assert forall|j: int| 0 <= j < i implies s[j] != '.' by {
            assert(s.take(i as int)[j] == s[j]);
        }
    }
    if i == n {
        proof {
            lemma_point_at(s, n as int);
            assert(s.take(n as int) =~= s);
            assert(whole_part(s) + fraction_part(s) =~= s);
        }
        if n == 0 {
            return None;
        }
        return Some(Price { units, scale: 0 });
    }
    if chars[i] != '.' {
        proof {
            lemma_point_at(s, i + 1);
            assert(whole_part(s)[i as int] == s[i as int]);
        }
        return None;
    }
    let p = i;
    proof {
        lemma_point_at(s, p as int);
    }
    i = p + 1;
    assert(s.subrange(p + 1, p + 1) =~= Seq::<char>::empty());
    assert(s.take(p as int) + Seq::<char>::empty() =~= s.take(p as int));
    while i < n && is_digit_char(chars[i])
        invariant
            p < i <= n,
            n == chars.len(),
            s == chars@,
            s == text@,
            point_at(s) == p,
            all_digits(s.take(p as int)),
            all_digits(s.subrange(p + 1, i as int)),
            units == digits_value(s.take(p as int) + s.subrange(p + 1, i as int)),
        decreases n - i,
    {
        let d = digit_of(chars[i]);
        proof {
            let sofar = s.take(p as int) + s.subrange(p + 1, i as int);
            let next = s.take(p as int) + s.subrange(p + 1, i + 1);
            assert(next.drop_last() =~= sofar);
            assert(next.last() == s[i as int]);
            assert forall|j: int| 0 <= j < s.subrange(p + 1, i + 1).len() implies is_digit(
                #[trigger] s.subrange(p + 1, i + 1)[j],
            ) by {
                if j < i - (p + 1) {
                    assert(s.subrange(p + 1, i as int)[j] == s[p + 1 + j]);
                }
            }
        }
        if units > (u64::MAX - d) / 10 {
            proof {
                let digits = whole_part(s) + fraction_part(s);
                let next = s.take(p as int) + s.subrange(p + 1, i + 1);
                assert(digits.take(i as int) =~= next);
                lemma_digits_value_grows(digits, i as int);
            }
            return None;
        }
        units = units * 10 + d;
        i += 1;
    }
    if i < n {
        proof {
            assert(fraction_part(s)[i - (p + 1)] == s[i as int]);
        }
        return None;
    }
    proof {
        assert(s.subrange(p + 1, n as int) =~= s.skip(p + 1));
    }
    if n == 1 {
        return None;
    }
    let width = n - p - 1;
    if width > u32::MAX as usize {
        return None;
    }
    Some(Price { units, scale: width as u32 })
}

/// Reads the price that a text of the page shows: the text is normalized,
/// then read as a decimal numeral.
pub fn parse_price(text: &str) -> (r: Option<Price>)
    ensures
        r == decimal_of(normalized(text@)),
{
    let clean = normalize(text);
    parse_decimal(clean.as_str())
}

/// The decimal digit that writes a number below ten.
pub open spec fn digit_char(d: nat) -> char {
    (('0' as u32 + d) as u8) as char
}

/// The decimal digits of `n`, without a leading zero unless `n` is 0.
pub open spec fn digits_of(n: nat) -> Seq<char>
    decreases n,
{
    if n < 10 {
        seq![digit_char(n)]
    } else {
        digits_of(n / 10).push(digit_char(n % 10))
    }
}

/// The last `width` decimal digits of `n`, with zeros in front where `n`
/// has fewer.
pub open spec fn low_digits(n: nat, width: nat) -> Seq<char>
    decreases width,
{
    if width == 0 {
        Seq::empty()
    } else {
        low_digits(n / 10, (width - 1) as nat).push(digit_char(n % 10))
    }
}

/// `n` without its last `width` decimal digits.
pub open spec fn high_part(n: nat, width: nat) -> nat
    decreases width,
{
    if width == 0 {
        n
    } else {
        high_part(n / 10, (width - 1) as nat)
    }
}

/// The same amount with as few digits behind the point as it needs:
/// trailing zeros behind the point are dropped.
pub open spec fn shortest(p: Price) -> Price
    decreases p.scale,
{
    if p.scale > 0 && p.units % 10 == 0 {
        shortest(Price { units: p.units / 10, scale: (p.scale - 1) as u32 })
    } else {
        p
    }
}

/// A price written with all the digits of its scale: the whole part, and
/// where the scale is not 0 a point and `scale` digits.
pub open spec fn exact_text(p: Price) -> Seq<char> {
    if p.scale == 0 {
        digits_of(p.units as nat)
    } else {
        digits_of(high_part(p.units as nat, p.scale as nat)) + seq!['.'] + low_digits(
            p.units as nat,
            p.scale as nat,
        )
    }
}

/// A digit character writes the number it was made for.
pub proof fn lemma_digit_char(d: nat)
    requires
        d < 10,
    ensures
        is_digit(digit_char(d)),
        digit_value(digit_char(d)) == d,
{
}

/// The digits of a number are digits, at least one, and write that number.
pub proof fn lemma_digits_of(n: nat)
    ensures
        all_digits(digits_of(n)),
        digits_of(n).len() >= 1,
        digits_value(digits_of(n)) == n,
    decreases n,
{
    lemma_digit_char(n % 10);
    assert(digits_of(n).last() == digit_char(n % 10));
    if n < 10 {
        assert(digits_of(n).drop_last() =~= Seq::<char>::empty());
        assert(digits_value(Seq::<char>::empty()) == 0);
    } else {
        lemma_digits_of(n / 10);
        assert(digits_of(n).drop_last() =~= digits_of(n / 10));
    }
}

/// The low digits of a number are digits, as many as asked for.
pub proof fn lemma_low_digits(n: nat, width: nat)
    ensures
        all_digits(low_digits(n, width)),
        low_digits(n, width).len() == width,
    decreases width,
{
    if width > 0 {
        lemma_digit_char(n % 10);
        lemma_low_digits(n / 10, (width - 1) as nat);
    }
}

/// The digits of the high part, followed by the low digits, write the
/// number.
pub proof fn lemma_high_and_low_digits(n: nat, width: nat)
    ensures
        digits_value(digits_of(high_part(n, width)) + low_digits(n, width)) == n,
    decreases width,
{
    if width == 0 {
        lemma_digits_of(n);
        assert(digits_of(n) + Seq::<char>::empty() =~= digits_of(n));
    } else {
        let before = (width - 1) as nat;
        lemma_high_and_low_digits(n / 10, before);
        lemma_digit_char(n % 10);
        let head = digits_of(high_part(n / 10, before));
        let all = head + low_digits(n, width);
        assert(all.drop_last() =~= head + low_digits(n / 10, before));
        assert(all.last() == digit_char(n % 10));
    }
}

/// A price written with all the digits of its scale reads as itself.
pub proof fn lemma_exact_text_reads_back(p: Price)
    ensures
        decimal_of(exact_text(p)) == Some(p),
{
    let s = exact_text(p);
    let units = p.units as nat;
    let scale = p.scale as nat;
    if p.scale == 0 {
        lemma_digits_of(units);
        lemma_point_at(s, s.len() as int);
        assert(whole_part(s) =~= s);
        assert(whole_part(s) + fraction_part(s) =~= s);
    } else {
        let head = digits_of(high_part(units, scale));
        let tail = low_digits(units, scale);
        lemma_digits_of(high_part(units, scale));
        lemma_low_digits(units, scale);
        lemma_high_and_low_digits(units, scale);
        assert forall|j: int| 0 <= j < head.len() implies s[j] != '.' by {
            assert(s[j] == head[j]);
        }
        assert(s[head.len() as int] == '.');
        lemma_point_at(s, head.len() as int);
        assert(whole_part(s) =~= head);
        assert(fraction_part(s) =~= tail);
    }
}

/// The shortest writing of a price denotes the same amount with no more
/// digits behind the point: the dropped digits were zeros.
pub proof fn lemma_shortest_keeps_amount(p: Price)
    ensures
        shortest(p).scale <= p.scale,
        shortest(p).units * pow(10, (p.scale - shortest(p).scale) as nat) == p.units,
        shortest(p).scale == 0 || shortest(p).units % 10 != 0,
    decreases p.scale,
{
    reveal(pow);
    if p.scale > 0 && p.units % 10 == 0 {
        let q = Price { units: p.units / 10, scale: (p.scale - 1) as u32 };
        lemma_shortest_keeps_amount(q);
        let r = shortest(q);
        let k = (q.scale - r.scale) as nat;
        assert(pow(10, k + 1) == 10 * pow(10, k));
        assert(r.units * (10 * pow(10, k)) == (r.units * pow(10, k)) * 10) by (nonlinear_arith);
    }
}

/// What `to_text` writes reads back as the same amount in its shortest
/// writing.
pub proof fn lemma_text_reads_back(p: Price)
    ensures
        decimal_of(p.text()) == Some(shortest(p)),
{
    lemma_exact_text_reads_back(shortest(p));
}

fn char_of_digit(d: u64) -> (c: char)
    requires
        d < 10,
    ensures
        c == digit_char(d as nat),
{
    (('0' as u32 + d as u32) as u8) as char
}

fn digits_vec(n: u64) -> (v: Vec<char>)
    ensures
        v@ == digits_of(n as nat),
{
    let mut head: Vec<char> = Vec::new();
    let mut whole: u64 = n;
    assert(digits_of(whole as nat) + head@ =~= digits_of(n as nat));
    while whole >= 10
        invariant
            digits_of(n as nat) == digits_of(whole as nat) + head@,
        decreases whole,
    {
        let c = char_of_digit(whole % 10);
        proof {
            let front = digits_of((whole / 10) as nat);
            assert(front.push(c) + head@ =~= front + head@.insert(0, c));
        }
        head.insert(0, c);
        whole = whole / 10;
    }
    let c = char_of_digit(whole);
    proof {
        assert(seq![c] + head@ =~= head@.insert(0, c));
    }
    head.insert(0, c);
    head
}

/// Writes a number in decimal digits.
pub fn number_text(n: u64) -> (r: String)
    ensures
        r@ == digits_of(n as nat),
{
    let digits = digits_vec(n);
    string_of(&digits)
}

impl Price {
    /// The price in its shortest decimal writing: `5.00` reads `5`, `12.50`
    /// reads `12.5`, `0.05` reads `0.05`.
    pub open spec fn text(self) -> Seq<char> {
        exact_text(shortest(self))
    }

    /// Writes the price in its shortest decimal writing.
    pub fn to_text(&self) -> (r: String)
        ensures
            r@ == self.text(),
    {
        let mut units: u64 = self.units;
        let mut scale: u32 = self.scale;
        while scale > 0 && units % 10 == 0
            invariant
                shortest(*self) == shortest(Price { units, scale }),
            decreases scale,
        {
            units = units / 10;
            scale = scale - 1;
        }
        let mut tail: Vec<char> = Vec::new();
        let mut rest: u64 = units;
        let mut k: u32 = 0;
        assert(low_digits(rest as nat, scale as nat) + tail@ =~= low_digits(
            units as nat,
            scale as nat,
        ));
        while k < scale
            invariant
                k <= scale,
                low_digits(units as nat, scale as nat) == low_digits(
                    rest as nat,
                    (scale - k) as nat,
                ) + tail@,
                high_part(units as nat, scale as nat) == high_part(rest as nat, (scale - k) as nat),
            decreases scale - k,
        {
            let c = char_of_digit(rest % 10);
            proof {
                let front = low_digits((rest / 10) as nat, (scale - k - 1) as nat);
                assert(front.push(c) + tail@ =~= front + tail@.insert(0, c));
            }
            tail.insert(0, c);
            rest = rest / 10;
            k = k + 1;
        }
        let mut head = digits_vec(rest);
        if scale > 0 {
            head.push('.');
            let mut tail = tail;
            head.append(&mut tail);
        }
        proof {
            let p = Price { units, scale };
            assert(shortest(*self) == p);
            if scale > 0 {
                assert(head@ =~= digits_of(rest as nat) + seq!['.'] + low_digits(
                    units as nat,
                    scale as nat,
                ));
            }
        }
        string_of(&head)
    }
}

} // verus!
