//! Water levels and thresholds as fixed-point numbers: hundredths of a foot.

use vstd::prelude::*;
use vstd::string::StringExecFns;

verus! {

/// Hundredths in one foot.
pub const LEVEL_SCALE: i64 = 100;

/// The payout threshold of a new ledger: 12.00 ft.
pub const DEFAULT_FLOOD_THRESHOLD: i64 = 1200;

/// The highest threshold that can be configured: 100.00 ft.
pub const MAX_FLOOD_THRESHOLD: i64 = 10000;

/// The whole feet in a level: the level without its fraction, and 0 for a
/// level below zero.
pub open spec fn whole_feet(level: int) -> int {
    if level < 0 {
        0
    } else {
        level / 100
    }
}

/// Whether a measured level reaches a threshold. The level is cut down to
/// whole feet first; the threshold is compared as it stands.
pub open spec fn level_reaches(level: int, threshold: int) -> bool {
    whole_feet(level) * 100 >= threshold
}

/// Whether `threshold` may be configured: above zero, and at most 100.00 ft.
pub open spec fn threshold_in_range(threshold: int) -> bool {
    0 < threshold <= MAX_FLOOD_THRESHOLD
}

/// Computes [`level_reaches`].
pub fn reaches_threshold(level: i64, threshold: i64) -> (r: bool)
    ensures
        r == level_reaches(level as int, threshold as int),
{
    let feet: i64 = if level < 0 {
        0
    } else {
        level / LEVEL_SCALE
    };
    feet * LEVEL_SCALE >= threshold
}

/// The character of one decimal digit.
pub open spec fn digit_char(d: int) -> char {
    if d == 0 {
        '0'
    } else if d == 1 {
        '1'
    } else if d == 2 {
        '2'
    } else if d == 3 {
        '3'
    } else if d == 4 {
        '4'
    } else if d == 5 {
        '5'
    } else if d == 6 {
        '6'
    } else if d == 7 {
        '7'
    } else if d == 8 {
        '8'
    } else {
        '9'
    }
}

/// The decimal digits of `n`, without leading zeros.
pub open spec fn decimal_text(n: nat) -> Seq<char>
    decreases n,
{
    if n < 10 {
        seq![digit_char(n as int)]
    } else {
        decimal_text(n / 10).push(digit_char((n % 10) as int))
    }
}

/// The distance of a level from zero.
pub open spec fn magnitude(level: int) -> nat {
    if level < 0 {
        (-level) as nat
    } else {
        level as nat
    }
}

/// A level as text: a minus sign if it is below zero, the whole feet, a
/// point, two decimals and the unit, as in `-3.45 ft`.
pub open spec fn level_text(level: int) -> Seq<char> {
    let m = magnitude(level);
    let sign = if level < 0 {
        seq!['-']
    } else {
        Seq::<char>::empty()
    };
    sign + decimal_text(m / 100) + seq![
        '.',
        digit_char(((m / 10) % 10) as int),
        digit_char((m % 10) as int),
        ' ',
        'f',
        't',
    ]
}

fn digit_str(d: u64) -> (r: &'static str)
    requires
        d < 10,
    ensures
        r@ == seq![digit_char(d as int)],
{
    proof {
        reveal_strlit("0");
        reveal_strlit("1");
        reveal_strlit("2");
        reveal_strlit("3");
        reveal_strlit("4");
        reveal_strlit("5");
        reveal_strlit("6");
        reveal_strlit("7");
        reveal_strlit("8");
        reveal_strlit("9");
    }
    let r = if d == 0 {
        "0"
    } else if d == 1 {
        "1"
    } else if d == 2 {
        "2"
    } else if d == 3 {
        "3"
    } else if d == 4 {
        "4"
    } else if d == 5 {
        "5"
    } else if d == 6 {
        "6"
    } else if d == 7 {
        "7"
    } else if d == 8 {
        "8"
    } else {
        "9"
    };
    r
}

/// Appends the decimal digits of `n` to `out`.
pub fn push_decimal(out: &mut String, n: u64)
    ensures
        final(out)@ == old(out)@ + decimal_text(n as nat),
    decreases n,
{
    if n >= 10 {
        push_decimal(out, n / 10);
    }
    out.append(digit_str(n % 10));
    assert(out@ =~= old(out)@ + decimal_text(n as nat));
}

/// The magnitude of a level, which fits where the level itself may not.
pub fn level_magnitude(level: i64) -> (m: u64)
    ensures
        m == magnitude(level as int),
{
    if level < 0 {
        let up: i64 = level + 1;
        let flipped: i64 = -up;
        flipped as u64 + 1
    } else {
        level as u64
    }
}

/// Writes a level for people to read: see [`level_text`].
pub fn format_flood_level(level: i64) -> (r: String)
    ensures
        r@ == level_text(level as int),
{
    let m = level_magnitude(level);
    let mut out = String::new();
    if level < 0 {
        proof {
            reveal_strlit("-");
        }
        out.append("-");
    }
    push_decimal(&mut out, m / 100);
    proof {
        reveal_strlit(".");
        reveal_strlit(" ft");
    }
    out.append(".");
    out.append(digit_str((m / 10) % 10));
    out.append(digit_str(m % 10));
    out.append(" ft");
    out
}

/// What the log says when the measured level has changed.
pub open spec fn level_note_text(old_level: int, new_level: int) -> Seq<char> {
    "Flood level updated: "@ + level_text(old_level) + " -> "@ + level_text(new_level)
}

/// What the log says when the threshold has changed.
pub open spec fn threshold_note_text(old_threshold: int, new_threshold: int) -> Seq<char> {
    "Flood threshold updated: "@ + level_text(old_threshold) + " -> "@ + level_text(
        new_threshold,
    )
}

/// The line for the log about a change of the measured level.
pub fn flood_level_note(old_level: i64, new_level: i64) -> (r: String)
    ensures
        r@ == level_note_text(old_level as int, new_level as int),
{
    let mut note = String::from_str("Flood level updated: ");
    note.append(format_flood_level(old_level).as_str());
    note.append(" -> ");
    note.append(format_flood_level(new_level).as_str());
    note
}

/// The line for the log about a change of the threshold.
pub fn flood_threshold_note(old_threshold: i64, new_threshold: i64) -> (r: String)
    ensures
        r@ == threshold_note_text(old_threshold as int, new_threshold as int),
{
    let mut note = String::from_str("Flood threshold updated: ");
    note.append(format_flood_level(old_threshold).as_str());
    note.append(" -> ");
    note.append(format_flood_level(new_threshold).as_str());
    note
}

/// Whether `c` is one of the ten decimal digits.
pub open spec fn is_digit(c: char) -> bool {
    '0' <= c && c <= '9'
}

/// The number that a decimal digit stands for.
pub open spec fn digit_of(c: char) -> nat {
    (c as u32 - 48) as nat
}

/// Whether every character is a decimal digit.
pub open spec fn all_digits(s: Seq<char>) -> bool {
    forall|i: int| 0 <= i < s.len() ==> is_digit(#[trigger] s[i])
}

/// The number written by a run of decimal digits; 0 for the empty run.
pub open spec fn digits_value(s: Seq<char>) -> nat
    decreases s.len(),
{
    if s.len() == 0 {
        0
    } else {
        digits_value(s.drop_last()) * 10 + digit_of(s.last())
    }
}

/// Whether the text starts with a sign.
pub open spec fn has_sign(s: Seq<char>) -> bool {
    s.len() > 0 && (s[0] == '-' || s[0] == '+')
}

/// The text without its sign.
pub open spec fn unsigned_part(s: Seq<char>) -> Seq<char> {
    if has_sign(s) {
        s.skip(1)
    } else {
        s
    }
}

/// Where the first decimal point stands, or the length if there is none.
pub open spec fn point_at(s: Seq<char>) -> int
    decreases s.len(),
{
    if s.len() == 0 {
        0
    } else if s[0] == '.' {
        0
    } else {
        1 + point_at(s.drop_first())
    }
}

/// What stands before the first decimal point.
pub open spec fn whole_part(body: Seq<char>) -> Seq<char> {
    body.take(point_at(body))
}

/// What stands after the first decimal point.
pub open spec fn fraction_part(body: Seq<char>) -> Seq<char> {
    if point_at(body) < body.len() {
        body.skip(point_at(body) + 1)
    } else {
        Seq::<char>::empty()
    }
}

/// The grammar of a level: an optional sign, digits, and optionally a
/// point and more digits, with at least one digit in all. Nothing else
/// is a level: no exponent (`1e2`), no `inf` or `NaN`, no blanks.
pub open spec fn is_level_text(s: Seq<char>) -> bool {
    let body = unsigned_part(s);
    &&& all_digits(whole_part(body))
    &&& all_digits(fraction_part(body))
    &&& whole_part(body).len() + fraction_part(body).len() >= 1
}

/// The first two decimals, as hundredths; later decimals are cut off.
pub open spec fn hundredths_of(fraction: Seq<char>) -> nat {
    (if fraction.len() > 0 {
        digit_of(fraction[0])
    } else {
        0
    }) * 10 + (if fraction.len() > 1 {
        digit_of(fraction[1])
    } else {
        0
    })
}

/// The level that a text writes, in hundredths, before the sign is applied.
pub open spec fn text_magnitude(s: Seq<char>) -> nat {
    let body = unsigned_part(s);
    digits_value(whole_part(body)) * 100 + hundredths_of(fraction_part(body))
}

/// The level that a text writes: `None` where the text is not in the
/// grammar of [`is_level_text`] or its magnitude is beyond `i64::MAX`.
pub open spec fn parsed_level(s: Seq<char>) -> Option<i64> {
    if !is_level_text(s) || text_magnitude(s) > i64::MAX {
        None
    } else if s[0] == '-' {
        Some((-(text_magnitude(s) as int)) as i64)
    } else {
        Some(text_magnitude(s) as i64)
    }
}

/// The characters of a text, one by one.
pub fn chars_of(text: &str) -> (r: Vec<char>)
    ensures
        r@ == text@,
{
    let mut out: Vec<char> = Vec::new();
    for c in it: text.chars()
        invariant
            it.seq() == text@,
            out@ == text@.take(it.index()),
    {
        out.push(c);
    }
    out
}

/// A run without a point before `k`, which ends or has a point at `k`, has
/// its first point at `k`.
pub proof fn lemma_point_at(s: Seq<char>, k: int)
    requires
        0 <= k <= s.len(),
        forall|j: int| 0 <= j < k ==> s[j] != '.',
        k == s.len() || s[k] == '.',
    ensures
        point_at(s) == k,
    decreases k,
{
    if k > 0 {
        let rest = s.drop_first();
        lemma_point_at(rest, k - 1);
    }
}

/// A run of digits is worth at least as much as any run it starts with.
pub proof fn lemma_digits_value_grows(s: Seq<char>, k: int)
    requires
        0 <= k <= s.len(),
    ensures
        digits_value(s.take(k)) <= digits_value(s),
    decreases s.len(),
{
    if k == s.len() {
        assert(s.take(k) =~= s);
    } else {
        assert(s.drop_last().take(k) =~= s.take(k));
        lemma_digits_value_grows(s.drop_last(), k);
    }
}

/// Reads a level from text such as `3.45`, `-12` or `+0.5`, in hundredths
/// of a foot. Decimals after the second are cut off, not rounded. Text
/// with an exponent, such as `1e2`, is refused, as are `inf` and `NaN`:
/// a level is written out in full.
pub fn parse_level(text: &str) -> (r: Option<i64>)
    ensures
        r == parsed_level(text@),
{
    let chars = chars_of(text);
    let n = chars.len();
    let mut start: usize = 0;
    let mut negative = false;
    if n > 0 && (chars[0] == '-' || chars[0] == '+') {
        start = 1;
        negative = chars[0] == '-';
    }
    let ghost body = unsigned_part(text@);
    // The digits before the point.
    let mut whole: u64 = 0;
    let mut i: usize = start;
    while i < n && chars[i] != '.'
        invariant
            start <= i <= n,
            n == chars@.len(),
            chars@ == text@,
            body == text@.skip(start as int),
            body == unsigned_part(text@),
            forall|j: int| start <= j < i ==> chars@[j] != '.' && is_digit(chars@[j]),
            whole == digits_value(body.take(i - start)),
            whole <= 92233720368547758,
        decreases n - i,
    {
        let c = chars[i];
        if !(c >= '0' && c <= '9') {
            proof {
                // The first point stands at or after `i`, so `c` is in the
                // part that must be all digits.
                let k = point_at(body);
                lemma_point_at_bounds(body);
                if k <= i - start {
                    assert(false);
                }
                assert(!is_digit(whole_part(body)[i - start]));
            }
            return None;
        }
        let d: u64 = (c as u32 - 48) as u64;
        proof {
            assert(body.take(i - start + 1).drop_last() =~= body.take(i - start));
        }
        if whole > 9223372036854775 {
            proof {
                // Too large already, whatever follows.
                let next = body.take(i - start + 1);
                if is_level_text(text@) {
                    let k = point_at(body);
                    lemma_point_at_bounds(body);
                    if k < i - start + 1 {
                        assert(false);
                    }
                    assert(whole_part(body).take(i - start + 1) =~= next);
                    lemma_digits_value_grows(whole_part(body), i - start + 1);
                }
            }
            return None;
        }
        whole = whole * 10 + d;
        i = i + 1;
        if whole > 92233720368547758 {
            proof {
                let next = body.take(i - start);
                if is_level_text(text@) {
                    let k = point_at(body);
                    lemma_point_at_bounds(body);
                    if k < i - start {
                        assert(false);
                    }
                    assert(whole_part(body).take(i - start) =~= next);
                    lemma_digits_value_grows(whole_part(body), i - start);
                }
            }
            return None;
        }
    }
    let whole_len: usize = i - start;
    proof {
        lemma_point_at(body, whole_len as int);
    }
    // The digits after the point.
    let mut hundredths: u64 = 0;
    let mut frac_len: usize = 0;
    if i < n {
        let frac_start: usize = i + 1;
        let ghost fraction = fraction_part(body);
        let mut j: usize = frac_start;
        while j < n
            invariant
                frac_start <= j <= n,
                n == chars@.len(),
                chars@ == text@,
                fraction == text@.skip(frac_start as int),
                fraction == fraction_part(unsigned_part(text@)),
                forall|k: int| 0 <= k < j - frac_start ==> is_digit(#[trigger] fraction[k]),
                hundredths == hundredths_of(fraction.take(j - frac_start)),
                hundredths <= 99,
            decreases n - j,
        {
            let c = chars[j];
            if !(c >= '0' && c <= '9') {
                proof {
                    assert(!is_digit(fraction[j - frac_start]));
                }
                return None;
            }
            let d: u64 = (c as u32 - 48) as u64;
            if j == frac_start {
                hundredths = d * 10;
            } else if j == frac_start + 1 {
                hundredths = hundredths + d;
            }
            j = j + 1;
        }
        frac_len = n - frac_start;
    }
    if whole_len + frac_len == 0 {
        return None;
    }
    let magnitude: u64 = whole * 100 + hundredths;
    if magnitude > 9223372036854775807 {
        return None;
    }
    if negative {
        Some(-(magnitude as i64))
    } else {
        Some(magnitude as i64)
    }
}

/// The first point stands within the text, or at its end; before it there
/// is no point, and where it stands short of the end there is one.
pub proof fn lemma_point_at_bounds(s: Seq<char>)
    ensures
        0 <= point_at(s) <= s.len(),
        forall|j: int| 0 <= j < point_at(s) ==> s[j] != '.',
        point_at(s) < s.len() ==> s[point_at(s)] == '.',
    decreases s.len(),
{
    if s.len() > 0 && s[0] != '.' {
        let rest = s.drop_first();
        lemma_point_at_bounds(rest);
        assert forall|j: int| 0 <= j < point_at(s) implies s[j] != '.' by {
            if j > 0 {
                assert(s[j] == rest[j - 1]);
            }
        }
    }
}

} // verus!
