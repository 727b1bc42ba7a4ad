//! Decimal numbers, column padding and durations: the text the command
//! line prints and the millisecond stamps it sends and reads back.
use vstd::prelude::*;
use vstd::string::*;

verus! {

// ---------------------------------------------------------------------------
// Decimal text of integers
// ---------------------------------------------------------------------------

/// The character of a decimal digit.
pub open spec fn digit_char(d: int) -> char {
    (48 + d) as char
}

/// Decimal digits of a natural number, most significant first, without
/// leading zeros ("0" for zero).
pub open spec fn natural_text(n: nat) -> Seq<char>
    decreases n,
{
    if n < 10 {
        seq![digit_char(n as int)]
    } else {
        natural_text(n / 10) + seq![digit_char((n % 10) as int)]
    }
}

/// Decimal text of an integer as `to_string` writes it: a minus sign for
/// negative numbers, then the digits of the magnitude.
pub open spec fn decimal_text(n: int) -> Seq<char> {
    if n < 0 {
        seq!['-'] + natural_text((-n) as nat)
    } else {
        natural_text(n as nat)
    }
}

fn digit_str(d: u64) -> (res: &'static str)
    requires
        d < 10,
    ensures
        res@ == seq![digit_char(d as int)],
{
    proof {
        reveal_strlit("0");
        reveal_strlit("1");
        reveal_strlit("2");
        reveal_strlit("3");
        reveal_strlit("4");
        reveal_strlit("5");
        reveal_strlit("6");
        reveal_strlit("7");
        reveal_strlit("8");
        reveal_strlit("9");
    }
    if d == 0 {
        "0"
    } else if d == 1 {
        "1"
    } else if d == 2 {
        "2"
    } else if d == 3 {
        "3"
    } else if d == 4 {
        "4"
    } else if d == 5 {
        "5"
    } else if d == 6 {
        "6"
    } else if d == 7 {
        "7"
    } else if d == 8 {
        "8"
    } else {
        "9"
    }
}

fn push_natural(out: &mut String, n: u64)
    ensures
        final(out)@ == old(out)@ + natural_text(n as nat),
    decreases n,
{
    if n >= 10 {
        push_natural(out, n / 10);
    }
    out.append(digit_str(n % 10));
    proof {
        if n >= 10 {
            assert(final(out)@ =~= old(out)@ + natural_text(n as nat));
        } else {
            assert(final(out)@ =~= old(out)@ + natural_text(n as nat));
        }
    }
}

/// Appends the decimal text of `n` to `out`.
pub fn push_decimal(out: &mut String, n: i64)
    ensures
        final(out)@ == old(out)@ + decimal_text(n as int),
{
    if n < 0 {
        proof {
            reveal_strlit("-");
        }
        out.append("-");
        // magnitude of n without overflowing at i64::MIN
        let magnitude: u64 = ((-(n + 1)) as u64) + 1;
        push_natural(out, magnitude);
        assert(final(out)@ =~= old(out)@ + decimal_text(n as int));
    } else {
        push_natural(out, n as u64);
    }
}

/// The decimal text of `n`, as `n.to_string()` gives it.
pub fn decimal_string(n: i64) -> (res: String)
    ensures
        res@ == decimal_text(n as int),
{
    let mut out = String::new();
    push_decimal(&mut out, n);
    assert(out@ =~= decimal_text(n as int));
    out
}

// ---------------------------------------------------------------------------
// Reading decimal text back
// ---------------------------------------------------------------------------

/// An ASCII decimal digit.
pub open spec fn is_digit(c: char) -> bool {
    '0' <= c && c <= '9'
}

/// The value of an ASCII decimal digit.
pub open spec fn digit_value(c: char) -> int {
    c as int - 48
}

/// Every character of `s` is an ASCII decimal digit.
pub open spec fn all_digits(s: Seq<char>) -> bool {
    forall|i: int| 0 <= i < s.len() ==> is_digit(#[trigger] s[i])
}

/// The number that a string of decimal digits denotes.
pub open spec fn digits_value(s: Seq<char>) -> int
    decreases s.len(),
{
    if s.len() == 0 {
        0
    } else {
        digits_value(s.drop_last()) * 10 + digit_value(s.last())
    }
}

/// The integer that `s` spells in the syntax of `str::parse::<i64>`: an
/// optional `+` or `-` and at least one ASCII digit, nothing else.
pub open spec fn decimal_value(s: Seq<char>) -> Option<int> {
    if s.len() >= 2 && s[0] == '-' && all_digits(s.drop_first()) {
        Some(-digits_value(s.drop_first()))
    } else if s.len() >= 2 && s[0] == '+' && all_digits(s.drop_first()) {
        Some(digits_value(s.drop_first()))
    } else if s.len() >= 1 && all_digits(s) {
        Some(digits_value(s))
    } else {
        None
    }
}

/// What `str::parse::<i64>` gives: the value when `s` spells an integer
/// that fits in an `i64`, `None` otherwise.
pub open spec fn parsed_i64(s: Seq<char>) -> Option<i64> {
    match decimal_value(s) {
        Some(v) => if i64::MIN <= v <= i64::MAX {
            Some(v as i64)
        } else {
            None
        },
        None => None,
    }
}

proof fn lemma_digits_value_nonneg(s: Seq<char>)
    requires
        all_digits(s),
    ensures
        digits_value(s) >= 0,
    decreases s.len(),
{
    if s.len() > 0 {
        assert(is_digit(s[s.len() - 1]));
        lemma_digits_value_nonneg(s.drop_last());
    }
}

/// A longer run of digits never denotes a smaller number than its prefix.
proof fn lemma_digits_value_prefix(s: Seq<char>, k: int)
    requires
        all_digits(s),
        0 <= k <= s.len(),
    ensures
        digits_value(s.subrange(0, k)) <= digits_value(s),
    decreases s.len() - k,
{
    if k < s.len() {
        lemma_digits_value_prefix(s, k + 1);
        let p = s.subrange(0, k + 1);
        assert(p.drop_last() =~= s.subrange(0, k));
        assert(is_digit(s[k]));
        lemma_digits_value_nonneg(s.subrange(0, k));
    } else {
        assert(s.subrange(0, k) =~= s);
    }
}

/// Parses a decimal integer exactly as `str::parse::<i64>` does.
pub fn parse_i64(s: &str) -> (res: Option<i64>)
    ensures
        res == parsed_i64(s@),
{
    let len = s.unicode_len();
    if len == 0 {
        return None;
    }
    let first = s.get_char(0);
    let negative = first == '-';
    let start: usize = if first == '-' || first == '+' {
        1
    } else {
        0
    };
    if start == len {
        return None;
    }
    let ghost digits = s@.subrange(start as int, len as int);
    assert(start == 1 ==> digits =~= s@.drop_first());
    assert(start == 0 ==> digits =~= s@);
    let mut acc: i64 = 0;
    let mut i: usize = start;
    while i < len
        invariant
            len == s@.len(),
            start <= i <= len,
            start == 0 || start == 1,
            start == 1 <==> (s@[0] == '-' || s@[0] == '+'),
            negative <==> s@[0] == '-',
            digits == s@.subrange(start as int, len as int),
            all_digits(s@.subrange(start as int, i as int)),
            negative ==> acc == -digits_value(s@.subrange(start as int, i as int)),
            !negative ==> acc == digits_value(s@.subrange(start as int, i as int)),
        decreases len - i,
    {
        let c = s.get_char(i);
        if !('0' <= c && c <= '9') {
            proof {
                assert(digits[i - start] == c);
                assert(!all_digits(digits));
                assert(!all_digits(s@));
            }
            return None;
        }
        let d = (c as u32 - 48) as i64;
        let ghost prefix = s@.subrange(start as int, i as int);
        let ghost next = s@.subrange(start as int, i + 1);
        assert(next.drop_last() =~= prefix);
        assert(next.last() == c);
        assert(all_digits(next));
        let scaled = acc.checked_mul(10);
        let stepped = match scaled {
            Some(m) => if negative {
                m.checked_sub(d)
            } else {
                m.checked_add(d)
            },
            None => None,
        };
        match stepped {
            Some(v) => {
                acc = v;
            },
            None => {
                proof {
                    lemma_digits_value_nonneg(prefix);
                    assert(d == digit_value(c));
                    assert(digits_value(next) == digits_value(prefix) * 10 + d);
                    assert(negative ==> -digits_value(next) < i64::MIN);
                    assert(!negative ==> digits_value(next) > i64::MAX);
                    if start == 1 {
                        assert(digits =~= s@.drop_first());
                    } else {
                        assert(digits =~= s@);
                    }
                    // the rest is either not all digits, or denotes a number at
                    // least as large as the digits read so far
                    if all_digits(digits) {
                        lemma_digits_value_prefix(digits, (i + 1 - start) as int);
                        assert(digits.subrange(0, (i + 1 - start) as int) =~= next);
                    }
                }
                return None;
            },
        }
        i = i + 1;
    }
    proof {
        assert(s@.subrange(start as int, i as int) =~= digits);
    }
    Some(acc)
}

proof fn lemma_natural_text_digits(n: nat)
    ensures
        natural_text(n).len() >= 1,
        all_digits(natural_text(n)),
        digits_value(natural_text(n)) == n,
    decreases n,
{
    assert(forall|k: int| 0 <= k < 10 ==> digit_value(#[trigger] digit_char(k)) == k);
    if n < 10 {
        let t = natural_text(n);
        assert(t.drop_last() =~= Seq::<char>::empty());
        assert(t.last() == digit_char(n as int));
        assert(digit_value(digit_char(n as int)) == n);
        assert(digits_value(Seq::<char>::empty()) == 0);
        assert(digits_value(t) == digits_value(t.drop_last()) * 10 + digit_value(t.last()));
    } else {
        lemma_natural_text_digits(n / 10);
        let t = natural_text(n);
        assert(t.drop_last() =~= natural_text(n / 10));
        assert(t.last() == digit_char((n % 10) as int));
        assert(digit_value(digit_char((n % 10) as int)) == n % 10);
        assert(digits_value(t) == digits_value(t.drop_last()) * 10 + digit_value(t.last()));
        assert(digits_value(t) == (n / 10) * 10 + n % 10);
        assert forall|i: int| 0 <= i < t.len() implies is_digit(#[trigger] t[i]) by {
            if i < t.len() - 1 {
                assert(t[i] == natural_text(n / 10)[i]);
            }
        }
    }
}

/// Reading back the decimal text of a number gives the number: a
/// millisecond stamp that the command line writes with `to_string` is the
/// one that it later reads with `parse::<i64>`.
pub proof fn lemma_parse_decimal_text(n: i64)
    ensures
        parsed_i64(decimal_text(n as int)) == Some(n),
{
    if n < 0 {
        let m = (-n) as nat;
        lemma_natural_text_digits(m);
        let t = decimal_text(n as int);
        assert(t.drop_first() =~= natural_text(m));
        assert(t[0] == '-');
    } else {
        lemma_natural_text_digits(n as nat);
        let t = natural_text(n as nat);
        assert(is_digit(t[0]));
    }
}

// ---------------------------------------------------------------------------
// Columns
// ---------------------------------------------------------------------------

/// `n` spaces.
pub open spec fn spaces(n: int) -> Seq<char>
    decreases n,
{
    if n <= 0 {
        Seq::empty()
    } else {
        spaces(n - 1) + seq![' ']
    }
}

/// `s` left-aligned in a column `width` characters wide, as `{:<width}`
/// writes it: padded with spaces on the right, never cut.
pub open spec fn padded(s: Seq<char>, width: int) -> Seq<char> {
    s + spaces(width - s.len())
}

/// Writes `s` left-aligned in a column of `width` characters (`{:<width}`).
pub fn pad_right(out: &mut String, s: &str, width: usize)
    ensures
        final(out)@ == old(out)@ + padded(s@, width as int),
{
    out.append(s);
    let n = s.unicode_len();
    let mut k = n;
    while k < width
        invariant
            n == s@.len(),
            n <= k,
            k <= width || k == n,
            out@ == old(out)@ + s@ + spaces(k - n),
        decreases width - k,
    {
        proof {
            reveal_strlit(" ");
        }
        out.append(" ");
        proof {
            assert(spaces(k + 1 - n) =~= spaces(k - n) + seq![' ']);
        }
        k = k + 1;
    }
    proof {
        if n >= width {
            assert(spaces(width - n) =~= Seq::<char>::empty());
            assert(spaces(k - n) =~= Seq::<char>::empty());
            assert(out@ =~= old(out)@ + padded(s@, width as int));
        } else {
            assert(out@ =~= old(out)@ + padded(s@, width as int));
        }
    }
}

/// A column with padding never loses text and is at least `width` wide.
pub proof fn lemma_padded_shape(s: Seq<char>, width: int)
    ensures
        padded(s, width).subrange(0, s.len() as int) == s,
        padded(s, width).len() == if s.len() < width {
            width
        } else {
            s.len() as int
        },
        forall|i: int|
            s.len() <= i < padded(s, width).len() ==> #[trigger] padded(s, width)[i] == ' ',
{
    lemma_spaces(width - s.len());
    assert(padded(s, width).subrange(0, s.len() as int) =~= s);
}

proof fn lemma_spaces(n: int)
    ensures
        spaces(n).len() == if n < 0 {
            0
        } else {
            n
        },
        forall|i: int| 0 <= i < spaces(n).len() ==> #[trigger] spaces(n)[i] == ' ',
    decreases n,
{
    if n > 0 {
        lemma_spaces(n - 1);
        assert forall|i: int| 0 <= i < spaces(n).len() implies #[trigger] spaces(n)[i] == ' ' by {
            if i < n - 1 {
                assert(spaces(n)[i] == spaces(n - 1)[i]);
            }
        }
    }
}

// ---------------------------------------------------------------------------
// Durations
// ---------------------------------------------------------------------------

/// Integer division rounding toward zero, as Rust's `/` does.
pub open spec fn div_toward_zero(a: int, b: int) -> int {
    if a >= 0 {
        a / b
    } else {
        -((-a) / b)
    }
}

/// Whole hours of a span of whole seconds (`TimeDelta::num_hours`).
pub open spec fn span_hours(total: int) -> int {
    div_toward_zero(total, 3600)
}

/// Minutes left over after the whole hours.
pub open spec fn span_minutes(total: int) -> int {
    div_toward_zero(total, 60) - span_hours(total) * 60
}

/// Seconds left over after the whole minutes.
pub open spec fn span_seconds(total: int) -> int {
    total - div_toward_zero(total, 60) * 60
}

/// The text `"{h}h {m}m {s}s"` that the activity tables show for a span.
pub open spec fn duration_text(total: int) -> Seq<char> {
    decimal_text(span_hours(total)) + seq!['h', ' '] + decimal_text(span_minutes(total)) + seq![
        'm',
        ' ',
    ] + decimal_text(span_seconds(total)) + seq!['s']
}

/// Writes how long a span of `total` whole seconds is, in hours, minutes
/// and seconds.
pub fn duration_string(total: i64) -> (res: String)
    ensures
        res@ == duration_text(total as int),
{
    let hours = total / 3600;
    let minutes = total / 60 - hours * 60;
    let seconds = total - (total / 60) * 60;
    let mut out = String::new();
    push_decimal(&mut out, hours);
    proof {
        reveal_strlit("h ");
        reveal_strlit("m ");
        reveal_strlit("s");
    }
    out.append("h ");
    push_decimal(&mut out, minutes);
    out.append("m ");
    push_decimal(&mut out, seconds);
    out.append("s");
    assert(out@ =~= duration_text(total as int));
    out
}

/// The hours, minutes and seconds of a span add back up to the span; the
/// minutes and seconds stay under sixty and share the span's sign.
pub proof fn lemma_duration_parts(total: int)
    ensures
        span_hours(total) * 3600 + span_minutes(total) * 60 + span_seconds(total) == total,
        -60 < span_minutes(total) < 60,
        -60 < span_seconds(total) < 60,
        total >= 0 ==> span_hours(total) >= 0 && span_minutes(total) >= 0 && span_seconds(
            total,
        ) >= 0,
        total <= 0 ==> span_hours(total) <= 0 && span_minutes(total) <= 0 && span_seconds(
            total,
        ) <= 0,
{
    let a = if total >= 0 {
        total
    } else {
        -total
    };
    assert(a / 3600 == (a / 60) / 60) by {
        vstd::arithmetic::div_mod::lemma_div_denominator(a, 60, 60);
    }
    vstd::arithmetic::div_mod::lemma_fundamental_div_mod(a, 60);
    vstd::arithmetic::div_mod::lemma_fundamental_div_mod(a / 60, 60);
}

/// Parts written one after the other.
pub open spec fn concat(parts: Seq<Seq<char>>) -> Seq<char>
    decreases parts.len(),
{
    if parts.len() == 0 {
        Seq::empty()
    } else {
        concat(parts.drop_last()) + parts.last()
    }
}

// ---------------------------------------------------------------------------
// Lists
// ---------------------------------------------------------------------------

/// Items joined by a separator, as `join` on a slice of strings writes them.
pub open spec fn joined(items: Seq<Seq<char>>, sep: Seq<char>) -> Seq<char>
    decreases items.len(),
{
    if items.len() == 0 {
        Seq::empty()
    } else if items.len() == 1 {
        items[0]
    } else {
        joined(items.drop_last(), sep) + sep + items.last()
    }
}

/// Joins `items` with `sep` between each two of them.
pub fn join_strings(items: &Vec<String>, sep: &str) -> (res: String)
    ensures
        res@ == joined(items.deep_view(), sep@),
{
    let mut out = String::new();
    let ghost all = items.deep_view();
    let mut i: usize = 0;
    while i < items.len()
        invariant
            i <= items.len(),
            all == items.deep_view(),
            out@ == joined(all.take(i as int), sep@),
        decreases items.len() - i,
    {
        proof {
            assert(all.take(i + 1).drop_last() =~= all.take(i as int));
            assert(all.take(i + 1).last() == items[i as int]@);
        }
        if i > 0 {
            out.append(sep);
        }
        out.append(items[i].as_str());
        proof {
            if i == 0 {
                assert(all.take(1) =~= seq![items[0]@]);
                assert(out@ =~= joined(all.take(1), sep@));
            }
        }
        i = i + 1;
    }
    assert(all.take(items.len() as int) =~= all);
    out
}

} // verus!
