use vstd::prelude::*;

verus! {

// ---------------------------------------------------------------------------
// Character-level model of decimal and hexadecimal rendering.
// ---------------------------------------------------------------------------

/// The lowercase ASCII digit for `d` in base sixteen (`0`-`9`, then `a`-`f`).
pub open spec fn digit_char(d: nat) -> char {
    if d < 10 {
        (('0' as nat) + d) as char
    } else {
        (('a' as nat) + (d - 10)) as char
    }
}

/// Decimal digits of `n`, most significant first, without leading zeros
/// (`0` renders as the single digit `0`).
pub open spec fn decimal_digits(n: nat) -> Seq<char>
    decreases n,
{
    if n < 10 {
        seq![digit_char(n)]
    } else {
        decimal_digits(n / 10) + seq![digit_char(n % 10)]
    }
}

/// `s` left-padded with `'0'` up to `width` characters (unchanged when it is
/// already at least that wide), as the `{:0width}` format does.
pub open spec fn zero_padded(s: Seq<char>, width: nat) -> Seq<char> {
    if s.len() >= width {
        s
    } else {
        Seq::new((width - s.len()) as nat, |i: int| '0') + s
    }
}

/// Two lowercase hexadecimal digits of a byte, as `{:02x}` renders it.
pub open spec fn hex_byte(b: u8) -> Seq<char> {
    seq![digit_char((b / 16) as nat), digit_char((b % 16) as nat)]
}

/// The bytes of `s` rendered as two-digit hex, separated by single spaces.
pub open spec fn hex_joined(s: Seq<u8>) -> Seq<char>
    decreases s.len(),
{
    if s.len() == 0 {
        Seq::empty()
    } else if s.len() == 1 {
        hex_byte(s[0])
    } else {
        hex_joined(s.drop_last()) + seq![' '] + hex_byte(s.last())
    }
}

/// `true` or `false`, as `{:?}` renders a `bool`.
pub open spec fn bool_text(b: bool) -> Seq<char> {
    if b {
        "true"@
    } else {
        "false"@
    }
}

/// A `label` followed by the rendering of `b`.
pub open spec fn field_text(label: Seq<char>, b: bool) -> Seq<char> {
    label + bool_text(b)
}

/// Hours of a millisecond duration.
pub open spec fn play_hours(ms: nat) -> nat {
    ms / 3_600_000
}

/// Minutes within the hour of a millisecond duration.
pub open spec fn play_minutes(ms: nat) -> nat {
    (ms % 3_600_000) / 60_000
}

/// Seconds within the minute of a millisecond duration.
pub open spec fn play_seconds(ms: nat) -> nat {
    (ms % 60_000) / 1000
}

/// Milliseconds within the second of a millisecond duration.
pub open spec fn play_millis(ms: nat) -> nat {
    ms % 1000
}

/// `H:MM:SS.mmm (N ms)`: hours unpadded, minutes and seconds as two digits,
/// milliseconds as three digits, then the raw millisecond count.
pub open spec fn play_time_text(ms: nat) -> Seq<char> {
    decimal_digits(play_hours(ms)) + seq![':'] + zero_padded(decimal_digits(play_minutes(ms)), 2)
        + seq![':'] + zero_padded(decimal_digits(play_seconds(ms)), 2) + seq!['.']
        + zero_padded(decimal_digits(play_millis(ms)), 3) + seq![' ', '('] + decimal_digits(ms)
        + seq![' ', 'm', 's', ')']
}

/// Preview text of a byte buffer: at most `max` leading bytes as hex, then
/// the total length, with an ellipsis when bytes were left out.
pub open spec fn byte_preview_text(bytes: Seq<u8>, max: nat) -> Seq<char> {
    let shown = if bytes.len() > max {
        bytes.take(max as int)
    } else {
        bytes
    };
    hex_joined(shown) + (if bytes.len() > max {
        seq![' ', '\u{2026}', ' ', '(']
    } else {
        seq![' ', '(']
    }) + decimal_digits(bytes.len()) + seq![' ', 'b', 'y', 't', 'e', 's', ')']
}

// ---------------------------------------------------------------------------
// Lemmas.
// ---------------------------------------------------------------------------

/// The fields a play time is shown with recombine into the total it is
/// shown with: minutes and seconds stay below sixty and milliseconds below a
/// thousand.
pub proof fn lemma_play_time_fields(ms: nat)
    ensures
        ms == play_hours(ms) * 3_600_000 + play_minutes(ms) * 60_000 + play_seconds(ms) * 1000
            + play_millis(ms),
        play_minutes(ms) < 60,
        play_seconds(ms) < 60,
        play_millis(ms) < 1000,
{
    let h = ms / 3_600_000;
    let r = ms % 3_600_000;
    assert(ms == h * 3_600_000 + r && 0 <= r < 3_600_000) by (nonlinear_arith)
        requires
            h == ms / 3_600_000,
            r == ms % 3_600_000,
    ;
    let m = r / 60_000;
    let r2 = r % 60_000;
    assert(r == m * 60_000 + r2 && 0 <= r2 < 60_000 && m < 60) by (nonlinear_arith)
        requires
            0 <= r < 3_600_000,
            m == r / 60_000,
            r2 == r % 60_000,
    ;
    assert(ms % 60_000 == r2) by (nonlinear_arith)
        requires
            ms == h * 3_600_000 + r,
            r == m * 60_000 + r2,
            0 <= r2 < 60_000,
            h >= 0,
            m >= 0,
    ;
    let sec = r2 / 1000;
    let milli = r2 % 1000;
    assert(r2 == sec * 1000 + milli && sec < 60 && milli < 1000) by (nonlinear_arith)
        requires
            0 <= r2 < 60_000,
            sec == r2 / 1000,
            milli == r2 % 1000,
    ;
    assert(ms % 1000 == milli) by (nonlinear_arith)
        requires
            ms == h * 3_600_000 + m * 60_000 + sec * 1000 + milli,
            0 <= milli < 1000,
            h >= 0,
            m >= 0,
            sec >= 0,
    ;
}

proof fn lemma_hex_joined_step(s: Seq<u8>, i: int)
    requires
        0 <= i < s.len(),
    ensures
        hex_joined(s.take(i + 1)) == hex_joined(s.take(i)) + (if i == 0 {
            Seq::<char>::empty()
        } else {
            seq![' ']
        }) + hex_byte(s[i]),
{
    let t = s.take(i + 1);
    assert(t.drop_last() =~= s.take(i));
    assert(t.last() == s[i]);
    if i == 0 {
        assert(hex_joined(s.take(0)) =~= Seq::<char>::empty());
        assert(Seq::<char>::empty() + Seq::<char>::empty() + hex_byte(s[0]) =~= hex_byte(s[0]));
    }
}

// ---------------------------------------------------------------------------
// Executable rendering.
// ---------------------------------------------------------------------------

fn digit_str(d: u64) -> (r: &'static str)
    requires
        d < 16,
    ensures
        r@ == seq![digit_char(d as nat)],
{
    proof {
        reveal_strlit("0");
        reveal_strlit("1");
        reveal_strlit("2");
        reveal_strlit("3");
        reveal_strlit("4");
        reveal_strlit("5");
        reveal_strlit("6");
        reveal_strlit("7");
        reveal_strlit("8");
        reveal_strlit("9");
        reveal_strlit("a");
        reveal_strlit("b");
        reveal_strlit("c");
        reveal_strlit("d");
        reveal_strlit("e");
        reveal_strlit("f");
    }
    match d {
        0 => "0",
        1 => "1",
        2 => "2",
        3 => "3",
        4 => "4",
        5 => "5",
        6 => "6",
        7 => "7",
        8 => "8",
        9 => "9",
        10 => "a",
        11 => "b",
        12 => "c",
        13 => "d",
        14 => "e",
        _ => "f",
    }
}

/// Appends `lit`.
pub(crate) fn append_literal(out: &mut String, lit: &str)
    ensures
        final(out)@ == old(out)@ + lit@,
{
    out.append(lit);
}

/// Appends `true` or `false`.
pub(crate) fn append_bool(out: &mut String, b: bool)
    ensures
        final(out)@ == old(out)@ + bool_text(b),
{
    if b {
        append_literal(out, "true");
    } else {
        append_literal(out, "false");
    }
}

/// Appends `label` and then `true` or `false`.
pub(crate) fn append_field(out: &mut String, label: &str, b: bool)
    ensures
        final(out)@ == old(out)@ + field_text(label@, b),
{
    append_literal(out, label);
    append_bool(out, b);
    proof {
        assert(out@ =~= old(out)@ + field_text(label@, b));
    }
}

/// Appends the decimal digits of `n`.
pub(crate) fn append_decimal(out: &mut String, n: u64)
    ensures
        final(out)@ == old(out)@ + decimal_digits(n as nat),
    decreases n,
{
    if n >= 10 {
        append_decimal(out, n / 10);
        let s = digit_str(n % 10);
        append_literal(out, s);
        proof {
            assert(decimal_digits(n as nat) == decimal_digits((n / 10) as nat) + seq![
                digit_char((n % 10) as nat),
            ]);
        }
    } else {
        let s = digit_str(n);
        append_literal(out, s);
    }
}

/// Number of decimal digits of `n`.
fn decimal_len(n: u64) -> (r: usize)
    ensures
        r as nat == decimal_digits(n as nat).len(),
        1 <= r <= 20,
    decreases n,
{
    if n >= 10 {
        let k = decimal_len(n / 10);
        proof {
            assert(decimal_digits(n as nat).len() == decimal_digits((n / 10) as nat).len() + 1);
            lemma_decimal_len_bound(n);
        }
        k + 1
    } else {
        1
    }
}

proof fn lemma_decimal_len_bound(n: u64)
    ensures
        decimal_digits(n as nat).len() <= 20,
{
    reveal_with_fuel(pow10, 21);
    assert(pow10(20) == 100_000_000_000_000_000_000nat);
    lemma_decimal_len_le(n as nat, 20);
}

proof fn lemma_decimal_len_le(n: nat, k: nat)
    requires
        k >= 1,
        n < pow10(k),
    ensures
        decimal_digits(n).len() <= k,
    decreases k,
{
    if n >= 10 {
        assert(n / 10 < pow10((k - 1) as nat)) by {
            assert(pow10(k) == 10 * pow10((k - 1) as nat));
        }
        if k == 1 {
            assert(pow10(1) == 10) by {
                assert(pow10(0) == 1);
            }
        } else {
            lemma_decimal_len_le(n / 10, (k - 1) as nat);
        }
    }
}

spec fn pow10(k: nat) -> nat
    decreases k,
{
    if k == 0 {
        1
    } else {
        10 * pow10((k - 1) as nat)
    }
}

/// Appends the decimal digits of `n` left-padded with zeros to `width`.
fn append_decimal_padded(out: &mut String, n: u64, width: usize)
    ensures
        final(out)@ == old(out)@ + zero_padded(decimal_digits(n as nat), width as nat),
{
    let len = decimal_len(n);
    let ghost start = out@;
    if len < width {
        let pad = width - len;
        let mut i: usize = 0;
        while i < pad
            invariant
                i <= pad,
                out@ == start + Seq::new(i as nat, |j: int| '0'),
            decreases pad - i,
        {
            let z = digit_str(0);
            append_literal(out, z);
            i = i + 1;
            proof {
                assert(out@ =~= start + Seq::new(i as nat, |j: int| '0'));
            }
        }
        append_decimal(out, n);
        proof {
            assert(out@ =~= start + zero_padded(decimal_digits(n as nat), width as nat));
        }
    } else {
        append_decimal(out, n);
    }
}

/// Renders a play time given in milliseconds as `H:MM:SS.mmm (N ms)`.
pub fn format_play_time(milliseconds: u32) -> (r: String)
    ensures
        r@ == play_time_text(milliseconds as nat),
{
    let hours = milliseconds / 3_600_000;
    let minutes = (milliseconds % 3_600_000) / 60_000;
    let seconds = (milliseconds % 60_000) / 1000;
    let millis = milliseconds % 1000;
    let mut out = String::new();
    proof {
        reveal_strlit(":");
        reveal_strlit(".");
        reveal_strlit(" (");
        reveal_strlit(" ms)");
    }
    append_decimal(&mut out, hours as u64);
    append_literal(&mut out, ":");
    append_decimal_padded(&mut out, minutes as u64, 2);
    append_literal(&mut out, ":");
    append_decimal_padded(&mut out, seconds as u64, 2);
    append_literal(&mut out, ".");
    append_decimal_padded(&mut out, millis as u64, 3);
    append_literal(&mut out, " (");
    append_decimal(&mut out, milliseconds as u64);
    append_literal(&mut out, " ms)");
    proof {
        assert(out@ =~= play_time_text(milliseconds as nat));
    }
    out
}

/// Renders up to `max` leading bytes as space-separated two-digit hex,
/// followed by the total byte count; an ellipsis marks a cut-off preview.
pub fn byte_preview(bytes: &[u8], max: usize) -> (r: String)
    ensures
        r@ == byte_preview_text(bytes@, max as nat),
{
    let len = bytes.len();
    let n = if len > max {
        max
    } else {
        len
    };
    let ghost shown = if len > max {
        bytes@.take(max as int)
    } else {
        bytes@
    };
    let mut out = String::new();
    proof {
        reveal_strlit(" ");
        reveal_strlit(" \u{2026} (");
        reveal_strlit(" (");
        reveal_strlit(" bytes)");
        assert(shown =~= bytes@.take(n as int));
        assert(hex_joined(bytes@.take(0)) =~= Seq::<char>::empty());
    }
    let mut i: usize = 0;
    while i < n
        invariant
            i <= n,
            n <= bytes@.len(),
            out@ == hex_joined(bytes@.take(i as int)),
        decreases n - i,
    {
        let ghost before = out@;
        proof {
            reveal_strlit(" ");
        }
        if i > 0 {
            append_literal(&mut out, " ");
        }
        let b = bytes[i];
        let hi = digit_str((b / 16) as u64);
        append_literal(&mut out, hi);
        let lo = digit_str((b % 16) as u64);
        append_literal(&mut out, lo);
        proof {
            lemma_hex_joined_step(bytes@, i as int);
            if i == 0 {
                assert(out@ =~= before + Seq::<char>::empty() + hex_byte(b));
            } else {
                assert(out@ =~= before + seq![' '] + hex_byte(b));
            }
        }
        i = i + 1;
    }
    proof {
        assert(bytes@.take(n as int) =~= shown);
    }
    if len > max {
        append_literal(&mut out, " \u{2026} (");
    } else {
        append_literal(&mut out, " (");
    }
    append_decimal(&mut out, len as u64);
    append_literal(&mut out, " bytes)");
    proof {
        assert(out@ =~= byte_preview_text(bytes@, max as nat));
    }
    out
}

// ---------------------------------------------------------------------------
// Reading rendered text back.
// ---------------------------------------------------------------------------

/// The number a lowercase hexadecimal (or decimal) digit stands for; `-1`
/// for any other character.
pub open spec fn digit_value(c: char) -> int {
    if ('0' as int) <= (c as int) <= ('9' as int) {
        (c as int) - ('0' as int)
    } else if ('a' as int) <= (c as int) <= ('f' as int) {
        (c as int) - ('a' as int) + 10
    } else {
        -1
    }
}

/// Every character of `s` is a decimal digit.
pub open spec fn is_decimal(s: Seq<char>) -> bool {
    forall|i: int| 0 <= i < s.len() ==> 0 <= #[trigger] digit_value(s[i]) < 10
}

/// The number a string of decimal digits spells, most significant first.
pub open spec fn decimal_value(s: Seq<char>) -> int
    decreases s.len(),
{
    if s.len() == 0 {
        0
    } else {
        decimal_value(s.drop_last()) * 10 + digit_value(s.last())
    }
}

/// Reading a rendered digit back gives the number it renders: `0`-`9` for
/// values below ten and `a`-`f` above, so distinct values render as
/// distinct digits.
pub proof fn lemma_digit_char_reads_back(d: nat)
    requires
        d < 16,
    ensures
        digit_value(digit_char(d)) == d,
        d < 10 ==> digit_char(d) as int == ('0' as int) + d,
        10 <= d ==> digit_char(d) as int == ('a' as int) + d - 10,
{
}

/// The decimal rendering of `n` is made of digits only, starts with a
/// non-zero digit unless `n` is zero, and reads back as `n`.
pub proof fn lemma_decimal_digits_read_back(n: nat)
    ensures
        is_decimal(decimal_digits(n)),
        decimal_value(decimal_digits(n)) == n,
        decimal_digits(n).len() >= 1,
        n > 0 ==> decimal_digits(n)[0] != '0',
    decreases n,
{
    if n < 10 {
        lemma_digit_char_reads_back(n);
        assert(decimal_digits(n).drop_last() =~= Seq::<char>::empty());
        assert(decimal_value(decimal_digits(n).drop_last()) == 0);
        assert(decimal_value(decimal_digits(n)) == decimal_value(decimal_digits(n).drop_last()) * 10
            + digit_value(decimal_digits(n).last()));
    } else {
        lemma_decimal_digits_read_back(n / 10);
        lemma_digit_char_reads_back(n % 10);
        let s = decimal_digits(n);
        assert(s.drop_last() =~= decimal_digits(n / 10));
        assert(s.last() == digit_char(n % 10));
        assert(decimal_value(s) == decimal_value(s.drop_last()) * 10 + digit_value(s.last()));
        assert(decimal_value(s) == (n / 10) * 10 + n % 10);
        assert forall|i: int| 0 <= i < s.len() implies 0 <= #[trigger] digit_value(s[i]) < 10 by {
            if i < s.len() - 1 {
                assert(s[i] == decimal_digits(n / 10)[i]);
            }
        }
    }
}

/// `k` zeros.
pub open spec fn zeros(k: nat) -> Seq<char> {
    Seq::new(k, |i: int| '0')
}

/// Zero padding: the result is `max(|s|, width)` characters long, ends with
/// `s`, and every character before `s` is `'0'`.
pub proof fn lemma_zero_padded_shape(s: Seq<char>, width: nat)
    ensures
        zero_padded(s, width).len() == (if s.len() >= width { s.len() } else { width }),
        zero_padded(s, width).subrange(zero_padded(s, width).len() - s.len(), zero_padded(s, width).len() as int) == s,
        forall|i: int| 0 <= i < zero_padded(s, width).len() - s.len() ==> #[trigger] zero_padded(s, width)[i] == '0',
{
    let t = zero_padded(s, width);
    assert(t.subrange(t.len() - s.len(), t.len() as int) =~= s);
}

proof fn lemma_decimal_value_append(a: Seq<char>, b: Seq<char>)
    ensures
        decimal_value(a + b) == decimal_value(a) * pow10(b.len()) + decimal_value(b),
    decreases b.len(),
{
    if b.len() == 0 {
        assert(a + b =~= a);
        assert(pow10(0) == 1);
        assert(decimal_value(b) == 0);
    } else {
        lemma_decimal_value_append(a, b.drop_last());
        assert((a + b).drop_last() =~= a + b.drop_last());
        assert((a + b).last() == b.last());
        assert(decimal_value(a + b) == decimal_value(a + b.drop_last()) * 10 + digit_value(b.last()));
        assert(decimal_value(b) == decimal_value(b.drop_last()) * 10 + digit_value(b.last()));
        let p = pow10((b.len() - 1) as nat);
        assert(pow10(b.len()) == 10 * p);
        assert((decimal_value(a) * p + decimal_value(b.drop_last())) * 10 + digit_value(b.last())
            == decimal_value(a) * (10 * p) + (decimal_value(b.drop_last()) * 10 + digit_value(b.last())))
            by (nonlinear_arith);
    }
}

proof fn lemma_zeros_value(k: nat)
    ensures
        decimal_value(zeros(k)) == 0,
        is_decimal(zeros(k)),
    decreases k,
{
    if k > 0 {
        assert(zeros(k).drop_last() =~= zeros((k - 1) as nat));
        lemma_zeros_value((k - 1) as nat);
    }
}

/// Zero padding a digit string keeps it a digit string of the same value.
pub proof fn lemma_zero_padded_value(s: Seq<char>, width: nat)
    requires
        is_decimal(s),
    ensures
        is_decimal(zero_padded(s, width)),
        decimal_value(zero_padded(s, width)) == decimal_value(s),
{
    if s.len() < width {
        let k = (width - s.len()) as nat;
        assert(zero_padded(s, width) =~= zeros(k) + s);
        lemma_zeros_value(k);
        lemma_decimal_value_append(zeros(k), s);
        let t = zero_padded(s, width);
        assert forall|i: int| 0 <= i < t.len() implies 0 <= #[trigger] digit_value(t[i]) < 10 by {
            if i >= k {
                assert(t[i] == s[i - k]);
            } else {
                assert(t[i] == '0');
            }
        }
    }
}

proof fn lemma_pow10_small()
    ensures
        pow10(2) == 100,
        pow10(3) == 1000,
{
    reveal_with_fuel(pow10, 4);
}

/// A digit string of `k` characters spells a number below `10^k`.
proof fn lemma_decimal_value_bound(s: Seq<char>)
    requires
        is_decimal(s),
    ensures
        0 <= decimal_value(s) < pow10(s.len()),
    decreases s.len(),
{
    if s.len() > 0 {
        let t = s.drop_last();
        assert(is_decimal(t)) by {
            assert forall|i: int| 0 <= i < t.len() implies 0 <= #[trigger] digit_value(t[i]) < 10 by {
                assert(t[i] == s[i]);
            }
        }
        lemma_decimal_value_bound(t);
        assert(0 <= digit_value(s[s.len() - 1]) < 10);
        let p = pow10(t.len());
        assert(pow10(s.len()) == 10 * p);
        assert(decimal_value(t) * 10 + digit_value(s.last()) < 10 * p) by (nonlinear_arith)
            requires
                decimal_value(t) < p,
                digit_value(s.last()) < 10,
        ;
        assert(decimal_value(t) * 10 + digit_value(s.last()) >= 0) by (nonlinear_arith)
            requires
                decimal_value(t) >= 0,
                digit_value(s.last()) >= 0,
        ;
    }
}

/// The layout of a rendered play time: hours, `:`, two-digit minutes, `:`,
/// two-digit seconds, `.`, three-digit milliseconds, ` (`, total, ` ms)`.
pub open spec fn play_time_layout(
    text: Seq<char>,
    hours: Seq<char>,
    minutes: Seq<char>,
    seconds: Seq<char>,
    millis: Seq<char>,
    total: Seq<char>,
) -> bool {
    &&& text == hours + seq![':'] + minutes + seq![':'] + seconds + seq!['.'] + millis + seq![
        ' ',
        '(',
    ] + total + seq![' ', 'm', 's', ')']
    &&& is_decimal(hours) && is_decimal(minutes) && is_decimal(seconds) && is_decimal(millis)
        && is_decimal(total)
    &&& minutes.len() == 2 && seconds.len() == 2 && millis.len() == 3
}

/// A rendered play time reads back as the duration: its fields are digit
/// strings of the widths shown, minutes and seconds stay below sixty, the
/// clock recombines into the millisecond count, the milliseconds field is
/// that count modulo a thousand, and the total in brackets is the count.
pub proof fn lemma_play_time_reads_back(ms: nat)
    ensures
        exists|h: Seq<char>, m: Seq<char>, s: Seq<char>, f: Seq<char>, t: Seq<char>|
            #[trigger] play_time_layout(play_time_text(ms), h, m, s, f, t)
            && decimal_value(h) * 3_600_000 + decimal_value(m) * 60_000 + decimal_value(s) * 1000
            + decimal_value(f) == ms && decimal_value(m) < 60 && decimal_value(s) < 60
            && decimal_value(f) == ms % 1000 && decimal_value(t) == ms,
{
    lemma_play_time_fields(ms);
    lemma_pow10_small();
    let h = decimal_digits(play_hours(ms));
    let dm = decimal_digits(play_minutes(ms));
    let ds = decimal_digits(play_seconds(ms));
    let df = decimal_digits(play_millis(ms));
    let t = decimal_digits(ms);
    lemma_decimal_digits_read_back(play_hours(ms));
    lemma_decimal_digits_read_back(play_minutes(ms));
    lemma_decimal_digits_read_back(play_seconds(ms));
    lemma_decimal_digits_read_back(play_millis(ms));
    lemma_decimal_digits_read_back(ms);
    lemma_decimal_len_le(play_minutes(ms), 2);
    lemma_decimal_len_le(play_seconds(ms), 2);
    lemma_decimal_len_le(play_millis(ms), 3);
    let m = zero_padded(dm, 2);
    let s = zero_padded(ds, 2);
    let f = zero_padded(df, 3);
    lemma_zero_padded_shape(dm, 2);
    lemma_zero_padded_shape(ds, 2);
    lemma_zero_padded_shape(df, 3);
    lemma_zero_padded_value(dm, 2);
    lemma_zero_padded_value(ds, 2);
    lemma_zero_padded_value(df, 3);
    assert(play_time_layout(play_time_text(ms), h, m, s, f, t));
}

/// Each byte of a hex listing reads back from its two digits, and the
/// listing puts a single space between consecutive bytes.
pub proof fn lemma_hex_joined_reads_back(bytes: Seq<u8>)
    ensures
        bytes.len() > 0 ==> hex_joined(bytes).len() == 3 * bytes.len() - 1,
        bytes.len() == 0 ==> hex_joined(bytes).len() == 0,
        forall|i: int|
            0 <= i < bytes.len() ==> digit_value(#[trigger] hex_joined(bytes)[3 * i]) * 16
                + digit_value(hex_joined(bytes)[3 * i + 1]) == bytes[i],
        forall|i: int| 0 <= i < bytes.len() - 1 ==> #[trigger] hex_joined(bytes)[3 * i + 2] == ' ',
    decreases bytes.len(),
{
    if bytes.len() > 0 {
        let b = bytes.last();
        lemma_digit_char_reads_back((b / 16) as nat);
        lemma_digit_char_reads_back((b % 16) as nat);
        assert(digit_value(hex_byte(b)[0]) * 16 + digit_value(hex_byte(b)[1]) == b);
        if bytes.len() > 1 {
            let rest = bytes.drop_last();
            lemma_hex_joined_reads_back(rest);
            let t = hex_joined(bytes);
            let r = hex_joined(rest);
            assert(t == r + seq![' '] + hex_byte(b));
            assert forall|i: int| 0 <= i < bytes.len() implies digit_value(#[trigger] t[3 * i]) * 16
                + digit_value(t[3 * i + 1]) == bytes[i] by {
                if i < bytes.len() - 1 {
                    assert(t[3 * i] == r[3 * i]);
                    assert(t[3 * i + 1] == r[3 * i + 1]);
                    assert(bytes[i] == rest[i]);
                } else {
                    assert(t[3 * i] == hex_byte(b)[0]);
                    assert(t[3 * i + 1] == hex_byte(b)[1]);
                }
            }
            assert forall|i: int| 0 <= i < bytes.len() - 1 implies #[trigger] t[3 * i + 2] == ' ' by {
                if i < bytes.len() - 2 {
                    assert(t[3 * i + 2] == r[3 * i + 2]);
                }
            }
        }
    }
}

/// The preview starts with one hex pair per shown byte, the shown bytes
/// being the first `min(|bytes|, max)`; each pair reads back as its byte.
pub proof fn lemma_byte_preview_reads_back(bytes: Seq<u8>, max: nat)
    ensures
        forall|i: int|
            0 <= i < bytes.len() && i < max ==> digit_value(
                #[trigger] byte_preview_text(bytes, max)[3 * i],
            ) * 16 + digit_value(byte_preview_text(bytes, max)[3 * i + 1]) == bytes[i],
{
    let shown = if bytes.len() > max {
        bytes.take(max as int)
    } else {
        bytes
    };
    lemma_hex_joined_reads_back(shown);
    let text = byte_preview_text(bytes, max);
    let hj = hex_joined(shown);
    assert forall|i: int| 0 <= i < bytes.len() && i < max implies digit_value(
        #[trigger] text[3 * i],
    ) * 16 + digit_value(text[3 * i + 1]) == bytes[i] by {
        assert(i < shown.len());
        assert(text[3 * i] == hj[3 * i]);
        assert(text[3 * i + 1] == hj[3 * i + 1]);
        assert(shown[i] == bytes[i]);
    }
}

/// `piece` occurs in `text` starting at position `i`.
pub open spec fn piece_at(text: Seq<char>, piece: Seq<char>, i: int) -> bool {
    0 <= i && i + piece.len() <= text.len() && text.subrange(i, i + piece.len()) == piece
}

/// `piece` occurs somewhere in `text`.
pub open spec fn shows(text: Seq<char>, piece: Seq<char>) -> bool {
    exists|i: int| #[trigger] piece_at(text, piece, i)
}

pub(crate) proof fn lemma_shows_self(p: Seq<char>)
    ensures
        shows(p, p),
{
    assert(p.subrange(0, p.len() as int) =~= p);
    assert(piece_at(p, p, 0));
}

pub(crate) proof fn lemma_shows_right(x: Seq<char>, z: Seq<char>, p: Seq<char>)
    requires
        shows(x, p),
    ensures
        shows(x + z, p),
{
    let i = choose|i: int| #[trigger] piece_at(x, p, i);
    assert((x + z).subrange(i, i + p.len()) =~= x.subrange(i, i + p.len()));
    assert(piece_at(x + z, p, i));
}

pub(crate) proof fn lemma_shows_left(x: Seq<char>, z: Seq<char>, p: Seq<char>)
    requires
        shows(z, p),
    ensures
        shows(x + z, p),
{
    let i = choose|i: int| #[trigger] piece_at(z, p, i);
    assert((x + z).subrange(x.len() + i, x.len() + i + p.len()) =~= z.subrange(i, i + p.len()));
    assert(piece_at(x + z, p, x.len() + i));
}

} // verus!
