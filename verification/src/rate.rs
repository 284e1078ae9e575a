//! Human-scaled rendering of a measured throughput.
//!
//! The rate is `bytes * 8 / secs` in bits per second, with the elapsed time
//! truncated to whole seconds. It is scaled down by factors of 1000 through
//! the SI prefixes until it drops below 1000, then rendered as a
//! right-aligned, minimum-width-8, two-decimal number followed by the
//! prefixed unit and the caller's label.

use vstd::prelude::*;
use vstd::string::StringExecFns;
use vstd::arithmetic::div_mod::lemma_multiply_divide_lt;

verus! {

/// The character for one decimal digit value below ten.
pub open spec fn digit_char(d: int) -> char {
    if d == 0 { '0' } else if d == 1 { '1' } else if d == 2 { '2' }
    else if d == 3 { '3' } else if d == 4 { '4' } else if d == 5 { '5' }
    else if d == 6 { '6' } else if d == 7 { '7' } else if d == 8 { '8' }
    else { '9' }
}

/// Decimal digit string of `n`, most significant digit first, without a sign
/// or leading zeros (a single `'0'` for zero).
pub open spec fn dec_digits(n: nat) -> Seq<char>
    decreases n,
{
    if n < 10 {
        seq![digit_char(n as int)]
    } else {
        dec_digits(n / 10) + seq![digit_char((n % 10) as int)]
    }
}

/// `n` space characters.
pub open spec fn spaces(n: nat) -> Seq<char>
    decreases n,
{
    if n == 0 {
        Seq::empty()
    } else {
        spaces((n - 1) as nat) + seq![' ']
    }
}

/// The SI prefix reached after `k` divisions by 1000.
pub open spec fn si_prefix(k: nat) -> Seq<char> {
    if k == 0 { Seq::empty() }
    else if k == 1 { seq!['k'] }
    else if k == 2 { seq!['M'] }
    else if k == 3 { seq!['G'] }
    else if k == 4 { seq!['T'] }
    else if k == 5 { seq!['P'] }
    else if k == 6 { seq!['E'] }
    else if k == 7 { seq!['Z'] }
    else { seq!['Y'] }
}

/// `n / d` rounded to the nearest integer, ties to even.
pub open spec fn div_round_half_even(n: nat, d: nat) -> nat {
    let q = n / d;
    let r = n % d;
    if 2 * r < d {
        q
    } else if 2 * r > d {
        q + 1
    } else if q % 2 == 0 {
        q
    } else {
        q + 1
    }
}

/// A quantity of hundredths rendered with two decimal places.
pub open spec fn two_decimal(h: nat) -> Seq<char> {
    dec_digits(h / 100) + seq!['.', digit_char(((h / 10) % 10) as int), digit_char((h % 10) as int)]
}

/// Right-align a string to a minimum width of eight characters.
pub open spec fn pad_to_eight(s: Seq<char>) -> Seq<char> {
    if s.len() >= 8 {
        s
    } else {
        spaces((8 - s.len()) as nat) + s
    }
}

/// The marker emitted when the value stays at 1000 or above even after the
/// last SI prefix. With 64-bit byte counts only a zero-second window reaches
/// it, mirroring what dividing the rate by zero seconds would print.
pub open spec fn overflow_marker() -> Seq<char> {
    "SUPERCALIFRAGILISTICEXPIALIDOCIOUS"@
}

/// One formatted rate line: `bits / d` scaled at `k` prefix steps, rounded
/// to hundredths and rendered with two decimals in a width-8 field, then a
/// space, the prefixed unit, a space, and the label verbatim.
pub open spec fn rendered(bits: nat, d: nat, k: nat, label: Seq<char>) -> Seq<char> {
    pad_to_eight(two_decimal(div_round_half_even(bits * 100, d)))
        + seq![' '] + si_prefix(k) + "Bit/s"@ + seq![' '] + label
}

/// The line for a rate of `bits / d` bit per second after `k` scaling steps:
/// while the value stays at 1000 or above, divide by 1000 and move to the
/// next SI prefix; after the last prefix give up and emit the marker.
pub open spec fn scaled_render(bits: nat, d: nat, k: nat, label: Seq<char>) -> Seq<char>
    decreases 9 - k,
{
    if k >= 9 {
        overflow_marker()
    } else if bits < 1000 * d {
        rendered(bits, d, k, label)
    } else {
        scaled_render(bits, d * 1000, k + 1, label)
    }
}

/// What `format_rate` returns: the throughput `bytes * 8 / secs` scaled to
/// the first SI prefix that brings it under 1000, rendered with two decimals
/// in a width-8 field and followed by the unit and the label; the overflow
/// marker when no prefix brings it under 1000 (with 64-bit byte counts that
/// takes a zero-second window).
pub open spec fn format_spec(bytes: nat, secs: nat, label: Seq<char>) -> Seq<char> {
    if secs == 0 {
        overflow_marker()
    } else {
        scaled_render(bytes * 8, secs, 0, label)
    }
}

/// Appends `n` spaces to `out`.
fn append_spaces(out: &mut String, n: usize)
    ensures
        final(out)@ == old(out)@ + spaces(n as nat),
{
    proof {
        assert(old(out)@ + spaces(0) =~= old(out)@);
    }
    let mut i: usize = 0;
    while i < n
        invariant
            i <= n,
            out@ == old(out)@ + spaces(i as nat),
        decreases n - i,
    {
        proof {
            reveal_strlit(" ");
        }
        out.append(" ");
        i = i + 1;
        proof {
            assert(spaces(i as nat) == spaces((i - 1) as nat) + seq![' ']);
            assert(out@ =~= old(out)@ + spaces(i as nat));
        }
    }
}

/// Appends the character for the single digit `d`.
fn push_digit(d: u64, out: &mut String)
    requires
        d < 10,
    ensures
        final(out)@ == old(out)@ + seq![digit_char(d as int)],
{
    if d == 0 {
        out.append("0");
        proof { reveal_strlit("0"); assert(("0")@ =~= seq![digit_char(d as int)]); }
    } else if d == 1 {
        out.append("1");
        proof { reveal_strlit("1"); assert(("1")@ =~= seq![digit_char(d as int)]); }
    } else if d == 2 {
        out.append("2");
        proof { reveal_strlit("2"); assert(("2")@ =~= seq![digit_char(d as int)]); }
    } else if d == 3 {
        out.append("3");
        proof { reveal_strlit("3"); assert(("3")@ =~= seq![digit_char(d as int)]); }
    } else if d == 4 {
        out.append("4");
        proof { reveal_strlit("4"); assert(("4")@ =~= seq![digit_char(d as int)]); }
    } else if d == 5 {
        out.append("5");
        proof { reveal_strlit("5"); assert(("5")@ =~= seq![digit_char(d as int)]); }
    } else if d == 6 {
        out.append("6");
        proof { reveal_strlit("6"); assert(("6")@ =~= seq![digit_char(d as int)]); }
    } else if d == 7 {
        out.append("7");
        proof { reveal_strlit("7"); assert(("7")@ =~= seq![digit_char(d as int)]); }
    } else if d == 8 {
        out.append("8");
        proof { reveal_strlit("8"); assert(("8")@ =~= seq![digit_char(d as int)]); }
    } else {
        out.append("9");
        proof { reveal_strlit("9"); assert(("9")@ =~= seq![digit_char(d as int)]); }
    }
}

/// Appends the decimal digit string of `n`.
fn push_dec(n: u64, out: &mut String)
    ensures
        final(out)@ == old(out)@ + dec_digits(n as nat),
    decreases n,
{
    if n < 10 {
        push_digit(n, out);
    } else {
        push_dec(n / 10, out);
        push_digit(n % 10, out);
        proof {
            assert((n / 10) as nat == n as nat / 10);
            assert(dec_digits(n as nat) == dec_digits(n as nat / 10) + seq![
                digit_char((n as nat % 10) as int),
            ]);
            assert(out@ =~= old(out)@ + dec_digits(n as nat));
        }
    }
}

/// Appends the SI prefix for `k` scaling steps.
fn append_prefix(k: usize, out: &mut String)
    requires
        k < 9,
    ensures
        final(out)@ == old(out)@ + si_prefix(k as nat),
{
    if k == 0 {
        proof { assert(out@ =~= old(out)@ + si_prefix(0)); }
    } else if k == 1 {
        out.append("k");
        proof { reveal_strlit("k"); assert(("k")@ =~= si_prefix(k as nat)); }
    } else if k == 2 {
        out.append("M");
        proof { reveal_strlit("M"); assert(("M")@ =~= si_prefix(k as nat)); }
    } else if k == 3 {
        out.append("G");
        proof { reveal_strlit("G"); assert(("G")@ =~= si_prefix(k as nat)); }
    } else if k == 4 {
        out.append("T");
        proof { reveal_strlit("T"); assert(("T")@ =~= si_prefix(k as nat)); }
    } else if k == 5 {
        out.append("P");
        proof { reveal_strlit("P"); assert(("P")@ =~= si_prefix(k as nat)); }
    } else if k == 6 {
        out.append("E");
        proof { reveal_strlit("E"); assert(("E")@ =~= si_prefix(k as nat)); }
    } else if k == 7 {
        out.append("Z");
        proof { reveal_strlit("Z"); assert(("Z")@ =~= si_prefix(k as nat)); }
    } else {
        out.append("Y");
        proof { reveal_strlit("Y"); assert(("Y")@ =~= si_prefix(k as nat)); }
    }
}

/// The marker string for a value that no SI prefix brings under 1000.
fn marker_string() -> (r: String)
    ensures
        r@ == overflow_marker(),
{
    String::from_str("SUPERCALIFRAGILISTICEXPIALIDOCIOUS")
}

/// The length of the digit string of a number below a hundred thousand.
proof fn lemma_dec_digits_len_small(n: nat)
    requires
        n < 100000,
    ensures
        dec_digits(n).len() == (
        if n < 10 { 1nat } else if n < 100 { 2nat } else if n < 1000 { 3nat } else if n < 10000 {
            4nat
        } else { 5nat }),
    decreases n,
{
    if n >= 10 {
        lemma_dec_digits_len_small(n / 10);
    }
}

/// Renders a count of hundredths below or at one hundred thousand with two
/// decimal places, right-aligned to the minimum width of eight.
fn two_decimal_string(h: u64) -> (r: String)
    requires
        h <= 100000,
    ensures
        r@ == pad_to_eight(two_decimal(h as nat)),
{
    let int_part: u64 = h / 100;
    let frac: u64 = h % 100;
    let w: usize = if int_part < 10 { 1 } else if int_part < 100 { 2 } else if int_part < 1000 { 3 } else { 4 };
    proof {
        lemma_dec_digits_len_small(int_part as nat);
        assert(two_decimal(h as nat).len() == w + 3);
    }
    let mut out = String::new();
    append_spaces(&mut out, 8 - (w + 3));
    push_dec(int_part, &mut out);
    out.append(".");
    push_digit(frac / 10, &mut out);
    push_digit(frac % 10, &mut out);
    proof {
        reveal_strlit(".");
        assert((frac / 10) as nat == (h as nat / 10) % 10);
        assert((frac % 10) as nat == h as nat % 10);
        assert(pad_to_eight(two_decimal(h as nat)) =~= spaces((8 - (w + 3)) as nat)
            + two_decimal(h as nat));
        assert(out@ =~= pad_to_eight(two_decimal(h as nat)));
    }
    out
}

/// The scaled value `bits / d` in hundredths, rounded half to even.
fn rounded_hundredths(bits: u128, d: u128) -> (h: u64)
    requires
        1 <= d,
        bits < 1000 * d,
        bits <= 0x7_FFFF_FFFF_FFFF_FFF8,
        d <= 0x7_FFFF_FFFF_FFFF_FFF8,
    ensures
        h as nat == div_round_half_even((bits as nat) * 100, d as nat),
        h <= 100000,
{
    let n: u128 = bits * 100;
    let q: u128 = n / d;
    let rem: u128 = n % d;
    proof {
        lemma_multiply_divide_lt(n as int, d as int, 100000);
        assert(q < 100000);
    }
    let h128: u128 = if 2 * rem < d {
        q
    } else if 2 * rem > d {
        q + 1
    } else if q % 2 == 0 {
        q
    } else {
        q + 1
    };
    h128 as u64
}

/// Renders one finished line for the scaled value `bits / d` at prefix step
/// `k`, followed by the label.
fn render_line(bits: u128, d: u128, k: usize, label: &str) -> (r: String)
    requires
        1 <= d,
        bits < 1000 * d,
        bits <= 0x7_FFFF_FFFF_FFFF_FFF8,
        d <= 0x7_FFFF_FFFF_FFFF_FFF8,
        k < 9,
    ensures
        r@ == rendered(bits as nat, d as nat, k as nat, label@),
{
    let h: u64 = rounded_hundredths(bits, d);
    let mut out = two_decimal_string(h);
    out.append(" ");
    append_prefix(k, &mut out);
    out.append("Bit/s");
    out.append(" ");
    out.append(label);
    proof {
        reveal_strlit(" ");
        assert(out@ =~= rendered(bits as nat, d as nat, k as nat, label@));
    }
    out
}

/// Right-align a string to a minimum width of five characters.
pub open spec fn pad_to_five(s: Seq<char>) -> Seq<char> {
    if s.len() >= 5 {
        s
    } else {
        spaces((5 - s.len()) as nat) + s
    }
}

/// The console header of one packet size's line pair: the size right-aligned
/// to width five between the fixed pieces of text.
pub open spec fn size_header_spec(size: nat) -> Seq<char> {
    "Packet size "@ + pad_to_five(dec_digits(size)) + " bytes:   "@
}

/// Formats the console header printed before a packet size's two rate
/// reports. The header's numeric field is five wide, enough for every size
/// the sweep holds.
pub fn size_header(size: u64) -> (r: String)
    requires
        size <= 99999,
    ensures
        r@ == size_header_spec(size as nat),
{
    let w: usize = if size < 10 { 1 } else if size < 100 { 2 } else if size < 1000 { 3 }
    else if size < 10000 { 4 } else { 5 };
    proof {
        lemma_dec_digits_len_small(size as nat);
    }
    let mut out = String::from_str("Packet size ");
    append_spaces(&mut out, 5 - w);
    push_dec(size, &mut out);
    out.append(" bytes:   ");
    proof {
        assert(pad_to_five(dec_digits(size as nat)) =~= spaces((5 - w) as nat) + dec_digits(
            size as nat,
        ));
        assert(out@ =~= size_header_spec(size as nat));
    }
    out
}

/// Formats one throughput line: `bytes` transferred over `secs` whole
/// seconds, as a bit rate scaled through the SI prefixes, with the label
/// appended verbatim.
pub fn format_rate(bytes: u64, secs: u64, label: &str) -> (r: String)
    ensures
        r@ == format_spec(bytes as nat, secs as nat, label@),
{
    if secs == 0 {
        return marker_string();
    }
    let bits: u128 = (bytes as u128) * 8;
    let mut d: u128 = secs as u128;
    let mut k: usize = 0;
    while k < 9
        invariant
            1 <= d,
            bits == (bytes as u128) * 8,
            bits <= 0x7_FFFF_FFFF_FFFF_FFF8,
            d <= 0x7_FFFF_FFFF_FFFF_FFF8,
            k <= 9,
            scaled_render(bits as nat, d as nat, k as nat, label@)
                == format_spec(bytes as nat, secs as nat, label@),
        decreases 9 - k,
    {
        if bits < 1000 * d {
            return render_line(bits, d, k, label);
        }
        d = d * 1000;
        k = k + 1;
    }
    marker_string()
}

} // verus!
