use netbench::rate::{format_rate, size_header};

#[test]
fn megabit_line() {
    // 5,000,000 bytes in 5 s: 8,000,000 bit/s, scaled twice to 8.00 MBit/s,
    // right-aligned in a width-8 field.
    assert_eq!(format_rate(5_000_000, 5, "Tx    "), "    8.00 MBit/s Tx    ");
}

#[test]
fn plain_bit_line() {
    // 125 bytes in 5 s: 200 bit/s, no prefix.
    assert_eq!(format_rate(125, 5, "Rx    "), "  200.00 Bit/s Rx    ");
}

#[test]
fn zero_bytes() {
    assert_eq!(format_rate(0, 5, "Rx    "), "    0.00 Bit/s Rx    ");
}

#[test]
fn kilobit_boundary() {
    // 625 bytes in 5 s: exactly 1000 bit/s, which scales to 1.00 kBit/s.
    assert_eq!(format_rate(625, 5, "Tx    "), "    1.00 kBit/s Tx    ");
}

#[test]
fn rounds_to_nearest() {
    // 8 bits over 3 s: 2.666... rounds up to 2.67.
    assert_eq!(format_rate(1, 3, "Tx    "), "    2.67 Bit/s Tx    ");
}

#[test]
fn ties_round_to_even() {
    // 8 bits over 64 s: exactly 0.125, which rounds to the even 0.12.
    assert_eq!(format_rate(1, 64, "Rx    "), "    0.12 Bit/s Rx    ");
}

#[test]
fn just_below_next_prefix_renders_four_integer_digits() {
    // 7,999,976 bit/s scales once to 999.997, which rounds to 1000.00
    // without moving to the next prefix; the field grows to its full width.
    assert_eq!(format_rate(999_997, 8, "Tx    "), " 1000.00 kBit/s Tx    ");
}

#[test]
fn largest_count() {
    // u64::MAX bytes in one second lands at the exa prefix.
    assert_eq!(format_rate(u64::MAX, 1, "Rx    "), "  147.57 EBit/s Rx    ");
}

#[test]
fn zero_seconds_yields_marker() {
    // A zero-second window divides the rate by zero; no prefix can bring
    // that under 1000, so the degenerate marker is emitted.
    assert_eq!(format_rate(5_000_000, 0, "Tx    "), "SUPERCALIFRAGILISTICEXPIALIDOCIOUS");
}

#[test]
fn size_headers_align_to_five() {
    assert_eq!(size_header(32), "Packet size    32 bytes:   ");
    assert_eq!(size_header(1492), "Packet size  1492 bytes:   ");
    assert_eq!(size_header(16384), "Packet size 16384 bytes:   ");
}

#[test]
fn label_is_verbatim() {
    assert_eq!(format_rate(125, 5, ""), "  200.00 Bit/s ");
    assert_eq!(format_rate(125, 5, "xyz"), "  200.00 Bit/s xyz");
}
