//! Numbers as little-endian byte sequences.

use vstd::prelude::*;
use vstd::arithmetic::div_mod::lemma_fundamental_div_mod_converse;
use crate::arith::unsigned;

verus! {

/// The number that `bytes` spell in little-endian order.
pub open spec fn le_value(bytes: Seq<u8>) -> nat
    decreases bytes.len(),
{
    if bytes.len() == 0 {
        0
    } else {
        bytes[0] as nat + 256 * le_value(bytes.skip(1))
    }
}

/// The lowest `width` bytes of the two's-complement form of `value`, least
/// significant byte first.
pub open spec fn le_bytes(value: int, width: nat) -> Seq<u8>
    decreases width,
{
    if width == 0 {
        Seq::empty()
    } else {
        seq![(value % 256) as u8] + le_bytes(value / 256, (width - 1) as nat)
    }
}

/// The number of values that `width` bytes can spell.
pub open spec fn span(width: nat) -> nat
    decreases width,
{
    if width == 0 {
        1
    } else {
        256 * span((width - 1) as nat)
    }
}

/// The signed number that the `width`-byte two's-complement pattern `value`
/// stands for.
pub open spec fn signed(value: nat, width: nat) -> int {
    if 2 * value >= span(width) {
        value - span(width)
    } else {
        value as int
    }
}

/// Bytes spell a number below the span of their count.
pub proof fn lemma_le_value_bound(bytes: Seq<u8>)
    ensures
        le_value(bytes) < span(bytes.len()),
    decreases bytes.len(),
{
    if bytes.len() > 0 {
        lemma_le_value_bound(bytes.skip(1));
    }
}

/// `le_bytes` yields exactly `width` bytes.
pub proof fn lemma_le_bytes_len(value: int, width: nat)
    ensures
        le_bytes(value, width).len() == width,
    decreases width,
{
    if width > 0 {
        lemma_le_bytes_len(value / 256, (width - 1) as nat);
    }
}

/// The bytes of a number spell that number modulo the span of their count.
pub proof fn lemma_le_round_trip(value: int, width: nat)
    ensures
        le_value(le_bytes(value, width)) == value % (span(width) as int),
    decreases width,
{
    if width > 0 {
        let rest = le_bytes(value / 256, (width - 1) as nat);
        let s = span((width - 1) as nat) as int;
        lemma_le_round_trip(value / 256, (width - 1) as nat);
        lemma_span_positive((width - 1) as nat);
        assert(le_bytes(value, width).skip(1) =~= rest);
        let high = (value / 256) / s;
        let low = value % 256 + 256 * ((value / 256) % s);
        assert(value == high * (256 * s) + low) by (nonlinear_arith)
            requires
                s > 0,
                high == (value / 256) / s,
                low == value % 256 + 256 * ((value / 256) % s),
        ;
        assert(0 <= low < 256 * s) by (nonlinear_arith)
            requires
                s > 0,
                low == value % 256 + 256 * ((value / 256) % s),
        ;
        lemma_fundamental_div_mod_converse(value, 256 * s, high, low);
    }
}

/// A span is positive.
pub proof fn lemma_span_positive(width: nat)
    ensures
        span(width) > 0,
    decreases width,
{
    if width > 0 {
        lemma_span_positive((width - 1) as nat);
    }
}

/// Adding a multiple of the span of `width` bytes to a number leaves its low
/// `width` bytes as they were.
pub proof fn lemma_le_bytes_periodic(value: int, turns: int, width: nat)
    ensures
        le_bytes(value + turns * span(width), width) == le_bytes(value, width),
    decreases width,
{
    if width > 0 {
        let s = span((width - 1) as nat) as int;
        let k = turns * s;
        assert(turns * span(width) == 256 * k) by (nonlinear_arith)
            requires
                span(width) == 256 * s,
                k == turns * s,
        ;
        assert((value + 256 * k) % 256 == value % 256);
        assert((value + 256 * k) / 256 == value / 256 + k);
        lemma_le_bytes_periodic(value / 256, turns, (width - 1) as nat);
    }
}

/// The low bytes of a register do not depend on whether it is read as signed
/// or unsigned.
pub proof fn lemma_le_bytes_unsigned(value: i64, width: nat)
    requires
        width <= 8,
    ensures
        le_bytes(unsigned(value) as int, width) == le_bytes(value as int, width),
{
    if value < 0 {
        lemma_span_values();
        let turns = span((8 - width) as nat) as int;
        assert(turns * span(width) == 0x1_0000_0000_0000_0000) by {
            if width == 0 {
                assert(turns == span(8));
            } else if width == 1 {
                assert(turns == span(7));
            } else if width == 2 {
                assert(turns == span(6));
            } else if width == 3 {
                assert(turns == span(5));
            } else if width == 4 {
                assert(turns == span(4));
            } else if width == 5 {
                assert(turns == span(3));
            } else if width == 6 {
                assert(turns == span(2));
            } else if width == 7 {
                assert(turns == span(1));
            } else {
                assert(turns == span(0));
            }
        }
        lemma_le_bytes_periodic(value as int, turns, width);
    }
}

/// The spans of the widths that fit in a register.
pub proof fn lemma_span_values()
    ensures
        span(0) == 1,
        span(1) == 0x100,
        span(2) == 0x1_0000,
        span(3) == 0x100_0000,
        span(4) == 0x1_0000_0000,
        span(5) == 0x100_0000_0000,
        span(6) == 0x1_0000_0000_0000,
        span(7) == 0x100_0000_0000_0000,
        span(8) == 0x1_0000_0000_0000_0000,
{
    reveal_with_fuel(span, 9);
}

/// The low bytes of the number that some bytes spell are those bytes.
pub proof fn lemma_le_bytes_of_value(bytes: Seq<u8>)
    ensures
        le_bytes(le_value(bytes) as int, bytes.len()) == bytes,
    decreases bytes.len(),
{
    if bytes.len() > 0 {
        lemma_le_bytes_of_value(bytes.skip(1));
        assert(le_bytes(le_value(bytes) as int, bytes.len()) =~= bytes);
    }
}

/// The low bytes of the signed reading of some bytes are those bytes.
pub proof fn lemma_le_bytes_of_signed(bytes: Seq<u8>)
    ensures
        le_bytes(signed(le_value(bytes), bytes.len()), bytes.len()) == bytes,
{
    lemma_le_bytes_of_value(bytes);
    lemma_le_bytes_periodic(le_value(bytes) as int, -1, bytes.len());
}

} // verus!
