//! What the arithmetic, byte-swap and branch instructions compute.
//!
//! Registers hold signed 64-bit integers. Arithmetic wraps on overflow,
//! division truncates toward zero, and a shift uses its amount modulo 64.

use vstd::prelude::*;
use crate::arith::{to_signed, to_unsigned, unsigned, wrap_i64};
use crate::endian::{
    le_bytes, le_value, lemma_le_bytes_unsigned, lemma_le_round_trip, lemma_le_value_bound,
    lemma_span_values,
};
use crate::memory::Width;
use crate::opcodes::{AluOp, ByteOrder, Condition};

verus! {

/// The absolute value of `x`.
pub open spec fn magnitude(x: int) -> int {
    if x < 0 {
        -x
    } else {
        x
    }
}

/// The quotient of `a` by `b`, rounded toward zero.
pub open spec fn trunc_div(a: int, b: int) -> int
    recommends
        b != 0,
{
    let q = magnitude(a) / magnitude(b);
    if (a < 0) != (b < 0) {
        -q
    } else {
        q
    }
}

/// The remainder that goes with [`trunc_div`]; it has the sign of `a`.
pub open spec fn trunc_rem(a: int, b: int) -> int
    recommends
        b != 0,
{
    let r = magnitude(a) % magnitude(b);
    if a < 0 {
        -r
    } else {
        r
    }
}

/// The number of bits that a shift by `operand` shifts: `operand` modulo 64.
pub open spec fn shift_amount(operand: i64) -> u32 {
    (operand as int % 64) as u32
}

/// Whether `op` with this operand is a division by zero.
pub open spec fn divides_by_zero(op: AluOp, operand: i64) -> bool {
    (op == AluOp::Div || op == AluOp::Mod) && operand == 0
}

/// The new value of the destination register after `op`, where `dst` is its
/// old value. For a division by zero the value is not meaningful.
pub open spec fn alu_result(op: AluOp, dst: i64, operand: i64) -> i64 {
    match op {
        AluOp::Add => wrap_i64(dst + operand),
        AluOp::Sub => wrap_i64(dst - operand),
        AluOp::Mul => wrap_i64(dst * operand),
        AluOp::Div => wrap_i64(trunc_div(dst as int, operand as int)),
        AluOp::Mod => wrap_i64(trunc_rem(dst as int, operand as int)),
        AluOp::Or => dst | operand,
        AluOp::And => dst & operand,
        AluOp::Xor => dst ^ operand,
        AluOp::Lsh => wrap_i64((unsigned(dst) << shift_amount(operand)) as int),
        AluOp::Rsh => wrap_i64((unsigned(dst) >> shift_amount(operand)) as int),
        AluOp::Arsh => dst >> shift_amount(operand),
        AluOp::Mov => operand,
    }
}

/// The bytes of a register in the order that a byte swap to `order` reads
/// them: as they are for little-endian, reversed for big-endian.
pub open spec fn arranged(order: ByteOrder, bytes: Seq<u8>) -> Seq<u8> {
    match order {
        ByteOrder::Little => bytes,
        ByteOrder::Big => bytes.reverse(),
    }
}

/// The new value of the destination register after a byte swap: the number
/// that its low `width` bytes spell in the given order, zero-extended.
pub open spec fn swap_result(order: ByteOrder, width: Width, dst: i64) -> i64 {
    wrap_i64(le_value(arranged(order, le_bytes(dst as int, width.bytes() as nat))) as int)
}

/// The 64-bit immediate whose low 32 bits are those of `low` and whose high
/// 32 bits are those of `high`.
pub open spec fn wide_immediate(low: i32, high: i32) -> i64 {
    (low as int % 0x1_0000_0000 + 0x1_0000_0000 * high) as i64
}

/// Whether `condition` holds between the destination register and the
/// operand. The plain orderings compare the registers as unsigned numbers.
pub open spec fn condition_holds(condition: Condition, dst: i64, operand: i64) -> bool {
    match condition {
        Condition::Equal => dst == operand,
        Condition::Greater => unsigned(dst) > unsigned(operand),
        Condition::GreaterOrEqual => unsigned(dst) >= unsigned(operand),
        Condition::Less => unsigned(dst) < unsigned(operand),
        Condition::LessOrEqual => unsigned(dst) <= unsigned(operand),
        Condition::AnyBitSet => dst & operand != 0,
        Condition::NotEqual => dst != operand,
        Condition::SignedGreater => dst > operand,
        Condition::SignedGreaterOrEqual => dst >= operand,
        Condition::SignedLess => dst < operand,
        Condition::SignedLessOrEqual => dst <= operand,
    }
}

/// The program counter that a jump with `offset` leads to from
/// `program_counter`: `program_counter + 1 + offset`, wrapped into the range of
/// a program counter.
pub open spec fn branch_target(program_counter: usize, offset: i16) -> usize {
    let target = program_counter + 1 + offset;
    if target < 0 {
        (target + usize::MAX + 1) as usize
    } else if target > usize::MAX {
        (target - usize::MAX - 1) as usize
    } else {
        target as usize
    }
}

/// Jump arithmetic: where `program_counter + 1 + offset` is a program
/// counter, it is the target of the jump.
pub proof fn lemma_branch_target_in_range(program_counter: usize, offset: i16)
    requires
        0 <= program_counter + 1 + offset <= usize::MAX,
    ensures
        branch_target(program_counter, offset) == program_counter + 1 + offset,
{
}

/// Addition and subtraction wrap around: one past the largest register
/// value is the smallest, and one before the smallest is the largest.
pub proof fn lemma_wraparound()
    ensures
        alu_result(AluOp::Add, i64::MAX, 1) == i64::MIN,
        alu_result(AluOp::Sub, i64::MIN, 1) == i64::MAX,
{
}

/// Where the exact sum, difference or product of two registers fits in a
/// register, it is the result; arithmetic never traps on overflow.
pub proof fn lemma_exact_arithmetic(dst: i64, operand: i64)
    ensures
        i64::MIN <= dst + operand <= i64::MAX ==> alu_result(AluOp::Add, dst, operand) == dst
            + operand,
        i64::MIN <= dst - operand <= i64::MAX ==> alu_result(AluOp::Sub, dst, operand) == dst
            - operand,
        i64::MIN <= dst * operand <= i64::MAX ==> alu_result(AluOp::Mul, dst, operand) == dst
            * operand,
        !divides_by_zero(AluOp::Add, operand),
        !divides_by_zero(AluOp::Sub, operand),
        !divides_by_zero(AluOp::Mul, operand),
{
}

/// Computes the shift amount of `operand`.
fn shift_of(operand: i64) -> (amount: u32)
    ensures
        amount == shift_amount(operand),
        amount < 64,
{
    (to_unsigned(operand) % 64) as u32
}

/// Computes `op` on the destination register's value and the operand.
///
/// Returns `None` exactly for a division or remainder by zero.
pub fn alu(op: AluOp, dst: i64, operand: i64) -> (r: Option<i64>)
    ensures
        r == (if divides_by_zero(op, operand) {
            None
        } else {
            Some(alu_result(op, dst, operand))
        }),
{
    match op {
        AluOp::Add => Some(sum(dst, operand)),
        AluOp::Sub => Some(difference(dst, operand)),
        AluOp::Mul => Some(product(dst, operand)),
        AluOp::Div => if operand == 0 {
            None
        } else {
            Some(quotient(dst, operand))
        },
        AluOp::Mod => if operand == 0 {
            None
        } else {
            Some(remainder(dst, operand))
        },
        AluOp::Or => Some(dst | operand),
        AluOp::And => Some(dst & operand),
        AluOp::Xor => Some(dst ^ operand),
        AluOp::Lsh => Some(to_signed(to_unsigned(dst) << shift_of(operand))),
        AluOp::Rsh => Some(to_signed(to_unsigned(dst) >> shift_of(operand))),
        AluOp::Arsh => Some(dst >> shift_of(operand)),
        AluOp::Mov => Some(operand),
    }
}

/// Adds two registers, wrapping.
fn sum(dst: i64, operand: i64) -> (r: i64)
    ensures
        r == wrap_i64(dst + operand),
{
    dst.wrapping_add(operand)
}

/// Subtracts a register from another, wrapping.
fn difference(dst: i64, operand: i64) -> (r: i64)
    ensures
        r == wrap_i64(dst - operand),
{
    dst.wrapping_sub(operand)
}

/// Multiplies two registers, wrapping.
fn product(dst: i64, operand: i64) -> (r: i64)
    ensures
        r == wrap_i64(dst * operand),
{
    dst.wrapping_mul(operand)
}

/// Divides a register by another, rounding toward zero and wrapping.
fn quotient(dst: i64, operand: i64) -> (r: i64)
    requires
        operand != 0,
    ensures
        r == wrap_i64(trunc_div(dst as int, operand as int)),
{
    proof {
        lemma_trunc_div_bound(dst as int, operand as int);
    }
    match dst.checked_div(operand) {
        Some(quotient) => quotient,
        None => i64::MIN,
    }
}

/// The remainder of dividing a register by another, rounding toward zero.
fn remainder(dst: i64, operand: i64) -> (r: i64)
    requires
        operand != 0,
    ensures
        r == wrap_i64(trunc_rem(dst as int, operand as int)),
{
    proof {
        let x = dst as int;
        let d = operand as int;
        lemma_trunc_rem_bound(x, d);
        assert(x * -1 == -x);
        assert(d * -1 == -d);
        assert(magnitude(x) % magnitude(d) >= 0);
        if x == 0 {
            assert(0int % magnitude(d) == 0);
        }
    }
    match dst.checked_rem(operand) {
        Some(remainder) => remainder,
        None => 0,
    }
}

/// A truncated quotient is no larger in magnitude than the dividend.
pub proof fn lemma_trunc_div_bound(a: int, b: int)
    requires
        b != 0,
    ensures
        magnitude(trunc_div(a, b)) <= magnitude(a),
        magnitude(a) / magnitude(b) >= 0,
{
    let x = magnitude(a);
    let d = magnitude(b);
    assert(0 <= x / d <= x) by (nonlinear_arith)
        requires
            x >= 0,
            d >= 1,
    ;
}

/// A truncated remainder is smaller in magnitude than the divisor.
pub proof fn lemma_trunc_rem_bound(a: int, b: int)
    requires
        b != 0,
    ensures
        magnitude(trunc_rem(a, b)) < magnitude(b),
{
}

/// Computes the negation of a register, wrapping.
pub fn negate(dst: i64) -> (r: i64)
    ensures
        r == wrap_i64(-dst),
{
    0i64.wrapping_sub(dst)
}

/// Converts the low `width` bytes of a register to a byte order.
pub fn byte_swap(order: ByteOrder, width: Width, dst: i64) -> (r: i64)
    ensures
        r == swap_result(order, width, dst),
{
    let bits: u64 = to_unsigned(dst);
    proof {
        lemma_le_bytes_unsigned(dst, width.bytes() as nat);
        lemma_le_round_trip(bits as int, width.bytes() as nat);
        lemma_span_values();
    }
    match order {
        ByteOrder::Little => {
            let kept: u64 = match width {
                Width::Byte => bits % 0x100,
                Width::Half => bits % 0x1_0000,
                Width::Word => bits % 0x1_0000_0000,
                Width::DoubleWord => bits,
            };
            to_signed(kept)
        },
        ByteOrder::Big => to_signed(reverse_bytes(bits, width.bytes())),
    }
}

/// Spells the low `count` bytes of `bits` in reverse order.
fn reverse_bytes(bits: u64, count: u8) -> (r: u64)
    requires
        count <= 8,
    ensures
        r == le_value(le_bytes(bits as int, count as nat).reverse()),
{
    let ghost bytes = le_bytes(bits as int, count as nat);
    let ghost mut taken: Seq<u8> = Seq::empty();
    let mut rest: u64 = bits;
    let mut r: u64 = 0;
    let mut i: u8 = 0;
    while i < count
        invariant
            i <= count <= 8,
            bytes =~= taken + le_bytes(rest as int, (count - i) as nat),
            taken.len() == i,
            r == le_value(taken.reverse()),
        decreases count - i,
    {
        let byte: u64 = rest % 256;
        proof {
            lemma_span_values();
            lemma_le_value_bound(taken.reverse());
            let next = taken.push(byte as u8);
            assert(next.reverse().skip(1) =~= taken.reverse());
            taken = next;
        }
        r = r * 256 + byte;
        rest = rest / 256;
        i = i + 1;
    }
    assert(taken =~= bytes);
    r
}

/// Builds the 64-bit immediate of a wide load from its two halves.
pub fn wide(low: i32, high: i32) -> (r: i64)
    ensures
        r == wide_immediate(low, high),
{
    let low_bits: i64 = if low < 0 {
        low as i64 + 0x1_0000_0000
    } else {
        low as i64
    };
    low_bits + 0x1_0000_0000 * (high as i64)
}

/// Tests a branch condition.
pub fn check_condition(condition: Condition, dst: i64, operand: i64) -> (r: bool)
    ensures
        r == condition_holds(condition, dst, operand),
{
    match condition {
        Condition::Equal => dst == operand,
        Condition::Greater => to_unsigned(dst) > to_unsigned(operand),
        Condition::GreaterOrEqual => to_unsigned(dst) >= to_unsigned(operand),
        Condition::Less => to_unsigned(dst) < to_unsigned(operand),
        Condition::LessOrEqual => to_unsigned(dst) <= to_unsigned(operand),
        Condition::AnyBitSet => dst & operand != 0,
        Condition::NotEqual => dst != operand,
        Condition::SignedGreater => dst > operand,
        Condition::SignedGreaterOrEqual => dst >= operand,
        Condition::SignedLess => dst < operand,
        Condition::SignedLessOrEqual => dst <= operand,
    }
}

/// Computes the target of a jump.
pub fn target(program_counter: usize, offset: i16) -> (r: usize)
    ensures
        r == branch_target(program_counter, offset),
{
    let next: usize = program_counter.wrapping_add(1);
    if offset >= 0 {
        next.wrapping_add(offset as usize)
    } else {
        next.wrapping_sub((-(offset as i32)) as usize)
    }
}

} // verus!
