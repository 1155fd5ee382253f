//! Laws that hold of every CPU state and memory, proved from the model in
//! `semantics`.
use vstd::prelude::*;

use crate::cpu::Cpu;
use crate::flags::{
    add_aux_carry, add_result, even_parity, flags_byte, lemma_flags_byte_round_trip,
    lemma_flags_byte_valid, lemma_flags_of_byte_masks, mask_flags_byte, result_flags,
    sub_aux_carry, sub_result, valid_flags_byte,
};
use crate::semantics::{
    accumulator_op, alu, decimal_adjust, decrement, execute, execute_high, execute_low,
    high_byte, increment, low_byte, pair, pop_op, push_op, reg, register_op, set_reg,
    fetched, instruction_length, ret, special_op, step, top, word, wrap16,
};

verus! {

/// Writing a register or the byte at HL leaves the flags alone.
proof fn lemma_set_reg_keeps_flags(c: Cpu, m: Seq<u8>, r: u8, v: u8)
    ensures
        set_reg(c, m, r, v).0.condition_flags == c.condition_flags,
{
}

/// Reading back a register or the byte at HL gives the value written.
proof fn lemma_reg_after_set_reg(c: Cpu, m: Seq<u8>, r: u8, v: u8)
    requires
        m.len() == 65536,
    ensures
        reg(set_reg(c, m, r, v).0, set_reg(c, m, r, v).1, r) == v,
{
}

/// The flags that INR and DCR leave, and the value they write.
proof fn lemma_increment_decrement(c: Cpu, m: Seq<u8>, r: u8)
    requires
        m.len() == 65536,
    ensures
        ({
            let v = reg(c, m, r);
            let (c1, m1) = increment(c, m, r);
            &&& c1.condition_flags == result_flags(
                add_result(v, 1, false),
                add_aux_carry(v, 1, false),
                c.condition_flags.carry,
            )
            &&& reg(c1, m1, r) == add_result(v, 1, false)
        }),
        ({
            let v = reg(c, m, r);
            let (c1, m1) = decrement(c, m, r);
            &&& c1.condition_flags == result_flags(
                sub_result(v, 1, false),
                sub_aux_carry(v, 1, false),
                c.condition_flags.carry,
            )
            &&& reg(c1, m1, r) == sub_result(v, 1, false)
        }),
{
    let v = reg(c, m, r);
    let fi = result_flags(add_result(v, 1, false), add_aux_carry(v, 1, false), c.condition_flags.carry);
    let fd = result_flags(sub_result(v, 1, false), sub_aux_carry(v, 1, false), c.condition_flags.carry);
    lemma_set_reg_keeps_flags(Cpu { condition_flags: fi, ..c }, m, r, add_result(v, 1, false));
    lemma_reg_after_set_reg(Cpu { condition_flags: fi, ..c }, m, r, add_result(v, 1, false));
    lemma_set_reg_keeps_flags(Cpu { condition_flags: fd, ..c }, m, r, sub_result(v, 1, false));
    lemma_reg_after_set_reg(Cpu { condition_flags: fd, ..c }, m, r, sub_result(v, 1, false));
}

/// A 16-bit value is the word of its high and low bytes.
proof fn lemma_word_of_bytes(v: u16)
    ensures
        word(high_byte(v), low_byte(v)) == v,
{
}

/// The high and low bytes of a word are the bytes it was made of.
proof fn lemma_bytes_of_word(hi: u8, lo: u8)
    ensures
        high_byte(word(hi, lo)) == hi,
        low_byte(word(hi, lo)) == lo,
{
}

/// The parity flag after an accumulator operation: that of the new A, or of
/// the difference for CMP.
proof fn lemma_alu_parity(c: Cpu, k: u8, v: u8)
    requires
        k < 8,
    ensures
        k != 7 ==> alu(c, k, v).condition_flags.parity == even_parity(alu(c, k, v).a),
        k == 7 ==> alu(c, k, v).condition_flags.parity == even_parity(sub_result(c.a, v, false)),
{
    reveal(alu);
}

/// Whatever instruction runs, the flags byte afterwards has bit 1 set and
/// bits 3 and 5 clear.
pub proof fn lemma_flags_byte_stays_valid(c: Cpu, m: Seq<u8>, op: u8, b1: u8, b2: u8)
    ensures
        valid_flags_byte(flags_byte(execute(c, m, op, b1, b2).0.condition_flags)),
{
    lemma_flags_byte_valid(execute(c, m, op, b1, b2).0.condition_flags);
}

/// POP PSW takes the flags byte from the stack with bit 1 forced on and bits
/// 3 and 5 forced off.
pub proof fn lemma_pop_psw_masks_flags(c: Cpu, m: Seq<u8>)
    ensures
        flags_byte(execute(c, m, 0xF1, 0, 0).0.condition_flags) == mask_flags_byte(
            m[c.sp as int],
        ),
{
    reveal(execute_high);
    reveal(pop_op);
    lemma_flags_of_byte_masks(m[c.sp as int]);
}

/// A step over `MVI r, x` gives register `r` the value `x`, moves PC on by 2
/// and leaves the flags alone.
pub proof fn lemma_move_immediate(c: Cpu, m: Seq<u8>, r: u8, x: u8)
    requires
        m.len() == 65536,
        r < 8,
        m[c.pc as int] == 0x06 + 8 * r,
        m[wrap16(c.pc + 1) as int] == x,
    ensures
        ({
            let (c1, m1, _) = step(c, m);
            &&& reg(c1, m1, r) == x
            &&& c1.pc == wrap16(c.pc + 2)
            &&& c1.condition_flags == c.condition_flags
        }),
{
    reveal(execute_low);
    reveal(register_op);
    let op = (0x06 + 8 * r) as u8;
    assert(op < 0x40 && op % 8 == 6 && (op / 8) as u8 == r);
    let c0 = Cpu { pc: wrap16(c.pc + 2), ..c };
    lemma_set_reg_keeps_flags(c0, m, r, x);
    lemma_reg_after_set_reg(c0, m, r, x);
}

/// INR r and DCR r keep the carry flag.
pub proof fn lemma_increment_decrement_keep_carry(c: Cpu, m: Seq<u8>, r: u8, b1: u8, b2: u8)
    requires
        m.len() == 65536,
        r < 8,
    ensures
        execute(c, m, (0x04 + 8 * r) as u8, b1, b2).0.condition_flags.carry
            == c.condition_flags.carry,
        execute(c, m, (0x05 + 8 * r) as u8, b1, b2).0.condition_flags.carry
            == c.condition_flags.carry,
{
    reveal(execute_low);
    reveal(register_op);
    let inr = (0x04 + 8 * r) as u8;
    let dcr = (0x05 + 8 * r) as u8;
    assert(inr < 0x40 && inr % 8 == 4 && (inr / 8) as u8 == r);
    assert(dcr < 0x40 && dcr % 8 == 5 && (dcr / 8) as u8 == r);
    lemma_increment_decrement(c, m, r);
}

/// Every operation that sets the flags from an 8-bit result sets the parity
/// flag exactly when that result has an even number of one bits: the new A
/// for the accumulator operations and DAA, the difference for the compares,
/// and the new register for INR and DCR.
pub proof fn lemma_parity_of_result(c: Cpu, m: Seq<u8>, op: u8, b1: u8, b2: u8)
    requires
        m.len() == 65536,
    ensures
        ({
            let (c1, m1, _) = execute(c, m, op, b1, b2);
            let parity = c1.condition_flags.parity;
            &&& (0x80 <= op < 0xB8 || (op >= 0xC0 && op % 8 == 6 && op != 0xFE) || op == 0x27)
                ==> parity == even_parity(c1.a)
            &&& 0xB8 <= op < 0xC0 ==> parity == even_parity(
                sub_result(c.a, reg(c, m, (op % 8) as u8), false),
            )
            &&& op == 0xFE ==> parity == even_parity(sub_result(c.a, b1, false))
            &&& (op < 0x40 && (op % 8 == 4 || op % 8 == 5)) ==> parity == even_parity(
                reg(c1, m1, (op / 8) as u8),
            )
        }),
{
    let k = ((op / 8) % 8) as u8;
    if 0x80 <= op < 0xC0 {
        lemma_alu_parity(c, k, reg(c, m, (op % 8) as u8));
    } else if op >= 0xC0 && op % 8 == 6 {
        reveal(execute_high);
        assert(k == 7 ==> op == 0xFE);
        lemma_alu_parity(c, k, b1);
    } else if op == 0x27 {
        reveal(execute_low);
        reveal(accumulator_op);
        reveal(decimal_adjust);
    } else if op < 0x40 && (op % 8 == 4 || op % 8 == 5) {
        reveal(execute_low);
        reveal(register_op);
        lemma_increment_decrement(c, m, (op / 8) as u8);
    }
}

/// PUSH rp followed by POP rp, for BC, DE and HL, gives back the CPU state
/// it started from, the register pair and SP included.
#[verifier::rlimit(30)]
pub proof fn lemma_push_then_pop(c: Cpu, m: Seq<u8>, rp: u8)
    requires
        m.len() == 65536,
        rp < 3,
    ensures
        ({
            let (c1, m1, _) = execute(c, m, (0xC5 + 16 * rp) as u8, 0, 0);
            let (c2, _, _) = execute(c1, m1, (0xC1 + 16 * rp) as u8, 0, 0);
            &&& pair(c2, rp) == pair(c, rp)
            &&& c2.sp == c.sp
            &&& c2 == c
        }),
{
    reveal(execute_high);
    reveal(push_op);
    reveal(pop_op);
    let push = (0xC5 + 16 * rp) as u8;
    let pop = (0xC1 + 16 * rp) as u8;
    assert(push >= 0xC0 && push % 8 == 5 && push % 16 == 5 && ((push / 16) % 4) as u8 == rp);
    assert(pop >= 0xC0 && pop % 8 == 1 && pop % 16 == 1 && ((pop / 16) % 4) as u8 == rp);
    let v = pair(c, rp);
    lemma_bytes_of_word(c.b, c.c);
    lemma_bytes_of_word(c.d, c.e);
    lemma_bytes_of_word(c.h, c.l);
    lemma_word_of_bytes(v);
    assert(wrap16(wrap16(c.sp - 2) + 1) == wrap16(c.sp - 1));
    assert(wrap16(wrap16(c.sp - 2) + 2) == c.sp);
}

/// PUSH PSW followed by POP PSW gives back A and the flags; the flags byte
/// read back is the one pushed, masked to its valid bits.
pub proof fn lemma_push_then_pop_psw(c: Cpu, m: Seq<u8>)
    requires
        m.len() == 65536,
    ensures
        ({
            let (c1, m1, _) = execute(c, m, 0xF5, 0, 0);
            let (c2, _, _) = execute(c1, m1, 0xF1, 0, 0);
            &&& c2.a == c.a
            &&& flags_byte(c2.condition_flags) == mask_flags_byte(flags_byte(c.condition_flags))
            &&& c2.sp == c.sp
            &&& c2 == c
        }),
{
    reveal(execute_high);
    reveal(push_op);
    reveal(pop_op);
    let f = flags_byte(c.condition_flags);
    lemma_bytes_of_word(c.a, f);
    lemma_flags_byte_round_trip(c.condition_flags);
    lemma_flags_of_byte_masks(f);
    assert(wrap16(wrap16(c.sp - 2) + 1) == wrap16(c.sp - 1));
    assert(wrap16(wrap16(c.sp - 2) + 2) == c.sp);
}

/// XCHG undoes itself.
pub proof fn lemma_exchange_twice(c: Cpu, m: Seq<u8>, b1: u8, b2: u8)
    ensures
        ({
            let (c1, m1, _) = execute(c, m, 0xEB, b1, b2);
            let (c2, m2, _) = execute(c1, m1, 0xEB, b1, b2);
            c2 == c && m2 == m
        }),
{
    reveal(execute_high);
    reveal(special_op);
}

/// A step over `CALL target` followed by a step over the RET at `target`
/// brings PC to the instruction after the CALL and SP back to its value.
/// The RET must not lie in one of the two stack bytes that the CALL writes.
#[verifier::rlimit(30)]
pub proof fn lemma_call_then_return(c: Cpu, m: Seq<u8>, target: u16)
    requires
        m.len() == 65536,
        m[c.pc as int] == 0xCD,
        word(m[wrap16(c.pc + 2) as int], m[wrap16(c.pc + 1) as int]) == target,
        m[target as int] == 0xC9,
        target != wrap16(c.sp - 1),
        target != wrap16(c.sp - 2),
    ensures
        ({
            let (c1, m1, _) = step(c, m);
            let (c2, _, _) = step(c1, m1);
            &&& c1.pc == target
            &&& c2.pc == wrap16(c.pc + 3)
            &&& c2.sp == c.sp
        }),
{
    let ret_address = wrap16(c.pc + 3);
    let sp1 = wrap16(c.sp - 2);
    let (op, b1, b2) = fetched(c, m);
    assert(op == 0xCD && instruction_length(op) == 3);
    let c0 = Cpu { pc: ret_address, ..c };
    let m1 = m.update(wrap16(c.sp - 1) as int, high_byte(ret_address)).update(
        sp1 as int,
        low_byte(ret_address),
    );
    assert(execute(c0, m, op, b1, b2) == (Cpu { pc: target, sp: sp1, ..c0 }, m1, 17u32)) by {
        reveal(execute_high);
        reveal(push_op);
    }
    let (c1, mm1, _) = step(c, m);
    assert(mm1 == m1);
    assert(c1.pc == target && c1.sp == sp1);
    assert(m1[target as int] == 0xC9);
    let (op2, b3, b4) = fetched(c1, m1);
    assert(op2 == 0xC9 && instruction_length(op2) == 1);
    let c3 = Cpu { pc: wrap16(target + 1), ..c1 };
    assert(wrap16(sp1 + 1) == wrap16(c.sp - 1));
    assert(wrap16(sp1 + 2) == c.sp);
    lemma_word_of_bytes(ret_address);
    assert(top(c3, m1) == ret_address);
    assert(execute(c3, m1, op2, b3, b4).0 == ret(c3, m1)) by {
        reveal(execute_high);
        reveal(pop_op);
    }
}

} // verus!
