//! What each instruction does, as spec functions from a CPU state and a
//! memory (a sequence of 65536 bytes) to the next CPU state, the next memory
//! and the number of states taken.
//!
//! Instructions are grouped by the regular fields of their opcode: `r`
//! names a register (0 B, 1 C, 2 D, 3 E, 4 H, 5 L, 6 M, that is the byte at
//! HL, and 7 A), `rp` a register pair (0 BC, 1 DE, 2 HL, 3 SP, or PSW for
//! PUSH and POP) and `cc` a condition (0 NZ, 1 Z, 2 NC, 3 C, 4 PO, 5 PE,
//! 6 P, 7 M).
use vstd::prelude::*;

use crate::cpu::{Cpu, Interruptable};
use crate::flags::{
    add_aux_carry, add_carry, add_result, flags_byte, flags_of_byte, result_flags, sub_aux_carry,
    sub_borrow, sub_result, ConditionFlags,
};

verus! {

/// The 16-bit value with high byte `hi` and low byte `lo`.
pub open spec fn word(hi: u8, lo: u8) -> u16 {
    (hi * 256 + lo) as u16
}

pub open spec fn high_byte(v: u16) -> u8 {
    (v / 256) as u8
}

pub open spec fn low_byte(v: u16) -> u8 {
    (v % 256) as u8
}

/// `v` modulo 2^16.
pub open spec fn wrap16(v: int) -> u16 {
    (v % 65536) as u16
}

/// `v` modulo 2^8.
pub open spec fn wrap8(v: int) -> u8 {
    (v % 256) as u8
}

/// The value of register `r`; register 6 (M) is the byte at HL.
pub open spec fn reg(c: Cpu, m: Seq<u8>, r: u8) -> u8 {
    match r {
        0 => c.b,
        1 => c.c,
        2 => c.d,
        3 => c.e,
        4 => c.h,
        5 => c.l,
        6 => m[c.hl() as int],
        _ => c.a,
    }
}

/// The state after register `r` is given `v`; register 6 (M) writes memory at HL.
pub open spec fn set_reg(c: Cpu, m: Seq<u8>, r: u8, v: u8) -> (Cpu, Seq<u8>) {
    match r {
        0 => (Cpu { b: v, ..c }, m),
        1 => (Cpu { c: v, ..c }, m),
        2 => (Cpu { d: v, ..c }, m),
        3 => (Cpu { e: v, ..c }, m),
        4 => (Cpu { h: v, ..c }, m),
        5 => (Cpu { l: v, ..c }, m),
        6 => (c, m.update(c.hl() as int, v)),
        _ => (Cpu { a: v, ..c }, m),
    }
}

/// The value of register pair `rp`, with SP as pair 3.
pub open spec fn pair(c: Cpu, rp: u8) -> u16 {
    match rp {
        0 => c.bc(),
        1 => c.de(),
        2 => c.hl(),
        _ => c.sp,
    }
}

/// The CPU after register pair `rp` (SP as pair 3) is given `v`.
pub open spec fn set_pair(c: Cpu, rp: u8, v: u16) -> Cpu {
    match rp {
        0 => Cpu { b: high_byte(v), c: low_byte(v), ..c },
        1 => Cpu { d: high_byte(v), e: low_byte(v), ..c },
        2 => Cpu { h: high_byte(v), l: low_byte(v), ..c },
        _ => Cpu { sp: v, ..c },
    }
}

/// Whether condition `cc` holds of the flags.
pub open spec fn condition(f: ConditionFlags, cc: u8) -> bool {
    match cc {
        0 => !f.zero,
        1 => f.zero,
        2 => !f.carry,
        3 => f.carry,
        4 => !f.parity,
        5 => f.parity,
        6 => !f.sign,
        _ => f.sign,
    }
}

/// Pushes `v`: its high byte goes to SP - 1, its low byte to SP - 2, and SP
/// goes down by 2.
pub open spec fn push(c: Cpu, m: Seq<u8>, v: u16) -> (Cpu, Seq<u8>) {
    (
        Cpu { sp: wrap16(c.sp - 2), ..c },
        m.update(wrap16(c.sp - 1) as int, high_byte(v)).update(wrap16(c.sp - 2) as int, low_byte(v)),
    )
}

/// The 16-bit value on top of the stack: low byte at SP, high byte at SP + 1.
pub open spec fn top(c: Cpu, m: Seq<u8>) -> u16 {
    word(m[wrap16(c.sp + 1) as int], m[c.sp as int])
}

/// Pushes the address of the next instruction and jumps to `target`.
pub open spec fn call(c: Cpu, m: Seq<u8>, target: u16) -> (Cpu, Seq<u8>) {
    let (c1, m1) = push(c, m, c.pc);
    (Cpu { pc: target, ..c1 }, m1)
}

/// Pops the return address into PC.
pub open spec fn ret(c: Cpu, m: Seq<u8>) -> Cpu {
    Cpu { pc: top(c, m), sp: wrap16(c.sp + 2), ..c }
}

/// The accumulator operation `op` (0 ADD, 1 ADC, 2 SUB, 3 SBB, 4 ANA, 5 XRA,
/// 6 ORA, 7 CMP) applied to A and `v`.
#[verifier::opaque]
pub open spec fn alu(c: Cpu, op: u8, v: u8) -> Cpu {
    let a = c.a;
    let cy = c.condition_flags.carry;
    match op {
        0 => Cpu {
            a: add_result(a, v, false),
            condition_flags: result_flags(
                add_result(a, v, false),
                add_aux_carry(a, v, false),
                add_carry(a, v, false),
            ),
            ..c
        },
        1 => Cpu {
            a: add_result(a, v, cy),
            condition_flags: result_flags(
                add_result(a, v, cy),
                add_aux_carry(a, v, cy),
                add_carry(a, v, cy),
            ),
            ..c
        },
        2 => Cpu {
            a: sub_result(a, v, false),
            condition_flags: result_flags(
                sub_result(a, v, false),
                sub_aux_carry(a, v, false),
                sub_borrow(a, v, false),
            ),
            ..c
        },
        3 => Cpu {
            a: sub_result(a, v, cy),
            condition_flags: result_flags(
                sub_result(a, v, cy),
                sub_aux_carry(a, v, cy),
                sub_borrow(a, v, cy),
            ),
            ..c
        },
        4 => Cpu {
            a: a & v,
            condition_flags: result_flags(a & v, (a | v) & 0x08 != 0, false),
            ..c
        },
        5 => Cpu { a: a ^ v, condition_flags: result_flags(a ^ v, false, false), ..c },
        6 => Cpu { a: a | v, condition_flags: result_flags(a | v, false, false), ..c },
        _ => Cpu {
            condition_flags: result_flags(
                sub_result(a, v, false),
                sub_aux_carry(a, v, false),
                sub_borrow(a, v, false),
            ),
            ..c
        },
    }
}

/// INR r: adds 1 to register `r`; the carry flag is kept.
pub open spec fn increment(c: Cpu, m: Seq<u8>, r: u8) -> (Cpu, Seq<u8>) {
    let v = reg(c, m, r);
    let f = result_flags(
        add_result(v, 1, false),
        add_aux_carry(v, 1, false),
        c.condition_flags.carry,
    );
    set_reg(Cpu { condition_flags: f, ..c }, m, r, add_result(v, 1, false))
}

/// DCR r: subtracts 1 from register `r`; the carry flag is kept.
pub open spec fn decrement(c: Cpu, m: Seq<u8>, r: u8) -> (Cpu, Seq<u8>) {
    let v = reg(c, m, r);
    let f = result_flags(
        sub_result(v, 1, false),
        sub_aux_carry(v, 1, false),
        c.condition_flags.carry,
    );
    set_reg(Cpu { condition_flags: f, ..c }, m, r, sub_result(v, 1, false))
}

/// DAA: adjusts A to two binary-coded decimal digits.
#[verifier::opaque]
pub open spec fn decimal_adjust(c: Cpu) -> Cpu {
    let a0 = c.a;
    let f0 = c.condition_flags;
    let low = a0 % 16 > 9 || f0.aux_carry;
    let a1 = if low { wrap8(a0 + 6) } else { a0 };
    let carry1 = if low && a0 + 6 > 255 { true } else { f0.carry };
    let aux1 = if low { a0 % 16 + 6 > 15 } else { f0.aux_carry };
    let high = a1 / 16 > 9 || carry1;
    let a2 = if high { wrap8(a1 + 0x60) } else { a1 };
    Cpu { a: a2, condition_flags: result_flags(a2, aux1, high || carry1), ..c }
}

/// The one-byte operations on A and the carry flag, by bits 3 to 5 of the
/// opcode: 0 RLC, 1 RRC, 2 RAL, 3 RAR, 4 DAA, 5 CMA, 6 STC, 7 CMC.
#[verifier::opaque]
pub open spec fn accumulator_op(c: Cpu, op: u8) -> Cpu {
    let a = c.a;
    let f = c.condition_flags;
    let cy: int = if f.carry { 1 } else { 0 };
    match op {
        0 => Cpu {
            a: wrap8(a * 2 + a / 128),
            condition_flags: ConditionFlags { carry: a >= 128, ..f },
            ..c
        },
        1 => Cpu {
            a: (a / 2 + (a % 2) * 128) as u8,
            condition_flags: ConditionFlags { carry: a % 2 == 1, ..f },
            ..c
        },
        2 => Cpu {
            a: wrap8(a * 2 + cy),
            condition_flags: ConditionFlags { carry: a >= 128, ..f },
            ..c
        },
        3 => Cpu {
            a: (a / 2 + cy * 128) as u8,
            condition_flags: ConditionFlags { carry: a % 2 == 1, ..f },
            ..c
        },
        4 => decimal_adjust(c),
        5 => Cpu { a: !a, ..c },
        6 => Cpu { condition_flags: ConditionFlags { carry: true, ..f }, ..c },
        _ => Cpu { condition_flags: ConditionFlags { carry: !f.carry, ..f }, ..c },
    }
}

/// Loads and stores between A or HL and memory: 0x02 STAX B, 0x12 STAX D,
/// 0x22 SHLD, 0x32 STA, 0x0A LDAX B, 0x1A LDAX D, 0x2A LHLD, 0x3A LDA.
#[verifier::opaque]
pub open spec fn load_store(c: Cpu, m: Seq<u8>, op: u8, addr: u16) -> (Cpu, Seq<u8>, u32) {
    match op {
        0x02 => (c, m.update(c.bc() as int, c.a), 7),
        0x12 => (c, m.update(c.de() as int, c.a), 7),
        0x22 => (c, m.update(addr as int, c.l).update(wrap16(addr + 1) as int, c.h), 16),
        0x32 => (c, m.update(addr as int, c.a), 13),
        0x0A => (Cpu { a: m[c.bc() as int], ..c }, m, 7),
        0x1A => (Cpu { a: m[c.de() as int], ..c }, m, 7),
        0x2A => (Cpu { l: m[addr as int], h: m[wrap16(addr + 1) as int], ..c }, m, 16),
        _ => (Cpu { a: m[addr as int], ..c }, m, 13),
    }
}

/// LXI, DAD, INX and DCX (the opcodes below 0x40 that end in 1 or 3), with
/// `imm` the instruction's 16-bit operand.
#[verifier::opaque]
pub open spec fn pair_op(c: Cpu, op: u8, imm: u16) -> (Cpu, u32) {
    let rp = (op / 16) as u8;
    if op % 16 == 1 {
        // LXI rp
        (set_pair(c, rp, imm), 10)
    } else if op % 16 == 9 {
        // DAD rp
        let sum = c.hl() + pair(c, rp);
        (
            Cpu {
                h: high_byte(wrap16(sum)),
                l: low_byte(wrap16(sum)),
                condition_flags: ConditionFlags { carry: sum > 0xFFFF, ..c.condition_flags },
                ..c
            },
            10,
        )
    } else if op % 16 == 3 {
        // INX rp
        (set_pair(c, rp, wrap16(pair(c, rp) + 1)), 5)
    } else {
        // DCX rp
        (set_pair(c, rp, wrap16(pair(c, rp) - 1)), 5)
    }
}

/// INR, DCR and MVI (the opcodes below 0x40 that end in 4, 5 or 6).
#[verifier::opaque]
pub open spec fn register_op(c: Cpu, m: Seq<u8>, op: u8, b1: u8) -> (Cpu, Seq<u8>, u32) {
    let r = (op / 8) as u8;
    let memory_states: u32 = 10;
    if op % 8 == 4 {
        let (c1, m1) = increment(c, m, r);
        (c1, m1, if r == 6 { memory_states } else { 5 })
    } else if op % 8 == 5 {
        let (c1, m1) = decrement(c, m, r);
        (c1, m1, if r == 6 { memory_states } else { 5 })
    } else {
        // MVI r
        let (c1, m1) = set_reg(c, m, r, b1);
        (c1, m1, if r == 6 { memory_states } else { 7 })
    }
}

/// The opcodes 0x00 to 0x3F.
#[verifier::opaque]
pub open spec fn execute_low(c: Cpu, m: Seq<u8>, op: u8, b1: u8, b2: u8) -> (Cpu, Seq<u8>, u32) {
    let low3 = op % 8;
    if low3 == 0 {
        // NOP and its aliases
        (c, m, 4)
    } else if low3 == 1 || low3 == 3 {
        let (c1, states) = pair_op(c, op, word(b2, b1));
        (c1, m, states)
    } else if low3 == 2 {
        load_store(c, m, op, word(b2, b1))
    } else if low3 == 7 {
        (accumulator_op(c, (op / 8) as u8), m, 4)
    } else {
        register_op(c, m, op, b1)
    }
}

/// MOV: the opcodes 0x40 to 0x7F but 0x76 (HLT).
#[verifier::opaque]
pub open spec fn execute_move(c: Cpu, m: Seq<u8>, op: u8) -> (Cpu, Seq<u8>, u32) {
    let dst = ((op / 8) % 8) as u8;
    let src = (op % 8) as u8;
    let (c1, m1) = set_reg(c, m, dst, reg(c, m, src));
    (c1, m1, if dst == 6 || src == 6 { 7 } else { 5 })
}

/// POP rp: pops into a register pair, or into A and the flags for PSW.
pub open spec fn pop(c: Cpu, m: Seq<u8>, rp: u8) -> Cpu {
    let c1 = Cpu { sp: wrap16(c.sp + 2), ..c };
    if rp == 3 {
        Cpu {
            condition_flags: flags_of_byte(m[c.sp as int]),
            a: m[wrap16(c.sp + 1) as int],
            ..c1
        }
    } else {
        set_pair(c1, rp, top(c, m))
    }
}

/// The value that PUSH rp pushes: a register pair, or A and the flags byte for PSW.
pub open spec fn push_value(c: Cpu, rp: u8) -> u16 {
    if rp == 3 {
        word(c.a, flags_byte(c.condition_flags))
    } else {
        pair(c, rp)
    }
}

/// Rcc, Jcc and Ccc (the opcodes from 0xC0 on that end in 0, 2 or 4), with
/// `imm` the instruction's 16-bit operand.
#[verifier::opaque]
pub open spec fn conditional_op(c: Cpu, m: Seq<u8>, op: u8, imm: u16) -> (Cpu, Seq<u8>, u32) {
    let taken = condition(c.condition_flags, ((op / 8) % 8) as u8);
    if op % 8 == 0 {
        // Rcc
        if taken {
            (ret(c, m), m, 11)
        } else {
            (c, m, 5)
        }
    } else if op % 8 == 2 {
        // Jcc
        (if taken { Cpu { pc: imm, ..c } } else { c }, m, 10)
    } else {
        // Ccc
        if taken {
            let (c1, m1) = call(c, m, imm);
            (c1, m1, 17)
        } else {
            (c, m, 11)
        }
    }
}

/// POP, RET, PCHL and SPHL (the opcodes from 0xC0 on that end in 1).
#[verifier::opaque]
pub open spec fn pop_op(c: Cpu, m: Seq<u8>, op: u8) -> (Cpu, u32) {
    if op % 16 == 1 {
        (pop(c, m, ((op / 16) % 4) as u8), 10)
    } else if op == 0xE9 {
        // PCHL
        (Cpu { pc: c.hl(), ..c }, 5)
    } else if op == 0xF9 {
        // SPHL
        (Cpu { sp: c.hl(), ..c }, 5)
    } else {
        // RET and its alias
        (ret(c, m), 10)
    }
}

/// PUSH and CALL (the opcodes from 0xC0 on that end in 5).
#[verifier::opaque]
pub open spec fn push_op(c: Cpu, m: Seq<u8>, op: u8, imm: u16) -> (Cpu, Seq<u8>, u32) {
    if op % 16 == 5 {
        let (c1, m1) = push(c, m, push_value(c, ((op / 16) % 4) as u8));
        (c1, m1, 11)
    } else {
        // CALL and its aliases
        let (c1, m1) = call(c, m, imm);
        (c1, m1, 17)
    }
}

/// JMP, OUT, XTHL, DI, IN, XCHG and EI (the opcodes from 0xC0 on that end in 3).
#[verifier::opaque]
pub open spec fn special_op(c: Cpu, m: Seq<u8>, op: u8, imm: u16) -> (Cpu, Seq<u8>, u32) {
    if op == 0xE3 {
        // XTHL
        (
            Cpu { l: m[c.sp as int], h: m[wrap16(c.sp + 1) as int], ..c },
            m.update(c.sp as int, c.l).update(wrap16(c.sp + 1) as int, c.h),
            18,
        )
    } else if op == 0xEB {
        // XCHG
        (Cpu { h: c.d, l: c.e, d: c.h, e: c.l, ..c }, m, 4)
    } else if op == 0xF3 {
        // DI
        (Cpu { interruptable: Interruptable::Disabled, ..c }, m, 4)
    } else if op == 0xFB {
        // EI
        (
            if c.interruptable == Interruptable::Disabled {
                Cpu { interruptable: Interruptable::Enabling, ..c }
            } else {
                c
            },
            m,
            4,
        )
    } else if op == 0xD3 || op == 0xDB {
        // OUT, IN
        (c, m, 10)
    } else {
        // JMP and its alias
        (Cpu { pc: imm, ..c }, m, 10)
    }
}

/// The opcodes 0xC0 to 0xFF.
#[verifier::opaque]
pub open spec fn execute_high(c: Cpu, m: Seq<u8>, op: u8, b1: u8, b2: u8) -> (Cpu, Seq<u8>, u32) {
    let imm = word(b2, b1);
    let low3 = op % 8;
    if low3 == 0 || low3 == 2 || low3 == 4 {
        conditional_op(c, m, op, imm)
    } else if low3 == 1 {
        let (c1, states) = pop_op(c, m, op);
        (c1, m, states)
    } else if low3 == 3 {
        special_op(c, m, op, imm)
    } else if low3 == 5 {
        push_op(c, m, op, imm)
    } else if low3 == 6 {
        // ADI, ACI, SUI, SBI, ANI, XRI, ORI, CPI
        (alu(c, ((op / 8) % 8) as u8, b1), m, 7)
    } else {
        // RST
        let (c1, m1) = call(c, m, (op & 0x38) as u16);
        (c1, m1, 11)
    }
}

/// Executes the instruction `op`, `b1`, `b2` (with PC already past it): the
/// next CPU state, the next memory and the number of states taken.
pub open spec fn execute(c: Cpu, m: Seq<u8>, op: u8, b1: u8, b2: u8) -> (Cpu, Seq<u8>, u32) {
    if op < 0x40 {
        execute_low(c, m, op, b1, b2)
    } else if op == 0x76 {
        // HLT
        (Cpu { is_halted: true, ..c }, m, 7)
    } else if op < 0x80 {
        execute_move(c, m, op)
    } else if op < 0xC0 {
        (alu(c, ((op / 8) % 8) as u8, reg(c, m, (op % 8) as u8)), m, if op % 8 == 6 {
            7
        } else {
            4
        })
    } else {
        execute_high(c, m, op, b1, b2)
    }
}

/// The length in bytes of the instruction with opcode `op`.
pub open spec fn instruction_length(op: u8) -> int {
    if (op < 0x40 && op % 16 == 1) || op == 0x22 || op == 0x2A || op == 0x32 || op == 0x3A || (op
        >= 0xC0 && (op % 8 == 2 || op % 8 == 4)) || op == 0xC3 || op == 0xCB || op == 0xCD || op
        == 0xDD || op == 0xED || op == 0xFD {
        3
    } else if (op < 0x40 && op % 8 == 6) || (op >= 0xC0 && op % 8 == 6) || op == 0xD3 || op
        == 0xDB {
        2
    } else {
        1
    }
}

/// The instruction at PC: the opcode and the bytes that follow it, as many as
/// the instruction is long, zero in the places beyond it.
pub open spec fn fetched(c: Cpu, m: Seq<u8>) -> (u8, u8, u8) {
    let op = m[c.pc as int];
    let len = instruction_length(op);
    (
        op,
        if len >= 2 { m[wrap16(c.pc + 1) as int] } else { 0 },
        if len == 3 { m[wrap16(c.pc + 2) as int] } else { 0 },
    )
}

/// The interrupt latch after an instruction that began with `before` and
/// ended with `after`: an EI takes effect one instruction late.
pub open spec fn settle_latch(before: Interruptable, after: Interruptable) -> Interruptable {
    if before == Interruptable::Enabling && after == Interruptable::Enabling {
        Interruptable::Enabled
    } else {
        after
    }
}

/// One step of a CPU that is not halted: fetches the instruction at PC,
/// moves PC past it, executes it and settles the interrupt latch.
pub open spec fn step(c: Cpu, m: Seq<u8>) -> (Cpu, Seq<u8>, u32) {
    let (op, b1, b2) = fetched(c, m);
    let c1 = Cpu { pc: wrap16(c.pc + instruction_length(op)), ..c };
    let (c2, m2, states) = execute(c1, m, op, b1, b2);
    (Cpu { interruptable: settle_latch(c.interruptable, c2.interruptable), ..c2 }, m2, states)
}

/// An interrupt accepted by a CPU whose interrupts are enabled: leaves the
/// halt state, disables interrupts and executes `op`, `b1`, `b2` without
/// fetching it.
pub open spec fn interrupted(c: Cpu, m: Seq<u8>, op: u8, b1: u8, b2: u8) -> (Cpu, Seq<u8>, u32) {
    execute(Cpu { is_halted: false, interruptable: Interruptable::Disabled, ..c }, m, op, b1, b2)
}

} // verus!
