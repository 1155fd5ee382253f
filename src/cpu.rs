//! The 8080 CPU: its registers, the flag engine, the instruction decoder and
//! the executor.
use vstd::prelude::*;

use crate::flags::{
    add_aux_carry, add_carry, add_result, carry_bit, even_parity, has_even_parity, result_flags,
    sub_aux_carry, sub_borrow, sub_result, ConditionFlags,
};
use crate::memory::Memory;
use crate::semantics::{
    accumulator_op, alu, call, condition, conditional_op, decimal_adjust, execute, execute_high,
    execute_low, execute_move, fetched, high_byte, instruction_length, interrupted, load_store,
    low_byte, pair, pair_op, pop_op, push, push_op, reg, register_op, ret, set_pair, set_reg,
    special_op, step, top, word, wrap16,
};
use crate::Error;

verus! {

/// An instruction: the opcode and the bytes that follow it. An instruction
/// shorter than 3 bytes is padded with zeros.
pub type Instruction = [u8; 3];

/// The interrupt latch. EI moves it from `Disabled` to `Enabling`, and it
/// becomes `Enabled` once the instruction after EI has completed.
#[derive(Clone, Copy, Debug, PartialEq, Eq, Structural)]
pub enum Interruptable {
    Disabled,
    Enabling,
    Enabled,
}

/// An Intel 8080 CPU.
#[derive(Clone, Copy, Debug, PartialEq, Eq, Structural)]
pub struct Cpu {
    /// Program counter.
    pub pc: u16,
    /// Stack pointer.
    pub sp: u16,
    /// Register B.
    pub b: u8,
    /// Register C.
    pub c: u8,
    /// Register D.
    pub d: u8,
    /// Register E.
    pub e: u8,
    /// Register H.
    pub h: u8,
    /// Register L.
    pub l: u8,
    /// Accumulator.
    pub a: u8,
    /// Condition flags.
    pub condition_flags: ConditionFlags,
    /// The interrupt latch.
    pub interruptable: Interruptable,
    /// Whether a HLT has stopped the CPU.
    pub is_halted: bool,
}

/// The length in bytes of the instruction with opcode `op`.
fn instruction_length_of(op: u8) -> (n: u16)
    ensures
        n == instruction_length(op),
{
    if (op < 0x40 && op % 16 == 1) || op == 0x22 || op == 0x2A || op == 0x32 || op == 0x3A || (op
        >= 0xC0 && (op % 8 == 2 || op % 8 == 4)) || op == 0xC3 || op == 0xCB || op == 0xCD || op
        == 0xDD || op == 0xED || op == 0xFD {
        3
    } else if (op < 0x40 && op % 8 == 6) || (op >= 0xC0 && op % 8 == 6) || op == 0xD3 || op
        == 0xDB {
        2
    } else {
        1
    }
}

impl Cpu {
    /// Fetches and executes an instruction, returning it with the number of states taken.
    ///
    /// # Errors
    ///
    /// [`Error::Halted`] if the CPU is in the halted state; nothing changes then.
    pub fn fetch_execute_instruction(&mut self, memory: &mut Memory) -> (r: Result<
        (Instruction, u32),
        Error,
    >)
        ensures
            match r {
                Ok((instruction, states)) => {
                    &&& !old(self).is_halted
                    &&& (instruction[0], instruction[1], instruction[2]) == fetched(
                        *old(self),
                        old(memory)@,
                    )
                    &&& (*final(self), final(memory)@, states) == step(*old(self), old(memory)@)
                },
                Err(e) => {
                    &&& old(self).is_halted
                    &&& e == Error::Halted
                    &&& *final(self) == *old(self)
                    &&& final(memory)@ == old(memory)@
                },
            },
    {
        if self.is_halted {
            return Err(Error::Halted);
        }
        let instruction = self.fetch_instruction(memory);
        let interruptable = self.interruptable;
        let states = self.execute_instruction(instruction, memory);
        // If two EI instructions occur in a row, interrupts are enabled right
        // after the second one.
        if interruptable == Interruptable::Enabling && self.interruptable
            == Interruptable::Enabling {
            self.interruptable = Interruptable::Enabled;
        }
        Ok((instruction, states))
    }

    /// Escapes from the halt state, if necessary, and executes `instruction` with further
    /// interrupts disabled. PC is not moved before the instruction runs.
    ///
    /// # Errors
    ///
    /// [`Error::InterruptNotEnabled`] if interrupts are not enabled; nothing changes then.
    pub fn interrupt(&mut self, instruction: Instruction, memory: &mut Memory) -> (r: Result<
        u32,
        Error,
    >)
        ensures
            match r {
                Ok(states) => {
                    &&& old(self).interruptable == Interruptable::Enabled
                    &&& (*final(self), final(memory)@, states) == interrupted(
                        *old(self),
                        old(memory)@,
                        instruction[0],
                        instruction[1],
                        instruction[2],
                    )
                },
                Err(e) => {
                    &&& old(self).interruptable != Interruptable::Enabled
                    &&& e == Error::InterruptNotEnabled
                    &&& *final(self) == *old(self)
                    &&& final(memory)@ == old(memory)@
                },
            },
    {
        if self.interruptable == Interruptable::Enabled {
            self.is_halted = false;
            self.interruptable = Interruptable::Disabled;
            Ok(self.execute_instruction(instruction, memory))
        } else {
            Err(Error::InterruptNotEnabled)
        }
    }

    /// Reads the instruction at PC, as many bytes as it is long, and moves PC past it.
    fn fetch_instruction(&mut self, memory: &Memory) -> (instruction: Instruction)
        ensures
            (instruction[0], instruction[1], instruction[2]) == fetched(*old(self), memory@),
            *final(self) == (Cpu {
                pc: wrap16(old(self).pc + instruction_length(instruction[0])),
                ..*old(self)
            }),
    {
        let op = memory.read(self.pc);
        let length = instruction_length_of(op);
        let b1 = if length >= 2 {
            memory.read(self.pc.wrapping_add(1))
        } else {
            0
        };
        let b2 = if length == 3 {
            memory.read(self.pc.wrapping_add(2))
        } else {
            0
        };
        self.pc = self.pc.wrapping_add(length);
        [op, b1, b2]
    }

    /// Executes `instruction` (with PC already past it) and returns the number
    /// of states taken.
    pub fn execute_instruction(&mut self, instruction: Instruction, memory: &mut Memory) -> (states:
        u32)
        ensures
            (*final(self), final(memory)@, states) == execute(
                *old(self),
                old(memory)@,
                instruction[0],
                instruction[1],
                instruction[2],
            ),
    {
        let op = instruction[0];
        if op < 0x40 {
            self.execute_low(op, instruction[1], instruction[2], memory)
        } else if op == 0x76 {
            // HLT
            self.is_halted = true;
            7
        } else if op < 0x80 {
            self.execute_move(op, memory)
        } else if op < 0xC0 {
            let v = self.read_register(op % 8, memory);
            self.execute_alu((op / 8) % 8, v);
            if op % 8 == 6 {
                7
            } else {
                4
            }
        } else {
            self.execute_high(instruction, memory)
        }
    }
}

/// Builds the 16-bit value with high byte `hi` and low byte `lo`.
fn make_word(hi: u8, lo: u8) -> (r: u16)
    ensures
        r == word(hi, lo),
{
    hi as u16 * 256 + lo as u16
}

impl Cpu {
    /// The state at reset: every register zero, all flags clear, interrupts
    /// disabled, not halted.
    pub open spec fn initial() -> Cpu {
        Cpu {
            pc: 0,
            sp: 0,
            b: 0,
            c: 0,
            d: 0,
            e: 0,
            h: 0,
            l: 0,
            a: 0,
            condition_flags: ConditionFlags::cleared(),
            interruptable: Interruptable::Disabled,
            is_halted: false,
        }
    }

    /// The register pair BC.
    pub open spec fn bc(self) -> u16 {
        word(self.b, self.c)
    }

    /// The register pair DE.
    pub open spec fn de(self) -> u16 {
        word(self.d, self.e)
    }

    /// The register pair HL.
    pub open spec fn hl(self) -> u16 {
        word(self.h, self.l)
    }

    /// The value of register `r` (6 is the byte at HL).
    fn read_register(&self, r: u8, memory: &Memory) -> (v: u8)
        requires
            r < 8,
        ensures
            v == reg(*self, memory@, r),
    {
        match r {
            0 => self.b,
            1 => self.c,
            2 => self.d,
            3 => self.e,
            4 => self.h,
            5 => self.l,
            6 => memory.read(make_word(self.h, self.l)),
            _ => self.a,
        }
    }

    /// Gives register `r` the value `v` (6 writes the byte at HL).
    fn write_register(&mut self, r: u8, v: u8, memory: &mut Memory)
        requires
            r < 8,
        ensures
            (*final(self), final(memory)@) == set_reg(*old(self), old(memory)@, r, v),
    {
        match r {
            0 => self.b = v,
            1 => self.c = v,
            2 => self.d = v,
            3 => self.e = v,
            4 => self.h = v,
            5 => self.l = v,
            6 => memory.write(make_word(self.h, self.l), v),
            _ => self.a = v,
        }
    }

    /// The value of register pair `rp` (3 is SP).
    fn register_pair(&self, rp: u8) -> (v: u16)
        ensures
            v == pair(*self, rp),
    {
        match rp {
            0 => make_word(self.b, self.c),
            1 => make_word(self.d, self.e),
            2 => make_word(self.h, self.l),
            _ => self.sp,
        }
    }

    /// Gives register pair `rp` (3 is SP) the value `v`.
    fn set_register_pair(&mut self, rp: u8, v: u16)
        ensures
            *final(self) == set_pair(*old(self), rp, v),
    {
        let hi = (v / 256) as u8;
        let lo = (v % 256) as u8;
        match rp {
            0 => {
                self.b = hi;
                self.c = lo;
            },
            1 => {
                self.d = hi;
                self.e = lo;
            },
            2 => {
                self.h = hi;
                self.l = lo;
            },
            _ => self.sp = v,
        }
    }

    /// Pushes `v`: high byte at SP - 1, low byte at SP - 2, then SP -= 2.
    fn push_word(&mut self, v: u16, memory: &mut Memory)
        ensures
            (*final(self), final(memory)@) == push(*old(self), old(memory)@, v),
    {
        memory.write(self.sp.wrapping_sub(1), (v / 256) as u8);
        memory.write(self.sp.wrapping_sub(2), (v % 256) as u8);
        self.sp = self.sp.wrapping_sub(2);
    }

    /// The 16-bit value on top of the stack.
    fn top_word(&self, memory: &Memory) -> (v: u16)
        ensures
            v == top(*self, memory@),
    {
        make_word(memory.read(self.sp.wrapping_add(1)), memory.read(self.sp))
    }

    /// Sets sign, zero and parity from `result`.
    fn update_parity_zero_sign_flags(&mut self, result: u8)
        ensures
            *final(self) == (Cpu {
                condition_flags: ConditionFlags {
                    parity: even_parity(result),
                    zero: result == 0,
                    sign: result >= 0x80,
                    ..old(self).condition_flags
                },
                ..*old(self)
            }),
    {
        self.condition_flags.parity = has_even_parity(result);
        self.condition_flags.zero = result == 0;
        self.condition_flags.sign = result >= 0x80;
    }

    /// Adds `x`, `y` and the carry in; sets sign, zero, parity and auxiliary
    /// carry, and returns the sum modulo 256 with the carry out. The carry
    /// flag is left to the caller.
    fn add(&mut self, x: u8, y: u8, carry_in: bool) -> (r: (u8, bool))
        ensures
            r.0 == add_result(x, y, carry_in),
            r.1 == add_carry(x, y, carry_in),
            *final(self) == (Cpu {
                condition_flags: result_flags(
                    r.0,
                    add_aux_carry(x, y, carry_in),
                    old(self).condition_flags.carry,
                ),
                ..*old(self)
            }),
    {
        let cin: u16 = if carry_in {
            1
        } else {
            0
        };
        self.condition_flags.aux_carry = (x % 16) as u16 + (y % 16) as u16 + cin > 15;
        let sum: u16 = x as u16 + y as u16 + cin;
        let result = (sum % 256) as u8;
        self.update_parity_zero_sign_flags(result);
        (result, sum > 255)
    }

    /// Subtracts `y` and the borrow in from `x` by adding the complement of
    /// `y` with the inverted borrow; sets sign, zero, parity and auxiliary
    /// carry, and returns the difference modulo 256 with the borrow out.
    fn subtract(&mut self, x: u8, y: u8, borrow_in: bool) -> (r: (u8, bool))
        ensures
            r.0 == sub_result(x, y, borrow_in),
            r.1 == sub_borrow(x, y, borrow_in),
            *final(self) == (Cpu {
                condition_flags: result_flags(
                    r.0,
                    sub_aux_carry(x, y, borrow_in),
                    old(self).condition_flags.carry,
                ),
                ..*old(self)
            }),
    {
        assert(!y == 255 - y) by (bit_vector);
        proof {
            let cb = carry_bit(borrow_in);
            assert(carry_bit(!borrow_in) == 1 - cb);
            assert((255 - y) % 16 == 15 - y % 16);
            let t: int = x - y - cb;
            assert((x + (255 - y) + (1 - cb)) % 256 == t % 256) by {
                assert(x + (255 - y) + (1 - cb) == t + 256);
                if t >= 0 {
                    assert((t + 256) % 256 == t);
                } else {
                    assert((t + 256) % 256 == t + 256);
                }
            }
        }
        let (result, carry_out) = self.add(x, !y, !borrow_in);
        (result, !carry_out)
    }

    /// ANA: ands `byte` into A. The auxiliary carry becomes the or of bit 3
    /// of the two operands (the behavior of the 1981 manual, which the
    /// standard CPU exercisers expect), and the carry is cleared.
    fn logical_and(&mut self, byte: u8)
        ensures
            *final(self) == alu(*old(self), 4, byte),
    {
        proof {
            reveal(alu);
        }
        self.condition_flags.carry = false;
        self.condition_flags.aux_carry = (self.a | byte) & 0x08 != 0;
        let result = self.a & byte;
        self.update_parity_zero_sign_flags(result);
        self.a = result;
    }

    /// ORA: ors `byte` into A; carry and auxiliary carry are cleared.
    fn logical_or(&mut self, byte: u8)
        ensures
            *final(self) == alu(*old(self), 6, byte),
    {
        proof {
            reveal(alu);
        }
        self.condition_flags.carry = false;
        self.condition_flags.aux_carry = false;
        let result = self.a | byte;
        self.update_parity_zero_sign_flags(result);
        self.a = result;
    }

    /// XRA: exclusive-ors `byte` into A; carry and auxiliary carry are cleared.
    fn logical_xor(&mut self, byte: u8)
        ensures
            *final(self) == alu(*old(self), 5, byte),
    {
        proof {
            reveal(alu);
        }
        self.condition_flags.carry = false;
        self.condition_flags.aux_carry = false;
        let result = self.a ^ byte;
        self.update_parity_zero_sign_flags(result);
        self.a = result;
    }

    /// The accumulator operation `op` (0 ADD, 1 ADC, 2 SUB, 3 SBB, 4 ANA,
    /// 5 XRA, 6 ORA, 7 CMP) on A and `v`.
    fn execute_alu(&mut self, op: u8, v: u8)
        requires
            op < 8,
        ensures
            *final(self) == alu(*old(self), op, v),
    {
        proof {
            reveal(alu);
        }
        match op {
            0 | 1 => {
                let carry_in = op == 1 && self.condition_flags.carry;
                let (result, carry_out) = self.add(self.a, v, carry_in);
                self.condition_flags.carry = carry_out;
                self.a = result;
            },
            2 | 3 => {
                let borrow_in = op == 3 && self.condition_flags.carry;
                let (result, borrow_out) = self.subtract(self.a, v, borrow_in);
                self.condition_flags.carry = borrow_out;
                self.a = result;
            },
            4 => self.logical_and(v),
            5 => self.logical_xor(v),
            6 => self.logical_or(v),
            _ => {
                let (_, borrow_out) = self.subtract(self.a, v, false);
                self.condition_flags.carry = borrow_out;
            },
        }
    }

    /// Pushes the address of the next instruction and jumps to the address
    /// that the instruction holds.
    fn call(&mut self, instruction: Instruction, memory: &mut Memory)
        ensures
            (*final(self), final(memory)@) == call(
                *old(self),
                old(memory)@,
                word(instruction[2], instruction[1]),
            ),
    {
        let pc = self.pc;
        self.push_word(pc, memory);
        self.pc = make_word(instruction[2], instruction[1]);
    }

    /// RST: pushes the address of the next instruction and jumps to
    /// `instruction & 0x38`.
    fn restart(&mut self, instruction: u8, memory: &mut Memory)
        ensures
            (*final(self), final(memory)@) == call(
                *old(self),
                old(memory)@,
                (instruction & 0x38) as u16,
            ),
    {
        let pc = self.pc;
        self.push_word(pc, memory);
        self.pc = (instruction & 0x38) as u16;
    }

    /// Pops the return address into PC.
    fn ret(&mut self, memory: &Memory)
        ensures
            *final(self) == ret(*old(self), memory@),
    {
        self.pc = self.top_word(memory);
        self.sp = self.sp.wrapping_add(2);
    }
}

impl Cpu {
    /// DAA: adjusts A to two binary-coded decimal digits.
    fn decimal_adjust(&mut self)
        ensures
            *final(self) == decimal_adjust(*old(self)),
    {
        proof {
            reveal(decimal_adjust);
        }
        let a0 = self.a;
        let low = a0 % 16 > 9 || self.condition_flags.aux_carry;
        let a1: u8 = if low {
            ((a0 as u16 + 6) % 256) as u8
        } else {
            a0
        };
        let carry1 = if low && a0 as u16 + 6 > 255 {
            true
        } else {
            self.condition_flags.carry
        };
        let aux1 = if low {
            a0 % 16 + 6 > 15
        } else {
            self.condition_flags.aux_carry
        };
        let high = a1 / 16 > 9 || carry1;
        let a2: u8 = if high {
            ((a1 as u16 + 0x60) % 256) as u8
        } else {
            a1
        };
        self.condition_flags.aux_carry = aux1;
        self.condition_flags.carry = high || carry1;
        self.update_parity_zero_sign_flags(a2);
        self.a = a2;
    }

    /// The one-byte operations on A and the carry flag, selected by bits 3
    /// to 5 of the opcode: RLC, RRC, RAL, RAR, DAA, CMA, STC, CMC.
    fn execute_accumulator_op(&mut self, op: u8)
        requires
            op < 8,
        ensures
            *final(self) == accumulator_op(*old(self), op),
    {
        proof {
            reveal(accumulator_op);
        }
        let a = self.a;
        let carry = self.condition_flags.carry;
        match op {
            // RLC
            0 => {
                self.condition_flags.carry = a >= 0x80;
                self.a = a.wrapping_mul(2) + a / 128;
            },
            // RRC
            1 => {
                self.condition_flags.carry = a % 2 == 1;
                self.a = a / 2 + (a % 2) * 128;
            },
            // RAL
            2 => {
                self.condition_flags.carry = a >= 0x80;
                self.a = a.wrapping_mul(2) + if carry {
                    1
                } else {
                    0
                };
            },
            // RAR
            3 => {
                self.condition_flags.carry = a % 2 == 1;
                self.a = a / 2 + if carry {
                    0x80
                } else {
                    0
                };
            },
            4 => self.decimal_adjust(),
            // CMA
            5 => self.a = !a,
            // STC
            6 => self.condition_flags.carry = true,
            // CMC
            _ => self.condition_flags.carry = !carry,
        }
    }

    /// STAX, SHLD, STA, LDAX, LHLD and LDA, with `address` the instruction's
    /// 16-bit operand.
    fn execute_load_store(&mut self, op: u8, address: u16, memory: &mut Memory) -> (states: u32)
        ensures
            (*final(self), final(memory)@, states) == load_store(
                *old(self),
                old(memory)@,
                op,
                address,
            ),
    {
        proof {
            reveal(load_store);
        }
        match op {
            0x02 => {
                memory.write(make_word(self.b, self.c), self.a);
                7
            },
            0x12 => {
                memory.write(make_word(self.d, self.e), self.a);
                7
            },
            0x22 => {
                memory.write(address, self.l);
                memory.write(address.wrapping_add(1), self.h);
                16
            },
            0x32 => {
                memory.write(address, self.a);
                13
            },
            0x0A => {
                self.a = memory.read(make_word(self.b, self.c));
                7
            },
            0x1A => {
                self.a = memory.read(make_word(self.d, self.e));
                7
            },
            0x2A => {
                self.l = memory.read(address);
                self.h = memory.read(address.wrapping_add(1));
                16
            },
            _ => {
                self.a = memory.read(address);
                13
            },
        }
    }

    /// DAD: adds `v` to HL; the carry flag takes the carry out of bit 15.
    fn add_to_hl(&mut self, v: u16)
        ensures
            *final(self) == (Cpu {
                h: high_byte(wrap16(old(self).hl() + v)),
                l: low_byte(wrap16(old(self).hl() + v)),
                condition_flags: ConditionFlags {
                    carry: old(self).hl() + v > 0xFFFF,
                    ..old(self).condition_flags
                },
                ..*old(self)
            }),
    {
        let sum: u32 = make_word(self.h, self.l) as u32 + v as u32;
        let result = (sum % 65536) as u16;
        self.condition_flags.carry = sum > 0xFFFF;
        self.h = (result / 256) as u8;
        self.l = (result % 256) as u8;
    }

    /// INX (`up`) or DCX: adds or subtracts 1 from register pair `rp`
    /// (3 is SP), modulo 2^16.
    fn step_register_pair(&mut self, rp: u8, up: bool)
        ensures
            *final(self) == set_pair(
                *old(self),
                rp,
                if up {
                    wrap16(pair(*old(self), rp) + 1)
                } else {
                    wrap16(pair(*old(self), rp) - 1)
                },
            ),
    {
        let v = self.register_pair(rp);
        let next = if up {
            v.wrapping_add(1)
        } else {
            v.wrapping_sub(1)
        };
        self.set_register_pair(rp, next);
    }

    /// LXI, DAD, INX and DCX: the opcodes below 0x40 that end in 1 or 3.
    fn execute_pair_op(&mut self, op: u8, imm: u16) -> (states: u32)
        requires
            op < 0x40,
            op % 8 == 1 || op % 8 == 3,
        ensures
            (*final(self), states) == pair_op(*old(self), op, imm),
    {
        proof {
            reveal(pair_op);
        }
        let rp = op / 16;
        if op % 16 == 1 {
            // LXI rp
            self.set_register_pair(rp, imm);
            10
        } else if op % 16 == 9 {
            // DAD rp
            let v = self.register_pair(rp);
            self.add_to_hl(v);
            10
        } else {
            // INX rp, DCX rp
            self.step_register_pair(rp, op % 16 == 3);
            5
        }
    }

    /// INR, DCR and MVI: the opcodes below 0x40 that end in 4, 5 or 6.
    fn execute_register_op(&mut self, op: u8, b1: u8, memory: &mut Memory) -> (states: u32)
        requires
            op < 0x40,
            4 <= op % 8 <= 6,
        ensures
            (*final(self), final(memory)@, states) == register_op(*old(self), old(memory)@, op, b1),
    {
        proof {
            reveal(register_op);
        }
        let r = op / 8;
        let v = self.read_register(r, memory);
        if op % 8 == 4 {
            // INR r
            let (result, _) = self.add(v, 1, false);
            self.write_register(r, result, memory);
        } else if op % 8 == 5 {
            // DCR r
            let (result, _) = self.subtract(v, 1, false);
            self.write_register(r, result, memory);
        } else {
            // MVI r
            self.write_register(r, b1, memory);
            return if r == 6 {
                10
            } else {
                7
            };
        }
        if r == 6 {
            10
        } else {
            5
        }
    }

    /// The opcodes 0x00 to 0x3F.
    fn execute_low(&mut self, op: u8, b1: u8, b2: u8, memory: &mut Memory) -> (states: u32)
        requires
            op < 0x40,
        ensures
            (*final(self), final(memory)@, states) == execute_low(
                *old(self),
                old(memory)@,
                op,
                b1,
                b2,
            ),
    {
        proof {
            reveal(execute_low);
        }
        let low3 = op % 8;
        if low3 == 0 {
            // NOP
            4
        } else if low3 == 1 || low3 == 3 {
            self.execute_pair_op(op, make_word(b2, b1))
        } else if low3 == 2 {
            self.execute_load_store(op, make_word(b2, b1), memory)
        } else if low3 == 7 {
            self.execute_accumulator_op(op / 8);
            4
        } else {
            self.execute_register_op(op, b1, memory)
        }
    }

    /// MOV: the opcodes 0x40 to 0x7F but 0x76.
    fn execute_move(&mut self, op: u8, memory: &mut Memory) -> (states: u32)
        requires
            0x40 <= op < 0x80,
        ensures
            (*final(self), final(memory)@, states) == execute_move(*old(self), old(memory)@, op),
    {
        proof {
            reveal(execute_move);
        }
        let dst = (op / 8) % 8;
        let src = op % 8;
        let v = self.read_register(src, memory);
        self.write_register(dst, v, memory);
        if dst == 6 || src == 6 {
            7
        } else {
            5
        }
    }
}

impl Cpu {
    /// Whether condition `cc` (0 NZ, 1 Z, 2 NC, 3 C, 4 PO, 5 PE, 6 P, 7 M) holds.
    fn condition_holds(&self, cc: u8) -> (r: bool)
        ensures
            r == condition(self.condition_flags, cc),
    {
        let f = self.condition_flags;
        match cc {
            0 => !f.zero,
            1 => f.zero,
            2 => !f.carry,
            3 => f.carry,
            4 => !f.parity,
            5 => f.parity,
            6 => !f.sign,
            _ => f.sign,
        }
    }

    /// Rcc, Jcc and Ccc.
    fn execute_conditional(&mut self, instruction: Instruction, memory: &mut Memory) -> (states:
        u32)
        requires
            instruction[0] >= 0xC0,
            instruction[0] % 8 == 0 || instruction[0] % 8 == 2 || instruction[0] % 8 == 4,
        ensures
            (*final(self), final(memory)@, states) == conditional_op(
                *old(self),
                old(memory)@,
                instruction[0],
                word(instruction[2], instruction[1]),
            ),
    {
        proof {
            reveal(conditional_op);
        }
        let op = instruction[0];
        let taken = self.condition_holds((op / 8) % 8);
        if op % 8 == 0 {
            if taken {
                self.ret(memory);
                11
            } else {
                5
            }
        } else if op % 8 == 2 {
            if taken {
                self.pc = make_word(instruction[2], instruction[1]);
            }
            10
        } else {
            if taken {
                self.call(instruction, memory);
                17
            } else {
                11
            }
        }
    }

    /// POP, RET, PCHL and SPHL.
    fn execute_pop(&mut self, op: u8, memory: &Memory) -> (states: u32)
        requires
            op >= 0xC0,
            op % 8 == 1,
        ensures
            (*final(self), states) == pop_op(*old(self), memory@, op),
    {
        proof {
            reveal(pop_op);
        }
        if op % 16 == 1 {
            let rp = (op / 16) % 4;
            if rp == 3 {
                // POP PSW
                self.condition_flags = ConditionFlags::from_bits_truncate(memory.read(self.sp));
                self.a = memory.read(self.sp.wrapping_add(1));
                self.sp = self.sp.wrapping_add(2);
            } else {
                let v = self.top_word(memory);
                self.sp = self.sp.wrapping_add(2);
                self.set_register_pair(rp, v);
            }
            10
        } else if op == 0xE9 {
            // PCHL
            self.pc = make_word(self.h, self.l);
            5
        } else if op == 0xF9 {
            // SPHL
            self.sp = make_word(self.h, self.l);
            5
        } else {
            // RET
            self.ret(memory);
            10
        }
    }

    /// PUSH and CALL.
    fn execute_push(&mut self, instruction: Instruction, memory: &mut Memory) -> (states: u32)
        requires
            instruction[0] >= 0xC0,
            instruction[0] % 8 == 5,
        ensures
            (*final(self), final(memory)@, states) == push_op(
                *old(self),
                old(memory)@,
                instruction[0],
                word(instruction[2], instruction[1]),
            ),
    {
        proof {
            reveal(push_op);
        }
        let op = instruction[0];
        if op % 16 == 5 {
            let rp = (op / 16) % 4;
            let v = if rp == 3 {
                // PUSH PSW
                make_word(self.a, self.condition_flags.bits())
            } else {
                self.register_pair(rp)
            };
            self.push_word(v, memory);
            11
        } else {
            self.call(instruction, memory);
            17
        }
    }

    /// JMP, OUT, XTHL, DI, IN, XCHG and EI.
    fn execute_special(&mut self, op: u8, imm: u16, memory: &mut Memory) -> (states: u32)
        requires
            op >= 0xC0,
            op % 8 == 3,
        ensures
            (*final(self), final(memory)@, states) == special_op(
                *old(self),
                old(memory)@,
                op,
                imm,
            ),
    {
        proof {
            reveal(special_op);
        }
        if op == 0xE3 {
            // XTHL
            let sp = self.sp;
            let l = self.l;
            let h = self.h;
            self.l = memory.read(sp);
            self.h = memory.read(sp.wrapping_add(1));
            memory.write(sp, l);
            memory.write(sp.wrapping_add(1), h);
            18
        } else if op == 0xEB {
            // XCHG
            let (h, l) = (self.h, self.l);
            self.h = self.d;
            self.l = self.e;
            self.d = h;
            self.e = l;
            4
        } else if op == 0xF3 {
            // DI
            self.interruptable = Interruptable::Disabled;
            4
        } else if op == 0xFB {
            // EI
            if self.interruptable == Interruptable::Disabled {
                self.interruptable = Interruptable::Enabling;
            }
            4
        } else if op == 0xD3 || op == 0xDB {
            // OUT and IN: no device is attached.
            10
        } else {
            // JMP
            self.pc = imm;
            10
        }
    }

    /// The opcodes 0xC0 to 0xFF.
    fn execute_high(&mut self, instruction: Instruction, memory: &mut Memory) -> (states: u32)
        requires
            instruction[0] >= 0xC0,
        ensures
            (*final(self), final(memory)@, states) == execute_high(
                *old(self),
                old(memory)@,
                instruction[0],
                instruction[1],
                instruction[2],
            ),
    {
        proof {
            reveal(execute_high);
        }
        let op = instruction[0];
        let low3 = op % 8;
        if low3 == 0 || low3 == 2 || low3 == 4 {
            self.execute_conditional(instruction, memory)
        } else if low3 == 1 {
            self.execute_pop(op, memory)
        } else if low3 == 3 {
            self.execute_special(op, make_word(instruction[2], instruction[1]), memory)
        } else if low3 == 5 {
            self.execute_push(instruction, memory)
        } else if low3 == 6 {
            self.execute_alu((op / 8) % 8, instruction[1]);
            7
        } else {
            self.restart(op, memory);
            11
        }
    }
}

impl Default for Cpu {
    /// The CPU at reset.
    fn default() -> (r: Cpu)
        ensures
            r == Cpu::initial(),
    {
        Cpu {
            pc: 0,
            sp: 0,
            b: 0,
            c: 0,
            d: 0,
            e: 0,
            h: 0,
            l: 0,
            a: 0,
            condition_flags: ConditionFlags::new(),
            interruptable: Interruptable::Disabled,
            is_halted: false,
        }
    }
}

} // verus!
