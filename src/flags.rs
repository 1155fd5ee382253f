//! The condition flags of the 8080 and the pure rules that compute them.
use vstd::prelude::*;

verus! {

/// One of the five condition flags.
#[derive(Clone, Copy, Debug, PartialEq, Eq, Structural)]
pub enum Flag {
    Carry,
    Parity,
    AuxCarry,
    Zero,
    Sign,
}

/// The condition flags. In the flags byte they take these bits:
///
/// | bit  | 7 | 6 | 5 | 4  | 3 | 2 | 1 | 0 |
/// |------|---|---|---|----|---|---|---|---|
/// | flag | S | Z | 0 | AC | 0 | P | 1 | C |
///
/// Bits 5 and 3 are always 0 and bit 1 is always 1, so the byte is computed
/// by `bits` rather than stored.
#[derive(Clone, Copy, Debug, PartialEq, Eq, Structural)]
pub struct ConditionFlags {
    pub sign: bool,
    pub zero: bool,
    pub aux_carry: bool,
    pub parity: bool,
    pub carry: bool,
}

/// The number of one bits of `n`.
pub open spec fn popcount(n: nat) -> nat
    decreases n,
{
    if n == 0 {
        0
    } else {
        n % 2 + popcount(n / 2)
    }
}

/// Whether `r` has an even number of one bits (the parity flag's rule).
pub open spec fn even_parity(r: u8) -> bool {
    popcount(r as nat) % 2 == 0
}

/// Sign, zero and parity taken from `r`, with the given auxiliary carry and carry.
pub open spec fn result_flags(r: u8, aux_carry: bool, carry: bool) -> ConditionFlags {
    ConditionFlags { sign: r >= 0x80, zero: r == 0, aux_carry, parity: even_parity(r), carry }
}

/// 1 for a set carry (or borrow), 0 for a clear one.
pub open spec fn carry_bit(c: bool) -> int {
    if c {
        1
    } else {
        0
    }
}

/// `x + y + carry_in` modulo 256.
pub open spec fn add_result(x: u8, y: u8, carry_in: bool) -> u8 {
    ((x + y + carry_bit(carry_in)) % 256) as u8
}

/// Whether `x + y + carry_in` carries out of bit 7.
pub open spec fn add_carry(x: u8, y: u8, carry_in: bool) -> bool {
    x + y + carry_bit(carry_in) > 255
}

/// Whether `x + y + carry_in` carries out of bit 3.
pub open spec fn add_aux_carry(x: u8, y: u8, carry_in: bool) -> bool {
    x % 16 + y % 16 + carry_bit(carry_in) > 15
}

/// `x - y - borrow_in` modulo 256.
pub open spec fn sub_result(x: u8, y: u8, borrow_in: bool) -> u8 {
    ((x - y - carry_bit(borrow_in)) % 256) as u8
}

/// Whether `x - y - borrow_in` borrows (the carry flag of a subtraction).
pub open spec fn sub_borrow(x: u8, y: u8, borrow_in: bool) -> bool {
    x < y + carry_bit(borrow_in)
}

/// The auxiliary carry of a subtraction. The 8080 subtracts by adding the
/// complement of `y` with the inverted borrow, so this is the carry out of
/// bit 3 of that addition: set when the low nibble does not borrow.
pub open spec fn sub_aux_carry(x: u8, y: u8, borrow_in: bool) -> bool {
    x % 16 >= y % 16 + carry_bit(borrow_in)
}

/// The flags byte of `f`.
pub open spec fn flags_byte(f: ConditionFlags) -> u8 {
    (if f.sign { 0x80u8 } else { 0u8 }) | (if f.zero { 0x40u8 } else { 0u8 }) | (if f.aux_carry {
        0x10u8
    } else {
        0u8
    }) | (if f.parity { 0x04u8 } else { 0u8 }) | 0x02u8 | (if f.carry { 0x01u8 } else { 0u8 })
}

/// The flags that a byte holds; the bits that no flag owns are ignored.
pub open spec fn flags_of_byte(b: u8) -> ConditionFlags {
    ConditionFlags {
        sign: b & 0x80 != 0,
        zero: b & 0x40 != 0,
        aux_carry: b & 0x10 != 0,
        parity: b & 0x04 != 0,
        carry: b & 0x01 != 0,
    }
}

/// A flags byte with bit 1 set and bits 3 and 5 clear.
pub open spec fn valid_flags_byte(b: u8) -> bool {
    b & 0x02 == 0x02 && b & 0x28 == 0
}

/// `b` with bit 1 forced on and bits 3 and 5 forced off.
pub open spec fn mask_flags_byte(b: u8) -> u8 {
    (b | 0x02) & 0xD7
}

impl ConditionFlags {
    pub const CARRY: Flag = Flag::Carry;

    pub const PARITY: Flag = Flag::Parity;

    pub const AUX_CARRY: Flag = Flag::AuxCarry;

    pub const ZERO: Flag = Flag::Zero;

    pub const SIGN: Flag = Flag::Sign;

    /// The value of one flag.
    pub open spec fn get(self, flag: Flag) -> bool {
        match flag {
            Flag::Carry => self.carry,
            Flag::Parity => self.parity,
            Flag::AuxCarry => self.aux_carry,
            Flag::Zero => self.zero,
            Flag::Sign => self.sign,
        }
    }

    /// These flags with one flag given `value`.
    pub open spec fn with(self, flag: Flag, value: bool) -> ConditionFlags {
        match flag {
            Flag::Carry => ConditionFlags { carry: value, ..self },
            Flag::Parity => ConditionFlags { parity: value, ..self },
            Flag::AuxCarry => ConditionFlags { aux_carry: value, ..self },
            Flag::Zero => ConditionFlags { zero: value, ..self },
            Flag::Sign => ConditionFlags { sign: value, ..self },
        }
    }

    /// All flags clear.
    pub open spec fn cleared() -> ConditionFlags {
        ConditionFlags { sign: false, zero: false, aux_carry: false, parity: false, carry: false }
    }

    /// All flags clear (the flags byte is then 0x02).
    pub fn new() -> (r: ConditionFlags)
        ensures
            r == ConditionFlags::cleared(),
    {
        ConditionFlags { sign: false, zero: false, aux_carry: false, parity: false, carry: false }
    }

    /// Whether `flag` is set.
    pub fn contains(&self, flag: Flag) -> (r: bool)
        ensures
            r == self.get(flag),
    {
        match flag {
            Flag::Carry => self.carry,
            Flag::Parity => self.parity,
            Flag::AuxCarry => self.aux_carry,
            Flag::Zero => self.zero,
            Flag::Sign => self.sign,
        }
    }

    /// Gives `flag` the value `value`, leaving the other flags alone.
    pub fn set(&mut self, flag: Flag, value: bool)
        ensures
            *final(self) == old(self).with(flag, value),
    {
        match flag {
            Flag::Carry => self.carry = value,
            Flag::Parity => self.parity = value,
            Flag::AuxCarry => self.aux_carry = value,
            Flag::Zero => self.zero = value,
            Flag::Sign => self.sign = value,
        }
    }

    /// Sets `flag`.
    pub fn insert(&mut self, flag: Flag)
        ensures
            *final(self) == old(self).with(flag, true),
    {
        self.set(flag, true);
    }

    /// Clears `flag`.
    pub fn remove(&mut self, flag: Flag)
        ensures
            *final(self) == old(self).with(flag, false),
    {
        self.set(flag, false);
    }

    /// Inverts `flag`.
    pub fn toggle(&mut self, flag: Flag)
        ensures
            *final(self) == old(self).with(flag, !old(self).get(flag)),
    {
        let value = !self.contains(flag);
        self.set(flag, value);
    }

    /// The flags byte.
    pub fn bits(&self) -> (r: u8)
        ensures
            r == flags_byte(*self),
            valid_flags_byte(r),
    {
        proof {
            lemma_flags_byte_valid(*self);
        }
        (if self.sign { 0x80u8 } else { 0u8 }) | (if self.zero { 0x40u8 } else { 0u8 }) | (
        if self.aux_carry {
            0x10u8
        } else {
            0u8
        }) | (if self.parity { 0x04u8 } else { 0u8 }) | 0x02u8 | (if self.carry {
            0x01u8
        } else {
            0u8
        })
    }

    /// The flags held in a flags byte; bits 5, 3 and 1 are ignored.
    pub fn from_bits_truncate(b: u8) -> (r: ConditionFlags)
        ensures
            r == flags_of_byte(b),
            flags_byte(r) == mask_flags_byte(b),
    {
        proof {
            lemma_flags_of_byte_masks(b);
        }
        ConditionFlags {
            sign: b & 0x80 != 0,
            zero: b & 0x40 != 0,
            aux_carry: b & 0x10 != 0,
            parity: b & 0x04 != 0,
            carry: b & 0x01 != 0,
        }
    }
}

impl Default for ConditionFlags {
    /// All flags clear.
    fn default() -> (r: ConditionFlags)
        ensures
            r == ConditionFlags::cleared(),
    {
        ConditionFlags::new()
    }
}

/// Every flags byte has bit 1 set and bits 3 and 5 clear.
pub proof fn lemma_flags_byte_valid(f: ConditionFlags)
    ensures
        valid_flags_byte(flags_byte(f)),
{
    let (s, z, a, p, c) = (f.sign, f.zero, f.aux_carry, f.parity, f.carry);
    assert(((if s { 0x80u8 } else { 0u8 }) | (if z { 0x40u8 } else { 0u8 }) | (if a {
        0x10u8
    } else {
        0u8
    }) | (if p { 0x04u8 } else { 0u8 }) | 0x02u8 | (if c { 0x01u8 } else { 0u8 })) & 0x02 == 0x02
        && ((if s { 0x80u8 } else { 0u8 }) | (if z { 0x40u8 } else { 0u8 }) | (if a {
        0x10u8
    } else {
        0u8
    }) | (if p { 0x04u8 } else { 0u8 }) | 0x02u8 | (if c { 0x01u8 } else { 0u8 })) & 0x28 == 0)
        by (bit_vector);
}

/// Reading the flags back from their byte gives the same flags.
pub proof fn lemma_flags_byte_round_trip(f: ConditionFlags)
    ensures
        flags_of_byte(flags_byte(f)) == f,
{
    let (s, z, a, p, c) = (f.sign, f.zero, f.aux_carry, f.parity, f.carry);
    let b = flags_byte(f);
    assert(b == ((if s { 0x80u8 } else { 0u8 }) | (if z { 0x40u8 } else { 0u8 }) | (if a {
        0x10u8
    } else {
        0u8
    }) | (if p { 0x04u8 } else { 0u8 }) | 0x02u8 | (if c { 0x01u8 } else { 0u8 })));
    assert((b & 0x80 != 0) == s && (b & 0x40 != 0) == z && (b & 0x10 != 0) == a && (b & 0x04
        != 0) == p && (b & 0x01 != 0) == c) by (bit_vector)
        requires
            b == ((if s { 0x80u8 } else { 0u8 }) | (if z { 0x40u8 } else { 0u8 }) | (if a {
                0x10u8
            } else {
                0u8
            }) | (if p { 0x04u8 } else { 0u8 }) | 0x02u8 | (if c { 0x01u8 } else { 0u8 })),
    ;
}

/// The byte of the flags read from `b` is `b` masked to the valid bits.
pub proof fn lemma_flags_of_byte_masks(b: u8)
    ensures
        flags_byte(flags_of_byte(b)) == mask_flags_byte(b),
{
    assert(((if b & 0x80 != 0 { 0x80u8 } else { 0u8 }) | (if b & 0x40 != 0 {
        0x40u8
    } else {
        0u8
    }) | (if b & 0x10 != 0 { 0x10u8 } else { 0u8 }) | (if b & 0x04 != 0 {
        0x04u8
    } else {
        0u8
    }) | 0x02u8 | (if b & 0x01 != 0 { 0x01u8 } else { 0u8 })) == (b | 0x02) & 0xD7)
        by (bit_vector);
}

/// Computes the parity flag of `r`: true when `r` has an even number of one bits.
pub fn has_even_parity(r: u8) -> (p: bool)
    ensures
        p == even_parity(r),
{
    let mut x: u8 = r;
    let mut odd: bool = false;
    while x > 0
        invariant
            (popcount(x as nat) + if odd { 1nat } else { 0nat }) % 2 == popcount(r as nat) % 2,
        decreases x,
    {
        if x % 2 == 1 {
            odd = !odd;
        }
        x = x / 2;
    }
    !odd
}

} // verus!
