//! The execution core: one register file and one memory, and one operation
//! per instruction class. Every flag rule is stated over the unsigned-byte
//! and signed-byte reinterpretations of the same 8-bit result.

use vstd::prelude::*;

use crate::memory::{Memory, MEMORY_SIZE};
use crate::registers::{
    ps_carry, ps_negative, ps_overflow, ps_zero, Registers, Status, StatusArgs,
};

verus! {

/// The unsigned-byte reinterpretation of a signed 8-bit value: the same bit
/// pattern read as 0..=255.
pub open spec fn byte_of(x: i8) -> u8 {
    if x >= 0 {
        x as u8
    } else {
        (x + 256) as u8
    }
}

/// The signed reinterpretation of an unsigned byte: the same bit pattern
/// read as -128..=127.
pub open spec fn signed_of(b: u8) -> i8 {
    if b < 128 {
        b as i8
    } else {
        (b - 256) as i8
    }
}

/// The accumulator after add-with-carry, as an unsigned byte: the unsigned
/// sum of the three operands, wrapped at 256.
pub open spec fn adc_byte(a: i8, c: int, v: i8) -> int {
    (byte_of(a) + c + byte_of(v)) % 256
}

/// Signed overflow of add-with-carry: two same-signed operands produced a
/// result of the opposite sign.
pub open spec fn adc_overflow(a: i8, v: i8, result: i8) -> bool {
    (a < 0 && v < 0 && result >= 0) || (a >= 0 && v >= 0 && result < 0)
}

/// Reinterpret a signed 8-bit value as its unsigned byte.
fn to_byte(x: i8) -> (r: u8)
    ensures
        r == byte_of(x),
{
    if x >= 0 {
        x as u8
    } else {
        ((x as i16) + 256) as u8
    }
}

/// Reinterpret an unsigned byte as a signed 8-bit value.
fn to_signed(b: u8) -> (r: i8)
    ensures
        r == signed_of(b),
{
    if b < 128 {
        b as i8
    } else {
        ((b as i16) - 256) as i8
    }
}

/// The two reinterpretations invert each other.
proof fn lemma_byte_signed_inverse(b: u8)
    ensures
        byte_of(signed_of(b)) == b,
{
}

/// The execution core: exclusive owner of one register file and one memory.
pub struct Machine {
    pub registers: Registers,
    pub memory: Memory,
}

impl Machine {
    /// Every register, every flag and every memory byte is zero.
    pub open spec fn is_zeroed(self) -> bool {
        &&& self.registers.is_zeroed()
        &&& self.memory.wf()
        &&& forall|i: int| 0 <= i < MEMORY_SIZE ==> self.memory@[i] == 0u8
    }

    /// A machine with zero-initialized registers and memory.
    pub fn new() -> (r: Machine)
        ensures
            r.is_zeroed(),
    {
        Machine { registers: Registers::new(), memory: Memory::new() }
    }

    /// Discard all state and rebuild it from scratch: afterwards the machine
    /// is indistinguishable from a newly constructed one.
    pub fn reset(&mut self)
        ensures
            final(self).is_zeroed(),
    {
        *self = Machine::new();
    }

    /// Add-with-carry: accumulator := accumulator + carry + operand, with
    /// 8-bit wraparound. Negative and zero track the result through the
    /// shared tail; carry reports the unsigned wrap past 255; overflow
    /// reports a sign-incorrect result from same-signed operands. The four
    /// other flags, the other registers and the memory are untouched.
    pub fn add_with_carry(&mut self, value: i8)
        ensures
            ({
                let a = old(self).registers.accumulator;
                let c = old(self).registers.status.carry_bit();
                let r = final(self).registers.accumulator;
                &&& byte_of(r) == adc_byte(a, c, value)
                &&& r == signed_of(adc_byte(a, c, value) as u8)
                &&& final(self).registers.status.has(ps_negative) == (r < 0)
                &&& final(self).registers.status.has(ps_zero) == (r == 0)
                &&& final(self).registers.status.has(ps_carry) == (byte_of(r) < byte_of(a))
                &&& final(self).registers.status.has(ps_overflow) == adc_overflow(a, value, r)
            }),
            final(self).registers.status.bits & !(ps_negative | ps_overflow | ps_zero | ps_carry)
                == old(self).registers.status.bits & !(ps_negative | ps_overflow | ps_zero
                | ps_carry),
            final(self).registers.index_x == old(self).registers.index_x,
            final(self).registers.index_y == old(self).registers.index_y,
            final(self).registers.stack_pointer == old(self).registers.stack_pointer,
            final(self).registers.program_counter == old(self).registers.program_counter,
            final(self).memory == old(self).memory,
    {
        let a_before: i8 = self.registers.accumulator;
        let c_before: i8 = self.registers.status.get_carry();
        let a_byte: u8 = to_byte(a_before);
        let v_byte: u8 = to_byte(value);
        let sum_byte: u8 = a_byte.wrapping_add(c_before as u8).wrapping_add(v_byte);
        let a_after: i8 = to_signed(sum_byte);

        proof {
            lemma_byte_signed_inverse(sum_byte);
            lemma_wrap_is_mod(a_byte, c_before as u8, v_byte, sum_byte);
        }

        self.registers.status.set_sign_and_zero_from_val(a_after);

        proof {
            let ob = old(self).registers.status.bits;
            let mb = self.registers.status.bits;
            assert(mb & !(ps_negative | ps_zero) == ob & !(ps_negative | ps_zero) ==> mb & !(
            ps_negative | ps_overflow | ps_zero | ps_carry) == ob & !(ps_negative | ps_overflow
                | ps_zero | ps_carry)) by (bit_vector);
        }

        let did_carry = sum_byte < a_byte;
        let did_overflow = (a_before < 0 && value < 0 && a_after >= 0) || (a_before >= 0 && value
            >= 0 && a_after < 0);

        let mut args = StatusArgs::none();
        args.carry = did_carry;
        args.overflow = did_overflow;
        let flag_values = Status::new(args);
        proof {
            lemma_mask_carry_overflow(
                self.registers.status.bits,
                flag_values.bits,
                did_carry,
                did_overflow,
            );
        }
        self.registers.status.set_with_mask(ps_carry | ps_overflow, flag_values);

        self.registers.accumulator = a_after;
    }

    /// Bitwise AND: accumulator := accumulator & operand on the unsigned
    /// bytes, reinterpreted back as signed. Negative and zero track the
    /// result through the shared tail; carry, overflow and the four other
    /// flags are untouched, as are the other registers and the memory.
    pub fn bitwise_and(&mut self, x: i8)
        ensures
            ({
                let a = old(self).registers.accumulator;
                let r = final(self).registers.accumulator;
                &&& r == signed_of(byte_of(a) & byte_of(x))
                &&& byte_of(r) == byte_of(a) & byte_of(x)
                &&& final(self).registers.status.has(ps_negative) == (r < 0)
                &&& final(self).registers.status.has(ps_zero) == (r == 0)
            }),
            final(self).registers.status.has(ps_carry) == old(self).registers.status.has(ps_carry),
            final(self).registers.status.has(ps_overflow) == old(self).registers.status.has(
                ps_overflow,
            ),
            final(self).registers.status.bits & !(ps_negative | ps_zero) == old(
                self,
            ).registers.status.bits & !(ps_negative | ps_zero),
            final(self).registers.index_x == old(self).registers.index_x,
            final(self).registers.index_y == old(self).registers.index_y,
            final(self).registers.stack_pointer == old(self).registers.stack_pointer,
            final(self).registers.program_counter == old(self).registers.program_counter,
            final(self).memory == old(self).memory,
    {
        let a_byte: u8 = to_byte(self.registers.accumulator);
        let x_byte: u8 = to_byte(x);
        let r_byte: u8 = a_byte & x_byte;
        let result: i8 = to_signed(r_byte);
        proof {
            lemma_byte_signed_inverse(r_byte);
        }

        self.registers.status.set_sign_and_zero_from_val(result);
        self.registers.accumulator = result;
    }
}

/// The chain of two wrapping additions equals the unsigned sum of the three
/// operands reduced modulo 256.
proof fn lemma_wrap_is_mod(a: u8, c: u8, v: u8, s: u8)
    requires
        c <= 1,
        s == vstd::wrapping::u8_specs::wrapping_add(
            vstd::wrapping::u8_specs::wrapping_add(a, c),
            v,
        ),
    ensures
        s == (a + c + v) % 256,
{
    let t = a + c + v;
    if t < 256 {
        vstd::arithmetic::div_mod::lemma_small_mod(t as nat, 256);
    } else {
        vstd::arithmetic::div_mod::lemma_mod_add_multiples_vanish(t - 256, 256);
        vstd::arithmetic::div_mod::lemma_small_mod((t - 256) as nat, 256);
    }
}

/// Rewriting through a mask of carry and overflow drives exactly those two
/// flags from the packed values and preserves every other bit.
proof fn lemma_mask_carry_overflow(b: u8, vb: u8, dc: bool, dv: bool)
    requires
        (vb & ps_carry == ps_carry) == dc,
        (vb & ps_overflow == ps_overflow) == dv,
    ensures
        ({
            let f = crate::registers::masked_bits(b, ps_carry | ps_overflow, vb);
            &&& (f & ps_carry == ps_carry) == dc
            &&& (f & ps_overflow == ps_overflow) == dv
            &&& (f & ps_negative == ps_negative) == (b & ps_negative == ps_negative)
            &&& (f & ps_zero == ps_zero) == (b & ps_zero == ps_zero)
            &&& f & !(ps_negative | ps_overflow | ps_zero | ps_carry) == b & !(ps_negative
                | ps_overflow | ps_zero | ps_carry)
        }),
{
    let f = crate::registers::masked_bits(b, ps_carry | ps_overflow, vb);
    assert((((b & !(ps_carry | ps_overflow)) | (vb & (ps_carry | ps_overflow))) & ps_carry
        == ps_carry) == (vb & ps_carry == ps_carry)) by (bit_vector);
    assert((((b & !(ps_carry | ps_overflow)) | (vb & (ps_carry | ps_overflow))) & ps_overflow
        == ps_overflow) == (vb & ps_overflow == ps_overflow)) by (bit_vector);
    assert((((b & !(ps_carry | ps_overflow)) | (vb & (ps_carry | ps_overflow))) & ps_negative
        == ps_negative) == (b & ps_negative == ps_negative)) by (bit_vector);
    assert((((b & !(ps_carry | ps_overflow)) | (vb & (ps_carry | ps_overflow))) & ps_zero
        == ps_zero) == (b & ps_zero == ps_zero)) by (bit_vector);
    assert(((b & !(ps_carry | ps_overflow)) | (vb & (ps_carry | ps_overflow))) & !(ps_negative
        | ps_overflow | ps_zero | ps_carry) == b & !(ps_negative | ps_overflow | ps_zero
        | ps_carry)) by (bit_vector);
}

} // verus!
