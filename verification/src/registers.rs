//! The status register (an 8-bit flag set with masked updates) and the
//! register file that owns it.

use vstd::prelude::*;

verus! {

/// Bit mask of the negative flag: the high bit of the last result.
#[allow(non_upper_case_globals)]
pub const ps_negative: u8 = 0x80;

/// Bit mask of the overflow flag: signed overflow of the last arithmetic result.
#[allow(non_upper_case_globals)]
pub const ps_overflow: u8 = 0x40;

/// Bit mask of the unused flag position (hardware keeps it set; this core
/// never reads it).
#[allow(non_upper_case_globals)]
pub const ps_unused: u8 = 0x20;

/// Bit mask of the break flag.
#[allow(non_upper_case_globals)]
pub const ps_break: u8 = 0x10;

/// Bit mask of the decimal-mode flag (decimal arithmetic itself is out of
/// scope here).
#[allow(non_upper_case_globals)]
pub const ps_decimal: u8 = 0x08;

/// Bit mask of the interrupt-disable flag.
#[allow(non_upper_case_globals)]
pub const ps_interrupt_disable: u8 = 0x04;

/// Bit mask of the zero flag: the last result was zero.
#[allow(non_upper_case_globals)]
pub const ps_zero: u8 = 0x02;

/// Bit mask of the carry flag: unsigned overflow of the last arithmetic
/// result; also an input to add-with-carry.
#[allow(non_upper_case_globals)]
pub const ps_carry: u8 = 0x01;

/// One boolean per status flag, for building a whole `Status` value at once.
#[derive(Clone, Copy, PartialEq, Eq, Structural)]
pub struct StatusArgs {
    pub negative: bool,
    pub overflow: bool,
    pub unused: bool,
    pub brk: bool,
    pub decimal: bool,
    pub interrupt_disable: bool,
    pub zero: bool,
    pub carry: bool,
}

impl StatusArgs {
    /// The byte with exactly the requested flag bits set.
    pub open spec fn spec_bits(self) -> u8 {
        (if self.negative { ps_negative } else { 0 })
        | (if self.overflow { ps_overflow } else { 0 })
        | (if self.unused { ps_unused } else { 0 })
        | (if self.brk { ps_break } else { 0 })
        | (if self.decimal { ps_decimal } else { 0 })
        | (if self.interrupt_disable { ps_interrupt_disable } else { 0 })
        | (if self.zero { ps_zero } else { 0 })
        | (if self.carry { ps_carry } else { 0 })
    }

    /// All flags clear.
    pub fn none() -> (r: StatusArgs)
        ensures
            r == (StatusArgs {
                negative: false,
                overflow: false,
                unused: false,
                brk: false,
                decimal: false,
                interrupt_disable: false,
                zero: false,
                carry: false,
            }),
    {
        StatusArgs {
            negative: false,
            overflow: false,
            unused: false,
            brk: false,
            decimal: false,
            interrupt_disable: false,
            zero: false,
            carry: false,
        }
    }
}

/// The processor status register: eight independent flags packed into one
/// byte. Exactly these eight bits exist; every update is expressed as a
/// masked rewrite of some subset of them.
#[derive(Clone, Copy, PartialEq, Eq, Structural)]
pub struct Status {
    pub bits: u8,
}

/// The byte that a masked update produces: the bits inside `mask` are taken
/// from `values`, the bits outside `mask` are kept from `bits`.
pub open spec fn masked_bits(bits: u8, mask: u8, values: u8) -> u8 {
    (bits & !mask) | (values & mask)
}

/// The byte that the shared sign/zero tail produces: negative tracks the
/// sign of `value`, zero tracks whether `value` is zero, every other bit is
/// kept from `bits`.
pub open spec fn sign_zero_bits(bits: u8, value: i8) -> u8 {
    (bits & !(ps_negative | ps_zero))
    | (if value < 0 { ps_negative } else { 0 })
    | (if value == 0 { ps_zero } else { 0 })
}

/// Each flag of `StatusArgs::spec_bits` lands on its own bit and nowhere
/// else.
proof fn lemma_spec_bits_flags(
    vb: u8,
    n: bool,
    o: bool,
    u: bool,
    bk: bool,
    d: bool,
    ii: bool,
    z: bool,
    c: bool,
)
    by (bit_vector)
    requires
        vb == (if n { ps_negative } else { 0u8 })
            | (if o { ps_overflow } else { 0u8 })
            | (if u { ps_unused } else { 0u8 })
            | (if bk { ps_break } else { 0u8 })
            | (if d { ps_decimal } else { 0u8 })
            | (if ii { ps_interrupt_disable } else { 0u8 })
            | (if z { ps_zero } else { 0u8 })
            | (if c { ps_carry } else { 0u8 }),
    ensures
        (vb & ps_negative == ps_negative) == n,
        (vb & ps_overflow == ps_overflow) == o,
        (vb & ps_unused == ps_unused) == u,
        (vb & ps_break == ps_break) == bk,
        (vb & ps_decimal == ps_decimal) == d,
        (vb & ps_interrupt_disable == ps_interrupt_disable) == ii,
        (vb & ps_zero == ps_zero) == z,
        (vb & ps_carry == ps_carry) == c,
{
}

/// The sign/zero tail sets negative and zero from the value and leaves the
/// six other flag bits alone.
proof fn lemma_sign_zero_flags(b: u8, f: u8, n: bool, z: bool)
    by (bit_vector)
    requires
        f == (b & !(ps_negative | ps_zero))
            | (if n { ps_negative } else { 0u8 })
            | (if z { ps_zero } else { 0u8 }),
    ensures
        (f & ps_negative == ps_negative) == n,
        (f & ps_zero == ps_zero) == z,
        (f & ps_carry == ps_carry) == (b & ps_carry == ps_carry),
        (f & ps_overflow == ps_overflow) == (b & ps_overflow == ps_overflow),
        (f & ps_unused == ps_unused) == (b & ps_unused == ps_unused),
        (f & ps_break == ps_break) == (b & ps_break == ps_break),
        (f & ps_decimal == ps_decimal) == (b & ps_decimal == ps_decimal),
        (f & ps_interrupt_disable == ps_interrupt_disable) == (b & ps_interrupt_disable
            == ps_interrupt_disable),
        f & !(ps_negative | ps_zero) == b & !(ps_negative | ps_zero),
{
}

/// Masked update isolation: an update whose mask is carry and overflow
/// rewrites exactly those two bits and leaves every other flag — zero and
/// negative among them — as it was, whatever bits `values` carries.
pub proof fn lemma_masked_update_isolation(bits: u8, values: u8)
    by (bit_vector)
    ensures
        masked_bits(bits, ps_carry | ps_overflow, values) & ps_zero == bits & ps_zero,
        masked_bits(bits, ps_carry | ps_overflow, values) & ps_negative == bits & ps_negative,
        masked_bits(bits, ps_carry | ps_overflow, values) & !(ps_carry | ps_overflow) == bits & !(
        ps_carry | ps_overflow),
        masked_bits(bits, ps_carry | ps_overflow, values) & ps_carry == values & ps_carry,
        masked_bits(bits, ps_carry | ps_overflow, values) & ps_overflow == values & ps_overflow,
{
}

impl Status {
    /// Whether every bit of `flag` is set in this status byte.
    pub open spec fn has(self, flag: u8) -> bool {
        self.bits & flag == flag
    }

    /// The carry flag as the number it contributes to a sum: 1 when set,
    /// 0 when clear.
    pub open spec fn carry_bit(self) -> int {
        if self.has(ps_carry) {
            1
        } else {
            0
        }
    }

    /// Pack the given flags into a status byte.
    pub fn new(args: StatusArgs) -> (r: Status)
        ensures
            r.bits == args.spec_bits(),
            r.has(ps_negative) == args.negative,
            r.has(ps_overflow) == args.overflow,
            r.has(ps_unused) == args.unused,
            r.has(ps_break) == args.brk,
            r.has(ps_decimal) == args.decimal,
            r.has(ps_interrupt_disable) == args.interrupt_disable,
            r.has(ps_zero) == args.zero,
            r.has(ps_carry) == args.carry,
    {
        let bits: u8 = (if args.negative { ps_negative } else { 0 })
            | (if args.overflow { ps_overflow } else { 0 })
            | (if args.unused { ps_unused } else { 0 })
            | (if args.brk { ps_break } else { 0 })
            | (if args.decimal { ps_decimal } else { 0 })
            | (if args.interrupt_disable { ps_interrupt_disable } else { 0 })
            | (if args.zero { ps_zero } else { 0 })
            | (if args.carry { ps_carry } else { 0 });
        proof {
            lemma_spec_bits_flags(
                bits,
                args.negative,
                args.overflow,
                args.unused,
                args.brk,
                args.decimal,
                args.interrupt_disable,
                args.zero,
                args.carry,
            );
        }
        Status { bits }
    }

    /// Whether every bit of `flag` is set.
    pub fn contains(&self, flag: u8) -> (r: bool)
        ensures
            r == self.has(flag),
    {
        self.bits & flag == flag
    }

    /// Clear every bit of `flag`, leaving the bits outside `flag` untouched.
    pub fn remove(&mut self, flag: u8)
        ensures
            final(self).bits == (old(self).bits & !flag),
            flag != 0 ==> !final(self).has(flag),
    {
        self.bits = self.bits & !flag;
        proof {
            let ob = old(self).bits;
            assert(flag != 0 ==> (ob & !flag) & flag != flag) by (bit_vector);
        }
    }

    /// The carry flag as an integer usable directly in a sum: 1 when set,
    /// 0 when clear.
    pub fn get_carry(&self) -> (r: i8)
        ensures
            r == self.carry_bit(),
            0 <= r <= 1,
    {
        if self.bits & ps_carry == ps_carry {
            1
        } else {
            0
        }
    }

    /// The masked-update primitive: clear exactly the bits in `mask`, then
    /// copy in the corresponding bits of `values`. Bits outside `mask` are
    /// untouched.
    pub fn set_with_mask(&mut self, mask: u8, values: Status)
        ensures
            final(self).bits == masked_bits(old(self).bits, mask, values.bits),
    {
        self.bits = (self.bits & !mask) | (values.bits & mask);
    }

    /// The flag tail shared by arithmetic and logic instructions: set
    /// negative to the sign bit of `value` and zero to whether `value` is 0,
    /// simultaneously, and touch no other flag.
    pub fn set_sign_and_zero_from_val(&mut self, value: i8)
        ensures
            final(self).bits == sign_zero_bits(old(self).bits, value),
            final(self).has(ps_negative) == (value < 0),
            final(self).has(ps_zero) == (value == 0),
            final(self).has(ps_carry) == old(self).has(ps_carry),
            final(self).has(ps_overflow) == old(self).has(ps_overflow),
            final(self).has(ps_unused) == old(self).has(ps_unused),
            final(self).has(ps_break) == old(self).has(ps_break),
            final(self).has(ps_decimal) == old(self).has(ps_decimal),
            final(self).has(ps_interrupt_disable) == old(self).has(ps_interrupt_disable),
            final(self).bits & !(ps_negative | ps_zero) == old(self).bits & !(ps_negative
                | ps_zero),
    {
        self.bits = (self.bits & !(ps_negative | ps_zero))
            | (if value < 0 { ps_negative } else { 0 })
            | (if value == 0 { ps_zero } else { 0 });
        proof {
            lemma_sign_zero_flags(old(self).bits, self.bits, value < 0, value == 0);
        }
    }
}

/// The register file: accumulator, the two index registers, stack pointer,
/// program counter and the status register. It owns no other state.
#[derive(Clone, Copy, PartialEq, Eq, Structural)]
pub struct Registers {
    pub accumulator: i8,
    pub index_x: i8,
    pub index_y: i8,
    pub stack_pointer: u8,
    pub program_counter: u16,
    pub status: Status,
}

impl Registers {
    /// Every register and every flag is zero.
    pub open spec fn is_zeroed(self) -> bool {
        self == (Registers {
            accumulator: 0,
            index_x: 0,
            index_y: 0,
            stack_pointer: 0,
            program_counter: 0,
            status: Status { bits: 0 },
        })
    }

    /// A zero-initialized register file.
    pub fn new() -> (r: Registers)
        ensures
            r.is_zeroed(),
    {
        Registers {
            accumulator: 0,
            index_x: 0,
            index_y: 0,
            stack_pointer: 0,
            program_counter: 0,
            status: Status { bits: 0 },
        }
    }
}

} // verus!
