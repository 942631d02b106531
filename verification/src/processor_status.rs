//! The processor status register: seven independent flag bits packed into one
//! byte with the layout `N V - B D I Z C` (bit 7 down to bit 0; bit 5 is
//! unused and always renders as `0`).

use vstd::prelude::*;
use vstd::string::StringExecFns;

verus! {

/// One of the seven status flags.
#[derive(Clone, Copy, PartialEq, Eq, Structural, Debug)]
pub enum Flag {
    /// Negative (bit 7)
    N,
    /// Overflow (bit 6)
    V,
    /// Break (bit 4)
    B,
    /// Decimal mode (bit 3)
    D,
    /// Interrupt disable (bit 2)
    I,
    /// Zero (bit 1)
    Z,
    /// Carry (bit 0)
    C,
}

/// The status register, one boolean per flag bit.
#[derive(Clone, Copy, PartialEq, Eq, Structural, Debug)]
pub struct ProcessorStatus {
    /// Negative
    pub n: bool,
    /// Overflow
    pub v: bool,
    /// Break
    pub b: bool,
    /// Decimal mode
    pub d: bool,
    /// Interrupt disable
    pub i: bool,
    /// Zero
    pub z: bool,
    /// Carry
    pub c: bool,
}

/// Weight a flag contributes to the packed byte: its bit value when set.
pub open spec fn bit_weight(set: bool, weight: u8) -> int {
    if set {
        weight as int
    } else {
        0
    }
}

/// The character a flag renders as.
pub open spec fn bit_char(set: bool) -> char {
    if set {
        '1'
    } else {
        '0'
    }
}

impl ProcessorStatus {
    /// All flags clear.
    pub open spec fn spec_empty() -> ProcessorStatus {
        ProcessorStatus { n: false, v: false, b: false, d: false, i: false, z: false, c: false }
    }

    /// All seven flags set.
    pub open spec fn spec_all() -> ProcessorStatus {
        ProcessorStatus { n: true, v: true, b: true, d: true, i: true, z: true, c: true }
    }

    /// The packed byte: `N V - B D I Z C`, bit 5 always zero.
    pub open spec fn spec_bits(self) -> u8 {
        (bit_weight(self.n, 0x80) + bit_weight(self.v, 0x40) + bit_weight(self.b, 0x10)
            + bit_weight(self.d, 0x08) + bit_weight(self.i, 0x04) + bit_weight(self.z, 0x02)
            + bit_weight(self.c, 0x01)) as u8
    }

    /// The register reconstructed from a packed byte; only the seven defined
    /// bits are read, bit 5 is ignored.
    pub open spec fn spec_from_bits(bits: u8) -> ProcessorStatus {
        ProcessorStatus {
            n: bits & 0x80 != 0,
            v: bits & 0x40 != 0,
            b: bits & 0x10 != 0,
            d: bits & 0x08 != 0,
            i: bits & 0x04 != 0,
            z: bits & 0x02 != 0,
            c: bits & 0x01 != 0,
        }
    }

    /// Whether a given flag is set.
    pub open spec fn spec_get(self, f: Flag) -> bool {
        match f {
            Flag::N => self.n,
            Flag::V => self.v,
            Flag::B => self.b,
            Flag::D => self.d,
            Flag::I => self.i,
            Flag::Z => self.z,
            Flag::C => self.c,
        }
    }

    /// The register with exactly one named flag set or cleared.
    pub open spec fn with_flag(self, f: Flag, value: bool) -> ProcessorStatus {
        match f {
            Flag::N => ProcessorStatus { n: value, ..self },
            Flag::V => ProcessorStatus { v: value, ..self },
            Flag::B => ProcessorStatus { b: value, ..self },
            Flag::D => ProcessorStatus { d: value, ..self },
            Flag::I => ProcessorStatus { i: value, ..self },
            Flag::Z => ProcessorStatus { z: value, ..self },
            Flag::C => ProcessorStatus { c: value, ..self },
        }
    }

    /// The register after a value lands in a register: Zero reflects whether
    /// the value is zero, Negative reflects bit 7 (value at least 0x80),
    /// all other flags untouched.
    pub open spec fn with_nz(self, value: u8) -> ProcessorStatus {
        ProcessorStatus { z: value == 0, n: value >= 0x80, ..self }
    }

    /// The register after a logical shift right: Carry takes the bit shifted
    /// out of the original value, Zero reflects the shifted result, Negative
    /// is cleared unconditionally.
    pub open spec fn with_shift_flags(self, original: u8, shifted: u8) -> ProcessorStatus {
        ProcessorStatus { n: false, z: shifted == 0, c: original % 2 == 1, ..self }
    }

    /// The flag-by-flag union of two registers.
    pub open spec fn spec_union(self, other: ProcessorStatus) -> ProcessorStatus {
        ProcessorStatus {
            n: self.n || other.n,
            v: self.v || other.v,
            b: self.b || other.b,
            d: self.d || other.d,
            i: self.i || other.i,
            z: self.z || other.z,
            c: self.c || other.c,
        }
    }

    /// The canonical rendering: the eight bit characters, most significant
    /// bit first, with the unused bit 5 always `'0'`.
    pub open spec fn spec_render(self) -> Seq<char> {
        seq![
            bit_char(self.n),
            bit_char(self.v),
            '0',
            bit_char(self.b),
            bit_char(self.d),
            bit_char(self.i),
            bit_char(self.z),
            bit_char(self.c),
        ]
    }

    /// A register with all flags clear.
    pub fn empty() -> (r: ProcessorStatus)
        ensures
            r == ProcessorStatus::spec_empty(),
    {
        ProcessorStatus { n: false, v: false, b: false, d: false, i: false, z: false, c: false }
    }

    /// A register with all seven flags set.
    pub fn all() -> (r: ProcessorStatus)
        ensures
            r == ProcessorStatus::spec_all(),
    {
        ProcessorStatus { n: true, v: true, b: true, d: true, i: true, z: true, c: true }
    }

    /// A register with exactly one flag set.
    pub fn flag(f: Flag) -> (r: ProcessorStatus)
        ensures
            r == ProcessorStatus::spec_empty().with_flag(f, true),
    {
        let mut r = ProcessorStatus::empty();
        r.set_flag(f, true);
        r
    }

    /// Set or clear exactly the named flag, leaving every other flag as it is.
    pub fn set_flag(&mut self, f: Flag, value: bool)
        ensures
            *final(self) == old(self).with_flag(f, value),
    {
        match f {
            Flag::N => self.n = value,
            Flag::V => self.v = value,
            Flag::B => self.b = value,
            Flag::D => self.d = value,
            Flag::I => self.i = value,
            Flag::Z => self.z = value,
            Flag::C => self.c = value,
        }
    }

    /// Whether the named flag is set.
    pub fn is_set(&self, f: Flag) -> (r: bool)
        ensures
            r == self.spec_get(f),
    {
        match f {
            Flag::N => self.n,
            Flag::V => self.v,
            Flag::B => self.b,
            Flag::D => self.d,
            Flag::I => self.i,
            Flag::Z => self.z,
            Flag::C => self.c,
        }
    }

    /// Clear every flag.
    pub fn clear(&mut self)
        ensures
            *final(self) == ProcessorStatus::spec_empty(),
    {
        *self = ProcessorStatus::empty();
    }

    /// The raw packed byte, as pushed to the stack.
    pub fn bits(&self) -> (r: u8)
        ensures
            r == self.spec_bits(),
    {
        let mut r: u8 = 0;
        if self.n {
            r = r + 0x80;
        }
        if self.v {
            r = r + 0x40;
        }
        if self.b {
            r = r + 0x10;
        }
        if self.d {
            r = r + 0x08;
        }
        if self.i {
            r = r + 0x04;
        }
        if self.z {
            r = r + 0x02;
        }
        if self.c {
            r = r + 0x01;
        }
        r
    }

    /// Rebuild the register from a packed byte, reading exactly the seven
    /// defined bits and ignoring the undefined bit 5.
    pub fn from_bits_truncate(bits: u8) -> (r: ProcessorStatus)
        ensures
            r == ProcessorStatus::spec_from_bits(bits),
    {
        ProcessorStatus {
            n: bits & 0x80 != 0,
            v: bits & 0x40 != 0,
            b: bits & 0x10 != 0,
            d: bits & 0x08 != 0,
            i: bits & 0x04 != 0,
            z: bits & 0x02 != 0,
            c: bits & 0x01 != 0,
        }
    }

    /// The flag-by-flag union of two registers.
    pub fn union(self, other: ProcessorStatus) -> (r: ProcessorStatus)
        ensures
            r == self.spec_union(other),
    {
        ProcessorStatus {
            n: self.n || other.n,
            v: self.v || other.v,
            b: self.b || other.b,
            d: self.d || other.d,
            i: self.i || other.i,
            z: self.z || other.z,
            c: self.c || other.c,
        }
    }

    /// Render the packed byte as eight `'0'`/`'1'` characters, most
    /// significant bit first.
    pub fn render(&self) -> (r: String)
        ensures
            r@ == self.spec_render(),
    {
        let mut out = String::new();
        out.append(if self.n { "1" } else { "0" });
        out.append(if self.v { "1" } else { "0" });
        out.append("0");
        out.append(if self.b { "1" } else { "0" });
        out.append(if self.d { "1" } else { "0" });
        out.append(if self.i { "1" } else { "0" });
        out.append(if self.z { "1" } else { "0" });
        out.append(if self.c { "1" } else { "0" });
        proof {
            reveal_strlit("0");
            reveal_strlit("1");
            assert(out@ =~= self.spec_render());
        }
        out
    }
}

impl Default for ProcessorStatus {
    /// A register with all flags clear.
    fn default() -> (r: ProcessorStatus)
        ensures
            r == ProcessorStatus::spec_empty(),
    {
        ProcessorStatus::empty()
    }
}

/// Packing the register into its byte and rebuilding it from that byte gives
/// back the identical flag pattern: no defined bit is forced or ignored.
pub proof fn lemma_bits_round_trip(ps: ProcessorStatus)
    ensures
        ProcessorStatus::spec_from_bits(ps.spec_bits()) == ps,
{
    let n: u8 = if ps.n {
        1
    } else {
        0
    };
    let v: u8 = if ps.v {
        1
    } else {
        0
    };
    let b: u8 = if ps.b {
        1
    } else {
        0
    };
    let d: u8 = if ps.d {
        1
    } else {
        0
    };
    let i: u8 = if ps.i {
        1
    } else {
        0
    };
    let z: u8 = if ps.z {
        1
    } else {
        0
    };
    let c: u8 = if ps.c {
        1
    } else {
        0
    };
    let bits = ps.spec_bits();
    assert(bits == (n * 0x80 + v * 0x40 + b * 0x10 + d * 0x08 + i * 0x04 + z * 0x02 + c
        * 0x01) as u8);
    assert({
        let packed = (n * 0x80 + v * 0x40 + b * 0x10 + d * 0x08 + i * 0x04 + z * 0x02 + c
            * 0x01) as u8;
        (packed & 0x80 != 0) == (n == 1) && (packed & 0x40 != 0) == (v == 1) && (packed & 0x10 != 0)
            == (b == 1) && (packed & 0x08 != 0) == (d == 1) && (packed & 0x04 != 0) == (i == 1) && (
        packed & 0x02 != 0) == (z == 1) && (packed & 0x01 != 0) == (c == 1)
    }) by (bit_vector)
        requires
            n <= 1 && v <= 1 && b <= 1 && d <= 1 && i <= 1 && z <= 1 && c <= 1,
    ;
}

} // verus!
