//! Register-level protocol driver for the AD9912 direct digital
//! synthesizer: the addressable register space, the 16-bit instruction
//! word that heads every bus transaction, the 8-bit configuration
//! registers with their fixed bit layouts, and the high-level setters
//! built from the read/write primitives.

use vstd::prelude::*;

verus! {

/// The addressable registers of the synthesizer; each name stands for
/// a fixed 13-bit address assigned by the chip.
#[derive(Clone, Copy, PartialEq, Eq, Structural, Debug)]
pub enum Addr {
    Serial,
    PartId,
    Buffer,
    Update,
    Power,
    DdsReset,
    Reset,
    NDiv,
    Pll,
    SDiv,
    Ftw0,
    Phase,
    Hstl,
    Cmos,
    Fsc,
    SpurA,
    SpurB,
}

/// The fixed 13-bit address of each register.
pub open spec fn spec_addr_code(a: Addr) -> u16 {
    match a {
        Addr::Serial => 0x0000,
        Addr::PartId => 0x0003,
        Addr::Buffer => 0x0004,
        Addr::Update => 0x0005,
        Addr::Power => 0x0010,
        Addr::DdsReset => 0x0013,
        Addr::Reset => 0x0014,
        Addr::NDiv => 0x0020,
        Addr::Pll => 0x0022,
        Addr::SDiv => 0x0106,
        Addr::Ftw0 => 0x01ab,
        Addr::Phase => 0x01ad,
        Addr::Hstl => 0x0200,
        Addr::Cmos => 0x0201,
        Addr::Fsc => 0x040c,
        Addr::SpurA => 0x0500,
        Addr::SpurB => 0x0505,
    }
}

/// The register named by a 13-bit address, if any register holds it.
pub open spec fn spec_addr_of_code(c: u16) -> Option<Addr> {
    if c == 0x0000 {
        Some(Addr::Serial)
    } else if c == 0x0003 {
        Some(Addr::PartId)
    } else if c == 0x0004 {
        Some(Addr::Buffer)
    } else if c == 0x0005 {
        Some(Addr::Update)
    } else if c == 0x0010 {
        Some(Addr::Power)
    } else if c == 0x0013 {
        Some(Addr::DdsReset)
    } else if c == 0x0014 {
        Some(Addr::Reset)
    } else if c == 0x0020 {
        Some(Addr::NDiv)
    } else if c == 0x0022 {
        Some(Addr::Pll)
    } else if c == 0x0106 {
        Some(Addr::SDiv)
    } else if c == 0x01ab {
        Some(Addr::Ftw0)
    } else if c == 0x01ad {
        Some(Addr::Phase)
    } else if c == 0x0200 {
        Some(Addr::Hstl)
    } else if c == 0x0201 {
        Some(Addr::Cmos)
    } else if c == 0x040c {
        Some(Addr::Fsc)
    } else if c == 0x0500 {
        Some(Addr::SpurA)
    } else if c == 0x0505 {
        Some(Addr::SpurB)
    } else {
        None
    }
}

impl Addr {
    pub fn code(self) -> (r: u16)
        ensures
            r == spec_addr_code(self),
    {
        match self {
            Addr::Serial => 0x0000,
            Addr::PartId => 0x0003,
            Addr::Buffer => 0x0004,
            Addr::Update => 0x0005,
            Addr::Power => 0x0010,
            Addr::DdsReset => 0x0013,
            Addr::Reset => 0x0014,
            Addr::NDiv => 0x0020,
            Addr::Pll => 0x0022,
            Addr::SDiv => 0x0106,
            Addr::Ftw0 => 0x01ab,
            Addr::Phase => 0x01ad,
            Addr::Hstl => 0x0200,
            Addr::Cmos => 0x0201,
            Addr::Fsc => 0x040c,
            Addr::SpurA => 0x0500,
            Addr::SpurB => 0x0505,
        }
    }

    pub fn from_code(c: u16) -> (r: Option<Addr>)
        ensures
            r == spec_addr_of_code(c),
    {
        if c == 0x0000 {
            Some(Addr::Serial)
        } else if c == 0x0003 {
            Some(Addr::PartId)
        } else if c == 0x0004 {
            Some(Addr::Buffer)
        } else if c == 0x0005 {
            Some(Addr::Update)
        } else if c == 0x0010 {
            Some(Addr::Power)
        } else if c == 0x0013 {
            Some(Addr::DdsReset)
        } else if c == 0x0014 {
            Some(Addr::Reset)
        } else if c == 0x0020 {
            Some(Addr::NDiv)
        } else if c == 0x0022 {
            Some(Addr::Pll)
        } else if c == 0x0106 {
            Some(Addr::SDiv)
        } else if c == 0x01ab {
            Some(Addr::Ftw0)
        } else if c == 0x01ad {
            Some(Addr::Phase)
        } else if c == 0x0200 {
            Some(Addr::Hstl)
        } else if c == 0x0201 {
            Some(Addr::Cmos)
        } else if c == 0x040c {
            Some(Addr::Fsc)
        } else if c == 0x0500 {
            Some(Addr::SpurA)
        } else if c == 0x0505 {
            Some(Addr::SpurB)
        } else {
            None
        }
    }
}

/// Every register address fits the 13-bit field of the instruction word.
pub proof fn lemma_addr_code_fits(a: Addr)
    ensures
        spec_addr_code(a) < 0x2000,
{
}

/// Register addresses are distinct, so decoding an encoded address
/// names the register it came from.
pub proof fn lemma_addr_code_roundtrip(a: Addr)
    ensures
        spec_addr_of_code(spec_addr_code(a)) == Some(a),
{
}

/// The two-bit size class of a transaction payload: one, two or three
/// bytes, or a longer stream.
#[derive(Clone, Copy, PartialEq, Eq, Structural, Debug)]
pub enum Size {
    One,
    Two,
    Three,
    Stream,
}

impl Default for Size {
    fn default() -> (r: Self)
        ensures
            r == Size::One,
    {
        Size::One
    }
}

/// The two-bit code of each size class.
pub open spec fn spec_size_code(s: Size) -> u8 {
    match s {
        Size::One => 0,
        Size::Two => 1,
        Size::Three => 2,
        Size::Stream => 3,
    }
}

/// The size class of a two-bit code; the coding is exhaustive.
pub open spec fn spec_size_of_code(c: u8) -> Size {
    if c == 0 {
        Size::One
    } else if c == 1 {
        Size::Two
    } else if c == 2 {
        Size::Three
    } else {
        Size::Stream
    }
}

/// The size class of a payload of `len` bytes: lengths of four or more
/// are a stream. A length of zero is invalid and never encoded.
pub open spec fn spec_size_of_len(len: int) -> Size {
    if len == 1 {
        Size::One
    } else if len == 2 {
        Size::Two
    } else if len == 3 {
        Size::Three
    } else {
        Size::Stream
    }
}

impl Size {
    pub fn code(self) -> (r: u8)
        ensures
            r == spec_size_code(self),
    {
        match self {
            Size::One => 0,
            Size::Two => 1,
            Size::Three => 2,
            Size::Stream => 3,
        }
    }

    pub fn from_code(c: u8) -> (r: Self)
        requires
            c < 4,
        ensures
            r == spec_size_of_code(c),
    {
        if c == 0 {
            Size::One
        } else if c == 1 {
            Size::Two
        } else if c == 2 {
            Size::Three
        } else {
            Size::Stream
        }
    }

    pub fn from_len(len: usize) -> (r: Self)
        requires
            len >= 1,
        ensures
            r == spec_size_of_len(len as int),
    {
        if len == 1 {
            Size::One
        } else if len == 2 {
            Size::Two
        } else if len == 3 {
            Size::Three
        } else {
            Size::Stream
        }
    }
}

/// The 16-bit header of every bus transaction: the register address in
/// bits 0..=12, the size class in bits 13..=14, and the read flag in
/// bit 15. Built fresh for each transaction, never persisted.
#[derive(Clone, Copy, PartialEq, Eq, Structural, Debug)]
pub struct Instruction {
    pub addr: Addr,
    pub size: Size,
    pub read: bool,
}

/// The encoded form of an instruction word.
pub open spec fn spec_insn_raw(addr: Addr, size: Size, read: bool) -> u16 {
    let base = spec_addr_code(addr) | ((spec_size_code(size) as u16) << 13);
    if read {
        base | 0x8000
    } else {
        base
    }
}

/// The fields a 16-bit header decodes to, if its address field names a
/// register.
pub open spec fn spec_insn_decode(v: u16) -> Option<Instruction> {
    match spec_addr_of_code(v & 0x1fff) {
        Some(addr) => Some(
            Instruction {
                addr,
                size: spec_size_of_code(((v >> 13) & 0x03) as u8),
                read: (v >> 15) != 0,
            },
        ),
        None => None,
    }
}

impl Instruction {
    pub fn new(addr: Addr, size: Size, read: bool) -> (r: Self)
        ensures
            r.addr == addr,
            r.size == size,
            r.read == read,
    {
        Instruction { addr, size, read }
    }

    pub fn raw_value(self) -> (r: u16)
        ensures
            r == spec_insn_raw(self.addr, self.size, self.read),
    {
        let base: u16 = self.addr.code() | ((self.size.code() as u16) << 13);
        if self.read {
            base | 0x8000
        } else {
            base
        }
    }

    pub fn from_raw_value(v: u16) -> (r: Option<Self>)
        ensures
            r == spec_insn_decode(v),
    {
        match Addr::from_code(v & 0x1fff) {
            None => None,
            Some(addr) => {
                proof {
                    assert((v >> 13) & 0x03 < 4) by (bit_vector);
                }
                let size = Size::from_code(((v >> 13) & 0x03) as u8);
                let read = (v >> 15) != 0;
                Some(Instruction { addr, size, read })
            },
        }
    }
}

/// Decoding an encoded instruction word recovers its three fields
/// exactly: the header layout loses nothing.
pub proof fn lemma_instruction_roundtrip(addr: Addr, size: Size, read: bool)
    ensures
        spec_insn_decode(spec_insn_raw(addr, size, read)) == Some(
            Instruction { addr, size, read },
        ),
{
    let a = spec_addr_code(addr);
    let s = spec_size_code(size);
    lemma_addr_code_fits(addr);
    assert(s < 4);
    let v = spec_insn_raw(addr, size, read);
    assert(v == if read {
        (a | ((s as u16) << 13)) | 0x8000
    } else {
        a | ((s as u16) << 13)
    });
    assert(a < 0x2000 && s < 4 ==> ((a | ((s as u16) << 13)) | 0x8000) & 0x1fff == a
        && (a | ((s as u16) << 13)) & 0x1fff == a
        && ((((a | ((s as u16) << 13)) | 0x8000) >> 13) & 0x03) as u8 == s
        && (((a | ((s as u16) << 13)) >> 13) & 0x03) as u8 == s
        && (((a | ((s as u16) << 13)) | 0x8000) >> 15) != 0
        && ((a | ((s as u16) << 13)) >> 15) == 0) by (bit_vector);
    lemma_addr_code_roundtrip(addr);
    assert(spec_size_of_code(spec_size_code(size)) == size);
}

/// Serial-port configuration register. The low four bits hold the
/// canonical flags; `mirror` duplicates them, reversed, into the high
/// four bits so the device decodes the write under either bit order.
#[derive(Clone, Copy, PartialEq, Eq, Structural, Debug)]
pub struct Serial {
    pub raw: u8,
}

/// The mirrored form of a serial-config byte: the low nibble kept, and
/// flag bits 0..=3 duplicated at bits 7, 6, 5, 4 respectively.
pub open spec fn spec_mirror(v: u8) -> u8 {
    (v & 0x0f) | ((v & 1) << 7) | ((v & 2) << 5) | ((v & 4) << 3) | ((v & 8) << 1)
}

impl Default for Serial {
    /// Power-on default of the serial-config register.
    fn default() -> (r: Self)
        ensures
            r.raw == 0x18,
    {
        Serial { raw: 0x18 }
    }
}

impl Serial {
    pub fn new_with_raw_value(raw: u8) -> (r: Self)
        ensures
            r.raw == raw,
    {
        Serial { raw }
    }

    pub fn raw_value(self) -> (r: u8)
        ensures
            r == self.raw,
    {
        self.raw
    }

    pub fn sdo_active(self) -> (r: bool)
        ensures
            r == ((self.raw & 0x01) != 0),
    {
        (self.raw & 0x01) != 0
    }

    pub fn with_sdo_active(self, b: bool) -> (r: Self)
        ensures
            r.raw == (if b { self.raw | 0x01 } else { self.raw & !0x01 }),
    {
        Serial { raw: if b { self.raw | 0x01 } else { self.raw & !0x01 } }
    }

    pub fn lsb_first(self) -> (r: bool)
        ensures
            r == ((self.raw & 0x02) != 0),
    {
        (self.raw & 0x02) != 0
    }

    pub fn with_lsb_first(self, b: bool) -> (r: Self)
        ensures
            r.raw == (if b { self.raw | 0x02 } else { self.raw & !0x02 }),
    {
        Serial { raw: if b { self.raw | 0x02 } else { self.raw & !0x02 } }
    }

    pub fn soft_reset(self) -> (r: bool)
        ensures
            r == ((self.raw & 0x04) != 0),
    {
        (self.raw & 0x04) != 0
    }

    pub fn with_soft_reset(self, b: bool) -> (r: Self)
        ensures
            r.raw == (if b { self.raw | 0x04 } else { self.raw & !0x04 }),
    {
        Serial { raw: if b { self.raw | 0x04 } else { self.raw & !0x04 } }
    }

    pub fn long_insn(self) -> (r: bool)
        ensures
            r == ((self.raw & 0x08) != 0),
    {
        (self.raw & 0x08) != 0
    }

    pub fn with_long_insn(self, b: bool) -> (r: Self)
        ensures
            r.raw == (if b { self.raw | 0x08 } else { self.raw & !0x08 }),
    {
        Serial { raw: if b { self.raw | 0x08 } else { self.raw & !0x08 } }
    }

    /// Duplicate the four flag bits, reversed, into the high nibble, so
    /// that the byte reads the same under either bit-order convention.
    pub fn mirror(self) -> (r: Self)
        ensures
            r.raw == spec_mirror(self.raw),
    {
        let v = self.raw;
        Serial {
            raw: (v & 0x0f) | ((v & 1) << 7) | ((v & 2) << 5) | ((v & 4) << 3) | ((v & 8) << 1),
        }
    }
}

/// Mirroring reads only the low nibble and keeps it, so applying it a
/// second time changes nothing: the mirrored form is a fixed point.
pub proof fn lemma_mirror_idempotent(v: u8)
    ensures
        spec_mirror(spec_mirror(v)) == spec_mirror(v),
{
    assert(spec_mirror(spec_mirror(v)) == spec_mirror(v)) by (bit_vector);
}

/// Mirroring leaves a byte unchanged exactly when its high nibble
/// already holds the four flag bits in reversed order, that is, when
/// the byte is self-symmetric.
pub proof fn lemma_mirror_identity_iff_symmetric(v: u8)
    ensures
        spec_mirror(v) == v <==> (v >> 4) == (((v & 1) << 3) | ((v & 2) << 1) | ((v & 4) >> 1)
            | ((v & 8) >> 3)),
{
    assert(spec_mirror(v) == v <==> (v >> 4) == (((v & 1) << 3) | ((v & 2) << 1) | ((v & 4) >> 1)
        | ((v & 8) >> 3))) by (bit_vector);
}

/// Mirroring never changes the canonical low nibble.
pub proof fn lemma_mirror_preserves_flags(v: u8)
    ensures
        spec_mirror(v) & 0x0f == v & 0x0f,
{
    assert(spec_mirror(v) & 0x0f == v & 0x0f) by (bit_vector);
}

/// Power-control register.
#[derive(Clone, Copy, PartialEq, Eq, Structural, Debug)]
pub struct Power {
    pub raw: u8,
}

impl Default for Power {
    /// Power-on default of the power-control register.
    fn default() -> (r: Self)
        ensures
            r.raw == 0xc0,
    {
        Power { raw: 0xc0 }
    }
}

impl Power {
    pub fn new_with_raw_value(raw: u8) -> (r: Self)
        ensures
            r.raw == raw,
    {
        Power { raw }
    }

    pub fn raw_value(self) -> (r: u8)
        ensures
            r == self.raw,
    {
        self.raw
    }

    pub fn digital_pd(self) -> (r: bool)
        ensures
            r == ((self.raw & 0x01) != 0),
    {
        (self.raw & 0x01) != 0
    }

    pub fn with_digital_pd(self, b: bool) -> (r: Self)
        ensures
            r.raw == (if b { self.raw | 0x01 } else { self.raw & !0x01 }),
    {
        Power { raw: if b { self.raw | 0x01 } else { self.raw & !0x01 } }
    }

    pub fn full_pd(self) -> (r: bool)
        ensures
            r == ((self.raw & 0x02) != 0),
    {
        (self.raw & 0x02) != 0
    }

    pub fn with_full_pd(self, b: bool) -> (r: Self)
        ensures
            r.raw == (if b { self.raw | 0x02 } else { self.raw & !0x02 }),
    {
        Power { raw: if b { self.raw | 0x02 } else { self.raw & !0x02 } }
    }

    pub fn pll_pd(self) -> (r: bool)
        ensures
            r == ((self.raw & 0x10) != 0),
    {
        (self.raw & 0x10) != 0
    }

    pub fn with_pll_pd(self, b: bool) -> (r: Self)
        ensures
            r.raw == (if b { self.raw | 0x10 } else { self.raw & !0x10 }),
    {
        Power { raw: if b { self.raw | 0x10 } else { self.raw & !0x10 } }
    }

    pub fn output_doubler_en(self) -> (r: bool)
        ensures
            r == ((self.raw & 0x20) != 0),
    {
        (self.raw & 0x20) != 0
    }

    pub fn with_output_doubler_en(self, b: bool) -> (r: Self)
        ensures
            r.raw == (if b { self.raw | 0x20 } else { self.raw & !0x20 }),
    {
        Power { raw: if b { self.raw | 0x20 } else { self.raw & !0x20 } }
    }

    pub fn cmos_en(self) -> (r: bool)
        ensures
            r == ((self.raw & 0x40) != 0),
    {
        (self.raw & 0x40) != 0
    }

    pub fn with_cmos_en(self, b: bool) -> (r: Self)
        ensures
            r.raw == (if b { self.raw | 0x40 } else { self.raw & !0x40 }),
    {
        Power { raw: if b { self.raw | 0x40 } else { self.raw & !0x40 } }
    }

    pub fn hstl_pd(self) -> (r: bool)
        ensures
            r == ((self.raw & 0x80) != 0),
    {
        (self.raw & 0x80) != 0
    }

    pub fn with_hstl_pd(self, b: bool) -> (r: Self)
        ensures
            r.raw == (if b { self.raw | 0x80 } else { self.raw & !0x80 }),
    {
        Power { raw: if b { self.raw | 0x80 } else { self.raw & !0x80 } }
    }
}

/// S-divider and fundamental-DDS reset controls.
#[derive(Clone, Copy, PartialEq, Eq, Structural, Debug)]
pub struct Reset {
    pub raw: u8,
}

impl Default for Reset {
    /// Power-on default of the reset-control register.
    fn default() -> (r: Self)
        ensures
            r.raw == 0x00,
    {
        Reset { raw: 0x00 }
    }
}

impl Reset {
    pub fn new_with_raw_value(raw: u8) -> (r: Self)
        ensures
            r.raw == raw,
    {
        Reset { raw }
    }

    pub fn raw_value(self) -> (r: u8)
        ensures
            r == self.raw,
    {
        self.raw
    }

    pub fn sdiv(self) -> (r: bool)
        ensures
            r == ((self.raw & 0x02) != 0),
    {
        (self.raw & 0x02) != 0
    }

    pub fn with_sdiv(self, b: bool) -> (r: Self)
        ensures
            r.raw == (if b { self.raw | 0x02 } else { self.raw & !0x02 }),
    {
        Reset { raw: if b { self.raw | 0x02 } else { self.raw & !0x02 } }
    }

    pub fn sdiv2(self) -> (r: bool)
        ensures
            r == ((self.raw & 0x08) != 0),
    {
        (self.raw & 0x08) != 0
    }

    pub fn with_sdiv2(self, b: bool) -> (r: Self)
        ensures
            r.raw == (if b { self.raw | 0x08 } else { self.raw & !0x08 }),
    {
        Reset { raw: if b { self.raw | 0x08 } else { self.raw & !0x08 } }
    }

    pub fn fund_dds_pd(self) -> (r: bool)
        ensures
            r == ((self.raw & 0x80) != 0),
    {
        (self.raw & 0x80) != 0
    }

    pub fn with_fund_dds_pd(self, b: bool) -> (r: Self)
        ensures
            r.raw == (if b { self.raw | 0x80 } else { self.raw & !0x80 }),
    {
        Reset { raw: if b { self.raw | 0x80 } else { self.raw & !0x80 } }
    }
}

/// PLL charge-pump current selection.
#[derive(Clone, Copy, PartialEq, Eq, Structural, Debug)]
pub enum ChargePump {
    Ua250,
    Ua375,
    Off,
    Ua125,
}

/// The two-bit code of each charge-pump setting.
pub open spec fn spec_charge_pump_code(c: ChargePump) -> u8 {
    match c {
        ChargePump::Ua250 => 0,
        ChargePump::Ua375 => 1,
        ChargePump::Off => 2,
        ChargePump::Ua125 => 3,
    }
}

impl ChargePump {
    pub fn code(self) -> (r: u8)
        ensures
            r == spec_charge_pump_code(self),
    {
        match self {
            ChargePump::Ua250 => 0,
            ChargePump::Ua375 => 1,
            ChargePump::Off => 2,
            ChargePump::Ua125 => 3,
        }
    }

    /// The setting named by a two-bit code; the selection is exhaustive.
    pub fn from_code(code: u8) -> (r: Self)
        requires
            code < 4,
        ensures
            spec_charge_pump_code(r) == code,
    {
        if code == 0 {
            ChargePump::Ua250
        } else if code == 1 {
            ChargePump::Ua375
        } else if code == 2 {
            ChargePump::Off
        } else {
            ChargePump::Ua125
        }
    }
}

/// PLL control register.
#[derive(Clone, Copy, PartialEq, Eq, Structural, Debug)]
pub struct Pll {
    pub raw: u8,
}

impl Default for Pll {
    /// Power-on default of the PLL control register.
    fn default() -> (r: Self)
        ensures
            r.raw == 0x04,
    {
        Pll { raw: 0x04 }
    }
}

impl Pll {
    pub fn new_with_raw_value(raw: u8) -> (r: Self)
        ensures
            r.raw == raw,
    {
        Pll { raw }
    }

    pub fn raw_value(self) -> (r: u8)
        ensures
            r == self.raw,
    {
        self.raw
    }

    pub fn charge_pump(self) -> (r: ChargePump)
        ensures
            spec_charge_pump_code(r) == self.raw & 0x03,
    {
        proof {
            let v = self.raw;
            assert(v & 0x03 < 4) by (bit_vector);
        }
        ChargePump::from_code(self.raw & 0x03)
    }

    pub fn with_charge_pump(self, c: ChargePump) -> (r: Self)
        ensures
            r.raw == (self.raw & !0x03) | spec_charge_pump_code(c),
    {
        Pll { raw: (self.raw & !0x03) | c.code() }
    }

    pub fn vco_range_high(self) -> (r: bool)
        ensures
            r == ((self.raw & 0x04) != 0),
    {
        (self.raw & 0x04) != 0
    }

    pub fn with_vco_range_high(self, b: bool) -> (r: Self)
        ensures
            r.raw == (if b { self.raw | 0x04 } else { self.raw & !0x04 }),
    {
        Pll { raw: if b { self.raw | 0x04 } else { self.raw & !0x04 } }
    }

    pub fn ref_doubler(self) -> (r: bool)
        ensures
            r == ((self.raw & 0x08) != 0),
    {
        (self.raw & 0x08) != 0
    }

    pub fn with_ref_doubler(self, b: bool) -> (r: Self)
        ensures
            r.raw == (if b { self.raw | 0x08 } else { self.raw & !0x08 }),
    {
        Pll { raw: if b { self.raw | 0x08 } else { self.raw & !0x08 } }
    }

    pub fn vco_auto_range(self) -> (r: bool)
        ensures
            r == ((self.raw & 0x80) != 0),
    {
        (self.raw & 0x80) != 0
    }

    pub fn with_vco_auto_range(self, b: bool) -> (r: Self)
        ensures
            r.raw == (if b { self.raw | 0x80 } else { self.raw & !0x80 }),
    {
        Pll { raw: if b { self.raw | 0x80 } else { self.raw & !0x80 } }
    }
}

/// Transport-level fault classes that the serial bus can report.
#[derive(Clone, Copy, PartialEq, Eq, Structural, Debug)]
pub enum BusKind {
    Overrun,
    ModeFault,
    FrameFormat,
    ChipSelectFault,
    Other,
}

/// Failure of a driver operation: the device identified itself with an
/// unexpected part ID, or the transport reported a fault.
#[derive(Clone, Copy, PartialEq, Eq, Structural, Debug)]
pub enum Error {
    Id(u16),
    Bus(BusKind),
}

/// The fixed part ID with which the chip identifies itself.
pub const PART_ID: u16 = 0x1982;

/// One completed transaction as the bus model records it: the bytes
/// handed to the device and, for a read, the bytes the device
/// answered.
pub enum Transaction {
    Write { header: Seq<u8>, payload: Seq<u8> },
    Read { header: Seq<u8>, data: Seq<u8> },
}

/// The half-duplex serial transport the driver owns: each register
/// access is one synchronous two-part transaction, header then payload,
/// and transactions never overlap. The platform that owns the physical
/// bus peripheral supplies the implementation.
pub trait DdsBus {
    /// Send the two header bytes, then send the payload bytes.
    fn write_transaction(&mut self, header: &Vec<u8>, payload: &Vec<u8>) -> Result<(), BusKind>;

    /// Send the two header bytes, then read exactly `out.len()` bytes
    /// from the device into `out`. What the device answers is its own;
    /// only the length is promised.
    fn read_transaction(&mut self, header: &Vec<u8>, out: &mut Vec<u8>) -> (r: Result<
        (),
        BusKind,
    >)
        ensures
            final(out)@.len() == old(out)@.len(),
    ;
}

/// The two header bytes that open a transaction on `addr` with a
/// `len`-byte body.
pub open spec fn spec_header_bytes(addr: Addr, len: int, read: bool) -> Seq<u8> {
    let raw = spec_insn_raw(addr, spec_size_of_len(len), read);
    seq![(raw >> 8) as u8, (raw & 0xff) as u8]
}

/// The transaction a register write puts on the wire.
pub open spec fn spec_write_txn(addr: Addr, payload: Seq<u8>) -> Transaction {
    Transaction::Write { header: spec_header_bytes(addr, payload.len() as int, false), payload }
}

/// The transaction a register read of `data.len()` bytes puts on the
/// wire, `data` being what the device answered.
pub open spec fn spec_read_txn(addr: Addr, data: Seq<u8>) -> Transaction {
    Transaction::Read { header: spec_header_bytes(addr, data.len() as int, true), data }
}

/// The two big-endian bytes of a 16-bit word.
pub open spec fn spec_word_be_bytes(v: u16) -> Seq<u8> {
    seq![(v >> 8) as u8, (v & 0xff) as u8]
}

/// Build the two big-endian bytes of a 16-bit word.
fn be_bytes_u16(v: u16) -> (r: Vec<u8>)
    ensures
        r@ == spec_word_be_bytes(v),
{
    let mut r: Vec<u8> = Vec::new();
    r.push((v >> 8) as u8);
    r.push((v & 0xff) as u8);
    proof {
        assert(r@ =~= spec_word_be_bytes(v));
    }
    r
}

/// The 16-bit word two big-endian bytes hold.
pub fn u16_from_be(hi: u8, lo: u8) -> (r: u16)
    ensures
        r == (hi as u16) * 256 + (lo as u16),
{
    proof {
        let h = hi;
        let l = lo;
        assert(((h as u16) << 8) | (l as u16) == (h as u16) * 256 + (l as u16)) by (bit_vector);
    }
    ((hi as u16) << 8) | (lo as u16)
}

/// Accept exactly the chip's fixed part ID; any other observed value is
/// an identity error carrying that exact value.
pub fn check_part_id(id: u16) -> (r: Result<(), Error>)
    ensures
        r is Ok <==> id == PART_ID,
        r matches Err(e) ==> e == Error::Id(id),
{
    if id == PART_ID {
        Ok(())
    } else {
        Err(Error::Id(id))
    }
}

/// The 48-bit word six big-endian bytes hold.
pub open spec fn spec_u48_of_be_bytes(b: Seq<u8>) -> u64
    recommends
        b.len() == 6,
{
    (((b[0] as u64) << 40) | ((b[1] as u64) << 32) | ((b[2] as u64) << 24) | ((b[3] as u64) << 16)
        | ((b[4] as u64) << 8) | (b[5] as u64)) as u64
}

/// The six big-endian bytes of a 48-bit tuning word, most significant
/// first.
pub open spec fn spec_ftw_be_bytes(ftw: u64) -> Seq<u8> {
    seq![
        (ftw >> 40) as u8,
        (ftw >> 32) as u8,
        (ftw >> 24) as u8,
        (ftw >> 16) as u8,
        (ftw >> 8) as u8,
        ftw as u8,
    ]
}

/// The byte encoding of a tuning word loses nothing: reassembling the
/// six bytes read back from the register gives the word that was
/// written, exactly.
pub proof fn lemma_ftw_bytes_lossless(ftw: u64)
    requires
        ftw < 0x1000000000000,
    ensures
        spec_u48_of_be_bytes(spec_ftw_be_bytes(ftw)) == ftw,
{
    let w = ftw;
    assert(w < 0x1000000000000 ==> (((((w >> 40) as u8) as u64) << 40) | ((((w >> 32) as u8)
        as u64) << 32) | ((((w >> 24) as u8) as u64) << 24) | ((((w >> 16) as u8) as u64) << 16)
        | ((((w >> 8) as u8) as u64) << 8) | ((w as u8) as u64)) == w) by (bit_vector);
    assert(spec_ftw_be_bytes(w)[0] == (w >> 40) as u8);
    assert(spec_ftw_be_bytes(w)[1] == (w >> 32) as u8);
    assert(spec_ftw_be_bytes(w)[2] == (w >> 24) as u8);
    assert(spec_ftw_be_bytes(w)[3] == (w >> 16) as u8);
    assert(spec_ftw_be_bytes(w)[4] == (w >> 8) as u8);
    assert(spec_ftw_be_bytes(w)[5] == w as u8);
}

/// Build the six big-endian bytes of a 48-bit tuning word.
pub fn ftw_bytes(ftw: u64) -> (r: Vec<u8>)
    requires
        ftw < 0x1000000000000,
    ensures
        r@ == spec_ftw_be_bytes(ftw),
        spec_u48_of_be_bytes(r@) == ftw,
{
    let mut r: Vec<u8> = Vec::new();
    r.push((ftw >> 40) as u8);
    r.push((ftw >> 32) as u8);
    r.push((ftw >> 24) as u8);
    r.push((ftw >> 16) as u8);
    r.push((ftw >> 8) as u8);
    r.push(ftw as u8);
    proof {
        assert(r@ =~= spec_ftw_be_bytes(ftw));
        lemma_ftw_bytes_lossless(ftw);
    }
    r
}

/// The byte encoding of a word that fits 16 bits loses nothing: the
/// two big-endian bytes reassemble to the word that was written.
pub proof fn lemma_word_bytes_lossless(v: u16)
    ensures
        (spec_word_be_bytes(v)[0] as int) * 256 + (spec_word_be_bytes(v)[1] as int) == v,
{
    let w = v;
    assert((((w >> 8) as u8) as int) * 256 + (((w & 0xff) as u8) as int) == w) by (bit_vector);
}

/// The two big-endian bytes of a word that fits 16 bits, used for the
/// 14-bit phase word and the 10-bit full-scale-current word.
fn word_bytes_u16(v: u16) -> (r: Vec<u8>)
    ensures
        r@ == spec_word_be_bytes(v),
        (r@[0] as int) * 256 + (r@[1] as int) == v,
{
    proof {
        lemma_word_bytes_lossless(v);
    }
    be_bytes_u16(v)
}

/// Register-protocol driver for the synthesizer. It exclusively owns
/// its bus handle for its lifetime, and each operation is one or more
/// whole transactions issued in order, with no partial-success
/// recovery: a failing step aborts and surfaces its error. The ghost
/// history records each transaction as it completes, beside the call
/// that issues it, so every operation's contract can say exactly what
/// was put on the wire.
#[derive(Clone)]
pub struct Ad9912<B> {
    bus: B,
    history: Ghost<Seq<Transaction>>,
}

impl<B: DdsBus> Ad9912<B> {
    /// The completed transactions on the owned bus since construction,
    /// oldest first.
    pub closed spec fn history(&self) -> Seq<Transaction> {
        self.history@
    }

    pub fn new(bus: B) -> (r: Self)
        ensures
            r.history() == Seq::<Transaction>::empty(),
    {
        Ad9912 { bus, history: Ghost(Seq::empty()) }
    }

    /// The owned bus handle, for callers that need to observe it.
    pub fn bus(&self) -> &B {
        &self.bus
    }

    /// One write transaction: a header naming `addr`, read flag clear
    /// and size class taken from the payload length, then the payload.
    fn write(&mut self, addr: Addr, data: &Vec<u8>) -> (r: Result<(), Error>)
        requires
            data@.len() >= 1,
        ensures
            r is Ok ==> final(self).history() == old(self).history().push(
                spec_write_txn(addr, data@),
            ),
            r is Err ==> final(self).history() == old(self).history(),
            r matches Err(e) ==> e is Bus,
    {
        let insn = Instruction::new(addr, Size::from_len(data.len()), false);
        let header = be_bytes_u16(insn.raw_value());
        proof {
            assert(header@ =~= spec_header_bytes(addr, data@.len() as int, false));
        }
        match self.bus.write_transaction(&header, data) {
            Ok(()) => {
                self.history = Ghost(self.history@.push(spec_write_txn(addr, data@)));
                Ok(())
            },
            Err(k) => Err(Error::Bus(k)),
        }
    }

    /// One read transaction: a header naming `addr`, read flag set and
    /// size class taken from the buffer length, then `data.len()` bytes
    /// read back into `data`.
    fn read(&mut self, addr: Addr, data: &mut Vec<u8>) -> (r: Result<(), Error>)
        requires
            old(data)@.len() >= 1,
        ensures
            final(data)@.len() == old(data)@.len(),
            r is Ok ==> final(self).history() == old(self).history().push(
                spec_read_txn(addr, final(data)@),
            ),
            r is Err ==> final(self).history() == old(self).history(),
            r matches Err(e) ==> e is Bus,
    {
        let insn = Instruction::new(addr, Size::from_len(data.len()), true);
        let header = be_bytes_u16(insn.raw_value());
        proof {
            assert(header@ =~= spec_header_bytes(addr, old(data)@.len() as int, true));
        }
        match self.bus.read_transaction(&header, data) {
            Ok(()) => {
                self.history = Ghost(self.history@.push(spec_read_txn(addr, data@)));
                Ok(())
            },
            Err(k) => Err(Error::Bus(k)),
        }
    }

    /// Bring the device to a known serial configuration, verify its
    /// identity, and set the operating power configuration. Must run
    /// once before any other high-level operation. The serial-config
    /// write is mirrored, so the device decodes it correctly whichever
    /// bit order it assumed at power-up. An identity error carries the
    /// part ID the device actually reported, and is returned exactly
    /// when that ID is not the expected one; a transport fault aborts
    /// the step it struck.
    pub fn init(&mut self) -> (r: Result<(), Error>)
        ensures
            r matches Err(Error::Id(v)) ==> v != PART_ID,
            r is Ok ==> ({
                let h = final(self).history();
                let n = old(self).history().len() as int;
                &&& h.len() == n + 3
                &&& forall|i: int| 0 <= i < n ==> h[i] == old(self).history()[i]
                &&& h[n] == spec_write_txn(Addr::Serial, seq![0x99u8])
                &&& h[n + 1] matches Transaction::Read { header, data } && header
                    == spec_header_bytes(Addr::PartId, 2, true) && data.len() == 2 && (
                data[0] as int) * 256 + data[1] == PART_ID
                &&& h[n + 2] == spec_write_txn(Addr::Power, seq![0x80u8])
            }),
            r matches Err(Error::Id(v)) ==> ({
                let h = final(self).history();
                let n = old(self).history().len() as int;
                &&& h.len() == n + 2
                &&& forall|i: int| 0 <= i < n ==> h[i] == old(self).history()[i]
                &&& h[n] == spec_write_txn(Addr::Serial, seq![0x99u8])
                &&& h[n + 1] matches Transaction::Read { header, data } && header
                    == spec_header_bytes(Addr::PartId, 2, true) && data.len() == 2 && (
                data[0] as int) * 256 + data[1] == v
            }),
            r matches Err(Error::Bus(_)) ==> ({
                let h = final(self).history();
                let n = old(self).history().len() as int;
                &&& h.len() <= n + 2
                &&& forall|i: int| 0 <= i < n ==> h[i] == old(self).history()[i]
                &&& h.len() > n ==> h[n] == spec_write_txn(Addr::Serial, seq![0x99u8])
            }),
    {
        let serial = Serial::default()
            .with_sdo_active(true)
            .with_lsb_first(false)
            .with_soft_reset(false)
            .with_long_insn(true)
            .mirror();
        proof {
            assert(spec_mirror((((0x18u8 | 0x01) & !0x02) & !0x04) | 0x08) == 0x99)
                by (bit_vector);
        }
        let mut cfg: Vec<u8> = Vec::new();
        cfg.push(serial.raw_value());
        proof {
            assert(cfg@ =~= seq![0x99u8]);
        }
        match self.write(Addr::Serial, &cfg) {
            Ok(()) => (),
            Err(e) => {
                return Err(e);
            },
        }
        let mut id: Vec<u8> = Vec::new();
        id.push(0);
        id.push(0);
        match self.read(Addr::PartId, &mut id) {
            Ok(()) => (),
            Err(e) => {
                return Err(e);
            },
        }
        let idv = u16_from_be(id[0], id[1]);
        match check_part_id(idv) {
            Ok(()) => (),
            Err(e) => {
                return Err(e);
            },
        }
        let power = Power::default()
            .with_digital_pd(false)
            .with_full_pd(false)
            .with_pll_pd(false)
            .with_output_doubler_en(false)
            .with_cmos_en(false)
            .with_hstl_pd(true);
        proof {
            assert((((((0xc0u8 & !0x01) & !0x02) & !0x10) & !0x20) & !0x40) | 0x80 == 0x80)
                by (bit_vector);
        }
        let mut pw: Vec<u8> = Vec::new();
        pw.push(power.raw_value());
        proof {
            assert(pw@ =~= seq![0x80u8]);
        }
        match self.write(Addr::Power, &pw) {
            Ok(()) => Ok(()),
            Err(e) => Err(e),
        }
    }

    /// Write the serial-config register with its soft-reset flag
    /// asserted, mirrored as every serial-config write is. The reset
    /// does not restore configuration: `init` must run again.
    pub fn soft_reset(&mut self) -> (r: Result<(), Error>)
        ensures
            r is Ok ==> final(self).history() == old(self).history().push(
                spec_write_txn(Addr::Serial, seq![0xbdu8]),
            ),
            r is Err ==> final(self).history() == old(self).history(),
            r matches Err(e) ==> e is Bus,
    {
        let serial = Serial::default()
            .with_sdo_active(true)
            .with_lsb_first(false)
            .with_soft_reset(true)
            .with_long_insn(true)
            .mirror();
        proof {
            assert(spec_mirror(((((0x18u8 | 0x01) & !0x02) | 0x04) | 0x08)) == 0xbd)
                by (bit_vector);
        }
        let mut cfg: Vec<u8> = Vec::new();
        cfg.push(serial.raw_value());
        proof {
            assert(cfg@ =~= seq![0xbdu8]);
        }
        self.write(Addr::Serial, &cfg)
    }

    /// Write the DDS-reset register with value 1. Takes effect only
    /// after the caller issues the device-level update strobe.
    pub fn dds_reset(&mut self) -> (r: Result<(), Error>)
        ensures
            r is Ok ==> final(self).history() == old(self).history().push(
                spec_write_txn(Addr::DdsReset, seq![1u8]),
            ),
            r is Err ==> final(self).history() == old(self).history(),
            r matches Err(e) ==> e is Bus,
    {
        let mut d: Vec<u8> = Vec::new();
        d.push(1);
        proof {
            assert(d@ =~= seq![1u8]);
        }
        self.write(Addr::DdsReset, &d)
    }

    /// Program the PLL: the 5-bit N-divider first, then the PLL control
    /// register. If the second write fails the first has already taken
    /// effect on the device; the caller must treat the PLL state as
    /// indeterminate and issue both writes again.
    pub fn set_pll(&mut self, ndiv: u8, pll: Pll) -> (r: Result<(), Error>)
        requires
            ndiv < 32,
        ensures
            r is Ok ==> final(self).history() == old(self).history().push(
                spec_write_txn(Addr::NDiv, seq![ndiv]),
            ).push(spec_write_txn(Addr::Pll, seq![pll.raw])),
            r is Err ==> final(self).history() == old(self).history() || final(self).history()
                == old(self).history().push(spec_write_txn(Addr::NDiv, seq![ndiv])),
            r matches Err(e) ==> e is Bus,
    {
        let mut n: Vec<u8> = Vec::new();
        n.push(ndiv);
        proof {
            assert(n@ =~= seq![ndiv]);
        }
        match self.write(Addr::NDiv, &n) {
            Ok(()) => (),
            Err(e) => {
                return Err(e);
            },
        }
        let mut p: Vec<u8> = Vec::new();
        p.push(pll.raw_value());
        proof {
            assert(p@ =~= seq![pll.raw]);
        }
        self.write(Addr::Pll, &p)
    }

    /// Write the 48-bit frequency tuning word, six bytes, most
    /// significant first.
    pub fn set_ftw(&mut self, ftw: u64) -> (r: Result<(), Error>)
        requires
            ftw < 0x1000000000000,
        ensures
            r is Ok ==> final(self).history() == old(self).history().push(
                spec_write_txn(Addr::Ftw0, spec_ftw_be_bytes(ftw)),
            ),
            r is Err ==> final(self).history() == old(self).history(),
            r matches Err(e) ==> e is Bus,
    {
        let d = ftw_bytes(ftw);
        self.write(Addr::Ftw0, &d)
    }

    /// Write the 14-bit phase offset word, two bytes, most significant
    /// first.
    pub fn set_pow(&mut self, pow: u16) -> (r: Result<(), Error>)
        requires
            pow < 0x4000,
        ensures
            r is Ok ==> final(self).history() == old(self).history().push(
                spec_write_txn(Addr::Phase, spec_word_be_bytes(pow)),
            ),
            r is Err ==> final(self).history() == old(self).history(),
            r matches Err(e) ==> e is Bus,
    {
        let d = word_bytes_u16(pow);
        self.write(Addr::Phase, &d)
    }

    /// Write the 10-bit full-scale-current word, two bytes, most
    /// significant first.
    pub fn set_fsc(&mut self, fsc: u16) -> (r: Result<(), Error>)
        requires
            fsc < 0x400,
        ensures
            r is Ok ==> final(self).history() == old(self).history().push(
                spec_write_txn(Addr::Fsc, spec_word_be_bytes(fsc)),
            ),
            r is Err ==> final(self).history() == old(self).history(),
            r matches Err(e) ==> e is Bus,
    {
        let d = word_bytes_u16(fsc);
        self.write(Addr::Fsc, &d)
    }
}

} // verus!
