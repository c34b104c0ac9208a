//! SD card register representations.
//!
//! Each register is its raw bit pattern; the accessors decode fields and
//! never change the value they read.

use vstd::prelude::*;
use vstd::string::StringSliceAdditionalSpecFns;
use vstd::utf8::valid_utf8;
use crate::bits::{
    field128, field32, field64, get_field128, get_field32, get_field64, reverse32, reversed32,
};

verus! {

/// Physical Layer Specification version a card reports in its SCR.
#[derive(Debug, Copy, Clone, PartialEq, Eq, Structural)]
pub enum CardVersion {
    V1_0,
    V1_1,
    V2,
    V3,
    V4,
    V5,
    V6,
    V7,
    Unknown,
}

/// Maximum block length of a card.
#[derive(Debug, Copy, Clone, PartialEq, Eq, Structural)]
pub enum BlockSize {
    B512,
    B1024,
    B2048,
}

impl BlockSize {
    /// Base-2 logarithm of the block length in bytes.
    pub open spec fn spec_exponent(self) -> u8 {
        match self {
            BlockSize::B512 => 9,
            BlockSize::B1024 => 10,
            BlockSize::B2048 => 11,
        }
    }

    /// Base-2 logarithm of the block length in bytes.
    #[verifier::when_used_as_spec(spec_exponent)]
    pub fn exponent(self) -> (r: u8)
        ensures
            r == self.spec_exponent(),
    {
        match self {
            BlockSize::B512 => 9,
            BlockSize::B1024 => 10,
            BlockSize::B2048 => 11,
        }
    }
}

/// A current drawn by the card, as one of the steps the CSD can encode.
#[derive(Debug, Copy, Clone, PartialEq, Eq, Structural)]
#[allow(non_camel_case_types)]
pub enum CurrentConsumption {
    I_0mA,
    I_1mA,
    I_5mA,
    I_10mA,
    I_25mA,
    I_35mA,
    I_45mA,
    I_60mA,
    I_80mA,
    I_100mA,
    I_200mA,
}

impl CurrentConsumption {
    /// The current in milliamperes.
    pub open spec fn milliamps(self) -> u32 {
        match self {
            CurrentConsumption::I_0mA => 0,
            CurrentConsumption::I_1mA => 1,
            CurrentConsumption::I_5mA => 5,
            CurrentConsumption::I_10mA => 10,
            CurrentConsumption::I_25mA => 25,
            CurrentConsumption::I_35mA => 35,
            CurrentConsumption::I_45mA => 45,
            CurrentConsumption::I_60mA => 60,
            CurrentConsumption::I_80mA => 80,
            CurrentConsumption::I_100mA => 100,
            CurrentConsumption::I_200mA => 200,
        }
    }

    /// The table for currents at the minimum supply voltage: the milliamperes
    /// that each code stands for, codes above 6 read as the last step.
    pub open spec fn minimum_table(code: u128) -> u32 {
        if code == 0 {
            0
        } else if code == 1 {
            1
        } else if code == 2 {
            5
        } else if code == 3 {
            10
        } else if code == 4 {
            25
        } else if code == 5 {
            35
        } else if code == 6 {
            60
        } else {
            100
        }
    }

    /// The table for currents at the maximum supply voltage: the milliamperes
    /// that each code stands for, codes above 6 read as the last step.
    pub open spec fn maximum_table(code: u128) -> u32 {
        if code == 0 {
            0
        } else if code == 1 {
            5
        } else if code == 2 {
            10
        } else if code == 3 {
            25
        } else if code == 4 {
            35
        } else if code == 5 {
            45
        } else if code == 6 {
            80
        } else {
            200
        }
    }

    /// Decodes a current code of the CSD by the table for the minimum supply
    /// voltage.
    pub fn from_minimum_reg(reg: u128) -> (r: CurrentConsumption)
        ensures
            r.milliamps() == Self::minimum_table(reg),
    {
        match reg {
            0 => CurrentConsumption::I_0mA,
            1 => CurrentConsumption::I_1mA,
            2 => CurrentConsumption::I_5mA,
            3 => CurrentConsumption::I_10mA,
            4 => CurrentConsumption::I_25mA,
            5 => CurrentConsumption::I_35mA,
            6 => CurrentConsumption::I_60mA,
            _ => CurrentConsumption::I_100mA,
        }
    }

    /// Decodes a current code of the CSD by the table for the maximum supply
    /// voltage.
    pub fn from_maximum_reg(reg: u128) -> (r: CurrentConsumption)
        ensures
            r.milliamps() == Self::maximum_table(reg),
    {
        match reg {
            0 => CurrentConsumption::I_0mA,
            1 => CurrentConsumption::I_5mA,
            2 => CurrentConsumption::I_10mA,
            3 => CurrentConsumption::I_25mA,
            4 => CurrentConsumption::I_35mA,
            5 => CurrentConsumption::I_45mA,
            6 => CurrentConsumption::I_80mA,
            _ => CurrentConsumption::I_200mA,
        }
    }
}

impl From<&CurrentConsumption> for u32 {
    fn from(i: &CurrentConsumption) -> (ma: u32) {
        match i {
            CurrentConsumption::I_0mA => 0,
            CurrentConsumption::I_1mA => 1,
            CurrentConsumption::I_5mA => 5,
            CurrentConsumption::I_10mA => 10,
            CurrentConsumption::I_25mA => 25,
            CurrentConsumption::I_35mA => 35,
            CurrentConsumption::I_45mA => 45,
            CurrentConsumption::I_60mA => 60,
            CurrentConsumption::I_80mA => 80,
            CurrentConsumption::I_100mA => 100,
            CurrentConsumption::I_200mA => 200,
        }
    }
}

impl vstd::std_specs::convert::FromSpecImpl<&CurrentConsumption> for u32 {
    open spec fn obeys_from_spec() -> bool {
        true
    }

    open spec fn from_spec(i: &CurrentConsumption) -> u32 {
        i.milliamps()
    }
}

/// Operation Conditions Register (OCR).
#[derive(Clone, Copy, Debug, PartialEq, Eq, Structural)]
pub struct OCR(pub u32);

impl OCR {
    /// Bit `bit` of the raw register.
    pub open spec fn flag(self, bit: u32) -> bool {
        field32(self.0, bit, 1) == 1
    }

    /// Whether the card works in step `k` of the voltage window: the 100 mV
    /// from `2700 + 100 * k` mV upwards. The window has nine steps, one bit
    /// each, from bit 15 of the register.
    pub open spec fn window_step(self, k: int) -> bool {
        0 <= k < 9 && self.flag((15 + k) as u32)
    }

    /// Steps `first` up to, not including, `end` are the lowest run of
    /// supported steps in the voltage window.
    pub open spec fn lowest_run(self, first: int, end: int) -> bool {
        &&& 0 <= first < end <= 9
        &&& forall|k: int| 0 <= k < first ==> !self.window_step(k)
        &&& forall|k: int| first <= k < end ==> self.window_step(k)
        &&& !self.window_step(end)
    }

    /// The step of the voltage window at which `millivolts` lies.
    pub open spec fn step_at(millivolts: u16) -> int {
        (millivolts - 2700) / 100
    }

    /// `millivolts` is the bound of a step of the voltage window.
    pub open spec fn is_step_bound(millivolts: u16) -> bool {
        millivolts == 2700 + 100 * Self::step_at(millivolts)
    }

    /// VDD voltage window: the bounds in millivolts of the lowest run of
    /// supported steps, or `None` where the window field is all zero.
    pub fn voltage_window_mv(&self) -> (r: Option<(u16, u16)>)
        ensures
            r is None <==> field32(self.0, 15, 0x1FF) == 0,
            r is None <==> forall|k: int| !self.window_step(k),
            r matches Some((min, max)) ==> {
                &&& Self::is_step_bound(min)
                &&& Self::is_step_bound(max)
                &&& self.lowest_run(Self::step_at(min), Self::step_at(max))
            },
    {
        let word: u32 = self.0;
        assert(field32(word, 15, 0x1FF) == 0 <==> (field32(word, 15, 1) != 1 && field32(
            word,
            16,
            1,
        ) != 1 && field32(word, 17, 1) != 1 && field32(word, 18, 1) != 1 && field32(word, 19, 1)
            != 1 && field32(word, 20, 1) != 1 && field32(word, 21, 1) != 1 && field32(word, 22, 1)
            != 1 && field32(word, 23, 1) != 1)) by (bit_vector);
        let mut first: u32 = 0;
        while first < 9 && get_field32(word, 15 + first, 1) != 1
            invariant
                word == self.0,
                first <= 9,
                forall|k: int| 0 <= k < first ==> !self.window_step(k),
            decreases 9 - first,
        {
            first = first + 1;
        }
        if first == 9 {
            assert(!self.window_step(0) && !self.window_step(1) && !self.window_step(2)
                && !self.window_step(3) && !self.window_step(4) && !self.window_step(5)
                && !self.window_step(6) && !self.window_step(7) && !self.window_step(8));
            return None;
        }
        assert(self.window_step(first as int));
        assert(first == 0 || first == 1 || first == 2 || first == 3 || first == 4 || first == 5
            || first == 6 || first == 7 || first == 8);
        let mut end: u32 = first + 1;
        while end < 9 && get_field32(word, 15 + end, 1) == 1
            invariant
                word == self.0,
                first < end <= 9,
                forall|k: int| first <= k < end ==> self.window_step(k),
            decreases 9 - end,
        {
            end = end + 1;
        }
        let min: u16 = (2700 + 100 * first) as u16;
        let max: u16 = (2700 + 100 * end) as u16;
        assert(self.lowest_run(first as int, end as int));
        Some((min, max))
    }

    /// Switching to 1.8V Accepted (S18A). Only UHS-I cards support this bit.
    pub fn s18a(&self) -> (r: bool)
        ensures
            r == self.flag(24),
    {
        get_field32(self.0, 24, 1) == 1
    }

    /// Indicates whether the card supports UHS-II Interface.
    pub fn uhs_ii(&self) -> (r: bool)
        ensures
            r == self.flag(29),
    {
        get_field32(self.0, 29, 1) == 1
    }

    /// Card Capacity Status (CCS). True for SDHC/SDXC/SDUC.
    pub fn ccs(&self) -> (r: bool)
        ensures
            r == self.flag(30),
    {
        get_field32(self.0, 30, 1) == 1
    }

    /// Card power up status bit (busy). The bit is active low: the card is
    /// busy while bit 31 is clear.
    pub fn is_busy(&self) -> (r: bool)
        ensures
            r == !self.flag(31),
    {
        get_field32(self.0, 31, 1) != 1
    }
}

/// Card Specific Data (CSD).
#[derive(Clone, Copy, Debug, PartialEq, Eq, Structural)]
pub struct CSD(pub u128);

impl CSD {
    /// CSD structure version: the two highest bits of the register.
    pub open spec fn spec_csd_version(self) -> u8 {
        field128(self.0, 126, 3) as u8
    }

    /// The number of blocks that the capacity fields encode. The structure
    /// version selects the formula: version 0 multiplies the 12-bit size
    /// field plus one by two to the power of the 3-bit multiplier field plus
    /// two; versions 1 and 2 add one to a size field of 22 and 28 bits; any
    /// other version counts no blocks.
    pub open spec fn spec_block_count(self) -> int {
        let version = self.spec_csd_version();
        if version == 0 {
            (field128(self.0, 62, 0xFFF) + 1) * vstd::arithmetic::power2::pow2(
                (field128(self.0, 47, 7) + 2) as nat,
            )
        } else if version == 1 {
            field128(self.0, 48, 0x3F_FFFF) + 1
        } else if version == 2 {
            field128(self.0, 48, 0xFFF_FFFF) + 1
        } else {
            0
        }
    }

    /// The erase size in blocks: one where single blocks can be erased,
    /// else the sector size, whose tens and units are two fields.
    pub open spec fn spec_erase_size_blocks(self) -> int {
        if field128(self.0, 46, 1) == 1 {
            1
        } else {
            field128(self.0, 43, 7) * 10 + field128(self.0, 39, 0xF)
        }
    }

    /// No card counts more than 2^28 blocks.
    pub proof fn lemma_block_count_bound(self)
        ensures
            0 <= self.spec_block_count() <= 0x1000_0000,
    {
        let raw: u128 = self.0;
        let size = field128(raw, 62, 0xFFF);
        let mult = field128(raw, 47, 7);
        assert(size <= 0xFFF && mult <= 7 && field128(raw, 48, 0x3F_FFFF) <= 0x3F_FFFF
            && field128(raw, 48, 0xFFF_FFFF) <= 0xFFF_FFFF) by (bit_vector)
            requires
                size == field128(raw, 62, 0xFFF),
                mult == field128(raw, 47, 7),
        ;
        vstd::arithmetic::power2::lemma2_to64();
        let factor = vstd::arithmetic::power2::pow2((mult + 2) as nat);
        assert(mult == 0 || mult == 1 || mult == 2 || mult == 3 || mult == 4 || mult == 5 || mult
            == 6 || mult == 7);
        assert(0 <= (size + 1) * factor <= 4096 * 512) by (nonlinear_arith)
            requires
                0 <= size <= 0xFFF,
                0 < factor <= 512,
        ;
    }

    /// CSD structure version.
    pub fn csd_version(&self) -> (r: u8)
        ensures
            r == self.spec_csd_version(),
            r <= 3,
    {
        get_field128(self.0, 126, 3) as u8
    }

    /// Maximum data transfer rate per one data line.
    pub fn tranfer_rate(&self) -> (r: u8)
        ensures
            r == field128(self.0, 96, 0xFF),
    {
        get_field128(self.0, 96, 0xFF) as u8
    }

    /// Maximum block length. In an SD Memory Card the WRITE_BL_LEN is
    /// always equal to READ_BL_LEN. The length is read from the register
    /// shifted right by 80 bits, as a whole.
    pub fn block_length(&self) -> (r: Option<BlockSize>)
        ensures
            r == (if self.0 >> 80u32 == 9 {
                Some(BlockSize::B512)
            } else if self.0 >> 80u32 == 10 {
                Some(BlockSize::B1024)
            } else if self.0 >> 80u32 == 11 {
                Some(BlockSize::B2048)
            } else {
                None
            }),
    {
        let length: u128 = self.0 >> 80u32;
        if length == 9 {
            Some(BlockSize::B512)
        } else if length == 10 {
            Some(BlockSize::B1024)
        } else if length == 11 {
            Some(BlockSize::B2048)
        } else {
            None
        }
    }

    /// Number of blocks in the card.
    pub fn block_count(&self) -> (r: u32)
        ensures
            r == self.spec_block_count(),
    {
        let version: u8 = self.csd_version();
        if version == 0 {
            let c_size: u32 = get_field128(self.0, 62, 0xFFF) as u32;
            let c_size_mult: u32 = get_field128(self.0, 47, 7) as u32;
            let factor: u32 = 1u32 << (c_size_mult + 2);
            proof {
                let e: u32 = (c_size_mult + 2) as u32;
                assert(1u32 << e <= 512) by (bit_vector)
                    requires
                        e <= 9,
                ;
                vstd::arithmetic::power2::lemma2_to64();
                assert(e == 2 || e == 3 || e == 4 || e == 5 || e == 6 || e == 7 || e == 8 || e == 9);
                vstd::bits::lemma_u32_shl_is_mul(1u32, e);
                assert(factor == vstd::arithmetic::power2::pow2(e as nat));
                assert((c_size + 1) * factor <= 4096 * 512) by (nonlinear_arith)
                    requires
                        c_size <= 0xFFF,
                        factor <= 512,
                ;
            }
            (c_size + 1) * factor
        } else if version == 1 {
            get_field128(self.0, 48, 0x3F_FFFF) as u32 + 1
        } else if version == 2 {
            get_field128(self.0, 48, 0xFFF_FFFF) as u32 + 1
        } else {
            0
        }
    }

    /// Maximum read current at the minimum VDD: the 3-bit code at bit 59.
    pub fn read_current_minimum_vdd(&self) -> (r: CurrentConsumption)
        ensures
            r.milliamps() == CurrentConsumption::minimum_table(field128(self.0, 59, 7)),
    {
        CurrentConsumption::from_minimum_reg(get_field128(self.0, 59, 7))
    }

    /// Maximum write current at the minimum VDD: the 3-bit code at bit 56.
    pub fn write_current_minimum_vdd(&self) -> (r: CurrentConsumption)
        ensures
            r.milliamps() == CurrentConsumption::minimum_table(field128(self.0, 56, 7)),
    {
        CurrentConsumption::from_minimum_reg(get_field128(self.0, 56, 7))
    }

    /// Maximum read current at the maximum VDD: the 3-bit code at bit 53.
    pub fn read_current_maximum_vdd(&self) -> (r: CurrentConsumption)
        ensures
            r.milliamps() == CurrentConsumption::maximum_table(field128(self.0, 53, 7)),
    {
        CurrentConsumption::from_maximum_reg(get_field128(self.0, 53, 7))
    }

    /// Maximum write current at the maximum VDD: the 3-bit code at bit 50.
    pub fn write_current_maximum_vdd(&self) -> (r: CurrentConsumption)
        ensures
            r.milliamps() == CurrentConsumption::maximum_table(field128(self.0, 50, 7)),
    {
        CurrentConsumption::from_maximum_reg(get_field128(self.0, 50, 7))
    }

    /// Erase size (in blocks).
    pub fn erase_size_blocks(&self) -> (r: u32)
        ensures
            r == self.spec_erase_size_blocks(),
    {
        if get_field128(self.0, 46, 1) == 1 {
            1
        } else {
            let sector_size_tens: u32 = get_field128(self.0, 43, 7) as u32;
            let sector_size_units: u32 = get_field128(self.0, 39, 0xF) as u32;
            sector_size_tens * 10 + sector_size_units
        }
    }
}

/// SD CARD Configuration Register (SCR).
#[derive(Clone, Copy, Debug, PartialEq, Eq, Structural)]
pub struct SCR(pub u64);

impl SCR {
    /// The version that a tuple of the four version fields stands for, by
    /// the table of the Physical Layer Specification.
    pub open spec fn version_of(spec: u64, spec3: u64, spec4: u64, specx: u64) -> CardVersion {
        if spec == 0 && spec3 == 0 && spec4 == 0 && specx == 0 {
            CardVersion::V1_0
        } else if spec == 1 && spec3 == 0 && spec4 == 0 && specx == 0 {
            CardVersion::V1_1
        } else if spec == 2 && spec3 == 0 && spec4 == 0 && specx == 0 {
            CardVersion::V2
        } else if spec == 2 && spec3 == 1 && spec4 == 0 && specx == 0 {
            CardVersion::V3
        } else if spec == 2 && spec3 == 1 && spec4 == 1 && specx == 0 {
            CardVersion::V4
        } else if spec == 2 && spec3 == 1 && specx == 1 {
            CardVersion::V5
        } else if spec == 2 && spec3 == 1 && specx == 2 {
            CardVersion::V6
        } else if spec == 2 && spec3 == 1 && specx == 3 {
            CardVersion::V7
        } else {
            CardVersion::Unknown
        }
    }

    /// Physical Layer Specification Version Number.
    pub fn version(&self) -> (r: CardVersion)
        ensures
            r == Self::version_of(
                field64(self.0, 56, 0xF),
                field64(self.0, 47, 1),
                field64(self.0, 42, 1),
                field64(self.0, 38, 0xF),
            ),
    {
        let spec: u64 = get_field64(self.0, 56, 0xF);
        let spec3: u64 = get_field64(self.0, 47, 1);
        let spec4: u64 = get_field64(self.0, 42, 1);
        let specx: u64 = get_field64(self.0, 38, 0xF);
        match (spec, spec3, spec4, specx) {
            (0, 0, 0, 0) => CardVersion::V1_0,
            (1, 0, 0, 0) => CardVersion::V1_1,
            (2, 0, 0, 0) => CardVersion::V2,
            (2, 1, 0, 0) => CardVersion::V3,
            (2, 1, 1, 0) => CardVersion::V4,
            (2, 1, _, 1) => CardVersion::V5,
            (2, 1, _, 2) => CardVersion::V6,
            (2, 1, _, 3) => CardVersion::V7,
            _ => CardVersion::Unknown,
        }
    }

    /// Supports 1-bit bus width.
    pub fn bus_width_one(&self) -> (r: bool)
        ensures
            r == (field64(self.0, 48, 1) == 1),
    {
        get_field64(self.0, 48, 1) == 1
    }

    /// Supports 4-bit bus width.
    pub fn bus_width_four(&self) -> (r: bool)
        ensures
            r == (field64(self.0, 50, 1) == 1),
    {
        get_field64(self.0, 50, 1) == 1
    }
}

/// Card Identification Register (CID).
#[derive(Clone, Copy, Debug)]
pub struct CID {
    inner: u128,
    bytes: [u8; 16],
}

impl CID {
    /// The 128 bits of the register.
    pub closed spec fn raw(self) -> u128 {
        self.inner
    }

    /// Byte `i` of the register, counted from its high end.
    pub open spec fn byte(self, i: int) -> u8 {
        field128(self.raw(), (8 * (15 - i)) as u32, 0xFF) as u8
    }

    /// Bytes 1 and 2 of the register.
    pub open spec fn oem_bytes(self) -> Seq<u8> {
        seq![self.byte(1), self.byte(2)]
    }

    /// Bytes 3 to 7 of the register.
    pub open spec fn product_bytes(self) -> Seq<u8> {
        seq![self.byte(3), self.byte(4), self.byte(5), self.byte(6), self.byte(7)]
    }

    #[verifier::type_invariant]
    spec fn bytes_match(self) -> bool {
        forall|i: int| 0 <= i < 16 ==> self.bytes[i] == #[trigger] self.byte(i)
    }

    /// The first `count` bytes of the register, counted from its high end,
    /// followed by zeros.
    closed spec fn leading_bytes(inner: u128, count: nat) -> [u8; 16]
        decreases count,
    {
        if count == 0 {
            vstd::array::spec_array_fill_for_copy_type::<u8, 16>(0u8)
        } else {
            vstd::array::spec_array_update(
                Self::leading_bytes(inner, (count - 1) as nat),
                count - 1,
                field128(inner, (8 * (15 - (count - 1))) as u32, 0xFF) as u8,
            )
        }
    }

    /// The CID of 128 bits.
    pub closed spec fn spec_new(inner: u128) -> CID {
        CID { inner, bytes: Self::leading_bytes(inner, 16) }
    }

    /// The CID of 128 bits holds these bits.
    pub proof fn lemma_new_raw(inner: u128)
        ensures
            Self::spec_new(inner).raw() == inner,
    {
    }

    /// A new CID from 128 bits.
    #[verifier::when_used_as_spec(spec_new)]
    pub fn new(inner: u128) -> (r: Self)
        ensures
            r == Self::spec_new(inner),
            r.raw() == inner,
    {
        let mut bytes: [u8; 16] = [0u8; 16];
        let mut i: usize = 0;
        while i < 16
            invariant
                i <= 16,
                bytes == Self::leading_bytes(inner, i as nat),
                forall|k: int|
                    0 <= k < i ==> bytes[k] == field128(inner, (8 * (15 - k)) as u32, 0xFF) as u8,
            decreases 16 - i,
        {
            let offset: u32 = 8 * (15 - i as u32);
            bytes[i] = get_field128(inner, offset, 0xFF) as u8;
            i = i + 1;
        }
        CID { inner, bytes }
    }

    /// Manufacturer ID.
    pub fn manufacturer_id(&self) -> (r: u8)
        ensures
            r == self.byte(0),
    {
        proof {
            use_type_invariant(self);
        }
        self.bytes[0]
    }

    /// OEM/Application ID: the text of bytes 1 and 2, or `<ERR>` where they
    /// are not well-formed.
    pub fn oem_id(&self) -> (r: &str)
        ensures
            valid_utf8(self.oem_bytes()) ==> r.spec_bytes() == self.oem_bytes(),
            !valid_utf8(self.oem_bytes()) ==> r@ == "<ERR>"@,
    {
        proof {
            use_type_invariant(self);
        }
        let field: &[u8] = &self.bytes[1..3];
        assert(field@ =~= self.oem_bytes());
        match text_of(field) {
            Some(text) => text,
            None => "<ERR>",
        }
    }

    /// Product name: the text of bytes 3 to 7, or `<ERR>` where they are not
    /// well-formed.
    pub fn product_name(&self) -> (r: &str)
        ensures
            valid_utf8(self.product_bytes()) ==> r.spec_bytes() == self.product_bytes(),
            !valid_utf8(self.product_bytes()) ==> r@ == "<ERR>"@,
    {
        proof {
            use_type_invariant(self);
        }
        let field: &[u8] = &self.bytes[3..8];
        assert(field@ =~= self.product_bytes());
        match text_of(field) {
            Some(text) => text,
            None => "<ERR>",
        }
    }

    /// Product revision.
    pub fn product_revision(&self) -> (r: u8)
        ensures
            r == self.byte(8),
    {
        proof {
            use_type_invariant(self);
        }
        self.bytes[8]
    }

    /// Product serial number: bits 32 to 63 of the register.
    pub fn product_serial_number(&self) -> (r: u32)
        ensures
            r == field128(self.raw(), 32, 0xFFFF_FFFF),
    {
        get_field128(self.inner, 32, 0xFFFF_FFFF) as u32
    }

    /// Manufacturing date: the month, 4 bits from bit 8, and the year, which
    /// is 2000 more than the 8 bits from bit 12.
    pub fn manufacturing_date(&self) -> (r: (u8, u16))
        ensures
            r.0 == field128(self.raw(), 8, 0xF),
            r.1 == field128(self.raw(), 12, 0xFF) + 2000,
    {
        (
            get_field128(self.inner, 8, 0xF) as u8,
            get_field128(self.inner, 12, 0xFF) as u16 + 2000,
        )
    }
}

impl Default for CID {
    fn default() -> (r: Self)
        ensures
            r.raw() == 0,
    {
        CID::new(0)
    }
}

/// A field of ASCII bytes is well-formed text, so it never reads as the
/// sentinel.
pub proof fn lemma_ascii_is_well_formed(bytes: Seq<u8>)
    requires
        forall|i: int| 0 <= i < bytes.len() ==> bytes[i] < 0x80,
    ensures
        valid_utf8(bytes),
{
    assert(bytes.subrange(0, 0) =~= Seq::<u8>::empty());
    assert(vstd::utf8::partial_valid_utf8(bytes, 0));
    assert forall|i: int| 0 <= i < bytes.len() implies #[trigger] vstd::utf8::is_leading_byte_width_1(
        bytes[i],
    ) by {}
    vstd::utf8::partial_valid_utf8_extend_ascii_block(bytes, 0, bytes.len() as int);
    assert(bytes.subrange(0, bytes.len() as int) =~= bytes);
}

/// `core::str::from_utf8`: the string slice over `bytes` where they are
/// well-formed UTF-8, and `None` where they are not. The slice is not copied:
/// the text has exactly these bytes.
#[verifier::external_body]
fn text_of(bytes: &[u8]) -> (r: Option<&str>)
    ensures
        r is Some <==> valid_utf8(bytes@),
        r matches Some(text) ==> text.spec_bytes() == bytes@,
{
    core::str::from_utf8(bytes).ok()
}

/// SD Status.
#[derive(Clone, Copy, Debug)]
pub struct SDStatus {
    inner: [u32; 16],
}

impl SDStatus {
    /// Word `i` of the sixteen that make up the status, in the order in
    /// which they were received.
    pub closed spec fn word(self, i: int) -> u32 {
        self.inner[i]
    }

    /// The SD status of sixteen words.
    pub closed spec fn spec_new(inner: [u32; 16]) -> SDStatus {
        SDStatus { inner }
    }

    /// The SD status of sixteen words holds these words.
    pub proof fn lemma_new_words(inner: [u32; 16], i: int)
        ensures
            Self::spec_new(inner).word(i) == inner[i],
    {
    }

    /// A new SD Status from sixteen words (512 bits).
    #[verifier::when_used_as_spec(spec_new)]
    pub fn new(inner: [u32; 16]) -> (r: Self)
        ensures
            r == Self::spec_new(inner),
            forall|i: int| 0 <= i < 16 ==> r.word(i) == inner[i],
    {
        SDStatus { inner }
    }

    /// SDHC / SDXC: Capacity of Protected Area in bytes. The card sends the
    /// number high byte first, so it is word 1 with its bytes reversed.
    pub fn size_of_protected_area(&self) -> (r: u32)
        ensures
            r == reversed32(self.word(1)),
    {
        reverse32(self.inner[1])
    }

    /// Speed Class.
    pub fn speed_class(&self) -> (r: u8)
        ensures
            r == field32(self.word(2), 0, 0xFF),
    {
        get_field32(self.inner[2], 0, 0xFF) as u8
    }

    /// "Performance Move" indicator in 1 MB/s units.
    pub fn move_performance(&self) -> (r: u8)
        ensures
            r == field32(self.word(2), 8, 0xFF),
    {
        get_field32(self.inner[2], 8, 0xFF) as u8
    }

    /// Allocation Unit (AU) size.
    pub fn allocation_unit_size(&self) -> (r: u8)
        ensures
            r == field32(self.word(3), 20, 0xF),
    {
        get_field32(self.inner[3], 20, 0xF) as u8
    }

    /// Indicates N_Erase, in units of AU. The high byte is the top byte of
    /// word 2, the low byte the bottom byte of word 3.
    pub fn erase_size(&self) -> (r: u16)
        ensures
            r == field32(self.word(2), 24, 0xFF) * 256 + field32(self.word(3), 0, 0xFF),
    {
        let high: u16 = get_field32(self.inner[2], 24, 0xFF) as u16;
        let low: u16 = get_field32(self.inner[3], 0, 0xFF) as u16;
        high * 256 + low
    }

    /// Indicates T_Erase.
    pub fn erase_timeout(&self) -> (r: u8)
        ensures
            r == field32(self.word(3), 10, 0x3F),
    {
        get_field32(self.inner[3], 10, 0x3F) as u8
    }
}

impl Default for SDStatus {
    fn default() -> (r: Self)
        ensures
            forall|i: int| 0 <= i < 16 ==> r.word(i) == 0,
    {
        SDStatus { inner: [0u32; 16] }
    }
}

impl Default for OCR {
    fn default() -> (r: Self)
        ensures
            r == OCR(0),
    {
        OCR(0)
    }
}

impl Default for CSD {
    fn default() -> (r: Self)
        ensures
            r == CSD(0),
    {
        CSD(0)
    }
}

impl Default for SCR {
    fn default() -> (r: Self)
        ensures
            r == SCR(0),
    {
        SCR(0)
    }
}

} // verus!
