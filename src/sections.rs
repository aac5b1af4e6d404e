//! The layouts of the section records: field order, widths and byte offsets,
//! and the fields that carry constraints. Fields named `unkXX` have no known
//! meaning; `XX` is their byte offset in the record.
use crate::bytes::{
    lemma_pack_u16_u8s, lemma_pack_u8s, lemma_word_bytes, pack_u16_u8s, pack_u8s, read_u16,
    read_u32, read_u8, u16_at, u32_at,
};
use crate::record::{FieldCheck, Record, U32Field};
use vstd::prelude::*;

verus! {

/// Root of the Section1 tree; points at one Section2 container.
#[derive(Clone, Copy, Debug, PartialEq, Eq, Structural)]
pub struct Section1Container {
    pub unk00: u32,
    pub section2_count: u32,
    pub section2_offset: u32,
    pub unk0c: u32,
}

impl Record for Section1Container {
    open spec fn spec_size() -> nat {
        16
    }

    open spec fn spec_read(s: Seq<u8>, off: int) -> Self {
        Section1Container {
            unk00: u32_at(s, off),
            section2_count: u32_at(s, off + 4),
            section2_offset: u32_at(s, off + 8),
            unk0c: u32_at(s, off + 12),
        }
    }

    open spec fn spec_words(self) -> Seq<u32> {
        seq![
            self.unk00,
            self.section2_count,
            self.section2_offset,
            self.unk0c,
        ]
    }

    open spec fn spec_checks(self) -> Seq<FieldCheck> {
        seq![
            FieldCheck { field: 0x00, value: self.unk00, min: 0, max: 0 },
            FieldCheck { field: 0x0c, value: self.unk0c, min: 0, max: 0 },
        ]
    }

    fn size() -> usize {
        16
    }

    fn read(data: &[u8], off: usize) -> Self {
        Section1Container {
            unk00: read_u32(data, off),
            section2_count: read_u32(data, off + 4),
            section2_offset: read_u32(data, off + 8),
            unk0c: read_u32(data, off + 12),
        }
    }

    fn checks(&self) -> Vec<FieldCheck> {
        let mut v: Vec<FieldCheck> = Vec::new();
        v.push(FieldCheck { field: 0x00, value: self.unk00, min: 0, max: 0 });
        v.push(FieldCheck { field: 0x0c, value: self.unk0c, min: 0, max: 0 });
        proof {
            assert(v@ =~= self.spec_checks());
        }
        v
    }

    proof fn lemma_size() {
    }

    proof fn lemma_round_trip(self) {
        lemma_word_bytes(self.spec_words());
    }
}

/// Second level of the Section1 tree; points at the Section3 entries.
#[derive(Clone, Copy, Debug, PartialEq, Eq, Structural)]
pub struct Section2Container {
    pub unk00: u32,
    pub section3_count: u32,
    pub section3_offset: u32,
    pub unk0c: u32,
}

impl Record for Section2Container {
    open spec fn spec_size() -> nat {
        16
    }

    open spec fn spec_read(s: Seq<u8>, off: int) -> Self {
        Section2Container {
            unk00: u32_at(s, off),
            section3_count: u32_at(s, off + 4),
            section3_offset: u32_at(s, off + 8),
            unk0c: u32_at(s, off + 12),
        }
    }

    open spec fn spec_words(self) -> Seq<u32> {
        seq![
            self.unk00,
            self.section3_count,
            self.section3_offset,
            self.unk0c,
        ]
    }

    open spec fn spec_checks(self) -> Seq<FieldCheck> {
        seq![
            FieldCheck { field: 0x00, value: self.unk00, min: 0, max: 0 },
            FieldCheck { field: 0x0c, value: self.unk0c, min: 0, max: 0 },
        ]
    }

    fn size() -> usize {
        16
    }

    fn read(data: &[u8], off: usize) -> Self {
        Section2Container {
            unk00: read_u32(data, off),
            section3_count: read_u32(data, off + 4),
            section3_offset: read_u32(data, off + 8),
            unk0c: read_u32(data, off + 12),
        }
    }

    fn checks(&self) -> Vec<FieldCheck> {
        let mut v: Vec<FieldCheck> = Vec::new();
        v.push(FieldCheck { field: 0x00, value: self.unk00, min: 0, max: 0 });
        v.push(FieldCheck { field: 0x0c, value: self.unk0c, min: 0, max: 0 });
        proof {
            assert(v@ =~= self.spec_checks());
        }
        v
    }

    proof fn lemma_size() {
    }

    proof fn lemma_round_trip(self) {
        lemma_word_bytes(self.spec_words());
    }
}

/// Leaf entry of the Section1 tree. Its two Section11 offsets are recorded, not followed.
#[derive(Clone, Copy, Debug, PartialEq, Eq, Structural)]
pub struct Section3Entry {
    pub unk00: u16,
    pub unk01: u8,
    pub unk02: u8,
    pub unk04: u32,
    pub unk08: u32,
    pub unk0c: u32,
    pub unk10: u32,
    pub unk14: u32,
    pub unk18: u32,
    pub unk1c: u32,
    pub section11_offset1: u32,
    pub unk24: u32,
    pub unk28: u32,
    pub unk2c: u32,
    pub unk30: u32,
    pub unk34: u32,
    pub unk38: u32,
    pub unk3c: u32,
    pub unk40: u32,
    pub unk44: u32,
    pub section11_offset2: u32,
    pub unk4c: u32,
    pub unk50: u32,
    pub unk54: u32,
    pub unk58: u32,
    pub unk5c: u32,
}

impl Record for Section3Entry {
    open spec fn spec_size() -> nat {
        96
    }

    open spec fn spec_read(s: Seq<u8>, off: int) -> Self {
        Section3Entry {
            unk00: u16_at(s, off),
            unk01: s[off + 2],
            unk02: s[off + 3],
            unk04: u32_at(s, off + 4),
            unk08: u32_at(s, off + 8),
            unk0c: u32_at(s, off + 12),
            unk10: u32_at(s, off + 16),
            unk14: u32_at(s, off + 20),
            unk18: u32_at(s, off + 24),
            unk1c: u32_at(s, off + 28),
            section11_offset1: u32_at(s, off + 32),
            unk24: u32_at(s, off + 36),
            unk28: u32_at(s, off + 40),
            unk2c: u32_at(s, off + 44),
            unk30: u32_at(s, off + 48),
            unk34: u32_at(s, off + 52),
            unk38: u32_at(s, off + 56),
            unk3c: u32_at(s, off + 60),
            unk40: u32_at(s, off + 64),
            unk44: u32_at(s, off + 68),
            section11_offset2: u32_at(s, off + 72),
            unk4c: u32_at(s, off + 76),
            unk50: u32_at(s, off + 80),
            unk54: u32_at(s, off + 84),
            unk58: u32_at(s, off + 88),
            unk5c: u32_at(s, off + 92),
        }
    }

    open spec fn spec_words(self) -> Seq<u32> {
        seq![
            pack_u16_u8s(self.unk00, self.unk01, self.unk02),
            self.unk04,
            self.unk08,
            self.unk0c,
            self.unk10,
            self.unk14,
            self.unk18,
            self.unk1c,
            self.section11_offset1,
            self.unk24,
            self.unk28,
            self.unk2c,
            self.unk30,
            self.unk34,
            self.unk38,
            self.unk3c,
            self.unk40,
            self.unk44,
            self.section11_offset2,
            self.unk4c,
            self.unk50,
            self.unk54,
            self.unk58,
            self.unk5c,
        ]
    }

    open spec fn spec_checks(self) -> Seq<FieldCheck> {
        seq![
            FieldCheck { field: 0x02, value: self.unk01 as u32, min: 0, max: 0 },
            FieldCheck { field: 0x03, value: self.unk02 as u32, min: 1, max: 1 },
            FieldCheck { field: 0x04, value: self.unk04, min: 0, max: 0 },
            FieldCheck { field: 0x0c, value: self.unk0c, min: 0, max: 0 },
            FieldCheck { field: 0x14, value: self.unk14, min: 0, max: 0 },
            FieldCheck { field: 0x18, value: self.unk18, min: 1, max: 1 },
            FieldCheck { field: 0x1c, value: self.unk1c, min: 0, max: 0 },
            FieldCheck { field: 0x24, value: self.unk24, min: 0, max: 0 },
            FieldCheck { field: 0x28, value: self.unk28, min: 0, max: 0 },
            FieldCheck { field: 0x2c, value: self.unk2c, min: 0, max: 0 },
            FieldCheck { field: 0x30, value: self.unk30, min: 0, max: 0 },
            FieldCheck { field: 0x34, value: self.unk34, min: 0, max: 0 },
            FieldCheck { field: 0x38, value: self.unk38, min: 0x100fffc, max: 0x100fffd },
            FieldCheck { field: 0x3c, value: self.unk3c, min: 0, max: 0 },
            FieldCheck { field: 0x40, value: self.unk40, min: 0, max: 1 },
            FieldCheck { field: 0x44, value: self.unk44, min: 0, max: 0 },
            FieldCheck { field: 0x4c, value: self.unk4c, min: 0, max: 0 },
            FieldCheck { field: 0x50, value: self.unk50, min: 0, max: 0 },
            FieldCheck { field: 0x54, value: self.unk54, min: 0, max: 0 },
            FieldCheck { field: 0x58, value: self.unk58, min: 0, max: 0 },
            FieldCheck { field: 0x5c, value: self.unk5c, min: 0, max: 0 },
        ]
    }

    fn size() -> usize {
        96
    }

    fn read(data: &[u8], off: usize) -> Self {
        Section3Entry {
            unk00: read_u16(data, off),
            unk01: read_u8(data, off + 2),
            unk02: read_u8(data, off + 3),
            unk04: read_u32(data, off + 4),
            unk08: read_u32(data, off + 8),
            unk0c: read_u32(data, off + 12),
            unk10: read_u32(data, off + 16),
            unk14: read_u32(data, off + 20),
            unk18: read_u32(data, off + 24),
            unk1c: read_u32(data, off + 28),
            section11_offset1: read_u32(data, off + 32),
            unk24: read_u32(data, off + 36),
            unk28: read_u32(data, off + 40),
            unk2c: read_u32(data, off + 44),
            unk30: read_u32(data, off + 48),
            unk34: read_u32(data, off + 52),
            unk38: read_u32(data, off + 56),
            unk3c: read_u32(data, off + 60),
            unk40: read_u32(data, off + 64),
            unk44: read_u32(data, off + 68),
            section11_offset2: read_u32(data, off + 72),
            unk4c: read_u32(data, off + 76),
            unk50: read_u32(data, off + 80),
            unk54: read_u32(data, off + 84),
            unk58: read_u32(data, off + 88),
            unk5c: read_u32(data, off + 92),
        }
    }

    fn checks(&self) -> Vec<FieldCheck> {
        let mut v: Vec<FieldCheck> = Vec::new();
        v.push(FieldCheck { field: 0x02, value: self.unk01 as u32, min: 0, max: 0 });
        v.push(FieldCheck { field: 0x03, value: self.unk02 as u32, min: 1, max: 1 });
        v.push(FieldCheck { field: 0x04, value: self.unk04, min: 0, max: 0 });
        v.push(FieldCheck { field: 0x0c, value: self.unk0c, min: 0, max: 0 });
        v.push(FieldCheck { field: 0x14, value: self.unk14, min: 0, max: 0 });
        v.push(FieldCheck { field: 0x18, value: self.unk18, min: 1, max: 1 });
        v.push(FieldCheck { field: 0x1c, value: self.unk1c, min: 0, max: 0 });
        v.push(FieldCheck { field: 0x24, value: self.unk24, min: 0, max: 0 });
        v.push(FieldCheck { field: 0x28, value: self.unk28, min: 0, max: 0 });
        v.push(FieldCheck { field: 0x2c, value: self.unk2c, min: 0, max: 0 });
        v.push(FieldCheck { field: 0x30, value: self.unk30, min: 0, max: 0 });
        v.push(FieldCheck { field: 0x34, value: self.unk34, min: 0, max: 0 });
        v.push(FieldCheck { field: 0x38, value: self.unk38, min: 0x100fffc, max: 0x100fffd });
        v.push(FieldCheck { field: 0x3c, value: self.unk3c, min: 0, max: 0 });
        v.push(FieldCheck { field: 0x40, value: self.unk40, min: 0, max: 1 });
        v.push(FieldCheck { field: 0x44, value: self.unk44, min: 0, max: 0 });
        v.push(FieldCheck { field: 0x4c, value: self.unk4c, min: 0, max: 0 });
        v.push(FieldCheck { field: 0x50, value: self.unk50, min: 0, max: 0 });
        v.push(FieldCheck { field: 0x54, value: self.unk54, min: 0, max: 0 });
        v.push(FieldCheck { field: 0x58, value: self.unk58, min: 0, max: 0 });
        v.push(FieldCheck { field: 0x5c, value: self.unk5c, min: 0, max: 0 });
        proof {
            assert(v@ =~= self.spec_checks());
        }
        v
    }

    proof fn lemma_size() {
    }

    proof fn lemma_round_trip(self) {
        lemma_pack_u16_u8s(self.unk00, self.unk01, self.unk02);
        lemma_word_bytes(self.spec_words());
    }
}

/// Root of the Section4 tree; points at the Section4, Section5 and Section6 entries.
#[derive(Clone, Copy, Debug, PartialEq, Eq, Structural)]
pub struct Section4Container {
    pub unk00: u16,
    pub unk02: u8,
    pub unk03: u8,
    pub unk04: u32,
    pub section5_count: u32,
    pub section6_count: u32,
    pub section4_count: u32,
    pub unk14: u32,
    pub section5_offset: u32,
    pub unk1c: u32,
    pub section6_offset: u32,
    pub unk24: u32,
    pub section4_offset: u32,
    pub unk2c: u32,
}

impl Record for Section4Container {
    open spec fn spec_size() -> nat {
        48
    }

    open spec fn spec_read(s: Seq<u8>, off: int) -> Self {
        Section4Container {
            unk00: u16_at(s, off),
            unk02: s[off + 2],
            unk03: s[off + 3],
            unk04: u32_at(s, off + 4),
            section5_count: u32_at(s, off + 8),
            section6_count: u32_at(s, off + 12),
            section4_count: u32_at(s, off + 16),
            unk14: u32_at(s, off + 20),
            section5_offset: u32_at(s, off + 24),
            unk1c: u32_at(s, off + 28),
            section6_offset: u32_at(s, off + 32),
            unk24: u32_at(s, off + 36),
            section4_offset: u32_at(s, off + 40),
            unk2c: u32_at(s, off + 44),
        }
    }

    open spec fn spec_words(self) -> Seq<u32> {
        seq![
            pack_u16_u8s(self.unk00, self.unk02, self.unk03),
            self.unk04,
            self.section5_count,
            self.section6_count,
            self.section4_count,
            self.unk14,
            self.section5_offset,
            self.unk1c,
            self.section6_offset,
            self.unk24,
            self.section4_offset,
            self.unk2c,
        ]
    }

    open spec fn spec_checks(self) -> Seq<FieldCheck> {
        seq![
            FieldCheck { field: 0x04, value: self.unk04, min: 0, max: 0 },
            FieldCheck { field: 0x14, value: self.unk14, min: 0, max: 0 },
            FieldCheck { field: 0x1c, value: self.unk1c, min: 0, max: 0 },
            FieldCheck { field: 0x24, value: self.unk24, min: 0, max: 0 },
            FieldCheck { field: 0x2c, value: self.unk2c, min: 0, max: 0 },
        ]
    }

    fn size() -> usize {
        48
    }

    fn read(data: &[u8], off: usize) -> Self {
        Section4Container {
            unk00: read_u16(data, off),
            unk02: read_u8(data, off + 2),
            unk03: read_u8(data, off + 3),
            unk04: read_u32(data, off + 4),
            section5_count: read_u32(data, off + 8),
            section6_count: read_u32(data, off + 12),
            section4_count: read_u32(data, off + 16),
            unk14: read_u32(data, off + 20),
            section5_offset: read_u32(data, off + 24),
            unk1c: read_u32(data, off + 28),
            section6_offset: read_u32(data, off + 32),
            unk24: read_u32(data, off + 36),
            section4_offset: read_u32(data, off + 40),
            unk2c: read_u32(data, off + 44),
        }
    }

    fn checks(&self) -> Vec<FieldCheck> {
        let mut v: Vec<FieldCheck> = Vec::new();
        v.push(FieldCheck { field: 0x04, value: self.unk04, min: 0, max: 0 });
        v.push(FieldCheck { field: 0x14, value: self.unk14, min: 0, max: 0 });
        v.push(FieldCheck { field: 0x1c, value: self.unk1c, min: 0, max: 0 });
        v.push(FieldCheck { field: 0x24, value: self.unk24, min: 0, max: 0 });
        v.push(FieldCheck { field: 0x2c, value: self.unk2c, min: 0, max: 0 });
        proof {
            assert(v@ =~= self.spec_checks());
        }
        v
    }

    proof fn lemma_size() {
    }

    proof fn lemma_round_trip(self) {
        lemma_pack_u16_u8s(self.unk00, self.unk02, self.unk03);
        lemma_word_bytes(self.spec_words());
    }
}

/// Entry of the Section4 array.
#[derive(Clone, Copy, Debug, PartialEq, Eq, Structural)]
pub struct Section4Entry {
    pub unk00: u32,
}

impl Record for Section4Entry {
    open spec fn spec_size() -> nat {
        4
    }

    open spec fn spec_read(s: Seq<u8>, off: int) -> Self {
        Section4Entry {
            unk00: u32_at(s, off),
        }
    }

    open spec fn spec_words(self) -> Seq<u32> {
        seq![self.unk00]
    }

    open spec fn spec_checks(self) -> Seq<FieldCheck> {
        Seq::empty()
    }

    fn size() -> usize {
        4
    }

    fn read(data: &[u8], off: usize) -> Self {
        Section4Entry {
            unk00: read_u32(data, off),
        }
    }

    fn checks(&self) -> Vec<FieldCheck> {
        let v: Vec<FieldCheck> = Vec::new();
        v
    }

    proof fn lemma_size() {
    }

    proof fn lemma_round_trip(self) {
        lemma_word_bytes(self.spec_words());
    }
}

/// Entry of the Section5 array.
#[derive(Clone, Copy, Debug, PartialEq, Eq, Structural)]
pub struct Section5Entry {
    pub unk00: u32,
}

impl Record for Section5Entry {
    open spec fn spec_size() -> nat {
        4
    }

    open spec fn spec_read(s: Seq<u8>, off: int) -> Self {
        Section5Entry {
            unk00: u32_at(s, off),
        }
    }

    open spec fn spec_words(self) -> Seq<u32> {
        seq![self.unk00]
    }

    open spec fn spec_checks(self) -> Seq<FieldCheck> {
        Seq::empty()
    }

    fn size() -> usize {
        4
    }

    fn read(data: &[u8], off: usize) -> Self {
        Section5Entry {
            unk00: read_u32(data, off),
        }
    }

    fn checks(&self) -> Vec<FieldCheck> {
        let v: Vec<FieldCheck> = Vec::new();
        v
    }

    proof fn lemma_size() {
    }

    proof fn lemma_round_trip(self) {
        lemma_word_bytes(self.spec_words());
    }
}

/// Entry of the Section6 array; points at a Section11 array, a Section10 container and a Section7 container.
#[derive(Clone, Copy, Debug, PartialEq, Eq, Structural)]
pub struct Section6Entry {
    pub unk00: u16,
    pub unk02: u8,
    pub unk03: u8,
    pub unk04: u32,
    pub section11_count1: u32,
    pub section10_count: u32,
    pub section7_count1: u32,
    pub section11_count2: u32,
    pub unk18: u32,
    pub section7_count2: u32,
    pub section11_offset: u32,
    pub unk24: u32,
    pub section10_offset: u32,
    pub unk2c: u32,
    pub section7_offset: u32,
    pub unk34: u32,
    pub unk38: u32,
    pub unk3c: u32,
}

impl Record for Section6Entry {
    open spec fn spec_size() -> nat {
        64
    }

    open spec fn spec_read(s: Seq<u8>, off: int) -> Self {
        Section6Entry {
            unk00: u16_at(s, off),
            unk02: s[off + 2],
            unk03: s[off + 3],
            unk04: u32_at(s, off + 4),
            section11_count1: u32_at(s, off + 8),
            section10_count: u32_at(s, off + 12),
            section7_count1: u32_at(s, off + 16),
            section11_count2: u32_at(s, off + 20),
            unk18: u32_at(s, off + 24),
            section7_count2: u32_at(s, off + 28),
            section11_offset: u32_at(s, off + 32),
            unk24: u32_at(s, off + 36),
            section10_offset: u32_at(s, off + 40),
            unk2c: u32_at(s, off + 44),
            section7_offset: u32_at(s, off + 48),
            unk34: u32_at(s, off + 52),
            unk38: u32_at(s, off + 56),
            unk3c: u32_at(s, off + 60),
        }
    }

    open spec fn spec_words(self) -> Seq<u32> {
        seq![
            pack_u16_u8s(self.unk00, self.unk02, self.unk03),
            self.unk04,
            self.section11_count1,
            self.section10_count,
            self.section7_count1,
            self.section11_count2,
            self.unk18,
            self.section7_count2,
            self.section11_offset,
            self.unk24,
            self.section10_offset,
            self.unk2c,
            self.section7_offset,
            self.unk34,
            self.unk38,
            self.unk3c,
        ]
    }

    open spec fn spec_checks(self) -> Seq<FieldCheck> {
        seq![
            FieldCheck { field: 0x18, value: self.unk18, min: 0, max: 0 },
            FieldCheck { field: 0x24, value: self.unk24, min: 0, max: 0 },
            FieldCheck { field: 0x2c, value: self.unk2c, min: 0, max: 0 },
            FieldCheck { field: 0x34, value: self.unk34, min: 0, max: 0 },
            FieldCheck { field: 0x38, value: self.unk38, min: 0, max: 0 },
            FieldCheck { field: 0x3c, value: self.unk3c, min: 0, max: 0 },
        ]
    }

    fn size() -> usize {
        64
    }

    fn read(data: &[u8], off: usize) -> Self {
        Section6Entry {
            unk00: read_u16(data, off),
            unk02: read_u8(data, off + 2),
            unk03: read_u8(data, off + 3),
            unk04: read_u32(data, off + 4),
            section11_count1: read_u32(data, off + 8),
            section10_count: read_u32(data, off + 12),
            section7_count1: read_u32(data, off + 16),
            section11_count2: read_u32(data, off + 20),
            unk18: read_u32(data, off + 24),
            section7_count2: read_u32(data, off + 28),
            section11_offset: read_u32(data, off + 32),
            unk24: read_u32(data, off + 36),
            section10_offset: read_u32(data, off + 40),
            unk2c: read_u32(data, off + 44),
            section7_offset: read_u32(data, off + 48),
            unk34: read_u32(data, off + 52),
            unk38: read_u32(data, off + 56),
            unk3c: read_u32(data, off + 60),
        }
    }

    fn checks(&self) -> Vec<FieldCheck> {
        let mut v: Vec<FieldCheck> = Vec::new();
        v.push(FieldCheck { field: 0x18, value: self.unk18, min: 0, max: 0 });
        v.push(FieldCheck { field: 0x24, value: self.unk24, min: 0, max: 0 });
        v.push(FieldCheck { field: 0x2c, value: self.unk2c, min: 0, max: 0 });
        v.push(FieldCheck { field: 0x34, value: self.unk34, min: 0, max: 0 });
        v.push(FieldCheck { field: 0x38, value: self.unk38, min: 0, max: 0 });
        v.push(FieldCheck { field: 0x3c, value: self.unk3c, min: 0, max: 0 });
        proof {
            assert(v@ =~= self.spec_checks());
        }
        v
    }

    proof fn lemma_size() {
    }

    proof fn lemma_round_trip(self) {
        lemma_pack_u16_u8s(self.unk00, self.unk02, self.unk03);
        lemma_word_bytes(self.spec_words());
    }
}

/// Points at a Section11 array and at the Section8 entries.
#[derive(Clone, Copy, Debug, PartialEq, Eq, Structural)]
pub struct Section7Container {
    pub unk00: u32,
    pub unk04: u32,
    pub section11_count: u32,
    pub unk0c: u32,
    pub section11_offset: u32,
    pub unk14: u32,
    pub section8_offset: u32,
    pub unk1c: u32,
    pub section8_count: u32,
    pub unk24: u32,
}

impl Record for Section7Container {
    open spec fn spec_size() -> nat {
        40
    }

    open spec fn spec_read(s: Seq<u8>, off: int) -> Self {
        Section7Container {
            unk00: u32_at(s, off),
            unk04: u32_at(s, off + 4),
            section11_count: u32_at(s, off + 8),
            unk0c: u32_at(s, off + 12),
            section11_offset: u32_at(s, off + 16),
            unk14: u32_at(s, off + 20),
            section8_offset: u32_at(s, off + 24),
            unk1c: u32_at(s, off + 28),
            section8_count: u32_at(s, off + 32),
            unk24: u32_at(s, off + 36),
        }
    }

    open spec fn spec_words(self) -> Seq<u32> {
        seq![
            self.unk00,
            self.unk04,
            self.section11_count,
            self.unk0c,
            self.section11_offset,
            self.unk14,
            self.section8_offset,
            self.unk1c,
            self.section8_count,
            self.unk24,
        ]
    }

    open spec fn spec_checks(self) -> Seq<FieldCheck> {
        seq![
            FieldCheck { field: 0x0c, value: self.unk0c, min: 0, max: 0 },
            FieldCheck { field: 0x14, value: self.unk14, min: 0, max: 0 },
            FieldCheck { field: 0x1c, value: self.unk1c, min: 0, max: 0 },
            FieldCheck { field: 0x24, value: self.unk24, min: 0, max: 0 },
        ]
    }

    fn size() -> usize {
        40
    }

    fn read(data: &[u8], off: usize) -> Self {
        Section7Container {
            unk00: read_u32(data, off),
            unk04: read_u32(data, off + 4),
            section11_count: read_u32(data, off + 8),
            unk0c: read_u32(data, off + 12),
            section11_offset: read_u32(data, off + 16),
            unk14: read_u32(data, off + 20),
            section8_offset: read_u32(data, off + 24),
            unk1c: read_u32(data, off + 28),
            section8_count: read_u32(data, off + 32),
            unk24: read_u32(data, off + 36),
        }
    }

    fn checks(&self) -> Vec<FieldCheck> {
        let mut v: Vec<FieldCheck> = Vec::new();
        v.push(FieldCheck { field: 0x0c, value: self.unk0c, min: 0, max: 0 });
        v.push(FieldCheck { field: 0x14, value: self.unk14, min: 0, max: 0 });
        v.push(FieldCheck { field: 0x1c, value: self.unk1c, min: 0, max: 0 });
        v.push(FieldCheck { field: 0x24, value: self.unk24, min: 0, max: 0 });
        proof {
            assert(v@ =~= self.spec_checks());
        }
        v
    }

    proof fn lemma_size() {
    }

    proof fn lemma_round_trip(self) {
        lemma_word_bytes(self.spec_words());
    }
}

/// Same layout as a Section7 container, without field constraints.
#[derive(Clone, Copy, Debug, PartialEq, Eq, Structural)]
pub struct Section7Entry {
    pub unk00: u32,
    pub unk04: u32,
    pub section11_count: u32,
    pub unk0c: u32,
    pub section11_offset: u32,
    pub unk14: u32,
    pub section8_offset: u32,
    pub unk1c: u32,
    pub section8_count: u32,
    pub unk24: u32,
}

impl Record for Section7Entry {
    open spec fn spec_size() -> nat {
        40
    }

    open spec fn spec_read(s: Seq<u8>, off: int) -> Self {
        Section7Entry {
            unk00: u32_at(s, off),
            unk04: u32_at(s, off + 4),
            section11_count: u32_at(s, off + 8),
            unk0c: u32_at(s, off + 12),
            section11_offset: u32_at(s, off + 16),
            unk14: u32_at(s, off + 20),
            section8_offset: u32_at(s, off + 24),
            unk1c: u32_at(s, off + 28),
            section8_count: u32_at(s, off + 32),
            unk24: u32_at(s, off + 36),
        }
    }

    open spec fn spec_words(self) -> Seq<u32> {
        seq![
            self.unk00,
            self.unk04,
            self.section11_count,
            self.unk0c,
            self.section11_offset,
            self.unk14,
            self.section8_offset,
            self.unk1c,
            self.section8_count,
            self.unk24,
        ]
    }

    open spec fn spec_checks(self) -> Seq<FieldCheck> {
        Seq::empty()
    }

    fn size() -> usize {
        40
    }

    fn read(data: &[u8], off: usize) -> Self {
        Section7Entry {
            unk00: read_u32(data, off),
            unk04: read_u32(data, off + 4),
            section11_count: read_u32(data, off + 8),
            unk0c: read_u32(data, off + 12),
            section11_offset: read_u32(data, off + 16),
            unk14: read_u32(data, off + 20),
            section8_offset: read_u32(data, off + 24),
            unk1c: read_u32(data, off + 28),
            section8_count: read_u32(data, off + 32),
            unk24: read_u32(data, off + 36),
        }
    }

    fn checks(&self) -> Vec<FieldCheck> {
        let v: Vec<FieldCheck> = Vec::new();
        v
    }

    proof fn lemma_size() {
    }

    proof fn lemma_round_trip(self) {
        lemma_word_bytes(self.spec_words());
    }
}

/// Container form of a Section8 record.
#[derive(Clone, Copy, Debug, PartialEq, Eq, Structural)]
pub struct Section8Container {
    pub unk00: u8,
    pub unk01: u8,
    pub unk02: u8,
    pub unk03: u8,
    pub unk04: u32,
    pub section11_count: u32,
    pub section9_count: u32,
    pub section11_offset: u32,
    pub unk14: u32,
    pub section9_offset: u32,
    pub unk1c: u32,
}

impl Record for Section8Container {
    open spec fn spec_size() -> nat {
        32
    }

    open spec fn spec_read(s: Seq<u8>, off: int) -> Self {
        Section8Container {
            unk00: s[off],
            unk01: s[off + 1],
            unk02: s[off + 2],
            unk03: s[off + 3],
            unk04: u32_at(s, off + 4),
            section11_count: u32_at(s, off + 8),
            section9_count: u32_at(s, off + 12),
            section11_offset: u32_at(s, off + 16),
            unk14: u32_at(s, off + 20),
            section9_offset: u32_at(s, off + 24),
            unk1c: u32_at(s, off + 28),
        }
    }

    open spec fn spec_words(self) -> Seq<u32> {
        seq![
            pack_u8s(self.unk00, self.unk01, self.unk02, self.unk03),
            self.unk04,
            self.section11_count,
            self.section9_count,
            self.section11_offset,
            self.unk14,
            self.section9_offset,
            self.unk1c,
        ]
    }

    open spec fn spec_checks(self) -> Seq<FieldCheck> {
        seq![
            FieldCheck { field: 0x14, value: self.unk14, min: 0, max: 0 },
            FieldCheck { field: 0x1c, value: self.unk1c, min: 0, max: 0 },
        ]
    }

    fn size() -> usize {
        32
    }

    fn read(data: &[u8], off: usize) -> Self {
        Section8Container {
            unk00: read_u8(data, off),
            unk01: read_u8(data, off + 1),
            unk02: read_u8(data, off + 2),
            unk03: read_u8(data, off + 3),
            unk04: read_u32(data, off + 4),
            section11_count: read_u32(data, off + 8),
            section9_count: read_u32(data, off + 12),
            section11_offset: read_u32(data, off + 16),
            unk14: read_u32(data, off + 20),
            section9_offset: read_u32(data, off + 24),
            unk1c: read_u32(data, off + 28),
        }
    }

    fn checks(&self) -> Vec<FieldCheck> {
        let mut v: Vec<FieldCheck> = Vec::new();
        v.push(FieldCheck { field: 0x14, value: self.unk14, min: 0, max: 0 });
        v.push(FieldCheck { field: 0x1c, value: self.unk1c, min: 0, max: 0 });
        proof {
            assert(v@ =~= self.spec_checks());
        }
        v
    }

    proof fn lemma_size() {
    }

    proof fn lemma_round_trip(self) {
        lemma_pack_u8s(self.unk00, self.unk01, self.unk02, self.unk03);
        lemma_word_bytes(self.spec_words());
    }
}

/// Entry of a Section8 array; points at a Section11 array and at Section9 entries.
#[derive(Clone, Copy, Debug, PartialEq, Eq, Structural)]
pub struct Section8Entry {
    pub unk00: u8,
    pub unk01: u8,
    pub unk02: u8,
    pub unk03: u8,
    pub unk04: u32,
    pub section11_count: u32,
    pub section9_count: u32,
    pub section11_offset: u32,
    pub unk14: u32,
    pub section9_offset: u32,
    pub unk1c: u32,
}

impl Record for Section8Entry {
    open spec fn spec_size() -> nat {
        32
    }

    open spec fn spec_read(s: Seq<u8>, off: int) -> Self {
        Section8Entry {
            unk00: s[off],
            unk01: s[off + 1],
            unk02: s[off + 2],
            unk03: s[off + 3],
            unk04: u32_at(s, off + 4),
            section11_count: u32_at(s, off + 8),
            section9_count: u32_at(s, off + 12),
            section11_offset: u32_at(s, off + 16),
            unk14: u32_at(s, off + 20),
            section9_offset: u32_at(s, off + 24),
            unk1c: u32_at(s, off + 28),
        }
    }

    open spec fn spec_words(self) -> Seq<u32> {
        seq![
            pack_u8s(self.unk00, self.unk01, self.unk02, self.unk03),
            self.unk04,
            self.section11_count,
            self.section9_count,
            self.section11_offset,
            self.unk14,
            self.section9_offset,
            self.unk1c,
        ]
    }

    open spec fn spec_checks(self) -> Seq<FieldCheck> {
        Seq::empty()
    }

    fn size() -> usize {
        32
    }

    fn read(data: &[u8], off: usize) -> Self {
        Section8Entry {
            unk00: read_u8(data, off),
            unk01: read_u8(data, off + 1),
            unk02: read_u8(data, off + 2),
            unk03: read_u8(data, off + 3),
            unk04: read_u32(data, off + 4),
            section11_count: read_u32(data, off + 8),
            section9_count: read_u32(data, off + 12),
            section11_offset: read_u32(data, off + 16),
            unk14: read_u32(data, off + 20),
            section9_offset: read_u32(data, off + 24),
            unk1c: read_u32(data, off + 28),
        }
    }

    fn checks(&self) -> Vec<FieldCheck> {
        let v: Vec<FieldCheck> = Vec::new();
        v
    }

    proof fn lemma_size() {
    }

    proof fn lemma_round_trip(self) {
        lemma_pack_u8s(self.unk00, self.unk01, self.unk02, self.unk03);
        lemma_word_bytes(self.spec_words());
    }
}

/// Container form of a Section9 record.
#[derive(Clone, Copy, Debug, PartialEq, Eq, Structural)]
pub struct Section9Container {
    pub unk00: u32,
    pub unk04: u32,
    pub section11_count: u32,
    pub unk0c: u32,
    pub section11_offset: u32,
    pub unk14: u32,
}

impl Record for Section9Container {
    open spec fn spec_size() -> nat {
        24
    }

    open spec fn spec_read(s: Seq<u8>, off: int) -> Self {
        Section9Container {
            unk00: u32_at(s, off),
            unk04: u32_at(s, off + 4),
            section11_count: u32_at(s, off + 8),
            unk0c: u32_at(s, off + 12),
            section11_offset: u32_at(s, off + 16),
            unk14: u32_at(s, off + 20),
        }
    }

    open spec fn spec_words(self) -> Seq<u32> {
        seq![
            self.unk00,
            self.unk04,
            self.section11_count,
            self.unk0c,
            self.section11_offset,
            self.unk14,
        ]
    }

    open spec fn spec_checks(self) -> Seq<FieldCheck> {
        seq![
            FieldCheck { field: 0x0c, value: self.unk0c, min: 0, max: 0 },
            FieldCheck { field: 0x14, value: self.unk14, min: 0, max: 0 },
        ]
    }

    fn size() -> usize {
        24
    }

    fn read(data: &[u8], off: usize) -> Self {
        Section9Container {
            unk00: read_u32(data, off),
            unk04: read_u32(data, off + 4),
            section11_count: read_u32(data, off + 8),
            unk0c: read_u32(data, off + 12),
            section11_offset: read_u32(data, off + 16),
            unk14: read_u32(data, off + 20),
        }
    }

    fn checks(&self) -> Vec<FieldCheck> {
        let mut v: Vec<FieldCheck> = Vec::new();
        v.push(FieldCheck { field: 0x0c, value: self.unk0c, min: 0, max: 0 });
        v.push(FieldCheck { field: 0x14, value: self.unk14, min: 0, max: 0 });
        proof {
            assert(v@ =~= self.spec_checks());
        }
        v
    }

    proof fn lemma_size() {
    }

    proof fn lemma_round_trip(self) {
        lemma_word_bytes(self.spec_words());
    }
}

/// Entry of a Section9 array; points at a Section11 array.
#[derive(Clone, Copy, Debug, PartialEq, Eq, Structural)]
pub struct Section9Entry {
    pub unk00: u32,
    pub unk04: u32,
    pub section11_count: u32,
    pub unk0c: u32,
    pub section11_offset: u32,
    pub unk14: u32,
}

impl Record for Section9Entry {
    open spec fn spec_size() -> nat {
        24
    }

    open spec fn spec_read(s: Seq<u8>, off: int) -> Self {
        Section9Entry {
            unk00: u32_at(s, off),
            unk04: u32_at(s, off + 4),
            section11_count: u32_at(s, off + 8),
            unk0c: u32_at(s, off + 12),
            section11_offset: u32_at(s, off + 16),
            unk14: u32_at(s, off + 20),
        }
    }

    open spec fn spec_words(self) -> Seq<u32> {
        seq![
            self.unk00,
            self.unk04,
            self.section11_count,
            self.unk0c,
            self.section11_offset,
            self.unk14,
        ]
    }

    open spec fn spec_checks(self) -> Seq<FieldCheck> {
        Seq::empty()
    }

    fn size() -> usize {
        24
    }

    fn read(data: &[u8], off: usize) -> Self {
        Section9Entry {
            unk00: read_u32(data, off),
            unk04: read_u32(data, off + 4),
            section11_count: read_u32(data, off + 8),
            unk0c: read_u32(data, off + 12),
            section11_offset: read_u32(data, off + 16),
            unk14: read_u32(data, off + 20),
        }
    }

    fn checks(&self) -> Vec<FieldCheck> {
        let v: Vec<FieldCheck> = Vec::new();
        v
    }

    proof fn lemma_size() {
    }

    proof fn lemma_round_trip(self) {
        lemma_word_bytes(self.spec_words());
    }
}

/// Points at a Section11 array.
#[derive(Clone, Copy, Debug, PartialEq, Eq, Structural)]
pub struct Section10Container {
    pub section11_offset: u32,
    pub unk04: u32,
    pub section11_count: u32,
    pub unk0c: u32,
}

impl Record for Section10Container {
    open spec fn spec_size() -> nat {
        16
    }

    open spec fn spec_read(s: Seq<u8>, off: int) -> Self {
        Section10Container {
            section11_offset: u32_at(s, off),
            unk04: u32_at(s, off + 4),
            section11_count: u32_at(s, off + 8),
            unk0c: u32_at(s, off + 12),
        }
    }

    open spec fn spec_words(self) -> Seq<u32> {
        seq![
            self.section11_offset,
            self.unk04,
            self.section11_count,
            self.unk0c,
        ]
    }

    open spec fn spec_checks(self) -> Seq<FieldCheck> {
        seq![
            FieldCheck { field: 0x04, value: self.unk04, min: 0, max: 0 },
            FieldCheck { field: 0x0c, value: self.unk0c, min: 0, max: 0 },
        ]
    }

    fn size() -> usize {
        16
    }

    fn read(data: &[u8], off: usize) -> Self {
        Section10Container {
            section11_offset: read_u32(data, off),
            unk04: read_u32(data, off + 4),
            section11_count: read_u32(data, off + 8),
            unk0c: read_u32(data, off + 12),
        }
    }

    fn checks(&self) -> Vec<FieldCheck> {
        let mut v: Vec<FieldCheck> = Vec::new();
        v.push(FieldCheck { field: 0x04, value: self.unk04, min: 0, max: 0 });
        v.push(FieldCheck { field: 0x0c, value: self.unk0c, min: 0, max: 0 });
        proof {
            assert(v@ =~= self.spec_checks());
        }
        v
    }

    proof fn lemma_size() {
    }

    proof fn lemma_round_trip(self) {
        lemma_word_bytes(self.spec_words());
    }
}

/// Same layout as a Section10 container, without field constraints.
#[derive(Clone, Copy, Debug, PartialEq, Eq, Structural)]
pub struct Section10Entry {
    pub section11_offset: u32,
    pub unk04: u32,
    pub section11_count: u32,
    pub unk0c: u32,
}

impl Record for Section10Entry {
    open spec fn spec_size() -> nat {
        16
    }

    open spec fn spec_read(s: Seq<u8>, off: int) -> Self {
        Section10Entry {
            section11_offset: u32_at(s, off),
            unk04: u32_at(s, off + 4),
            section11_count: u32_at(s, off + 8),
            unk0c: u32_at(s, off + 12),
        }
    }

    open spec fn spec_words(self) -> Seq<u32> {
        seq![
            self.section11_offset,
            self.unk04,
            self.section11_count,
            self.unk0c,
        ]
    }

    open spec fn spec_checks(self) -> Seq<FieldCheck> {
        Seq::empty()
    }

    fn size() -> usize {
        16
    }

    fn read(data: &[u8], off: usize) -> Self {
        Section10Entry {
            section11_offset: read_u32(data, off),
            unk04: read_u32(data, off + 4),
            section11_count: read_u32(data, off + 8),
            unk0c: read_u32(data, off + 12),
        }
    }

    fn checks(&self) -> Vec<FieldCheck> {
        let v: Vec<FieldCheck> = Vec::new();
        v
    }

    proof fn lemma_size() {
    }

    proof fn lemma_round_trip(self) {
        lemma_word_bytes(self.spec_words());
    }
}

/// A 4-byte value of the pooled Section11 arrays.
#[derive(Clone, Copy, Debug, PartialEq, Eq, Structural)]
pub struct Section11Entry {
    pub data: u32,
}

impl Record for Section11Entry {
    open spec fn spec_size() -> nat {
        4
    }

    open spec fn spec_read(s: Seq<u8>, off: int) -> Self {
        Section11Entry {
            data: u32_at(s, off),
        }
    }

    open spec fn spec_words(self) -> Seq<u32> {
        seq![self.data]
    }

    open spec fn spec_checks(self) -> Seq<FieldCheck> {
        Seq::empty()
    }

    fn size() -> usize {
        4
    }

    fn read(data: &[u8], off: usize) -> Self {
        Section11Entry {
            data: read_u32(data, off),
        }
    }

    fn checks(&self) -> Vec<FieldCheck> {
        let v: Vec<FieldCheck> = Vec::new();
        v
    }

    proof fn lemma_size() {
    }

    proof fn lemma_round_trip(self) {
        lemma_word_bytes(self.spec_words());
    }
}

/// A 4-byte value of the Section12 array.
#[derive(Clone, Copy, Debug, PartialEq, Eq, Structural)]
pub struct Section12Entry {
    pub data: u32,
}

impl Record for Section12Entry {
    open spec fn spec_size() -> nat {
        4
    }

    open spec fn spec_read(s: Seq<u8>, off: int) -> Self {
        Section12Entry {
            data: u32_at(s, off),
        }
    }

    open spec fn spec_words(self) -> Seq<u32> {
        seq![self.data]
    }

    open spec fn spec_checks(self) -> Seq<FieldCheck> {
        Seq::empty()
    }

    fn size() -> usize {
        4
    }

    fn read(data: &[u8], off: usize) -> Self {
        Section12Entry {
            data: read_u32(data, off),
        }
    }

    fn checks(&self) -> Vec<FieldCheck> {
        let v: Vec<FieldCheck> = Vec::new();
        v
    }

    proof fn lemma_size() {
    }

    proof fn lemma_round_trip(self) {
        lemma_word_bytes(self.spec_words());
    }
}

/// A 4-byte value of the Section13 array.
#[derive(Clone, Copy, Debug, PartialEq, Eq, Structural)]
pub struct Section13Entry {
    pub data: u32,
}

impl Record for Section13Entry {
    open spec fn spec_size() -> nat {
        4
    }

    open spec fn spec_read(s: Seq<u8>, off: int) -> Self {
        Section13Entry {
            data: u32_at(s, off),
        }
    }

    open spec fn spec_words(self) -> Seq<u32> {
        seq![self.data]
    }

    open spec fn spec_checks(self) -> Seq<FieldCheck> {
        Seq::empty()
    }

    fn size() -> usize {
        4
    }

    fn read(data: &[u8], off: usize) -> Self {
        Section13Entry {
            data: read_u32(data, off),
        }
    }

    fn checks(&self) -> Vec<FieldCheck> {
        let v: Vec<FieldCheck> = Vec::new();
        v
    }

    proof fn lemma_size() {
    }

    proof fn lemma_round_trip(self) {
        lemma_word_bytes(self.spec_words());
    }
}

/// A 4-byte value of the Section14 array.
#[derive(Clone, Copy, Debug, PartialEq, Eq, Structural)]
pub struct Section14Entry {
    pub data: u32,
}

impl Record for Section14Entry {
    open spec fn spec_size() -> nat {
        4
    }

    open spec fn spec_read(s: Seq<u8>, off: int) -> Self {
        Section14Entry {
            data: u32_at(s, off),
        }
    }

    open spec fn spec_words(self) -> Seq<u32> {
        seq![self.data]
    }

    open spec fn spec_checks(self) -> Seq<FieldCheck> {
        Seq::empty()
    }

    fn size() -> usize {
        4
    }

    fn read(data: &[u8], off: usize) -> Self {
        Section14Entry {
            data: read_u32(data, off),
        }
    }

    fn checks(&self) -> Vec<FieldCheck> {
        let v: Vec<FieldCheck> = Vec::new();
        v
    }

    proof fn lemma_size() {
    }

    proof fn lemma_round_trip(self) {
        lemma_word_bytes(self.spec_words());
    }
}
impl U32Field for Section12Entry {
    open spec fn spec_data(&self) -> u32 {
        self.data
    }

    fn data(&self) -> u32 {
        self.data
    }
}

impl U32Field for Section13Entry {
    open spec fn spec_data(&self) -> u32 {
        self.data
    }

    fn data(&self) -> u32 {
        self.data
    }
}

impl U32Field for Section14Entry {
    open spec fn spec_data(&self) -> u32 {
        self.data
    }

    fn data(&self) -> u32 {
        self.data
    }
}

} // verus!
