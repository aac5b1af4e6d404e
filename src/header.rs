//! The file header: its layout and its validation rules, which depend on the
//! format version.
use crate::bytes::{lemma_pack_u16s, lemma_word_bytes, pack_u16s, read_u16, read_u32, u16_at, u32_at};
use crate::record::{lemma_no_violations, lemma_violations_append, violations, FieldCheck, Record};
use vstd::prelude::*;

verus! {

/// The signature `"FXR\0"` read as a little-endian `u32`.
pub const FXR_MAGIC: u32 = 0x0052_5846;

/// Which set of header rules applies. Version 5 files obey extra rules on
/// the Section12 to Section14 counts and on the two trailing fields.
#[derive(Clone, Copy, Debug, PartialEq, Eq, Structural)]
pub enum HeaderRules {
    Standard,
    Version5,
}

/// The fixed record at the start of every file. Fields named `unkXX` have
/// no known meaning.
#[derive(Clone, Copy, Debug, PartialEq, Eq, Structural)]
pub struct Header {
    pub magic: u32,
    pub unk04: u16,
    pub version: u16,
    pub unk08: u32,
    pub ffx_id: u32,
    pub section1_offset: u32,
    pub section1_count: u32,
    pub section2_offset: u32,
    pub section2_count: u32,
    pub section3_offset: u32,
    pub section3_count: u32,
    pub section4_offset: u32,
    pub section4_count: u32,
    pub section5_offset: u32,
    pub section5_count: u32,
    pub section6_offset: u32,
    pub section6_count: u32,
    pub section7_offset: u32,
    pub section7_count: u32,
    pub section8_offset: u32,
    pub section8_count: u32,
    pub section9_offset: u32,
    pub section9_count: u32,
    pub section10_offset: u32,
    pub section10_count: u32,
    pub section11_offset: u32,
    pub section11_count: u32,
    pub unk68: u32,
    pub unk70: u32,
    pub section12_offset: u32,
    pub section12_count: u32,
    pub section13_offset: u32,
    pub section13_count: u32,
    pub section14_offset: u32,
    pub section14_count: u32,
    pub unk88: u32,
    pub unk8c: u32,
}

impl Record for Header {
    open spec fn spec_size() -> nat {
        144
    }

    open spec fn spec_read(s: Seq<u8>, off: int) -> Self {
        Header {
            magic: u32_at(s, off),
            unk04: u16_at(s, off + 4),
            version: u16_at(s, off + 6),
            unk08: u32_at(s, off + 8),
            ffx_id: u32_at(s, off + 12),
            section1_offset: u32_at(s, off + 16),
            section1_count: u32_at(s, off + 20),
            section2_offset: u32_at(s, off + 24),
            section2_count: u32_at(s, off + 28),
            section3_offset: u32_at(s, off + 32),
            section3_count: u32_at(s, off + 36),
            section4_offset: u32_at(s, off + 40),
            section4_count: u32_at(s, off + 44),
            section5_offset: u32_at(s, off + 48),
            section5_count: u32_at(s, off + 52),
            section6_offset: u32_at(s, off + 56),
            section6_count: u32_at(s, off + 60),
            section7_offset: u32_at(s, off + 64),
            section7_count: u32_at(s, off + 68),
            section8_offset: u32_at(s, off + 72),
            section8_count: u32_at(s, off + 76),
            section9_offset: u32_at(s, off + 80),
            section9_count: u32_at(s, off + 84),
            section10_offset: u32_at(s, off + 88),
            section10_count: u32_at(s, off + 92),
            section11_offset: u32_at(s, off + 96),
            section11_count: u32_at(s, off + 100),
            unk68: u32_at(s, off + 104),
            unk70: u32_at(s, off + 108),
            section12_offset: u32_at(s, off + 112),
            section12_count: u32_at(s, off + 116),
            section13_offset: u32_at(s, off + 120),
            section13_count: u32_at(s, off + 124),
            section14_offset: u32_at(s, off + 128),
            section14_count: u32_at(s, off + 132),
            unk88: u32_at(s, off + 136),
            unk8c: u32_at(s, off + 140),
        }
    }

    open spec fn spec_words(self) -> Seq<u32> {
        seq![
            self.magic,
            pack_u16s(self.unk04, self.version),
            self.unk08,
            self.ffx_id,
            self.section1_offset,
            self.section1_count,
            self.section2_offset,
            self.section2_count,
            self.section3_offset,
            self.section3_count,
            self.section4_offset,
            self.section4_count,
            self.section5_offset,
            self.section5_count,
            self.section6_offset,
            self.section6_count,
            self.section7_offset,
            self.section7_count,
            self.section8_offset,
            self.section8_count,
            self.section9_offset,
            self.section9_count,
            self.section10_offset,
            self.section10_count,
            self.section11_offset,
            self.section11_count,
            self.unk68,
            self.unk70,
            self.section12_offset,
            self.section12_count,
            self.section13_offset,
            self.section13_count,
            self.section14_offset,
            self.section14_count,
            self.unk88,
            self.unk8c,
        ]
    }

    open spec fn spec_checks(self) -> Seq<FieldCheck> {
        match self.spec_rules() {
            HeaderRules::Standard => self.base_checks(),
            HeaderRules::Version5 => self.base_checks() + self.version5_checks(),
        }
    }

    fn size() -> usize {
        144
    }

    fn read(data: &[u8], off: usize) -> Self {
        Header {
            magic: read_u32(data, off),
            unk04: read_u16(data, off + 4),
            version: read_u16(data, off + 6),
            unk08: read_u32(data, off + 8),
            ffx_id: read_u32(data, off + 12),
            section1_offset: read_u32(data, off + 16),
            section1_count: read_u32(data, off + 20),
            section2_offset: read_u32(data, off + 24),
            section2_count: read_u32(data, off + 28),
            section3_offset: read_u32(data, off + 32),
            section3_count: read_u32(data, off + 36),
            section4_offset: read_u32(data, off + 40),
            section4_count: read_u32(data, off + 44),
            section5_offset: read_u32(data, off + 48),
            section5_count: read_u32(data, off + 52),
            section6_offset: read_u32(data, off + 56),
            section6_count: read_u32(data, off + 60),
            section7_offset: read_u32(data, off + 64),
            section7_count: read_u32(data, off + 68),
            section8_offset: read_u32(data, off + 72),
            section8_count: read_u32(data, off + 76),
            section9_offset: read_u32(data, off + 80),
            section9_count: read_u32(data, off + 84),
            section10_offset: read_u32(data, off + 88),
            section10_count: read_u32(data, off + 92),
            section11_offset: read_u32(data, off + 96),
            section11_count: read_u32(data, off + 100),
            unk68: read_u32(data, off + 104),
            unk70: read_u32(data, off + 108),
            section12_offset: read_u32(data, off + 112),
            section12_count: read_u32(data, off + 116),
            section13_offset: read_u32(data, off + 120),
            section13_count: read_u32(data, off + 124),
            section14_offset: read_u32(data, off + 128),
            section14_count: read_u32(data, off + 132),
            unk88: read_u32(data, off + 136),
            unk8c: read_u32(data, off + 140),
        }
    }

    fn checks(&self) -> Vec<FieldCheck> {
        let mut v: Vec<FieldCheck> = Vec::new();
        v.push(FieldCheck { field: 0x00, value: self.magic, min: FXR_MAGIC, max: FXR_MAGIC });
        v.push(FieldCheck { field: 0x06, value: self.version as u32, min: 4, max: 5 });
        v.push(FieldCheck { field: 0x08, value: self.unk08, min: 1, max: 1 });
        v.push(FieldCheck { field: 0x68, value: self.unk68, min: 1, max: 1 });
        v.push(FieldCheck { field: 0x6c, value: self.unk70, min: 0, max: 0 });
        proof {
            assert(v@ =~= self.base_checks());
        }
        match self.rules() {
            HeaderRules::Standard => {},
            HeaderRules::Version5 => {
                v.push(FieldCheck { field: 0x74, value: self.section12_count, min: 0, max: 2 });
                v.push(FieldCheck { field: 0x7c, value: self.section13_count, min: 0, max: 2 });
                v.push(FieldCheck { field: 0x84, value: self.section14_count, min: 0, max: 0 });
                v.push(FieldCheck { field: 0x88, value: self.unk88, min: 0, max: 0 });
                v.push(FieldCheck { field: 0x8c, value: self.unk8c, min: 0, max: 0 });
                proof {
                    assert(v@ =~= self.base_checks() + self.version5_checks());
                }
            },
        }
        v
    }

    proof fn lemma_size() {
    }

    proof fn lemma_round_trip(self) {
        lemma_pack_u16s(self.unk04, self.version);
        lemma_word_bytes(self.spec_words());
    }
}


impl Header {
    pub open spec fn spec_rules(self) -> HeaderRules {
        if self.version == 5 {
            HeaderRules::Version5
        } else {
            HeaderRules::Standard
        }
    }

    /// The rule set that this header is validated against.
    pub fn rules(&self) -> (r: HeaderRules)
        ensures
            r == self.spec_rules(),
    {
        if self.version == 5 {
            HeaderRules::Version5
        } else {
            HeaderRules::Standard
        }
    }

    /// The rules of every version: signature, supported version, and the
    /// fixed values of the reserved fields.
    pub open spec fn base_checks(self) -> Seq<FieldCheck> {
        seq![
            FieldCheck { field: 0x00, value: self.magic, min: FXR_MAGIC, max: FXR_MAGIC },
            FieldCheck { field: 0x06, value: self.version as u32, min: 4, max: 5 },
            FieldCheck { field: 0x08, value: self.unk08, min: 1, max: 1 },
            FieldCheck { field: 0x68, value: self.unk68, min: 1, max: 1 },
            FieldCheck { field: 0x6c, value: self.unk70, min: 0, max: 0 },
        ]
    }

    /// The extra rules of version 5.
    pub open spec fn version5_checks(self) -> Seq<FieldCheck> {
        seq![
            FieldCheck { field: 0x74, value: self.section12_count, min: 0, max: 2 },
            FieldCheck { field: 0x7c, value: self.section13_count, min: 0, max: 2 },
            FieldCheck { field: 0x84, value: self.section14_count, min: 0, max: 0 },
            FieldCheck { field: 0x88, value: self.unk88, min: 0, max: 0 },
            FieldCheck { field: 0x8c, value: self.unk8c, min: 0, max: 0 },
        ]
    }
}

/// In version 5, a header that meets the rules of every version passes
/// validation exactly when the Section12 and Section13 counts are at most 2,
/// the Section14 count is 0 and both trailing fields are 0.
pub proof fn lemma_version5_validation(h: Header)
    requires
        h.version == 5,
        violations(h.base_checks()).len() == 0,
    ensures
        violations(h.spec_checks()).len() == 0 <==> (h.section12_count <= 2 && h.section13_count
            <= 2 && h.section14_count == 0 && h.unk88 == 0 && h.unk8c == 0),
{
    lemma_violations_append(h.base_checks(), h.version5_checks());
    let v5 = h.version5_checks();
    lemma_no_violations(v5);
    if h.section12_count <= 2 && h.section13_count <= 2 && h.section14_count == 0 && h.unk88 == 0
        && h.unk8c == 0 {
        assert forall|i: int| 0 <= i < v5.len() implies #[trigger] v5[i].spec_holds() by {}
    } else {
        if h.section12_count > 2 {
            assert(!v5[0].spec_holds());
        } else if h.section13_count > 2 {
            assert(!v5[1].spec_holds());
        } else if h.section14_count != 0 {
            assert(!v5[2].spec_holds());
        } else if h.unk88 != 0 {
            assert(!v5[3].spec_holds());
        } else {
            assert(!v5[4].spec_holds());
        }
    }
}

/// A header of any other version is held to the rules of every version
/// only: the version-5 rules do not apply to it.
pub proof fn lemma_other_version_validation(h: Header)
    requires
        h.version != 5,
    ensures
        violations(h.spec_checks()) == violations(h.base_checks()),
{
}

impl Default for Header {
    fn default() -> (r: Header)
        ensures
            r == (Header {
                magic: FXR_MAGIC,
                unk04: 0,
                version: 1,
                unk08: 0,
                ffx_id: 0,
                section1_offset: 0,
                section1_count: 1,
                section2_offset: 0,
                section2_count: 0,
                section3_offset: 0,
                section3_count: 0,
                section4_offset: 0,
                section4_count: 0,
                section5_offset: 0,
                section5_count: 0,
                section6_offset: 0,
                section6_count: 0,
                section7_offset: 0,
                section7_count: 0,
                section8_offset: 0,
                section8_count: 0,
                section9_offset: 0,
                section9_count: 0,
                section10_offset: 0,
                section10_count: 0,
                section11_offset: 0,
                section11_count: 0,
                unk68: 0,
                unk70: 0,
                section12_offset: 0,
                section12_count: 0,
                section13_offset: 0,
                section13_count: 0,
                section14_offset: 0,
                section14_count: 0,
                unk88: 0,
                unk8c: 0,
            }),
    {
        Header {
            magic: FXR_MAGIC,
            unk04: 0,
            version: 1,
            unk08: 0,
            ffx_id: 0,
            section1_offset: 0,
            section1_count: 1,
            section2_offset: 0,
            section2_count: 0,
            section3_offset: 0,
            section3_count: 0,
            section4_offset: 0,
            section4_count: 0,
            section5_offset: 0,
            section5_count: 0,
            section6_offset: 0,
            section6_count: 0,
            section7_offset: 0,
            section7_count: 0,
            section8_offset: 0,
            section8_count: 0,
            section9_offset: 0,
            section9_count: 0,
            section10_offset: 0,
            section10_count: 0,
            section11_offset: 0,
            section11_count: 0,
            unk68: 0,
            unk70: 0,
            section12_offset: 0,
            section12_count: 0,
            section13_offset: 0,
            section13_count: 0,
            section14_offset: 0,
            section14_count: 0,
            unk88: 0,
            unk8c: 0,
        }
    }
}

} // verus!
