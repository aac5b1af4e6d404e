//! The Section1 tree: a Section1 container, its Section2 container, and the
//! Section3 entries below that.
use crate::record::Record;
use crate::sections::{Section1Container, Section2Container, Section3Entry};
use crate::view::{
    parse_section_slice, result_view, spec_parse_section_slice, ArraySpan, ArrayView, Family,
    ParseError, ParseFailure,
};
use crate::walk::{opt_span, parse_valid_struct, spec_optional_slice, spec_parse_valid_struct};
use vstd::prelude::*;

verus! {

/// What a Section1 tree resolves to.
pub struct Section1TreeModel {
    pub section1: Section1Container,
    pub section2: Option<Section2Container>,
    pub section3: Option<ArraySpan>,
}

/// A validated Section1 container, its Section2 container when
/// `section2_count` is not zero, and the Section3 entries when
/// `section3_count` is not zero.
pub struct ParsedSections<'a> {
    pub section1: Section1Container,
    pub section2: Option<Section2Container>,
    pub section3: Option<ArrayView<'a, Section3Entry>>,
}

impl<'a> View for ParsedSections<'a> {
    type V = Section1TreeModel;

    open spec fn view(&self) -> Section1TreeModel {
        Section1TreeModel {
            section1: self.section1,
            section2: self.section2,
            section3: opt_span(self.section3),
        }
    }
}

/// What the Section1 tree whose container is at `offset` resolves to.
pub open spec fn spec_section1_tree(s: Seq<u8>, offset: u32) -> Result<
    Section1TreeModel,
    ParseFailure,
> {
    match spec_parse_valid_struct::<Section1Container>(s, offset, Family::Section1) {
        Err(x) => Err(x),
        Ok(c1) => if c1.section2_count == 0 {
            Ok(Section1TreeModel { section1: c1, section2: None, section3: None })
        } else {
            match spec_parse_valid_struct::<Section2Container>(
                s,
                c1.section2_offset,
                Family::Section2,
            ) {
                Err(x) => Err(x),
                Ok(c2) => match spec_optional_slice::<Section3Entry>(
                    s,
                    c2.section3_offset,
                    c2.section3_count,
                    Family::Section3,
                ) {
                    Err(x) => Err(x),
                    Ok(s3) => Ok(
                        Section1TreeModel { section1: c1, section2: Some(c2), section3: s3 },
                    ),
                },
            }
        },
    }
}

/// A Section1 container whose Section2 count is 0 gives a tree with no
/// Section2 and no Section3, and nothing past the container's own bytes is
/// read: any buffer of the same length that agrees on those bytes gives the
/// same tree, whatever its Section2 offset points at.
pub proof fn lemma_section1_without_section2(s: Seq<u8>, t: Seq<u8>, offset: u32)
    requires
        spec_parse_valid_struct::<Section1Container>(s, offset, Family::Section1) matches Ok(c1)
            && c1.section2_count == 0,
        t.len() == s.len(),
        forall|i: int| offset <= i < offset + 16 ==> #[trigger] t[i] == s[i],
    ensures
        spec_section1_tree(t, offset) == spec_section1_tree(s, offset),
        spec_section1_tree(s, offset) == Ok::<Section1TreeModel, ParseFailure>(
            Section1TreeModel {
                section1: Section1Container::spec_read(s, offset as int),
                section2: None,
                section3: None,
            },
        ),
{
    let o = offset as int;
    assert(t[o] == s[o] && t[o + 1] == s[o + 1] && t[o + 2] == s[o + 2] && t[o + 3] == s[o + 3]);
    assert(t[o + 4] == s[o + 4] && t[o + 5] == s[o + 5] && t[o + 6] == s[o + 6] && t[o + 7] == s[o
        + 7]);
    assert(t[o + 8] == s[o + 8] && t[o + 9] == s[o + 9] && t[o + 10] == s[o + 10] && t[o + 11]
        == s[o + 11]);
    assert(t[o + 12] == s[o + 12] && t[o + 13] == s[o + 13] && t[o + 14] == s[o + 14] && t[o
        + 15] == s[o + 15]);
    assert(Section1Container::spec_read(t, o) == Section1Container::spec_read(s, o));
}

/// Views the `count` Section3 entries at `offset`.
pub fn parse_section3_tree<'a>(data: &'a [u8], offset: u32, count: u32) -> (r: Result<
    ArrayView<'a, Section3Entry>,
    ParseError,
>)
    ensures
        result_view(r) == spec_parse_section_slice::<Section3Entry>(
            data@,
            offset,
            count,
            Family::Section3,
        ),
{
    parse_section_slice::<Section3Entry>(data, offset, count, Family::Section3)
}

/// Reads and validates the Section1 container at `offset`, then, when they
/// are present, its Section2 container and the Section3 entries.
pub fn parse_section1_tree<'a>(data: &'a [u8], offset: u32) -> (r: Result<
    ParsedSections<'a>,
    ParseError,
>)
    ensures
        match r {
            Ok(p) => spec_section1_tree(data@, offset) == Ok::<Section1TreeModel, ParseFailure>(
                p@,
            ),
            Err(e) => spec_section1_tree(data@, offset) == Err::<Section1TreeModel, ParseFailure>(
                e@,
            ),
        },
{
    let section1 = parse_valid_struct::<Section1Container>(data, offset, Family::Section1)?;
    if section1.section2_count == 0 {
        return Ok(ParsedSections { section1, section2: None, section3: None });
    }
    let section2 = parse_valid_struct::<Section2Container>(
        data,
        section1.section2_offset,
        Family::Section2,
    )?;
    let section3 = if section2.section3_count == 0 {
        None
    } else {
        Some(parse_section3_tree(data, section2.section3_offset, section2.section3_count)?)
    };
    Ok(ParsedSections { section1, section2: Some(section2), section3 })
}

} // verus!
