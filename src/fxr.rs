//! The whole file: the header and every section tree that it points at.
use crate::header::Header;
use crate::record::Record;
use crate::section1::{parse_section1_tree, spec_section1_tree, ParsedSections, Section1TreeModel};
use crate::section4::{parse_section4_tree, spec_section4_tree, ParsedSection4Tree, Section4TreeModel};
use crate::sections::{Section12Entry, Section13Entry, Section14Entry};
use crate::view::{ArraySpan, ArrayView, Family, ParseError, ParseFailure};
use crate::walk::{
    opt_span, parse_optional_slice, parse_valid_struct, spec_optional_slice,
    spec_parse_valid_struct,
};
use vstd::prelude::*;

verus! {

/// What a whole file resolves to.
pub struct FxrModel {
    pub header: Header,
    pub section1_tree: Option<Section1TreeModel>,
    pub section4_tree: Option<Section4TreeModel>,
    pub section12_entries: Option<ArraySpan>,
    pub section13_entries: Option<ArraySpan>,
    pub section14_entries: Option<ArraySpan>,
}

/// A parsed file: the validated header and every section that it declares
/// present. Arrays are views of the buffer that was parsed.
pub struct ParsedFXR<'a> {
    pub header: Header,
    pub section1_tree: Option<ParsedSections<'a>>,
    pub section4_tree: Option<ParsedSection4Tree<'a>>,
    pub section12_entries: Option<ArrayView<'a, Section12Entry>>,
    pub section13_entries: Option<ArrayView<'a, Section13Entry>>,
    pub section14_entries: Option<ArrayView<'a, Section14Entry>>,
}

impl<'a> View for ParsedFXR<'a> {
    type V = FxrModel;

    open spec fn view(&self) -> FxrModel {
        FxrModel {
            header: self.header,
            section1_tree: match self.section1_tree {
                Some(t) => Some(t@),
                None => None,
            },
            section4_tree: match self.section4_tree {
                Some(t) => Some(t@),
                None => None,
            },
            section12_entries: opt_span(self.section12_entries),
            section13_entries: opt_span(self.section13_entries),
            section14_entries: opt_span(self.section14_entries),
        }
    }
}

/// The Section1 tree of a header, absent when its count is zero.
pub open spec fn spec_fxr_section1(s: Seq<u8>, h: Header) -> Result<
    Option<Section1TreeModel>,
    ParseFailure,
> {
    if h.section1_count == 0 {
        Ok(None)
    } else {
        match spec_section1_tree(s, h.section1_offset) {
            Err(x) => Err(x),
            Ok(t) => Ok(Some(t)),
        }
    }
}

/// The Section4 tree of a header, absent when its count is zero.
pub open spec fn spec_fxr_section4(s: Seq<u8>, h: Header) -> Result<
    Option<Section4TreeModel>,
    ParseFailure,
> {
    if h.section4_count == 0 {
        Ok(None)
    } else {
        match spec_section4_tree(s, h.section4_offset) {
            Err(x) => Err(x),
            Ok(t) => Ok(Some(t)),
        }
    }
}

/// What parsing the buffer `s` gives: the header at offset 0 is read and
/// validated, then the Section1 tree, the Section4 tree and the Section12,
/// Section13 and Section14 arrays are resolved in that order, each only
/// when its count is not zero. The first failure is the result.
pub open spec fn spec_parse_fxr(s: Seq<u8>) -> Result<FxrModel, ParseFailure> {
    match spec_parse_valid_struct::<Header>(s, 0, Family::Header) {
        Err(x) => Err(x),
        Ok(h) => match spec_fxr_section1(s, h) {
            Err(x) => Err(x),
            Ok(t1) => match spec_fxr_section4(s, h) {
                Err(x) => Err(x),
                Ok(t4) => match spec_optional_slice::<Section12Entry>(
                    s,
                    h.section12_offset,
                    h.section12_count,
                    Family::Section12,
                ) {
                    Err(x) => Err(x),
                    Ok(a12) => match spec_optional_slice::<Section13Entry>(
                        s,
                        h.section13_offset,
                        h.section13_count,
                        Family::Section13,
                    ) {
                        Err(x) => Err(x),
                        Ok(a13) => match spec_optional_slice::<Section14Entry>(
                            s,
                            h.section14_offset,
                            h.section14_count,
                            Family::Section14,
                        ) {
                            Err(x) => Err(x),
                            Ok(a14) => Ok(
                                FxrModel {
                                    header: h,
                                    section1_tree: t1,
                                    section4_tree: t4,
                                    section12_entries: a12,
                                    section13_entries: a13,
                                    section14_entries: a14,
                                },
                            ),
                        },
                    },
                },
            },
        },
    }
}

/// A valid header whose section counts are all 0 parses to the header alone,
/// whatever its offset fields hold: an absent section is never looked at.
pub proof fn lemma_absent_sections_not_followed(s: Seq<u8>)
    requires
        spec_parse_valid_struct::<Header>(s, 0, Family::Header) matches Ok(h) && h.section1_count
            == 0 && h.section4_count == 0 && h.section12_count == 0 && h.section13_count == 0
            && h.section14_count == 0,
    ensures
        spec_parse_fxr(s) == Ok::<FxrModel, ParseFailure>(
            FxrModel {
                header: Header::spec_read(s, 0),
                section1_tree: None,
                section4_tree: None,
                section12_entries: None,
                section13_entries: None,
                section14_entries: None,
            },
        ),
{
}

/// A failure in any part of the file that the header declares present
/// fails the whole parse: the result is an error, never a partial tree.
pub proof fn lemma_fxr_fail_fast(s: Seq<u8>)
    requires
        spec_parse_valid_struct::<Header>(s, 0, Family::Header) matches Ok(h) && ((h.section1_count
            != 0 && spec_section1_tree(s, h.section1_offset) is Err) || (h.section4_count != 0
            && spec_section4_tree(s, h.section4_offset) is Err) || spec_optional_slice::<
            Section12Entry,
        >(s, h.section12_offset, h.section12_count, Family::Section12) is Err
            || spec_optional_slice::<Section13Entry>(
            s,
            h.section13_offset,
            h.section13_count,
            Family::Section13,
        ) is Err || spec_optional_slice::<Section14Entry>(
            s,
            h.section14_offset,
            h.section14_count,
            Family::Section14,
        ) is Err),
    ensures
        spec_parse_fxr(s) is Err,
{
}

/// Parses a whole file held in `fxr_file_bytes`. Either every node that
/// the header declares present is read, bounds-checked and validated, or
/// the first failure is returned and nothing else.
pub fn parse_fxr<'a>(fxr_file_bytes: &'a [u8]) -> (r: Result<ParsedFXR<'a>, ParseError>)
    ensures
        match r {
            Ok(p) => spec_parse_fxr(fxr_file_bytes@) == Ok::<FxrModel, ParseFailure>(p@),
            Err(e) => spec_parse_fxr(fxr_file_bytes@) == Err::<FxrModel, ParseFailure>(e@),
        },
{
    let data = fxr_file_bytes;
    let header = parse_valid_struct::<Header>(data, 0, Family::Header)?;
    let section1_tree = if header.section1_count == 0 {
        None
    } else {
        Some(parse_section1_tree(data, header.section1_offset)?)
    };
    let section4_tree = if header.section4_count == 0 {
        None
    } else {
        Some(parse_section4_tree(data, header.section4_offset)?)
    };
    let section12_entries = parse_optional_slice::<Section12Entry>(
        data,
        header.section12_offset,
        header.section12_count,
        Family::Section12,
    )?;
    let section13_entries = parse_optional_slice::<Section13Entry>(
        data,
        header.section13_offset,
        header.section13_count,
        Family::Section13,
    )?;
    let section14_entries = parse_optional_slice::<Section14Entry>(
        data,
        header.section14_offset,
        header.section14_count,
        Family::Section14,
    )?;
    Ok(
        ParsedFXR {
            header,
            section1_tree,
            section4_tree,
            section12_entries,
            section13_entries,
            section14_entries,
        },
    )
}

} // verus!
