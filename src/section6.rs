//! The subtree below one Section6 entry: a Section11 array, a Section10
//! container with its own Section11 array, and a Section7 container with
//! everything below it.
use crate::record::{validate_record, violations, Record};
use crate::section7::{parse_section7_nested, spec_section7_nested, ParsedSection7Nested, Section7NestedModel};
use crate::sections::{Section10Container, Section11Entry, Section6Entry, Section7Container};
use crate::view::{ArraySpan, ArrayView, Family, ParseError, ParseFailure};
use crate::walk::{
    opt_span, parse_optional_slice, parse_valid_struct, spec_optional_slice,
    spec_parse_valid_struct,
};
use vstd::prelude::*;

verus! {

/// What a Section10 container resolves to.
pub struct Section10Model {
    pub container: Section10Container,
    pub section11: Option<ArraySpan>,
}

/// What a Section7 container resolves to.
pub struct Section7Model {
    pub container: Section7Container,
    pub nested: Section7NestedModel,
}

/// What a Section6 entry resolves to.
pub struct Section6Model {
    pub section11: Option<ArraySpan>,
    pub section10: Option<Section10Model>,
    pub section7: Option<Section7Model>,
}

/// A validated Section10 container and its Section11 array.
pub struct ParsedSection10<'a> {
    pub container: Section10Container,
    pub section11: Option<ArrayView<'a, Section11Entry>>,
}

/// A validated Section7 container and its resolved children.
pub struct ParsedSection7<'a> {
    pub container: Section7Container,
    pub nested: ParsedSection7Nested<'a>,
}

/// The resolved children of one Section6 entry.
pub struct ParsedSection6<'a> {
    pub section11: Option<ArrayView<'a, Section11Entry>>,
    pub section10: Option<ParsedSection10<'a>>,
    pub section7: Option<ParsedSection7<'a>>,
}

impl<'a> View for ParsedSection10<'a> {
    type V = Section10Model;

    open spec fn view(&self) -> Section10Model {
        Section10Model { container: self.container, section11: opt_span(self.section11) }
    }
}

impl<'a> View for ParsedSection7<'a> {
    type V = Section7Model;

    open spec fn view(&self) -> Section7Model {
        Section7Model { container: self.container, nested: self.nested@ }
    }
}

impl<'a> View for ParsedSection6<'a> {
    type V = Section6Model;

    open spec fn view(&self) -> Section6Model {
        Section6Model {
            section11: opt_span(self.section11),
            section10: match self.section10 {
                Some(p) => Some(p@),
                None => None,
            },
            section7: match self.section7 {
                Some(p) => Some(p@),
                None => None,
            },
        }
    }
}

/// What the Section10 container at `offset` resolves to.
pub open spec fn spec_section10(s: Seq<u8>, offset: u32) -> Result<Section10Model, ParseFailure> {
    match spec_parse_valid_struct::<Section10Container>(s, offset, Family::Section10) {
        Err(x) => Err(x),
        Ok(c) => match spec_optional_slice::<Section11Entry>(
            s,
            c.section11_offset,
            c.section11_count,
            Family::Section11,
        ) {
            Err(x) => Err(x),
            Ok(s11) => Ok(Section10Model { container: c, section11: s11 }),
        },
    }
}

/// What the Section7 container at `offset` resolves to.
pub open spec fn spec_section7(s: Seq<u8>, offset: u32) -> Result<Section7Model, ParseFailure> {
    match spec_parse_valid_struct::<Section7Container>(s, offset, Family::Section7) {
        Err(x) => Err(x),
        Ok(c) => match spec_section7_nested(s, c) {
            Err(x) => Err(x),
            Ok(n) => Ok(Section7Model { container: c, nested: n }),
        },
    }
}

/// What the Section6 entry `e`, stored at byte `offset`, resolves to: the
/// entry is validated first, then its Section11 array, Section10 container
/// and Section7 container are resolved in that order, each only when its
/// count is not zero.
pub open spec fn spec_section6(s: Seq<u8>, e: Section6Entry, offset: usize) -> Result<
    Section6Model,
    ParseFailure,
> {
    if violations(e.spec_checks()).len() != 0 {
        Err(
            ParseFailure::ValidationFailed {
                label: Family::Section6,
                offset,
                violations: violations(e.spec_checks()),
            },
        )
    } else {
        match spec_optional_slice::<Section11Entry>(
            s,
            e.section11_offset,
            e.section11_count1,
            Family::Section11,
        ) {
            Err(x) => Err(x),
            Ok(s11) => {
                let s10 = if e.section10_count == 0 {
                    Ok(None)
                } else {
                    match spec_section10(s, e.section10_offset) {
                        Err(x) => Err(x),
                        Ok(m) => Ok(Some(m)),
                    }
                };
                match s10 {
                    Err(x) => Err(x),
                    Ok(s10) => {
                        if e.section7_count1 == 0 {
                            Ok(Section6Model { section11: s11, section10: s10, section7: None })
                        } else {
                            match spec_section7(s, e.section7_offset) {
                                Err(x) => Err(x),
                                Ok(m) => Ok(
                                    Section6Model { section11: s11, section10: s10, section7: Some(m) },
                                ),
                            }
                        }
                    },
                }
            },
        }
    }
}

/// Reads and validates the Section10 container at `offset`, then its
/// Section11 array.
pub fn parse_section10<'a>(data: &'a [u8], offset: u32) -> (r: Result<ParsedSection10<'a>, ParseError>)
    ensures
        match r {
            Ok(p) => spec_section10(data@, offset) == Ok::<Section10Model, ParseFailure>(p@),
            Err(e) => spec_section10(data@, offset) == Err::<Section10Model, ParseFailure>(e@),
        },
{
    let container = parse_valid_struct::<Section10Container>(data, offset, Family::Section10)?;
    let section11 = parse_optional_slice::<Section11Entry>(
        data,
        container.section11_offset,
        container.section11_count,
        Family::Section11,
    )?;
    Ok(ParsedSection10 { container, section11 })
}

/// Reads and validates the Section7 container at `offset`, then resolves
/// its children.
pub fn parse_section7<'a>(data: &'a [u8], offset: u32) -> (r: Result<ParsedSection7<'a>, ParseError>)
    ensures
        match r {
            Ok(p) => spec_section7(data@, offset) == Ok::<Section7Model, ParseFailure>(p@),
            Err(e) => spec_section7(data@, offset) == Err::<Section7Model, ParseFailure>(e@),
        },
{
    let container = parse_valid_struct::<Section7Container>(data, offset, Family::Section7)?;
    let nested = parse_section7_nested(data, &container)?;
    Ok(ParsedSection7 { container, nested })
}

/// Validates the Section6 entry `entry`, stored at byte `offset`, and
/// resolves its Section11 array, Section10 container and Section7
/// container.
pub fn parse_section6_nested<'a>(data: &'a [u8], entry: &Section6Entry, offset: usize) -> (r:
    Result<ParsedSection6<'a>, ParseError>)
    ensures
        match r {
            Ok(p) => spec_section6(data@, *entry, offset) == Ok::<Section6Model, ParseFailure>(p@),
            Err(e) => spec_section6(data@, *entry, offset) == Err::<Section6Model, ParseFailure>(
                e@,
            ),
        },
{
    let found = validate_record(entry);
    if found.len() != 0 {
        return Err(ParseError::ValidationFailed { label: Family::Section6, offset, violations: found });
    }
    let section11 = parse_optional_slice::<Section11Entry>(
        data,
        entry.section11_offset,
        entry.section11_count1,
        Family::Section11,
    )?;
    let section10 = if entry.section10_count == 0 {
        None
    } else {
        Some(parse_section10(data, entry.section10_offset)?)
    };
    let section7 = if entry.section7_count1 == 0 {
        None
    } else {
        Some(parse_section7(data, entry.section7_offset)?)
    };
    Ok(ParsedSection6 { section11, section10, section7 })
}

} // verus!
