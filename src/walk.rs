//! The two steps that every node of the section tree is built from: a
//! record read and then validated, and an array read only when its count is
//! not zero.
use crate::record::{validate_record, violations, Record};
use crate::view::{
    parse_section_slice, parse_struct, result_view, spec_parse_section_slice, spec_parse_struct,
    ArraySpan, ArrayView, Family, ParseError, ParseFailure,
};
use vstd::prelude::*;

verus! {

/// What reading and then validating the record of type `T` at `offset` gives.
pub open spec fn spec_parse_valid_struct<T: Record>(s: Seq<u8>, offset: u32, label: Family) -> Result<
    T,
    ParseFailure,
> {
    match spec_parse_struct::<T>(s, offset, label) {
        Err(e) => Err(e),
        Ok(rec) => if violations(rec.spec_checks()).len() == 0 {
            Ok(rec)
        } else {
            Err(
                ParseFailure::ValidationFailed {
                    label,
                    offset: offset as usize,
                    violations: violations(rec.spec_checks()),
                },
            )
        },
    }
}

/// What an optional array gives: nothing when `count` is 0, whatever the
/// offset, and otherwise the bounds-checked array.
pub open spec fn spec_optional_slice<T: Record>(
    s: Seq<u8>,
    offset: u32,
    count: u32,
    label: Family,
) -> Result<Option<ArraySpan>, ParseFailure> {
    if count == 0 {
        Ok(None)
    } else {
        match spec_parse_section_slice::<T>(s, offset, count, label) {
            Ok(span) => Ok(Some(span)),
            Err(e) => Err(e),
        }
    }
}

/// The spans of an optional view.
pub open spec fn opt_span<T: Record>(o: Option<ArrayView<'_, T>>) -> Option<ArraySpan> {
    match o {
        Some(v) => Some(v@),
        None => None,
    }
}

/// Reads the record of type `T` at `offset` and checks its field
/// constraints; a record that breaks any of them is refused with all of
/// its violations.
pub fn parse_valid_struct<T: Record>(data: &[u8], offset: u32, label: Family) -> (r: Result<
    T,
    ParseError,
>)
    ensures
        match r {
            Ok(rec) => spec_parse_valid_struct::<T>(data@, offset, label) == Ok::<
                T,
                ParseFailure,
            >(rec),
            Err(e) => spec_parse_valid_struct::<T>(data@, offset, label) == Err::<T, ParseFailure>(
                e@,
            ),
        },
{
    let rec = match parse_struct::<T>(data, offset, label) {
        Ok(rec) => rec,
        Err(e) => {
            return Err(e);
        },
    };
    let found = validate_record(&rec);
    if found.len() == 0 {
        Ok(rec)
    } else {
        Err(ParseError::ValidationFailed { label, offset: offset as usize, violations: found })
    }
}

/// Views `count` records of type `T` at `offset` when `count` is not zero;
/// a zero count gives `None` and the offset is never looked at.
pub fn parse_optional_slice<'a, T: Record>(
    data: &'a [u8],
    offset: u32,
    count: u32,
    label: Family,
) -> (r: Result<Option<ArrayView<'a, T>>, ParseError>)
    ensures
        match r {
            Ok(o) => spec_optional_slice::<T>(data@, offset, count, label) == Ok::<
                Option<ArraySpan>,
                ParseFailure,
            >(opt_span(o)),
            Err(e) => spec_optional_slice::<T>(data@, offset, count, label) == Err::<
                Option<ArraySpan>,
                ParseFailure,
            >(e@),
        },
{
    if count == 0 {
        return Ok(None);
    }
    let r = parse_section_slice::<T>(data, offset, count, label);
    match r {
        Ok(v) => Ok(Some(v)),
        Err(e) => Err(e),
    }
}

} // verus!
