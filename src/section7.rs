//! The Section7 subtree: a Section7 container's Section11 array and its
//! Section8 entries, each with a Section11 array and Section9 entries, each
//! of those with a Section11 array of its own.
use crate::sections::{Section11Entry, Section7Container, Section8Entry, Section9Entry};
use crate::view::{span_entries, ArraySpan, ArrayView, Family, ParseError, ParseFailure};
use crate::walk::{opt_span, parse_optional_slice, spec_optional_slice};
use vstd::prelude::*;

verus! {

/// What a Section9 entry resolves to.
pub struct Section9Model {
    pub section11: Option<ArraySpan>,
}

/// What a Section8 entry resolves to.
pub struct Section8Model {
    pub section11: Option<ArraySpan>,
    pub section9_entries: Option<ArraySpan>,
    pub section9: Seq<Section9Model>,
}

/// What the children of a Section7 container resolve to.
pub struct Section7NestedModel {
    pub section11: Option<ArraySpan>,
    pub section8_entries: Option<ArraySpan>,
    pub section8: Seq<Section8Model>,
}

/// The resolved children of one Section9 entry.
pub struct ParsedSection9<'a> {
    pub section11: Option<ArrayView<'a, Section11Entry>>,
}

/// The resolved children of one Section8 entry: its Section11 array, its
/// Section9 entries, and what each of those resolves to, in order.
pub struct ParsedSection8<'a> {
    pub section11: Option<ArrayView<'a, Section11Entry>>,
    pub section9_entries: Option<ArrayView<'a, Section9Entry>>,
    pub section9: Vec<ParsedSection9<'a>>,
}

/// The resolved children of a Section7 container: its Section11 array, its
/// Section8 entries, and what each of those resolves to, in order.
pub struct ParsedSection7Nested<'a> {
    pub section11: Option<ArrayView<'a, Section11Entry>>,
    pub section8_entries: Option<ArrayView<'a, Section8Entry>>,
    pub section8: Vec<ParsedSection8<'a>>,
}

impl<'a> View for ParsedSection9<'a> {
    type V = Section9Model;

    open spec fn view(&self) -> Section9Model {
        Section9Model { section11: opt_span(self.section11) }
    }
}

impl<'a> View for ParsedSection8<'a> {
    type V = Section8Model;

    open spec fn view(&self) -> Section8Model {
        Section8Model {
            section11: opt_span(self.section11),
            section9_entries: opt_span(self.section9_entries),
            section9: self.section9@.map_values(|p: ParsedSection9<'a>| p@),
        }
    }
}

impl<'a> View for ParsedSection7Nested<'a> {
    type V = Section7NestedModel;

    open spec fn view(&self) -> Section7NestedModel {
        Section7NestedModel {
            section11: opt_span(self.section11),
            section8_entries: opt_span(self.section8_entries),
            section8: self.section8@.map_values(|p: ParsedSection8<'a>| p@),
        }
    }
}

/// What a Section9 entry resolves to in the buffer `s`.
pub open spec fn spec_section9(s: Seq<u8>, e: Section9Entry) -> Result<Section9Model, ParseFailure> {
    match spec_optional_slice::<Section11Entry>(
        s,
        e.section11_offset,
        e.section11_count,
        Family::Section11,
    ) {
        Err(x) => Err(x),
        Ok(s11) => Ok(Section9Model { section11: s11 }),
    }
}

/// What the Section9 entries `i..n` of `span` resolve to; the first
/// failure in order is the result.
pub open spec fn spec_section9_list(s: Seq<u8>, span: ArraySpan, i: int, n: int) -> Result<
    Seq<Section9Model>,
    ParseFailure,
>
    decreases n - i,
{
    if i >= n {
        Ok(Seq::empty())
    } else {
        match spec_section9(s, span_entries::<Section9Entry>(span)[i]) {
            Err(x) => Err(x),
            Ok(m) => match spec_section9_list(s, span, i + 1, n) {
                Err(x) => Err(x),
                Ok(rest) => Ok(seq![m] + rest),
            },
        }
    }
}

/// What a Section8 entry resolves to in the buffer `s`.
pub open spec fn spec_section8(s: Seq<u8>, e: Section8Entry) -> Result<Section8Model, ParseFailure> {
    match spec_optional_slice::<Section11Entry>(
        s,
        e.section11_offset,
        e.section11_count,
        Family::Section11,
    ) {
        Err(x) => Err(x),
        Ok(s11) => match spec_optional_slice::<Section9Entry>(
            s,
            e.section9_offset,
            e.section9_count,
            Family::Section9,
        ) {
            Err(x) => Err(x),
            Ok(None) => Ok(
                Section8Model { section11: s11, section9_entries: None, section9: Seq::empty() },
            ),
            Ok(Some(span)) => match spec_section9_list(s, span, 0, span.count as int) {
                Err(x) => Err(x),
                Ok(l) => Ok(
                    Section8Model { section11: s11, section9_entries: Some(span), section9: l },
                ),
            },
        },
    }
}

/// What the Section8 entries `i..n` of `span` resolve to; the first
/// failure in order is the result.
pub open spec fn spec_section8_list(s: Seq<u8>, span: ArraySpan, i: int, n: int) -> Result<
    Seq<Section8Model>,
    ParseFailure,
>
    decreases n - i,
{
    if i >= n {
        Ok(Seq::empty())
    } else {
        match spec_section8(s, span_entries::<Section8Entry>(span)[i]) {
            Err(x) => Err(x),
            Ok(m) => match spec_section8_list(s, span, i + 1, n) {
                Err(x) => Err(x),
                Ok(rest) => Ok(seq![m] + rest),
            },
        }
    }
}

/// What the children of a Section7 container resolve to in the buffer `s`.
pub open spec fn spec_section7_nested(s: Seq<u8>, c: Section7Container) -> Result<
    Section7NestedModel,
    ParseFailure,
> {
    match spec_optional_slice::<Section11Entry>(
        s,
        c.section11_offset,
        c.section11_count,
        Family::Section11,
    ) {
        Err(x) => Err(x),
        Ok(s11) => match spec_optional_slice::<Section8Entry>(
            s,
            c.section8_offset,
            c.section8_count,
            Family::Section8,
        ) {
            Err(x) => Err(x),
            Ok(None) => Ok(
                Section7NestedModel {
                    section11: s11,
                    section8_entries: None,
                    section8: Seq::empty(),
                },
            ),
            Ok(Some(span)) => match spec_section8_list(s, span, 0, span.count as int) {
                Err(x) => Err(x),
                Ok(l) => Ok(
                    Section7NestedModel { section11: s11, section8_entries: Some(span), section8: l },
                ),
            },
        },
    }
}

/// A Section9 entry that fails makes every list of entries holding it fail.
pub proof fn lemma_section9_list_fail_fast(s: Seq<u8>, span: ArraySpan, i: int, k: int, n: int)
    requires
        i <= k < n,
        spec_section9(s, span_entries::<Section9Entry>(span)[k]) is Err,
    ensures
        spec_section9_list(s, span, i, n) is Err,
    decreases k - i,
{
    if i < k {
        lemma_section9_list_fail_fast(s, span, i + 1, k, n);
    }
}

/// A Section8 entry that fails makes every list of entries holding it fail.
pub proof fn lemma_section8_list_fail_fast(s: Seq<u8>, span: ArraySpan, i: int, k: int, n: int)
    requires
        i <= k < n,
        spec_section8(s, span_entries::<Section8Entry>(span)[k]) is Err,
    ensures
        spec_section8_list(s, span, i, n) is Err,
    decreases k - i,
{
    if i < k {
        lemma_section8_list_fail_fast(s, span, i + 1, k, n);
    }
}

/// Resolves the Section11 array of one Section9 entry.
pub fn parse_section9_entry<'a>(data: &'a [u8], entry: &Section9Entry) -> (r: Result<
    ParsedSection9<'a>,
    ParseError,
>)
    ensures
        match r {
            Ok(p) => spec_section9(data@, *entry) == Ok::<Section9Model, ParseFailure>(p@),
            Err(e) => spec_section9(data@, *entry) == Err::<Section9Model, ParseFailure>(e@),
        },
{
    let section11 = parse_optional_slice::<Section11Entry>(
        data,
        entry.section11_offset,
        entry.section11_count,
        Family::Section11,
    )?;
    Ok(ParsedSection9 { section11 })
}

/// Resolves every entry of a Section9 array, in order.
pub fn parse_section9_entries<'a>(data: &'a [u8], entries: &ArrayView<'a, Section9Entry>) -> (r:
    Result<Vec<ParsedSection9<'a>>, ParseError>)
    ensures
        match r {
            Ok(v) => spec_section9_list(data@, entries@, 0, entries@.count as int) == Ok::<
                Seq<Section9Model>,
                ParseFailure,
            >(v@.map_values(|p: ParsedSection9<'a>| p@)),
            Err(e) => spec_section9_list(data@, entries@, 0, entries@.count as int) == Err::<
                Seq<Section9Model>,
                ParseFailure,
            >(e@),
        },
{
    let n = entries.len();
    let mut out: Vec<ParsedSection9<'a>> = Vec::new();
    let mut i: usize = 0;
    while i < n
        invariant
            n == entries@.count,
            i <= n,
            spec_section9_list(data@, entries@, 0, n as int) == match spec_section9_list(
                data@,
                entries@,
                i as int,
                n as int,
            ) {
                Ok(rest) => Ok(out@.map_values(|p: ParsedSection9<'a>| p@) + rest),
                Err(x) => Err(x),
            },
        decreases n - i,
    {
        let entry = entries.get(i);
        let parsed = match parse_section9_entry(data, &entry) {
            Ok(p) => p,
            Err(e) => {
                return Err(e);
            },
        };
        let ghost before = out@.map_values(|p: ParsedSection9<'a>| p@);
        out.push(parsed);
        proof {
            let after = out@.map_values(|p: ParsedSection9<'a>| p@);
            assert(after =~= before.push(parsed@));
            match spec_section9_list(data@, entries@, i + 1, n as int) {
                Ok(rest) => {
                    assert(before + (seq![parsed@] + rest) =~= after + rest);
                },
                Err(x) => {},
            }
        }
        i = i + 1;
    }
    proof {
        assert(out@.map_values(|p: ParsedSection9<'a>| p@) + Seq::<Section9Model>::empty()
            =~= out@.map_values(|p: ParsedSection9<'a>| p@));
    }
    Ok(out)
}

/// Resolves the Section11 array and the Section9 entries of one Section8
/// entry.
pub fn parse_section8_entry<'a>(data: &'a [u8], entry: &Section8Entry) -> (r: Result<
    ParsedSection8<'a>,
    ParseError,
>)
    ensures
        match r {
            Ok(p) => spec_section8(data@, *entry) == Ok::<Section8Model, ParseFailure>(p@),
            Err(e) => spec_section8(data@, *entry) == Err::<Section8Model, ParseFailure>(e@),
        },
{
    let section11 = parse_optional_slice::<Section11Entry>(
        data,
        entry.section11_offset,
        entry.section11_count,
        Family::Section11,
    )?;
    let section9_entries = parse_optional_slice::<Section9Entry>(
        data,
        entry.section9_offset,
        entry.section9_count,
        Family::Section9,
    )?;
    let section9 = match &section9_entries {
        Some(entries) => parse_section9_entries(data, entries)?,
        None => Vec::new(),
    };
    proof {
        if section9_entries is None {
            assert(section9@.map_values(|p: ParsedSection9<'a>| p@) =~= Seq::<
                Section9Model,
            >::empty());
        }
    }
    Ok(ParsedSection8 { section11, section9_entries, section9 })
}

/// Resolves every entry of a Section8 array, in order.
pub fn parse_section8_entries<'a>(data: &'a [u8], entries: &ArrayView<'a, Section8Entry>) -> (r:
    Result<Vec<ParsedSection8<'a>>, ParseError>)
    ensures
        match r {
            Ok(v) => spec_section8_list(data@, entries@, 0, entries@.count as int) == Ok::<
                Seq<Section8Model>,
                ParseFailure,
            >(v@.map_values(|p: ParsedSection8<'a>| p@)),
            Err(e) => spec_section8_list(data@, entries@, 0, entries@.count as int) == Err::<
                Seq<Section8Model>,
                ParseFailure,
            >(e@),
        },
{
    let n = entries.len();
    let mut out: Vec<ParsedSection8<'a>> = Vec::new();
    let mut i: usize = 0;
    while i < n
        invariant
            n == entries@.count,
            i <= n,
            spec_section8_list(data@, entries@, 0, n as int) == match spec_section8_list(
                data@,
                entries@,
                i as int,
                n as int,
            ) {
                Ok(rest) => Ok(out@.map_values(|p: ParsedSection8<'a>| p@) + rest),
                Err(x) => Err(x),
            },
        decreases n - i,
    {
        let entry = entries.get(i);
        let parsed = match parse_section8_entry(data, &entry) {
            Ok(p) => p,
            Err(e) => {
                return Err(e);
            },
        };
        let ghost before = out@.map_values(|p: ParsedSection8<'a>| p@);
        let ghost m = parsed@;
        out.push(parsed);
        proof {
            let after = out@.map_values(|p: ParsedSection8<'a>| p@);
            assert(after =~= before.push(m));
            match spec_section8_list(data@, entries@, i + 1, n as int) {
                Ok(rest) => {
                    assert(before + (seq![m] + rest) =~= after + rest);
                },
                Err(x) => {},
            }
        }
        i = i + 1;
    }
    proof {
        assert(out@.map_values(|p: ParsedSection8<'a>| p@) + Seq::<Section8Model>::empty()
            =~= out@.map_values(|p: ParsedSection8<'a>| p@));
    }
    Ok(out)
}

/// Resolves the children of a Section7 container: its Section11 array,
/// then its Section8 entries and everything below them. A zero count leaves
/// the child absent; any failure below aborts the whole subtree.
pub fn parse_section7_nested<'a>(data: &'a [u8], container: &Section7Container) -> (r: Result<
    ParsedSection7Nested<'a>,
    ParseError,
>)
    ensures
        match r {
            Ok(p) => spec_section7_nested(data@, *container) == Ok::<
                Section7NestedModel,
                ParseFailure,
            >(p@),
            Err(e) => spec_section7_nested(data@, *container) == Err::<
                Section7NestedModel,
                ParseFailure,
            >(e@),
        },
{
    let section11 = parse_optional_slice::<Section11Entry>(
        data,
        container.section11_offset,
        container.section11_count,
        Family::Section11,
    )?;
    let section8_entries = parse_optional_slice::<Section8Entry>(
        data,
        container.section8_offset,
        container.section8_count,
        Family::Section8,
    )?;
    let section8 = match &section8_entries {
        Some(entries) => parse_section8_entries(data, entries)?,
        None => Vec::new(),
    };
    proof {
        if section8_entries is None {
            assert(section8@.map_values(|p: ParsedSection8<'a>| p@) =~= Seq::<
                Section8Model,
            >::empty());
        }
    }
    Ok(ParsedSection7Nested { section11, section8_entries, section8 })
}

} // verus!
