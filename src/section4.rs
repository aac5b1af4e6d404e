//! The Section4 tree: a Section4 container and its Section4, Section5 and
//! Section6 entries, each Section6 entry with its own subtree.
use crate::record::Record;
use crate::section6::{parse_section6_nested, spec_section6, ParsedSection6, Section6Model};
use crate::sections::{Section4Container, Section4Entry, Section5Entry, Section6Entry};
use crate::view::{span_entries, ArraySpan, ArrayView, Family, ParseError, ParseFailure};
use crate::walk::{
    opt_span, parse_optional_slice, parse_valid_struct, spec_optional_slice,
    spec_parse_valid_struct,
};
use vstd::prelude::*;

verus! {

/// What a Section4 tree resolves to.
pub struct Section4TreeModel {
    pub container: Section4Container,
    pub section4_entries: Option<ArraySpan>,
    pub section5_entries: Option<ArraySpan>,
    pub section6_entries: Option<ArraySpan>,
    pub section6: Seq<Section6Model>,
}

/// A validated Section4 container, its three entry arrays, and what each
/// Section6 entry resolves to, in order.
pub struct ParsedSection4Tree<'a> {
    pub container: Section4Container,
    pub section4_entries: Option<ArrayView<'a, Section4Entry>>,
    pub section5_entries: Option<ArrayView<'a, Section5Entry>>,
    pub section6_entries: Option<ArrayView<'a, Section6Entry>>,
    pub section6: Vec<ParsedSection6<'a>>,
}

impl<'a> View for ParsedSection4Tree<'a> {
    type V = Section4TreeModel;

    open spec fn view(&self) -> Section4TreeModel {
        Section4TreeModel {
            container: self.container,
            section4_entries: opt_span(self.section4_entries),
            section5_entries: opt_span(self.section5_entries),
            section6_entries: opt_span(self.section6_entries),
            section6: self.section6@.map_values(|p: ParsedSection6<'a>| p@),
        }
    }
}

/// What the Section6 entries `i..n` of `span` resolve to; the first
/// failure in order is the result.
pub open spec fn spec_section6_list(s: Seq<u8>, span: ArraySpan, i: int, n: int) -> Result<
    Seq<Section6Model>,
    ParseFailure,
>
    decreases n - i,
{
    if i >= n {
        Ok(Seq::empty())
    } else {
        match spec_section6(
            s,
            span_entries::<Section6Entry>(span)[i],
            (span.offset + i * Section6Entry::spec_size()) as usize,
        ) {
            Err(x) => Err(x),
            Ok(m) => match spec_section6_list(s, span, i + 1, n) {
                Err(x) => Err(x),
                Ok(rest) => Ok(seq![m] + rest),
            },
        }
    }
}

/// A Section6 entry whose subtree fails makes every list of entries holding
/// it fail.
pub proof fn lemma_section6_list_fail_fast(s: Seq<u8>, span: ArraySpan, i: int, k: int, n: int)
    requires
        i <= k < n,
        spec_section6(
            s,
            span_entries::<Section6Entry>(span)[k],
            (span.offset + k * Section6Entry::spec_size()) as usize,
        ) is Err,
    ensures
        spec_section6_list(s, span, i, n) is Err,
    decreases k - i,
{
    if i < k {
        lemma_section6_list_fail_fast(s, span, i + 1, k, n);
    }
}

/// What the Section4 tree whose container is at `offset` resolves to.
pub open spec fn spec_section4_tree(s: Seq<u8>, offset: u32) -> Result<
    Section4TreeModel,
    ParseFailure,
> {
    match spec_parse_valid_struct::<Section4Container>(s, offset, Family::Section4Container) {
        Err(x) => Err(x),
        Ok(c) => match spec_optional_slice::<Section4Entry>(
            s,
            c.section4_offset,
            c.section4_count,
            Family::Section4,
        ) {
            Err(x) => Err(x),
            Ok(s4) => match spec_optional_slice::<Section5Entry>(
                s,
                c.section5_offset,
                c.section5_count,
                Family::Section5,
            ) {
                Err(x) => Err(x),
                Ok(s5) => match spec_optional_slice::<Section6Entry>(
                    s,
                    c.section6_offset,
                    c.section6_count,
                    Family::Section6,
                ) {
                    Err(x) => Err(x),
                    Ok(None) => Ok(
                        Section4TreeModel {
                            container: c,
                            section4_entries: s4,
                            section5_entries: s5,
                            section6_entries: None,
                            section6: Seq::empty(),
                        },
                    ),
                    Ok(Some(span)) => match spec_section6_list(s, span, 0, span.count as int) {
                        Err(x) => Err(x),
                        Ok(l) => Ok(
                            Section4TreeModel {
                                container: c,
                                section4_entries: s4,
                                section5_entries: s5,
                                section6_entries: Some(span),
                                section6: l,
                            },
                        ),
                    },
                },
            },
        },
    }
}

/// Resolves every entry of a Section6 array, in order.
pub fn parse_section6_entries<'a>(data: &'a [u8], entries: &ArrayView<'a, Section6Entry>) -> (r:
    Result<Vec<ParsedSection6<'a>>, ParseError>)
    ensures
        match r {
            Ok(v) => spec_section6_list(data@, entries@, 0, entries@.count as int) == Ok::<
                Seq<Section6Model>,
                ParseFailure,
            >(v@.map_values(|p: ParsedSection6<'a>| p@)),
            Err(e) => spec_section6_list(data@, entries@, 0, entries@.count as int) == Err::<
                Seq<Section6Model>,
                ParseFailure,
            >(e@),
        },
{
    let n = entries.len();
    let mut out: Vec<ParsedSection6<'a>> = Vec::new();
    let mut i: usize = 0;
    while i < n
        invariant
            n == entries@.count,
            i <= n,
            spec_section6_list(data@, entries@, 0, n as int) == match spec_section6_list(
                data@,
                entries@,
                i as int,
                n as int,
            ) {
                Ok(rest) => Ok(out@.map_values(|p: ParsedSection6<'a>| p@) + rest),
                Err(x) => Err(x),
            },
        decreases n - i,
    {
        let entry = entries.get(i);
        let at = entries.entry_offset(i);
        let parsed = match parse_section6_nested(data, &entry, at) {
            Ok(p) => p,
            Err(e) => {
                return Err(e);
            },
        };
        let ghost before = out@.map_values(|p: ParsedSection6<'a>| p@);
        let ghost m = parsed@;
        out.push(parsed);
        proof {
            let after = out@.map_values(|p: ParsedSection6<'a>| p@);
            assert(after =~= before.push(m));
            match spec_section6_list(data@, entries@, i + 1, n as int) {
                Ok(rest) => {
                    assert(before + (seq![m] + rest) =~= after + rest);
                },
                Err(x) => {},
            }
        }
        i = i + 1;
    }
    proof {
        assert(out@.map_values(|p: ParsedSection6<'a>| p@) + Seq::<Section6Model>::empty()
            =~= out@.map_values(|p: ParsedSection6<'a>| p@));
    }
    Ok(out)
}

/// Reads and validates the Section4 container at `offset`, then its
/// Section4, Section5 and Section6 entries in that order, and then the
/// subtree of every Section6 entry.
pub fn parse_section4_tree<'a>(data: &'a [u8], offset: u32) -> (r: Result<
    ParsedSection4Tree<'a>,
    ParseError,
>)
    ensures
        match r {
            Ok(p) => spec_section4_tree(data@, offset) == Ok::<Section4TreeModel, ParseFailure>(
                p@,
            ),
            Err(e) => spec_section4_tree(data@, offset) == Err::<Section4TreeModel, ParseFailure>(
                e@,
            ),
        },
{
    let container = parse_valid_struct::<Section4Container>(
        data,
        offset,
        Family::Section4Container,
    )?;
    let section4_entries = parse_optional_slice::<Section4Entry>(
        data,
        container.section4_offset,
        container.section4_count,
        Family::Section4,
    )?;
    let section5_entries = parse_optional_slice::<Section5Entry>(
        data,
        container.section5_offset,
        container.section5_count,
        Family::Section5,
    )?;
    let section6_entries = parse_optional_slice::<Section6Entry>(
        data,
        container.section6_offset,
        container.section6_count,
        Family::Section6,
    )?;
    let section6 = match &section6_entries {
        Some(entries) => parse_section6_entries(data, entries)?,
        None => Vec::new(),
    };
    proof {
        if section6_entries is None {
            assert(section6@.map_values(|p: ParsedSection6<'a>| p@) =~= Seq::<
                Section6Model,
            >::empty());
        }
    }
    Ok(ParsedSection4Tree { container, section4_entries, section5_entries, section6_entries, section6 })
}

} // verus!
