//! Bounds-checked views: the only way to read a record or an array of
//! records out of the buffer, and the errors that a read can fail with.
use crate::record::{record_bytes, FieldCheck, Record, U32Field};
use vstd::prelude::*;

verus! {

/// The record family that a node of the file belongs to; used as the label
/// of an error.
#[derive(Clone, Copy, Debug, PartialEq, Eq, Structural)]
pub enum Family {
    Header,
    Section1,
    Section2,
    Section3,
    Section4Container,
    Section4,
    Section5,
    Section6,
    Section7,
    Section8,
    Section9,
    Section10,
    Section11,
    Section12,
    Section13,
    Section14,
}

/// Why a parse failed. Every variant names the node that failed.
#[derive(Debug)]
pub enum ParseError {
    /// The buffer is shorter than one record of the requested kind.
    BufferTooSmall { label: Family, expected: usize, actual: usize },
    /// The requested range ends past the end of the buffer.
    OutOfBounds { label: Family, offset: usize, size: usize, data_len: usize },
    /// The size of the requested range, or its end, does not fit in `usize`.
    SizeOverflow { label: Family, entry_size: usize, count: usize },
    /// The record at `offset` breaks the listed field constraints.
    ValidationFailed { label: Family, offset: usize, violations: Vec<FieldCheck> },
}

/// The value of a `ParseError`, with the violated constraints as a sequence.
pub enum ParseFailure {
    BufferTooSmall { label: Family, expected: usize, actual: usize },
    OutOfBounds { label: Family, offset: usize, size: usize, data_len: usize },
    SizeOverflow { label: Family, entry_size: usize, count: usize },
    ValidationFailed { label: Family, offset: usize, violations: Seq<FieldCheck> },
}

impl View for ParseError {
    type V = ParseFailure;

    open spec fn view(&self) -> ParseFailure {
        match self {
            ParseError::BufferTooSmall { label, expected, actual } => ParseFailure::BufferTooSmall {
                label: *label,
                expected: *expected,
                actual: *actual,
            },
            ParseError::OutOfBounds { label, offset, size, data_len } => ParseFailure::OutOfBounds {
                label: *label,
                offset: *offset,
                size: *size,
                data_len: *data_len,
            },
            ParseError::SizeOverflow { label, entry_size, count } => ParseFailure::SizeOverflow {
                label: *label,
                entry_size: *entry_size,
                count: *count,
            },
            ParseError::ValidationFailed { label, offset, violations } => ParseFailure::ValidationFailed {
                label: *label,
                offset: *offset,
                violations: violations@,
            },
        }
    }
}

/// A result whose error is replaced by its value.
pub open spec fn err_view<T>(r: Result<T, ParseError>) -> Result<T, ParseFailure> {
    match r {
        Ok(v) => Ok(v),
        Err(e) => Err(e@),
    }
}

/// A result whose success and error are both replaced by their values.
pub open spec fn result_view<A: View>(r: Result<A, ParseError>) -> Result<A::V, ParseFailure> {
    match r {
        Ok(v) => Ok(v@),
        Err(e) => Err(e@),
    }
}

/// Where an array of records lies: `count` records from byte `offset` of
/// the buffer `source`.
pub struct ArraySpan {
    pub source: Seq<u8>,
    pub offset: nat,
    pub count: nat,
}

/// The records that a span holds, read as records of type `T`.
pub open spec fn span_entries<T: Record>(span: ArraySpan) -> Seq<T> {
    Seq::new(
        span.count,
        |i: int| T::spec_read(span.source, span.offset + i * T::spec_size()),
    )
}

/// A borrowed, zero-copy view of `count` contiguous records of type `T`.
/// A view exists only for ranges that lie inside the buffer.
pub struct ArrayView<'a, T: Record> {
    data: &'a [u8],
    offset: usize,
    count: usize,
    marker: core::marker::PhantomData<T>,
}

impl<'a, T: Record> View for ArrayView<'a, T> {
    type V = ArraySpan;

    closed spec fn view(&self) -> ArraySpan {
        ArraySpan { source: self.data@, offset: self.offset as nat, count: self.count as nat }
    }
}

impl<'a, T: Record> ArrayView<'a, T> {
    #[verifier::type_invariant]
    closed spec fn inside(self) -> bool {
        self.offset + T::spec_size() * self.count <= self.data@.len()
    }

    /// The records of the view.
    pub open spec fn entries(&self) -> Seq<T> {
        span_entries::<T>(self@)
    }

    /// Number of records in the view.
    pub fn len(&self) -> (r: usize)
        ensures
            r == self@.count,
    {
        self.count
    }

    /// Byte offset of the first record in the buffer.
    pub fn offset(&self) -> (r: usize)
        ensures
            r == self@.offset,
    {
        self.offset
    }

    /// Byte offset of the record at index `i`.
    pub fn entry_offset(&self, i: usize) -> (r: usize)
        requires
            i < self@.count,
        ensures
            r == self@.offset + i * T::spec_size(),
    {
        proof {
            use_type_invariant(self);
            assert(self.data@.len() == self.data.len());
            assert(i * T::spec_size() <= T::spec_size() * self.count) by (nonlinear_arith)
                requires
                    i < self.count,
            ;
        }
        self.offset + i * T::size()
    }

    /// The record at index `i`, read from the buffer.
    pub fn get(&self, i: usize) -> (r: T)
        requires
            i < self@.count,
        ensures
            r == self.entries()[i as int],
    {
        proof {
            use_type_invariant(self);
            T::lemma_size();
            assert(self.data@.len() == self.data.len());
            assert(i * T::spec_size() + T::spec_size() <= T::spec_size() * self.count)
                by (nonlinear_arith)
                requires
                    i < self.count,
            ;
        }
        let size = T::size();
        T::read(self.data, self.offset + i * size)
    }
}

/// What reading one record of type `T` at `offset` gives.
pub open spec fn spec_parse_struct<T: Record>(s: Seq<u8>, offset: u32, label: Family) -> Result<
    T,
    ParseFailure,
> {
    let size = T::spec_size();
    if s.len() < size {
        Err(ParseFailure::BufferTooSmall { label, expected: size as usize, actual: s.len() as usize })
    } else if offset + size > s.len() {
        Err(
            ParseFailure::OutOfBounds {
                label,
                offset: offset as usize,
                size: size as usize,
                data_len: s.len() as usize,
            },
        )
    } else {
        Ok(T::spec_read(s, offset as int))
    }
}

/// What reading `count` records of type `T` from `offset` gives.
pub open spec fn spec_parse_section_slice<T: Record>(
    s: Seq<u8>,
    offset: u32,
    count: u32,
    label: Family,
) -> Result<ArraySpan, ParseFailure> {
    let size = T::spec_size();
    let total = size * count;
    if total > usize::MAX || offset + total > usize::MAX {
        Err(ParseFailure::SizeOverflow { label, entry_size: size as usize, count: count as usize })
    } else if offset + total > s.len() {
        Err(
            ParseFailure::OutOfBounds {
                label,
                offset: offset as usize,
                size: total as usize,
                data_len: s.len() as usize,
            },
        )
    } else {
        Ok(ArraySpan { source: s, offset: offset as nat, count: count as nat })
    }
}

/// Any record written out as bytes and read back with `parse_struct`
/// gives exactly that record.
pub proof fn lemma_parse_struct_round_trip<T: Record>(rec: T, label: Family)
    ensures
        spec_parse_struct::<T>(record_bytes(rec), 0, label) == Ok::<T, ParseFailure>(rec),
{
    rec.lemma_round_trip();
}

/// Shrinking an array read that succeeds by one record keeps it successful.
pub proof fn lemma_parse_section_slice_shrink<T: Record>(
    s: Seq<u8>,
    offset: u32,
    count: u32,
    label: Family,
)
    requires
        0 < count,
        spec_parse_section_slice::<T>(s, offset, count, label) is Ok,
    ensures
        spec_parse_section_slice::<T>(s, offset, (count - 1) as u32, label) is Ok,
{
    let size = T::spec_size();
    assert(size * (count - 1) <= size * count) by (nonlinear_arith);
}

/// An array read that runs past the end of the buffer fails for every
/// larger count at the same offset too.
pub proof fn lemma_parse_section_slice_grow<T: Record>(
    s: Seq<u8>,
    offset: u32,
    count: u32,
    larger: u32,
    label: Family,
)
    requires
        count <= larger,
        spec_parse_section_slice::<T>(s, offset, count, label) matches Err(
            ParseFailure::OutOfBounds { .. },
        ),
    ensures
        spec_parse_section_slice::<T>(s, offset, larger, label) is Err,
{
    let size = T::spec_size();
    assert(size * count <= size * larger) by (nonlinear_arith)
        requires
            count <= larger,
    ;
}

/// Asking for `u32::MAX` records fails with `SizeOverflow` or `OutOfBounds`
/// on every buffer too short to hold them.
pub proof fn lemma_parse_section_slice_max_count<T: Record>(
    s: Seq<u8>,
    offset: u32,
    label: Family,
)
    requires
        s.len() < offset + T::spec_size() * u32::MAX,
    ensures
        spec_parse_section_slice::<T>(s, offset, u32::MAX, label) matches Err(e) && (
        e is SizeOverflow || e is OutOfBounds),
{
}

/// Reads one record of type `T` at byte `offset` of `data`.
pub fn parse_struct<T: Record>(data: &[u8], offset: u32, label: Family) -> (r: Result<
    T,
    ParseError,
>)
    ensures
        err_view(r) == spec_parse_struct::<T>(data@, offset, label),
{
    let size = T::size();
    let len = data.len();
    if len < size {
        return Err(ParseError::BufferTooSmall { label, expected: size, actual: len });
    }
    let start = offset as usize;
    if start > len - size {
        return Err(ParseError::OutOfBounds { label, offset: start, size, data_len: len });
    }
    Ok(T::read(data, start))
}

/// Views `count` records of type `T` starting at byte `offset` of `data`.
pub fn parse_section_slice<'a, T: Record>(
    data: &'a [u8],
    offset: u32,
    count: u32,
    label: Family,
) -> (r: Result<ArrayView<'a, T>, ParseError>)
    ensures
        result_view(r) == spec_parse_section_slice::<T>(data@, offset, count, label),
{
    let size = T::size();
    let start = offset as usize;
    let n = count as usize;
    let total = match size.checked_mul(n) {
        Some(t) => t,
        None => {
            return Err(ParseError::SizeOverflow { label, entry_size: size, count: n });
        },
    };
    let end = match start.checked_add(total) {
        Some(e) => e,
        None => {
            return Err(ParseError::SizeOverflow { label, entry_size: size, count: n });
        },
    };
    if end > data.len() {
        return Err(ParseError::OutOfBounds { label, offset: start, size: total, data_len: data.len() });
    }
    Ok(ArrayView { data, offset: start, count: n, marker: core::marker::PhantomData })
}

/// Views `count` single-value records of type `T` starting at byte
/// `offset`; the same read as `parse_section_slice`.
pub fn parse_named_u32_entries<'a, T: Record + U32Field>(
    data: &'a [u8],
    offset: u32,
    count: u32,
    label: Family,
) -> (r: Result<ArrayView<'a, T>, ParseError>)
    ensures
        result_view(r) == spec_parse_section_slice::<T>(data@, offset, count, label),
{
    parse_section_slice::<T>(data, offset, count, label)
}

} // verus!
