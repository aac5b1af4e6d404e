//! Fixed-size records: how each one is laid out in bytes, and the field
//! constraints that a freshly read record is checked against.
use crate::bytes::word_bytes;
use vstd::prelude::*;

verus! {

/// One field constraint applied to one record: the field at byte offset
/// `field` of the record holds `value`, which must lie in `min..=max`.
/// An exact-value rule is a range with `min == max`.
#[derive(Clone, Copy, Debug, PartialEq, Eq, Structural)]
pub struct FieldCheck {
    pub field: u32,
    pub value: u32,
    pub min: u32,
    pub max: u32,
}

impl FieldCheck {
    pub open spec fn spec_holds(self) -> bool {
        self.min <= self.value <= self.max
    }

    pub fn holds(&self) -> (r: bool)
        ensures
            r == self.spec_holds(),
    {
        self.min <= self.value && self.value <= self.max
    }
}

/// The checks of `checks` that fail, in their order.
pub open spec fn violations(checks: Seq<FieldCheck>) -> Seq<FieldCheck>
    decreases checks.len(),
{
    if checks.len() == 0 {
        Seq::empty()
    } else {
        let rest = violations(checks.drop_last());
        if checks.last().spec_holds() {
            rest
        } else {
            rest.push(checks.last())
        }
    }
}

/// The violations of two lists of checks are those of the first followed by
/// those of the second.
pub proof fn lemma_violations_append(a: Seq<FieldCheck>, b: Seq<FieldCheck>)
    ensures
        violations(a + b) == violations(a) + violations(b),
    decreases b.len(),
{
    if b.len() == 0 {
        assert(a + b =~= a);
        assert(violations(a) + violations(b) =~= violations(a));
    } else {
        lemma_violations_append(a, b.drop_last());
        assert((a + b).drop_last() =~= a + b.drop_last());
        assert((a + b).last() == b.last());
        if !b.last().spec_holds() {
            assert(violations(a) + violations(b.drop_last()).push(b.last()) =~= (violations(a)
                + violations(b.drop_last())).push(b.last()));
        }
    }
}

/// A list of checks has no violations exactly when every check holds.
pub proof fn lemma_no_violations(checks: Seq<FieldCheck>)
    ensures
        violations(checks).len() == 0 <==> forall|i: int|
            0 <= i < checks.len() ==> #[trigger] checks[i].spec_holds(),
    decreases checks.len(),
{
    if checks.len() > 0 {
        lemma_no_violations(checks.drop_last());
        if violations(checks).len() == 0 {
            assert forall|i: int| 0 <= i < checks.len() implies #[trigger] checks[i].spec_holds() by {
                if i < checks.len() - 1 {
                    assert(checks.drop_last()[i] == checks[i]);
                }
            }
        }
        if forall|i: int| 0 <= i < checks.len() ==> #[trigger] checks[i].spec_holds() {
            assert(checks[checks.len() - 1].spec_holds());
            assert forall|i: int| 0 <= i < checks.drop_last().len() implies #[trigger] checks.drop_last()[i].spec_holds() by {
                assert(checks[i].spec_holds());
            }
        }
    }
}

/// A fixed-size, little-endian record of the format.
///
/// `spec_read` is what the record's bytes mean, `spec_words` is the record
/// written back as 32-bit words, and `spec_checks` lists the field
/// constraints that the record is validated against.
pub trait Record: Sized {
    spec fn spec_size() -> nat;

    spec fn spec_read(s: Seq<u8>, off: int) -> Self;

    spec fn spec_words(self) -> Seq<u32>;

    spec fn spec_checks(self) -> Seq<FieldCheck>;

    fn size() -> (r: usize)
        ensures
            r == Self::spec_size(),
    ;

    fn read(data: &[u8], off: usize) -> (r: Self)
        requires
            off + Self::spec_size() <= data.len(),
        ensures
            r == Self::spec_read(data@, off as int),
    ;

    fn checks(&self) -> (r: Vec<FieldCheck>)
        ensures
            r@ == self.spec_checks(),
    ;

    proof fn lemma_size()
        ensures
            0 < Self::spec_size() <= 256,
    ;

    /// Writing a record out as words and reading it back gives the record.
    proof fn lemma_round_trip(self)
        ensures
            4 * self.spec_words().len() == Self::spec_size(),
            Self::spec_read(word_bytes(self.spec_words()), 0) == self,
    ;
}

/// A record whose whole content is one 32-bit value.
pub trait U32Field {
    spec fn spec_data(&self) -> u32;

    fn data(&self) -> (r: u32)
        ensures
            r == self.spec_data(),
    ;
}

/// The bytes of a record as the format stores them.
pub open spec fn record_bytes<T: Record>(r: T) -> Seq<u8> {
    word_bytes(r.spec_words())
}

/// Returns the checks of `checks` that fail, in their order.
pub fn collect_violations(checks: &Vec<FieldCheck>) -> (r: Vec<FieldCheck>)
    ensures
        r@ == violations(checks@),
{
    let mut out: Vec<FieldCheck> = Vec::new();
    let mut i: usize = 0;
    while i < checks.len()
        invariant
            0 <= i <= checks@.len(),
            out@ == violations(checks@.subrange(0, i as int)),
        decreases checks@.len() - i,
    {
        let c = checks[i];
        proof {
            let pre = checks@.subrange(0, i as int + 1);
            assert(pre.drop_last() == checks@.subrange(0, i as int));
            assert(pre.last() == c);
        }
        if !c.holds() {
            out.push(c);
        }
        i = i + 1;
    }
    assert(checks@.subrange(0, checks@.len() as int) == checks@);
    out
}

/// Checks a record against its field constraints and returns every
/// constraint that it violates; an empty result means the record is valid.
pub fn validate_record<T: Record>(rec: &T) -> (r: Vec<FieldCheck>)
    ensures
        r@ == violations(rec.spec_checks()),
{
    let checks = rec.checks();
    collect_violations(&checks)
}

} // verus!
