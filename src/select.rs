//! Small helpers of the file browser: moving the selection in a list, and
//! the short name of a record type shown as a tree label.
use vstd::prelude::*;
use vstd::string::StringSliceAdditionalSpecFns;
use vstd::utf8::is_char_boundary;

verus! {

/// The byte value of `':'`.
pub const COLON: u8 = 58;

/// Moves the selection one row down a list of `file_count` rows, stopping
/// at the last row; an empty list leaves it unchanged.
pub fn decrement_selected(file_count: usize, selected: &mut usize)
    ensures
        file_count == 0 ==> *final(selected) == *old(selected),
        file_count != 0 ==> *final(selected) == if *old(selected) + 1 < file_count {
            *old(selected) + 1
        } else {
            file_count - 1
        },
{
    if file_count != 0 {
        if *selected < file_count - 1 {
            *selected = *selected + 1;
        } else {
            *selected = file_count - 1;
        }
    }
}

/// Moves the selection one row up, stopping at the first row; an empty list
/// leaves it unchanged.
pub fn increment_selected(file_count: usize, selected: &mut usize)
    ensures
        file_count == 0 ==> *final(selected) == *old(selected),
        file_count != 0 ==> *final(selected) == if *old(selected) > 0 {
            *old(selected) - 1
        } else {
            0
        },
{
    if file_count != 0 && *selected > 0 {
        *selected = *selected - 1;
    }
}

/// Where the last piece of `b` starts when it is cut at every `"::"`,
/// separators being matched from left to right from byte `i` on; `start`
/// is where the current piece began.
pub open spec fn last_piece_start(b: Seq<u8>, i: int, start: int) -> int
    decreases b.len() - i,
{
    if i + 1 >= b.len() {
        start
    } else if b[i] == COLON && b[i + 1] == COLON {
        last_piece_start(b, i + 2, i + 2)
    } else {
        last_piece_start(b, i + 1, start)
    }
}

proof fn lemma_last_piece_start_bounds(b: Seq<u8>, i: int, start: int)
    requires
        0 <= start <= b.len(),
        0 <= i,
        start <= i || i + 1 >= b.len(),
    ensures
        0 <= last_piece_start(b, i, start) <= b.len(),
    decreases b.len() - i,
{
    if i + 1 < b.len() {
        if b[i] == COLON && b[i + 1] == COLON {
            lemma_last_piece_start_bounds(b, i + 2, i + 2);
        } else {
            lemma_last_piece_start_bounds(b, i + 1, start);
        }
    }
}

/// The short name of a type: the part of its full, path-qualified name
/// after the last `"::"` (the whole name when it has none).
pub fn get_class_name(full: &str) -> (r: &str)
    ensures
        is_char_boundary(full.spec_bytes(), last_piece_start(full.spec_bytes(), 0, 0))
            ==> r.spec_bytes() == full.spec_bytes().subrange(
            last_piece_start(full.spec_bytes(), 0, 0),
            full.spec_bytes().len() as int,
        ),
        !is_char_boundary(full.spec_bytes(), last_piece_start(full.spec_bytes(), 0, 0)) ==> r
            == full,
{
    let b = full.as_bytes();
    let n = b.len();
    let mut i: usize = 0;
    let mut start: usize = 0;
    proof {
        lemma_last_piece_start_bounds(b@, 0, 0);
    }
    while n - i >= 2
        invariant
            b@ == full.spec_bytes(),
            n == b@.len(),
            i <= n,
            start <= n,
            start <= i || i + 1 >= n,
            last_piece_start(b@, i as int, start as int) == last_piece_start(b@, 0, 0),
        decreases n - i,
    {
        if b[i] == COLON && b[i + 1] == COLON {
            i = i + 2;
            start = i;
        } else {
            i = i + 1;
        }
    }
    if full.is_char_boundary(start) {
        let (_, tail) = full.split_at(start);
        tail
    } else {
        full
    }
}

} // verus!
