//! Spans of cells along one axis.

use vstd::prelude::*;
use vstd::set_lib::*;

verus! {

/// The cells of the span that begins at `start` and is `length` cells long.
pub open spec fn span_cells(start: int, length: int) -> Set<int> {
    set_int_range(start, start + length)
}

/// How far two spans run along each other: from the later start to the earlier
/// end, or not at all.
pub open spec fn span_overlap(
    first_start: int,
    first_length: int,
    second_start: int,
    second_length: int,
) -> int {
    let start = if first_start < second_start {
        second_start
    } else {
        first_start
    };
    let end = if first_start + first_length < second_start + second_length {
        first_start + first_length
    } else {
        second_start + second_length
    };
    if start < end {
        end - start
    } else {
        0
    }
}

/// The overlap of two spans is the number of cells they share.
pub proof fn law_span_overlap_counts_the_shared_cells(
    first_start: int,
    first_length: int,
    second_start: int,
    second_length: int,
)
    ensures
        span_overlap(first_start, first_length, second_start, second_length) == span_cells(
            first_start,
            first_length,
        ).intersect(span_cells(second_start, second_length)).len(),
{
    let shared = span_cells(first_start, first_length).intersect(
        span_cells(second_start, second_length),
    );
    let start = if first_start < second_start {
        second_start
    } else {
        first_start
    };
    let length = span_overlap(first_start, first_length, second_start, second_length);
    assert(shared =~= set_int_range(start, start + length));
    lemma_int_range(start, start + length);
}

/// Two spans overlap alike, whichever of them comes first.
pub proof fn law_span_overlap_is_symmetric(
    first_start: int,
    first_length: int,
    second_start: int,
    second_length: int,
)
    ensures
        span_overlap(first_start, first_length, second_start, second_length) == span_overlap(
            second_start,
            second_length,
            first_start,
            first_length,
        ),
{
}

/// What is computed for two spans is how many cells lie in both.
pub proof fn law_the_computed_overlap_counts_the_cells_in_both(
    first_start: u16,
    first_length: u16,
    second_start: u16,
    second_length: u16,
    overlap: u16,
)
    requires
        call_ensures(
            compute_span_overlap,
            (first_start, first_length, second_start, second_length),
            overlap,
        ),
    ensures
        overlap == set_int_range(first_start as int, first_start + first_length).intersect(
            set_int_range(second_start as int, second_start + second_length),
        ).len(),
{
    law_span_overlap_counts_the_shared_cells(
        first_start as int,
        first_length as int,
        second_start as int,
        second_length as int,
    );
}

/// How many cells two spans share. Spans that touch end to end share none.
pub fn compute_span_overlap(
    first_start: u16,
    first_length: u16,
    second_start: u16,
    second_length: u16,
) -> (r: u16)
    ensures
        r == span_overlap(
            first_start as int,
            first_length as int,
            second_start as int,
            second_length as int,
        ),
{
    let first_end: u32 = first_start as u32 + first_length as u32;
    let second_end: u32 = second_start as u32 + second_length as u32;
    let start: u32 = if first_start < second_start {
        second_start as u32
    } else {
        first_start as u32
    };
    let end: u32 = if first_end < second_end {
        first_end
    } else {
        second_end
    };
    if start < end {
        (end - start) as u16
    } else {
        0
    }
}

} // verus!
