use koshi_visual::span::compute_span_overlap;

#[test]
fn span_overlap_measures_only_the_length_two_spans_share() {
    // `[0, 10)` and `[4, 10)` share `[4, 10)`: six cells.
    assert_eq!(compute_span_overlap(0, 10, 4, 6), 6);
    // Full containment answers the inner span's whole length, either way round.
    assert_eq!(compute_span_overlap(0, 10, 2, 3), 3);
    assert_eq!(compute_span_overlap(2, 3, 0, 10), 3);
    // Identical spans overlap along their whole length.
    assert_eq!(compute_span_overlap(5, 4, 5, 4), 4);
    // `[0, 5)` and `[5, 10)` touch end to end and share no cell.
    assert_eq!(compute_span_overlap(0, 5, 5, 5), 0);
    // Disjoint spans share nothing, in either order.
    assert_eq!(compute_span_overlap(0, 2, 7, 3), 0);
    assert_eq!(compute_span_overlap(7, 3, 0, 2), 0);
    // A zero-length span shares nothing, even inside the other span.
    assert_eq!(compute_span_overlap(0, 10, 5, 0), 0);
}

#[test]
fn spans_that_run_past_the_largest_cell_still_overlap_exactly() {
    assert_eq!(compute_span_overlap(65_530, 65_535, 65_534, 65_535), 65_531);
    assert_eq!(compute_span_overlap(0, 65_535, 0, 65_535), 65_535);
}
