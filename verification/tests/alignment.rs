// Dimension alignment, as the editing surface applies it before a snapshot.

use sdui::request::align_dimension;

#[test]
fn unaligned_dimensions_round_down() {
    assert_eq!(align_dimension(500), 496);
    assert_eq!(align_dimension(513), 512);
    assert_eq!(align_dimension(7), 0);
}

#[test]
fn aligned_dimensions_pass_unchanged() {
    assert_eq!(align_dimension(0), 0);
    assert_eq!(align_dimension(8), 8);
    assert_eq!(align_dimension(512), 512);
    assert_eq!(align_dimension(4096), 4096);
}
