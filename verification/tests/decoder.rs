use led_sim::decoder::decode;
use led_sim::decoder::DecodeError;
use led_sim::dimension::Dimension;

fn dim(width: usize, height: usize) -> Dimension {
    Dimension::new(width, height).expect("dimension fits")
}

#[test]
fn decode_correctness_row_major() {
    let d = dim(2, 2);
    let raw: Vec<u8> = (0u8..12u8).collect();
    let grid = decode(&raw, d).expect("valid length");
    for row in 0..2usize {
        for col in 0..2usize {
            let base = 3 * (row * 2 + col);
            assert_eq!(grid.cell(row, col), (raw[base], raw[base + 1], raw[base + 2]));
            assert_eq!(grid.cell_at(row * 2 + col), grid.cell(row, col));
        }
    }
    assert_eq!(grid.dim(), d);
}

#[test]
fn decode_correctness_wide_grid() {
    let d = dim(3, 1);
    let raw = vec![9, 8, 7, 6, 5, 4, 3, 2, 1];
    let grid = decode(&raw, d).expect("valid length");
    assert_eq!(grid.cell(0, 0), (9, 8, 7));
    assert_eq!(grid.cell(0, 1), (6, 5, 4));
    assert_eq!(grid.cell(0, 2), (3, 2, 1));
}

#[test]
fn decode_rejects_wrong_lengths() {
    let d = dim(2, 2);
    for len in [0usize, 1, 5, 11, 13, 24] {
        let raw = vec![7u8; len];
        let err = decode(&raw, d).expect_err("wrong length must be rejected");
        assert_eq!(err, DecodeError::SizeMismatch { expected: 12, actual: len });
    }
}

#[test]
fn decode_accepts_exact_length_only() {
    let d = dim(4, 3);
    assert!(decode(&vec![0u8; 36], d).is_ok());
    assert!(decode(&vec![0u8; 35], d).is_err());
    assert!(decode(&vec![0u8; 37], d).is_err());
}

#[test]
fn e2e_decode_two_by_two() {
    let d = dim(2, 2);
    let raw = vec![255, 0, 0, 0, 255, 0, 0, 0, 255, 255, 255, 255];
    let grid = decode(&raw, d).expect("valid length");
    assert_eq!(grid.cell(0, 0), (255, 0, 0));
    assert_eq!(grid.cell(0, 1), (0, 255, 0));
    assert_eq!(grid.cell(1, 0), (0, 0, 255));
    assert_eq!(grid.cell(1, 1), (255, 255, 255));
}

#[test]
fn e2e_malformed_five_bytes() {
    let d = dim(2, 2);
    let raw = vec![1, 2, 3, 4, 5];
    let err = decode(&raw, d).expect_err("five bytes are not a frame");
    assert_eq!(err, DecodeError::SizeMismatch { expected: 12, actual: 5 });
}

#[test]
fn dimension_rejects_zero_sides() {
    assert!(Dimension::new(0, 5).is_none());
    assert!(Dimension::new(5, 0).is_none());
    assert!(Dimension::new(0, 0).is_none());
}

#[test]
fn dimension_rejects_oversized_grid() {
    assert!(Dimension::new(usize::MAX, 2).is_none());
    assert!(Dimension::new(usize::MAX / 2, usize::MAX / 2).is_none());
}

#[test]
fn dimension_accepts_default_grid() {
    let d = Dimension::new(48, 24).expect("default grid fits");
    assert_eq!(d.frame_size(), 48 * 24 * 3);
    assert_eq!(d.buffer_size(), 48 * 24 * 4);
    assert_eq!(d.cell_count(), 48 * 24);
}
