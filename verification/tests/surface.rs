use led_sim::decoder::decode;
use led_sim::dimension::Dimension;
use led_sim::surface::DisplaySurface;
use led_sim::surface::ALPHA_OPAQUE;

fn dim(width: usize, height: usize) -> Dimension {
    Dimension::new(width, height).expect("dimension fits")
}

#[test]
fn new_surface_is_black_and_opaque() {
    let d = dim(3, 2);
    let s = DisplaySurface::new(d);
    let bytes = s.buffer();
    assert_eq!(bytes.len(), 3 * 2 * 4);
    for cell in 0..6usize {
        assert_eq!(bytes[4 * cell], 0);
        assert_eq!(bytes[4 * cell + 1], 0);
        assert_eq!(bytes[4 * cell + 2], 0);
        assert_eq!(bytes[4 * cell + 3], ALPHA_OPAQUE);
    }
}

#[test]
fn apply_writes_every_cell() {
    let d = dim(2, 2);
    let raw = vec![255, 0, 0, 0, 255, 0, 0, 0, 255, 255, 255, 255];
    let grid = decode(&raw, d).expect("valid length");
    let mut s = DisplaySurface::new(d);
    s.apply(&grid);
    let bytes = s.buffer();
    assert_eq!(&bytes[0..4], &[255, 0, 0, 255]);
    assert_eq!(&bytes[4..8], &[0, 255, 0, 255]);
    assert_eq!(&bytes[8..12], &[0, 0, 255, 255]);
    assert_eq!(&bytes[12..16], &[255, 255, 255, 255]);
}

#[test]
fn apply_twice_is_idempotent() {
    let d = dim(2, 3);
    let raw: Vec<u8> = (10u8..28u8).collect();
    let grid = decode(&raw, d).expect("valid length");
    let mut s = DisplaySurface::new(d);
    s.apply(&grid);
    let first = s.buffer().clone();
    s.apply(&grid);
    let second = s.buffer().clone();
    assert_eq!(first, second);
}

#[test]
fn apply_forces_alpha_opaque() {
    let d = dim(4, 2);
    // Arbitrary colors, none of which carries an opaque fourth byte itself.
    let raw: Vec<u8> = (0..24).map(|i| (i * 7 + 3) as u8).collect();
    let grid = decode(&raw, d).expect("valid length");
    let mut s = DisplaySurface::new(d);
    s.apply(&grid);
    let bytes = s.buffer();
    for cell in 0..8usize {
        assert_eq!(bytes[4 * cell + 3], ALPHA_OPAQUE);
    }
}

#[test]
fn write_color_touches_one_cell_only() {
    let d = dim(2, 2);
    let mut s = DisplaySurface::new(d);
    let before = s.buffer().clone();
    s.write_color(1, 0, (10, 20, 30));
    let after = s.buffer();
    // Row-major index of (1, 0) is 2, so bytes 8..12 change.
    assert_eq!(&after[8..12], &[10, 20, 30, ALPHA_OPAQUE]);
    for i in 0..16usize {
        if !(8..12).contains(&i) {
            assert_eq!(after[i], before[i]);
        }
    }
}
