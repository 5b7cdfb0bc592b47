use trichloride::draw::{Color, Frameout, Yuv};

#[test]
fn new_buffer_is_black_and_planar_sized() {
    let f = Frameout::new(4, 2);
    // Y plane of 8 bytes plus two chroma planes of 2 bytes each.
    assert_eq!(f.buffer().len(), 12);
    assert!(f.buffer().iter().all(|&b| b == 0));
    assert_eq!(f.width(), 4);
    assert_eq!(f.height(), 2);
}

#[test]
fn rect_paints_luma_and_chroma() {
    let mut f = Frameout::new(4, 4);
    let yuv = Yuv { y: 200u8, u: 90u8, v: 240u8 };
    f.rect(0, 0, 2, 2, yuv);
    let buf = f.buffer();
    // The four covered pixels' luma bytes.
    assert_eq!(buf[0], 200);
    assert_eq!(buf[1], 200);
    assert_eq!(buf[4], 200);
    assert_eq!(buf[5], 200);
    // Uncovered luma bytes stay black.
    assert_eq!(buf[2], 0);
    assert_eq!(buf[3], 0);
    assert_eq!(buf[15], 0);
    // The covered 2-by-2 block shares one U and one V byte.
    assert_eq!(buf[16], 90); // U plane starts at 16
    assert_eq!(buf[17], 0);
    assert_eq!(buf[20], 240); // V plane starts at 20
    assert_eq!(buf[21], 0);
}

#[test]
fn full_rect_paints_everything() {
    let mut f = Frameout::new(2, 2);
    let yuv = Yuv { y: 1u8, u: 2u8, v: 3u8 };
    f.rect(0, 0, 2, 2, yuv);
    assert_eq!(f.buffer(), &vec![1, 1, 1, 1, 2, 3]);
}

#[test]
fn empty_rect_changes_nothing() {
    let mut f = Frameout::new(2, 2);
    f.rect(1, 1, 0, 0, Yuv { y: 9u8, u: 9u8, v: 9u8 });
    assert_eq!(f.buffer(), &vec![0, 0, 0, 0, 0, 0]);
}

#[test]
fn colour_packs_to_be_u32() {
    let c = Color::new(0x12, 0x34, 0x56);
    assert_eq!(c.u32(), 0x0012_3456);
    assert_eq!(Color::new(0, 0, 0).u32(), 0);
    assert_eq!(Color::new(0xff, 0xff, 0xff).u32(), 0x00ff_ffff);
}
