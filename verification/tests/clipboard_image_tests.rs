use onscreen_ocr::clipboard_image::{gen_from_img_windows, get_header_windows, set_bytes};

#[test]
fn set_bytes_replaces_range() {
    let mut to = vec![0u8; 6];
    set_bytes(&mut to, &[1, 2, 3, 4], 1..4);
    assert_eq!(to, vec![0, 1, 2, 3, 0, 0]);
}

#[test]
fn set_bytes_with_empty_range_changes_nothing() {
    let mut to = vec![9u8; 3];
    set_bytes(&mut to, &[], 2..2);
    assert_eq!(to, vec![9, 9, 9]);
}

#[test]
fn header_of_two_by_three_image() {
    let h = get_header_windows(2, 3);
    assert_eq!(h.len(), 54);
    assert_eq!(&h[0..2], b"BM");
    assert_eq!(&h[2..6], &78u32.to_le_bytes());
    assert_eq!(&h[6..10], &[0, 0, 0, 0]);
    assert_eq!(&h[10..14], &54u32.to_le_bytes());
    assert_eq!(&h[14..18], &40u32.to_le_bytes());
    assert_eq!(&h[18..22], &2u32.to_le_bytes());
    assert_eq!(&h[22..26], &3u32.to_le_bytes());
    assert_eq!(&h[26..28], &1u16.to_le_bytes());
    assert_eq!(&h[28..30], &32u16.to_le_bytes());
    assert!(h[30..54].iter().all(|b| *b == 0));
}

#[test]
fn header_stores_large_sizes_little_endian() {
    let h = get_header_windows(1000, 300);
    assert_eq!(&h[2..6], &(1000u32 * 300 * 4 + 54).to_le_bytes());
    assert_eq!(&h[18..22], &[0xe8, 0x03, 0, 0]);
    assert_eq!(&h[22..26], &[0x2c, 0x01, 0, 0]);
}

#[test]
fn bitmap_flips_rows_and_swaps_channels() {
    // Two pixels wide, two high; top row first.
    let rgba = vec![
        1, 2, 3, 4, 5, 6, 7, 8, // top row
        9, 10, 11, 12, 13, 14, 15, 16, // bottom row
    ];
    let out = gen_from_img_windows(2, 2, &rgba);
    assert_eq!(out.len(), 54 + 16);
    assert_eq!(&out[..54], &get_header_windows(2, 2)[..]);
    assert_eq!(&out[54..], &[11, 10, 9, 12, 15, 14, 13, 16, 3, 2, 1, 4, 7, 6, 5, 8]);
}
