//! The Windows bitmap (BMP) byte layout used to put an image on the clipboard.
use vstd::prelude::*;

verus! {

/// The little-endian bytes of a 32-bit value.
pub open spec fn le_u32(v: u32) -> Seq<u8> {
    seq![
        (v % 256) as u8,
        ((v / 256) % 256) as u8,
        ((v / 65536) % 256) as u8,
        ((v / 16777216) % 256) as u8,
    ]
}

/// The little-endian bytes of a 16-bit value.
pub open spec fn le_u16(v: u16) -> Seq<u8> {
    seq![(v % 256) as u8, ((v / 256) % 256) as u8]
}

/// The size in bytes of a 32-bit-per-pixel bitmap file of the given size.
pub open spec fn bitmap_file_size(width: u32, height: u32) -> int {
    width * height * 4 + 54
}

/// Whether a bitmap of `width` by `height` pixels, headers included, fits in
/// the 32-bit size field of its header.
pub fn bitmap_size_ok(width: u32, height: u32) -> (r: bool)
    ensures
        r == (bitmap_file_size(width, height) <= u32::MAX),
{
    assert(width * height <= 0xffff_ffffu64 * 0xffff_ffffu64) by (nonlinear_arith)
        requires
            width <= 0xffff_ffffu64,
            height <= 0xffff_ffffu64,
    ;
    let wh = width as u64 * height as u64;
    if wh > 0x4000_0000u64 {
        return false;
    }
    wh * 4 + 54 <= 0xffff_ffffu64
}

/// The 54-byte file and info header of an uncompressed 32-bit bitmap.
pub open spec fn spec_bitmap_header(width: u32, height: u32) -> Seq<u8> {
    seq![66u8, 77u8] + le_u32(bitmap_file_size(width, height) as u32) + le_u32(0) + le_u32(54)
        + le_u32(40) + le_u32(width) + le_u32(height) + le_u16(1) + le_u16(32) + le_u32(0)
        + le_u32(0) + le_u32(0) + le_u32(0) + le_u32(0) + le_u32(0)
}

/// `to` with the positions `start..end` overwritten by the first bytes of
/// `from`.
pub open spec fn spec_set_bytes(to: Seq<u8>, from: Seq<u8>, start: int, end: int) -> Seq<u8> {
    Seq::new(
        to.len(),
        |i: int|
            if start <= i < end {
                from[i - start]
            } else {
                to[i]
            },
    )
}

fn u32_le_bytes(v: u32) -> (r: [u8; 4])
    ensures
        r@ == le_u32(v),
{
    [(v % 256) as u8, ((v / 256) % 256) as u8, ((v / 65536) % 256) as u8, ((v / 16777216) % 256) as u8]
}

fn u16_le_bytes(v: u16) -> (r: [u8; 2])
    ensures
        r@ == le_u16(v),
{
    [(v % 256) as u8, ((v / 256) % 256) as u8]
}

/// Replaces the bytes of `to` in `range` with the leading bytes of `from`.
pub fn set_bytes(to: &mut [u8], from: &[u8], range: std::ops::Range<usize>)
    requires
        range.start < range.end ==> range.end <= old(to)@.len() && range.end - range.start
            <= from@.len(),
    ensures
        final(to)@ == spec_set_bytes(old(to)@, from@, range.start as int, range.end as int),
{
    let start = range.start;
    let end = range.end;
    if end <= start {
        assert(to@ =~= spec_set_bytes(old(to)@, from@, start as int, end as int));
        return;
    }
    let mut i = start;
    while i < end
        invariant
            start <= i <= end,
            end <= to@.len(),
            end - start <= from@.len(),
            to@.len() == old(to)@.len(),
            forall|j: int|
                0 <= j < to@.len() ==> #[trigger] to@[j] == if start <= j < i {
                    from@[j - start]
                } else {
                    old(to)@[j]
                },
        decreases end - i,
    {
        to[i] = from[i - start];
        i = i + 1;
    }
    assert(to@ =~= spec_set_bytes(old(to)@, from@, start as int, end as int));
}

/// Generates the header for the bitmap from the width and height of the image.
pub fn get_header_windows(width: u32, height: u32) -> (r: Vec<u8>)
    requires
        bitmap_file_size(width, height) <= u32::MAX,
    ensures
        r@ == spec_bitmap_header(width, height),
{
    let mut vec: Vec<u8> = vec![0u8; 54];
    vec.set(0, 66);
    vec.set(1, 77);
    assert((width as int) * (height as int) * 4 <= u32::MAX) by (nonlinear_arith)
        requires
            width * height * 4 + 54 <= u32::MAX,
    ;
    assert((width as int) * (height as int) <= u32::MAX) by (nonlinear_arith)
        requires
            width * height * 4 <= u32::MAX,
    ;
    let file_size: u32 = width * height * 4 + 54;
    set_bytes(vec.as_mut_slice(), &u32_le_bytes(file_size), 2..6);
    set_bytes(vec.as_mut_slice(), &u32_le_bytes(0), 6..10);
    set_bytes(vec.as_mut_slice(), &u32_le_bytes(54), 10..14);
    set_bytes(vec.as_mut_slice(), &u32_le_bytes(40), 14..18);
    set_bytes(vec.as_mut_slice(), &u32_le_bytes(width), 18..22);
    set_bytes(vec.as_mut_slice(), &u32_le_bytes(height), 22..26);
    set_bytes(vec.as_mut_slice(), &u16_le_bytes(1), 26..28);
    set_bytes(vec.as_mut_slice(), &u16_le_bytes(32), 28..30);
    set_bytes(vec.as_mut_slice(), &u32_le_bytes(0), 30..34);
    set_bytes(vec.as_mut_slice(), &u32_le_bytes(0), 34..38);
    set_bytes(vec.as_mut_slice(), &u32_le_bytes(0), 38..42);
    set_bytes(vec.as_mut_slice(), &u32_le_bytes(0), 42..46);
    set_bytes(vec.as_mut_slice(), &u32_le_bytes(0), 46..50);
    set_bytes(vec.as_mut_slice(), &u32_le_bytes(0), 50..54);
    assert(vec@ =~= spec_bitmap_header(width, height));
    vec
}

/// Which byte of an RGBA pixel goes into position `ch` of a BGRA pixel.
pub open spec fn bgra_source_channel(ch: int) -> int {
    if ch == 0 {
        2
    } else if ch == 1 {
        1
    } else if ch == 2 {
        0
    } else {
        3
    }
}

/// `out` is the bitmap of a `width` by `height` image whose pixels are
/// `rgba` (row by row, top row first, four bytes per pixel): the header, then
/// the rows from the bottom up, each pixel as blue, green, red, alpha.
pub open spec fn is_bitmap_of(out: Seq<u8>, width: u32, height: u32, rgba: Seq<u8>) -> bool {
    &&& out.len() == 54 + width * height * 4
    &&& out.subrange(0, 54) == spec_bitmap_header(width, height)
    &&& forall|r: int, c: int, ch: int|
        0 <= r < height && 0 <= c < width && 0 <= ch < 4 ==> #[trigger] out[54 + (r * width + c)
            * 4 + ch] == rgba[((height - 1 - r) * width + c) * 4 + bgra_source_channel(ch)]
}

proof fn lemma_pixel_index_bounds(w: int, h: int, r: int, c: int)
    by (nonlinear_arith)
    requires
        0 <= r < h,
        0 <= c < w,
    ensures
        0 <= r * w + c < h * w,
        0 <= ((h - 1 - r) * w + c) * 4 + 3 < h * w * 4,
        (r * w + c) * 4 + 3 < w * h * 4,
        r * w + w <= h * w,
{
}

proof fn lemma_earlier_row(w: int, r1: int, c1: int, r: int)
    by (nonlinear_arith)
    requires
        0 <= r1 < r,
        0 <= c1 < w,
    ensures
        r1 * w + c1 < r * w,
{
}

/// The bytes of a bitmap that holds the given RGBA pixels; the image is
/// flipped, since bitmap scan lines are stored bottom to top.
pub fn gen_from_img_windows(width: u32, height: u32, rgba: &[u8]) -> (r: Vec<u8>)
    requires
        bitmap_file_size(width, height) <= u32::MAX,
        rgba@.len() == width * height * 4,
    ensures
        is_bitmap_of(r@, width, height, rgba@),
{
    let mut out = get_header_windows(width, height);
    let w = width as usize;
    let h = height as usize;
    assert((width as int) * (height as int) <= u32::MAX) by (nonlinear_arith)
        requires
            width * height * 4 + 54 <= u32::MAX,
    ;
    let ghost header = out@;
    let mut row: usize = 0;
    while row < h
        invariant
            w == width,
            h == height,
            w * h * 4 + 54 <= u32::MAX,
            rgba@.len() == w * h * 4,
            row <= h,
            header == spec_bitmap_header(width, height),
            header.len() == 54,
            out@.len() == 54 + row * w * 4,
            out@.subrange(0, 54) == header,
            forall|r: int, c: int, ch: int|
                0 <= r < row && 0 <= c < w && 0 <= ch < 4 ==> #[trigger] out@[54 + (r * w + c) * 4
                    + ch] == rgba@[((h - 1 - r) * w + c) * 4 + bgra_source_channel(ch)],
        decreases h - row,
    {
        let src_row = h - 1 - row;
        let mut col: usize = 0;
        while col < w
            invariant
                w == width,
                h == height,
                w * h * 4 + 54 <= u32::MAX,
                rgba@.len() == w * h * 4,
                row < h,
                src_row == h - 1 - row,
                col <= w,
                header.len() == 54,
                out@.len() == 54 + (row * w + col) * 4,
                out@.subrange(0, 54) == header,
                forall|r: int, c: int, ch: int|
                    0 <= r < row && 0 <= c < w && 0 <= ch < 4 ==> #[trigger] out@[54 + (r * w + c)
                        * 4 + ch] == rgba@[((h - 1 - r) * w + c) * 4 + bgra_source_channel(ch)],
                forall|c: int, ch: int|
                    0 <= c < col && 0 <= ch < 4 ==> #[trigger] out@[54 + (row * w + c) * 4 + ch]
                        == rgba@[((h - 1 - row) * w + c) * 4 + bgra_source_channel(ch)],
            decreases w - col,
        {
            proof {
                lemma_pixel_index_bounds(w as int, h as int, row as int, col as int);
            }
            let idx = (src_row * w + col) * 4;
            let ghost before = out@;
            out.push(rgba[idx + 2]);
            out.push(rgba[idx + 1]);
            out.push(rgba[idx]);
            out.push(rgba[idx + 3]);
            proof {
                let base = 54 + (row * w + col) * 4;
                assert(out@.subrange(0, 54) =~= header);
                assert forall|r: int, c: int, ch: int|
                    0 <= r < row && 0 <= c < w && 0 <= ch < 4 implies #[trigger] out@[54 + (r * w
                        + c) * 4 + ch] == rgba@[((h - 1 - r) * w + c) * 4 + bgra_source_channel(
                        ch)] by {
                    lemma_earlier_row(w as int, r, c, row as int);
                    assert(out@[54 + (r * w + c) * 4 + ch] == before[54 + (r * w + c) * 4 + ch]);
                }
                assert forall|c: int, ch: int|
                    0 <= c < col + 1 && 0 <= ch < 4 implies #[trigger] out@[54 + (row * w + c) * 4
                        + ch] == rgba@[((h - 1 - row) * w + c) * 4 + bgra_source_channel(ch)] by {
                    if c < col {
                        assert(out@[54 + (row * w + c) * 4 + ch] == before[54 + (row * w + c) * 4
                            + ch]);
                    } else {
                        assert(54 + (row * w + c) * 4 + ch == base + ch);
                    }
                }
            }
            col = col + 1;
        }
        proof {
            assert((row as int) * (w as int) + (w as int) == ((row + 1) as int) * (w as int))
                by (nonlinear_arith);
        }
        row = row + 1;
    }
    proof {
        assert(out@.len() == 54 + width * height * 4) by (nonlinear_arith)
            requires
                out@.len() == 54 + row * w * 4,
                row == h,
                w == width,
                h == height,
        ;
    }
    out
}

} // verus!
