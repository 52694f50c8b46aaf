//! Cropping raw RGBA capture frames into fixed-size BGRA encoder frames.

use vstd::prelude::*;
use vstd::arithmetic::div_mod::lemma_fundamental_div_mod_converse;

verus! {

/// A pixel rectangle inside a captured frame.
#[derive(Debug, Clone, Copy, PartialEq, Eq, Structural)]
pub struct PixelRegion {
    pub x: usize,
    pub y: usize,
    pub width: usize,
    pub height: usize,
}

/// Number of bytes in the encoder frame for `region`.
pub open spec fn crop_output_len(region: PixelRegion) -> int {
    region.width * region.height * 4
}

/// Whether any source pixel can be copied at all.
pub open spec fn crop_geometry_ok(frame_width: int, frame_height: int, row_pitch: int, region: PixelRegion) -> bool {
    &&& region.x * 4 <= usize::MAX
    &&& frame_width * 4 <= usize::MAX
    &&& region.x < frame_width
    &&& region.y < frame_height
    &&& row_pitch != 0
}

pub open spec fn min_int(a: int, b: int) -> int {
    if a <= b { a } else { b }
}

/// Columns of the region that lie inside the frame.
pub open spec fn crop_copy_width(frame_width: int, region: PixelRegion) -> int {
    min_int(region.width as int, frame_width - region.x)
}

/// Rows of the region that lie inside the frame.
pub open spec fn crop_copy_height(frame_height: int, region: PixelRegion) -> int {
    min_int(region.height as int, frame_height - region.y)
}

/// Byte offset in the raw buffer of the first copied pixel of output row `row`.
pub open spec fn crop_row_start(row_pitch: int, region: PixelRegion, row: int) -> int {
    (region.y + row) * row_pitch + region.x * 4
}

/// Whether the offsets of output row `row` are representable.
pub open spec fn crop_row_addressable(row_pitch: int, region: PixelRegion, row: int) -> bool {
    crop_row_start(row_pitch, region, row) <= usize::MAX
}

/// One past the last raw byte that belongs to the logical pixels of source row
/// `region.y + row` (row padding and the end of the buffer excluded).
pub open spec fn crop_row_end(raw_len: int, frame_width: int, row_pitch: int, region: PixelRegion, row: int) -> int {
    min_int((region.y + row) * row_pitch + min_int(frame_width * 4, row_pitch), raw_len)
}

/// Number of pixels copied into output row `row`.
pub open spec fn crop_row_pixels(
    raw_len: int,
    frame_width: int,
    frame_height: int,
    row_pitch: int,
    region: PixelRegion,
    row: int,
) -> int {
    let start = crop_row_start(row_pitch, region, row);
    let end = crop_row_end(raw_len, frame_width, row_pitch, region, row);
    if !crop_geometry_ok(frame_width, frame_height, row_pitch, region)
        || !(0 <= row < crop_copy_height(frame_height, region))
        || !crop_row_addressable(row_pitch, region, row) || start >= end {
        0
    } else {
        min_int(crop_copy_width(frame_width, region), (end - start) / 4)
    }
}

/// Source channel for output channel `channel`: red and blue trade places.
pub open spec fn bgra_source_channel(channel: int) -> int {
    if channel == 0 { 2 } else if channel == 2 { 0 } else { channel }
}

/// The output byte for channel `channel` of pixel (`row`, `col`) of the region.
pub open spec fn crop_pixel_byte(
    raw: Seq<u8>,
    frame_width: int,
    frame_height: int,
    row_pitch: int,
    region: PixelRegion,
    row: int,
    col: int,
    channel: int,
) -> u8 {
    if 0 <= col < crop_row_pixels(raw.len() as int, frame_width, frame_height, row_pitch, region, row) {
        raw[crop_row_start(row_pitch, region, row) + 4 * col + bgra_source_channel(channel)]
    } else {
        0
    }
}

/// The whole encoder frame: the in-frame part of the region converted from
/// RGBA to BGRA, every other byte zero; empty when its size overflows.
pub open spec fn spec_crop(
    raw: Seq<u8>,
    frame_width: int,
    frame_height: int,
    row_pitch: int,
    region: PixelRegion,
) -> Seq<u8> {
    if crop_output_len(region) > usize::MAX {
        Seq::empty()
    } else {
        let row_bytes = region.width * 4;
        Seq::new(
            crop_output_len(region) as nat,
            |i: int|
                crop_pixel_byte(
                    raw,
                    frame_width,
                    frame_height,
                    row_pitch,
                    region,
                    i / row_bytes,
                    (i % row_bytes) / 4,
                    (i % row_bytes) % 4,
                ),
        )
    }
}

proof fn lemma_split_index(i: int, row_bytes: int, row: int, col: int, channel: int)
    requires
        row_bytes > 0,
        0 <= col,
        0 <= channel < 4,
        4 * col + channel < row_bytes,
        i == row * row_bytes + 4 * col + channel,
    ensures
        i / row_bytes == row,
        (i % row_bytes) / 4 == col,
        (i % row_bytes) % 4 == channel,
{
    lemma_fundamental_div_mod_converse(i, row_bytes, row, 4 * col + channel);
    lemma_fundamental_div_mod_converse(4 * col + channel, 4, col, channel);
}

proof fn lemma_row_of_index(i: int, row_bytes: int, row: int)
    requires
        row_bytes > 0,
        0 <= row,
        row * row_bytes <= i,
    ensures
        i / row_bytes >= row,
{
    vstd::arithmetic::div_mod::lemma_fundamental_div_mod(i, row_bytes);
    let q = i / row_bytes;
    if q < row {
        assert(row_bytes * q + i % row_bytes < row * row_bytes) by (nonlinear_arith)
            requires q < row, i % row_bytes < row_bytes, row_bytes > 0;
    }
}

proof fn lemma_col_of_index(i: int, row_bytes: int, row: int)
    requires
        row_bytes > 0,
        row_bytes % 4 == 0,
        0 <= row,
        row * row_bytes <= i < (row + 1) * row_bytes,
    ensures
        i / row_bytes == row,
        i % row_bytes == i - row * row_bytes,
{
    assert((row + 1) * row_bytes == row * row_bytes + row_bytes) by (nonlinear_arith);
    lemma_fundamental_div_mod_converse(i, row_bytes, row, i - row * row_bytes);
}

proof fn lemma_rows_monotone(row_pitch: int, region: PixelRegion, a: int, b: int)
    requires
        row_pitch >= 0,
        0 <= a <= b,
    ensures
        crop_row_start(row_pitch, region, a) <= crop_row_start(row_pitch, region, b),
{
    assert((region.y + a) * row_pitch <= (region.y + b) * row_pitch) by (nonlinear_arith)
        requires row_pitch >= 0, 0 <= a <= b, region.y >= 0;
}

proof fn lemma_pixel_bytes(
    raw: Seq<u8>,
    fw: int,
    fh: int,
    pitch: int,
    region: PixelRegion,
    spec: Seq<u8>,
    r: int,
    k: int,
    row_bytes: int,
    s: int,
    d: int,
)
    requires
        crop_output_len(region) <= usize::MAX,
        spec == spec_crop(raw, fw, fh, pitch, region),
        row_bytes == region.width * 4,
        0 <= r,
        0 <= k < crop_row_pixels(raw.len() as int, fw, fh, pitch, region, r),
        k < region.width,
        s == crop_row_start(pitch, region, r) + 4 * k,
        d == r * row_bytes + 4 * k,
        d + 4 <= spec.len(),
    ensures
        spec[d] == raw[s + 2],
        spec[d + 1] == raw[s + 1],
        spec[d + 2] == raw[s],
        spec[d + 3] == raw[s + 3],
{
    lemma_split_index(d, row_bytes, r, k, 0);
    lemma_split_index(d + 1, row_bytes, r, k, 1);
    lemma_split_index(d + 2, row_bytes, r, k, 2);
    lemma_split_index(d + 3, row_bytes, r, k, 3);
}

/// Copies `region` out of an RGBA frame whose rows are `row_pitch` bytes apart,
/// converting each pixel to BGRA. The result is always one complete encoder
/// frame of `width * height * 4` bytes: pixels outside the frame, beyond the
/// buffer, or past the logical row width stay zero.
#[verifier::rlimit(40)]
pub fn crop_rgba_to_bgra(
    raw: &[u8],
    frame_width: usize,
    frame_height: usize,
    row_pitch: usize,
    region: PixelRegion,
) -> (out: Vec<u8>)
    ensures
        out@ == spec_crop(raw@, frame_width as int, frame_height as int, row_pitch as int, region),
{
    let ghost fw = frame_width as int;
    let ghost fh = frame_height as int;
    let ghost pitch = row_pitch as int;
    let output_len = match region.width.checked_mul(region.height) {
        Some(pixels) => match pixels.checked_mul(4) {
            Some(len) => len,
            None => {
                assert(spec_crop(raw@, fw, fh, pitch, region) =~= Seq::empty());
                return Vec::new();
            },
        },
        None => {
            assert(region.width * region.height * 4 > usize::MAX) by (nonlinear_arith)
                requires region.width * region.height > usize::MAX;
            assert(spec_crop(raw@, fw, fh, pitch, region) =~= Seq::empty());
            return Vec::new();
        },
    };
    let ghost spec = spec_crop(raw@, fw, fh, pitch, region);
    let mut out: Vec<u8> = vec![0; output_len];
    assert(region.width * region.height * 4 == output_len);
    if region.height == 0 {
        assert(spec =~= out@);
        return out;
    }
    assert(region.width * 4 <= region.width * region.height * 4) by (nonlinear_arith)
        requires region.height >= 1;
    let row_bytes = region.width * 4;
    assert(row_bytes * region.height == output_len) by (nonlinear_arith)
        requires row_bytes == region.width * 4, region.width * region.height * 4 == output_len;
    assert(out@ =~= Seq::new(output_len as nat, |i: int| 0u8));
    if region.x > usize::MAX / 4 || frame_width > usize::MAX / 4 || region.x >= frame_width
        || region.y >= frame_height || row_pitch == 0 {
        assert(!crop_geometry_ok(fw, fh, pitch, region));
        assert(out@ =~= spec);
        return out;
    }
    let source_x = region.x * 4;
    let logical_row_bytes = frame_width * 4;
    let copy_width = if region.width < frame_width - region.x { region.width } else { frame_width - region.x };
    let copy_height = if region.height < frame_height - region.y { region.height } else { frame_height - region.y };
    let row_limit = if logical_row_bytes < row_pitch { logical_row_bytes } else { row_pitch };
    let mut row: usize = 0;
    loop
        invariant
            fw == frame_width,
            fh == frame_height,
            pitch == row_pitch,
            row <= copy_height,
            crop_geometry_ok(fw, fh, pitch, region),
            source_x == region.x * 4,
            logical_row_bytes == fw * 4,
            copy_width == crop_copy_width(fw, region),
            copy_height == crop_copy_height(fh, region),
            row_limit == min_int(fw * 4, pitch),
            row_bytes == region.width * 4,
            row_bytes * region.height == output_len,
            output_len == crop_output_len(region),
            spec == spec_crop(raw@, fw, fh, pitch, region),
            spec.len() == output_len,
            out.len() == output_len,
            forall|i: int| 0 <= i < output_len ==>
                #[trigger] out@[i] == if i < row * row_bytes { spec[i] } else { 0u8 },
        ensures
            forall|i: int| 0 <= i < output_len ==> #[trigger] out@[i] == spec[i],
        decreases copy_height - row,
    {
        if row >= copy_height {
            proof {
                assert forall|i: int| 0 <= i < output_len implies #[trigger] out@[i] == spec[i] by {
                    if i >= row * row_bytes {
                        lemma_row_of_index(i, row_bytes as int, row as int);
                    }
                }
            }
            break;
        }
        let ghost r = row as int;
        assert(region.y + row < frame_height);
        let source_row = match (region.y + row).checked_mul(row_pitch) {
            Some(v) => v,
            None => {
                proof {
                    assert((region.y + r) * pitch > usize::MAX);
                    assert forall|i: int| 0 <= i < output_len implies #[trigger] out@[i] == spec[i] by {
                        if i >= row * row_bytes {
                            lemma_row_of_index(i, row_bytes as int, r);
                            let q = i / row_bytes as int;
                            lemma_rows_monotone(pitch, region, r, q);
                            assert(crop_row_pixels(raw@.len() as int, fw, fh, pitch, region, q) == 0);
                        }
                    }
                }
                break;
            },
        };
        let source_start = match source_row.checked_add(source_x) {
            Some(v) => v,
            None => {
                proof {
                    assert(source_row + source_x > usize::MAX);
                    assert forall|i: int| 0 <= i < output_len implies #[trigger] out@[i] == spec[i] by {
                        if i >= row * row_bytes {
                            lemma_row_of_index(i, row_bytes as int, r);
                            let q = i / row_bytes as int;
                            lemma_rows_monotone(pitch, region, r, q);
                            assert(crop_row_pixels(raw@.len() as int, fw, fh, pitch, region, q) == 0);
                        }
                    }
                }
                break;
            },
        };
        let padded_end = source_row.saturating_add(row_limit);
        let source_end = if padded_end < raw.len() { padded_end } else { raw.len() };
        assert(source_end == crop_row_end(raw@.len() as int, fw, pitch, region, r));
        assert(source_start == crop_row_start(pitch, region, r));
        assert(r * row_bytes + row_bytes <= output_len) by (nonlinear_arith)
            requires row_bytes * region.height == output_len, r < copy_height, copy_height <= region.height, row_bytes >= 0;
        let destination_row = row * row_bytes;
        let row_pixels: usize = if source_start >= source_end {
            0
        } else {
            let available = (source_end - source_start) / 4;
            if copy_width < available { copy_width } else { available }
        };
        assert(row_pixels == crop_row_pixels(raw@.len() as int, fw, fh, pitch, region, r));
        assert(row_pixels > 0 ==> source_start + 4 * row_pixels <= source_end);
        assert(source_end <= raw.len());
        assert(row_pixels <= region.width);
        let mut k: usize = 0;
        while k < row_pixels
            invariant
                fw == frame_width,
                fh == frame_height,
                pitch == row_pitch,
                0 <= r < copy_height,
                row == r,
                k <= row_pixels,
                row_pixels == crop_row_pixels(raw@.len() as int, fw, fh, pitch, region, r),
                row_pixels <= region.width,
                row_pixels > 0 ==> source_start + 4 * row_pixels <= raw@.len(),
                row_pixels > 0 ==> source_start + 4 * row_pixels <= usize::MAX,
                source_start == crop_row_start(pitch, region, r),
                destination_row == r * row_bytes,
                r * row_bytes + row_bytes <= output_len,
                crop_geometry_ok(fw, fh, pitch, region),
                row_bytes == region.width * 4,
                output_len == crop_output_len(region),
                spec == spec_crop(raw@, fw, fh, pitch, region),
                spec.len() == output_len,
                out.len() == output_len,
                forall|i: int| 0 <= i < output_len ==>
                    #[trigger] out@[i] == if i < destination_row + 4 * k { spec[i] } else { 0u8 },
            decreases row_pixels - k,
        {
            let s = source_start + 4 * k;
            let d = destination_row + 4 * k;
            proof {
                lemma_pixel_bytes(raw@, fw, fh, pitch, region, spec, r, k as int, row_bytes as int, s as int, d as int);
            }
            let red = raw[s];
            let green = raw[s + 1];
            let blue = raw[s + 2];
            let alpha = raw[s + 3];
            out.set(d, blue);
            out.set(d + 1, green);
            out.set(d + 2, red);
            out.set(d + 3, alpha);
            proof {
                assert(out@[d as int] == spec[d as int]);
                assert(out@[d + 1] == spec[d + 1]);
                assert(out@[d + 2] == spec[d + 2]);
                assert(out@[d + 3] == spec[d + 3]);
            }
            k = k + 1;
        }
        proof {
            assert forall|i: int| 0 <= i < output_len implies
                #[trigger] out@[i] == if i < (r + 1) * row_bytes { spec[i] } else { 0u8 } by {
                assert((r + 1) * row_bytes == r * row_bytes + row_bytes) by (nonlinear_arith);
                if destination_row + 4 * row_pixels <= i < (r + 1) * row_bytes {
                    lemma_col_of_index(i, row_bytes as int, r);
                    assert((i % row_bytes as int) / 4 >= row_pixels);
                }
            }
        }
        row = row + 1;
    }
    assert(out@ =~= spec);
    out
}

/// `a + b` saturated at `u32::MAX` (`u32::saturating_add`).
pub open spec fn saturating_sum(a: u32, b: u32) -> int {
    if a + b > u32::MAX { u32::MAX as int } else { a + b }
}

/// Byte offset of the first pixel of crop row `row` in a BGRA frame.
pub open spec fn bgra_row_start(stride: int, crop_x: int, crop_y: int, row: int) -> int {
    (crop_y + row) * stride + crop_x * 4
}

/// Whether crop row `row` lies inside the source buffer.
pub open spec fn bgra_row_fits(source_len: int, stride: int, crop_x: int, crop_y: int, width: int, row: int) -> bool {
    bgra_row_start(stride, crop_x, crop_y, row) + width * 4 <= source_len
}

/// The `width` x `height` BGRA block at (`crop_x`, `crop_y`) of a frame of
/// `full_width` x `full_height` pixels whose rows are `stride` bytes apart;
/// none when the block leaves the frame, a row is shorter than the frame is
/// wide, the block's size overflows, or a row lies beyond the buffer.
pub open spec fn spec_crop_bgra(
    source: Seq<u8>,
    stride: usize,
    full_width: u32,
    full_height: u32,
    crop_x: u32,
    crop_y: u32,
    width: u32,
    height: u32,
) -> Option<Seq<u8>> {
    let row_bytes = width * 4;
    if saturating_sum(crop_x, width) > full_width || saturating_sum(crop_y, height) > full_height {
        None
    } else if full_width * 4 > usize::MAX || stride < full_width * 4 {
        None
    } else if row_bytes > usize::MAX || row_bytes * height > usize::MAX {
        None
    } else if exists|row: int| 0 <= row < height && !#[trigger] bgra_row_fits(source.len() as int, stride as int, crop_x as int, crop_y as int, width as int, row) {
        None
    } else {
        Some(Seq::new((row_bytes * height) as nat, |i: int| source[bgra_row_start(stride as int, crop_x as int, crop_y as int, i / row_bytes) + i % row_bytes]))
    }
}

proof fn lemma_block_index(row: int, col: int, row_bytes: int)
    requires
        0 <= col < row_bytes,
        0 <= row,
    ensures
        (row * row_bytes + col) / row_bytes == row,
        (row * row_bytes + col) % row_bytes == col,
{
    vstd::arithmetic::div_mod::lemma_fundamental_div_mod_converse(row * row_bytes + col, row_bytes, row, col);
}

/// Copies a `width` x `height` block out of a BGRA frame (rows `stride`
/// bytes apart), row by row; none when the block does not lie inside the
/// frame and its buffer.
#[verifier::rlimit(30)]
pub fn crop_bgra_frame(
    source: &[u8],
    stride: usize,
    full_width: u32,
    full_height: u32,
    crop_x: u32,
    crop_y: u32,
    width: u32,
    height: u32,
) -> (block: Option<Vec<u8>>)
    ensures
        match spec_crop_bgra(source@, stride, full_width, full_height, crop_x, crop_y, width, height) {
            Some(bytes) => block matches Some(b) && b@ == bytes,
            None => block is None,
        },
{
    let ghost spec = spec_crop_bgra(source@, stride, full_width, full_height, crop_x, crop_y, width, height);
    if crop_x.saturating_add(width) > full_width || crop_y.saturating_add(height) > full_height {
        return None;
    }
    let frame_bytes = match (full_width as usize).checked_mul(4) {
        Some(bytes) => bytes,
        None => return None,
    };
    if stride < frame_bytes {
        return None;
    }
    let row_bytes = match (width as usize).checked_mul(4) {
        Some(bytes) => bytes,
        None => return None,
    };
    let total = match row_bytes.checked_mul(height as usize) {
        Some(bytes) => bytes,
        None => return None,
    };
    let ghost rb = row_bytes as int;
    let ghost expected = Seq::new(total as nat, |i: int| source@[bgra_row_start(stride as int, crop_x as int, crop_y as int, i / rb) + i % rb]);
    let mut out: Vec<u8> = Vec::new();
    let mut row: usize = 0;
    while row < height as usize
        invariant
            row <= height,
            rb == row_bytes as int,
            row_bytes == width * 4,
            total == row_bytes * height,
            out@.len() == row * row_bytes,
            row * row_bytes <= total,
            forall|r: int| 0 <= r < row ==> #[trigger] bgra_row_fits(source@.len() as int, stride as int, crop_x as int, crop_y as int, width as int, r),
            forall|i: int| 0 <= i < out@.len() ==> out@[i] == expected[i],
            expected == Seq::new(total as nat, |i: int| source@[bgra_row_start(stride as int, crop_x as int, crop_y as int, i / rb) + i % rb]),
        decreases height - row,
    {
        assert(row * row_bytes + row_bytes <= total) by (nonlinear_arith)
            requires row < height, total == row_bytes * height, row_bytes >= 0;
        assert((crop_y + row) * stride <= 0x2_0000_0000 * 0x1_0000_0000_0000_0000) by (nonlinear_arith)
            requires 0 <= crop_y + row <= 0x2_0000_0000, 0 <= stride <= 0x1_0000_0000_0000_0000;
        let start_wide: u128 = (crop_y as u128 + row as u128) * (stride as u128) + (crop_x as u128) * 4;
        assert(start_wide == bgra_row_start(stride as int, crop_x as int, crop_y as int, row as int)) by (nonlinear_arith)
            requires start_wide == (crop_y as u128 + row as u128) * (stride as u128) + (crop_x as u128) * 4,
                crop_y <= u32::MAX, row <= u32::MAX, stride <= usize::MAX, crop_x <= u32::MAX;
        if start_wide + row_bytes as u128 > source.len() as u128 {
            assert(!bgra_row_fits(source@.len() as int, stride as int, crop_x as int, crop_y as int, width as int, row as int));
            return None;
        }
        let start = start_wide as usize;
        assert(bgra_row_fits(source@.len() as int, stride as int, crop_x as int, crop_y as int, width as int, row as int));
        let mut col: usize = 0;
        while col < row_bytes
            invariant
                row < height,
                rb == row_bytes as int,
                row_bytes == width * 4,
                total == row_bytes * height,
                row * row_bytes + row_bytes <= total,
                start == bgra_row_start(stride as int, crop_x as int, crop_y as int, row as int),
                start + row_bytes <= source@.len(),
                source@.len() == source.len(),
                col <= row_bytes,
                out@.len() == row * row_bytes + col,
                forall|i: int| 0 <= i < out@.len() ==> out@[i] == expected[i],
                expected == Seq::new(total as nat, |i: int| source@[bgra_row_start(stride as int, crop_x as int, crop_y as int, i / rb) + i % rb]),
            decreases row_bytes - col,
        {
            proof {
                lemma_block_index(row as int, col as int, rb);
            }
            assert(expected[row * row_bytes + col] == source@[start + col]);
            out.push(source[start + col]);
            col = col + 1;
        }
        assert(out@.len() == (row + 1) * row_bytes) by (nonlinear_arith)
            requires out@.len() == row * row_bytes + row_bytes;
        row = row + 1;
    }
    proof {
        assert(out@.len() == total) by (nonlinear_arith)
            requires out@.len() == row * row_bytes, row == height, total == row_bytes * height;
        assert forall|r: int| 0 <= r < height implies #[trigger] bgra_row_fits(source@.len() as int, stride as int, crop_x as int, crop_y as int, width as int, r) by {}
        assert(out@ =~= expected);
    }
    Some(out)
}

} // verus!
