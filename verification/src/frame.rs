//! Repacking the buffers of a video stream into images, and handing the newest
//! one over.
use vstd::prelude::*;

use crate::color::Rgb;
use crate::shot::Screenshot;
#[allow(unused_imports)]
use crate::shot::{shot_bytes, shot_height, shot_width};

verus! {

/// The pixel layouts of a video stream, as far as they are told apart.
#[derive(Debug, Clone, Copy, PartialEq, Eq, Structural)]
pub enum VideoFormat {
    /// Three bytes: red, green, blue.
    Rgb,
    /// Four bytes: red, green, blue, and one that is unused.
    Rgbx,
    /// Four bytes: red, green, blue, alpha.
    Rgba,
    /// Four bytes: blue, green, red, and one that is unused.
    Bgrx,
    /// Four bytes: blue, green, red, alpha.
    Bgra,
    /// Any other layout.
    Other,
}

impl VideoFormat {
    /// Whether frames of this layout can be repacked.
    pub open spec fn supported(self) -> bool {
        self != VideoFormat::Other
    }

    /// The bytes of one pixel.
    pub open spec fn pixel_bytes(self) -> int {
        if self == VideoFormat::Rgb {
            3
        } else {
            4
        }
    }

    /// The color of the pixel that begins at `start` in `data`.
    pub open spec fn color_in(self, data: Seq<u8>, start: int) -> Rgb {
        if self == VideoFormat::Bgrx || self == VideoFormat::Bgra {
            Rgb { r: data[start + 2], g: data[start + 1], b: data[start] }
        } else {
            Rgb { r: data[start], g: data[start + 1], b: data[start + 2] }
        }
    }

    fn is_reversed(self) -> (res: bool)
        ensures
            res == (self == VideoFormat::Bgrx || self == VideoFormat::Bgra),
    {
        match self {
            VideoFormat::Bgrx | VideoFormat::Bgra => true,
            _ => false,
        }
    }
}

/// Whether row `y` lies in `data` whole, where the rows are `width` pixels long
/// and begin `stride` bytes apart.
pub open spec fn row_fits(data: Seq<u8>, width: int, stride: int, format: VideoFormat, y: int) -> bool {
    y * stride + width * format.pixel_bytes() <= data.len()
}

/// The color at column `x` of row `y` of a buffer whose rows begin `stride`
/// bytes apart.
pub open spec fn source_color(data: Seq<u8>, stride: int, format: VideoFormat, x: int, y: int) -> Rgb {
    format.color_in(data, y * stride + x * format.pixel_bytes())
}

/// Whether a buffer can be repacked: the layout is supported, and every row is
/// there. (The size of a row of the image has to fit a `usize` as well, which
/// the buffer sees to wherever there are rows.)
pub open spec fn decodable(
    data: Seq<u8>,
    width: u32,
    height: u32,
    stride: usize,
    format: VideoFormat,
) -> bool {
    &&& format.supported()
    &&& 3 * width <= usize::MAX
    &&& forall|y: int|
        0 <= y < height ==> #[trigger] row_fits(data, width as int, stride as int, format, y)
}

/// Whether an image has this size, and each of its pixels the color that the
/// buffer has there.
pub open spec fn shows(
    shot: Screenshot,
    data: Seq<u8>,
    width: u32,
    height: u32,
    stride: usize,
    format: VideoFormat,
) -> bool {
    &&& shot_width(shot) == width
    &&& shot_height(shot) == height
    &&& shot_bytes(shot).len() == 3 * width * height
    &&& forall|x: int, y: int|
        0 <= x < width && 0 <= y < height ==> #[trigger] shot.at(x, y) == source_color(
            data,
            stride as int,
            format,
            x,
            y,
        )
}

/// The color that packed pixels, rows of `width`, hold at column `x` of row `y`.
spec fn packed_color(out: Seq<u8>, width: int, x: int, y: int) -> Rgb {
    let start = 3 * (y * width + x);
    Rgb { r: out[start], g: out[start + 1], b: out[start + 2] }
}

/// Whether `out` holds, packed, the first `rows` rows of a buffer and the first
/// `columns` pixels of the next.
spec fn repacked(
    out: Seq<u8>,
    data: Seq<u8>,
    width: int,
    stride: int,
    format: VideoFormat,
    rows: int,
    columns: int,
) -> bool {
    &&& out.len() == 3 * (rows * width + columns)
    &&& forall|x: int, y: int|
        #![trigger packed_color(out, width, x, y)]
        0 <= x < width && 0 <= y && (y < rows || y == rows && x < columns) ==> packed_color(
            out,
            width,
            x,
            y,
        ) == source_color(data, stride, format, x, y)
}

/// A pixel that stands before another in reading order comes before it in the
/// packed bytes too.
proof fn lemma_reading_order(width: int, rows: int, columns: int, x: int, y: int)
    requires
        0 <= x < width,
        0 <= y,
        0 <= columns,
        y < rows || y == rows && x < columns,
    ensures
        0 <= y * width + x < rows * width + columns,
{
    assert(0 <= y * width) by (nonlinear_arith)
        requires
            0 <= y,
            0 < width,
    ;
    if y < rows {
        assert(y * width + width <= rows * width) by (nonlinear_arith)
            requires
                y + 1 <= rows,
                0 < width,
        ;
    }
}

/// Adding the next pixel's color extends what is repacked by that pixel.
proof fn lemma_repack_step(
    out: Seq<u8>,
    more: Seq<u8>,
    data: Seq<u8>,
    width: int,
    stride: int,
    format: VideoFormat,
    rows: int,
    columns: int,
)
    requires
        0 <= columns < width,
        0 <= rows,
        repacked(out, data, width, stride, format, rows, columns),
        ({
            let c = source_color(data, stride, format, columns, rows);
            more == out.push(c.r).push(c.g).push(c.b)
        }),
    ensures
        repacked(more, data, width, stride, format, rows, columns + 1),
{
    assert forall|x: int, y: int|
        #![trigger packed_color(more, width, x, y)]
        0 <= x < width && 0 <= y && (y < rows || y == rows && x < columns + 1) implies packed_color(
        more,
        width,
        x,
        y,
    ) == source_color(data, stride, format, x, y) by {
        if y < rows || x < columns {
            lemma_reading_order(width, rows, columns, x, y);
            assert(packed_color(more, width, x, y) == packed_color(out, width, x, y));
        } else {
            assert(3 * (y * width + x) == out.len());
        }
    }
}

/// Repacks one buffer of a video stream into an image.
///
/// Rows may be padded: `stride` is the distance between the beginnings of two
/// rows, and what follows the visible width is skipped. There is no image for a
/// layout that is not supported, and none for a buffer that ends too soon.
pub fn frame_to_rgb(
    data: &[u8],
    width: u32,
    height: u32,
    stride: usize,
    format: VideoFormat,
) -> (res: Option<Screenshot>)
    ensures
        res is Some <==> decodable(data@, width, height, stride, format),
        res matches Some(shot) ==> shows(shot, data@, width, height, stride, format),
        res matches Some(shot) ==> shot_width(shot) == width && shot_height(shot) == height,
{
    let step: usize = match format {
        VideoFormat::Rgb => 3,
        VideoFormat::Other => {
            return None;
        },
        _ => 4,
    };
    let len: usize = data.len();
    let w: usize = width as usize;
    let h: usize = height as usize;
    // Reserved at once, where the image is no larger than the buffer that it comes
    // from: it is larger only where the rows overlap or are not all there.
    let capacity: usize = match w.checked_mul(h) {
        Some(pixels) => match pixels.checked_mul(3) {
            Some(bytes) if bytes <= len => bytes,
            _ => 0,
        },
        None => 0,
    };
    let mut out: Vec<u8> = Vec::with_capacity(capacity);
    let mut y: usize = 0;
    let row_bytes: usize = match w.checked_mul(step) {
        Some(n) => n,
        None => {
            if h > 0 {
                assert(!row_fits(data@, width as int, stride as int, format, 0));
                return None;
            }
            0
        },
    };
    while y < h
        invariant
            y <= h,
            h == height,
            w == width,
            len == data@.len(),
            h > 0 ==> row_bytes == w * step,
            step == format.pixel_bytes(),
            format.supported(),
            repacked(out@, data@, w as int, stride as int, format, y as int, 0),
            forall|k: int|
                0 <= k < y ==> #[trigger] row_fits(
                    data@,
                    width as int,
                    stride as int,
                    format,
                    k,
                ),
        decreases h - y,
    {
        let start: usize = match y.checked_mul(stride) {
            Some(n) => n,
            None => {
                assert(!row_fits(data@, width as int, stride as int, format, y as int));
                return None;
            },
        };
        let end: usize = match start.checked_add(row_bytes) {
            Some(n) => n,
            None => {
                assert(!row_fits(data@, width as int, stride as int, format, y as int));
                return None;
            },
        };
        if end > len {
            assert(!row_fits(data@, width as int, stride as int, format, y as int));
            return None;
        }
        assert(row_fits(data@, width as int, stride as int, format, y as int));
        let mut x: usize = 0;
        let mut pos: usize = start;
        while x < w
            invariant
                x <= w,
                y < h,
                pos == start + x * step,
                start == y * stride,
                end == start + w * step,
                end <= data@.len(),
                step == format.pixel_bytes(),
                repacked(out@, data@, w as int, stride as int, format, y as int, x as int),
            decreases w - x,
        {
            assert(x * step + step <= w * step) by (nonlinear_arith)
                requires
                    x + 1 <= w,
                    0 < step,
            ;
            let ghost before = out@;
            if format.is_reversed() {
                out.push(data[pos + 2]);
                out.push(data[pos + 1]);
                out.push(data[pos]);
            } else {
                out.push(data[pos]);
                out.push(data[pos + 1]);
                out.push(data[pos + 2]);
            }
            proof {
                lemma_repack_step(
                    before,
                    out@,
                    data@,
                    w as int,
                    stride as int,
                    format,
                    y as int,
                    x as int,
                );
                assert((x + 1) * step == x * step + step) by (nonlinear_arith);
            }
            pos = pos + step;
            x = x + 1;
        }
        proof {
            assert((y + 1) * w == y * w + w) by (nonlinear_arith);
            assert(repacked(out@, data@, w as int, stride as int, format, y + 1, 0));
        }
        y = y + 1;
    }
    assert(out@.len() == 3 * width * height) by {
        assert(3 * (h * w + 0) == 3 * w * h) by (nonlinear_arith);
    }
    let ghost packed = out@;
    let res = Screenshot::from_raw(width, height, out);
    proof {
        if res is Some {
            let shot = res->0;
            assert forall|x: int, y: int|
                0 <= x < width && 0 <= y < height implies #[trigger] shot.at(x, y) == source_color(
                data@,
                stride as int,
                format,
                x,
                y,
            ) by {
                assert(shot.at(x, y) == packed_color(packed, w as int, x, y));
            }
        }
    }
    res
}

/// Each pixel of an image that shows a buffer has the three bytes that the buffer
/// has for it: in the row that begins `stride` bytes after the one above, after
/// the three or four bytes of each pixel to the left, and in this order or, where
/// blue comes first, in the reverse one.
pub proof fn law_pixels_come_from_the_buffer(
    shot: Screenshot,
    data: Seq<u8>,
    width: u32,
    height: u32,
    stride: usize,
    format: VideoFormat,
    x: int,
    y: int,
)
    requires
        shows(shot, data, width, height, stride, format),
        0 <= x < width,
        0 <= y < height,
    ensures
        shot_width(shot) == width,
        shot_height(shot) == height,
        shot_bytes(shot).len() == 3 * width * height,
        ({
            let pixel = shot_bytes(shot).skip(3 * (y * width + x));
            &&& format == VideoFormat::Rgb ==> {
                &&& pixel[0] == data[y * stride + 3 * x]
                &&& pixel[1] == data[y * stride + 3 * x + 1]
                &&& pixel[2] == data[y * stride + 3 * x + 2]
            }
            &&& format == VideoFormat::Rgbx || format == VideoFormat::Rgba ==> {
                &&& pixel[0] == data[y * stride + 4 * x]
                &&& pixel[1] == data[y * stride + 4 * x + 1]
                &&& pixel[2] == data[y * stride + 4 * x + 2]
            }
            &&& format == VideoFormat::Bgrx || format == VideoFormat::Bgra ==> {
                &&& pixel[0] == data[y * stride + 4 * x + 2]
                &&& pixel[1] == data[y * stride + 4 * x + 1]
                &&& pixel[2] == data[y * stride + 4 * x]
            }
        }),
{
    lemma_reading_order(width as int, height as int, 0, x, y);
    let start = 3 * (y * width + x);
    assert(start + 2 < shot_bytes(shot).len()) by {
        assert(3 * width * height == 3 * (height * width)) by (nonlinear_arith);
    }
    let pixel = shot_bytes(shot).skip(start);
    assert(shot.at(x, y) == source_color(data, stride as int, format, x, y));
    assert(pixel[0] == shot.at(x, y).r && pixel[1] == shot.at(x, y).g && pixel[2] == shot.at(
        x,
        y,
    ).b);
}

/// A buffer becomes an image exactly if its layout is one of the five, and it is
/// long enough for its last row; what it holds, and what follows, does not matter.
pub proof fn law_whole_buffers_become_images(
    data: Seq<u8>,
    width: u32,
    height: u32,
    stride: usize,
    format: VideoFormat,
)
    requires
        3 * width <= usize::MAX,
    ensures
        format == VideoFormat::Rgb ==> (decodable(data, width, height, stride, format) <==> (height
            == 0 || (height - 1) * stride + 3 * width <= data.len())),
        format == VideoFormat::Rgbx || format == VideoFormat::Rgba || format == VideoFormat::Bgrx
            || format == VideoFormat::Bgra ==> (decodable(data, width, height, stride, format)
            <==> (height == 0 || (height - 1) * stride + 4 * width <= data.len())),
        format == VideoFormat::Other ==> !decodable(data, width, height, stride, format),
{
    let last = height - 1;
    let row = width * format.pixel_bytes();
    if height > 0 && last * stride + row <= data.len() {
        assert forall|y: int| 0 <= y < height implies #[trigger] row_fits(
            data,
            width as int,
            stride as int,
            format,
            y,
        ) by {
            assert(y * stride <= last * stride) by (nonlinear_arith)
                requires
                    y <= last,
                    0 <= stride,
            ;
        }
    }
    if height > 0 && decodable(data, width, height, stride, format) {
        assert(row_fits(data, width as int, stride as int, format, last));
    }
}

/// What stands outside the visible part of the rows, such as padding between
/// them, has no influence on the colors that are read.
pub proof fn law_padding_is_ignored(
    data: Seq<u8>,
    other: Seq<u8>,
    width: int,
    height: int,
    stride: int,
    format: VideoFormat,
)
    requires
        forall|y: int, k: int|
            0 <= y < height && 0 <= k < width * format.pixel_bytes() ==> #[trigger] data[y * stride
                + k] == other[y * stride + k],
    ensures
        forall|x: int, y: int|
            0 <= x < width && 0 <= y < height ==> #[trigger] source_color(
                data,
                stride,
                format,
                x,
                y,
            ) == source_color(other, stride, format, x, y),
{
    assert forall|x: int, y: int|
        0 <= x < width && 0 <= y < height implies #[trigger] source_color(
        data,
        stride,
        format,
        x,
        y,
    ) == source_color(other, stride, format, x, y) by {
        let step = format.pixel_bytes();
        let k = x * step;
        assert(0 <= k && k + step <= width * step) by (nonlinear_arith)
            requires
                0 <= x,
                x + 1 <= width,
                0 < step,
                k == x * step,
        ;
        assert(data[y * stride + k] == other[y * stride + k]);
        assert(data[y * stride + (k + 1)] == other[y * stride + (k + 1)]);
        assert(data[y * stride + (k + 2)] == other[y * stride + (k + 2)]);
    }
}

/// The newest frame that a stream has produced and nobody has taken yet.
///
/// A frame that arrives replaces the one that is there, so that a reader who is
/// slower than the stream misses frames rather than falling behind.
pub struct FrameSlot {
    pub latest: Option<Screenshot>,
}

impl FrameSlot {
    /// A slot without a frame.
    pub fn new() -> (res: Self)
        ensures
            res.latest is None,
    {
        FrameSlot { latest: None }
    }

    /// Puts a frame in, in place of one that has not been taken.
    pub fn publish(&mut self, shot: Screenshot)
        ensures
            final(self).latest == Some(shot),
            final(self).latest == published(old(self).latest, seq![shot]),
    {
        self.latest = Some(shot);
        proof {
            law_newest_frame_wins(old(self).latest, seq![shot]);
        }
    }

    /// Takes the newest frame, if one has arrived since the last call.
    pub fn take_frame(&mut self) -> (res: Option<Screenshot>)
        ensures
            res == old(self).latest,
            final(self).latest is None,
    {
        self.latest.take()
    }
}

/// What a slot holds after frames were published into it one after the other.
pub open spec fn published(latest: Option<Screenshot>, frames: Seq<Screenshot>) -> Option<Screenshot>
    decreases frames.len(),
{
    if frames.len() == 0 {
        latest
    } else {
        published(Some(frames[0]), frames.skip(1))
    }
}

/// Of any number of frames that are published before a reader comes, the reader
/// gets the last one; earlier ones, and what the slot held before, are dropped.
pub proof fn law_newest_frame_wins(latest: Option<Screenshot>, frames: Seq<Screenshot>)
    requires
        frames.len() > 0,
    ensures
        published(latest, frames) == Some(frames.last()),
    decreases frames.len(),
{
    if frames.len() == 1 {
        assert(published(Some(frames[0]), frames.skip(1)) == Some(frames[0]));
    } else {
        law_newest_frame_wins(Some(frames[0]), frames.skip(1));
        assert(frames.skip(1).last() == frames.last());
    }
}

} // verus!
