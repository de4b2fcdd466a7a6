use vstd::prelude::*;

verus! {

/// The empty columns behind each image in an atlas.
pub const GAP: u32 = 10;

/// A picture of four bytes for each pixel, row after row.
#[derive(Debug, Clone)]
pub struct AtlasImage {
    pub width: u32,
    pub height: u32,
    pub pixels: Vec<u8>,
}

/// Where an image lies in an atlas: its first column and its size. It always
/// starts in the first row.
#[derive(Debug, Clone, Copy, PartialEq, Eq, Structural)]
pub struct Placement {
    pub x: u32,
    pub width: u32,
    pub height: u32,
}

/// One picture that holds several images side by side, and where each lies.
#[derive(Debug, Clone)]
pub struct Atlas {
    pub width: u32,
    pub height: u32,
    pub pixels: Vec<u8>,
    pub placements: Vec<Placement>,
}

impl AtlasImage {
    /// The image holds exactly the bytes of its pixels.
    pub open spec fn wf(&self) -> bool {
        self.pixels@.len() == self.width * self.height * 4
    }
}

/// The width that the first `n` images take, each with its gap: the column
/// where image `n` starts.
pub open spec fn total_width(images: Seq<AtlasImage>, n: int) -> int
    decreases n,
{
    if n <= 0 {
        0
    } else {
        total_width(images, n - 1) + images[n - 1].width + GAP
    }
}

/// The height of the tallest of the first `n` images.
pub open spec fn max_height(images: Seq<AtlasImage>, n: int) -> int
    decreases n,
{
    if n <= 0 {
        0
    } else if images[n - 1].height > max_height(images, n - 1) {
        images[n - 1].height as int
    } else {
        max_height(images, n - 1)
    }
}

/// The index of the first byte of column `x` in row `y` of a picture that is
/// `width` pixels wide.
pub open spec fn row_start(width: int, x: int, y: int) -> int {
    (y * width + x) * 4
}

/// The byte `p` belongs to the `span` pixels that start at column `x` of row
/// `y`.
pub open spec fn in_row(width: int, x: int, span: int, y: int, p: int) -> bool {
    row_start(width, x, y) <= p < row_start(width, x, y) + 4 * span
}

/// The index of byte `k` of the span that starts at column `x` of row `y`.
pub open spec fn pixel_index(width: int, x: int, y: int, k: int) -> int {
    row_start(width, x, y) + k
}

/// The byte `p` of the atlas belongs to one of the first `n` images.
pub open spec fn covered(images: Seq<AtlasImage>, n: int, width: int, p: int) -> bool {
    exists|j: int, y: int|
        0 <= j < n && 0 <= y < images[j].height && #[trigger] in_row(
            width,
            total_width(images, j),
            images[j].width as int,
            y,
            p,
        )
}

/// The images fit an atlas whose sizes and byte offsets are 32-bit numbers.
pub open spec fn atlas_fits(images: Seq<AtlasImage>) -> bool {
    &&& total_width(images, images.len() as int) <= u32::MAX
    &&& total_width(images, images.len() as int) * max_height(images, images.len() as int) * 4
        <= u32::MAX
}

/// What the atlas of `images` is: as wide as all of them with their gaps, as
/// high as the tallest, each image copied row by row to its place, and zero
/// wherever no image lies.
pub open spec fn is_atlas_of(atlas: Atlas, images: Seq<AtlasImage>) -> bool {
    let n = images.len() as int;
    let width = total_width(images, n);
    &&& atlas.width == width
    &&& atlas.height == max_height(images, n)
    &&& atlas.pixels@.len() == width * max_height(images, n) * 4
    &&& atlas.placements@.len() == n
    &&& forall|j: int|
        0 <= j < n ==> #[trigger] atlas.placements@[j] == (Placement {
            x: total_width(images, j) as u32,
            width: images[j].width,
            height: images[j].height,
        })
    &&& forall|j: int, y: int, k: int|
        0 <= j < n && 0 <= y < images[j].height && 0 <= k < 4 * images[j].width ==> atlas.pixels@[
            #[trigger] pixel_index(width, total_width(images, j), y, k)
        ] == images[j].pixels@[y * (4 * images[j].width) + k]
    &&& forall|p: int|
        0 <= p < atlas.pixels@.len() && !covered(images, n, width, p) ==> #[trigger] atlas.pixels@[p]
            == 0
}

proof fn lemma_total_width_grows(images: Seq<AtlasImage>, a: int, b: int)
    requires
        0 <= a <= b,
    ensures
        0 <= total_width(images, a) <= total_width(images, b),
        a < b ==> total_width(images, a) + images[a].width + GAP <= total_width(images, b),
    decreases b,
{
    if a < b {
        lemma_total_width_grows(images, a, b - 1);
    } else {
        lemma_total_width_nonnegative(images, a);
    }
}

proof fn lemma_total_width_nonnegative(images: Seq<AtlasImage>, a: int)
    ensures
        0 <= total_width(images, a),
    decreases a,
{
    if a > 0 {
        lemma_total_width_nonnegative(images, a - 1);
    }
}

proof fn lemma_max_height_bounds(images: Seq<AtlasImage>, a: int, b: int)
    requires
        0 <= a < b,
    ensures
        images[a].height <= max_height(images, b),
    decreases b,
{
    if a + 1 < b {
        lemma_max_height_bounds(images, a, b - 1);
    }
}

/// A span that lies inside a row of the atlas lies inside the atlas.
proof fn lemma_row_inside(width: int, height: int, x: int, span: int, y: int)
    requires
        0 <= x,
        0 <= span,
        x + span <= width,
        0 <= y < height,
    ensures
        0 <= y * width,
        y * width * 4 <= row_start(width, x, y),
        row_start(width, x, y) + 4 * span <= (y + 1) * width * 4,
        (y + 1) * width * 4 <= width * height * 4,
{
    assert(0 <= y * width) by (nonlinear_arith)
        requires
            0 <= y,
            0 <= width,
    ;
    assert((y * width + x) * 4 + 4 * span <= (y + 1) * width * 4) by (nonlinear_arith)
        requires
            x + span <= width,
    ;
    assert((y + 1) * width * 4 <= width * height * 4) by (nonlinear_arith)
        requires
            y < height,
            0 <= width,
    ;
    assert(y * width * 4 <= (y * width + x) * 4) by (nonlinear_arith)
        requires
            0 <= x,
    ;
}

/// Two spans in different rows, or side by side in one row, share no byte.
proof fn lemma_rows_apart(
    width: int,
    x1: int,
    span1: int,
    y1: int,
    x2: int,
    span2: int,
    y2: int,
    p: int,
)
    requires
        0 <= x1,
        0 <= span1,
        x1 + span1 <= width,
        0 <= x2,
        0 <= span2,
        x2 + span2 <= width,
        0 <= y1,
        0 <= y2,
        y1 != y2 || x1 + span1 <= x2 || x2 + span2 <= x1,
        in_row(width, x1, span1, y1, p),
    ensures
        !in_row(width, x2, span2, y2, p),
{
    lemma_row_inside(width, y1 + 1, x1, span1, y1);
    lemma_row_inside(width, y2 + 1, x2, span2, y2);
    if y1 < y2 {
        assert((y1 + 1) * width * 4 <= y2 * width * 4) by (nonlinear_arith)
            requires
                y1 < y2,
                0 <= width,
        ;
    } else if y2 < y1 {
        assert((y2 + 1) * width * 4 <= y1 * width * 4) by (nonlinear_arith)
            requires
                y2 < y1,
                0 <= width,
        ;
    } else {
        assert((y1 * width + x1) * 4 + 4 * span1 == (y1 * width + x1 + span1) * 4)
            by (nonlinear_arith);
        assert((y2 * width + x2) * 4 + 4 * span2 == (y2 * width + x2 + span2) * 4)
            by (nonlinear_arith);
    }
}

/// Copies `len` bytes of `src` from `src_start` on over the bytes of `dst`
/// from `dst_start` on, and leaves the rest of `dst` as it is.
fn blit_row(dst: &mut Vec<u8>, dst_start: usize, src: &Vec<u8>, src_start: usize, len: usize)
    requires
        dst_start + len <= old(dst)@.len(),
        src_start + len <= src@.len(),
    ensures
        final(dst)@.len() == old(dst)@.len(),
        forall|p: int|
            dst_start <= p < dst_start + len ==> #[trigger] final(dst)@[p] == src@[p - dst_start
                + src_start],
        forall|p: int|
            0 <= p < old(dst)@.len() && !(dst_start <= p < dst_start + len)
                ==> #[trigger] final(dst)@[p] == old(dst)@[p],
{
    let dst_len: usize = dst.len();
    let src_len: usize = src.len();
    let mut k: usize = 0;
    while k < len
        invariant
            k <= len,
            dst_start + len <= dst_len,
            src_start + len <= src_len,
            dst_len == dst@.len(),
            src_len == src@.len(),
            dst@.len() == old(dst)@.len(),
            forall|p: int|
                dst_start <= p < dst_start + k ==> #[trigger] dst@[p] == src@[p - dst_start
                    + src_start],
            forall|p: int|
                0 <= p < dst@.len() && !(dst_start <= p < dst_start + k) ==> #[trigger] dst@[p]
                    == old(dst)@[p],
        decreases len - k,
    {
        dst.set(dst_start + k, src[src_start + k]);
        k = k + 1;
    }
}

/// A vector of `len` zero bytes.
fn zeros(len: usize) -> (res: Vec<u8>)
    ensures
        res@.len() == len,
        forall|p: int| 0 <= p < len ==> #[trigger] res@[p] == 0,
{
    let mut out: Vec<u8> = Vec::with_capacity(len);
    let mut i: usize = 0;
    while i < len
        invariant
            i <= len,
            out@.len() == i,
            forall|p: int| 0 <= p < i ==> #[trigger] out@[p] == 0,
        decreases len - i,
    {
        out.push(0);
        i = i + 1;
    }
    out
}

/// The sizes of the atlas of `images`, where it fits.
fn atlas_size(images: &Vec<AtlasImage>) -> (res: Option<(u32, u32)>)
    ensures
        match res {
            Some((width, height)) => atlas_fits(images@) && width == total_width(
                images@,
                images@.len() as int,
            ) && height == max_height(images@, images@.len() as int),
            None => !atlas_fits(images@),
        },
{
    let mut width: u64 = 0;
    let mut height: u32 = 0;
    let mut i: usize = 0;
    while i < images.len()
        invariant
            i <= images@.len(),
            width == total_width(images@, i as int),
            width <= u32::MAX,
            height == max_height(images@, i as int),
        decreases images@.len() - i,
    {
        width = width + images[i].width as u64 + GAP as u64;
        if width > u32::MAX as u64 {
            proof {
                lemma_total_width_grows(images@, i + 1, images@.len() as int);
            }
            return None;
        }
        if images[i].height > height {
            height = images[i].height;
        }
        i = i + 1;
    }
    assert(width * height <= 0xFFFF_FFFF * 0xFFFF_FFFF) by (nonlinear_arith)
        requires
            0 <= width <= 0xFFFF_FFFF,
            0 <= height <= 0xFFFF_FFFF,
    ;
    let area: u64 = width * height as u64;
    if area > (u32::MAX / 4) as u64 {
        return None;
    }
    Some((width as u32, height))
}

/// Lays the images side by side into one picture, in the order given, each
/// followed by a gap, and says where each lies. There is no atlas where the
/// sizes do not fit 32-bit numbers.
pub fn build_atlas(images: &Vec<AtlasImage>) -> (res: Option<Atlas>)
    requires
        forall|j: int| 0 <= j < images@.len() ==> #[trigger] images@[j].wf(),
    ensures
        match res {
            Some(atlas) => atlas_fits(images@) && is_atlas_of(atlas, images@),
            None => !atlas_fits(images@),
        },
{
    let (width, height) = match atlas_size(images) {
        Some(size) => size,
        None => {
            return None;
        },
    };
    let ghost w: int = width as int;
    let ghost h: int = height as int;
    assert(w * h <= 0xFFFF_FFFF * 0xFFFF_FFFF) by (nonlinear_arith)
        requires
            0 <= w <= 0xFFFF_FFFF,
            0 <= h <= 0xFFFF_FFFF,
    ;
    let len: usize = (width as u64 * height as u64 * 4) as usize;
    let mut pixels: Vec<u8> = zeros(len);
    let mut placements: Vec<Placement> = Vec::with_capacity(images.len());
    let mut x: u32 = 0;
    let mut i: usize = 0;
    while i < images.len()
        invariant
            i <= images@.len(),
            w == total_width(images@, images@.len() as int),
            h == max_height(images@, images@.len() as int),
            w == width,
            h == height,
            w * h * 4 <= u32::MAX,
            x == total_width(images@, i as int),
            pixels@.len() == w * h * 4,
            placements@.len() == i,
            forall|j: int| 0 <= j < images@.len() ==> #[trigger] images@[j].wf(),
            forall|j: int|
                0 <= j < i ==> #[trigger] placements@[j] == (Placement {
                    x: total_width(images@, j) as u32,
                    width: images@[j].width,
                    height: images@[j].height,
                }),
            forall|j: int, y: int, k: int|
                0 <= j < i && 0 <= y < images@[j].height && 0 <= k < 4 * images@[j].width
                    ==> pixels@[#[trigger] pixel_index(w, total_width(images@, j), y, k)]
                    == images@[j].pixels@[y * (4 * images@[j].width) + k],
            forall|p: int|
                0 <= p < pixels@.len() && !covered(images@, i as int, w, p) ==> #[trigger] pixels@[p]
                    == 0,
        decreases images@.len() - i,
    {
        let image: &AtlasImage = &images[i];
        proof {
            lemma_total_width_grows(images@, i as int, images@.len() as int);
            lemma_max_height_bounds(images@, i as int, images@.len() as int);
            assert(image.wf());
        }
        let ghost before = pixels@;
        let ghost iw: int = image.width as int;
        let ghost ix: int = x as int;
        let mut y: u32 = 0;
        while y < image.height
            invariant
                y <= image.height,
                i < images@.len(),
                *image == images@[i as int],
                image.wf(),
                iw == image.width,
                ix == x,
                w == width,
                h == height,
                w * h * 4 <= u32::MAX,
                ix + iw <= w,
                image.height <= h,
                pixels@.len() == w * h * 4,
                before.len() == pixels@.len(),
                forall|y0: int, k: int|
                    0 <= y0 < y && 0 <= k < 4 * iw ==> pixels@[#[trigger] pixel_index(w, ix, y0, k)]
                        == image.pixels@[y0 * (4 * iw) + k],
                forall|p: int|
                    0 <= p < pixels@.len() && !(exists|y0: int|
                        0 <= y0 < y && #[trigger] in_row(w, ix, iw, y0, p)) ==> #[trigger] pixels@[p]
                        == before[p],
            decreases image.height - y,
        {
            let ghost yy: int = y as int;
            proof {
                lemma_row_inside(w, h, ix, iw, yy);
                assert(yy * (4 * iw) + 4 * iw <= iw * image.height * 4) by (nonlinear_arith)
                    requires
                        0 <= yy < image.height,
                        0 <= iw,
                ;
                assert(0 <= yy * (4 * iw)) by (nonlinear_arith)
                    requires
                        0 <= yy,
                        0 <= iw,
                ;
                assert(4 * iw <= w * h * 4) by (nonlinear_arith)
                    requires
                        0 <= iw <= w,
                        1 <= h,
                ;
                assert(yy * w <= w * h) by (nonlinear_arith)
                    requires
                        0 <= yy < h,
                        0 <= w,
                ;
            }
            let src_len: usize = image.pixels.len();
            assert(yy * (4 * iw) + 4 * iw <= src_len);
            let span: usize = (4 * image.width as u64) as usize;
            let dst_start: usize = ((y as u64 * width as u64 + x as u64) * 4) as usize;
            let src_start: usize = (y as u64 * (4 * image.width as u64)) as usize;
            assert(dst_start == row_start(w, ix, yy));
            assert(src_start == yy * (4 * iw));
            let ghost prior = pixels@;
            blit_row(&mut pixels, dst_start, &image.pixels, src_start, span);
            proof {
                assert forall|y0: int, k: int| 0 <= y0 < y + 1 && 0 <= k < 4 * iw implies pixels@[
                    #[trigger] pixel_index(w, ix, y0, k)
                ] == image.pixels@[y0 * (4 * iw) + k] by {
                    let p = pixel_index(w, ix, y0, k);
                    if y0 < y {
                        assert(in_row(w, ix, iw, y0, p));
                        lemma_rows_apart(w, ix, iw, y0, ix, iw, yy, p);
                        lemma_row_inside(w, h, ix, iw, y0);
                        assert(pixels@[p] == prior[p]);
                    } else {
                        assert(pixels@[p] == image.pixels@[p - dst_start + src_start]);
                    }
                }
                assert forall|p: int|
                    0 <= p < pixels@.len() && !(exists|y0: int|
                        0 <= y0 < y + 1 && #[trigger] in_row(w, ix, iw, y0, p)) implies #[trigger] pixels@[p]
                    == before[p] by {
                    assert(!in_row(w, ix, iw, yy, p));
                    assert(pixels@[p] == prior[p]);
                    assert forall|y0: int| 0 <= y0 < y implies !#[trigger] in_row(w, ix, iw, y0, p) by {
                        assert(0 <= y0 < y + 1);
                    }
                }
            }
            y = y + 1;
        }
        placements.push(Placement { x, width: image.width, height: image.height });
        proof {
            let n1 = i + 1;
            assert forall|j: int, y0: int, k: int|
                0 <= j < i + 1 && 0 <= y0 < images@[j].height && 0 <= k < 4 * images@[j].width
                implies pixels@[#[trigger] pixel_index(w, total_width(images@, j), y0, k)]
                == images@[j].pixels@[y0 * (4 * images@[j].width) + k] by {
                if j < i {
                    let xj = total_width(images@, j);
                    let wj = images@[j].width as int;
                    let p = pixel_index(w, xj, y0, k);
                    lemma_total_width_grows(images@, j, i as int);
                    lemma_total_width_grows(images@, j, images@.len() as int);
                    lemma_max_height_bounds(images@, j, images@.len() as int);
                    lemma_row_inside(w, h, xj, wj, y0);
                    assert(in_row(w, xj, wj, y0, p));
                    assert forall|y1: int| 0 <= y1 < image.height implies !#[trigger] in_row(
                        w,
                        ix,
                        iw,
                        y1,
                        p,
                    ) by {
                        lemma_rows_apart(w, xj, wj, y0, ix, iw, y1, p);
                    }
                    assert(pixels@[p] == before[p]);
                }
            }
            assert forall|p: int|
                0 <= p < pixels@.len() && !covered(images@, n1, w, p) implies #[trigger] pixels@[p]
                == 0 by {
                assert forall|y1: int| 0 <= y1 < image.height implies !#[trigger] in_row(
                    w,
                    ix,
                    iw,
                    y1,
                    p,
                ) by {
                    if in_row(w, ix, iw, y1, p) {
                        assert(in_row(
                            w,
                            total_width(images@, i as int),
                            images@[i as int].width as int,
                            y1,
                            p,
                        ));
                        assert(covered(images@, n1, w, p));
                    }
                }
                assert(pixels@[p] == before[p]);
                if covered(images@, i as int, w, p) {
                    let (j, y1) = choose|j: int, y1: int|
                        0 <= j < i && 0 <= y1 < images@[j].height && #[trigger] in_row(
                            w,
                            total_width(images@, j),
                            images@[j].width as int,
                            y1,
                            p,
                        );
                    assert(in_row(w, total_width(images@, j), images@[j].width as int, y1, p));
                    assert(covered(images@, n1, w, p));
                }
                assert(before[p] == 0);
            }
        }
        x = x + image.width + GAP;
        i = i + 1;
    }
    Some(Atlas { width, height, pixels, placements })
}

} // verus!
