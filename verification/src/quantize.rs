//! Colour quantization of cover art into grids of terminal cells, for the
//! half-block rendering of album art: each cell gets the average colour of
//! its region of the image.
use vstd::prelude::*;

verus! {

/// A colour as red, green and blue.
pub type Rgb = (u8, u8, u8);

/// An image decoded to RGB: its size and its pixels, three bytes each, row
/// by row (the buffer may run past the last pixel).
pub struct RgbImage {
    pub width: u32,
    pub height: u32,
    pub pixels: Vec<u8>,
}

impl RgbImage {
    /// The buffer holds three bytes for each pixel.
    pub open spec fn wf(&self) -> bool {
        self.pixels@.len() >= 3 * (self.width as int) * (self.height as int)
    }
}

/// Whether the `image` crate decodes the encoded bytes `data` (its format
/// guessed from the leading bytes, under the default limits), and the width
/// and height of the image when it does; both depend on the bytes alone.
pub uninterp spec fn decoded_size(data: Seq<u8>) -> Option<(u32, u32)>;

/// Decodes an encoded image (PNG, JPEG) and converts it to 8-bit RGB:
/// `image::load_from_memory` then `DynamicImage::to_rgb8`. Stated: it
/// succeeds exactly when the bytes decode, the image has the decoded size,
/// and its buffer holds three bytes for each pixel. Which pixels the bytes
/// decode to is left to the decoders, some of which pick their arithmetic by
/// what the machine supports, and is not stated.
#[verifier::external_body]
fn decode_rgb(data: &[u8]) -> (r: Option<RgbImage>)
    ensures
        r is Some <==> decoded_size(data@) is Some,
        r matches Some(img) ==> img.wf() && decoded_size(data@) == Some((img.width, img.height)),
{
    let rgb = image::load_from_memory(data).ok()?.to_rgb8();
    Some(RgbImage { width: rgb.width(), height: rgb.height(), pixels: rgb.into_raw() })
}

/// Channel `c` of pixel `(x, y)` of an image `w` pixels wide.
pub open spec fn channel(px: Seq<u8>, w: int, x: int, y: int, c: int) -> int {
    px[(y * w + x) * 3 + c] as int
}

/// The sum of channel `c` over the pixels `x0 <= x < x1` of row `y`.
pub open spec fn row_sum(px: Seq<u8>, w: int, y: int, x0: int, x1: int, c: int) -> int
    decreases x1 - x0,
{
    if x1 <= x0 { 0 } else { row_sum(px, w, y, x0, x1 - 1, c) + channel(px, w, x1 - 1, y, c) }
}

/// The sum of channel `c` over the pixels of the rows `y0 <= y < y1` and
/// columns `x0 <= x < x1`.
pub open spec fn region_sum(px: Seq<u8>, w: int, x0: int, x1: int, y0: int, y1: int, c: int) -> int
    decreases y1 - y0,
{
    if y1 <= y0 { 0 } else { region_sum(px, w, x0, x1, y0, y1 - 1, c) + row_sum(px, w, y1 - 1, x0, x1, c) }
}

/// The average colour of a region: each channel's sum over its pixels
/// divided (rounding down) by their number.
pub open spec fn average(px: Seq<u8>, w: int, x0: int, x1: int, y0: int, y1: int) -> Rgb {
    let n = (x1 - x0) * (y1 - y0);
    ((region_sum(px, w, x0, x1, y0, y1, 0) / n) as u8, (region_sum(px, w, x0, x1, y0, y1, 1) / n) as u8,
        (region_sum(px, w, x0, x1, y0, y1, 2) / n) as u8)
}

/// A row sum is at most 255 for each pixel.
proof fn lemma_row_sum_bound(px: Seq<u8>, w: int, y: int, x0: int, x1: int, c: int)
    ensures
        0 <= row_sum(px, w, y, x0, x1, c) <= 255 * (if x1 >= x0 { x1 - x0 } else { 0 }),
    decreases x1 - x0,
{
    if x1 > x0 {
        lemma_row_sum_bound(px, w, y, x0, x1 - 1, c);
    }
}

/// A region sum is at most 255 for each pixel.
proof fn lemma_region_sum_bound(px: Seq<u8>, w: int, x0: int, x1: int, y0: int, y1: int, c: int)
    requires
        x0 <= x1,
    ensures
        0 <= region_sum(px, w, x0, x1, y0, y1, c) <= 255 * (x1 - x0) * (if y1 >= y0 { y1 - y0 } else { 0 }),
    decreases y1 - y0,
{
    if y1 > y0 {
        lemma_region_sum_bound(px, w, x0, x1, y0, y1 - 1, c);
        lemma_row_sum_bound(px, w, y1 - 1, x0, x1, c);
        assert(255 * (x1 - x0) * (y1 - 1 - y0) + 255 * (x1 - x0) == 255 * (x1 - x0) * (y1 - y0))
            by (nonlinear_arith);
    }
}

/// An average of bytes is a byte.
proof fn lemma_average_fits(s: int, n: int)
    requires
        n > 0,
        0 <= s <= 255 * n,
    ensures
        0 <= s / n <= 255,
{
    assert(s / n <= 255) by (nonlinear_arith)
        requires n > 0, 0 <= s <= 255 * n;
    assert(s / n >= 0) by (nonlinear_arith)
        requires n > 0, 0 <= s;
}

/// The pixel `(x, y)` lies inside a buffer of three bytes per pixel.
proof fn lemma_pixel_in_buffer(w: int, h: int, x: int, y: int)
    requires
        0 <= x < w,
        0 <= y < h,
    ensures
        0 <= (y * w + x) * 3,
        (y * w + x) * 3 + 2 < 3 * w * h,
{
    assert(y * w + x < w * h) by (nonlinear_arith)
        requires 0 <= x < w, 0 <= y < h;
    assert(3 * w * h == 3 * (w * h)) by (nonlinear_arith);
    assert(y * w + x >= 0) by (nonlinear_arith)
        requires 0 <= x, 0 <= y, 0 <= w;
}

/// The average colour of the region `x0 <= x < x1`, `y0 <= y < y1` of an
/// image `w` pixels wide and `h` high.
pub fn average_region(px: &Vec<u8>, w: usize, h: usize, x0: usize, x1: usize, y0: usize, y1: usize) -> (r: Rgb)
    requires
        x0 < x1 <= w,
        y0 < y1 <= h,
        px@.len() >= 3 * w * h,
    ensures
        r == average(px@, w as int, x0 as int, x1 as int, y0 as int, y1 as int),
{
    let mut sr: u128 = 0;
    let mut sg: u128 = 0;
    let mut sb: u128 = 0;
    let mut y = y0;
    while y < y1
        invariant
            y0 <= y <= y1 <= h,
            x0 < x1 <= w,
            px@.len() >= 3 * w * h,
            sr == region_sum(px@, w as int, x0 as int, x1 as int, y0 as int, y as int, 0),
            sg == region_sum(px@, w as int, x0 as int, x1 as int, y0 as int, y as int, 1),
            sb == region_sum(px@, w as int, x0 as int, x1 as int, y0 as int, y as int, 2),
        decreases y1 - y,
    {
        proof {
            lemma_region_sum_bound(px@, w as int, x0 as int, x1 as int, y0 as int, y as int, 0);
            lemma_region_sum_bound(px@, w as int, x0 as int, x1 as int, y0 as int, y as int, 1);
            lemma_region_sum_bound(px@, w as int, x0 as int, x1 as int, y0 as int, y as int, 2);
            assert(255 * (x1 - x0) * (y - y0) <= 255 * w * h) by (nonlinear_arith)
                requires x0 < x1 <= w, y0 <= y <= h;
            assert(px@.len() == px.len());
            assert(3 * w * h <= usize::MAX);
        }
        let mut x = x0;
        let ghost base_r = sr as int;
        let ghost base_g = sg as int;
        let ghost base_b = sb as int;
        while x < x1
            invariant
                y0 <= y < y1 <= h,
                x0 <= x <= x1 <= w,
                px@.len() >= 3 * w * h,
                3 * w * h <= usize::MAX,
                base_r == region_sum(px@, w as int, x0 as int, x1 as int, y0 as int, y as int, 0),
                base_g == region_sum(px@, w as int, x0 as int, x1 as int, y0 as int, y as int, 1),
                base_b == region_sum(px@, w as int, x0 as int, x1 as int, y0 as int, y as int, 2),
                base_r <= 255 * w * h,
                base_g <= 255 * w * h,
                base_b <= 255 * w * h,
                sr == base_r + row_sum(px@, w as int, y as int, x0 as int, x as int, 0),
                sg == base_g + row_sum(px@, w as int, y as int, x0 as int, x as int, 1),
                sb == base_b + row_sum(px@, w as int, y as int, x0 as int, x as int, 2),
            decreases x1 - x,
        {
            proof {
                lemma_pixel_in_buffer(w as int, h as int, x as int, y as int);
                lemma_row_sum_bound(px@, w as int, y as int, x0 as int, x as int, 0);
                lemma_row_sum_bound(px@, w as int, y as int, x0 as int, x as int, 1);
                lemma_row_sum_bound(px@, w as int, y as int, x0 as int, x as int, 2);
                assert(255 * w * h + 255 * (x - x0) + 255 < u128::MAX) by (nonlinear_arith)
                    requires 3 * w * h <= usize::MAX, x0 <= x <= w;
            }
            let i = (y * w + x) * 3;
            sr = sr + px[i] as u128;
            sg = sg + px[i + 1] as u128;
            sb = sb + px[i + 2] as u128;
            x = x + 1;
        }
        y = y + 1;
    }
    let ghost n = (x1 - x0) * (y1 - y0);
    proof {
        assert(n > 0) by (nonlinear_arith)
            requires x0 < x1, y0 < y1, n == (x1 - x0) * (y1 - y0);
        assert(n <= w * h) by (nonlinear_arith)
            requires x0 < x1 <= w, y0 < y1 <= h, n == (x1 - x0) * (y1 - y0);
        lemma_region_sum_bound(px@, w as int, x0 as int, x1 as int, y0 as int, y1 as int, 0);
        lemma_region_sum_bound(px@, w as int, x0 as int, x1 as int, y0 as int, y1 as int, 1);
        lemma_region_sum_bound(px@, w as int, x0 as int, x1 as int, y0 as int, y1 as int, 2);
        assert(255 * (x1 - x0) * (y1 - y0) == 255 * n) by (nonlinear_arith)
            requires n == (x1 - x0) * (y1 - y0);
        lemma_average_fits(sr as int, n);
        lemma_average_fits(sg as int, n);
        lemma_average_fits(sb as int, n);
    }
    proof {
        let a = (x1 - x0) as int;
        let b = (y1 - y0) as int;
        assert(a * b <= 0xffff_ffff_ffff_ffff * 0xffff_ffff_ffff_ffff) by (nonlinear_arith)
            requires 0 <= a <= 0xffff_ffff_ffff_ffff, 0 <= b <= 0xffff_ffff_ffff_ffff;
    }
    let count: u128 = ((x1 - x0) as u128) * ((y1 - y0) as u128);
    ((sr / count) as u8, (sg / count) as u8, (sb / count) as u8)
}

/// A grid of cell colours, row by row; `None` is the placeholder colour of
/// art that is not available.
pub struct ArtColorGrid {
    pub colors: Vec<Vec<Option<Rgb>>>,
    pub cols: usize,
    pub rows: usize,
}

/// The colours of a grid, row by row.
pub open spec fn grid_view(colors: Seq<Vec<Option<Rgb>>>) -> Seq<Seq<Option<Rgb>>> {
    colors.map_values(|r: Vec<Option<Rgb>>| r@)
}

/// `rows` rows of `cols` placeholder cells.
pub open spec fn empty_view(cols: usize, rows: usize) -> Seq<Seq<Option<Rgb>>> {
    Seq::new(rows as nat, |r: int| Seq::new(cols as nat, |c: int| None::<Rgb>))
}

impl ArtColorGrid {
    /// A grid of `cols` by `rows` placeholder cells.
    pub fn empty(cols: usize, rows: usize) -> (g: ArtColorGrid)
        ensures
            g.cols == cols,
            g.rows == rows,
            grid_view(g.colors@) == empty_view(cols, rows),
    {
        let mut colors: Vec<Vec<Option<Rgb>>> = Vec::new();
        let mut r: usize = 0;
        while r < rows
            invariant
                r <= rows,
                grid_view(colors@) == empty_view(cols, r),
            decreases rows - r,
        {
            let mut row: Vec<Option<Rgb>> = Vec::new();
            let mut c: usize = 0;
            while c < cols
                invariant
                    c <= cols,
                    row@ == Seq::new(c as nat, |k: int| None::<Rgb>),
                decreases cols - c,
            {
                row.push(None);
                assert(row@ =~= Seq::new((c + 1) as nat, |k: int| None::<Rgb>));
                c = c + 1;
            }
            let ghost before = grid_view(colors@);
            colors.push(row);
            assert(grid_view(colors@) =~= before.push(Seq::new(cols as nat, |k: int| None::<Rgb>)));
            assert(grid_view(colors@) =~~= empty_view(cols, (r + 1) as usize));
            r = r + 1;
        }
        ArtColorGrid { colors, cols, rows }
    }
}

/// The pixel range of the `i`-th of `n` bands over `size` pixels, at least
/// one pixel wide.
pub open spec fn band(i: int, n: int, size: int) -> (int, int) {
    let a = i * size / n;
    let b = (i + 1) * size / n;
    (a, if b >= a + 1 { b } else { a + 1 })
}

/// A band starts inside the image and ends at its edge at the latest.
proof fn lemma_band(i: int, n: int, size: int)
    requires
        0 <= i < n,
        size >= 1,
    ensures
        0 <= band(i, n, size).0 < band(i, n, size).1 <= size,
{
    assert(i * size / n < size) by (nonlinear_arith)
        requires 0 <= i < n, size >= 1;
    assert(i * size / n >= 0) by (nonlinear_arith)
        requires 0 <= i, n > 0, size >= 1;
    assert((i + 1) * size / n <= size) by (nonlinear_arith)
        requires 0 <= i < n, size >= 1;
}

/// The start of band `i` of `n` over `size` pixels.
fn band_start(i: usize, n: usize, size: usize) -> (r: usize)
    requires
        i < n,
    ensures
        r == (i as int) * (size as int) / (n as int),
{
    proof {
        assert((i as int) * (size as int) / (n as int) <= size) by (nonlinear_arith)
            requires 0 <= i < n;
        assert((i as int) * (size as int) <= 0xffff_ffff_ffff_ffff * 0xffff_ffff_ffff_ffff) by (nonlinear_arith)
            requires 0 <= i <= 0xffff_ffff_ffff_ffff, 0 <= size <= 0xffff_ffff_ffff_ffff;
    }
    (((i as u128) * (size as u128)) / (n as u128)) as usize
}

/// The average colour of each of `cols` by `rows` bands of a decoded image.
pub open spec fn grid_cell(px: Seq<u8>, w: int, h: int, cols: int, rows: int, c: int, r: int) -> Option<Rgb> {
    let xs = band(c, cols, w);
    let ys = band(r, rows, h);
    Some(average(px, w, xs.0, xs.1, ys.0, ys.1))
}

/// The grid of band averages of a decoded image.
pub open spec fn grid_of(px: Seq<u8>, w: int, h: int, cols: usize, rows: usize) -> Seq<Seq<Option<Rgb>>> {
    Seq::new(rows as nat, |r: int| Seq::new(cols as nat, |c: int| grid_cell(px, w, h, cols as int, rows as int, c, r)))
}

/// The colour grid of `cols` by `rows` cells of a decoded image: each cell
/// the average colour of its band (bands at least a pixel wide), or
/// placeholders when the grid or the image is empty.
pub open spec fn image_grid(w: u32, h: u32, px: Seq<u8>, cols: usize, rows: usize) -> Seq<Seq<Option<Rgb>>> {
    if cols == 0 || rows == 0 || w == 0 || h == 0 {
        empty_view(cols, rows)
    } else {
        grid_of(px, w as int, h as int, cols, rows)
    }
}

/// The colour grid of `cols` by `rows` cells of encoded image `data`: the
/// grid of the image it decodes to (see [`image_grid`]), or placeholder
/// cells when the grid is empty or the bytes do not decode.
pub fn compute_art_grid(data: &[u8], cols: usize, rows: usize) -> (g: ArtColorGrid)
    ensures
        g.cols == cols,
        g.rows == rows,
        (cols == 0 || rows == 0 || decoded_size(data@) is None) ==> grid_view(g.colors@) == empty_view(cols, rows),
        cols > 0 && rows > 0 && decoded_size(data@) is Some ==> exists|img: RgbImage| img.wf()
            && decoded_size(data@) == Some((img.width, img.height))
            && grid_view(g.colors@) == #[trigger] image_grid(img.width, img.height, img.pixels@, cols, rows),
{
    if cols == 0 || rows == 0 {
        return ArtColorGrid::empty(cols, rows);
    }
    match decode_rgb(data) {
        Some(img) => {
            let g = art_grid_of(&img, cols, rows);
            assert(img.wf() && decoded_size(data@) == Some((img.width, img.height))
                && grid_view(g.colors@) == image_grid(img.width, img.height, img.pixels@, cols, rows));
            g
        },
        None => ArtColorGrid::empty(cols, rows),
    }
}

/// The colour grid of `cols` by `rows` cells of decoded image `img`; see
/// [`image_grid`].
pub fn art_grid_of(img: &RgbImage, cols: usize, rows: usize) -> (g: ArtColorGrid)
    requires
        img.wf(),
    ensures
        g.cols == cols,
        g.rows == rows,
        grid_view(g.colors@) == image_grid(img.width, img.height, img.pixels@, cols, rows),
{
    if cols == 0 || rows == 0 {
        return ArtColorGrid::empty(cols, rows);
    }
    if img.width == 0 || img.height == 0 {
        return ArtColorGrid::empty(cols, rows);
    }
    let w = img.width as usize;
    let h = img.height as usize;
    let mut colors: Vec<Vec<Option<Rgb>>> = Vec::new();
    let mut r: usize = 0;
    while r < rows
        invariant
            r <= rows,
            cols > 0,
            rows > 0,
            w >= 1,
            h >= 1,
            w == img.width,
            h == img.height,
            img.pixels@.len() >= 3 * w * h,
            grid_view(colors@) == grid_of(img.pixels@, w as int, h as int, cols, rows).take(r as int),
        decreases rows - r,
    {
        let y0 = band_start(r, rows, h);
        let yb = if r + 1 < rows { band_start(r + 1, rows, h) } else { h };
        proof {
            lemma_band(r as int, rows as int, h as int);
            if r + 1 == rows {
                assert((r + 1) * (h as int) / (rows as int) == h) by (nonlinear_arith)
                    requires r + 1 == rows, rows > 0;
            }
        }
        let y1 = if yb >= y0 + 1 { yb } else { y0 + 1 };
        let mut row: Vec<Option<Rgb>> = Vec::new();
        let mut c: usize = 0;
        while c < cols
            invariant
                c <= cols,
                r < rows,
                cols > 0,
                w >= 1,
                h >= 1,
                img.pixels@.len() >= 3 * w * h,
                (y0 as int, y1 as int) == band(r as int, rows as int, h as int),
                y0 < y1 <= h,
                row@ == Seq::new(c as nat, |k: int| grid_cell(img.pixels@, w as int, h as int, cols as int, rows as int, k, r as int)),
            decreases cols - c,
        {
            let x0 = band_start(c, cols, w);
            let xb = if c + 1 < cols { band_start(c + 1, cols, w) } else { w };
            proof {
                lemma_band(c as int, cols as int, w as int);
                if c + 1 == cols {
                    assert((c + 1) * (w as int) / (cols as int) == w) by (nonlinear_arith)
                        requires c + 1 == cols, cols > 0;
                }
            }
            let x1 = if xb >= x0 + 1 { xb } else { x0 + 1 };
            let color = average_region(&img.pixels, w, h, x0, x1, y0, y1);
            row.push(Some(color));
            assert(row@ =~= Seq::new((c + 1) as nat, |k: int| grid_cell(img.pixels@, w as int, h as int, cols as int, rows as int, k, r as int)));
            c = c + 1;
        }
        let ghost before = grid_view(colors@);
        colors.push(row);
        proof {
            let g = grid_of(img.pixels@, w as int, h as int, cols, rows);
            assert(grid_view(colors@) =~= before.push(row@));
            assert(g[r as int] =~= row@);
            assert(g.take(r + 1) =~= g.take(r as int).push(g[r as int]));
            assert(grid_view(colors@) =~~= g.take(r + 1));
        }
        r = r + 1;
    }
    proof {
        let g = grid_of(img.pixels@, w as int, h as int, cols, rows);
        assert(g.take(rows as int) =~= g);
    }
    ArtColorGrid { colors, cols, rows }
}

/// The pixel range of quarter `i` of `size` pixels: quarters of equal
/// width (rounded down), the last taking the rest, each at least a pixel
/// wide.
pub open spec fn quarter(i: int, size: int) -> (int, int) {
    let q = size / 4;
    let a = i * q;
    let b = if i == 3 { size } else { (i + 1) * q };
    (a, if b >= a + 1 { b } else { a + 1 })
}

/// A quarter starts inside the image and ends at its edge at the latest.
proof fn lemma_quarter(i: int, size: int)
    requires
        0 <= i < 4,
        size >= 1,
    ensures
        0 <= quarter(i, size).0 < quarter(i, size).1 <= size,
{
    let q = size / 4;
    assert(i * q < size && i * q >= 0) by (nonlinear_arith)
        requires 0 <= i < 4, size >= 1, q == size / 4;
    assert(i < 3 ==> (i + 1) * q <= size) by (nonlinear_arith)
        requires 0 <= i < 4, size >= 1, q == size / 4;
}

/// The four-by-four thumbnail colours of a decoded image.
pub open spec fn quadrants_of(px: Seq<u8>, w: int, h: int) -> Seq<Seq<Option<Rgb>>> {
    Seq::new(4, |r: int| Seq::new(4, |c: int| {
        let xs = quarter(c, w);
        let ys = quarter(r, h);
        Some(average(px, w, xs.0, xs.1, ys.0, ys.1))
    }))
}

/// The four-by-four thumbnail colours of a decoded image: each the average
/// colour of a quarter of the image across and down, or placeholders when
/// the image has no pixels.
pub open spec fn image_quadrants(w: u32, h: u32, px: Seq<u8>) -> Seq<Seq<Option<Rgb>>> {
    if w == 0 || h == 0 { empty_view(4, 4) } else { quadrants_of(px, w as int, h as int) }
}

/// The four-by-four thumbnail colours of encoded image `data`: those of the
/// image it decodes to (see [`image_quadrants`]), or placeholders when it
/// does not decode.
pub fn compute_quadrant_colors(data: &[u8]) -> (g: Vec<Vec<Option<Rgb>>>)
    ensures
        decoded_size(data@) is None ==> grid_view(g@) == empty_view(4, 4),
        decoded_size(data@) is Some ==> exists|img: RgbImage| img.wf()
            && decoded_size(data@) == Some((img.width, img.height))
            && grid_view(g@) == #[trigger] image_quadrants(img.width, img.height, img.pixels@),
{
    match decode_rgb(data) {
        Some(img) => {
            let g = quadrant_colors_of(&img);
            assert(img.wf() && decoded_size(data@) == Some((img.width, img.height))
                && grid_view(g@) == image_quadrants(img.width, img.height, img.pixels@));
            g
        },
        None => ArtColorGrid::empty(4, 4).colors,
    }
}

/// The four-by-four thumbnail colours of decoded image `img`; see
/// [`image_quadrants`].
pub fn quadrant_colors_of(img: &RgbImage) -> (g: Vec<Vec<Option<Rgb>>>)
    requires
        img.wf(),
    ensures
        grid_view(g@) == image_quadrants(img.width, img.height, img.pixels@),
{
    if img.width == 0 || img.height == 0 {
        return ArtColorGrid::empty(4, 4).colors;
    }
    let w = img.width as usize;
    let h = img.height as usize;
    let cw = w / 4;
    let rh = h / 4;
    let mut colors: Vec<Vec<Option<Rgb>>> = Vec::new();
    let mut r: usize = 0;
    while r < 4
        invariant
            r <= 4,
            w >= 1,
            h >= 1,
            cw == w / 4,
            rh == h / 4,
            img.pixels@.len() >= 3 * w * h,
            grid_view(colors@) == quadrants_of(img.pixels@, w as int, h as int).take(r as int),
        decreases 4 - r,
    {
        proof {
            lemma_quarter(r as int, h as int);
        }
        let y0 = r * rh;
        let yb = if r == 3 { h } else { (r + 1) * rh };
        let y1 = if yb >= y0 + 1 { yb } else { y0 + 1 };
        let mut row: Vec<Option<Rgb>> = Vec::new();
        let mut c: usize = 0;
        while c < 4
            invariant
                c <= 4,
                r < 4,
                w >= 1,
                h >= 1,
                cw == w / 4,
                img.pixels@.len() >= 3 * w * h,
                (y0 as int, y1 as int) == quarter(r as int, h as int),
                y0 < y1 <= h,
                row@ == Seq::new(c as nat, |k: int| {
                    let xs = quarter(k, w as int);
                    Some(average(img.pixels@, w as int, xs.0, xs.1, y0 as int, y1 as int))
                }),
            decreases 4 - c,
        {
            proof {
                lemma_quarter(c as int, w as int);
            }
            let x0 = c * cw;
            let xb = if c == 3 { w } else { (c + 1) * cw };
            let x1 = if xb >= x0 + 1 { xb } else { x0 + 1 };
            let color = average_region(&img.pixels, w, h, x0, x1, y0, y1);
            row.push(Some(color));
            assert(row@ =~= Seq::new((c + 1) as nat, |k: int| {
                let xs = quarter(k, w as int);
                Some(average(img.pixels@, w as int, xs.0, xs.1, y0 as int, y1 as int))
            }));
            c = c + 1;
        }
        let ghost before = grid_view(colors@);
        colors.push(row);
        proof {
            let g = quadrants_of(img.pixels@, w as int, h as int);
            assert(grid_view(colors@) =~= before.push(row@));
            assert(g[r as int] =~= row@);
            assert(g.take(r + 1) =~= g.take(r as int).push(g[r as int]));
            assert(grid_view(colors@) =~~= g.take(r + 1));
        }
        r = r + 1;
    }
    proof {
        let g = quadrants_of(img.pixels@, w as int, h as int);
        assert(g.take(4) =~= g);
    }
    colors
}

} // verus!
