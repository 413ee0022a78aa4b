use vstd::prelude::*;

use crate::rank::{
    is_kth_smallest, lemma_count_le_all_below, lemma_count_lt_none_below,
    lemma_kth_smallest_is_sample, lemma_kth_smallest_unique, median_of,
};

verus! {

/// An interleaved RGB image with 16-bit samples, row after row, pixel after
/// pixel, channel after channel.
#[derive(Debug)]
pub struct Rgb16Image {
    pub width: u32,
    pub height: u32,
    pub data: Vec<u16>,
}

/// Position of channel `c` of pixel `(x, y)` in an interleaved RGB buffer of
/// width `w`.
pub open spec fn sample_index(w: int, x: int, y: int, c: int) -> int {
    (y * w + x) * 3 + c
}

/// A coordinate pulled back inside `0..n` (edge pixels are repeated).
pub open spec fn clamp_coord(v: int, n: int) -> int {
    if v < 0 {
        0
    } else if v >= n {
        n - 1
    } else {
        v
    }
}

impl Rgb16Image {
    /// The buffer holds exactly three samples per pixel.
    pub open spec fn wf(&self) -> bool {
        self.data@.len() == self.width as int * self.height as int * 3
    }

    /// Channel `c` of pixel `(x, y)`.
    pub open spec fn sample(&self, x: int, y: int, c: int) -> u16 {
        self.data@[sample_index(self.width as int, x, y, c)]
    }

    /// Builds an image from its raw samples; `None` when their number does not
    /// match the dimensions.
    pub fn from_raw(width: u32, height: u32, data: Vec<u16>) -> (r: Option<Rgb16Image>)
        ensures
            r is Some <==> data@.len() == width as int * height as int * 3,
            r matches Some(img) ==> img.wf() && img.width == width && img.height == height
                && img.data@ == data@,
    {
        let len = data.len() as u64;
        assert(width as int * height as int <= 0xffff_ffff * 0xffff_ffff) by (nonlinear_arith)
            requires
                width <= 0xffff_ffff,
                height <= 0xffff_ffff,
        ;
        let expected = (width as u64) * (height as u64);
        if expected <= u64::MAX / 3 && len == expected * 3 {
            Some(Rgb16Image { width, height, data })
        } else {
            proof {
                if len as int == width as int * height as int * 3 {
                    assert(width as int * height as int * 3 <= u64::MAX);
                }
            }
            None
        }
    }
}

/// The samples of channel `c` in row `yy` of the window centred on column
/// `x`, from column `x - r` on, `len` of them.
pub open spec fn window_row(img: Rgb16Image, r: int, x: int, yy: int, c: int, len: int) -> Seq<u16> {
    Seq::new(len as nat, |j: int| img.sample(clamp_coord(x - r + j, img.width as int), yy, c))
}

/// The first `k` rows of the window of radius `r` centred on `(x, y)`.
pub open spec fn window_rows(img: Rgb16Image, r: int, x: int, y: int, c: int, k: nat) -> Seq<u16>
    decreases k,
{
    if k == 0 {
        Seq::empty()
    } else {
        window_rows(img, r, x, y, c, (k - 1) as nat) + window_row(
            img,
            r,
            x,
            clamp_coord(y - r + (k - 1), img.height as int),
            c,
            2 * r + 1,
        )
    }
}

/// The `(2r+1) x (2r+1)` neighbourhood of channel `c` around `(x, y)`, with
/// coordinates outside the image clamped to its border.
pub open spec fn window(img: Rgb16Image, r: int, x: int, y: int, c: int) -> Seq<u16> {
    window_rows(img, r, x, y, c, (2 * r + 1) as nat)
}

/// The rank that the median of a window of radius `r` has.
pub open spec fn median_rank(r: int) -> int {
    ((2 * r + 1) * (2 * r + 1)) / 2
}

pub proof fn lemma_sample_index_bound(w: int, h: int, x: int, y: int, c: int)
    requires
        0 <= x < w,
        0 <= y < h,
        0 <= c < 3,
    ensures
        0 <= sample_index(w, x, y, c) < w * h * 3,
        sample_index(w, x, y, c) == y * (w * 3) + x * 3 + c,
        0 <= y * w,
        y * w + x < w * h,
        (y + 1) * (w * 3) == y * (w * 3) + w * 3,
{
    assert((y + 1) * (w * 3) == y * (w * 3) + w * 3) by (nonlinear_arith);
    assert(0 <= y * w) by (nonlinear_arith)
        requires
            0 <= y,
            0 <= w,
    ;
    assert(y * w + x < w * h) by (nonlinear_arith)
        requires
            0 <= x < w,
            0 <= y < h,
    ;
    assert(y * (w * 3) == (y * w) * 3) by (nonlinear_arith);
}

proof fn lemma_dims_fit(w: int, h: int)
    requires
        w >= 1,
        h >= 1,
        w * h * 3 <= usize::MAX,
    ensures
        w * 3 <= usize::MAX,
        h * 3 <= usize::MAX,
{
    assert(w * 3 <= w * h * 3) by (nonlinear_arith)
        requires
            h >= 1,
            w >= 1,
    ;
    assert(h * 3 <= w * h * 3) by (nonlinear_arith)
        requires
            h >= 1,
            w >= 1,
    ;
}

proof fn lemma_window_rows_len(img: Rgb16Image, r: int, x: int, y: int, c: int, k: nat)
    requires
        r >= 0,
    ensures
        window_rows(img, r, x, y, c, k).len() == k * (2 * r + 1),
    decreases k,
{
    if k > 0 {
        let k1 = (k - 1) as nat;
        lemma_window_rows_len(img, r, x, y, c, k1);
        let row = window_row(img, r, x, clamp_coord(y - r + (k - 1), img.height as int), c, 2 * r + 1);
        assert(row.len() == 2 * r + 1);
        assert(window_rows(img, r, x, y, c, k) == window_rows(img, r, x, y, c, k1) + row);
        assert(window_rows(img, r, x, y, c, k).len() == k1 * (2 * r + 1) + (2 * r + 1));
        assert(k * (2 * r + 1) == k1 * (2 * r + 1) + (2 * r + 1)) by (nonlinear_arith)
            requires
                k1 == k - 1,
        ;
    } else {
        assert(k * (2 * r + 1) == 0) by (nonlinear_arith)
            requires
                k == 0,
        ;
    }
}

/// Clamps `v - r` into `0..n`, the coordinate being given as `v` to stay
/// within unsigned arithmetic.
fn clamp_shifted(v: usize, r: usize, n: usize) -> (o: usize)
    requires
        n > 0,
    ensures
        o == clamp_coord(v - r, n as int),
        o < n,
{
    if v < r {
        0
    } else if v - r >= n {
        n - 1
    } else {
        v - r
    }
}

/// Gathers the window of channel `c` around `(x, y)` with clamped borders.
fn collect_window(img: &Rgb16Image, r: usize, x: usize, y: usize, c: usize) -> (vals: Vec<u16>)
    requires
        img.wf(),
        r <= 32767,
        x < img.width,
        y < img.height,
        c < 3,
    ensures
        vals@ == window(*img, r as int, x as int, y as int, c as int),
{
    let w = img.width as usize;
    let h = img.height as usize;
    let n = 2 * r + 1;
    let total = img.data.len();
    proof {
        assert(total == w * h * 3);
        lemma_dims_fit(w as int, h as int);
    }
    let mut vals: Vec<u16> = Vec::new();
    let mut dy: usize = 0;
    while dy < n
        invariant
            img.wf(),
            w == img.width,
            h == img.height,
            x < w,
            y < h,
            c < 3,
            n == 2 * r + 1,
            r <= 32767,
            w * 3 <= usize::MAX,
            h * 3 <= usize::MAX,
            w * h * 3 <= usize::MAX,
            dy <= n,
            vals@ == window_rows(*img, r as int, x as int, y as int, c as int, dy as nat),
        decreases n - dy,
    {
        let yy = clamp_shifted(y + dy, r, h);
        let ghost prefix = vals@;
        let mut dx: usize = 0;
        while dx < n
            invariant
                img.wf(),
                w == img.width,
                h == img.height,
                x < w,
                y < h,
                c < 3,
                yy < h,
                n == 2 * r + 1,
                r <= 32767,
                w * 3 <= usize::MAX,
                h * 3 <= usize::MAX,
                w * h * 3 <= usize::MAX,
                dx <= n,
                vals@ == prefix + window_row(*img, r as int, x as int, yy as int, c as int, n as int).take(
                    dx as int,
                ),
            decreases n - dx,
        {
            let xx = clamp_shifted(x + dx, r, w);
            proof {
                lemma_sample_index_bound(w as int, h as int, xx as int, yy as int, c as int);
            }
            let s = img.data[(yy * w + xx) * 3 + c];
            let ghost row = window_row(*img, r as int, x as int, yy as int, c as int, n as int);
            assert(row.take(dx as int + 1) =~= row.take(dx as int).push(s));
            vals.push(s);
            dx = dx + 1;
        }
        let ghost row = window_row(*img, r as int, x as int, yy as int, c as int, n as int);
        assert(row.take(n as int) =~= row);
        assert(clamp_coord(y - r + ((dy + 1) - 1), h as int) == yy);
        dy = dy + 1;
    }
    vals
}

/// Median of the window of channel `c` around `(x, y)`.
fn window_median(img: &Rgb16Image, r: usize, x: usize, y: usize, c: usize) -> (m: u16)
    requires
        img.wf(),
        r <= 32767,
        x < img.width,
        y < img.height,
        c < 3,
    ensures
        is_kth_smallest(
            window(*img, r as int, x as int, y as int, c as int),
            median_rank(r as int),
            m,
        ),
{
    let vals = collect_window(img, r, x, y, c);
    proof {
        lemma_window_rows_len(*img, r as int, x as int, y as int, c as int, (2 * r + 1) as nat);
    }
    median_of(vals)
}

/// One output row of the median filter: for every pixel of row `y` and every
/// channel, the median of the `kernel`-wide window around it.
pub fn median_filter_row_u16(img: &Rgb16Image, kernel: u32, y: u32) -> (row: Vec<u16>)
    requires
        img.wf(),
        kernel <= 65535,
        y < img.height,
    ensures
        row@.len() == img.width * 3,
        forall|x: int, c: int|
            0 <= x < img.width && 0 <= c < 3 ==> is_kth_smallest(
                window(*img, (kernel / 2) as int, x, y as int, c),
                median_rank((kernel / 2) as int),
                #[trigger] row@[x * 3 + c],
            ),
{
    let w = img.width as usize;
    let r = (kernel / 2) as usize;
    let mut row: Vec<u16> = Vec::new();
    let mut x: usize = 0;
    while x < w
        invariant
            img.wf(),
            w == img.width,
            y < img.height,
            r == kernel / 2,
            r <= 32767,
            x <= w,
            row@.len() == x * 3,
            forall|xx: int, c: int|
                0 <= xx < x && 0 <= c < 3 ==> is_kth_smallest(
                    window(*img, r as int, xx, y as int, c),
                    median_rank(r as int),
                    #[trigger] row@[xx * 3 + c],
                ),
        decreases w - x,
    {
        let mut c: usize = 0;
        while c < 3
            invariant
                img.wf(),
                w == img.width,
                y < img.height,
                r == kernel / 2,
                r <= 32767,
                x < w,
                c <= 3,
                row@.len() == x * 3 + c,
                forall|xx: int, cc: int|
                    0 <= xx < x && 0 <= cc < 3 ==> is_kth_smallest(
                        window(*img, r as int, xx, y as int, cc),
                        median_rank(r as int),
                        #[trigger] row@[xx * 3 + cc],
                    ),
                forall|cc: int|
                    0 <= cc < c ==> is_kth_smallest(
                        window(*img, r as int, x as int, y as int, cc),
                        median_rank(r as int),
                        #[trigger] row@[x * 3 + cc],
                    ),
            decreases 3 - c,
        {
            let m = window_median(img, r, x, y as usize, c);
            row.push(m);
            c = c + 1;
        }
        x = x + 1;
    }
    row
}

/// Median filter over each channel with a square window of side
/// `2 * (kernel / 2) + 1`; pixels beyond the border repeat the border.
pub fn median_filter_u16(img: &Rgb16Image, kernel: u32) -> (out: Rgb16Image)
    requires
        img.wf(),
        kernel <= 65535,
    ensures
        out.wf(),
        out.width == img.width,
        out.height == img.height,
        forall|x: int, y: int, c: int|
            0 <= x < img.width && 0 <= y < img.height && 0 <= c < 3 ==> is_kth_smallest(
                window(*img, (kernel / 2) as int, x, y, c),
                median_rank((kernel / 2) as int),
                #[trigger] out.sample(x, y, c),
            ),
{
    let w = img.width as usize;
    let h = img.height as usize;
    let mut data: Vec<u16> = Vec::new();
    let mut y: usize = 0;
    while y < h
        invariant
            img.wf(),
            w == img.width,
            h == img.height,
            y <= h,
            data@.len() == y * (w * 3),
            kernel <= 65535,
            forall|xx: int, yy: int, c: int|
                0 <= xx < w && 0 <= yy < y && 0 <= c < 3 ==> is_kth_smallest(
                    window(*img, (kernel / 2) as int, xx, yy, c),
                    median_rank((kernel / 2) as int),
                    #[trigger] data@[sample_index(w as int, xx, yy, c)],
                ),
        decreases h - y,
    {
        let mut row = median_filter_row_u16(img, kernel, y as u32);
        let ghost before = data@;
        let ghost row_s = row@;
        data.append(&mut row);
        proof {
            assert((y + 1) * (w * 3) == y * (w * 3) + w * 3) by (nonlinear_arith);
            assert forall|xx: int, yy: int, c: int|
                0 <= xx < w && 0 <= yy < y + 1 && 0 <= c < 3 implies is_kth_smallest(
                window(*img, (kernel / 2) as int, xx, yy, c),
                median_rank((kernel / 2) as int),
                #[trigger] data@[sample_index(w as int, xx, yy, c)],
            ) by {
                lemma_sample_index_bound(w as int, yy + 1, xx, yy, c);
                if yy < y {
                    assert(yy + 1 <= y);
                    assert((yy + 1) * (w * 3) <= y * (w * 3)) by (nonlinear_arith)
                        requires
                            yy + 1 <= y,
                            w >= 0,
                    ;
                    assert(data@[sample_index(w as int, xx, yy, c)] == before[sample_index(w as int, xx, yy, c)]);
                } else {
                    assert(yy == y);
                    assert(data@[sample_index(w as int, xx, yy, c)] == row_s[xx * 3 + c]);
                }
            }
        }
        y = y + 1;
    }
    proof {
        assert(h * (w * 3) == w * h * 3) by (nonlinear_arith);
    }
    Rgb16Image { width: img.width, height: img.height, data }
}

/// Every sample of a window is a sample of the image.
pub proof fn lemma_window_samples(img: Rgb16Image, r: int, x: int, y: int, c: int, k: nat, i: int)
    requires
        r >= 0,
        img.width >= 1,
        img.height >= 1,
        0 <= i < window_rows(img, r, x, y, c, k).len(),
    ensures
        exists|xx: int, yy: int|
            0 <= xx < img.width && 0 <= yy < img.height && window_rows(img, r, x, y, c, k)[i]
                == #[trigger] img.sample(xx, yy, c),
    decreases k,
{
    lemma_window_rows_len(img, r, x, y, c, k);
    if k > 0 {
        let k1 = (k - 1) as nat;
        lemma_window_rows_len(img, r, x, y, c, k1);
        let yy = clamp_coord(y - r + (k - 1), img.height as int);
        let row = window_row(img, r, x, yy, c, 2 * r + 1);
        let prev = window_rows(img, r, x, y, c, k1);
        assert(window_rows(img, r, x, y, c, k) == prev + row);
        if i < prev.len() {
            lemma_window_samples(img, r, x, y, c, k1, i);
        } else {
            let j = i - prev.len();
            let xx = clamp_coord(x - r + j, img.width as int);
            assert(window_rows(img, r, x, y, c, k)[i] == row[j]);
            assert(row[j] == img.sample(xx, yy, c));
            assert(0 <= xx < img.width && 0 <= yy < img.height);
        }
    }
}

/// A window that sees only the value `v` has median `v`.
proof fn lemma_flat_window_median(s: Seq<u16>, k: int, v: u16, m: u16)
    requires
        0 <= k < s.len(),
        forall|i: int| 0 <= i < s.len() ==> #[trigger] s[i] == v,
        is_kth_smallest(s, k, m),
    ensures
        m == v,
{
    lemma_count_lt_none_below(s, v);
    lemma_count_le_all_below(s, v);
    lemma_kth_smallest_unique(s, k, m, v);
}

/// A channel that holds one value everywhere comes out of the median filter
/// unchanged: whatever the kernel, the median of its window is that value.
pub proof fn lemma_median_keeps_flat_channel(img: Rgb16Image, kernel: u32, x: int, y: int, c: int, v: u16, m: u16)
    requires
        img.wf(),
        0 <= x < img.width,
        0 <= y < img.height,
        0 <= c < 3,
        forall|xx: int, yy: int|
            0 <= xx < img.width && 0 <= yy < img.height ==> #[trigger] img.sample(xx, yy, c) == v,
        is_kth_smallest(window(img, (kernel / 2) as int, x, y, c), median_rank((kernel / 2) as int), m),
    ensures
        m == v,
{
    let r = (kernel / 2) as int;
    let s = window(img, r, x, y, c);
    lemma_window_rows_len(img, r, x, y, c, (2 * r + 1) as nat);
    assert((2 * r + 1) * (2 * r + 1) >= 1) by (nonlinear_arith)
        requires
            r >= 0,
    ;
    assert forall|i: int| 0 <= i < s.len() implies #[trigger] s[i] == v by {
        lemma_window_samples(img, r, x, y, c, (2 * r + 1) as nat, i);
    }
    lemma_flat_window_median(s, median_rank(r), v, m);
}

/// With a kernel narrower than 2 the window is the pixel alone, so the median
/// filter returns every sample as it was.
pub proof fn lemma_median_kernel_below_two_is_identity(img: Rgb16Image, kernel: u32, x: int, y: int, c: int, m: u16)
    requires
        img.wf(),
        kernel < 2,
        0 <= x < img.width,
        0 <= y < img.height,
        0 <= c < 3,
        is_kth_smallest(window(img, (kernel / 2) as int, x, y, c), median_rank((kernel / 2) as int), m),
    ensures
        m == img.sample(x, y, c),
{
    assert((kernel / 2) as int == 0);
    assert(median_rank(0) == 0) by (nonlinear_arith);
    let s = window(img, 0, x, y, c);
    let row = window_row(img, 0, x, clamp_coord(y, img.height as int), c, 1);
    assert(window_rows(img, 0, x, y, c, 0) =~= Seq::<u16>::empty());
    assert(s =~= Seq::<u16>::empty() + row);
    assert(s =~= seq![img.sample(x, y, c)]);
    lemma_flat_window_median(s, 0, img.sample(x, y, c), m);
}

/// Every output sample of the median filter is a sample of the input window
/// around it, so the filter never invents a value.
pub proof fn lemma_median_output_in_window(img: Rgb16Image, kernel: u32, x: int, y: int, c: int, m: u16)
    requires
        is_kth_smallest(window(img, (kernel / 2) as int, x, y, c), median_rank((kernel / 2) as int), m),
    ensures
        window(img, (kernel / 2) as int, x, y, c).contains(m),
{
    lemma_kth_smallest_is_sample(window(img, (kernel / 2) as int, x, y, c), median_rank((kernel / 2) as int), m);
}

} // verus!
