use vstd::prelude::*;
use vstd::arithmetic::div_mod::lemma_fundamental_div_mod_converse;

verus! {

/// The size of an image and the number of samples traced for each pixel.
///
/// Pixels are produced row by row, top row first, left to right within a row.
/// Each sample of each pixel owns two uniform draws, its horizontal and
/// vertical jitter, taken from one table that holds them all in render order.
#[derive(Clone, Copy, Debug, PartialEq, Eq, Structural)]
pub struct ImageLayout {
    pub width: usize,
    pub height: usize,
    pub samples_per_pixel: usize,
}

impl ImageLayout {
    /// The counts of pixels and of jitter draws fit in a `usize`.
    pub open spec fn wf(&self) -> bool {
        &&& self.width * self.height <= usize::MAX
        &&& 2 * (self.width * self.height * self.samples_per_pixel) <= usize::MAX
    }

    /// The number of the sample `s` of pixel `(x, y)` in render order.
    pub open spec fn sample_number(&self, x: int, y: int, s: int) -> int {
        (y * self.width + x) * self.samples_per_pixel + s
    }

    /// `p` is the pixel at place `k` of the render order.
    pub open spec fn is_pixel_at(&self, k: int, p: (usize, usize)) -> bool {
        p.0 == k % (self.width as int) && p.1 == k / (self.width as int)
    }

    /// A sample of a pixel of the image.
    pub open spec fn is_sample(&self, x: int, y: int, s: int) -> bool {
        0 <= x < self.width && 0 <= y < self.height && 0 <= s < self.samples_per_pixel
    }

    /// A layout of the given size, or `None` when its pixels or its jitter
    /// draws are too many to count in a `usize`.
    pub fn new(width: usize, height: usize, samples_per_pixel: usize) -> (r: Option<ImageLayout>)
        ensures
            r is Some <==> (ImageLayout { width, height, samples_per_pixel }).wf(),
            r matches Some(l) ==> l == (ImageLayout { width, height, samples_per_pixel }),
    {
        let l = ImageLayout { width, height, samples_per_pixel };
        let pixels = match width.checked_mul(height) {
            Some(p) => p,
            None => return None,
        };
        let samples = match pixels.checked_mul(samples_per_pixel) {
            Some(n) => n,
            None => return None,
        };
        match samples.checked_mul(2) {
            Some(_) => Some(l),
            None => None,
        }
    }

    /// The number of pixels of the image, each one line of its text.
    pub fn pixel_count(&self) -> (r: usize)
        requires
            self.wf(),
        ensures
            r == self.width * self.height,
    {
        self.width * self.height
    }

    /// The number of uniform draws that the jitter of all samples takes.
    pub fn jitter_count(&self) -> (r: usize)
        requires
            self.wf(),
        ensures
            r == 2 * (self.width * self.height * self.samples_per_pixel),
    {
        2 * (self.width * self.height * self.samples_per_pixel)
    }

    /// The number of sample `s` of pixel `(x, y)` in render order.
    pub fn sample_index(&self, x: usize, y: usize, s: usize) -> (r: usize)
        requires
            self.wf(),
            self.is_sample(x as int, y as int, s as int),
        ensures
            r == self.sample_number(x as int, y as int, s as int),
            r < self.width * self.height * self.samples_per_pixel,
    {
        proof {
            lemma_sample_number_bound(self.width as int, self.height as int, self.samples_per_pixel as int, x as int, y as int, s as int);
        }
        y * (self.width * self.samples_per_pixel) + x * self.samples_per_pixel + s
    }

    /// The places in the jitter table of the horizontal and the vertical
    /// draw of sample `s` of pixel `(x, y)`.
    pub fn jitter_slots(&self, x: usize, y: usize, s: usize) -> (r: (usize, usize))
        requires
            self.wf(),
            self.is_sample(x as int, y as int, s as int),
        ensures
            r.0 == 2 * self.sample_number(x as int, y as int, s as int),
            r.1 == r.0 + 1,
            r.1 < 2 * (self.width * self.height * self.samples_per_pixel),
    {
        let i = self.sample_index(x, y, s);
        (2 * i, 2 * i + 1)
    }

    /// The pixels in the order they are rendered and written: row by row from
    /// the top, left to right, as `(x, y)` with `y` counted from the top.
    pub fn pixel_order(&self) -> (r: Vec<(usize, usize)>)
        requires
            self.wf(),
        ensures
            r@.len() == self.width * self.height,
            forall|k: int| 0 <= k < r@.len() ==> self.is_pixel_at(k, #[trigger] r@[k]),
    {
        let mut r: Vec<(usize, usize)> = Vec::new();
        let mut y: usize = 0;
        while y < self.height
            invariant
                self.wf(),
                y <= self.height,
                r@.len() == y * self.width,
                forall|k: int| 0 <= k < r@.len() ==> self.is_pixel_at(k, #[trigger] r@[k]),
            decreases self.height - y,
        {
            let mut x: usize = 0;
            while x < self.width
                invariant
                    self.wf(),
                    y < self.height,
                    x <= self.width,
                    r@.len() == y * self.width + x,
                    forall|k: int| 0 <= k < r@.len() ==> self.is_pixel_at(k, #[trigger] r@[k]),
                decreases self.width - x,
            {
                proof {
                    lemma_fundamental_div_mod_converse(
                        y * self.width + x,
                        self.width as int,
                        y as int,
                        x as int,
                    );
                }
                r.push((x, y));
                x = x + 1;
            }
            proof {
                assert((y + 1) * self.width == y * self.width + self.width) by (nonlinear_arith);
            }
            y = y + 1;
        }
        proof {
            assert(y * self.width == self.width * self.height) by (nonlinear_arith)
                requires
                    y == self.height,
            ;
        }
        r
    }
}

/// Two different samples of an image never share a jitter draw: each owns
/// its own pair of places in the table.
pub proof fn lemma_samples_own_distinct_draws(
    l: ImageLayout,
    x1: int,
    y1: int,
    s1: int,
    x2: int,
    y2: int,
    s2: int,
)
    requires
        l.is_sample(x1, y1, s1),
        l.is_sample(x2, y2, s2),
        (x1, y1, s1) != (x2, y2, s2),
    ensures
        l.sample_number(x1, y1, s1) != l.sample_number(x2, y2, s2),
        ({
            let a = 2 * l.sample_number(x1, y1, s1);
            let b = 2 * l.sample_number(x2, y2, s2);
            a != b && a != b + 1 && a + 1 != b
        }),
{
    let w = l.width as int;
    let n = l.samples_per_pixel as int;
    let p1 = y1 * w + x1;
    let p2 = y2 * w + x2;
    if l.sample_number(x1, y1, s1) == l.sample_number(x2, y2, s2) {
        let k = l.sample_number(x1, y1, s1);
        lemma_fundamental_div_mod_converse(k, n, p1, s1);
        lemma_fundamental_div_mod_converse(k, n, p2, s2);
        lemma_fundamental_div_mod_converse(p1, w, y1, x1);
        lemma_fundamental_div_mod_converse(p2, w, y2, x2);
    }
}

/// The sum `y * (w * n) + x * n + s` is the sample number, and it
/// lies below the number of samples.
proof fn lemma_sample_number_bound(w: int, h: int, n: int, x: int, y: int, s: int)
    requires
        0 <= x < w,
        0 <= y < h,
        0 <= s < n,
    ensures
        0 <= x * n <= w * n,
        0 <= y * (w * n) <= w * h * n,
        0 <= w * n <= w * h * n,
        y * (w * n) + x * n + s == (y * w + x) * n + s,
        (y * w + x) * n + s < w * h * n,
{
    assert(0 <= x * n <= w * n) by (nonlinear_arith)
        requires
            0 <= x < w,
            0 <= n,
    ;
    assert(0 <= y * (w * n) <= w * h * n) by (nonlinear_arith)
        requires
            0 <= y < h,
            0 <= w,
            0 <= n,
    ;
    assert(0 <= w * n <= w * h * n) by (nonlinear_arith)
        requires
            1 <= h,
            0 <= w,
            0 <= n,
    ;
    assert(y * (w * n) + x * n + s == (y * w + x) * n + s) by (nonlinear_arith);
    assert(y * w + x + 1 <= w * h) by (nonlinear_arith)
        requires
            0 <= x < w,
            0 <= y < h,
    ;
    assert((y * w + x) * n + s < (y * w + x + 1) * n) by (nonlinear_arith)
        requires
            0 <= s < n,
    ;
    assert((y * w + x + 1) * n <= w * h * n) by (nonlinear_arith)
        requires
            y * w + x + 1 <= w * h,
            0 <= n,
    ;
}

} // verus!
