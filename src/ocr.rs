use vstd::prelude::*;
use crate::pixels::PixelBuffer;
use vstd::relations::{sorted_by, total_ordering};
use vstd::seq_lib::group_to_multiset_ensures;

verus! {

/// A single-channel image, row by row, one byte per pixel.
#[derive(Clone, Debug)]
pub struct GrayBuffer {
    pub width: u32,
    pub height: u32,
    pub data: Vec<u8>,
}

impl GrayBuffer {
    pub open spec fn wf(&self) -> bool {
        self.data@.len() == self.width as int * self.height as int
    }
}

/// Largest image, in pixels, the threshold search accepts: its exact
/// comparison of variances stays within 128 bits.
pub const MAX_OCR_PIXELS: usize = 262144;

/// Luminance of a pixel with weights 0.299, 0.587 and 0.114, rounded down.
pub open spec fn luma(r: u8, g: u8, b: u8) -> int {
    (299 * r + 587 * g + 114 * b) / 1000
}

/// Luminance-weighted grayscale, which keeps text contrast better than a plain mean.
pub fn to_grayscale_enhanced(image: &PixelBuffer) -> (g: GrayBuffer)
    requires
        image.wf(),
    ensures
        g.wf(),
        g.width == image.width,
        g.height == image.height,
        forall|i: int|
            0 <= i < g.data@.len() ==> #[trigger] g.data@[i] == luma(
                image.red(i),
                image.green(i),
                image.blue(i),
            ),
{
    let total = image.len();
    let bytes = image.data.len();
    let mut out: Vec<u8> = Vec::new();
    let mut i: usize = 0;
    while i < total
        invariant
            image.wf(),
            total == image.pixel_count(),
            bytes == image.data@.len(),
            i <= total,
            out@.len() == i,
            forall|j: int|
                0 <= j < i ==> #[trigger] out@[j] == luma(image.red(j), image.green(j), image.blue(j)),
        decreases total - i,
    {
        let r = image.data[4 * i] as u32;
        let g = image.data[4 * i + 1] as u32;
        let b = image.data[4 * i + 2] as u32;
        let v = (299 * r + 587 * g + 114 * b) / 1000;
        out.push(v as u8);
        i = i + 1;
    }
    GrayBuffer { width: image.width, height: image.height, data: out }
}

/// Pixels above `threshold` become white (255), the others black (0).
pub fn binarize(gray: &GrayBuffer, threshold: u8) -> (b: GrayBuffer)
    requires
        gray.wf(),
    ensures
        b.wf(),
        b.width == gray.width,
        b.height == gray.height,
        b.data@.len() == gray.data@.len(),
        forall|i: int|
            0 <= i < b.data@.len() ==> #[trigger] b.data@[i] == if gray.data@[i] > threshold {
                255u8
            } else {
                0u8
            },
{
    let mut out: Vec<u8> = Vec::new();
    let mut i: usize = 0;
    while i < gray.data.len()
        invariant
            i <= gray.data@.len(),
            out@.len() == i,
            forall|j: int|
                0 <= j < i ==> #[trigger] out@[j] == if gray.data@[j] > threshold {
                    255u8
                } else {
                    0u8
                },
        decreases gray.data@.len() - i,
    {
        out.push(if gray.data[i] > threshold { 255 } else { 0 });
        i = i + 1;
    }
    GrayBuffer { width: gray.width, height: gray.height, data: out }
}

/// Number of entries of `g` at or below `t`.
pub open spec fn count_le(g: Seq<u8>, t: int) -> nat
    decreases g.len(),
{
    if g.len() == 0 {
        0
    } else {
        count_le(g.drop_last(), t) + if g.last() <= t {
            1nat
        } else {
            0nat
        }
    }
}

/// Sum of the entries of `g` at or below `t`.
pub open spec fn sum_le(g: Seq<u8>, t: int) -> nat
    decreases g.len(),
{
    if g.len() == 0 {
        0
    } else {
        sum_le(g.drop_last(), t) + if g.last() <= t {
            g.last() as nat
        } else {
            0nat
        }
    }
}

/// Numerator of the between-class variance of the split at `t`, scaled by
/// `n²`: `(sum_b·n − sum·w_b)²`; 0 when a class is empty.
pub open spec fn otsu_num(g: Seq<u8>, t: int) -> int {
    let n = g.len() as int;
    let wb = count_le(g, t) as int;
    if wb == 0 || n - wb <= 0 {
        0
    } else {
        let d = sum_le(g, t) * n - sum_le(g, 255) * wb;
        d * d
    }
}

/// Denominator of that variance: `w_b·w_f`; 1 when a class is empty.
pub open spec fn otsu_den(g: Seq<u8>, t: int) -> int {
    let n = g.len() as int;
    let wb = count_le(g, t) as int;
    if wb == 0 || n - wb <= 0 {
        1
    } else {
        wb * (n - wb)
    }
}

/// The first threshold below `k` whose variance `otsu_num / otsu_den` is the
/// highest and positive, with that variance as a numerator and denominator;
/// `(0, 0, 1)` when no variance is positive. Variances are compared exactly,
/// by cross-multiplication.
pub open spec fn otsu_best(g: Seq<u8>, k: int) -> (int, int, int)
    decreases k,
{
    if k <= 0 {
        (0, 0, 1)
    } else {
        let prev = otsu_best(g, k - 1);
        if otsu_num(g, k - 1) * prev.2 > prev.1 * otsu_den(g, k - 1) {
            (k - 1, otsu_num(g, k - 1), otsu_den(g, k - 1))
        } else {
            prev
        }
    }
}

proof fn lemma_otsu_terms(g: Seq<u8>, t: int)
    ensures
        otsu_num(g, t) >= 0,
        otsu_den(g, t) >= 1,
{
    let n = g.len() as int;
    let wb = count_le(g, t) as int;
    if !(wb == 0 || n - wb <= 0) {
        let d = sum_le(g, t) * n - sum_le(g, 255) * wb;
        assert(d * d >= 0) by (nonlinear_arith);
        assert(wb * (n - wb) >= 1) by (nonlinear_arith)
            requires
                wb >= 1,
                n - wb >= 1,
        ;
    }
}

/// The threshold chosen among the first `k` levels has the highest variance
/// of them all, compared exactly, and every lower level has a strictly
/// smaller one.
pub proof fn lemma_otsu_best_maximises(g: Seq<u8>, k: int)
    requires
        0 <= k,
    ensures
        otsu_best(g, k).1 >= 0,
        otsu_best(g, k).2 >= 1,
        0 <= otsu_best(g, k).0 <= if k > 0 { k - 1 } else { 0 },
        forall|t: int|
            0 <= t < k ==> #[trigger] otsu_num(g, t) * otsu_best(g, k).2 <= otsu_best(g, k).1
                * otsu_den(g, t),
        forall|t: int|
            0 <= t < otsu_best(g, k).0 ==> #[trigger] otsu_num(g, t) * otsu_best(g, k).2
                < otsu_best(g, k).1 * otsu_den(g, t),
    decreases k,
{
    if k > 0 {
        lemma_otsu_best_maximises(g, k - 1);
        let prev = otsu_best(g, k - 1);
        let nn = otsu_num(g, k - 1);
        let nd = otsu_den(g, k - 1);
        lemma_otsu_terms(g, k - 1);
        if nn * prev.2 > prev.1 * nd {
            assert forall|t: int| 0 <= t < k implies #[trigger] otsu_num(g, t) * nd <= nn
                * otsu_den(g, t) by {
                if t < k - 1 {
                    lemma_otsu_terms(g, t);
                    let a = otsu_num(g, t);
                    let b = otsu_den(g, t);
                    assert(a * nd < nn * b) by (nonlinear_arith)
                        requires
                            a * prev.2 <= prev.1 * b,
                            prev.1 * nd < nn * prev.2,
                            b >= 1,
                            nd >= 1,
                            prev.2 >= 1,
                    ;
                }
            }
            assert forall|t: int| 0 <= t < k - 1 implies #[trigger] otsu_num(g, t) * nd < nn
                * otsu_den(g, t) by {
                lemma_otsu_terms(g, t);
                let a = otsu_num(g, t);
                let b = otsu_den(g, t);
                assert(a * nd < nn * b) by (nonlinear_arith)
                    requires
                        a * prev.2 <= prev.1 * b,
                        prev.1 * nd < nn * prev.2,
                        b >= 1,
                        nd >= 1,
                        prev.2 >= 1,
                ;
            }
        }
    }
}

proof fn lemma_count_sum_bounds(g: Seq<u8>, t: int)
    ensures
        count_le(g, t) <= g.len(),
        sum_le(g, t) <= 255 * count_le(g, t),
        t >= 255 ==> count_le(g, t) == g.len(),
    decreases g.len(),
{
    if g.len() > 0 {
        lemma_count_sum_bounds(g.drop_last(), t);
    }
}

proof fn lemma_sum_le_monotone(g: Seq<u8>, t: int)
    ensures
        sum_le(g, t) <= sum_le(g, 255),
    decreases g.len(),
{
    if g.len() > 0 {
        lemma_sum_le_monotone(g.drop_last(), t);
    }
}

/// Count and sum of the entries at or below `t`.
fn class_below(g: &Vec<u8>, t: u8) -> (r: (u64, u64))
    requires
        g@.len() <= MAX_OCR_PIXELS,
    ensures
        r.0 == count_le(g@, t as int),
        r.1 == sum_le(g@, t as int),
{
    let mut w: u64 = 0;
    let mut s: u64 = 0;
    let mut i: usize = 0;
    while i < g.len()
        invariant
            g@.len() <= MAX_OCR_PIXELS,
            i <= g@.len(),
            w == count_le(g@.subrange(0, i as int), t as int),
            s == sum_le(g@.subrange(0, i as int), t as int),
        decreases g@.len() - i,
    {
        proof {
            let p = g@.subrange(0, i + 1);
            assert(p.drop_last() =~= g@.subrange(0, i as int));
            lemma_count_sum_bounds(g@.subrange(0, i as int), t as int);
        }
        if g[i] <= t {
            w = w + 1;
            s = s + g[i] as u64;
        }
        i = i + 1;
    }
    assert(g@.subrange(0, g@.len() as int) =~= g@);
    (w, s)
}

/// Otsu's threshold: the level that maximises the between-class variance of
/// the split into pixels at or below it and pixels above it.
pub fn calculate_otsu_threshold(gray: &GrayBuffer) -> (t: u8)
    requires
        gray.data@.len() <= MAX_OCR_PIXELS,
    ensures
        t == otsu_best(gray.data@, 256).0,
{
    let g = &gray.data;
    let n = g.len() as u64;
    let (_, total) = class_below(g, 255);
    proof {
        lemma_count_sum_bounds(g@, 255);
    }
    let mut best: u8 = 0;
    let mut best_num: u128 = 0;
    let mut best_den: u128 = 1;
    let mut t: u32 = 0;
    while t < 256
        invariant
            g == &gray.data,
            g@.len() <= MAX_OCR_PIXELS,
            n == g@.len(),
            total == sum_le(g@, 255),
            total <= 255 * n,
            t <= 256,
            best as int == otsu_best(g@, t as int).0,
            best_num as int == otsu_best(g@, t as int).1,
            best_den as int == otsu_best(g@, t as int).2,
            best_num <= 307071880548598680020582400,
            1 <= best_den <= 68719476736,
        decreases 256 - t,
    {
        let (wb, sb) = class_below(g, t as u8);
        proof {
            lemma_count_sum_bounds(g@, t as int);
            lemma_sum_le_monotone(g@, t as int);
        }
        let (num, den): (u128, u128) = if wb == 0 || wb >= n {
            (0, 1)
        } else {
            let wf = n - wb;
            assert(sb * n <= 17523466567680) by (nonlinear_arith)
                requires
                    sb <= 255 * wb,
                    wb <= n,
                    n <= 262144,
            ;
            assert(total * wb <= 17523466567680) by (nonlinear_arith)
                requires
                    total <= 255 * n,
                    wb <= n,
                    n <= 262144,
            ;
            let a: u128 = sb as u128 * n as u128;
            let b: u128 = total as u128 * wb as u128;
            let d: u128 = if a >= b {
                a - b
            } else {
                b - a
            };
            assert(d * d <= 307071880548598680020582400) by (nonlinear_arith)
                requires
                    d <= 17523466567680,
            ;
            assert(wb * wf <= 68719476736) by (nonlinear_arith)
                requires
                    wb <= n,
                    wf <= n,
                    n <= 262144,
            ;
            assert(wb * wf > 0) by (nonlinear_arith)
                requires
                    wb > 0,
                    wf > 0,
            ;
            proof {
                let di = sb * n - total * wb;
                assert(d * d == di * di) by (nonlinear_arith)
                    requires
                        d == if a >= b {
                            a - b
                        } else {
                            b - a
                        },
                        a == sb * n,
                        b == total * wb,
                        di == sb * n - total * wb,
                ;
            }
            (d * d, wb as u128 * wf as u128)
        };
        assert(num == otsu_num(g@, t as int) && den == otsu_den(g@, t as int));
        assert(num * best_den <= 21101818951639197909074720237971046400) by (nonlinear_arith)
            requires
                num <= 307071880548598680020582400,
                best_den <= 68719476736,
        ;
        assert(best_num * den <= 21101818951639197909074720237971046400) by (nonlinear_arith)
            requires
                best_num <= 307071880548598680020582400,
                den <= 68719476736,
        ;
        if num * best_den > best_num * den {
            best = t as u8;
            best_num = num;
            best_den = den;
        }
        t = t + 1;
    }
    best
}

/// `a <= b` on bytes.
pub open spec fn byte_leq() -> spec_fn(u8, u8) -> bool {
    |a: u8, b: u8| a <= b
}

/// The middle value of a 3×3 window.
pub open spec fn median9(s: Seq<u8>) -> u8 {
    s.sort_by(byte_leq())[4]
}

/// `v` clamped to `0..len`.
pub open spec fn clamp_index(v: int, len: int) -> int {
    if v < 0 {
        0
    } else if v >= len {
        len - 1
    } else {
        v
    }
}

/// The 3×3 window around `(x, y)` of a `w`×`h` grid, row by row, with
/// coordinates clamped to the grid.
pub open spec fn window_of(w: int, h: int, d: Seq<u8>, x: int, y: int) -> Seq<u8> {
    Seq::new(9, |k: int| d[clamp_index(y + k / 3 - 1, h) * w + clamp_index(x + k % 3 - 1, w)])
}

/// The 3×3 window around `(x, y)` of `g`.
pub open spec fn window(g: &GrayBuffer, x: int, y: int) -> Seq<u8> {
    window_of(g.width as int, g.height as int, g.data@, x, y)
}

/// Grayscale of an RGBA buffer.
pub open spec fn gray_seq(img: &PixelBuffer) -> Seq<u8> {
    Seq::new(
        img.pixel_count() as nat,
        |i: int| luma(img.red(i), img.green(i), img.blue(i)) as u8,
    )
}

/// Median-filtered copy of a `w`-wide grid.
pub open spec fn median_seq(w: int, h: int, d: Seq<u8>) -> Seq<u8> {
    Seq::new(d.len(), |i: int| median9(window_of(w, h, d, i % w, i / w)))
}

/// Black and white copy of `d` split at `t`.
pub open spec fn binary_seq(d: Seq<u8>, t: u8) -> Seq<u8> {
    Seq::new(d.len(), |i: int| if d[i] > t { 255u8 } else { 0u8 })
}

/// What is handed to text recognition for `img`: grayscale, median filter,
/// then a split at the Otsu threshold of the filtered image.
pub open spec fn ocr_input(img: &PixelBuffer) -> Seq<u8> {
    let w = img.width as int;
    let h = img.height as int;
    let m = median_seq(w, h, gray_seq(img));
    binary_seq(m, otsu_best(m, 256).0 as u8)
}

proof fn lemma_byte_leq_total()
    ensures
        total_ordering(byte_leq()),
{
}

/// Sorts a few bytes by insertion.
fn sort_bytes(v: &Vec<u8>) -> (r: Vec<u8>)
    ensures
        sorted_by(r@, byte_leq()),
        r@.to_multiset() == v@.to_multiset(),
{
    broadcast use group_to_multiset_ensures;

    let mut out: Vec<u8> = Vec::new();
    let mut i: usize = 0;
    while i < v.len()
        invariant
            i <= v@.len(),
            sorted_by(out@, byte_leq()),
            out@.to_multiset() == v@.subrange(0, i as int).to_multiset(),
        decreases v@.len() - i,
    {
        let x = v[i];
        let mut p: usize = 0;
        while p < out.len() && out[p] <= x
            invariant
                p <= out@.len(),
                forall|j: int| 0 <= j < p ==> out@[j] <= x,
                i < v@.len(),
                x == v@[i as int],
                sorted_by(out@, byte_leq()),
                out@.to_multiset() == v@.subrange(0, i as int).to_multiset(),
            decreases out@.len() - p,
        {
            p = p + 1;
        }
        let ghost before = out@;
        out.insert(p, x);
        proof {
            assert(p < before.len() ==> before[p as int] > x);
            assert forall|a: int, b: int| 0 <= a < b < out@.len() implies #[trigger] byte_leq()(
                out@[a],
                out@[b],
            ) by {
                if b < p {
                    assert(byte_leq()(before[a], before[b]));
                } else if b == p {
                    assert(out@[a] == before[a]);
                } else if a < p {
                    assert(out@[b] == before[b - 1]);
                    assert(before[a] <= x);
                    assert(p < before.len());
                    assert(byte_leq()(before[p as int], before[b - 1]) || p == b - 1);
                } else if a == p {
                    assert(out@[b] == before[b - 1]);
                    assert(byte_leq()(before[p as int], before[b - 1]) || p == b - 1);
                } else {
                    assert(byte_leq()(before[a - 1], before[b - 1]));
                }
            }
            assert(v@.subrange(0, i + 1) =~= v@.subrange(0, i as int).push(x));
            assert(out@ == before.insert(p as int, x));
            vstd::seq_lib::to_multiset_insert(before, p as int, x);
            vstd::seq_lib::to_multiset_build(v@.subrange(0, i as int), x);
            assert(out@.to_multiset() == before.to_multiset().insert(x));
            assert(v@.subrange(0, i + 1).to_multiset() == v@.subrange(0, i as int).to_multiset().insert(
                x,
            ));
        }
        i = i + 1;
    }
    assert(v@.subrange(0, v@.len() as int) =~= v@);
    out
}

/// The median of nine values.
fn median_of(v: &Vec<u8>) -> (m: u8)
    requires
        v@.len() == 9,
    ensures
        m == median9(v@),
{
    broadcast use group_to_multiset_ensures;

    let sorted = sort_bytes(v);
    assert(sorted@.len() == 9) by {
        assert(sorted@.to_multiset().len() == v@.to_multiset().len());
    }
    proof {
        lemma_byte_leq_total();
        v@.lemma_sort_by_ensures(byte_leq());
        vstd::seq_lib::lemma_sorted_unique(sorted@, v@.sort_by(byte_leq()), byte_leq());
        sorted@.to_multiset_ensures();
    }
    sorted[4]
}

/// 3×3 median filter with edges clamped, which removes isolated specks.
pub fn noise_reduction(gray: &GrayBuffer) -> (r: GrayBuffer)
    requires
        gray.wf(),
    ensures
        r.wf(),
        r.width == gray.width,
        r.height == gray.height,
        forall|i: int|
            0 <= i < r.data@.len() ==> #[trigger] r.data@[i] == median9(
                window(gray, i % gray.width as int, i / gray.width as int),
            ),
{
    let w = gray.width as usize;
    let h = gray.height as usize;
    let n = gray.data.len();
    let mut out: Vec<u8> = Vec::new();
    let mut i: usize = 0;
    while i < n
        invariant
            gray.wf(),
            w == gray.width,
            h == gray.height,
            n == gray.data@.len(),
            n == w * h,
            i <= n,
            out@.len() == i,
            forall|j: int|
                0 <= j < i ==> #[trigger] out@[j] == median9(
                    window(gray, j % gray.width as int, j / gray.width as int),
                ),
        decreases n - i,
    {
        assert(w > 0 && h > 0) by (nonlinear_arith)
            requires
                i < n,
                n == w * h,
        ;
        let x = i % w;
        let y = i / w;
        assert(y < h) by (nonlinear_arith)
            requires
                y == i / w,
                i < w * h,
                w > 0,
        ;
        let mut win: Vec<u8> = Vec::new();
        let mut k: usize = 0;
        while k < 9
            invariant
                gray.wf(),
                w == gray.width,
                h == gray.height,
                n == gray.data@.len(),
                n == w * h,
                w > 0,
                h > 0,
                x < w,
                y < h,
                k <= 9,
                win@.len() == k,
                forall|j: int| 0 <= j < k ==> #[trigger] win@[j] == window(gray, x as int, y as int)[j],
            decreases 9 - k,
        {
            let yy = y as i64 + (k / 3) as i64 - 1;
            let xx = x as i64 + (k % 3) as i64 - 1;
            let cy: usize = if yy < 0 {
                0
            } else if yy >= h as i64 {
                h - 1
            } else {
                yy as usize
            };
            let cx: usize = if xx < 0 {
                0
            } else if xx >= w as i64 {
                w - 1
            } else {
                xx as usize
            };
            assert(cy * w + cx < w * h) by (nonlinear_arith)
                requires
                    cy < h,
                    cx < w,
            ;
            win.push(gray.data[cy * w + cx]);
            k = k + 1;
        }
        assert(win@ =~= window(gray, x as int, y as int));
        out.push(median_of(&win));
        i = i + 1;
    }
    GrayBuffer { width: gray.width, height: gray.height, data: out }
}

/// Full preprocessing ahead of text recognition.
pub fn preprocess_hunger_image(image: &PixelBuffer) -> (r: GrayBuffer)
    requires
        image.wf(),
        image.pixel_count() <= MAX_OCR_PIXELS,
    ensures
        r.wf(),
        r.width == image.width,
        r.height == image.height,
        r.data@ == ocr_input(image),
{
    let gray = to_grayscale_enhanced(image);
    assert(gray.data@ =~= gray_seq(image));
    let denoised = noise_reduction(&gray);
    assert(denoised.data@ =~= median_seq(
        image.width as int,
        image.height as int,
        gray_seq(image),
    ));
    let threshold = calculate_otsu_threshold(&denoised);
    let binary = binarize(&denoised, threshold);
    assert(binary.data@ =~= ocr_input(image));
    binary
}

/// Lifetime of a cached hunger reading.
pub const OCR_TTL_MS: u64 = 2000;

/// Age past which a cached reading is dropped at the next store.
pub const OCR_RETENTION_MS: u64 = 10000;

/// Bytes of the pixel sample that identifies an image (its first ten pixels).
pub const FINGERPRINT_BYTES: usize = 40;

/// The sample of `img` that keys the reading cache.
pub open spec fn fingerprint_of(img: &PixelBuffer) -> Seq<u8> {
    if img.data@.len() <= FINGERPRINT_BYTES {
        img.data@
    } else {
        img.data@.take(FINGERPRINT_BYTES as int)
    }
}

/// A reading taken at `at_ms` for images with sample `key`.
#[derive(Debug)]
pub struct OcrEntry {
    pub key: Vec<u8>,
    pub reading: Option<u32>,
    pub at_ms: u64,
}

/// The first entry of `c` from `i` on keyed `key`, answered if younger than the TTL at `now`.
pub open spec fn first_reading(c: Seq<OcrEntry>, key: Seq<u8>, now: u64, i: int) -> Option<
    Option<u32>,
>
    decreases c.len() - i,
{
    if i < 0 || i >= c.len() {
        None
    } else if c[i].key@ == key {
        if crate::phase::elapsed(c[i].at_ms, now) < OCR_TTL_MS {
            Some(c[i].reading)
        } else {
            None
        }
    } else {
        first_reading(c, key, now, i + 1)
    }
}

/// Hunger readings memoised by a cheap fingerprint of the captured gauge.
pub struct EnhancedOCRHandler {
    pub cache: Vec<OcrEntry>,
}

/// No two entries of `c` share a fingerprint.
pub open spec fn unique_keys(c: Seq<OcrEntry>) -> bool {
    forall|i: int, j: int|
        0 <= i < c.len() && 0 <= j < c.len() && i != j ==> (#[trigger] c[i]).key@ != (
        #[trigger] c[j]).key@
}

fn same_bytes(a: &Vec<u8>, b: &Vec<u8>) -> (r: bool)
    ensures
        r == (a@ == b@),
{
    if a.len() != b.len() {
        return false;
    }
    let mut i: usize = 0;
    while i < a.len()
        invariant
            a@.len() == b@.len(),
            i <= a@.len(),
            forall|j: int| 0 <= j < i ==> a@[j] == b@[j],
        decreases a@.len() - i,
    {
        if a[i] != b[i] {
            return false;
        }
        i = i + 1;
    }
    assert(a@ =~= b@);
    true
}

/// The pixel sample that identifies `image` in the reading cache.
pub fn fingerprint(image: &PixelBuffer) -> (r: Vec<u8>)
    ensures
        r@ == fingerprint_of(image),
{
    let n = if image.data.len() <= FINGERPRINT_BYTES {
        image.data.len()
    } else {
        FINGERPRINT_BYTES
    };
    let mut r: Vec<u8> = Vec::new();
    let mut i: usize = 0;
    while i < n
        invariant
            n <= image.data@.len(),
            n == if image.data@.len() <= FINGERPRINT_BYTES {
                image.data@.len()
            } else {
                FINGERPRINT_BYTES as nat
            },
            i <= n,
            r@ == image.data@.take(i as int),
        decreases n - i,
    {
        r.push(image.data[i]);
        i = i + 1;
        assert(r@ =~= image.data@.take(i as int));
    }
    assert(image.data@.len() <= FINGERPRINT_BYTES ==> image.data@.take(n as int) =~= image.data@);
    r
}

impl EnhancedOCRHandler {
    /// One cached reading per fingerprint.
    pub open spec fn wf(&self) -> bool {
        unique_keys(self.cache@)
    }

    pub fn new() -> (h: EnhancedOCRHandler)
        ensures
            h.wf(),
            h.cache@.len() == 0,
    {
        EnhancedOCRHandler { cache: Vec::new() }
    }

    /// The reading cached for an image like `image` less than two seconds before `now`.
    pub fn cached_reading(&self, image: &PixelBuffer, now: u64) -> (r: Option<Option<u32>>)
        ensures
            r == first_reading(self.cache@, fingerprint_of(image), now, 0),
    {
        let key = fingerprint(image);
        let mut i: usize = 0;
        while i < self.cache.len()
            invariant
                i <= self.cache@.len(),
                key@ == fingerprint_of(image),
                first_reading(self.cache@, key@, now, 0) == first_reading(
                    self.cache@,
                    key@,
                    now,
                    i as int,
                ),
            decreases self.cache@.len() - i,
        {
            let e = &self.cache[i];
            if same_bytes(&e.key, &key) {
                let age = if now >= e.at_ms {
                    now - e.at_ms
                } else {
                    0
                };
                return if age < OCR_TTL_MS {
                    Some(e.reading)
                } else {
                    None
                };
            }
            i = i + 1;
        }
        None
    }

    /// Caches `reading` for images like `image`, taken at `now`; drops the
    /// previous reading for them and readings older than ten seconds.
    pub fn record_reading(&mut self, image: &PixelBuffer, reading: Option<u32>, now: u64)
        requires
            old(self).wf(),
        ensures
            final(self).wf(),
            final(self).cache@.len() > 0,
            final(self).cache@.last().key@ == fingerprint_of(image),
            final(self).cache@.last().reading == reading,
            final(self).cache@.last().at_ms == now,
            forall|j: int|
                0 <= j < final(self).cache@.len() - 1 ==> old(self).cache@.contains(
                    #[trigger] final(self).cache@[j],
                ) && final(self).cache@[j].key@ != fingerprint_of(image)
                    && crate::phase::elapsed(final(self).cache@[j].at_ms, now) < OCR_RETENTION_MS,
            forall|j: int|
                0 <= j < old(self).cache@.len() && (#[trigger] old(self).cache@[j]).key@
                    != fingerprint_of(image) && crate::phase::elapsed(
                    old(self).cache@[j].at_ms,
                    now,
                ) < OCR_RETENTION_MS ==> final(self).cache@.contains(old(self).cache@[j]),
    {
        let key = fingerprint(image);
        let mut old_entries: Vec<OcrEntry> = Vec::new();
        std::mem::swap(&mut old_entries, &mut self.cache);
        let ghost src = old_entries@;
        let mut kept: Vec<OcrEntry> = Vec::new();
        while old_entries.len() > 0
            invariant
                src == old(self).cache@,
                key@ == fingerprint_of(image),
                old_entries@ == src.subrange(0, old_entries@.len() as int),
                old_entries@.len() <= src.len(),
                forall|j: int|
                    0 <= j < kept@.len() ==> src.contains(#[trigger] kept@[j]) && kept@[j].key@
                        != key@ && crate::phase::elapsed(kept@[j].at_ms, now) < OCR_RETENTION_MS,
                forall|j: int|
                    old_entries@.len() <= j < src.len() && (#[trigger] src[j]).key@ != key@
                        && crate::phase::elapsed(src[j].at_ms, now) < OCR_RETENTION_MS
                        ==> kept@.contains(src[j]),
                unique_keys(src),
                unique_keys(kept@),
                forall|j: int|
                    #![trigger kept@[j]]
                    0 <= j < kept@.len() ==> exists|m: int|
                        old_entries@.len() <= m < src.len() && #[trigger] src[m] == kept@[j],
            decreases old_entries@.len(),
        {
            let ghost n = old_entries@.len() as int;
            let e = old_entries.pop().unwrap();
            assert(e == src[n - 1]);
            let age = if now >= e.at_ms {
                now - e.at_ms
            } else {
                0
            };
            let ghost before = kept@;
            if !same_bytes(&e.key, &key) && age < OCR_RETENTION_MS {
                proof {
                    assert forall|j: int| 0 <= j < before.len() implies (
                    #[trigger] before[j]).key@ != e.key@ by {
                        let m = choose|m: int| n <= m < src.len() && #[trigger] src[m] == before[j];
                        assert(src[m] == before[j]);
                        assert(m != n - 1);
                    }
                }
                kept.push(e);
                proof {
                    assert forall|j: int|
                        #![trigger kept@[j]]
                        0 <= j < kept@.len() implies exists|m: int|
                        n - 1 <= m < src.len() && #[trigger] src[m] == kept@[j] by {
                        if j < before.len() {
                            assert(kept@[j] == before[j]);
                            let m = choose|m: int| n <= m < src.len() && #[trigger] src[m] == before[j];
                            assert(src[m] == kept@[j]);
                        } else {
                            assert(src[n - 1] == kept@[j]);
                        }
                    }
                    assert forall|a: int, b: int|
                        0 <= a < kept@.len() && 0 <= b < kept@.len() && a != b implies (
                        #[trigger] kept@[a]).key@ != (#[trigger] kept@[b]).key@ by {
                        if a < before.len() && b < before.len() {
                            assert(before[a].key@ != before[b].key@);
                        } else if a < before.len() {
                            assert(kept@[a] == before[a]);
                        } else {
                            assert(kept@[b] == before[b]);
                        }
                    }
                    assert forall|j: int|
                        n - 1 <= j < src.len() && (#[trigger] src[j]).key@ != key@
                            && crate::phase::elapsed(src[j].at_ms, now) < OCR_RETENTION_MS implies kept@.contains(
                        src[j],
                    ) by {
                        if j == n - 1 {
                            assert(kept@[before.len() as int] == src[j]);
                        } else {
                            let k = choose|k: int| 0 <= k < before.len() && before[k] == src[j];
                            assert(kept@[k] == src[j]);
                        }
                    }
                    assert forall|j: int| 0 <= j < kept@.len() implies src.contains(
                        #[trigger] kept@[j],
                    ) && kept@[j].key@ != key@ && crate::phase::elapsed(kept@[j].at_ms, now)
                        < OCR_RETENTION_MS by {
                        if j < before.len() {
                            assert(kept@[j] == before[j]);
                        } else {
                            assert(kept@[j] == src[n - 1]);
                        }
                    }
                }
            }
        }
        assert(src.subrange(0, src.len() as int) =~= src);
        let ghost before = kept@;
        kept.push(OcrEntry { key, reading, at_ms: now });
        proof {
            assert forall|a: int, b: int|
                0 <= a < kept@.len() && 0 <= b < kept@.len() && a != b implies (
                #[trigger] kept@[a]).key@ != (#[trigger] kept@[b]).key@ by {
                if a < before.len() && b < before.len() {
                    assert(before[a].key@ != before[b].key@);
                } else if a < before.len() {
                    assert(kept@[a] == before[a]);
                } else {
                    assert(kept@[b] == before[b]);
                }
            }
            assert forall|j: int| 0 <= j < kept@.len() - 1 implies old(self).cache@.contains(
                #[trigger] kept@[j],
            ) by {
                assert(kept@[j] == before[j]);
            }
            assert forall|j: int|
                0 <= j < old(self).cache@.len() && (#[trigger] old(self).cache@[j]).key@
                    != fingerprint_of(image) && crate::phase::elapsed(
                    old(self).cache@[j].at_ms,
                    now,
                ) < OCR_RETENTION_MS implies kept@.contains(old(self).cache@[j]) by {
                let k = choose|k: int| 0 <= k < before.len() && before[k] == src[j];
                assert(kept@[k] == src[j]);
            }
        }
        self.cache = kept;
    }
}

} // verus!
