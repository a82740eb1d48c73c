use vstd::prelude::*;
use crate::color::Color;
use crate::pixels::PixelBuffer;

verus! {

/// Pixel `i` lies within Manhattan distance `3 * tolerance` of `target`.
pub open spec fn basic_match(img: &PixelBuffer, i: int, target: Color, tolerance: u8) -> bool {
    target.manhattan(img.red(i), img.green(i), img.blue(i)) <= 3 * tolerance
}

/// Number of basic matches among the first `k` pixels.
pub open spec fn basic_count(img: &PixelBuffer, k: int, target: Color, tolerance: u8) -> nat
    decreases k,
{
    if k <= 0 {
        0
    } else {
        basic_count(img, k - 1, target, tolerance) + if basic_match(img, k - 1, target, tolerance) {
            1nat
        } else {
            0nat
        }
    }
}

/// Some pixel of the buffer is a basic match.
pub open spec fn basic_detects(img: &PixelBuffer, target: Color, tolerance: u8) -> bool {
    exists|i: int| 0 <= i < img.pixel_count() && #[trigger] basic_match(img, i, target, tolerance)
}

/// Number of pixels whose Manhattan distance to `target` is at most `3 * tolerance`.
pub fn count_matching_pixels(image: &PixelBuffer, target: &Color, tolerance: u8) -> (n: usize)
    requires
        image.wf(),
    ensures
        n == basic_count(image, image.pixel_count(), *target, tolerance),
{
    let max_distance: u32 = tolerance as u32 * 3;
    let total = image.len();
    let bytes = image.data.len();
    let mut n: usize = 0;
    let mut i: usize = 0;
    while i < total
        invariant
            image.wf(),
            total == image.pixel_count(),
            bytes == image.data@.len(),
            i <= total,
            n == basic_count(image, i as int, *target, tolerance),
            n <= i,
            max_distance == 3 * tolerance,
        decreases total - i,
    {
        let d = target.distance_rgb(image.data[4 * i], image.data[4 * i + 1], image.data[4 * i + 2]);
        if d <= max_distance {
            n = n + 1;
        }
        i = i + 1;
    }
    n
}

/// Basic policy: the buffer holds at least one pixel within Manhattan distance
/// `3 * tolerance` of `target`.
pub fn basic_color_detection(image: &PixelBuffer, target: &Color, tolerance: u8) -> (r: bool)
    requires
        image.wf(),
    ensures
        r == basic_detects(image, *target, tolerance),
{
    let max_distance: u32 = tolerance as u32 * 3;
    let total = image.len();
    let bytes = image.data.len();
    let mut i: usize = 0;
    while i < total
        invariant
            image.wf(),
            total == image.pixel_count(),
            bytes == image.data@.len(),
            i <= total,
            max_distance == 3 * tolerance,
            forall|j: int| 0 <= j < i ==> !#[trigger] basic_match(image, j, *target, tolerance),
        decreases total - i,
    {
        let d = target.distance_rgb(image.data[4 * i], image.data[4 * i + 1], image.data[4 * i + 2]);
        if d <= max_distance {
            assert(basic_match(image, i as int, *target, tolerance));
            return true;
        }
        i = i + 1;
    }
    false
}

} // verus!

verus! {

/// Tuning of the clustering policy.
#[derive(Clone, Copy, Debug, PartialEq, Eq, Structural)]
pub struct ClusterParams {
    /// Chebyshev radius, in pixels, of the neighbourhood of a match.
    pub radius: u32,
    /// Matches (the pixel itself included) a neighbourhood must hold for the pixel to be dense.
    pub min_neighbors: u32,
    /// Distinct clusters needed before the region counts as detected.
    pub min_clusters: u32,
}

/// Neighbourhood radius used unless configured otherwise.
pub const CLUSTER_RADIUS: u32 = 5;

/// Neighbourhood population used unless configured otherwise.
pub const CLUSTER_MIN_NEIGHBORS: u32 = 3;

/// Number of dense matches used unless configured otherwise.
pub const CLUSTER_MIN_COUNT: u32 = 2;

impl ClusterParams {
    pub open spec fn standard_spec() -> ClusterParams {
        ClusterParams {
            radius: CLUSTER_RADIUS,
            min_neighbors: CLUSTER_MIN_NEIGHBORS,
            min_clusters: CLUSTER_MIN_COUNT,
        }
    }

    /// The usual tuning: radius 5, three matches per neighbourhood, two dense matches.
    pub fn standard() -> (p: ClusterParams)
        ensures
            p == Self::standard_spec(),
    {
        ClusterParams {
            radius: CLUSTER_RADIUS,
            min_neighbors: CLUSTER_MIN_NEIGHBORS,
            min_clusters: CLUSTER_MIN_COUNT,
        }
    }
}

pub open spec fn abs_int(v: int) -> int {
    if v >= 0 {
        v
    } else {
        -v
    }
}

/// Pixel `i` lies within squared Euclidean distance `(3 * tolerance)²` of `target`.
pub open spec fn advanced_match(img: &PixelBuffer, i: int, target: Color, tolerance: u8) -> bool {
    target.euclid_sq(img.red(i), img.green(i), img.blue(i)) <= (3 * tolerance) * (3 * tolerance)
}

/// Indices of the advanced matches among the first `k` pixels, in scan order.
pub open spec fn match_indices(img: &PixelBuffer, k: int, target: Color, tolerance: u8) -> Seq<
    usize,
>
    decreases k,
{
    if k <= 0 {
        Seq::empty()
    } else if advanced_match(img, k - 1, target, tolerance) {
        match_indices(img, k - 1, target, tolerance).push((k - 1) as usize)
    } else {
        match_indices(img, k - 1, target, tolerance)
    }
}

/// Pixels `a` and `b` of a grid `w` pixels wide are within Chebyshev distance `radius`.
pub open spec fn near(w: int, a: int, b: int, radius: int) -> bool {
    abs_int(a % w - b % w) <= radius && abs_int(a / w - b / w) <= radius
}

/// Number of entries among the first `k` of `ms` that lie near pixel `p`.
pub open spec fn nearby_count(ms: Seq<usize>, k: int, p: int, w: int, radius: int) -> nat
    decreases k,
{
    if k <= 0 {
        0
    } else {
        nearby_count(ms, k - 1, p, w, radius) + if near(w, p, ms[k - 1] as int, radius) {
            1nat
        } else {
            0nat
        }
    }
}

/// Entry `j` of `ms` has at least `min_neighbors` entries of `ms` near it.
pub open spec fn is_dense(ms: Seq<usize>, j: int, w: int, params: ClusterParams) -> bool {
    nearby_count(ms, ms.len() as int, ms[j] as int, w, params.radius as int)
        >= params.min_neighbors
}

/// Some entry among the first `k` of `reps` lies near pixel `p`.
pub open spec fn near_any(reps: Seq<usize>, k: int, p: int, w: int, radius: int) -> bool
    decreases k,
{
    if k <= 0 {
        false
    } else {
        near_any(reps, k - 1, p, w, radius) || near(w, p, reps[k - 1] as int, radius)
    }
}

/// One representative per cluster among the first `k` entries of `ms`, in
/// scan order: a dense entry that lies farther than `radius` from every
/// earlier representative starts a new cluster; other dense entries belong
/// to the cluster of a representative near them.
pub open spec fn cluster_reps(ms: Seq<usize>, k: int, w: int, params: ClusterParams) -> Seq<usize>
    decreases k,
{
    if k <= 0 {
        Seq::empty()
    } else {
        let r = cluster_reps(ms, k - 1, w, params);
        if is_dense(ms, k - 1, w, params) && !near_any(
            r,
            r.len() as int,
            ms[k - 1] as int,
            w,
            params.radius as int,
        ) {
            r.push(ms[k - 1])
        } else {
            r
        }
    }
}

/// Clustering policy: the dense matches form at least `min_clusters` clusters.
pub open spec fn advanced_detects(
    img: &PixelBuffer,
    target: Color,
    tolerance: u8,
    params: ClusterParams,
) -> bool {
    let ms = match_indices(img, img.pixel_count(), target, tolerance);
    cluster_reps(ms, ms.len() as int, img.width as int, params).len() >= params.min_clusters
}

proof fn lemma_near_any_grow(reps: Seq<usize>, j: int, k: int, p: int, w: int, radius: int)
    requires
        0 <= j <= k,
        near_any(reps, j, p, w, radius),
    ensures
        near_any(reps, k, p, w, radius),
    decreases k - j,
{
    if j < k {
        lemma_near_any_grow(reps, j, k - 1, p, w, radius);
    }
}

proof fn lemma_cluster_reps_grow(ms: Seq<usize>, j: int, k: int, w: int, params: ClusterParams)
    requires
        0 <= j <= k,
    ensures
        cluster_reps(ms, j, w, params).len() <= cluster_reps(ms, k, w, params).len(),
    decreases k - j,
{
    if j < k {
        lemma_cluster_reps_grow(ms, j, k - 1, w, params);
    }
}

/// Indices of the pixels within squared distance `(3 * tolerance)²` of `target`.
fn collect_matches(image: &PixelBuffer, target: &Color, tolerance: u8) -> (ms: Vec<usize>)
    requires
        image.wf(),
    ensures
        ms@ == match_indices(image, image.pixel_count(), *target, tolerance),
{
    let t3: u32 = tolerance as u32 * 3;
    assert(t3 * t3 <= 765 * 765) by (nonlinear_arith)
        requires
            t3 <= 765,
    ;
    let limit: u32 = t3 * t3;
    let total = image.len();
    let bytes = image.data.len();
    let mut ms: Vec<usize> = Vec::new();
    let mut i: usize = 0;
    while i < total
        invariant
            image.wf(),
            total == image.pixel_count(),
            bytes == image.data@.len(),
            i <= total,
            limit == (3 * tolerance) * (3 * tolerance),
            ms@ == match_indices(image, i as int, *target, tolerance),
        decreases total - i,
    {
        let d = target.distance_sq_rgb(
            image.data[4 * i],
            image.data[4 * i + 1],
            image.data[4 * i + 2],
        );
        if d <= limit {
            ms.push(i);
        }
        i = i + 1;
    }
    ms
}

/// Number of entries of `ms` within Chebyshev distance `radius` of pixel `p`.
fn count_nearby(ms: &Vec<usize>, p: usize, w: usize, radius: u32) -> (n: usize)
    requires
        w > 0,
    ensures
        n == nearby_count(ms@, ms@.len() as int, p as int, w as int, radius as int),
{
    let px = p % w;
    let py = p / w;
    let mut n: usize = 0;
    let mut k: usize = 0;
    while k < ms.len()
        invariant
            w > 0,
            px == p as int % w as int,
            py == p as int / w as int,
            k <= ms@.len(),
            n <= k,
            n == nearby_count(ms@, k as int, p as int, w as int, radius as int),
        decreases ms@.len() - k,
    {
        let q = ms[k];
        let qx = q % w;
        let qy = q / w;
        let dx = if px >= qx {
            px - qx
        } else {
            qx - px
        };
        let dy = if py >= qy {
            py - qy
        } else {
            qy - py
        };
        if dx <= radius as usize && dy <= radius as usize {
            n = n + 1;
        }
        k = k + 1;
    }
    n
}

/// Whether some entry of `reps` lies within Chebyshev distance `radius` of pixel `p`.
fn near_any_of(reps: &Vec<usize>, p: usize, w: usize, radius: u32) -> (r: bool)
    requires
        w > 0,
    ensures
        r == near_any(reps@, reps@.len() as int, p as int, w as int, radius as int),
{
    let px = p % w;
    let py = p / w;
    let mut k: usize = 0;
    while k < reps.len()
        invariant
            w > 0,
            px == p as int % w as int,
            py == p as int / w as int,
            k <= reps@.len(),
            !near_any(reps@, k as int, p as int, w as int, radius as int),
        decreases reps@.len() - k,
    {
        let q = reps[k];
        let qx = q % w;
        let qy = q / w;
        let dx = if px >= qx {
            px - qx
        } else {
            qx - px
        };
        let dy = if py >= qy {
            py - qy
        } else {
            qy - py
        };
        if dx <= radius as usize && dy <= radius as usize {
            proof {
                lemma_near_any_grow(
                    reps@,
                    k + 1,
                    reps@.len() as int,
                    p as int,
                    w as int,
                    radius as int,
                );
            }
            return true;
        }
        k = k + 1;
    }
    false
}

/// Clustering policy: a match is dense when at least `min_neighbors` matches
/// (itself included) lie within Chebyshev distance `radius`; dense matches
/// are grouped into clusters, and the region is detected once
/// `min_clusters` distinct clusters exist.
pub fn advanced_color_detection(
    image: &PixelBuffer,
    target: &Color,
    tolerance: u8,
    params: ClusterParams,
) -> (r: bool)
    requires
        image.wf(),
    ensures
        r == advanced_detects(image, *target, tolerance, params),
{
    let ms = collect_matches(image, target, tolerance);
    let ghost w = image.width as int;
    if params.min_clusters == 0 {
        return true;
    }
    if image.width == 0 {
        assert(image.pixel_count() == 0);
        assert(ms@.len() == 0);
        return false;
    }
    let width = image.width as usize;
    let mut reps: Vec<usize> = Vec::new();
    let mut a: usize = 0;
    while a < ms.len()
        invariant
            width as int == w,
            w == image.width,
            w > 0,
            ms@ == match_indices(image, image.pixel_count(), *target, tolerance),
            a <= ms@.len(),
            reps@ == cluster_reps(ms@, a as int, w, params),
            reps@.len() < params.min_clusters,
        decreases ms@.len() - a,
    {
        let c = count_nearby(&ms, ms[a], width, params.radius);
        assert(is_dense(ms@, a as int, w, params) == (c >= params.min_neighbors));
        if c >= params.min_neighbors as usize && !near_any_of(&reps, ms[a], width, params.radius) {
            reps.push(ms[a]);
            if reps.len() >= params.min_clusters as usize {
                proof {
                    lemma_cluster_reps_grow(ms@, a + 1, ms@.len() as int, w, params);
                }
                return true;
            }
        }
        a = a + 1;
    }
    false
}

} // verus!

verus! {

/// Basic policy: a non-empty buffer whose pixels all match is detected, at
/// any tolerance; a buffer with no matching pixel never is.
pub proof fn lemma_basic_all_or_nothing(img: &PixelBuffer, target: Color, tolerance: u8)
    ensures
        img.pixel_count() > 0 && (forall|i: int|
            0 <= i < img.pixel_count() ==> #[trigger] basic_match(img, i, target, tolerance))
            ==> basic_detects(img, target, tolerance),
        (forall|i: int|
            0 <= i < img.pixel_count() ==> !#[trigger] basic_match(img, i, target, tolerance))
            ==> !basic_detects(img, target, tolerance),
{
    if img.pixel_count() > 0 && (forall|i: int|
        0 <= i < img.pixel_count() ==> #[trigger] basic_match(img, i, target, tolerance)) {
        assert(basic_match(img, 0, target, tolerance));
    }
}

/// Clustering policy: a buffer with at most one matching pixel is never
/// detected, as long as a dense neighbourhood needs two or more matches.
pub proof fn lemma_isolated_match_ignored(
    img: &PixelBuffer,
    target: Color,
    tolerance: u8,
    params: ClusterParams,
)
    requires
        match_indices(img, img.pixel_count(), target, tolerance).len() <= 1,
        params.min_neighbors >= 2,
        params.min_clusters >= 1,
    ensures
        !advanced_detects(img, target, tolerance, params),
{
    let ms = match_indices(img, img.pixel_count(), target, tolerance);
    let w = img.width as int;
    if ms.len() == 1 {
        assert(nearby_count(ms, 0, ms[0] as int, w, params.radius as int) == 0);
        assert(nearby_count(ms, 1, ms[0] as int, w, params.radius as int) <= 1);
        assert(!is_dense(ms, 0, w, params));
        assert(cluster_reps(ms, 0, w, params).len() == 0);
        assert(cluster_reps(ms, 1, w, params).len() == 0);
    }
}

proof fn lemma_one_group_one_cluster(ms: Seq<usize>, k: int, w: int, params: ClusterParams)
    requires
        0 <= k <= ms.len(),
        forall|i: int, j: int|
            0 <= i < ms.len() && 0 <= j < ms.len() ==> near(
                w,
                #[trigger] ms[i] as int,
                #[trigger] ms[j] as int,
                params.radius as int,
            ),
    ensures
        cluster_reps(ms, k, w, params).len() <= 1,
        cluster_reps(ms, k, w, params).len() == 1 ==> exists|i: int|
            0 <= i < k && cluster_reps(ms, k, w, params)[0] == #[trigger] ms[i],
    decreases k,
{
    if k > 0 {
        lemma_one_group_one_cluster(ms, k - 1, w, params);
        let r = cluster_reps(ms, k - 1, w, params);
        if r.len() == 1 {
            let i = choose|i: int| 0 <= i < k - 1 && r[0] == #[trigger] ms[i];
            assert(near(w, ms[k - 1] as int, ms[i] as int, params.radius as int));
            assert(near_any(r, 1, ms[k - 1] as int, w, params.radius as int));
        }
    }
}

/// Clustering policy: matches that all lie within `radius` of one another
/// form a single cluster, which is not enough when two or more are needed.
pub proof fn lemma_single_group_ignored(
    img: &PixelBuffer,
    target: Color,
    tolerance: u8,
    params: ClusterParams,
)
    requires
        params.min_clusters >= 2,
        forall|i: int, j: int|
            0 <= i < match_indices(img, img.pixel_count(), target, tolerance).len() && 0 <= j
                < match_indices(img, img.pixel_count(), target, tolerance).len() ==> near(
                img.width as int,
                #[trigger] match_indices(img, img.pixel_count(), target, tolerance)[i] as int,
                #[trigger] match_indices(img, img.pixel_count(), target, tolerance)[j] as int,
                params.radius as int,
            ),
    ensures
        !advanced_detects(img, target, tolerance, params),
{
    let ms = match_indices(img, img.pixel_count(), target, tolerance);
    lemma_one_group_one_cluster(ms, ms.len() as int, img.width as int, params);
}

} // verus!
