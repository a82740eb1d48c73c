use vstd::prelude::*;
use crate::classifier::{
    ClusterParams, advanced_color_detection, advanced_detects, basic_color_detection,
    basic_detects,
};
use crate::color::Color;
use crate::config::Region;
use crate::phase::elapsed;
use crate::pixels::PixelBuffer;

verus! {

/// Age, in milliseconds, past which a cached capture is dropped at the next store.
pub const RETENTION_MS: u64 = 10000;

/// A capture of `region` taken at `captured_at_ms`.
#[derive(Debug)]
pub struct CacheEntry {
    pub region: Region,
    pub image: PixelBuffer,
    pub captured_at_ms: u64,
}

/// Keys of the cache are distinct.
pub open spec fn unique_regions(c: Seq<CacheEntry>) -> bool {
    forall|i: int, j: int|
        0 <= i < c.len() && 0 <= j < c.len() && i != j ==> #[trigger] c[i].region != #[trigger] c[j].region
}

/// The cache holds a capture of `region` younger than `ttl` at `now`.
pub open spec fn has_fresh(c: Seq<CacheEntry>, region: Region, now: u64, ttl: u64) -> bool {
    exists|i: int|
        0 <= i < c.len() && (#[trigger] c[i]).region == region && elapsed(c[i].captured_at_ms, now)
            < ttl
}

/// The capture the cache answers for `region` at `now`, if a fresh one is held.
pub open spec fn cached_view(c: Seq<CacheEntry>, region: Region, now: u64, ttl: u64) -> Option<
    (u32, u32, Seq<u8>),
> {
    if has_fresh(c, region, now, ttl) {
        let i = choose|i: int|
            0 <= i < c.len() && (#[trigger] c[i]).region == region && elapsed(
                c[i].captured_at_ms,
                now,
            ) < ttl;
        Some(c[i].image@)
    } else {
        None
    }
}

/// Captures memoised per region, with the colour classifier selected by configuration.
pub struct AdvancedDetector {
    pub cache: Vec<CacheEntry>,
    /// How long a capture answers for its region.
    pub cache_duration_ms: u64,
    /// Age past which a capture is evicted; never below `cache_duration_ms`.
    pub retention_ms: u64,
    pub tolerance: u8,
    pub advanced_mode: bool,
    pub clustering: ClusterParams,
}

impl AdvancedDetector {
    pub open spec fn wf(&self) -> bool {
        &&& self.cache_duration_ms <= self.retention_ms
        &&& self.retention_ms > 0
        &&& unique_regions(self.cache@)
        &&& forall|i: int| 0 <= i < self.cache@.len() ==> (#[trigger] self.cache@[i]).image.wf()
    }

    /// What the selected policy reports for `image`.
    pub open spec fn classifies(&self, image: &PixelBuffer, target: Color) -> bool {
        if self.advanced_mode {
            advanced_detects(image, target, self.tolerance, self.clustering)
        } else {
            basic_detects(image, target, self.tolerance)
        }
    }

    pub fn new(cache_duration_ms: u64, tolerance: u8, advanced_mode: bool) -> (d: AdvancedDetector)
        ensures
            d.wf(),
            d.cache@.len() == 0,
            d.cache_duration_ms == cache_duration_ms,
            d.retention_ms == if cache_duration_ms > RETENTION_MS {
                cache_duration_ms
            } else {
                RETENTION_MS
            },
            d.tolerance == tolerance,
            d.advanced_mode == advanced_mode,
            d.clustering == ClusterParams::standard_spec(),
    {
        AdvancedDetector {
            cache: Vec::new(),
            cache_duration_ms,
            retention_ms: if cache_duration_ms > RETENTION_MS {
                cache_duration_ms
            } else {
                RETENTION_MS
            },
            tolerance,
            advanced_mode,
            clustering: ClusterParams::standard(),
        }
    }

    /// Whether `target` is present in `image`, by the configured policy.
    pub fn classify(&self, image: &PixelBuffer, target: &Color) -> (r: bool)
        requires
            image.wf(),
        ensures
            r == self.classifies(image, *target),
    {
        if self.advanced_mode {
            advanced_color_detection(image, target, self.tolerance, self.clustering)
        } else {
            basic_color_detection(image, target, self.tolerance)
        }
    }

    /// The capture of `region` held from less than `cache_duration_ms` before `now`, if any.
    pub fn get_cached(&self, region: Region, now: u64) -> (r: Option<PixelBuffer>)
        requires
            self.wf(),
        ensures
            match r {
                Some(img) => img.wf() && cached_view(
                    self.cache@,
                    region,
                    now,
                    self.cache_duration_ms,
                ) == Some(img@),
                None => cached_view(self.cache@, region, now, self.cache_duration_ms) is None,
            },
    {
        let mut i: usize = 0;
        while i < self.cache.len()
            invariant
                self.wf(),
                i <= self.cache@.len(),
                forall|j: int| 0 <= j < i ==> (#[trigger] self.cache@[j]).region != region,
            decreases self.cache@.len() - i,
        {
            let e = &self.cache[i];
            if e.region == region {
                let age = if now >= e.captured_at_ms {
                    now - e.captured_at_ms
                } else {
                    0
                };
                if age < self.cache_duration_ms {
                    proof {
                        let c = self.cache@;
                        assert(has_fresh(c, region, now, self.cache_duration_ms));
                        let k = choose|k: int|
                            0 <= k < c.len() && (#[trigger] c[k]).region == region && elapsed(
                                c[k].captured_at_ms,
                                now,
                            ) < self.cache_duration_ms;
                        assert(k == i as int);
                    }
                    return Some(e.image.duplicate());
                } else {
                    proof {
                        let c = self.cache@;
                        assert forall|k: int|
                            0 <= k < c.len() && (#[trigger] c[k]).region == region implies elapsed(
                                c[k].captured_at_ms,
                                now,
                            ) >= self.cache_duration_ms by {
                            assert(k == i as int);
                        }
                    }
                    return None;
                }
            }
            i = i + 1;
        }
        None
    }

    /// Records a capture of `region` taken at `now`, replacing the previous one,
    /// and drops captures older than `retention_ms`.
    pub fn store(&mut self, region: Region, image: PixelBuffer, now: u64)
        requires
            old(self).wf(),
            image.wf(),
        ensures
            final(self).wf(),
            final(self).cache_duration_ms == old(self).cache_duration_ms,
            final(self).retention_ms == old(self).retention_ms,
            final(self).tolerance == old(self).tolerance,
            final(self).advanced_mode == old(self).advanced_mode,
            final(self).clustering == old(self).clustering,
            final(self).cache@.len() > 0,
            final(self).cache@.last().region == region,
            final(self).cache@.last().image@ == image@,
            final(self).cache@.last().captured_at_ms == now,
            forall|j: int|
                0 <= j < final(self).cache@.len() - 1 ==> old(self).cache@.contains(
                    #[trigger] final(self).cache@[j],
                ) && final(self).cache@[j].region != region && elapsed(
                    final(self).cache@[j].captured_at_ms,
                    now,
                ) < old(self).retention_ms,
            forall|j: int|
                0 <= j < old(self).cache@.len() && (#[trigger] old(self).cache@[j]).region
                    != region && elapsed(old(self).cache@[j].captured_at_ms, now)
                    < old(self).retention_ms ==> final(self).cache@.contains(old(self).cache@[j]),
    {
        let mut old_entries: Vec<CacheEntry> = Vec::new();
        std::mem::swap(&mut old_entries, &mut self.cache);
        let ghost src = old_entries@;
        let mut kept: Vec<CacheEntry> = Vec::new();
        while old_entries.len() > 0
            invariant
                src == old(self).cache@,
                self.retention_ms == old(self).retention_ms,
                self.cache_duration_ms == old(self).cache_duration_ms,
                self.tolerance == old(self).tolerance,
                self.advanced_mode == old(self).advanced_mode,
                self.clustering == old(self).clustering,
                old(self).wf(),
                unique_regions(src),
                forall|i: int| 0 <= i < src.len() ==> (#[trigger] src[i]).image.wf(),
                old_entries@ == src.subrange(0, old_entries@.len() as int),
                old_entries@.len() <= src.len(),
                forall|j: int|
                    0 <= j < kept@.len() ==> src.subrange(
                        old_entries@.len() as int,
                        src.len() as int,
                    ).contains(#[trigger] kept@[j]) && kept@[j].region != region && elapsed(
                        kept@[j].captured_at_ms,
                        now,
                    ) < old(self).retention_ms,
                forall|j: int|
                    old_entries@.len() <= j < src.len() && (#[trigger] src[j]).region != region
                        && elapsed(src[j].captured_at_ms, now) < old(self).retention_ms
                        ==> kept@.contains(src[j]),
                unique_regions(kept@),
                forall|i: int| 0 <= i < kept@.len() ==> (#[trigger] kept@[i]).image.wf(),
            decreases old_entries@.len(),
        {
            let ghost before = kept@;
            let ghost n = old_entries@.len() as int;
            let e = old_entries.pop().unwrap();
            assert(e == src[n - 1]);
            let age = if now >= e.captured_at_ms {
                now - e.captured_at_ms
            } else {
                0
            };
            if e.region != region && age < self.retention_ms {
                proof {
                    assert forall|j: int| 0 <= j < before.len() implies (#[trigger] before[j]).region
                        != e.region by {
                        assert(src.subrange(n, src.len() as int).contains(before[j]));
                        let k = choose|k: int|
                            0 <= k < src.subrange(n, src.len() as int).len() && src.subrange(
                                n,
                                src.len() as int,
                            )[k] == before[j];
                        assert(src[n + k] == before[j]);
                    }
                }
                kept.push(e);
                proof {
                    assert forall|j: int|
                        0 <= j < kept@.len() implies src.subrange(
                        n - 1,
                        src.len() as int,
                    ).contains(#[trigger] kept@[j]) && kept@[j].region != region && elapsed(
                        kept@[j].captured_at_ms,
                        now,
                    ) < old(self).retention_ms by {
                        if j < before.len() {
                            assert(kept@[j] == before[j]);
                            assert(src.subrange(n, src.len() as int).contains(before[j]));
                            let k = choose|k: int|
                                0 <= k < src.subrange(n, src.len() as int).len() && src.subrange(
                                    n,
                                    src.len() as int,
                                )[k] == before[j];
                            assert(src.subrange(n - 1, src.len() as int)[k + 1] == before[j]);
                        } else {
                            assert(kept@[j] == e);
                            assert(src.subrange(n - 1, src.len() as int)[0] == e);
                        }
                    }
                    assert forall|j: int|
                        n - 1 <= j < src.len() && (#[trigger] src[j]).region != region && elapsed(
                            src[j].captured_at_ms,
                            now,
                        ) < old(self).retention_ms implies kept@.contains(src[j]) by {
                        if j == n - 1 {
                            assert(kept@[before.len() as int] == src[j]);
                        } else {
                            let k = choose|k: int| 0 <= k < before.len() && before[k] == src[j];
                            assert(kept@[k] == src[j]);
                        }
                    }
                }
            } else {
                proof {
                    assert forall|j: int|
                        n - 1 <= j < src.len() && (#[trigger] src[j]).region != region && elapsed(
                            src[j].captured_at_ms,
                            now,
                        ) < old(self).retention_ms implies kept@.contains(src[j]) by {
                        if j == n - 1 {
                            assert(false);
                        }
                    }
                    assert forall|j: int|
                        0 <= j < kept@.len() implies src.subrange(
                        n - 1,
                        src.len() as int,
                    ).contains(#[trigger] kept@[j]) && kept@[j].region != region && elapsed(
                        kept@[j].captured_at_ms,
                        now,
                    ) < old(self).retention_ms by {
                        assert(src.subrange(n, src.len() as int).contains(before[j]));
                        let k = choose|k: int|
                            0 <= k < src.subrange(n, src.len() as int).len() && src.subrange(
                                n,
                                src.len() as int,
                            )[k] == before[j];
                        assert(src.subrange(n - 1, src.len() as int)[k + 1] == before[j]);
                    }
                }
            }
        }
        assert(src.subrange(0, src.len() as int) =~= src);
        let ghost before = kept@;
        kept.push(CacheEntry { region, image, captured_at_ms: now });
        proof {
            assert forall|j: int| 0 <= j < kept@.len() - 1 implies old(self).cache@.contains(
                #[trigger] kept@[j],
            ) by {
                assert(kept@[j] == before[j]);
            }
            assert forall|i: int, j: int|
                0 <= i < kept@.len() && 0 <= j < kept@.len() && i != j implies #[trigger] kept@[i].region
                != #[trigger] kept@[j].region by {
                if i < before.len() && j < before.len() {
                    assert(before[i].region != before[j].region);
                }
            }
            assert forall|j: int|
                0 <= j < old(self).cache@.len() && (#[trigger] old(self).cache@[j]).region != region
                    && elapsed(old(self).cache@[j].captured_at_ms, now) < old(self).retention_ms implies kept@.contains(
                old(self).cache@[j],
            ) by {
                let k = choose|k: int| 0 <= k < before.len() && before[k] == src[j];
                assert(kept@[k] == src[j]);
            }
        }
        self.cache = kept;
    }
}

/// Two requests for one region: after a capture is stored at `t0`, a request
/// at `t1` is answered from the cache with that same capture while less than
/// `cache_duration_ms` has passed, and finds nothing (so one new capture is
/// taken) once it has.
pub proof fn lemma_cache_answers_until_expiry(
    d: AdvancedDetector,
    region: Region,
    image: PixelBuffer,
    t0: u64,
    t1: u64,
)
    requires
        d.wf(),
        d.cache@.len() > 0,
        d.cache@.last().region == region,
        d.cache@.last().image@ == image@,
        d.cache@.last().captured_at_ms == t0,
    ensures
        elapsed(t0, t1) < d.cache_duration_ms ==> cached_view(
            d.cache@,
            region,
            t1,
            d.cache_duration_ms,
        ) == Some(image@),
        elapsed(t0, t1) >= d.cache_duration_ms ==> cached_view(
            d.cache@,
            region,
            t1,
            d.cache_duration_ms,
        ) is None,
{
    let c = d.cache@;
    let last = c.len() - 1;
    assert(c[last].region == region);
    if elapsed(t0, t1) < d.cache_duration_ms {
        assert(has_fresh(c, region, t1, d.cache_duration_ms));
        let i = choose|i: int|
            0 <= i < c.len() && (#[trigger] c[i]).region == region && elapsed(
                c[i].captured_at_ms,
                t1,
            ) < d.cache_duration_ms;
        assert(i == last);
    } else {
        assert forall|i: int|
            0 <= i < c.len() && (#[trigger] c[i]).region == region implies elapsed(
            c[i].captured_at_ms,
            t1,
        ) >= d.cache_duration_ms by {
            assert(i == last);
        }
    }
}

} // verus!
