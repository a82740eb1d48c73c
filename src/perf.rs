use vstd::prelude::*;
use std::collections::VecDeque;

verus! {

/// Number of duration samples kept.
pub const SAMPLE_CAPACITY: usize = 100;

/// The last `SAMPLE_CAPACITY` entries of `s` (all of them when there are fewer).
pub open spec fn last_window(s: Seq<u64>) -> Seq<u64> {
    if s.len() > SAMPLE_CAPACITY {
        s.subrange(s.len() - SAMPLE_CAPACITY, s.len() as int)
    } else {
        s
    }
}

/// Sum of the entries of `s`.
pub open spec fn seq_sum(s: Seq<u64>) -> int
    decreases s.len(),
{
    if s.len() == 0 {
        0
    } else {
        seq_sum(s.drop_last()) + s.last()
    }
}

/// `n + 1`, held at the largest value of the type.
pub open spec fn bump(n: int, max: int) -> int {
    if n < max {
        n + 1
    } else {
        max
    }
}

/// Rolling record of operation outcomes and durations.
#[derive(Debug)]
pub struct PerformanceMonitor {
    pub total_operations: u64,
    pub successful_operations: u64,
    pub error_count: u32,
    /// Monotonic time, in milliseconds, of the latest failed operation.
    pub last_error_ms: Option<u64>,
    /// Durations, in milliseconds, of the most recent operations, oldest first.
    pub operation_times: VecDeque<u64>,
}

impl PerformanceMonitor {
    pub open spec fn wf(&self) -> bool {
        &&& self.operation_times@.len() <= SAMPLE_CAPACITY
        &&& self.successful_operations <= self.total_operations
    }

    /// `after` is `before` with one more operation of `duration_ms` recorded at `now_ms`.
    pub open spec fn recorded(
        before: PerformanceMonitor,
        after: PerformanceMonitor,
        duration_ms: u64,
        success: bool,
        now_ms: u64,
    ) -> bool {
        &&& after.total_operations == bump(before.total_operations as int, u64::MAX as int)
        &&& after.successful_operations == if success && before.total_operations < u64::MAX {
            before.successful_operations + 1
        } else {
            before.successful_operations as int
        }
        &&& after.error_count == if success {
            before.error_count as int
        } else {
            bump(before.error_count as int, u32::MAX as int)
        }
        &&& after.last_error_ms == if success {
            before.last_error_ms
        } else {
            Some(now_ms)
        }
        &&& after.operation_times@ == last_window(before.operation_times@.push(duration_ms))
    }

    /// Success rate in whole percent: `successes * 100 / total`, 100 when nothing was recorded.
    pub open spec fn success_rate_spec(&self) -> int {
        if self.total_operations == 0 {
            100
        } else {
            (self.successful_operations * 100) as int / self.total_operations as int
        }
    }

    /// Mean of the recorded durations, rounded down; 0 when nothing was recorded.
    pub open spec fn average_spec(&self) -> int {
        if self.operation_times@.len() == 0 {
            0
        } else {
            seq_sum(self.operation_times@) / self.operation_times@.len() as int
        }
    }

    pub fn new() -> (m: PerformanceMonitor)
        ensures
            m.wf(),
            m.total_operations == 0,
            m.successful_operations == 0,
            m.error_count == 0,
            m.last_error_ms is None,
            m.operation_times@.len() == 0,
    {
        PerformanceMonitor {
            total_operations: 0,
            successful_operations: 0,
            error_count: 0,
            last_error_ms: None,
            operation_times: VecDeque::new(),
        }
    }

    /// Records one operation that took `duration_ms` and ended at `now_ms`.
    pub fn record_operation(&mut self, duration_ms: u64, success: bool, now_ms: u64)
        requires
            old(self).wf(),
        ensures
            final(self).wf(),
            Self::recorded(*old(self), *final(self), duration_ms, success, now_ms),
    {
        let room = self.total_operations < u64::MAX;
        self.total_operations = self.total_operations.saturating_add(1);
        if success {
            if room {
                self.successful_operations = self.successful_operations + 1;
            }
        } else {
            self.error_count = self.error_count.saturating_add(1);
            self.last_error_ms = Some(now_ms);
        }
        let ghost pushed = self.operation_times@.push(duration_ms);
        self.operation_times.push_back(duration_ms);
        if self.operation_times.len() > SAMPLE_CAPACITY {
            self.operation_times.pop_front();
            assert(self.operation_times@ =~= pushed.subrange(
                pushed.len() - SAMPLE_CAPACITY,
                pushed.len() as int,
            ));
        }
    }

    /// Success rate in whole percent, 100 when nothing was recorded.
    pub fn get_success_rate(&self) -> (r: u64)
        requires
            self.wf(),
        ensures
            r == self.success_rate_spec(),
            r <= 100,
    {
        if self.total_operations == 0 {
            return 100;
        }
        let s = self.successful_operations as u128;
        let t = self.total_operations as u128;
        assert(s * 100 <= t * 100);
        let r = (s * 100) / t;
        assert(r <= 100) by (nonlinear_arith)
            requires
                r as int == (s * 100) as int / t as int,
                s <= t,
                t > 0,
        ;
        r as u64
    }

    /// Mean duration, in milliseconds, of the recorded samples; 0 when there are none.
    pub fn get_average_operation_time(&self) -> (r: u64)
        requires
            self.wf(),
        ensures
            r == self.average_spec(),
    {
        let n = self.operation_times.len();
        if n == 0 {
            return 0;
        }
        let mut total: u128 = 0;
        let mut i: usize = 0;
        while i < n
            invariant
                n == self.operation_times@.len(),
                n <= SAMPLE_CAPACITY,
                i <= n,
                total == seq_sum(self.operation_times@.subrange(0, i as int)),
                total <= i * (u64::MAX as int),
            decreases n - i,
        {
            let v = self.operation_times[i];
            proof {
                let s = self.operation_times@.subrange(0, i + 1);
                assert(s.drop_last() =~= self.operation_times@.subrange(0, i as int));
            }
            total = total + v as u128;
            i = i + 1;
        }
        assert(self.operation_times@.subrange(0, n as int) =~= self.operation_times@);
        let avg = total / (n as u128);
        assert(avg <= u64::MAX) by (nonlinear_arith)
            requires
                avg as int == total as int / n as int,
                total <= n * (u64::MAX as int),
                n > 0,
        ;
        avg as u64
    }
}

} // verus!
