//! The options of a rebuild job and their limits.
use vstd::prelude::*;

verus! {

/// Whether `n` is a power of two.
pub open spec fn is_power_of_two(n: nat) -> bool
    decreases n,
{
    if n <= 1 {
        n == 1
    } else {
        n % 2 == 0 && is_power_of_two(n / 2)
    }
}

/// Tells whether `n` is a power of two.
pub fn power_of_two(n: u64) -> (r: bool)
    ensures
        r == is_power_of_two(n as nat),
{
    if n == 0 {
        return false;
    }
    let mut m: u64 = n;
    while m % 2 == 0
        invariant
            m > 0,
            is_power_of_two(m as nat) == is_power_of_two(n as nat),
        decreases m,
    {
        m = m / 2;
    }
    m == 1
}

/// The values of a set of options.
pub struct RebuildOptionsView {
    /// Number of concurrent copy tasks.
    pub segment_tasks: usize,
    /// Size of a segment in bytes.
    pub segment_size_bytes: u64,
    /// Number of finished jobs that are remembered.
    pub history_depth: usize,
    /// Length in seconds of the window of the recent throughput.
    pub throughput_window_secs: u64,
}

impl RebuildOptionsView {
    /// The limits of the options: between 1 and 64 copy tasks, and a segment
    /// size that is a power of two.
    pub open spec fn valid(self) -> bool {
        &&& crate::SEGMENT_TASKS_MIN <= self.segment_tasks <= crate::SEGMENT_TASKS_MAX
        &&& is_power_of_two(self.segment_size_bytes as nat)
    }
}

/// The options of a rebuild job. A value of this type is always within the
/// limits.
#[derive(Clone, Copy, Debug)]
pub struct RebuildOptions {
    segment_tasks: usize,
    segment_size_bytes: u64,
    history_depth: usize,
    throughput_window_secs: u64,
}

impl View for RebuildOptions {
    type V = RebuildOptionsView;

    closed spec fn view(&self) -> RebuildOptionsView {
        RebuildOptionsView {
            segment_tasks: self.segment_tasks,
            segment_size_bytes: self.segment_size_bytes,
            history_depth: self.history_depth,
            throughput_window_secs: self.throughput_window_secs,
        }
    }
}

impl RebuildOptions {
    #[verifier::type_invariant]
    closed spec fn inv(self) -> bool {
        self@.valid()
    }

    /// Options with the given values, or `None` when they are out of limits.
    pub fn new(
        segment_tasks: usize,
        segment_size_bytes: u64,
        history_depth: usize,
        throughput_window_secs: u64,
    ) -> (r: Option<Self>)
        ensures
            r.is_some() == (RebuildOptionsView {
                segment_tasks,
                segment_size_bytes,
                history_depth,
                throughput_window_secs,
            }).valid(),
            r.is_some() ==> r.unwrap()@ == (RebuildOptionsView {
                segment_tasks,
                segment_size_bytes,
                history_depth,
                throughput_window_secs,
            }),
    {
        if segment_tasks < crate::SEGMENT_TASKS_MIN || segment_tasks > crate::SEGMENT_TASKS_MAX {
            return None;
        }
        if !power_of_two(segment_size_bytes) {
            return None;
        }
        Some(
            RebuildOptions {
                segment_tasks,
                segment_size_bytes,
                history_depth,
                throughput_window_secs,
            },
        )
    }

    /// Number of concurrent copy tasks.
    pub fn segment_tasks(&self) -> (r: usize)
        ensures
            r == self@.segment_tasks,
            self@.valid(),
    {
        proof {
            use_type_invariant(self);
        }
        self.segment_tasks
    }

    /// Size of a segment in bytes.
    pub fn segment_size_bytes(&self) -> (r: u64)
        ensures
            r == self@.segment_size_bytes,
            self@.valid(),
    {
        proof {
            use_type_invariant(self);
        }
        self.segment_size_bytes
    }

    /// Number of finished jobs that are remembered.
    pub fn history_depth(&self) -> (r: usize)
        ensures
            r == self@.history_depth,
    {
        self.history_depth
    }

    /// Length in seconds of the window of the recent throughput.
    pub fn throughput_window_secs(&self) -> (r: u64)
        ensures
            r == self@.throughput_window_secs,
    {
        self.throughput_window_secs
    }
}

impl Default for RebuildOptions {
    /// The default options: 16 copy tasks, segments of 128 KiB, a history of
    /// 8 jobs and a throughput window of 10 seconds.
    fn default() -> (r: Self)
        ensures
            r@ == (RebuildOptionsView {
                segment_tasks: crate::SEGMENT_TASKS,
                segment_size_bytes: crate::SEGMENT_SIZE,
                history_depth: crate::HISTORY_DEPTH,
                throughput_window_secs: crate::THROUGHPUT_WINDOW_SECS,
            }),
    {
        proof {
            reveal_with_fuel(is_power_of_two, 20);
        }
        RebuildOptions {
            segment_tasks: crate::SEGMENT_TASKS,
            segment_size_bytes: crate::SEGMENT_SIZE,
            history_depth: crate::HISTORY_DEPTH,
            throughput_window_secs: crate::THROUGHPUT_WINDOW_SECS,
        }
    }
}

} // verus!
