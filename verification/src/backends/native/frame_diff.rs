use vstd::prelude::*;

verus! {

/// Default downscale factor for comparison (4x reduces 1920 to 480).
pub const DEFAULT_DOWNSCALE_FACTOR: u32 = 4;

/// Force a capture after this many seconds even if the frame hasn't changed.
pub const DEFAULT_FORCE_INTERVAL_SECS: u64 = 10;

/// Nanoseconds in a second.
pub const NANOS_PER_SEC: u128 = 1_000_000_000;

/// The size of an image downscaled by `factor`: each side divided by it,
/// and at least one pixel.
pub open spec fn shrunk(side: u32, factor: u32) -> u32 {
    if side / factor >= 1 {
        side / factor
    } else {
        1
    }
}

/// The width and height of an image of `width` x `height` pixels after
/// downscaling by `factor` (nearest-neighbour, at least 1 x 1).
pub fn downscaled_size(width: u32, height: u32, factor: u32) -> (r: (u32, u32))
    requires
        factor > 0,
    ensures
        r.0 == shrunk(width, factor),
        r.1 == shrunk(height, factor),
        r.0 >= 1,
        r.1 >= 1,
{
    let w = width / factor;
    let h = height / factor;
    (if w >= 1 {
        w
    } else {
        1
    }, if h >= 1 {
        h
    } else {
        1
    })
}

/// Whole seconds from `earlier` to `later`, both in nanoseconds on one
/// monotonic clock (0 where `later` is not after `earlier`).
pub open spec fn whole_seconds_between(earlier: u128, later: u128) -> int {
    if later >= earlier {
        (later - earlier) as int / NANOS_PER_SEC as int
    } else {
        0
    }
}

/// Decides which consecutive frames differ enough to be processed.
///
/// It keeps the last frame that was processed (the baseline) and when that
/// happened. A frame counts as a change when there is no baseline yet, when
/// the force interval has passed since the baseline was taken (a safety
/// valve for slow-changing screens), or when the comparison that the caller
/// supplies says that it differs from the baseline. A frame that counts as a
/// change becomes the new baseline; any other frame leaves the detector as it
/// was.
pub struct ChangeDetector<T> {
    force_interval_secs: u64,
    previous: Option<T>,
    last_processed_ns: u128,
}

impl<T> ChangeDetector<T> {
    /// The force interval, in seconds.
    pub closed spec fn force_interval(&self) -> u64 {
        self.force_interval_secs
    }

    /// The last frame processed, if any.
    pub closed spec fn baseline(&self) -> Option<T> {
        self.previous
    }

    /// When the last frame was processed, in nanoseconds of the caller's
    /// monotonic clock.
    pub closed spec fn processed_at(&self) -> u128 {
        self.last_processed_ns
    }

    /// A detector with no baseline, created at `now_ns`.
    pub fn new(force_interval_secs: u64, now_ns: u128) -> (d: Self)
        ensures
            d.force_interval() == force_interval_secs,
            d.baseline() is None,
            d.processed_at() == now_ns,
    {
        ChangeDetector { force_interval_secs, previous: None, last_processed_ns: now_ns }
    }

    /// Whether `current`, seen at `now_ns`, has changed enough to be
    /// processed. `differs` compares the baseline with `current`; it is called
    /// only where neither the missing baseline nor the force interval decides.
    pub fn has_changed<F: FnOnce(&T, &T) -> bool>(
        &mut self,
        now_ns: u128,
        current: T,
        differs: F,
    ) -> (changed: bool)
        requires
            forall|a: &T, b: &T| #[trigger] differs.requires((a, b)),
        ensures
            final(self).force_interval() == old(self).force_interval(),
            old(self).baseline() is None ==> changed,
            old(self).baseline() is Some && whole_seconds_between(
                old(self).processed_at(),
                now_ns,
            ) >= old(self).force_interval() ==> changed,
            old(self).baseline() is Some && whole_seconds_between(
                old(self).processed_at(),
                now_ns,
            ) < old(self).force_interval() ==> differs.ensures(
                (&old(self).baseline()->0, &current),
                changed,
            ),
            changed ==> final(self).baseline() == Some(current),
            changed ==> final(self).processed_at() == now_ns,
            !changed ==> final(self).baseline() == old(self).baseline(),
            !changed ==> final(self).processed_at() == old(self).processed_at(),
    {
        let changed = match &self.previous {
            None => true,
            Some(previous) => {
                let elapsed = if now_ns >= self.last_processed_ns {
                    now_ns - self.last_processed_ns
                } else {
                    0
                };
                if elapsed / NANOS_PER_SEC >= self.force_interval_secs as u128 {
                    true
                } else {
                    differs(previous, &current)
                }
            },
        };
        if changed {
            self.previous = Some(current);
            self.last_processed_ns = now_ns;
        }
        changed
    }
}

} // verus!
