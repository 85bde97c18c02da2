//! Editor window resizing: debouncing of resize requests and the bookkeeping
//! between sizes the editor asks for and sizes the host commits. Sizes reach
//! this module already constrained to the resize policy; points in time are
//! nanoseconds on a monotonic clock.
use vstd::prelude::*;

verus! {

/// Distance between two sizes along one axis.
pub open spec fn abs_diff(a: u32, b: u32) -> int {
    if a >= b { a - b } else { b - a }
}

/// Time from `earlier` to `later` in nanoseconds; zero when `later` comes
/// first.
pub open spec fn elapsed_nanos(later: u64, earlier: u64) -> int {
    if later >= earlier { later - earlier } else { 0 }
}

/// Drops resize requests that change the size by no more than the epsilons
/// and come sooner than `min_interval_nanos` after the last one.
#[derive(Debug, Clone, Copy)]
pub struct ResizeDebounce {
    /// Minimum time between two requests, in nanoseconds.
    pub min_interval_nanos: u64,
    pub epsilon_width: u32,
    pub epsilon_height: u32,
}

impl Default for ResizeDebounce {
    /// 8 ms and one pixel along each axis.
    fn default() -> (d: Self)
        ensures
            d.min_interval_nanos == 8_000_000,
            d.epsilon_width == 1,
            d.epsilon_height == 1,
    {
        ResizeDebounce { min_interval_nanos: 8_000_000, epsilon_width: 1, epsilon_height: 1 }
    }
}

/// Whether `current` differs from `last` by no more than the debounce's
/// epsilons along each axis.
pub open spec fn within_epsilon(d: ResizeDebounce, last: (u32, u32), current: (u32, u32)) -> bool {
    abs_diff(last.0, current.0) <= d.epsilon_width && abs_diff(last.1, current.1) <= d.epsilon_height
}

fn u32_abs_diff(a: u32, b: u32) -> (r: u32)
    ensures
        r == abs_diff(a, b),
{
    if a >= b { a - b } else { b - a }
}

/// Whether debounce `d` drops a request for `current` at `now`, the last
/// request being `last` (size and time).
pub open spec fn skips(d: ResizeDebounce, last: Option<(u32, u32, u64)>, current: (u32, u32), now: u64) -> bool {
    match last {
        Some(l) => within_epsilon(d, (l.0, l.1), current) && elapsed_nanos(now, l.2) < d.min_interval_nanos,
        None => false,
    }
}

impl ResizeDebounce {
    /// The skip decision once it is known whether the last request came less
    /// than `min_interval` ago: skip when there is a last request, the size
    /// changed within the epsilons and it came that soon.
    pub fn skip_decision(&self, last_size: Option<(u32, u32)>, current_size: (u32, u32), came_soon: bool)
        -> (r: bool)
        ensures
            r == (last_size matches Some(l) && within_epsilon(*self, l, current_size) && came_soon),
    {
        match last_size {
            Some((w, h)) => {
                u32_abs_diff(w, current_size.0) <= self.epsilon_width
                    && u32_abs_diff(h, current_size.1) <= self.epsilon_height && came_soon
            },
            None => false,
        }
    }

    /// Whether a request for `current_size` at `now` is to be dropped: only
    /// when the last request (size and time) is within the epsilons of it and
    /// less than `min_interval_nanos` before `now`. Never without a last request.
    pub fn should_skip(&self, last: Option<(u32, u32, u64)>, current_size: (u32, u32), now: u64) -> (r: bool)
        ensures
            r == skips(*self, last, current_size, now),
    {
        match last {
            Some((w, h, ts)) => {
                let elapsed: u64 = if now >= ts { now - ts } else { 0 };
                let came_soon = elapsed < self.min_interval_nanos;
                self.skip_decision(Some((w, h)), current_size, came_soon)
            },
            None => false,
        }
    }
}

/// Sizes of the editor window as the host committed them and as the editor
/// requested them.
pub struct HostResizeState {
    pub debounce: ResizeDebounce,
    /// The size the host last committed.
    pub last_host_size: (u32, u32),
    /// A size requested by the editor and not yet committed or rejected.
    pub pending_requested_size: Option<(u32, u32)>,
    /// The last request that passed the debounce, with its time.
    pub last_resize_request: Option<(u32, u32, u64)>,
}

/// The size the editor is to show: the pending request if any, else the
/// host's size.
pub open spec fn current_size(s: HostResizeState) -> (u32, u32) {
    match s.pending_requested_size {
        Some(p) => p,
        None => s.last_host_size,
    }
}

impl HostResizeState {
    /// State for a window of the given (constrained) size, nothing pending.
    pub fn new(initial_size: (u32, u32), debounce: ResizeDebounce) -> (s: Self)
        ensures
            s.last_host_size == initial_size,
            s.pending_requested_size is None,
            s.last_resize_request is None,
            s.debounce == debounce,
    {
        HostResizeState {
            debounce,
            last_host_size: initial_size,
            pending_requested_size: None,
            last_resize_request: None,
        }
    }

    /// The size the editor is to show.
    pub fn size(&self) -> (r: (u32, u32))
        ensures
            r == current_size(*self),
    {
        match self.pending_requested_size {
            Some(p) => p,
            None => self.last_host_size,
        }
    }

    /// The host committed a (constrained) size: it becomes the size and any
    /// pending request is dropped. Returns the size.
    pub fn on_host_resized(&mut self, constrained: (u32, u32)) -> (r: (u32, u32))
        ensures
            r == constrained,
            *final(self) == (HostResizeState {
                last_host_size: constrained,
                pending_requested_size: None,
                ..*old(self)
            }),
            current_size(*final(self)) == constrained,
    {
        self.last_host_size = constrained;
        self.pending_requested_size = None;
        constrained
    }

    /// The editor asks for a (constrained) size at `now`. Dropped (None,
    /// nothing changed) when the debounce skips it; otherwise it becomes the
    /// last request and the pending size, and is returned.
    pub fn begin_request_from_ui(&mut self, constrained: (u32, u32), now: u64)
        -> (r: Option<(u32, u32)>)
        ensures
            (r is None) == skips(old(self).debounce, old(self).last_resize_request, constrained, now),
            r is None ==> *final(self) == *old(self),
            r matches Some(s) ==> s == constrained
                && final(self).pending_requested_size == Some(constrained)
                && final(self).last_resize_request == Some((constrained.0, constrained.1, now))
                && final(self).last_host_size == old(self).last_host_size
                && final(self).debounce == old(self).debounce
                && current_size(*final(self)) == constrained,
    {
        if self.debounce.should_skip(self.last_resize_request, constrained, now) {
            return None;
        }
        self.last_resize_request = Some((constrained.0, constrained.1, now));
        self.pending_requested_size = Some(constrained);
        Some(constrained)
    }

    /// The host refused the pending request: the host's size applies again.
    pub fn reject_pending_request(&mut self)
        ensures
            *final(self) == (HostResizeState { pending_requested_size: None, ..*old(self) }),
            current_size(*final(self)) == old(self).last_host_size,
    {
        self.pending_requested_size = None;
    }
}

} // verus!
