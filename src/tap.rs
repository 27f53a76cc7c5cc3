//! The sample tap: a pass-through observer of the decoded sample stream that
//! collects consecutive samples into fixed-size windows for analysis.

use vstd::prelude::*;

verus! {

/// Number of raw samples in one analysis window.
pub const WINDOW_SIZE: usize = 1024;

/// Collects every observed sample into a window buffer and hands the window
/// out, by value, each time it fills up.
pub struct SampleTap<T> {
    buffer: Vec<T>,
    window_size: usize,
    observed: Ghost<nat>,
    emitted: Ghost<nat>,
}

impl<T: Copy> SampleTap<T> {
    /// Capacity of a window.
    pub closed spec fn window_size(&self) -> nat {
        self.window_size as nat
    }

    /// Samples collected since the last window was handed out.
    pub closed spec fn buffered(&self) -> Seq<T> {
        self.buffer@
    }

    /// Number of samples observed since the tap was made.
    pub closed spec fn observed(&self) -> nat {
        self.observed@
    }

    /// Number of windows handed out since the tap was made.
    pub closed spec fn windows_emitted(&self) -> nat {
        self.emitted@
    }

    /// The buffer never holds a full window, and every observed sample is
    /// either in a window already handed out or still buffered.
    pub open spec fn wf(&self) -> bool {
        &&& self.window_size() > 0
        &&& self.buffered().len() < self.window_size()
        &&& self.windows_emitted() * self.window_size() + self.buffered().len() == self.observed()
    }

    /// A tap with an empty buffer.
    pub fn new(window_size: usize) -> (r: SampleTap<T>)
        requires
            window_size > 0,
        ensures
            r.wf(),
            r.window_size() == window_size,
            r.buffered() == Seq::<T>::empty(),
            r.observed() == 0,
            r.windows_emitted() == 0,
    {
        SampleTap {
            buffer: Vec::with_capacity(window_size),
            window_size,
            observed: Ghost(0),
            emitted: Ghost(0),
        }
    }

    /// Records one sample. When this sample completes a window, the whole
    /// window is returned and the buffer starts over empty.
    pub fn observe(&mut self, sample: T) -> (r: Option<Vec<T>>)
        requires
            old(self).wf(),
        ensures
            final(self).wf(),
            final(self).window_size() == old(self).window_size(),
            final(self).observed() == old(self).observed() + 1,
            old(self).buffered().len() + 1 == old(self).window_size() ==> {
                &&& r matches Some(w)
                &&& w@ == old(self).buffered().push(sample)
                &&& final(self).buffered() == Seq::<T>::empty()
                &&& final(self).windows_emitted() == old(self).windows_emitted() + 1
            },
            old(self).buffered().len() + 1 < old(self).window_size() ==> {
                &&& r is None
                &&& final(self).buffered() == old(self).buffered().push(sample)
                &&& final(self).windows_emitted() == old(self).windows_emitted()
            },
    {
        self.buffer.push(sample);
        self.observed = Ghost(self.observed@ + 1);
        if self.buffer.len() >= self.window_size {
            let mut window = Vec::with_capacity(self.window_size);
            std::mem::swap(&mut window, &mut self.buffer);
            self.emitted = Ghost(self.emitted@ + 1);
            proof {
                let k = old(self).windows_emitted();
                let n = self.window_size();
                assert((k + 1) * n == k * n + n) by (nonlinear_arith);
            }
            Some(window)
        } else {
            None
        }
    }
}

/// A stream shorter than one window never reaches the analysis path: a tap
/// that has observed fewer samples than a window holds has handed out no
/// window at all.
pub proof fn short_stream_emits_no_window<T: Copy>(tap: SampleTap<T>)
    requires
        tap.wf(),
        tap.observed() < tap.window_size(),
    ensures
        tap.windows_emitted() == 0,
{
    if tap.windows_emitted() > 0 {
        assert(tap.windows_emitted() * tap.window_size() >= tap.window_size()) by (nonlinear_arith)
            requires
                tap.windows_emitted() > 0,
        ;
    }
}

} // verus!
