//! Pin-to-channel registry: an arena of channel caches indexed by pin
//! identifier, with unique keys, populated lazily on first use and never
//! emptied during normal operation. Facades hold an index into the arena
//! rather than a private copy of the state, so one writer per channel can
//! be enforced; when several facades share one board, the surrounding
//! application guards the whole registry with one exclusive lock.

use vstd::prelude::*;

use crate::pin::Gpio;
use crate::pwm::PwmChannelState;

verus! {

/// The arena of channel caches, keyed by pin.
pub struct ChannelRegistry {
    pub entries: Vec<(Gpio, PwmChannelState)>,
}

impl ChannelRegistry {
    /// No pin appears twice.
    pub open spec fn wf(self) -> bool {
        forall|i: int, j: int|
            0 <= i < j < self.entries@.len() ==> self.entries@[i].0 != self.entries@[j].0
    }

    /// Whether a pin already has a channel.
    pub open spec fn has_key(self, gpio: Gpio) -> bool {
        exists|i: int| 0 <= i < self.entries@.len() && self.entries@[i].0 == gpio
    }

    /// An empty registry.
    pub fn new() -> (r: ChannelRegistry)
        ensures
            r.entries@.len() == 0,
            r.wf(),
    {
        ChannelRegistry { entries: Vec::new() }
    }

    /// The index of a pin's channel, if the pin has one.
    pub fn find(&self, gpio: Gpio) -> (r: Option<usize>)
        ensures
            r is Some <==> self.has_key(gpio),
            r is Some ==> r.unwrap() < self.entries@.len() && self.entries@[
                r.unwrap() as int
            ].0 == gpio,
    {
        let mut i: usize = 0;
        while i < self.entries.len()
            invariant
                i <= self.entries@.len(),
                forall|j: int| 0 <= j < i ==> self.entries@[j].0 != gpio,
            decreases self.entries@.len() - i,
        {
            if self.entries[i].0 == gpio {
                return Some(i);
            }
            i = i + 1;
        }
        None
    }

    /// The index of a pin's channel, creating a never-written one on first
    /// use. Returns the index and whether the entry is new; every other
    /// entry is untouched.
    pub fn ensure_channel(&mut self, gpio: Gpio) -> (r: (usize, bool))
        requires
            old(self).wf(),
        ensures
            final(self).wf(),
            r.0 < final(self).entries@.len(),
            final(self).entries@[r.0 as int].0 == gpio,
            final(self).has_key(gpio),
            r.1 ==> !old(self).has_key(gpio) && final(self).entries@ == old(
                self,
            ).entries@.push((gpio, PwmChannelState { enabled: false, duty_ns: 0, period_ns: 0 })),
            !r.1 ==> old(self).has_key(gpio) && final(self).entries@ == old(self).entries@,
    {
        match self.find(gpio) {
            Some(i) => (i, false),
            None => {
                let i = self.entries.len();
                self.entries.push((gpio, PwmChannelState::fresh()));
                proof {
                    assert forall|a: int, b: int|
                        0 <= a < b < self.entries@.len() implies self.entries@[a].0 != self
                        .entries@[b].0 by {
                        if b < self.entries@.len() - 1 {
                            assert(old(self).entries@[a].0 != old(self).entries@[b].0);
                        } else {
                            assert(self.entries@[a].0 != gpio);
                        }
                    }
                }
                (i, true)
            },
        }
    }

    /// The cached state of the channel at an index.
    pub fn state_at(&self, i: usize) -> (s: PwmChannelState)
        requires
            i < self.entries@.len(),
        ensures
            s == self.entries@[i as int].1,
    {
        self.entries[i].1
    }

    /// Replace the cached state of the channel at an index; the key stays,
    /// so uniqueness is kept.
    pub fn set_state(&mut self, i: usize, s: PwmChannelState)
        requires
            i < old(self).entries@.len(),
        ensures
            final(self).entries@ == old(self).entries@.update(
                i as int,
                (old(self).entries@[i as int].0, s),
            ),
            old(self).wf() ==> final(self).wf(),
    {
        let gpio = self.entries[i].0;
        self.entries.set(i, (gpio, s));
    }
}

} // verus!
