use vstd::prelude::*;

verus! {

/// A reading together with the tick (in whole seconds) at which it was taken.
pub struct CachedData<T> {
    pub value: T,
    pub last_updated: u64,
}

impl<T> CachedData<T> {
    pub fn new(value: T, now: u64) -> (r: Self)
        ensures
            r.value == value,
            r.last_updated == now,
    {
        Self { value, last_updated: now }
    }

    /// Whether, at tick `now`, the reading is at least `duration` seconds old.
    pub fn is_expired(&self, now: u64, duration: u64) -> (r: bool)
        ensures
            r == (self.last_updated + duration <= now),
    {
        match now.checked_sub(self.last_updated) {
            Some(elapsed) => elapsed >= duration,
            None => false,
        }
    }
}

} // verus!
