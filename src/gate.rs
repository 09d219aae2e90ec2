//! Priority-ceiling exclusion for state shared between interrupt priorities.
//!
//! A task may touch a shared resource only while its effective priority, the
//! threshold, is at least the resource's ceiling. At that threshold no other
//! task that touches the resource can preempt it, so the access is exclusive.

use vstd::prelude::*;

verus! {

/// The effective priority a task is running at.
#[derive(Clone, Copy, Debug, PartialEq, Eq, Structural)]
pub struct Threshold {
    pub level: u8,
}

impl Threshold {
    /// The threshold of a task entered at priority `level`.
    pub fn new(level: u8) -> (r: Threshold)
        ensures
            r.level == level,
    {
        Threshold { level }
    }

    /// The threshold inside a critical section that raises to `ceiling`; a
    /// task already above the ceiling keeps its own level.
    pub fn raise(&self, ceiling: u8) -> (r: Threshold)
        ensures
            r.level == if self.level >= ceiling { self.level } else { ceiling },
            r.level >= ceiling,
            r.level >= self.level,
    {
        if self.level >= ceiling {
            Threshold { level: self.level }
        } else {
            Threshold { level: ceiling }
        }
    }
}

/// A resource guarded by a priority ceiling.
pub struct Gate<T> {
    ceiling: u8,
    resource: T,
}

impl<T> Gate<T> {
    /// The priority ceiling that guards the resource.
    pub closed spec fn spec_ceiling(&self) -> u8 {
        self.ceiling
    }

    /// The guarded value.
    pub closed spec fn spec_resource(&self) -> T {
        self.resource
    }

    /// Guards `resource` with the given ceiling, which must be at least the
    /// priority of every task that accesses it.
    pub fn new(ceiling: u8, resource: T) -> (r: Gate<T>)
        ensures
            r.spec_ceiling() == ceiling,
            r.spec_resource() == resource,
    {
        Gate { ceiling, resource }
    }

    /// The priority ceiling that guards the resource.
    pub fn ceiling(&self) -> (r: u8)
        ensures
            r == self.spec_ceiling(),
    {
        self.ceiling
    }

    /// Exclusive access to the resource, granted only at a threshold at or
    /// above the ceiling.
    pub fn access(&mut self, threshold: &Threshold) -> (r: &mut T)
        requires
            threshold.level >= old(self).spec_ceiling(),
        ensures
            *r == old(self).spec_resource(),
            final(self).spec_resource() == *final(r),
            final(self).spec_ceiling() == old(self).spec_ceiling(),
    {
        &mut self.resource
    }
}

} // verus!
