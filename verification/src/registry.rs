//! The registry of the global tracker: a slot that is filled at most once,
//! and the switch that turns tracking on and off.

use vstd::prelude::*;

verus! {

/// Returned if trying to set the global tracker fails.
#[derive(Clone, Copy, Debug, PartialEq, Eq)]
pub struct SetTrackerError;

/// Handles registering the global tracker and enabling or disabling tracking.
///
/// The registry holds at most one tracker. The first one that is set stays:
/// it is never replaced or removed. Apart from that the registry holds the
/// switch for tracking, which is off at first. Events are handed to the
/// tracker only while a tracker is set and the switch is on.
#[derive(Clone)]
pub struct AllocationRegistry<T> {
    tracker: Option<T>,
    enabled: bool,
}

impl<T> AllocationRegistry<T> {
    /// The tracker, if one was set.
    pub closed spec fn tracker(&self) -> Option<T> {
        self.tracker
    }

    /// Whether the switch for tracking is on.
    pub closed spec fn enabled(&self) -> bool {
        self.enabled
    }

    /// Whether events reach a tracker: one is set, and the switch is on.
    pub open spec fn tracking(&self) -> bool {
        self.enabled() && self.tracker() is Some
    }

    /// A registry without a tracker, with the switch off.
    pub fn new() -> (registry: AllocationRegistry<T>)
        ensures
            registry.tracker() is None,
            !registry.enabled(),
    {
        AllocationRegistry { tracker: None, enabled: false }
    }

    /// Sets the global tracker.
    ///
    /// Setting a global tracker does not enable or disable the tracking of allocations, so callers
    /// still need to call `enable_tracking` after this in order to fully enable tracking.
    ///
    /// # Errors
    /// `Err(SetTrackerError)` is returned if a global tracker has already been set. The tracker
    /// that was set first stays, and the registry does not change.
    pub fn set_global_tracker(&mut self, tracker: T) -> (set: Result<(), SetTrackerError>)
        ensures
            final(self).enabled() == old(self).enabled(),
            old(self).tracker() is None ==> set is Ok && final(self).tracker() == Some(tracker),
            old(self).tracker() is Some ==> set is Err && final(self).tracker() == old(
                self,
            ).tracker(),
    {
        if self.tracker.is_some() {
            Err(SetTrackerError)
        } else {
            self.tracker = Some(tracker);
            Ok(())
        }
    }

    /// Enables the tracking of allocations.
    pub fn enable_tracking(&mut self)
        ensures
            final(self).enabled(),
            final(self).tracker() == old(self).tracker(),
    {
        self.enabled = true;
    }

    /// Disables the tracking of allocations.
    ///
    /// Allocations made while tracking is off are still tagged with their
    /// group, so that they are reported correctly when they are released
    /// after tracking was turned on again.
    pub fn disable_tracking(&mut self)
        ensures
            !final(self).enabled(),
            final(self).tracker() == old(self).tracker(),
    {
        self.enabled = false;
    }

    /// Whether events reach a tracker: one is set, and tracking is enabled.
    #[verifier::when_used_as_spec(tracking)]
    pub fn is_tracking(&self) -> (tracking: bool)
        ensures
            tracking == self.tracking(),
    {
        self.enabled && self.tracker.is_some()
    }

    /// The tracker that events are to be handed to: the global tracker if
    /// one is set and tracking is enabled, and none otherwise.
    pub fn get_global_tracker(&self) -> (tracker: Option<&T>)
        ensures
            self.tracking() ==> tracker is Some && Some(*tracker.unwrap()) == self.tracker(),
            !self.tracking() ==> tracker is None,
    {
        // If tracking isn't enabled, then there's no point returning the tracker.
        if !self.enabled {
            return None;
        }
        self.tracker.as_ref()
    }
}

} // verus!
