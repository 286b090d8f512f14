//! The place where the currently usable device is kept.

use std::sync::Arc;
use vstd::prelude::*;

verus! {

/// Holds at most one reference to a device.
///
/// The owner of the connection puts a device in when it connects and takes it
/// out when it disconnects; a menu callback takes a copy of the reference and
/// writes through that copy. The slot itself is plain data: whoever shares it
/// between threads puts it behind a lock, and holds the lock while a
/// reference is copied or replaced, never while a write is under way.
pub struct DeviceSlot<D> {
    held: Option<Arc<D>>,
}

/// `Arc::clone`: a second reference to the same device. The contract claims
/// that the new reference points at the value the old one points at.
#[verifier::external_body]
pub(crate) fn share<D>(device: &Arc<D>) -> (other: Arc<D>)
    ensures
        other == *device,
{
    Arc::clone(device)
}

impl<D> DeviceSlot<D> {
    /// The device in the slot, if there is one.
    pub closed spec fn view(&self) -> Option<Arc<D>> {
        self.held
    }

    /// An empty slot.
    pub fn new() -> (slot: Self)
        ensures
            slot@ is None,
    {
        DeviceSlot { held: None }
    }

    /// Whether no device is in the slot.
    pub fn is_empty(&self) -> (empty: bool)
        ensures
            empty == (self@ is None),
    {
        self.held.is_none()
    }

    /// Puts `new` in the place of whatever the slot held. Never fails.
    pub fn replace(&mut self, new: Option<Arc<D>>)
        ensures
            final(self)@ == new,
    {
        self.held = new;
    }

    /// A copy of the reference in the slot; the slot keeps its own.
    pub fn snapshot(&self) -> (device: Option<Arc<D>>)
        ensures
            device == self@,
    {
        match &self.held {
            Some(device) => Some(share(device)),
            None => None,
        }
    }
}

} // verus!
