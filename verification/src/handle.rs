//! Handles and the handle table of a process.
//!
//! A handle is a capability: a reference to a kernel object together with the
//! rights that its holder has on that object. A process names its handles by
//! values that mean something in its own table only.

use vstd::prelude::*;
use crate::error::ZxError;
use crate::object::KoId;
use crate::rights::{lemma_derived_rights_within_source, Rights};

verus! {

/// The name of a handle in the table of its process. Zero names no handle.
pub type HandleValue = u32;

/// A reference to a kernel object, with the rights granted on it.
#[derive(Clone, Copy, Debug)]
pub struct Handle {
    pub object: KoId,
    pub rights: Rights,
}

impl Handle {
    pub fn new(object: KoId, rights: Rights) -> (r: Handle)
        ensures
            r == (Handle { object, rights }),
    {
        Handle { object, rights }
    }

    /// A handle to the same object with the rights among `desired` that this
    /// handle has. It never has a right that this handle lacks.
    pub fn derive(&self, desired: Rights) -> (r: Handle)
        ensures
            r.object == self.object,
            r.rights == self.rights.spec_intersection(desired),
            r.rights.subset_of(self.rights),
            r.rights.subset_of(desired),
    {
        proof {
            lemma_derived_rights_within_source(self.rights, desired);
        }
        Handle { object: self.object, rights: self.rights & desired }
    }
}

/// The handles of one process. Slot `i` holds the handle named `i + 1`, or
/// nothing once that handle is closed; a name is never given out twice.
pub struct HandleTable {
    slots: Vec<Option<Handle>>,
}

impl View for HandleTable {
    type V = Map<HandleValue, Handle>;

    /// The handles in the table, by value.
    closed spec fn view(&self) -> Map<HandleValue, Handle> {
        Map::new(
            |value: HandleValue| 1 <= value <= self.slots@.len() && self.slots@[value - 1] is Some,
            |value: HandleValue| self.slots@[value - 1]->0,
        )
    }
}

impl HandleTable {
    /// The largest number of handles that a table ever gives out.
    pub const CAPACITY: u32 = 0xffff_ffff;

    /// The value that the next handle added will get.
    pub closed spec fn next_value(&self) -> int {
        self.slots@.len() as int + 1
    }

    /// The values in use are below the next one, which is positive and at
    /// most one beyond the largest handle value.
    pub closed spec fn wf(&self) -> bool {
        self.slots@.len() <= HandleTable::CAPACITY
    }

    /// Whether the table can still give out a value.
    pub open spec fn spec_has_room(&self) -> bool {
        self.next_value() <= HandleTable::CAPACITY
    }

    /// In a well-formed table every value in use is positive and below the
    /// next one, which is at most one beyond the capacity.
    pub proof fn lemma_values_in_range(&self)
        requires
            self.wf(),
        ensures
            1 <= self.next_value() <= HandleTable::CAPACITY + 1,
            !self@.contains_key(0),
            forall|value: HandleValue| self@.contains_key(value) ==> 1 <= value < self.next_value(),
    {
    }

    /// The empty table.
    pub fn new() -> (r: HandleTable)
        ensures
            r.wf(),
            r@ == Map::<HandleValue, Handle>::empty(),
            r.next_value() == 1,
    {
        let r = HandleTable { slots: Vec::new() };
        assert(r@ =~= Map::<HandleValue, Handle>::empty());
        r
    }

    #[verifier::when_used_as_spec(spec_has_room)]
    pub fn has_room(&self) -> (r: bool)
        requires
            self.wf(),
        ensures
            r == self.spec_has_room(),
    {
        self.slots.len() < HandleTable::CAPACITY as usize
    }

    /// The handle named `value`; `WrongHandle` when the table has none.
    pub fn get(&self, value: HandleValue) -> (r: Result<Handle, ZxError>)
        ensures
            self@.contains_key(value) ==> r == Ok::<Handle, ZxError>(self@[value]),
            !self@.contains_key(value) ==> r == Err::<Handle, ZxError>(ZxError::WrongHandle),
    {
        if value == 0 || value as usize > self.slots.len() {
            return Err(ZxError::WrongHandle);
        }
        match self.slots[(value - 1) as usize] {
            Some(handle) => Ok(handle),
            None => Err(ZxError::WrongHandle),
        }
    }

    /// Puts `handle` into the table under a value that was never in use, and
    /// returns that value. The other handles stay as they are.
    pub fn add(&mut self, handle: Handle) -> (r: HandleValue)
        requires
            old(self).wf(),
            old(self).spec_has_room(),
        ensures
            final(self).wf(),
            r == old(self).next_value(),
            !old(self)@.contains_key(r),
            final(self)@ == old(self)@.insert(r, handle),
            final(self).next_value() == old(self).next_value() + 1,
    {
        self.slots.push(Some(handle));
        let r = self.slots.len() as u32;
        assert(self@ =~= old(self)@.insert(r, handle));
        r
    }

    /// Takes the handle named `value` out of the table and returns it;
    /// `WrongHandle`, and no change, when the table has none. The value is not
    /// used again.
    pub fn remove(&mut self, value: HandleValue) -> (r: Result<Handle, ZxError>)
        requires
            old(self).wf(),
        ensures
            final(self).wf(),
            final(self).next_value() == old(self).next_value(),
            old(self)@.contains_key(value) ==> r == Ok::<Handle, ZxError>(old(self)@[value])
                && final(self)@ == old(self)@.remove(value),
            !old(self)@.contains_key(value) ==> r == Err::<Handle, ZxError>(ZxError::WrongHandle)
                && final(self)@ == old(self)@,
    {
        if value == 0 || value as usize > self.slots.len() {
            return Err(ZxError::WrongHandle);
        }
        let index = (value - 1) as usize;
        match self.slots[index] {
            Some(handle) => {
                self.slots.set(index, None);
                assert(self@ =~= old(self)@.remove(value));
                Ok(handle)
            },
            None => Err(ZxError::WrongHandle),
        }
    }

    /// Whether a handle other than the one named `value` names `object`.
    pub fn has_other_handle(&self, value: HandleValue, object: KoId) -> (r: bool)
        requires
            self.wf(),
        ensures
            r == exists|other: HandleValue|
                other != value && #[trigger] self@.contains_key(other) && self@[other].object
                    == object,
    {
        let mut i: usize = 0;
        while i < self.slots.len()
            invariant
                self.wf(),
                i <= self.slots@.len(),
                forall|other: HandleValue|
                    1 <= other <= i && other != value && #[trigger] self@.contains_key(other)
                        ==> self@[other].object != object,
            decreases self.slots@.len() - i,
        {
            let name: u32 = (i + 1) as u32;
            match self.slots[i] {
                Some(handle) => {
                    if name != value && handle.object == object {
                        assert(self@.contains_key(name) && self@[name].object == object);
                        return true;
                    }
                },
                None => {},
            }
            i = i + 1;
        }
        false
    }
}

} // verus!
