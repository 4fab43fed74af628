//! Scene objects as the frame loop sees them: an identity and an animation step.
use vstd::prelude::*;

verus! {

/// Hands out object identities, one after another.
pub struct ObjectRegistry {
    next_id: usize,
}

impl View for ObjectRegistry {
    type V = nat;

    /// The identity that the next object will get.
    closed spec fn view(&self) -> nat {
        self.next_id as nat
    }
}

impl ObjectRegistry {
    pub fn new() -> (r: ObjectRegistry)
        ensures
            r@ == 0,
    {
        ObjectRegistry { next_id: 0 }
    }

    pub fn next_id(&self) -> (r: usize)
        ensures
            r == self@,
    {
        self.next_id
    }
}

/// A scene object: its identity, and how many animation steps it has been
/// turned by (each frame turns it by one step).
#[derive(Clone, Copy, Debug, PartialEq, Eq, Structural)]
pub struct GameObject {
    pub id: usize,
    pub spin: u64,
}

/// The object after one more animation step; the count stops at its maximum.
pub open spec fn advanced(o: GameObject) -> GameObject {
    GameObject { id: o.id, spin: if o.spin == u64::MAX { o.spin } else { (o.spin + 1) as u64 } }
}

impl GameObject {
    /// A new, unturned object with the registry's next identity.
    pub fn new(registry: &mut ObjectRegistry) -> (r: GameObject)
        requires
            old(registry)@ < usize::MAX,
        ensures
            r.id == old(registry)@,
            r.spin == 0,
            final(registry)@ == old(registry)@ + 1,
    {
        let id = registry.next_id;
        registry.next_id = id + 1;
        GameObject { id, spin: 0 }
    }

    pub fn get_id(&self) -> (r: usize)
        ensures
            r == self.id,
    {
        self.id
    }

    /// Turns the object by one animation step.
    pub fn advance(&mut self)
        ensures
            *final(self) == advanced(*old(self)),
    {
        if self.spin < u64::MAX {
            self.spin = self.spin + 1;
        }
    }
}

} // verus!
