//! The identifier of a background layer.

use vstd::prelude::*;

verus! {

/// Number of background layers that the display has.
pub const BACKGROUNDS: u8 = 4;

/// Names one of the four background layers by its slot.
#[derive(Clone, Copy, Debug)]
pub struct BackgroundID(u8);

impl BackgroundID {
    /// The slot of the layer that this identifier names.
    pub closed spec fn slot(&self) -> u8 {
        self.0
    }

    /// An identifier is valid when its slot is one of the four.
    #[verifier::type_invariant]
    pub closed spec fn wf(&self) -> bool {
        self.0 < BACKGROUNDS
    }

    /// The slot of a valid identifier is below four.
    pub proof fn lemma_slot_in_range(&self)
        requires
            self.wf(),
        ensures
            self.slot() < BACKGROUNDS,
    {
    }

    /// The identifier of the layer in `slot`, where there is such a layer.
    pub fn new(slot: u8) -> (id: Option<BackgroundID>)
        ensures
            id is Some <==> slot < BACKGROUNDS,
            id matches Some(back) ==> back.slot() == slot && back.wf(),
    {
        if slot < BACKGROUNDS {
            Some(BackgroundID(slot))
        } else {
            None
        }
    }

    /// The slot of the layer, from 0 to 3.
    pub fn index(&self) -> (slot: u8)
        ensures
            slot == self.slot(),
            slot < BACKGROUNDS,
            self.wf(),
    {
        proof {
            use_type_invariant(self);
        }
        self.0
    }
}

} // verus!
