//! Settings that belong to another layer of the client.

use vstd::prelude::*;

verus! {

/// A block of settings that only the layer owning it can read. The aggregate
/// keeps such a block in the encoded form that layer gave it, hands it back
/// unchanged, and never looks inside. The empty block stands for the owning
/// layer's defaults.
#[derive(Debug)]
pub struct Opaque {
    /// The block as its owner encoded it.
    pub encoded: Vec<u8>,
}

impl View for Opaque {
    type V = Seq<u8>;

    open spec fn view(&self) -> Seq<u8> {
        self.encoded@
    }
}

impl Clone for Opaque {
    fn clone(&self) -> (copy: Self)
        ensures
            copy@ == self@,
    {
        let copy = Opaque { encoded: self.encoded.clone() };
        assert(copy.encoded@ =~= self.encoded@);
        copy
    }
}

impl PartialEq for Opaque {
    /// Two blocks are equal when they hold the same bytes.
    fn eq(&self, other: &Self) -> (equal: bool) {
        if self.encoded.len() != other.encoded.len() {
            return false;
        }
        let mut at: usize = 0;
        while at < self.encoded.len()
            invariant
                at <= self.encoded.len(),
                self.encoded.len() == other.encoded.len(),
                forall|i: int| 0 <= i < at ==> self.encoded@[i] == other.encoded@[i],
            decreases self.encoded.len() - at,
        {
            if self.encoded[at] != other.encoded[at] {
                return false;
            }
            at += 1;
        }
        assert(self.encoded@ =~= other.encoded@);
        true
    }
}

impl vstd::std_specs::cmp::PartialEqSpecImpl for Opaque {
    open spec fn obeys_eq_spec() -> bool {
        true
    }

    open spec fn eq_spec(&self, other: &Self) -> bool {
        self@ == other@
    }
}

impl Eq for Opaque {

}

impl Default for Opaque {
    /// The empty block.
    fn default() -> (block: Self)
        ensures
            block@ == Seq::<u8>::empty(),
    {
        Opaque { encoded: Vec::new() }
    }
}

} // verus!
