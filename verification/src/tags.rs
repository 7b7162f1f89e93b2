//! The tag allocator: a fresh tag for every enumeration request.

use vstd::prelude::*;

verus! {

/// The tag that is handed out once `issued` tags have been handed out
/// before it: tags count up from zero.
pub open spec fn tag_after(issued: nat) -> int {
    issued as int
}

/// Tags strictly increase in the order in which they are handed out, so no
/// two requests share one.
pub proof fn law_tags_increase(earlier: nat, later: nat)
    requires
        earlier < later,
    ensures
        tag_after(earlier) < tag_after(later),
{
}

/// Hands out tags. Its view is the number of tags handed out so far.
pub struct TagAllocator {
    next: i64,
}

impl View for TagAllocator {
    type V = nat;

    closed spec fn view(&self) -> nat {
        self.next as nat
    }
}

impl TagAllocator {
    #[verifier::type_invariant]
    spec fn counted_from_zero(self) -> bool {
        self.next >= 0
    }

    /// An allocator that has handed out nothing.
    pub fn new() -> (allocator: TagAllocator)
        ensures
            allocator@ == 0,
    {
        TagAllocator { next: 0 }
    }

    /// How many tags have been handed out.
    pub fn issued(&self) -> (issued: i64)
        ensures
            issued == self@,
    {
        proof {
            use_type_invariant(self);
        }
        self.next
    }

    /// Hands out the next tag.
    pub fn get_tag(&mut self) -> (tag: i64)
        requires
            old(self)@ < i64::MAX,
        ensures
            tag == tag_after(old(self)@),
            final(self)@ == old(self)@ + 1,
    {
        proof {
            use_type_invariant(&*self);
        }
        let tag: i64 = self.next;
        self.next = tag + 1;
        tag
    }
}

} // verus!
