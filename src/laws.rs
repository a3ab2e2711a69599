//! What holds of every flag, whatever its value, owner and callers.
use vstd::prelude::*;

use crate::flipper::{Error, FlipperView};

verus! {

/// Reading a freshly created flag gives back the value it was created with.
pub proof fn lemma_read_after_new(init_value: bool, owner: Seq<u8>)
    ensures
        FlipperView::created(init_value, owner).value == init_value,
{
}

/// A flag created without a value reads `false`.
pub proof fn lemma_read_after_default(owner: Seq<u8>)
    ensures
        FlipperView::created(false, owner).value == false,
{
}

/// Right after creation, the creator may flip: the flip succeeds and the
/// value becomes the negation of the initial one.
pub proof fn lemma_owner_flip_after_new(init_value: bool, owner: Seq<u8>)
    ensures
        FlipperView::created(init_value, owner).flip_result(owner) == Ok::<(), Error>(()),
        FlipperView::created(init_value, owner).flipped_by(owner).value == !init_value,
        FlipperView::created(init_value, owner).flipped_by(owner).owner == owner,
{
}

/// A flip requested by anyone but the owner fails with
/// `OnlyOwnerCanFlip` and leaves the state as it was.
pub proof fn lemma_non_owner_flip_rejected(s: FlipperView, caller: Seq<u8>)
    requires
        caller != s.owner,
    ensures
        s.flip_result(caller) == Err::<(), Error>(Error::OnlyOwnerCanFlip),
        s.flipped_by(caller) == s,
{
}

/// Any number of flips requested by callers other than the owner leave the
/// state, and so the value, unchanged.
pub proof fn lemma_non_owner_flips_keep_state(s: FlipperView, callers: Seq<Seq<u8>>)
    requires
        forall|i: int| 0 <= i < callers.len() ==> callers[i] != s.owner,
    ensures
        s.flipped_by_all(callers) == s,
        s.flipped_by_all(callers).value == s.value,
    decreases callers.len(),
{
    if callers.len() > 0 {
        let rest = callers.drop_first();
        assert forall|i: int| 0 <= i < rest.len() implies rest[i] != s.owner by {
            assert(rest[i] == callers[i + 1]);
        }
        lemma_non_owner_flip_rejected(s, callers[0]);
        lemma_non_owner_flips_keep_state(s, rest);
    }
}

/// Two flips by the owner in a row bring the state back to where it started.
pub proof fn lemma_owner_double_flip(s: FlipperView)
    ensures
        s.flip_result(s.owner) == Ok::<(), Error>(()),
        s.flipped_by(s.owner).flip_result(s.owner) == Ok::<(), Error>(()),
        s.flipped_by(s.owner).flipped_by(s.owner) == s,
{
}

} // verus!
