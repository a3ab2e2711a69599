//! The toggle itself: a boolean and the account that owns it.
use vstd::prelude::*;

use crate::account::AccountId;

verus! {

/// Why a message to a [`Flipper`] was rejected.
#[derive(Clone, Copy, Debug, PartialEq, Eq, Structural)]
pub enum Error {
    /// Someone other than the owner tried to flip the value.
    OnlyOwnerCanFlip,
}

/// The abstract state of a [`Flipper`]: its flag and its owner's address.
pub struct FlipperView {
    pub value: bool,
    pub owner: Seq<u8>,
}

impl FlipperView {
    /// The state right after creation with `init_value` by `owner`.
    pub open spec fn created(init_value: bool, owner: Seq<u8>) -> FlipperView {
        FlipperView { value: init_value, owner }
    }

    /// Whether `caller` is allowed to flip the value.
    pub open spec fn may_flip(self, caller: Seq<u8>) -> bool {
        caller == self.owner
    }

    /// The state after `caller` asks to flip: the value is inverted when the
    /// caller is the owner, and nothing changes otherwise.
    pub open spec fn flipped_by(self, caller: Seq<u8>) -> FlipperView {
        if self.may_flip(caller) {
            FlipperView { value: !self.value, owner: self.owner }
        } else {
            self
        }
    }

    /// What a flip requested by `caller` returns.
    pub open spec fn flip_result(self, caller: Seq<u8>) -> Result<(), Error> {
        if self.may_flip(caller) {
            Ok(())
        } else {
            Err(Error::OnlyOwnerCanFlip)
        }
    }

    /// The state after each of `callers`, in order, asks to flip.
    pub open spec fn flipped_by_all(self, callers: Seq<Seq<u8>>) -> FlipperView
        decreases callers.len(),
    {
        if callers.len() == 0 {
            self
        } else {
            self.flipped_by(callers[0]).flipped_by_all(callers.drop_first())
        }
    }
}

/// A boolean flag that only its owner can invert.
///
/// The owner is the account that created it and never changes afterwards.
pub struct Flipper {
    value: bool,
    owner: AccountId,
}

impl View for Flipper {
    type V = FlipperView;

    closed spec fn view(&self) -> FlipperView {
        FlipperView { value: self.value, owner: self.owner@ }
    }
}

impl Flipper {
    /// Creates a flag holding `init_value`, owned by `caller`.
    pub fn new(init_value: bool, caller: AccountId) -> (r: Flipper)
        ensures
            r@ == FlipperView::created(init_value, caller@),
    {
        Flipper { value: init_value, owner: caller }
    }

    /// Creates a flag holding `false`, owned by `caller`.
    pub fn default(caller: AccountId) -> (r: Flipper)
        ensures
            r@ == FlipperView::created(false, caller@),
    {
        Flipper::new(false, caller)
    }

    /// Inverts the value if `caller` is the owner; otherwise rejects the
    /// request with [`Error::OnlyOwnerCanFlip`] and leaves the state as it was.
    pub fn flip(&mut self, caller: AccountId) -> (r: Result<(), Error>)
        ensures
            r == old(self)@.flip_result(caller@),
            final(self)@ == old(self)@.flipped_by(caller@),
    {
        if caller != self.owner {
            return Err(Error::OnlyOwnerCanFlip);
        }
        self.value = !self.value;
        Ok(())
    }

    /// The current value.
    pub fn get_val(&self) -> (r: bool)
        ensures
            r == self@.value,
    {
        self.value
    }

    /// The owner's address.
    pub fn owner(&self) -> (r: AccountId)
        ensures
            r@ == self@.owner,
    {
        self.owner
    }
}

} // verus!
