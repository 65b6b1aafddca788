//! The registry of action handlers: at most one handler for each action.

use crate::action::MediaSessionActionType;
use std::collections::HashMap;
use vstd::prelude::*;

verus! {

broadcast use vstd::std_specs::hash::group_hash_axioms;

/// The handlers that an application has registered, by action.
///
/// `H` is whatever the embedder uses to refer to a handler. The registry
/// stores and hands out such values and never calls them.
pub struct ActionHandlers<H> {
    /// Each handler under the code of its action.
    slots: HashMap<u8, H>,
}

impl<H> View for ActionHandlers<H> {
    type V = Map<MediaSessionActionType, H>;

    closed spec fn view(&self) -> Map<MediaSessionActionType, H> {
        Map::new(
            |action: MediaSessionActionType| self.slots@.contains_key(action.spec_code()),
            |action: MediaSessionActionType| self.slots@[action.spec_code()],
        )
    }
}

impl<H> ActionHandlers<H> {
    /// A registry with no handler.
    pub fn new() -> (handlers: Self)
        ensures
            handlers@ == Map::<MediaSessionActionType, H>::empty(),
    {
        ActionHandlers { slots: HashMap::new() }
    }

    /// Registers `handler` for `action`, in place of any handler that `action` had.
    pub fn insert(&mut self, action: MediaSessionActionType, handler: H)
        ensures
            final(self)@ == old(self)@.insert(action, handler),
    {
        let _ = self.slots.insert(action.code(), handler);
    }

    /// Leaves `action` without a handler.
    pub fn remove(&mut self, action: MediaSessionActionType)
        ensures
            final(self)@ == old(self)@.remove(action),
    {
        let code: u8 = action.code();
        let _ = self.slots.remove(&code);
    }

    /// The handler registered for `action`, if there is one.
    pub fn get(&self, action: MediaSessionActionType) -> (handler: Option<&H>)
        ensures
            handler == if self@.contains_key(action) {
                Some(&self@[action])
            } else {
                None
            },
    {
        let code: u8 = action.code();
        self.slots.get(&code)
    }
}

} // verus!
