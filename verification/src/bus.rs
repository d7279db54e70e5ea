//! The action bus: a queue that hands actions out in the order in which
//! they arrived.

use crate::action::{views, Action, ActionView};
use std::collections::VecDeque;
use vstd::prelude::*;

verus! {

/// The queue of actions that wait to be processed.
#[derive(Debug)]
pub struct ActionBus {
    queue: VecDeque<Action>,
}

impl View for ActionBus {
    type V = Seq<Action>;

    closed spec fn view(&self) -> Seq<Action> {
        self.queue@
    }
}

impl ActionBus {
    /// The views of the waiting actions, first arrived first.
    pub open spec fn waiting(&self) -> Seq<ActionView> {
        views(self@)
    }

    /// An empty bus.
    pub fn new() -> (b: ActionBus)
        ensures
            b@ == Seq::<Action>::empty(),
    {
        ActionBus { queue: VecDeque::new() }
    }

    /// Puts `action` behind all actions that wait.
    pub fn send(&mut self, action: Action)
        ensures
            final(self)@ == old(self)@.push(action),
    {
        self.queue.push_back(action);
    }

    /// Takes the action that has waited longest, if any waits.
    pub fn try_recv(&mut self) -> (r: Option<Action>)
        ensures
            match r {
                Some(action) => old(self)@.len() > 0 && action == old(self)@[0] && final(self)@
                    == old(self)@.drop_first(),
                None => old(self)@.len() == 0 && final(self)@ == old(self)@,
            },
    {
        let r = self.queue.pop_front();
        proof {
            if r is Some {
                assert(self.queue@ =~= old(self).queue@.drop_first());
            }
        }
        r
    }

    /// The action at place `index` of the queue, counted from the one that
    /// has waited longest; `None` past the end.
    pub fn get(&self, index: usize) -> (r: Option<&Action>)
        ensures
            match r {
                Some(action) => index < self@.len() && *action == self@[index as int],
                None => index >= self@.len(),
            },
    {
        if index < self.queue.len() {
            Some(&self.queue[index])
        } else {
            None
        }
    }

    /// The number of actions that wait.
    pub fn len(&self) -> (n: usize)
        ensures
            n == self@.len(),
    {
        self.queue.len()
    }

    /// Whether no action waits.
    pub fn is_empty(&self) -> (r: bool)
        ensures
            r == (self@.len() == 0),
    {
        self.queue.len() == 0
    }
}

} // verus!
