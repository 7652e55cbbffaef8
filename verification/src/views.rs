//! Retained-view description values: inert pairings of views that a driver
//! runs alongside each other, and of a task with its event handler.

use vstd::prelude::*;

use core::marker::PhantomData;

verus! {

/// The view for [`fork`].
#[derive(Debug)]
#[must_use]
pub struct Fork<Active, Alongside> {
    pub active_view: Active,
    pub alongside_view: Alongside,
}

/// Create a view which acts as `active_view`, whilst also running
/// `alongside_view`, without inserting it into the tree.
pub fn fork<Active, Alongside>(active_view: Active, alongside_view: Alongside) -> (r: Fork<
    Active,
    Alongside,
>)
    ensures
        r == (Fork { active_view, alongside_view }),
{
    Fork { active_view, alongside_view }
}

/// A task description: a future initializer paired with the handler that
/// turns each message the task sends into an action on the app's state.
pub struct Task<F, H, M> {
    pub init_future: F,
    pub on_event: H,
    pub message: PhantomData<M>,
}

/// Launch a task which will run until the view is no longer in the tree.
///
/// `init_future` is given a message proxy, which it stores in the future it
/// returns; `on_event` turns each message sent through that proxy into an
/// action on the app's state.  This value only describes the task: a driver
/// builds and runs it.
pub fn task_raw<F, H, M>(init_future: F, on_event: H) -> (r: Task<F, H, M>)
    ensures
        r.init_future == init_future,
        r.on_event == on_event,
{
    Task { init_future, on_event, message: PhantomData }
}

} // verus!
