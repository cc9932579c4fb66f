//! What is bound where, read off a list of actions.
//!
//! A binding point holds whatever was bound to it last, and nothing before
//! the first binding. That is all this module knows of the context, and it is
//! enough to say of a procedure that it describes an attribute while the
//! right buffer is bound, or that it leaves the context as it found it.
use crate::call::{ActionView, CallView};
use vstd::prelude::*;

verus! {

/// The buffer that is bound to `target` when the first `count` of `actions`
/// have been carried out.
pub open spec fn buffer_at(actions: Seq<ActionView>, target: u32, count: nat) -> u32
    decreases count,
{
    if count == 0 {
        0
    } else {
        match actions[count - 1] {
            ActionView::Issue(CallView::BindBuffer { target: bound, buffer }) => if bound == target {
                buffer
            } else {
                buffer_at(actions, target, (count - 1) as nat)
            },
            _ => buffer_at(actions, target, (count - 1) as nat),
        }
    }
}

/// The vertex array that is current when the first `count` of `actions` have
/// been carried out.
pub open spec fn array_at(actions: Seq<ActionView>, count: nat) -> u32
    decreases count,
{
    if count == 0 {
        0
    } else {
        match actions[count - 1] {
            ActionView::Issue(CallView::BindVertexArray { array }) => array,
            _ => array_at(actions, (count - 1) as nat),
        }
    }
}

/// Whether the first `count` of `actions` leave every binding point that
/// they touch empty.
pub open spec fn unbound_at(actions: Seq<ActionView>, count: nat) -> bool {
    &&& array_at(actions, count) == 0
    &&& forall|target: u32| buffer_at(actions, target, count) == 0
}

} // verus!
