//! Finding the item of a picker that is to take the keyboard focus.

use vstd::prelude::*;

verus! {

/// The item at `at` wraps an indicator, and that indicator is active.
pub open spec fn is_active_at(items: Seq<Option<bool>>, at: int) -> bool {
    0 <= at < items.len() && items[at] == Some(true)
}

/// Finds the first active item. Each item is given by the state of the
/// indicator it wraps: `None` where it wraps none, else whether that indicator
/// is active. The answer is the position of the first active item, and `None`
/// where no item is active.
pub fn find_active(items: &Vec<Option<bool>>) -> (found: Option<usize>)
    ensures
        match found {
            Some(at) => is_active_at(items@, at as int) && forall|earlier: int|
                0 <= earlier < at ==> !is_active_at(items@, earlier),
            None => forall|at: int| !is_active_at(items@, at),
        },
{
    let mut at: usize = 0;
    while at < items.len()
        invariant
            at <= items.len(),
            forall|earlier: int| 0 <= earlier < at ==> !is_active_at(items@, earlier),
        decreases items.len() - at,
    {
        match items[at] {
            Some(true) => {
                return Some(at);
            },
            _ => {},
        }
        at += 1;
    }
    None
}

} // verus!
