//! A shared cons list with a look at its tail.

use std::rc::Rc;
use vstd::prelude::*;

verus! {

/// A cons list whose tails may be shared.
pub enum List {
    Cons(i32, Rc<List>),
    Nil,
}

impl List {
    /// The rest of the list, or nothing at its end.
    pub fn tail(&self) -> (rest: Option<&Rc<List>>)
        ensures
            match *self {
                List::Cons(_, item) => rest matches Some(p) && *p == item,
                List::Nil => rest is None,
            },
    {
        match self {
            List::Cons(_, item) => Some(item),
            List::Nil => None,
        }
    }
}

} // verus!
