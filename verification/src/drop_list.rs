//! A shared cons list, and a pointer type whose owner says goodbye; the
//! farewell itself is up to the embedding program.

use std::rc::Rc;
use vstd::prelude::*;

verus! {

/// A cons list whose tails may be shared.
pub enum List {
    Cons(i32, Rc<List>),
    Nil,
}

/// A pointer-like value carrying a message for when it is let go.
pub struct CustomSmartPointer {
    pub data: String,
}

} // verus!
