//! `List`: a strictly vertical stack.
//!
//! Children are laid out in order, each against the space remaining below the
//! ones before it; the cumulative offset can never hand a child more vertical
//! room than what is left of the original box.

use vstd::prelude::*;

use crate::Widget;
use crate::model::{seq_view, ListV};

verus! {

/// A container that stacks its children vertically, in order.
pub struct List {
    pub children: Vec<Widget>,
}

impl View for List {
    type V = ListV;

    open spec fn view(&self) -> ListV {
        ListV { children: seq_view(self.children@) }
    }
}

/// Configures a [`List`] before it is frozen into the tree.
pub struct ListBuilder {
    pub children: Vec<Widget>,
}

impl ListBuilder {
    /// The starting configuration: no children.
    pub fn new() -> (b: ListBuilder)
        ensures
            b.children@ == Seq::<Widget>::empty(),
    {
        ListBuilder { children: Vec::new() }
    }

    /// Appends one child at the bottom of the stack.
    pub fn child(self, child: Widget) -> (b: ListBuilder)
        ensures
            b.children@ == self.children@.push(child),
    {
        let mut children = self.children;
        children.push(child);
        ListBuilder { children }
    }

    /// Freezes the configuration into the immutable runtime node.
    pub fn build(self) -> (l: List)
        ensures
            l.children == self.children,
    {
        List { children: self.children }
    }
}

} // verus!
