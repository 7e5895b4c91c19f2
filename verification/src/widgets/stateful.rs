//! `Stateful`: a subtree regenerated from external state on every pass.
//!
//! A `Stateful` node wraps a rebuild function `(state snapshot) -> subtree`
//! that is re-invoked on every measure, draw and dispatch, caching nothing.
//! The rebuild function itself is user code living in the platform
//! layer, so the verified engine sees its output through a [`Rebuilds`]
//! table: before each pass the platform layer runs every rebuild function it
//! owns against the current state and files the fresh subtree under the
//! `render` key of the `Stateful` node.  A pass looks the subtree up, forwards
//! the call into it unchanged, and discards it afterwards, so no state leaks
//! from one pass into the next; in particular a `Button` inside a rebuilt
//! subtree starts every pass with an empty hit rectangle, exactly as a
//! freshly rebuilt subtree does.

use vstd::prelude::*;

use crate::Widget;
use crate::model::{lookup_spec, WidgetV};

verus! {

/// The opaque handle to external state a rebuild function reads.  The state
/// itself is owned outside the widget tree and mutated by whatever triggers a
/// redraw, so the engine carries the handle without looking inside.
pub struct StateContext {}

impl StateContext {
    pub fn new() -> (s: StateContext)
        ensures
            s == (StateContext {  }),
    {
        StateContext {}
    }
}

/// A node whose subtree is rebuilt from external state on every pass.
pub struct Stateful {
    /// The key under which the platform layer files the freshly rebuilt
    /// subtree for each pass.
    pub render: u64,
    /// The handle to the external state the rebuild reads.
    pub state_ctx: StateContext,
}

impl View for Stateful {
    type V = crate::model::StatefulV;

    open spec fn view(&self) -> crate::model::StatefulV {
        crate::model::StatefulV { render: self.render }
    }
}

impl Stateful {
    /// Wraps the rebuild function filed under `render` in the pass table.
    pub fn new(render: u64) -> (s: Stateful)
        ensures
            s.render == render,
    {
        Stateful { render, state_ctx: StateContext::new() }
    }
}

/// The fresh subtrees of one pass: for every `Stateful` node, the subtree its
/// rebuild function returned for the current state, filed under the node's
/// `render` key.  The table is rebuilt before each pass and never cached.
pub struct Rebuilds {
    pub entries: Vec<(u64, Widget)>,
}

impl View for Rebuilds {
    type V = Seq<(u64, WidgetV)>;

    open spec fn view(&self) -> Seq<(u64, WidgetV)> {
        Seq::new(self.entries@.len(), |i: int| (self.entries@[i].0, self.entries@[i].1@))
    }
}

impl Rebuilds {
    /// A table with no subtrees: every `Stateful` node then measures as an
    /// empty box, draws nothing and reports no actions.
    pub fn new() -> (r: Rebuilds)
        ensures
            r@ == Seq::<(u64, WidgetV)>::empty(),
    {
        Rebuilds { entries: Vec::new() }
    }

    /// Files a fresh subtree under a key.  An earlier entry with the same key
    /// keeps priority; the platform layer uses each key once per pass.
    pub fn insert(&mut self, render: u64, subtree: Widget)
        ensures
            final(self)@ == old(self)@.push((render, subtree@)),
    {
        self.entries.push((render, subtree));
    }

    /// The subtree filed under a key, if any: the first entry wins.
    pub fn lookup(&self, render: u64) -> (r: Option<&Widget>)
        ensures
            match r {
                Some(w) => lookup_spec(self@, render) == Some(w@),
                None => lookup_spec(self@, render) is None,
            },
    {
        proof {
            assert(self@.skip(0) =~= self@);
        }
        let n = self.entries.len();
        let mut i: usize = 0;
        while i < n
            invariant
                i <= n,
                n == self.entries@.len(),
                n == self@.len(),
                lookup_spec(self@, render) == lookup_spec(self@.skip(i as int), render),
            decreases n - i,
        {
            proof {
                assert(self@.skip(i as int).len() > 0);
                assert(self@.skip(i as int)[0] == self@[i as int]);
            }
            if self.entries[i].0 == render {
                proof {
                    assert(self@[i as int].0 == render);
                    assert(lookup_spec(self@.skip(i as int), render) == Some(self@[i as int].1));
                }
                return Some(&self.entries[i].1);
            }
            proof {
                assert(self@[i as int].0 != render);
                assert(self@.skip(i as int).drop_first() =~= self@.skip(i as int + 1));
            }
            i += 1;
        }
        proof {
            assert(self@.skip(n as int).len() == 0);
        }
        None
    }
}

} // verus!
