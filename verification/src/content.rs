//! The links a web view keeps to the views it opened, in the per-view table
//! of registered callbacks.

use vstd::prelude::*;

verus! {

/// The links of one web view: the view recorded as its parent, and the set of
/// views recorded as its children, each once.
pub struct ViewLinks {
    parent: Option<isize>,
    children: Vec<isize>,
}

impl View for ViewLinks {
    type V = (Option<isize>, Set<isize>);

    closed spec fn view(&self) -> (Option<isize>, Set<isize>) {
        (self.parent, self.children@.to_set())
    }
}

impl ViewLinks {
    /// No view is recorded twice among the children.
    #[verifier::type_invariant]
    closed spec fn wf(&self) -> bool {
        self.children@.no_duplicates()
    }

    /// Links with no parent and no children.
    pub fn new() -> (r: Self)
        ensures
            r@.0 is None,
            r@.1 == Set::<isize>::empty(),
    {
        ViewLinks { parent: None, children: Vec::new() }
    }

    /// The view recorded as parent, if any.
    pub fn parent(&self) -> (r: Option<isize>)
        ensures
            r == self@.0,
    {
        self.parent
    }

    /// Whether `view` is recorded as a child.
    pub fn has_child(&self, view: isize) -> (r: bool)
        ensures
            r == self@.1.contains(view),
    {
        let mut i: usize = 0;
        while i < self.children.len()
            invariant
                i <= self.children@.len(),
                forall|j: int| 0 <= j < i ==> self.children@[j] != view,
            decreases self.children@.len() - i,
        {
            if self.children[i] == view {
                assert(self.children@.to_set().contains(self.children@[i as int]));
                return true;
            }
            i = i + 1;
        }
        proof {
            if self.children@.to_set().contains(view) {
                let k = choose|k: int| 0 <= k < self.children@.len() && self.children@[k] == view;
                assert(self.children@[k] != view);
            }
        }
        false
    }

    /// Records `child` as opened by `view`, the view these links belong to: the
    /// links name `view` as the parent and hold `child` among the children, once.
    pub fn record_child_view(&mut self, view: isize, child: isize)
        ensures
            final(self)@.0 == Some(view),
            final(self)@.1 == old(self)@.1.insert(child),
    {
        proof {
            use_type_invariant(&*self);
        }
        if self.has_child(child) {
            self.parent = Some(view);
            assert(self.children@.to_set() =~= old(self)@.1.insert(child));
        } else {
            let ghost s0 = self.children@;
            let mut children: Vec<isize> = Vec::new();
            let mut i: usize = 0;
            while i < self.children.len()
                invariant
                    i <= s0.len(),
                    s0 == self.children@,
                    children@ == s0.take(i as int),
                decreases s0.len() - i,
            {
                children.push(self.children[i]);
                i = i + 1;
                assert(children@ =~= s0.take(i as int));
            }
            assert(children@ =~= s0);
            children.push(child);
            proof {
                assert forall|a: int, b: int|
                    0 <= a < b < children@.len() implies children@[a] != children@[b] by {
                    if b == s0.len() {
                        assert(s0.to_set().contains(s0[a]));
                    }
                }
                assert forall|x: isize|
                    children@.to_set().contains(x) <==> #[trigger] s0.to_set().insert(
                        child,
                    ).contains(x) by {
                    if x == child {
                        assert(children@[s0.len() as int] == child);
                    }
                    if s0.to_set().contains(x) {
                        let k = choose|k: int| 0 <= k < s0.len() && s0[k] == x;
                        assert(children@[k] == x);
                    }
                    if children@.to_set().contains(x) {
                        let k = choose|k: int| 0 <= k < children@.len() && children@[k] == x;
                        if k < s0.len() {
                            assert(s0[k] == x);
                        }
                    }
                }
                assert(children@.to_set() =~= s0.to_set().insert(child));
            }
            *self = ViewLinks { parent: Some(view), children };
        }
    }
}

impl Default for ViewLinks {
    /// Links with no parent and no children.
    fn default() -> (r: Self)
        ensures
            r@.0 is None,
            r@.1 == Set::<isize>::empty(),
    {
        ViewLinks::new()
    }
}

/// Recording a child puts it among the children, and recording the same child
/// again leaves the children as they are: each child is held once.
pub proof fn lemma_record_child_idempotent(children: Set<isize>, child: isize)
    ensures
        children.insert(child).contains(child),
        children.insert(child).insert(child) == children.insert(child),
{
    assert(children.insert(child).insert(child) =~= children.insert(child));
}

} // verus!
