use vstd::prelude::*;

verus! {

/// Holds at most one child.
pub struct ChildSlot<W> {
    content: Option<W>,
}

impl<W> View for ChildSlot<W> {
    type V = Option<W>;

    closed spec fn view(&self) -> Option<W> {
        self.content
    }
}

/// The slot's content after adding `w` to a slot holding `held`, and the
/// child that had to leave.
pub open spec fn add_spec<W>(held: Option<W>, w: W) -> (Option<W>, Option<W>) {
    (Some(w), held)
}

impl<W> ChildSlot<W> {
    /// An empty slot.
    pub fn new() -> (r: ChildSlot<W>)
        ensures
            r@ is None,
    {
        ChildSlot { content: None }
    }

    /// Puts `w` in the slot. A child already there is taken out and handed
    /// back, so that the caller can remove it and report the misuse.
    pub fn add(&mut self, w: W) -> (evicted: Option<W>)
        ensures
            (final(self)@, evicted) == add_spec(old(self)@, w),
    {
        let evicted = self.content.take();
        self.content = Some(w);
        evicted
    }

    /// Empties the slot, handing back the child it held.
    pub fn take(&mut self) -> (r: Option<W>)
        ensures
            r == old(self)@,
            final(self)@ is None,
    {
        self.content.take()
    }

    /// The child held, if any.
    pub fn child(&self) -> (r: &Option<W>)
        ensures
            *r == self@,
    {
        &self.content
    }

    /// Whether a child is held.
    pub fn has_child(&self) -> (r: bool)
        ensures
            r == self@ is Some,
    {
        self.content.is_some()
    }
}

/// The slot never holds two children: after adding `a` and then `b`, it holds
/// exactly `b`, and `a` was handed back for removal.
pub proof fn lemma_single_child<W>(held: Option<W>, a: W, b: W)
    ensures
        ({
            let (after_a, evicted_a) = add_spec(held, a);
            let (after_b, evicted_b) = add_spec(after_a, b);
            &&& after_b == Some(b)
            &&& evicted_b == Some(a)
            &&& evicted_a == held
        }),
{
}

} // verus!
