//! The stack of namespace bases against which relative module names are
//! resolved.
use vstd::prelude::*;

verus! {

/// The namespace bases of the scoped modules that are being run, outermost
/// first.
pub struct ScopeStack {
    bases: Vec<String>,
}

impl View for ScopeStack {
    type V = Seq<Seq<char>>;

    closed spec fn view(&self) -> Seq<Seq<char>> {
        Seq::new(self.bases@.len(), |i: int| self.bases@[i]@)
    }
}

/// The top of a stack, if it has one.
pub open spec fn top_of(stack: Seq<Seq<char>>) -> Option<Seq<char>> {
    if stack.len() == 0 {
        None
    } else {
        Some(stack.last())
    }
}

/// The stack without its top; the empty stack stays empty.
pub open spec fn popped(stack: Seq<Seq<char>>) -> Seq<Seq<char>> {
    if stack.len() == 0 {
        stack
    } else {
        stack.drop_last()
    }
}

impl ScopeStack {
    /// The empty stack.
    pub fn new() -> (s: ScopeStack)
        ensures
            s@ == Seq::<Seq<char>>::empty(),
    {
        let s = ScopeStack { bases: Vec::new() };
        assert(s@ =~= Seq::<Seq<char>>::empty());
        s
    }

    /// The number of bases on the stack.
    pub fn depth(&self) -> (n: usize)
        ensures
            n == self@.len(),
    {
        self.bases.len()
    }

    /// Puts `base` on top of the stack.
    pub fn push(&mut self, base: String)
        ensures
            final(self)@ == old(self)@.push(base@),
    {
        self.bases.push(base);
        assert(self@ =~= old(self)@.push(base@));
    }

    /// Takes the top off the stack. On the empty stack this does nothing.
    pub fn pop(&mut self)
        ensures
            final(self)@ == popped(old(self)@),
    {
        let _ = self.bases.pop();
        assert(self@ =~= popped(old(self)@));
    }

    /// The base on top of the stack, or `None` when the stack is empty.
    pub fn current_base(&self) -> (r: Option<String>)
        ensures
            match top_of(self@) {
                Some(base) => r matches Some(b) && b@ == base,
                None => r is None,
            },
    {
        let n = self.bases.len();
        if n == 0 {
            None
        } else {
            Some(self.bases[n - 1].clone())
        }
    }
}

} // verus!
